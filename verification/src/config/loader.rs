//! What a user is told about a configuration that cannot be loaded.

use crate::text::{decimal, number, starts_with};
use vstd::prelude::*;

verus! {

/// The name that stands for the file where the configuration was kept in memory.
pub fn cached_path() -> (r: &'static str)
    ensures
        r@ == "<cached>"@,
{
    "<cached>"
}

/// What helps with a mistake in a field: the first of these sections that the path of
/// the field begins with decides.
pub open spec fn hint(field_path: Seq<char>) -> Seq<char> {
    if "blocklists"@.is_prefix_of(field_path) || "allowlists"@.is_prefix_of(field_path) {
        "Use either '- name: my_list\\n  url: https://...\\n  interval: 12h' or '- my_list:\\n    url: https://...\\n    interval: 12h' for each list item."@
    } else if "listen"@.is_prefix_of(field_path) {
        "Check listener fields and types (for example, ports must be numbers and TLS sections must be nested under 'tls')."@
    } else if "resolvers.zones"@.is_prefix_of(field_path) {
        "Check each zone includes 'zone' and at least one enabled entry in 'servers[]'. Each server requires 'enabled', 'protocol', and 'address'. Protocols: 'dns' (<ip>:<port>), 'dot' (tls://<host>[:port]), 'doh' (https://...), 'recursive', 'json' (file://, http://, or https:// address). The 'json' protocol accepts 'check_interval' for URL sources. Both 'json' and 'doh' accept nested 'authentication' with 'token' (Bearer) or 'username'+'password' (Basic). Zone-level 'strategy' supports round_robin, random, or failover."@
    } else if "resolvers"@.is_prefix_of(field_path) {
        "Check that 'strategy' is valid, each server includes 'protocol'/'address', and optional 'bootstrap_resolvers' values are IP or IP:port (default: 1.1.1.1; protocol support: dns, dot, recursive; DoT examples: tls://1.1.1.1, tls://dns.example.com:853, or 1.1.1.1:853)."@
    } else if "logging"@.is_prefix_of(field_path) {
        "Check each logging target uses the expected keys (enabled/level and location for file logging)."@
    } else if "filtering"@.is_prefix_of(field_path) {
        "Check filtering fields (sinkhole_ipv4/sinkhole_ipv6), optional any_query_policy ('passthrough', 'refused', or 'notimp'), and optional cache config: mode is 'memory' or 'sqlite', with optional document_path."@
    } else {
        "Check YAML indentation and value types in this section."@
    }
}

/// What helps with a mistake in a field.
pub fn hint_for_path(field_path: &str) -> (r: &'static str)
    ensures
        r@ == hint(field_path@),
{
    if starts_with(field_path, "blocklists") || starts_with(field_path, "allowlists") {
        "Use either '- name: my_list\\n  url: https://...\\n  interval: 12h' or '- my_list:\\n    url: https://...\\n    interval: 12h' for each list item."
    } else if starts_with(field_path, "listen") {
        "Check listener fields and types (for example, ports must be numbers and TLS sections must be nested under 'tls')."
    } else if starts_with(field_path, "resolvers.zones") {
        "Check each zone includes 'zone' and at least one enabled entry in 'servers[]'. Each server requires 'enabled', 'protocol', and 'address'. Protocols: 'dns' (<ip>:<port>), 'dot' (tls://<host>[:port]), 'doh' (https://...), 'recursive', 'json' (file://, http://, or https:// address). The 'json' protocol accepts 'check_interval' for URL sources. Both 'json' and 'doh' accept nested 'authentication' with 'token' (Bearer) or 'username'+'password' (Basic). Zone-level 'strategy' supports round_robin, random, or failover."
    } else if starts_with(field_path, "resolvers") {
        "Check that 'strategy' is valid, each server includes 'protocol'/'address', and optional 'bootstrap_resolvers' values are IP or IP:port (default: 1.1.1.1; protocol support: dns, dot, recursive; DoT examples: tls://1.1.1.1, tls://dns.example.com:853, or 1.1.1.1:853)."
    } else if starts_with(field_path, "logging") {
        "Check each logging target uses the expected keys (enabled/level and location for file logging)."
    } else if starts_with(field_path, "filtering") {
        "Check filtering fields (sinkhole_ipv4/sinkhole_ipv6), optional any_query_policy ('passthrough', 'refused', or 'notimp'), and optional cache config: mode is 'memory' or 'sqlite', with optional document_path."
    } else {
        "Check YAML indentation and value types in this section."
    }
}

/// What a user is told about a file that cannot be read.
pub open spec fn unreadable_text(path: Seq<char>, error: Seq<char>) -> Seq<char> {
    "Could not read the config file.\n  File: "@ + path + "\n  Reason: "@ + error
        + "\n  Hint: Check that the file exists and that this process has read permissions."@
}

/// A user is told which file it is, and then why it cannot be read.
pub proof fn law_unreadable_files_are_named(path: Seq<char>, error: Seq<char>)
    ensures
        ("Could not read the config file.\n  File: "@ + path + "\n  Reason: "@
            + error).is_prefix_of(unreadable_text(path, error)),
{
    let p = "Could not read the config file.\n  File: "@ + path + "\n  Reason: "@ + error;
    assert(unreadable_text(path, error).subrange(0, p.len() as int) =~= p);
}

/// What a user is told about a file that cannot be read.
pub fn unreadable(path: &str, error: &str) -> (r: String)
    ensures
        r@ == unreadable_text(path@, error@),
        r@ == "Could not read the config file.\n  File: "@ + path@ + "\n  Reason: "@ + error@
            + "\n  Hint: Check that the file exists and that this process has read permissions."@,
{
    let mut out = "Could not read the config file.\n  File: ".to_owned();
    out.push_str(path);
    out.push_str("\n  Reason: ");
    out.push_str(error);
    out.push_str(
        "\n  Hint: Check that the file exists and that this process has read permissions.",
    );
    out
}

/// Where in a file a mistake stands.
#[derive(Clone, Copy, Debug, PartialEq, Eq, Structural)]
pub struct Location {
    pub line: u64,
    pub column: u64,
}

/// The line that says where a mistake stands.
pub open spec fn location_line(location: Option<Location>) -> Seq<char> {
    match location {
        Some(l) => "\n  Location: line "@ + decimal(l.line as nat) + ", column "@ + decimal(
            l.column as nat,
        ),
        None => seq![],
    }
}

/// What a user is told about a file that cannot be parsed.
pub open spec fn unparsable(
    path: Seq<char>,
    location: Option<Location>,
    field_path: Seq<char>,
    reason: Seq<char>,
) -> Seq<char> {
    "Could not parse the config file.\n  File: "@ + path + location_line(location) + "\n  Field: "@
        + field_path + "\n  Reason: "@ + reason + "\n  Hint: "@ + hint(field_path)
}

/// What a user is told about a file that cannot be parsed: where the mistake is, in
/// which field, what it is and what helps.
pub fn parse_failure(path: &str, location: Option<Location>, field_path: &str, reason: &str) -> (r:
    String)
    ensures
        r@ == unparsable(path@, location, field_path@, reason@),
{
    let mut out = "Could not parse the config file.\n  File: ".to_owned();
    out.push_str(path);
    let line = match location {
        Some(l) => {
            let mut line = "\n  Location: line ".to_owned();
            line.push_str(number(l.line).as_str());
            line.push_str(", column ");
            line.push_str(number(l.column).as_str());
            line
        },
        None => String::new(),
    };
    out.push_str(line.as_str());
    out.push_str("\n  Field: ");
    out.push_str(field_path);
    out.push_str("\n  Reason: ");
    out.push_str(reason);
    out.push_str("\n  Hint: ");
    out.push_str(hint_for_path(field_path));
    out
}

/// All that is known about a mistake is told: where it is, in which field, what it is and
/// what helps; without a place the line about it is left out.
pub proof fn law_mistakes_are_told(
    path: Seq<char>,
    location: Location,
    field_path: Seq<char>,
    reason: Seq<char>,
)
    ensures
        unparsable(path, None, field_path, reason) == "Could not parse the config file.\n  File: "@
            + path + "\n  Field: "@ + field_path + "\n  Reason: "@ + reason + "\n  Hint: "@ + hint(
            field_path,
        ),
        unparsable(path, Some(location), field_path, reason)
            == "Could not parse the config file.\n  File: "@ + path + "\n  Location: line "@
            + decimal(location.line as nat) + ", column "@ + decimal(location.column as nat)
            + "\n  Field: "@ + field_path + "\n  Reason: "@ + reason + "\n  Hint: "@ + hint(field_path),
{
    assert(unparsable(path, None, field_path, reason)
        =~= "Could not parse the config file.\n  File: "@ + path + "\n  Field: "@ + field_path
        + "\n  Reason: "@ + reason + "\n  Hint: "@ + hint(field_path));
    assert(unparsable(path, Some(location), field_path, reason)
        =~= "Could not parse the config file.\n  File: "@ + path + "\n  Location: line "@ + decimal(
        location.line as nat,
    ) + ", column "@ + decimal(location.column as nat) + "\n  Field: "@ + field_path
        + "\n  Reason: "@ + reason + "\n  Hint: "@ + hint(field_path));
}

proof fn lemma_prefix_agrees(p: Seq<char>, s: Seq<char>, i: int)
    requires
        p.is_prefix_of(s),
        0 <= i < p.len(),
    ensures
        i < s.len() && s[i] == p[i],
{
    assert(s.subrange(0, p.len() as int)[i] == p[i]);
}

/// A mistake in a section is told with the hint for that section, wherever in it the mistake
/// is; outside of all sections there is a hint for every document.
pub proof fn law_hints_are_about_their_section(rest: Seq<char>)
    ensures
        hint("listen"@ + rest)
            == "Check listener fields and types (for example, ports must be numbers and TLS sections must be nested under 'tls')."@,
        hint("logging"@ + rest)
            == "Check each logging target uses the expected keys (enabled/level and location for file logging)."@,
        hint("filtering"@ + rest)
            == "Check filtering fields (sinkhole_ipv4/sinkhole_ipv6), optional any_query_policy ('passthrough', 'refused', or 'notimp'), and optional cache config: mode is 'memory' or 'sqlite', with optional document_path."@,
        hint("blocklists"@ + rest) == hint("allowlists"@),
        hint("allowlists"@ + rest) == hint("allowlists"@),
        hint("resolvers.zones"@ + rest) == hint("resolvers.zones"@),
        !"resolvers.zones"@.is_prefix_of("resolvers"@ + rest) ==> hint("resolvers"@ + rest) == hint(
            "resolvers"@,
        ),
        hint(Seq::empty()) == "Check YAML indentation and value types in this section."@,
{
    reveal_strlit("listen");
    reveal_strlit("logging");
    reveal_strlit("filtering");
    reveal_strlit("blocklists");
    reveal_strlit("allowlists");
    reveal_strlit("resolvers");
    reveal_strlit("resolvers.zones");
    lemma_sections_of("listen"@, rest);
    lemma_sections_of("logging"@, rest);
    lemma_sections_of("filtering"@, rest);
    lemma_sections_of("blocklists"@, rest);
    lemma_sections_of("allowlists"@, rest);
    lemma_sections_of("allowlists"@, Seq::empty());
    lemma_sections_of("resolvers.zones"@, rest);
    lemma_sections_of("resolvers.zones"@, Seq::empty());
    lemma_sections_of("resolvers"@, rest);
    lemma_sections_of("resolvers"@, Seq::empty());
    assert("allowlists"@ + Seq::<char>::empty() =~= "allowlists"@);
    assert("resolvers.zones"@ + Seq::<char>::empty() =~= "resolvers.zones"@);
    assert("resolvers"@ + Seq::<char>::empty() =~= "resolvers"@);
}

/// A path that begins with a section begins with no other one.
proof fn lemma_sections_of(section: Seq<char>, rest: Seq<char>)
    requires
        section.len() >= 2,
    ensures
        section.is_prefix_of(section + rest),
        "blocklists"@.is_prefix_of(section + rest) ==> section[0] == 'b',
        "allowlists"@.is_prefix_of(section + rest) ==> section[0] == 'a',
        "listen"@.is_prefix_of(section + rest) ==> section[0] == 'l' && section[1] == 'i',
        "logging"@.is_prefix_of(section + rest) ==> section[0] == 'l' && section[1] == 'o',
        "filtering"@.is_prefix_of(section + rest) ==> section[0] == 'f',
        "resolvers"@.is_prefix_of(section + rest) ==> section[0] == 'r',
        "resolvers.zones"@.is_prefix_of(section + rest) ==> section[0] == 'r',
{
    reveal_strlit("listen");
    reveal_strlit("logging");
    reveal_strlit("filtering");
    reveal_strlit("blocklists");
    reveal_strlit("allowlists");
    reveal_strlit("resolvers");
    reveal_strlit("resolvers.zones");
    let s = section + rest;
    assert(s.subrange(0, section.len() as int) =~= section);
    if "blocklists"@.is_prefix_of(s) {
        lemma_prefix_agrees("blocklists"@, s, 0);
    }
    if "allowlists"@.is_prefix_of(s) {
        lemma_prefix_agrees("allowlists"@, s, 0);
    }
    if "listen"@.is_prefix_of(s) {
        lemma_prefix_agrees("listen"@, s, 0);
        lemma_prefix_agrees("listen"@, s, 1);
    }
    if "logging"@.is_prefix_of(s) {
        lemma_prefix_agrees("logging"@, s, 0);
        lemma_prefix_agrees("logging"@, s, 1);
    }
    if "filtering"@.is_prefix_of(s) {
        lemma_prefix_agrees("filtering"@, s, 0);
    }
    if "resolvers"@.is_prefix_of(s) {
        lemma_prefix_agrees("resolvers"@, s, 0);
    }
    if "resolvers.zones"@.is_prefix_of(s) {
        lemma_prefix_agrees("resolvers.zones"@, s, 0);
    }
}

} // verus!
