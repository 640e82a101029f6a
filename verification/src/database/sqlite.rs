//! How the database is opened.

use crate::database::statements::{about, about_named, Dialect};
use crate::text::{after_prefix, contains_text, has_char, occurs_in, opt_text, strip_prefix};
use vstd::prelude::*;

verus! {

/// The URL with which to connect, so that the file is created where it is missing: a
/// mode is added where the URL has none.
pub open spec fn creating_url(url: Seq<char>) -> Seq<char> {
    if occurs_in("mode="@, url) {
        url
    } else if url.contains('?') {
        url + "&mode=rwc"@
    } else {
        url + "?mode=rwc"@
    }
}

/// The URL with which to connect, so that the file is created where it is missing.
pub fn connect_url(url: &str) -> (r: String)
    ensures
        r@ == creating_url(url@),
{
    let mut out = url.to_owned();
    if !contains_text(url, "mode=") {
        if has_char(url, '?') {
            out.push_str("&mode=rwc");
        } else {
            out.push_str("?mode=rwc");
        }
    }
    out
}

/// What `std::path::Path::parent` gives for a path.
pub uninterp spec fn parent_path(path: Seq<char>) -> Option<Seq<char>>;

/// `std::path::Path::parent`: the path without its last component; nothing where it is
/// a root or empty. What a component is is not stated.
#[verifier::external_body]
pub(crate) fn path_parent(path: &str) -> (r: Option<String>)
    ensures
        opt_text(r) == parent_path(path@),
{
    std::path::Path::new(path).parent().and_then(|p| p.to_str()).map(|p| p.to_owned())
}

/// The directory that must exist for a path with this parent; nothing where the parent
/// is the current directory.
pub open spec fn needed_directory(parent: Option<Seq<char>>) -> Option<Seq<char>> {
    match parent {
        Some(p) => if p.len() > 0 {
            Some(p)
        } else {
            None
        },
        None => None,
    }
}

/// The directory that must exist for a path with this parent.
pub fn directory_to_create(parent: Option<String>) -> (r: Option<String>)
    ensures
        opt_text(r) == needed_directory(opt_text(parent)),
{
    match parent {
        Some(p) => if p.as_str().is_empty() {
            None
        } else {
            Some(p)
        },
        None => None,
    }
}

/// The directory that must exist before the database at `url` is opened; nothing for a
/// URL of another kind.
pub fn database_directory(url: &str) -> (r: Option<String>)
    ensures
        opt_text(r) == match after_prefix(url@, "sqlite://"@) {
            Some(path) => needed_directory(parent_path(path)),
            None => None,
        },
{
    match strip_prefix(url, "sqlite://") {
        Some(path) => directory_to_create(path_parent(path.as_str())),
        None => None,
    }
}

/// How the connections to the database are opened.
#[derive(Debug)]
pub struct PoolPlan {
    /// The directory that must be there.
    pub directory: Option<String>,
    pub connect_url: String,
    /// Whether changes are written to a log first.
    pub write_ahead_log: bool,
    /// How long a connection waits for another one, in seconds.
    pub busy_timeout_secs: Option<u64>,
    pub max_connections: u32,
}

/// Whether this is how the connections to the database at `url` are opened.
pub open spec fn is_pool_plan(url: Seq<char>, dialect: Dialect, r: PoolPlan) -> bool {
    &&& opt_text(r.directory) == match (dialect, after_prefix(url, "sqlite://"@)) {
        (Dialect::Sqlite, Some(path)) => needed_directory(parent_path(path)),
        _ => None,
    }
    &&& r.connect_url@ == if dialect is Sqlite {
        creating_url(url)
    } else {
        url
    }
    &&& r.write_ahead_log == (dialect is Sqlite)
    &&& r.busy_timeout_secs == if dialect is Sqlite {
        Some(5u64)
    } else {
        None
    }
    &&& r.max_connections == 5
}

/// How the connections to the database at `url` are opened; a file is made only for
/// SQLite.
pub fn init_pool(url: &str, dialect: Dialect) -> (r: PoolPlan)
    ensures
        is_pool_plan(url@, dialect, r),
        opt_text(r.directory) == match (dialect, after_prefix(url@, "sqlite://"@)) {
            (Dialect::Sqlite, Some(path)) => needed_directory(parent_path(path)),
            _ => None,
        },
        r.connect_url@ == if dialect is Sqlite {
            creating_url(url@)
        } else {
            url@
        },
        r.write_ahead_log == (dialect is Sqlite),
        r.busy_timeout_secs == if dialect is Sqlite {
            Some(5u64)
        } else {
            None
        },
        r.max_connections == 5,
{
    match dialect {
        Dialect::Sqlite => PoolPlan {
            directory: database_directory(url),
            connect_url: connect_url(url),
            write_ahead_log: true,
            busy_timeout_secs: Some(5),
            max_connections: 5,
        },
        _ => PoolPlan {
            directory: None,
            connect_url: url.to_owned(),
            write_ahead_log: false,
            busy_timeout_secs: None,
            max_connections: 5,
        },
    }
}

/// What can fail when the database is opened.
#[derive(Debug)]
pub enum PoolStep {
    /// The directory could not be made.
    CreateDirectory(String),
    /// The URL is none.
    ParseUrl,
    /// The database does not answer.
    Connect,
    /// The tables could not be brought up to date.
    Migrate,
}

/// What the user is told where the database at `url` cannot be opened.
pub open spec fn pool_failure(step: PoolStep, url: Seq<char>, error: Seq<char>) -> Seq<char> {
    (match step {
        PoolStep::CreateDirectory(d) => about("failed to create database directory"@, d@),
        PoolStep::ParseUrl => "failed to parse database URL: "@ + url,
        PoolStep::Connect => "failed to connect to database at "@ + url,
        PoolStep::Migrate => "failed to run database migrations"@,
    }) + ": "@ + error
}

/// What the user is told where the database at `url` cannot be opened.
pub fn pool_error(step: PoolStep, url: &str, error: &str) -> (r: String)
    ensures
        r@ == pool_failure(step, url@, error@),
{
    let mut m = match step {
        PoolStep::CreateDirectory(d) => {
            about_named("failed to create database directory", d.as_str())
        },
        PoolStep::ParseUrl => {
            let mut t = "failed to parse database URL: ".to_owned();
            t.push_str(url);
            t
        },
        PoolStep::Connect => {
            let mut t = "failed to connect to database at ".to_owned();
            t.push_str(url);
            t
        },
        PoolStep::Migrate => "failed to run database migrations".to_owned(),
    };
    m.push_str(": ");
    m.push_str(error);
    m
}

proof fn lemma_occurs_at_end(p: Seq<char>, s: Seq<char>, rest: Seq<char>)
    ensures
        occurs_in(p, s + p + rest),
{
    let t = s + p + rest;
    assert(t.skip(s.len() as int).subrange(0, p.len() as int) =~= p);
}

/// The URL with which to connect always has a mode, and a URL that has one is left as
/// it is: the rule applied twice changes nothing more.
pub proof fn law_connect_url_has_a_mode(url: Seq<char>)
    ensures
        occurs_in("mode="@, creating_url(url)),
        creating_url(creating_url(url)) == creating_url(url),
{
    reveal_strlit("mode=");
    reveal_strlit("&mode=rwc");
    reveal_strlit("?mode=rwc");
    if !occurs_in("mode="@, url) {
        lemma_occurs_at_end("mode="@, url.push('&'), seq!['r', 'w', 'c']);
        lemma_occurs_at_end("mode="@, url.push('?'), seq!['r', 'w', 'c']);
        assert(url + "&mode=rwc"@ =~= url.push('&') + "mode="@ + seq!['r', 'w', 'c']);
        assert(url + "?mode=rwc"@ =~= url.push('?') + "mode="@ + seq!['r', 'w', 'c']);
    }
}

/// The URL with which to connect starts with the configured one, and a mode that creates the
/// file is added behind its parameters, or as the first of them.
pub proof fn law_connect_url_extends_the_url(url: Seq<char>)
    ensures
        url.is_prefix_of(creating_url(url)),
        !occurs_in("mode="@, url) ==> "mode=rwc"@ == creating_url(url).skip(url.len() as int + 1),
        !occurs_in("mode="@, url) ==> creating_url(url)[url.len() as int] == if url.contains('?') {
            '&'
        } else {
            '?'
        },
{
    reveal_strlit("&mode=rwc");
    reveal_strlit("?mode=rwc");
    reveal_strlit("mode=rwc");
    let c = creating_url(url);
    assert(c.subrange(0, url.len() as int) =~= url);
    if !occurs_in("mode="@, url) {
        assert(c.skip(url.len() as int + 1) =~= "mode=rwc"@);
    }
}

/// Only a file of SQLite is made where it is missing, with the directory in which it stands,
/// and waits for others with its log written ahead; every other database is connected to as it
/// is configured.
pub proof fn law_files_are_made_for_sqlite_alone(url: Seq<char>, dialect: Dialect, r: PoolPlan)
    requires
        is_pool_plan(url, dialect, r),
    ensures
        r.max_connections == 5,
        dialect is Sqlite ==> r.write_ahead_log && r.busy_timeout_secs == Some(5u64)
            && occurs_in("mode="@, r.connect_url@) && url.is_prefix_of(r.connect_url@),
        !(dialect is Sqlite) ==> r.connect_url@ == url && r.directory is None && !r.write_ahead_log
            && r.busy_timeout_secs is None,
        r.directory matches Some(d) ==> d@.len() > 0 && (after_prefix(url, "sqlite://"@) matches Some(
            path,
        ) && parent_path(path) == Some(d@)),
{
    law_connect_url_has_a_mode(url);
    law_connect_url_extends_the_url(url);
}

/// Whatever fails, the user is told the error behind what failed, and where the database is if
/// it could not be reached.
pub proof fn law_failures_tell_the_error(step: PoolStep, url: Seq<char>, error: Seq<char>)
    ensures
        (": "@ + error).is_suffix_of(pool_failure(step, url, error)),
        step is Connect ==> pool_failure(step, url, error) == "failed to connect to database at "@
            + url + ": "@ + error,
        step is ParseUrl ==> pool_failure(step, url, error) == "failed to parse database URL: "@
            + url + ": "@ + error,
        step is Migrate ==> pool_failure(step, url, error) == "failed to run database migrations"@
            + ": "@ + error,
        step matches PoolStep::CreateDirectory(d) ==> pool_failure(step, url, error)
            == "failed to create database directory"@ + " '"@ + d@ + "'"@ + ": "@ + error,
{
    let m = pool_failure(step, url, error);
    let e = ": "@ + error;
    assert(m.subrange(m.len() - e.len(), m.len() as int) =~= e);
}

} // verus!
