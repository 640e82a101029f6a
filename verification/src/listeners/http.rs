//! The HTTP API: which request calls which operation, and what its outcome is
//! answered.

use crate::listeners::auth::{check_bearer, refusal, Header};
use crate::text::{opt_str, opt_text, read_utf8, same, split, split_on, texts};
use vstd::prelude::*;
use vstd::utf8::*;

verus! {

/// The method of a request.
#[derive(Clone, Copy, Debug, PartialEq, Eq, Structural)]
pub enum HttpMethod {
    Get,
    Head,
    Post,
    Put,
    Delete,
    Other,
}

/// An operation of the API.
#[derive(Clone, Copy, Debug, PartialEq, Eq, Structural)]
pub enum Endpoint {
    AdminPage,
    Health,
    Reload,
    Stop,
    FilteringDisable,
    FilteringEnable,
    FilteringStatus,
    ListAll,
    RefreshAll,
    Stats,
    QueryLog,
    ListBlocklists,
    AddBlocklist,
    ListAllowlists,
    AddAllowlist,
    GetResolverConfig,
    UpdateResolverConfig,
    ListUpstreams,
    AddUpstream,
    ListZones,
    AddZone,
    ListZoneDiscovery,
    AddZoneDiscovery,
    OpenApi,
    UpdateBlocklist,
    DeleteBlocklist,
    UpdateAllowlist,
    DeleteAllowlist,
    UpdateUpstream,
    DeleteUpstream,
    UpdateZone,
    DeleteZone,
    UpdateZoneDiscovery,
    DeleteZoneDiscovery,
    RefreshList,
    DisableList,
    EnableList,
}

/// What a path and a method lead to.
#[derive(Clone, Copy, Debug, PartialEq, Eq, Structural)]
pub enum Lookup {
    /// An operation.
    Found(Endpoint),
    /// Nothing, though the path leads somewhere with another method.
    OtherMethod,
    /// Nothing.
    Unknown,
}

// ---- routes ----

/// What a path without parameters leads to.
pub open spec fn plain_route(method: HttpMethod, path: Seq<char>) -> Lookup {
    if path == "/"@ {
        match method {
            HttpMethod::Get | HttpMethod::Head => Lookup::Found(Endpoint::AdminPage),
            _ => Lookup::OtherMethod,
        }
    } else if path == "/admin"@ {
        match method {
            HttpMethod::Get | HttpMethod::Head => Lookup::Found(Endpoint::AdminPage),
            _ => Lookup::OtherMethod,
        }
    } else if path == "/health"@ {
        match method {
            HttpMethod::Get | HttpMethod::Head => Lookup::Found(Endpoint::Health),
            _ => Lookup::OtherMethod,
        }
    } else if path == "/api/v1/reload"@ {
        match method {
            HttpMethod::Post => Lookup::Found(Endpoint::Reload),
            _ => Lookup::OtherMethod,
        }
    } else if path == "/api/v1/stop"@ {
        match method {
            HttpMethod::Post => Lookup::Found(Endpoint::Stop),
            _ => Lookup::OtherMethod,
        }
    } else if path == "/api/v1/filtering/disable"@ {
        match method {
            HttpMethod::Post => Lookup::Found(Endpoint::FilteringDisable),
            _ => Lookup::OtherMethod,
        }
    } else if path == "/api/v1/filtering/enable"@ {
        match method {
            HttpMethod::Post => Lookup::Found(Endpoint::FilteringEnable),
            _ => Lookup::OtherMethod,
        }
    } else if path == "/api/v1/filtering/status"@ {
        match method {
            HttpMethod::Get | HttpMethod::Head => Lookup::Found(Endpoint::FilteringStatus),
            _ => Lookup::OtherMethod,
        }
    } else if path == "/api/v1/lists"@ {
        match method {
            HttpMethod::Get | HttpMethod::Head => Lookup::Found(Endpoint::ListAll),
            _ => Lookup::OtherMethod,
        }
    } else if path == "/api/v1/lists/refresh"@ {
        match method {
            HttpMethod::Post => Lookup::Found(Endpoint::RefreshAll),
            _ => Lookup::OtherMethod,
        }
    } else if path == "/api/v1/stats"@ {
        match method {
            HttpMethod::Get | HttpMethod::Head => Lookup::Found(Endpoint::Stats),
            _ => Lookup::OtherMethod,
        }
    } else if path == "/api/v1/query-log"@ {
        match method {
            HttpMethod::Get | HttpMethod::Head => Lookup::Found(Endpoint::QueryLog),
            _ => Lookup::OtherMethod,
        }
    } else if path == "/api/v1/blocklists"@ {
        match method {
            HttpMethod::Get | HttpMethod::Head => Lookup::Found(Endpoint::ListBlocklists),
            HttpMethod::Post => Lookup::Found(Endpoint::AddBlocklist),
            _ => Lookup::OtherMethod,
        }
    } else if path == "/api/v1/allowlists"@ {
        match method {
            HttpMethod::Get | HttpMethod::Head => Lookup::Found(Endpoint::ListAllowlists),
            HttpMethod::Post => Lookup::Found(Endpoint::AddAllowlist),
            _ => Lookup::OtherMethod,
        }
    } else if path == "/api/v1/resolver-config"@ {
        match method {
            HttpMethod::Get | HttpMethod::Head => Lookup::Found(Endpoint::GetResolverConfig),
            HttpMethod::Put => Lookup::Found(Endpoint::UpdateResolverConfig),
            _ => Lookup::OtherMethod,
        }
    } else if path == "/api/v1/upstreams"@ {
        match method {
            HttpMethod::Get | HttpMethod::Head => Lookup::Found(Endpoint::ListUpstreams),
            HttpMethod::Post => Lookup::Found(Endpoint::AddUpstream),
            _ => Lookup::OtherMethod,
        }
    } else if path == "/api/v1/zones"@ {
        match method {
            HttpMethod::Get | HttpMethod::Head => Lookup::Found(Endpoint::ListZones),
            HttpMethod::Post => Lookup::Found(Endpoint::AddZone),
            _ => Lookup::OtherMethod,
        }
    } else if path == "/api/v1/zone-discovery"@ {
        match method {
            HttpMethod::Get | HttpMethod::Head => Lookup::Found(Endpoint::ListZoneDiscovery),
            HttpMethod::Post => Lookup::Found(Endpoint::AddZoneDiscovery),
            _ => Lookup::OtherMethod,
        }
    } else if path == "/api/v1/openapi.json"@ {
        match method {
            HttpMethod::Get | HttpMethod::Head => Lookup::Found(Endpoint::OpenApi),
            _ => Lookup::OtherMethod,
        }
    } else {
        Lookup::Unknown
    }
}

/// What a path to one item of a collection leads to.
pub open spec fn item_route(method: HttpMethod, collection: Seq<char>) -> Lookup {
    if collection == "blocklists"@ {
        match method {
            HttpMethod::Put => Lookup::Found(Endpoint::UpdateBlocklist),
            HttpMethod::Delete => Lookup::Found(Endpoint::DeleteBlocklist),
            _ => Lookup::OtherMethod,
        }
    } else if collection == "allowlists"@ {
        match method {
            HttpMethod::Put => Lookup::Found(Endpoint::UpdateAllowlist),
            HttpMethod::Delete => Lookup::Found(Endpoint::DeleteAllowlist),
            _ => Lookup::OtherMethod,
        }
    } else if collection == "upstreams"@ {
        match method {
            HttpMethod::Put => Lookup::Found(Endpoint::UpdateUpstream),
            HttpMethod::Delete => Lookup::Found(Endpoint::DeleteUpstream),
            _ => Lookup::OtherMethod,
        }
    } else if collection == "zones"@ {
        match method {
            HttpMethod::Put => Lookup::Found(Endpoint::UpdateZone),
            HttpMethod::Delete => Lookup::Found(Endpoint::DeleteZone),
            _ => Lookup::OtherMethod,
        }
    } else if collection == "zone-discovery"@ {
        match method {
            HttpMethod::Put => Lookup::Found(Endpoint::UpdateZoneDiscovery),
            HttpMethod::Delete => Lookup::Found(Endpoint::DeleteZoneDiscovery),
            _ => Lookup::OtherMethod,
        }
    } else {
        Lookup::Unknown
    }
}

/// What a path to an action on one filter list leads to.
pub open spec fn list_route(method: HttpMethod, action: Seq<char>) -> Lookup {
    if action == "refresh"@ {
        match method {
            HttpMethod::Post => Lookup::Found(Endpoint::RefreshList),
            _ => Lookup::OtherMethod,
        }
    } else if action == "disable"@ {
        match method {
            HttpMethod::Post => Lookup::Found(Endpoint::DisableList),
            _ => Lookup::OtherMethod,
        }
    } else if action == "enable"@ {
        match method {
            HttpMethod::Post => Lookup::Found(Endpoint::EnableList),
            _ => Lookup::OtherMethod,
        }
    } else {
        Lookup::Unknown
    }
}

/// Whether the parts of a path begin with those of `/api/v1`.
pub open spec fn is_versioned(parts: Seq<Seq<char>>) -> bool {
    parts.len() >= 3 && parts[0].len() == 0 && parts[1] == "api"@ && parts[2] == "v1"@
}

/// What a path leads to, and the part of it that names an item.
pub open spec fn route(method: HttpMethod, path: Seq<char>) -> (Lookup, Option<Seq<char>>) {
    let parts = split(path, '/');
    let plain = plain_route(method, path);
    if plain != Lookup::Unknown {
        (plain, None)
    } else if is_versioned(parts) && parts.len() == 5 && parts[4].len() > 0 {
        (item_route(method, parts[3]), Some(parts[4]))
    } else if is_versioned(parts) && parts.len() == 6 && parts[3] == "lists"@ {
        (list_route(method, parts[5]), Some(parts[4]))
    } else {
        (Lookup::Unknown, None)
    }
}

fn find_plain(method: HttpMethod, path: &str) -> (r: Lookup)
    ensures
        r == plain_route(method, path@),
{
    if same(path, "/") {
        match method {
            HttpMethod::Get | HttpMethod::Head => Lookup::Found(Endpoint::AdminPage),
            _ => Lookup::OtherMethod,
        }
    } else if same(path, "/admin") {
        match method {
            HttpMethod::Get | HttpMethod::Head => Lookup::Found(Endpoint::AdminPage),
            _ => Lookup::OtherMethod,
        }
    } else if same(path, "/health") {
        match method {
            HttpMethod::Get | HttpMethod::Head => Lookup::Found(Endpoint::Health),
            _ => Lookup::OtherMethod,
        }
    } else if same(path, "/api/v1/reload") {
        match method {
            HttpMethod::Post => Lookup::Found(Endpoint::Reload),
            _ => Lookup::OtherMethod,
        }
    } else if same(path, "/api/v1/stop") {
        match method {
            HttpMethod::Post => Lookup::Found(Endpoint::Stop),
            _ => Lookup::OtherMethod,
        }
    } else if same(path, "/api/v1/filtering/disable") {
        match method {
            HttpMethod::Post => Lookup::Found(Endpoint::FilteringDisable),
            _ => Lookup::OtherMethod,
        }
    } else if same(path, "/api/v1/filtering/enable") {
        match method {
            HttpMethod::Post => Lookup::Found(Endpoint::FilteringEnable),
            _ => Lookup::OtherMethod,
        }
    } else if same(path, "/api/v1/filtering/status") {
        match method {
            HttpMethod::Get | HttpMethod::Head => Lookup::Found(Endpoint::FilteringStatus),
            _ => Lookup::OtherMethod,
        }
    } else if same(path, "/api/v1/lists") {
        match method {
            HttpMethod::Get | HttpMethod::Head => Lookup::Found(Endpoint::ListAll),
            _ => Lookup::OtherMethod,
        }
    } else if same(path, "/api/v1/lists/refresh") {
        match method {
            HttpMethod::Post => Lookup::Found(Endpoint::RefreshAll),
            _ => Lookup::OtherMethod,
        }
    } else if same(path, "/api/v1/stats") {
        match method {
            HttpMethod::Get | HttpMethod::Head => Lookup::Found(Endpoint::Stats),
            _ => Lookup::OtherMethod,
        }
    } else if same(path, "/api/v1/query-log") {
        match method {
            HttpMethod::Get | HttpMethod::Head => Lookup::Found(Endpoint::QueryLog),
            _ => Lookup::OtherMethod,
        }
    } else if same(path, "/api/v1/blocklists") {
        match method {
            HttpMethod::Get | HttpMethod::Head => Lookup::Found(Endpoint::ListBlocklists),
            HttpMethod::Post => Lookup::Found(Endpoint::AddBlocklist),
            _ => Lookup::OtherMethod,
        }
    } else if same(path, "/api/v1/allowlists") {
        match method {
            HttpMethod::Get | HttpMethod::Head => Lookup::Found(Endpoint::ListAllowlists),
            HttpMethod::Post => Lookup::Found(Endpoint::AddAllowlist),
            _ => Lookup::OtherMethod,
        }
    } else if same(path, "/api/v1/resolver-config") {
        match method {
            HttpMethod::Get | HttpMethod::Head => Lookup::Found(Endpoint::GetResolverConfig),
            HttpMethod::Put => Lookup::Found(Endpoint::UpdateResolverConfig),
            _ => Lookup::OtherMethod,
        }
    } else if same(path, "/api/v1/upstreams") {
        match method {
            HttpMethod::Get | HttpMethod::Head => Lookup::Found(Endpoint::ListUpstreams),
            HttpMethod::Post => Lookup::Found(Endpoint::AddUpstream),
            _ => Lookup::OtherMethod,
        }
    } else if same(path, "/api/v1/zones") {
        match method {
            HttpMethod::Get | HttpMethod::Head => Lookup::Found(Endpoint::ListZones),
            HttpMethod::Post => Lookup::Found(Endpoint::AddZone),
            _ => Lookup::OtherMethod,
        }
    } else if same(path, "/api/v1/zone-discovery") {
        match method {
            HttpMethod::Get | HttpMethod::Head => Lookup::Found(Endpoint::ListZoneDiscovery),
            HttpMethod::Post => Lookup::Found(Endpoint::AddZoneDiscovery),
            _ => Lookup::OtherMethod,
        }
    } else if same(path, "/api/v1/openapi.json") {
        match method {
            HttpMethod::Get | HttpMethod::Head => Lookup::Found(Endpoint::OpenApi),
            _ => Lookup::OtherMethod,
        }
    } else {
        Lookup::Unknown
    }
}

fn find_item(method: HttpMethod, collection: &str) -> (r: Lookup)
    ensures
        r == item_route(method, collection@),
{
    if same(collection, "blocklists") {
        match method {
            HttpMethod::Put => Lookup::Found(Endpoint::UpdateBlocklist),
            HttpMethod::Delete => Lookup::Found(Endpoint::DeleteBlocklist),
            _ => Lookup::OtherMethod,
        }
    } else if same(collection, "allowlists") {
        match method {
            HttpMethod::Put => Lookup::Found(Endpoint::UpdateAllowlist),
            HttpMethod::Delete => Lookup::Found(Endpoint::DeleteAllowlist),
            _ => Lookup::OtherMethod,
        }
    } else if same(collection, "upstreams") {
        match method {
            HttpMethod::Put => Lookup::Found(Endpoint::UpdateUpstream),
            HttpMethod::Delete => Lookup::Found(Endpoint::DeleteUpstream),
            _ => Lookup::OtherMethod,
        }
    } else if same(collection, "zones") {
        match method {
            HttpMethod::Put => Lookup::Found(Endpoint::UpdateZone),
            HttpMethod::Delete => Lookup::Found(Endpoint::DeleteZone),
            _ => Lookup::OtherMethod,
        }
    } else if same(collection, "zone-discovery") {
        match method {
            HttpMethod::Put => Lookup::Found(Endpoint::UpdateZoneDiscovery),
            HttpMethod::Delete => Lookup::Found(Endpoint::DeleteZoneDiscovery),
            _ => Lookup::OtherMethod,
        }
    } else {
        Lookup::Unknown
    }
}

fn find_list_action(method: HttpMethod, action: &str) -> (r: Lookup)
    ensures
        r == list_route(method, action@),
{
    if same(action, "refresh") {
        match method {
            HttpMethod::Post => Lookup::Found(Endpoint::RefreshList),
            _ => Lookup::OtherMethod,
        }
    } else if same(action, "disable") {
        match method {
            HttpMethod::Post => Lookup::Found(Endpoint::DisableList),
            _ => Lookup::OtherMethod,
        }
    } else if same(action, "enable") {
        match method {
            HttpMethod::Post => Lookup::Found(Endpoint::EnableList),
            _ => Lookup::OtherMethod,
        }
    } else {
        Lookup::Unknown
    }
}

/// What a path leads to, and the part of it that names an item.
pub fn find_route(method: HttpMethod, path: &str) -> (r: (Lookup, Option<String>))
    ensures
        r.0 == route(method, path@).0,
        opt_text(r.1) == route(method, path@).1,
{
    let plain = find_plain(method, path);
    if plain != Lookup::Unknown {
        return (plain, None);
    }
    let parts = split_on(path, '/');
    let ghost all = split(path@, '/');
    proof {
        assert(texts(parts@).len() == parts@.len());
        assert forall|i: int| 0 <= i < parts@.len() implies parts@[i]@ == all[i] by {
            assert(texts(parts@)[i] == parts@[i]@);
        }
    }
    let n: usize = parts.len();
    let versioned = n >= 3 && parts[0].as_str().is_empty() && same(parts[1].as_str(), "api") && same(
        parts[2].as_str(),
        "v1",
    );
    if versioned && n == 5 && !parts[4].as_str().is_empty() {
        (find_item(method, parts[3].as_str()), Some(parts[4].clone()))
    } else if versioned && n == 6 && same(parts[3].as_str(), "lists") {
        (find_list_action(method, parts[5].as_str()), Some(parts[4].clone()))
    } else {
        (Lookup::Unknown, None)
    }
}

// ---- items ----

/// The value of a hexadecimal digit.
pub open spec fn hex_digit(b: u8) -> Option<u8> {
    if 0x30 <= b <= 0x39 {
        Some((b - 0x30) as u8)
    } else if 0x41 <= b <= 0x46 {
        Some((b - 0x37) as u8)
    } else if 0x61 <= b <= 0x66 {
        Some((b - 0x57) as u8)
    } else {
        None
    }
}

/// The bytes that a part of a path stands for: a percent sign and two hexadecimal digits
/// are one byte, everything else is itself.
pub open spec fn percent_decoded(b: Seq<u8>) -> Seq<u8>
    decreases b.len(),
{
    if b.len() == 0 {
        seq![]
    } else if b.len() >= 3 && b[0] == 0x25 && hex_digit(b[1]) is Some && hex_digit(b[2]) is Some {
        seq![(16 * hex_digit(b[1])->0 + hex_digit(b[2])->0) as u8] + percent_decoded(b.skip(3))
    } else {
        seq![b[0]] + percent_decoded(b.skip(1))
    }
}

fn hex_value(b: u8) -> (r: Option<u8>)
    ensures
        r == hex_digit(b),
        r matches Some(x) ==> x < 16,
{
    if 0x30 <= b && b <= 0x39 {
        Some(b - 0x30)
    } else if 0x41 <= b && b <= 0x46 {
        Some(b - 0x37)
    } else if 0x61 <= b && b <= 0x66 {
        Some(b - 0x57)
    } else {
        None
    }
}

fn percent_decode(b: &[u8]) -> (r: Vec<u8>)
    ensures
        r@ == percent_decoded(b@),
{
    let mut out: Vec<u8> = Vec::new();
    let mut i: usize = 0;
    assert(b@.skip(0) =~= b@);
    while i < b.len()
        invariant
            i <= b@.len(),
            percent_decoded(b@) == out@ + percent_decoded(b@.skip(i as int)),
        decreases b@.len() - i,
    {
        let ghost rest = b@.skip(i as int);
        let ghost before = out@;
        let escaped: Option<u8> = if b.len() - i >= 3 && b[i] == 0x25 {
            match (hex_value(b[i + 1]), hex_value(b[i + 2])) {
                (Some(h), Some(l)) => Some(16 * h + l),
                _ => None,
            }
        } else {
            None
        };
        match escaped {
            Some(byte) => {
                out.push(byte);
                proof {
                    assert(rest.skip(3) =~= b@.skip(i + 3));
                    assert(before + (seq![byte] + percent_decoded(rest.skip(3))) =~= out@
                        + percent_decoded(rest.skip(3)));
                }
                i += 3;
            },
            None => {
                out.push(b[i]);
                proof {
                    assert(rest.skip(1) =~= b@.skip(i + 1));
                    assert(before + (seq![rest[0]] + percent_decoded(rest.skip(1))) =~= out@
                        + percent_decoded(rest.skip(1)));
                }
                i += 1;
            },
        }
    }
    assert(b@.skip(i as int) =~= seq![]);
    assert(out@ + percent_decoded(b@.skip(i as int)) =~= out@);
    out
}

/// The name that a part of a path stands for, where that is a text at all.
pub open spec fn item_name(part: Seq<char>) -> Option<Seq<char>> {
    let bytes = percent_decoded(encode_utf8(part));
    if valid_utf8(bytes) {
        Some(decode_utf8(bytes))
    } else {
        None
    }
}

/// The name that a part of a path stands for, where that is a text at all.
pub fn read_item_name(part: &str) -> (r: Option<String>)
    ensures
        opt_text(r) == item_name(part@),
{
    read_utf8(percent_decode(part.as_bytes()).as_slice())
}

// ---- admission ----

/// Whether a path is open to everyone: the admin page and the health check are.
pub open spec fn is_open(path: Seq<char>) -> bool {
    path == "/"@ || path == "/admin"@ || path == "/health"@
}

/// What is said of a name in a path that is no text.
pub open spec fn unreadable_item(e: Endpoint) -> Seq<char> {
    match e {
        Endpoint::UpdateUpstream
        | Endpoint::DeleteUpstream
        | Endpoint::UpdateZoneDiscovery
        | Endpoint::DeleteZoneDiscovery => "Invalid URL: Invalid UTF-8 in `id`"@,
        Endpoint::UpdateZone | Endpoint::DeleteZone => "Invalid URL: Invalid UTF-8 in `zone`"@,
        _ => "Invalid URL: Invalid UTF-8 in `name`"@,
    }
}

/// What is done with a request.
#[derive(Debug)]
pub enum ApiAdmission {
    /// The operation is called, with the name of the item that it is about.
    Call(Endpoint, Option<String>),
    /// The request is answered with this status and text.
    Refuse(u16, &'static str),
}

/// What is done with a request: `Ok` with the operation and its item, or `Err` with a
/// status and a text. Unless the path is open to everyone, the token is looked at before
/// anything else, even where the path leads nowhere.
pub open spec fn api_admission(
    method: HttpMethod,
    path: Seq<char>,
    authorization: Header,
    token: Option<Seq<char>>,
) -> Result<(Endpoint, Option<Seq<char>>), (u16, Seq<char>)> {
    let (lookup, part) = route(method, path);
    let refused = refusal(authorization, token);
    if !is_open(path) && refused is Some {
        Err((401, refused->0))
    } else {
        match lookup {
            Lookup::Found(e) => match part {
                None => Ok((e, None)),
                Some(p) => match item_name(p) {
                    Some(name) => Ok((e, Some(name))),
                    None => Err((400, unreadable_item(e))),
                },
            },
            Lookup::OtherMethod => Err((405, ""@)),
            Lookup::Unknown => Err((404, ""@)),
        }
    }
}

/// What is done with a request to the API. The admin listener serves the same paths.
pub fn admit_api_request(
    method: HttpMethod,
    path: &str,
    authorization: &Header,
    token: Option<&str>,
) -> (r: ApiAdmission)
    ensures
        match (api_admission(method, path@, *authorization, opt_str(token)), r) {
            (Ok((e, item)), ApiAdmission::Call(x, i)) => x == e && opt_text(i) == item,
            (Err((s, m)), ApiAdmission::Refuse(x, t)) => x == s && t@ == m,
            _ => false,
        },
{
    if !(same(path, "/") || same(path, "/admin") || same(path, "/health")) {
        if let Some(m) = check_bearer(authorization, token) {
            return ApiAdmission::Refuse(401, m);
        }
    }
    let (lookup, part) = find_route(method, path);
    match lookup {
        Lookup::Found(e) => match part {
            None => ApiAdmission::Call(e, None),
            Some(p) => match read_item_name(p.as_str()) {
                Some(name) => ApiAdmission::Call(e, Some(name)),
                None => ApiAdmission::Refuse(
                    400,
                    match e {
                        Endpoint::UpdateUpstream
                        | Endpoint::DeleteUpstream
                        | Endpoint::UpdateZoneDiscovery
                        | Endpoint::DeleteZoneDiscovery => "Invalid URL: Invalid UTF-8 in `id`",
                        Endpoint::UpdateZone
                        | Endpoint::DeleteZone => "Invalid URL: Invalid UTF-8 in `zone`",
                        _ => "Invalid URL: Invalid UTF-8 in `name`",
                    },
                ),
            },
        },
        Lookup::OtherMethod => ApiAdmission::Refuse(405, ""),
        Lookup::Unknown => ApiAdmission::Refuse(404, ""),
    }
}

/// With a token configured, nothing but the admin page and the health check is called
/// for a request that does not carry it; at any other path such a request learns nothing
/// but that it must.
pub proof fn law_operations_need_the_token(
    method: HttpMethod,
    path: Seq<char>,
    authorization: Header,
    token: Seq<char>,
)
    requires
        !(authorization matches Header::Text(h) && h@ == "Bearer "@ + token),
    ensures
        api_admission(method, path, authorization, Some(token)) matches Ok((e, _)) ==> e
            == Endpoint::AdminPage || e == Endpoint::Health,
        !is_open(path) ==> (api_admission(method, path, authorization, Some(token)) matches Err(
            (s, _),
        ) && s == 401),
{
}

// ---- outcomes ----

/// The status with which the success of an operation is answered: creations have one
/// of their own.
pub open spec fn success_status_of(e: Endpoint) -> u16 {
    match e {
        Endpoint::AddBlocklist
        | Endpoint::AddAllowlist
        | Endpoint::AddUpstream
        | Endpoint::AddZone
        | Endpoint::AddZoneDiscovery => 201,
        _ => 200,
    }
}

/// The status with which the success of an operation is answered.
pub fn success_status(e: Endpoint) -> (r: u16)
    ensures
        r == success_status_of(e),
{
    match e {
        Endpoint::AddBlocklist
        | Endpoint::AddAllowlist
        | Endpoint::AddUpstream
        | Endpoint::AddZone
        | Endpoint::AddZoneDiscovery => 201,
        _ => 200,
    }
}

/// Why an operation failed.
#[derive(Debug)]
pub enum ServerOperationError {
    NotFound(String),
    Unavailable(String),
    InvalidInput(String),
    Internal(String),
    ChannelClosed,
}

/// The status with which a failure is answered.
pub open spec fn error_status_of(e: ServerOperationError) -> u16 {
    match e {
        ServerOperationError::NotFound(_) => 404,
        ServerOperationError::Unavailable(_) => 404,
        ServerOperationError::InvalidInput(_) => 400,
        ServerOperationError::Internal(_) => 500,
        ServerOperationError::ChannelClosed => 500,
    }
}

/// The status with which a failure is answered.
pub fn op_error_to_status(e: &ServerOperationError) -> (r: u16)
    ensures
        r == error_status_of(*e),
{
    match e {
        ServerOperationError::NotFound(_) => 404,
        ServerOperationError::Unavailable(_) => 404,
        ServerOperationError::InvalidInput(_) => 400,
        ServerOperationError::Internal(_) => 500,
        ServerOperationError::ChannelClosed => 500,
    }
}

/// The envelope of an answer, and the status that it has.
#[derive(Debug)]
pub struct ApiResponse<T> {
    pub status: u16,
    pub success: bool,
    pub data: Option<T>,
    pub error: Option<String>,
    /// The Unix time of the answer, in seconds.
    pub timestamp: u64,
}

impl<T> ApiResponse<T> {
    /// Whether an answer reports a success with these data.
    pub open spec fn reports(self, status: u16, data: T, now: u64) -> bool {
        &&& self.status == status
        &&& self.success
        &&& self.data == Some(data)
        &&& self.error is None
        &&& self.timestamp == now
    }

    /// Whether an answer reports a failure with this message.
    pub open spec fn complains(self, status: u16, message: Seq<char>, now: u64) -> bool {
        &&& self.status == status
        &&& !self.success
        &&& self.data is None
        &&& opt_text(self.error) == Some(message)
        &&& self.timestamp == now
    }
}

/// The answer with the data of an operation that created nothing.
pub fn json_ok<T>(data: T, now: u64) -> (r: ApiResponse<T>)
    ensures
        r.reports(200, data, now),
{
    ApiResponse { status: 200, success: true, data: Some(data), error: None, timestamp: now }
}

/// The answer that reports a failure.
pub fn json_error<T>(status: u16, message: &str, now: u64) -> (r: ApiResponse<T>)
    ensures
        r.complains(status, message@, now),
{
    ApiResponse { status, success: false, data: None, error: Some(message.to_owned()), timestamp: now }
}

/// The status with which the failure of an operation is answered: that of a reload is
/// always one of the server.
pub open spec fn failure_status_of(e: Endpoint, error: ServerOperationError) -> u16 {
    if e is Reload {
        500
    } else {
        error_status_of(error)
    }
}

/// The answer to an operation, given what it came to; an error comes with the text that
/// describes it.
pub fn operation_response<T>(
    e: Endpoint,
    outcome: Result<T, (ServerOperationError, String)>,
    now: u64,
) -> (r: ApiResponse<T>)
    ensures
        match outcome {
            Ok(data) => r.reports(success_status_of(e), data, now),
            Err((error, text)) => r.complains(failure_status_of(e, error), text@, now),
        },
{
    match outcome {
        Ok(data) => {
            let mut answer = json_ok(data, now);
            answer.status = success_status(e);
            answer
        },
        Err((error, text)) => {
            let status: u16 = match e {
                Endpoint::Reload => 500,
                _ => op_error_to_status(&error),
            };
            json_error(status, text.as_str(), now)
        },
    }
}

/// An answer has data exactly where it has a status of success, and an error text exactly
/// where it has not.
pub proof fn law_answers_have_data_or_an_error<T>(
    e: Endpoint,
    outcome: Result<T, (ServerOperationError, String)>,
    now: u64,
    r: ApiResponse<T>,
)
    requires
        match outcome {
            Ok(data) => r.reports(success_status_of(e), data, now),
            Err((error, text)) => r.complains(failure_status_of(e, error), text@, now),
        },
    ensures
        r.success <==> 200 <= r.status < 300,
        r.success <==> r.data is Some,
        r.success <==> r.error is None,
{
}

/// The data with which a request to stop is answered.
#[derive(Debug)]
pub struct StopResponse {
    pub status: &'static str,
    pub message: &'static str,
}

/// The data with which a request to stop is answered; the server is then shut down.
pub fn stop_response() -> (r: StopResponse)
    ensures
        r.status@ == "ok"@,
        r.message@ == "shutdown initiated"@,
{
    StopResponse { status: "ok", message: "shutdown initiated" }
}

/// With the configured token in its header a request is treated as where none is configured.
pub proof fn law_right_token_opens_the_api(
    method: HttpMethod,
    path: Seq<char>,
    authorization: Header,
    token: Seq<char>,
)
    requires
        authorization matches Header::Text(h) && h@ == "Bearer "@ + token,
    ensures
        api_admission(method, path, authorization, Some(token)) == api_admission(
            method,
            path,
            Header::Absent,
            None,
        ),
{
}

/// The admin page and the health check need no token: what is done with a request for them
/// depends neither on the header nor on the token.
pub proof fn law_open_paths_need_no_token(
    method: HttpMethod,
    path: Seq<char>,
    authorization: Header,
    token: Option<Seq<char>>,
)
    requires
        path == "/"@ || path == "/admin"@ || path == "/health"@,
    ensures
        api_admission(method, path, authorization, token) == api_admission(
            method,
            path,
            Header::Absent,
            None,
        ),
{
}

/// A request that is let in calls the operation to which its path leads, for the item that
/// is named there; where the path leads nowhere it is not found, and where only the method
/// is wrong, that is said.
pub proof fn law_requests_go_where_they_lead(method: HttpMethod, path: Seq<char>)
    ensures
        match (route(method, path), api_admission(method, path, Header::Absent, None)) {
            ((Lookup::Found(e), None), Ok((x, item))) => x == e && item is None,
            ((Lookup::Found(e), Some(part)), Ok((x, item))) => x == e && item is Some && item
                == item_name(part),
            ((Lookup::Found(_), Some(part)), Err((s, _))) => s == 400 && item_name(part) is None,
            ((Lookup::OtherMethod, _), Err((s, _))) => s == 405,
            ((Lookup::Unknown, _), Err((s, _))) => s == 404,
            _ => false,
        },
{
}

/// A name in a path that has no escapes stands for itself.
pub proof fn law_plain_names_stand_for_themselves(part: Seq<char>)
    requires
        forall|i: int| 0 <= i < encode_utf8(part).len() ==> #[trigger] encode_utf8(part)[i] != 0x25,
    ensures
        item_name(part) == Some(part),
{
    lemma_nothing_escaped(encode_utf8(part));
    encode_utf8_valid_utf8(part);
    encode_utf8_decode_utf8(part);
}

proof fn lemma_nothing_escaped(b: Seq<u8>)
    requires
        forall|i: int| 0 <= i < b.len() ==> #[trigger] b[i] != 0x25,
    ensures
        percent_decoded(b) == b,
    decreases b.len(),
{
    if b.len() > 0 {
        lemma_nothing_escaped(b.skip(1));
        assert(b =~= seq![b[0]] + b.skip(1));
    } else {
        assert(b =~= seq![]);
    }
}

/// The two hexadecimal digits of a byte.
pub open spec fn hex_digits(byte: u8) -> Seq<u8> {
    let digits = seq![
        0x30u8, 0x31, 0x32, 0x33, 0x34, 0x35, 0x36, 0x37, 0x38, 0x39,
        0x41, 0x42, 0x43, 0x44, 0x45, 0x46,
    ];
    seq![digits[byte as int / 16], digits[byte as int % 16]]
}

/// Every byte can be written with an escape, and is read back from it.
pub proof fn law_escapes_are_read_back(byte: u8, rest: Seq<u8>)
    ensures
        percent_decoded(seq![0x25u8] + hex_digits(byte) + rest) == seq![byte] + percent_decoded(rest),
{
    let b = seq![0x25u8] + hex_digits(byte) + rest;
    assert(b.skip(3) =~= rest);
    let h = byte as int / 16;
    let l = byte as int % 16;
    assert(0 <= h < 16 && 0 <= l < 16);
    assert(hex_digit(b[1]) == Some(h as u8));
    assert(hex_digit(b[2]) == Some(l as u8));
}

/// Creations are answered with 201 and other successes with 200; a failure is the client's
/// where something is not there or not valid, and else the server's. A reload that fails is
/// always the server's.
pub proof fn law_statuses_say_whose_fault_it_is(e: Endpoint, error: ServerOperationError)
    ensures
        success_status_of(e) == 201 <==> (e is AddBlocklist || e is AddAllowlist || e is AddUpstream
            || e is AddZone || e is AddZoneDiscovery),
        success_status_of(e) == 200 || success_status_of(e) == 201,
        failure_status_of(e, error) == 404 <==> !(e is Reload) && (error is NotFound || error
            is Unavailable),
        failure_status_of(e, error) == 400 <==> !(e is Reload) && error is InvalidInput,
        failure_status_of(e, error) == 500 <==> e is Reload || error is Internal || error
            is ChannelClosed,
{
}

/// An answer hands on the data of an operation, or the text of its error, with the time at
/// which it was asked.
pub proof fn law_answers_hand_on_what_came<T>(
    e: Endpoint,
    outcome: Result<T, (ServerOperationError, String)>,
    now: u64,
    r: ApiResponse<T>,
)
    requires
        match outcome {
            Ok(data) => r.reports(success_status_of(e), data, now),
            Err((error, text)) => r.complains(failure_status_of(e, error), text@, now),
        },
    ensures
        r.timestamp == now,
        outcome matches Ok(data) ==> r.data == Some(data) && r.success,
        outcome matches Err((_, text)) ==> !r.success && (r.error matches Some(m) && m@ == text@),
{
}

/// A name in the path that cannot be read is told by what it should have been.
pub proof fn law_unreadable_names_are_told(e: Endpoint)
    ensures
        e is UpdateUpstream || e is DeleteUpstream || e is UpdateZoneDiscovery || e
            is DeleteZoneDiscovery ==> unreadable_item(e) == "Invalid URL: Invalid UTF-8 in `id`"@,
        e is UpdateZone || e is DeleteZone ==> unreadable_item(e)
            == "Invalid URL: Invalid UTF-8 in `zone`"@,
        !(e is UpdateUpstream || e is DeleteUpstream || e is UpdateZoneDiscovery || e
            is DeleteZoneDiscovery || e is UpdateZone || e is DeleteZone) ==> unreadable_item(e)
            == "Invalid URL: Invalid UTF-8 in `name`"@,
{
}

} // verus!
