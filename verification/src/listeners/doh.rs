//! DNS over HTTPS: which requests are forwarded, and what the others are answered.

use crate::config::schema::TlsSocketConfig;
use crate::listeners::auth::{check_bearer, refusal, Header};
use crate::listeners::bind::{
    are_bind_addrs, invalid_address, is_first_invalid, parse_bind_addrs, show_bind_failure,
    show_invalid_address, ListenerSetupError,
};
use crate::listeners::handler::{response_bytes, sent_bytes, PipelineOutcome};
use crate::net::{shown_socket_addr, SocketAddr};
use crate::pem::ServerTls;
use crate::text::{
    chars_of, find, find_from, lemma_find, lemma_find_is, opt_str, opt_text, same, split, split_on, starts_with,
    text_of, texts,
};
use crate::tls::TlsSetupError;
use base64::Engine;
use vstd::prelude::*;

verus! {

/// Maximum accepted DNS wire payload size for inbound DoH requests (bytes).
pub const MAX_DNS_PAYLOAD: usize = 4096;

/// The adapter for DNS over HTTPS.
#[derive(Debug, Clone, Copy)]
pub struct DohAdapter;

impl DohAdapter {
    /// The name of the protocol.
    pub fn protocol_name(&self) -> (r: &'static str)
        ensures
            r@ == "doh"@,
    {
        "doh"
    }
}

// ---- the server ----

/// Errors that can occur when creating or running a [`DohServer`].
#[derive(Debug)]
pub enum DohListenerError {
    /// An address and port, as one text, that stand for nothing.
    InvalidAddress { addr: String, source: String },
    BindFailed { addr: SocketAddr, source: String },
    Tls(String),
    Runtime(String),
}

impl DohListenerError {
    /// The text that a user sees.
    pub open spec fn text(self) -> Seq<char> {
        match self {
            DohListenerError::InvalidAddress { addr, source } => invalid_address(addr@, source@),
            DohListenerError::BindFailed { addr, source } => "failed to bind "@ + "TCP"@ + " on "@
                + shown_socket_addr(addr) + ": "@ + source@,
            DohListenerError::Tls(m) => "TLS configuration error: "@ + m@,
            DohListenerError::Runtime(m) => "listener runtime error: "@ + m@,
        }
    }

    /// The text that a user sees.
    pub fn message(&self) -> (r: String)
        ensures
            r@ == self.text(),
    {
        match self {
            DohListenerError::InvalidAddress { addr, source } => {
                show_invalid_address(addr.as_str(), source.as_str())
            },
            DohListenerError::BindFailed { addr, source } => {
                show_bind_failure("TCP", *addr, source.as_str())
            },
            DohListenerError::Tls(m) => {
                let mut out = "TLS configuration error: ".to_owned();
                out.push_str(m.as_str());
                out
            },
            DohListenerError::Runtime(m) => {
                let mut out = "listener runtime error: ".to_owned();
                out.push_str(m.as_str());
                out
            },
        }
    }
}

/// A server for DNS over HTTPS (RFC 8484).
#[derive(Debug)]
pub struct DohServer {
    pub bind_addrs: Vec<SocketAddr>,
    pub tls_config: ServerTls,
    /// The token that requests must carry.
    pub auth_token: Option<String>,
}

impl DohServer {
    /// A server for a configuration, given what its certificate and key came to. The
    /// first address that stands for nothing is an error, and else TLS that could not be
    /// set up.
    pub fn new(
        config: &TlsSocketConfig,
        tls: Result<ServerTls, TlsSetupError>,
        auth_token: Option<String>,
    ) -> (r: Result<DohServer, DohListenerError>)
        ensures
            match r {
                Ok(s) => {
                    &&& are_bind_addrs(config.addresses@, config.port, s.bind_addrs@)
                    &&& tls == Ok::<ServerTls, TlsSetupError>(s.tls_config)
                    &&& s.auth_token == auth_token
                },
                Err(DohListenerError::InvalidAddress { addr, source }) => is_first_invalid(
                    config.addresses@,
                    config.port,
                    addr@,
                    source@,
                ),
                Err(DohListenerError::Tls(m)) => {
                    &&& exists|list: Seq<SocketAddr>|
                        are_bind_addrs(config.addresses@, config.port, list)
                    &&& tls matches Err(e) && m@ == e@.text()
                },
                Err(_) => false,
            },
    {
        match parse_bind_addrs(&config.addresses, config.port) {
            Err(ListenerSetupError::InvalidAddress { addr, source }) => Err(
                DohListenerError::InvalidAddress { addr, source },
            ),
            Err(e) => Err(DohListenerError::Tls(e.message())),
            Ok(bind_addrs) => match tls {
                Ok(tls_config) => Ok(DohServer { bind_addrs, tls_config, auth_token }),
                Err(e) => {
                    assert(are_bind_addrs(config.addresses@, config.port, bind_addrs@));
                    Err(DohListenerError::Tls(e.message()))
                },
            },
        }
    }
}

/// What the end of a task that served came to.
pub open spec fn end_of_task(result: Result<Result<(), DohListenerError>, String>) -> Result<
    (),
    DohListenerError,
> {
    match result {
        Ok(inner) => inner,
        Err(e) => Err(DohListenerError::Runtime(e)),
    }
}

/// What a task came to is what is told of it; that it was lost is an error too.
pub proof fn law_lost_tasks_are_errors(inner: Result<(), DohListenerError>, e: String)
    ensures
        end_of_task(Ok(inner)) == inner,
        end_of_task(Err(e)) == Err::<(), DohListenerError>(DohListenerError::Runtime(e)),
{
}

/// What the end of a task that served came to; a task that was lost counts as an error of
/// the listener.
pub fn flatten_join(result: Result<Result<(), DohListenerError>, String>) -> (r: Result<
    (),
    DohListenerError,
>)
    ensures
        r == end_of_task(result),
        r == match result {
            Ok(inner) => inner,
            Err(e) => Err(DohListenerError::Runtime(e)),
        },
{
    match result {
        Ok(inner) => inner,
        Err(e) => Err(DohListenerError::Runtime(e)),
    }
}

// ---- requests ----

/// The method of a request.
#[derive(Clone, Copy, Debug, PartialEq, Eq, Structural)]
pub enum Method {
    Get,
    Post,
    Other,
}

/// A request, without its body.
#[derive(Debug)]
pub struct DohRequest {
    pub method: Method,
    pub path: String,
    /// What follows the question mark of the URI.
    pub query: Option<String>,
    pub authorization: Header,
    pub content_type: Header,
}

/// An answer that refuses a request.
#[derive(Clone, Copy, Debug)]
pub struct Refusal {
    pub status: u16,
    /// The value of the `Allow` header.
    pub allow: Option<&'static str>,
    pub message: &'static str,
}

/// What an answer that refuses a request holds.
pub struct RefusalView {
    pub status: u16,
    pub allow: Option<Seq<char>>,
    pub message: Seq<char>,
}

impl View for Refusal {
    type V = RefusalView;

    open spec fn view(&self) -> RefusalView {
        RefusalView {
            status: self.status,
            allow: match self.allow {
                Some(a) => Some(a@),
                None => None,
            },
            message: self.message@,
        }
    }
}

/// An answer with a status and a text.
pub open spec fn answer(status: u16, message: Seq<char>) -> RefusalView {
    RefusalView { status, allow: None, message }
}

/// What is done with a request.
#[derive(Debug)]
pub enum Admission {
    /// It is answered at once.
    Refuse(Refusal),
    /// Its body is read.
    ReadBody,
    /// The query in it is forwarded.
    Forward(Vec<u8>),
}

/// What is done with a request.
pub enum AdmissionView {
    Refuse(RefusalView),
    ReadBody,
    Forward(Seq<u8>),
}

impl View for Admission {
    type V = AdmissionView;

    open spec fn view(&self) -> AdmissionView {
        match self {
            Admission::Refuse(r) => AdmissionView::Refuse(r@),
            Admission::ReadBody => AdmissionView::ReadBody,
            Admission::Forward(q) => AdmissionView::Forward(q@),
        }
    }
}

/// What base64's `URL_SAFE_NO_PAD` engine decodes from a text.
pub uninterp spec fn base64url_decoded(text: Seq<char>) -> Option<Seq<u8>>;

/// Optional bytes.
pub open spec fn opt_bytes(o: Option<Vec<u8>>) -> Option<Seq<u8>> {
    match o {
        Some(v) => Some(v@),
        None => None,
    }
}

/// `URL_SAFE_NO_PAD.decode` of base64: the bytes that a text in the URL-safe alphabet
/// without padding stands for; nothing where it stands for none. The alphabet is not
/// stated.
#[verifier::external_body]
fn decode_base64url(text: &str) -> (r: Option<Vec<u8>>)
    ensures
        opt_bytes(r) == base64url_decoded(text@),
{
    base64::engine::general_purpose::URL_SAFE_NO_PAD.decode(text).ok()
}

/// The name of a parameter: what stands before the first equals sign.
pub open spec fn parameter_name(pair: Seq<char>) -> Seq<char> {
    pair.take(find(pair, '='))
}

/// The value of a parameter: what stands behind the first equals sign, if there is one.
pub open spec fn parameter_value(pair: Seq<char>) -> Seq<char> {
    let i = find(pair, '=');
    if i < pair.len() {
        pair.skip(i + 1)
    } else {
        seq![]
    }
}

/// The value of the first parameter with the name `dns`, from the pair `from` on.
pub open spec fn dns_value(pairs: Seq<Seq<char>>, from: int) -> Option<Seq<char>>
    decreases pairs.len() - from,
{
    if from < 0 || from >= pairs.len() {
        None
    } else if parameter_name(pairs[from]) == "dns"@ {
        Some(parameter_value(pairs[from]))
    } else {
        dns_value(pairs, from + 1)
    }
}

/// The value of the first parameter with the name `dns` in a query string.
pub fn dns_parameter(query: &str) -> (r: Option<String>)
    ensures
        opt_text(r) == dns_value(split(query@, '&'), 0),
{
    let pairs = split_on(query, '&');
    let ghost all = split(query@, '&');
    assert(texts(pairs@).len() == pairs@.len());
    let mut i: usize = 0;
    while i < pairs.len()
        invariant
            i <= pairs@.len() == all.len(),
            texts(pairs@) == all,
            all == split(query@, '&'),
            dns_value(all, 0) == dns_value(all, i as int),
        decreases pairs@.len() - i,
    {
        let v = chars_of(pairs[i].as_str());
        assert(v@ == texts(pairs@)[i as int]);
        let k: usize = find_from(&v, 0, '=');
        proof {
            assert(v@.skip(0) =~= v@);
            lemma_find(v@, '=');
        }
        let name = text_of(&v, 0, k);
        assert(name@ =~= parameter_name(v@));
        if same(name.as_str(), "dns") {
            if k < v.len() {
                let value = text_of(&v, k + 1, v.len());
                assert(value@ =~= parameter_value(v@));
                return Some(value);
            }
            return Some(String::new());
        }
        i += 1;
    }
    None
}

/// What comes of the bytes of a query: none at all and too many are refused.
pub open spec fn sized(query: Seq<u8>) -> AdmissionView {
    if query.len() == 0 {
        AdmissionView::Refuse(answer(400, "empty DNS payload"@))
    } else if query.len() > MAX_DNS_PAYLOAD {
        AdmissionView::Refuse(answer(413, "DNS payload too large"@))
    } else {
        AdmissionView::Forward(query)
    }
}

fn refuse(status: u16, message: &'static str) -> (r: Admission)
    ensures
        r@ == AdmissionView::Refuse(answer(status, message@)),
{
    Admission::Refuse(Refusal { status, allow: None, message })
}

fn check_size(query: Vec<u8>) -> (r: Admission)
    ensures
        r@ == sized(query@),
{
    if query.len() == 0 {
        refuse(400, "empty DNS payload")
    } else if query.len() > MAX_DNS_PAYLOAD {
        refuse(413, "DNS payload too large")
    } else {
        Admission::Forward(query)
    }
}

/// What comes of the decoded value of the `dns` parameter.
pub open spec fn decoded_admission(decoded: Option<Seq<u8>>) -> AdmissionView {
    match decoded {
        None => AdmissionView::Refuse(answer(400, "invalid base64url in 'dns' parameter"@)),
        Some(query) => sized(query),
    }
}

/// What comes of the decoded value of the `dns` parameter; `None` where it could not
/// be decoded.
pub fn admit_decoded(decoded: Option<Vec<u8>>) -> (r: Admission)
    ensures
        r@ == decoded_admission(opt_bytes(decoded)),
{
    match decoded {
        None => refuse(400, "invalid base64url in 'dns' parameter"),
        Some(query) => check_size(query),
    }
}

/// What comes of the body of a POST; `None` where it could not be read.
pub open spec fn body_admission(body: Option<Seq<u8>>) -> AdmissionView {
    match body {
        None => AdmissionView::Refuse(answer(400, "failed to read request body"@)),
        Some(query) => sized(query),
    }
}

/// What comes of the body of a POST; `None` where it could not be read.
pub fn admit_body(body: Option<Vec<u8>>) -> (r: Admission)
    ensures
        r@ == body_admission(opt_bytes(body)),
{
    match body {
        None => refuse(400, "failed to read request body"),
        Some(query) => check_size(query),
    }
}

/// Whether the type of the content is that of DNS messages.
pub open spec fn is_dns_message(content_type: Header) -> bool {
    content_type matches Header::Text(t) && "application/dns-message"@.is_prefix_of(t@)
}

/// What is done with a request: the token is looked at first, then the path, then
/// what belongs to the method.
pub open spec fn admission(req: DohRequest, token: Option<Seq<char>>) -> AdmissionView {
    match refusal(req.authorization, token) {
        Some(message) => AdmissionView::Refuse(answer(401, message)),
        None => if req.path@ != "/dns-query"@ {
            AdmissionView::Refuse(answer(404, "not found"@))
        } else {
            match req.method {
                Method::Post => if is_dns_message(req.content_type) {
                    AdmissionView::ReadBody
                } else {
                    AdmissionView::Refuse(
                        answer(415, "Content-Type must be application/dns-message"@),
                    )
                },
                Method::Get => {
                    let value = match req.query {
                        Some(q) => dns_value(split(q@, '&'), 0),
                        None => dns_value(split(seq![], '&'), 0),
                    };
                    match value {
                        None => AdmissionView::Refuse(answer(400, "missing 'dns' query parameter"@)),
                        Some(v) => if v.len() == 0 {
                            AdmissionView::Refuse(answer(400, "missing 'dns' query parameter"@))
                        } else {
                            decoded_admission(base64url_decoded(v))
                        },
                    }
                },
                Method::Other => AdmissionView::Refuse(
                    RefusalView {
                        status: 405,
                        allow: Some("GET, POST"@),
                        message: "method not allowed"@,
                    },
                ),
            }
        },
    }
}

/// What is done with a request: validates auth, path, method, content type and, for a
/// GET, the query in it.
pub fn handle_doh_request(req: &DohRequest, auth_token: Option<&str>) -> (r: Admission)
    ensures
        r@ == admission(*req, opt_str(auth_token)),
{
    if let Some(message) = check_bearer(&req.authorization, auth_token) {
        return refuse(401, message);
    }
    if !same(req.path.as_str(), "/dns-query") {
        return refuse(404, "not found");
    }
    match req.method {
        Method::Post => {
            let fits = match &req.content_type {
                Header::Text(t) => starts_with(t.as_str(), "application/dns-message"),
                _ => false,
            };
            if fits {
                Admission::ReadBody
            } else {
                refuse(415, "Content-Type must be application/dns-message")
            }
        },
        Method::Get => {
            let empty = String::new();
            let value = match &req.query {
                Some(q) => dns_parameter(q.as_str()),
                None => dns_parameter(empty.as_str()),
            };
            match value {
                Some(v) => if v.as_str().is_empty() {
                    refuse(400, "missing 'dns' query parameter")
                } else {
                    admit_decoded(decode_base64url(v.as_str()))
                },
                None => refuse(400, "missing 'dns' query parameter"),
            }
        },
        Method::Other => Admission::Refuse(
            Refusal { status: 405, allow: Some("GET, POST"), message: "method not allowed" },
        ),
    }
}

/// Whatever is forwarded has at least one byte and at most `MAX_DNS_PAYLOAD`, whether
/// it came in the URI or in the body.
pub proof fn law_forwarded_payload_is_bounded(
    req: DohRequest,
    token: Option<Seq<char>>,
    body: Option<Seq<u8>>,
)
    ensures
        admission(req, token) matches AdmissionView::Forward(q) ==> 0 < q.len() <= MAX_DNS_PAYLOAD,
        body_admission(body) matches AdmissionView::Forward(q) ==> 0 < q.len() <= MAX_DNS_PAYLOAD,
{
}

/// A request without the configured token is answered with status 401, whatever else
/// it holds.
pub proof fn law_wrong_token_is_unauthorized(req: DohRequest, token: Seq<char>)
    requires
        !(req.authorization matches Header::Text(h) && h@ == "Bearer "@ + token),
    ensures
        admission(req, Some(token)) matches AdmissionView::Refuse(r) && r.status == 401,
{
}

/// The answer to a query that was forwarded.
#[derive(Debug)]
pub struct DnsAnswer {
    pub status: u16,
    pub content_type: &'static str,
    pub body: Vec<u8>,
}

/// Whether an answer is the one to a query that was forwarded, given what the pipeline made
/// of it.
pub open spec fn answers_query(
    outcome: PipelineOutcome,
    serv_fail: Vec<u8>,
    r: DnsAnswer,
) -> bool {
    &&& r.status == 200
    &&& r.content_type@ == "application/dns-message"@
    &&& r.body == sent_bytes(outcome, serv_fail)
}

/// The answer to a query that was forwarded, given what the pipeline made of it; a query
/// that the pipeline did not answer gets the message that says that the server failed.
pub fn forward_query(outcome: PipelineOutcome, serv_fail: Vec<u8>) -> (r: DnsAnswer)
    ensures
        answers_query(outcome, serv_fail, r),
        r.status == 200,
        r.content_type@ == "application/dns-message"@,
        r.body == match outcome {
            PipelineOutcome::Answered(b) => b,
            _ => serv_fail,
        },
{
    DnsAnswer {
        status: 200,
        content_type: "application/dns-message",
        body: response_bytes(outcome, serv_fail),
    }
}

/// With the configured token in its header a request is treated as where none is configured.
pub proof fn law_right_token_opens(req: DohRequest, token: Seq<char>)
    requires
        req.authorization matches Header::Text(h) && h@ == "Bearer "@ + token,
    ensures
        admission(req, Some(token)) == admission(req, None),
{
}

/// Where no token is configured nobody is asked for one, whatever the header is.
pub proof fn law_no_token_is_asked_for(req: DohRequest)
    ensures
        !(admission(req, None) matches AdmissionView::Refuse(r) && r.status == 401),
{
}

/// A request that is let in is found nowhere but at `/dns-query`, and there with GET and
/// POST alone; the answer to another method names these two.
pub proof fn law_queries_have_their_path_and_methods(req: DohRequest)
    ensures
        ({
            let refused = match admission(req, None) {
                AdmissionView::Refuse(r) => Some(r.status),
                _ => None,
            };
            &&& refused == Some(404u16) <==> req.path@ != "/dns-query"@
            &&& refused == Some(405u16) <==> req.path@ == "/dns-query"@ && req.method is Other
            &&& refused == Some(405u16) ==> (admission(req, None) matches AdmissionView::Refuse(r)
                && r.allow == Some("GET, POST"@))
            &&& refused == Some(415u16) <==> req.path@ == "/dns-query"@ && req.method is Post && !(
            req.content_type matches Header::Text(t) && "application/dns-message"@.is_prefix_of(
                t@,
            ))
            &&& admission(req, None) is ReadBody <==> req.path@ == "/dns-query"@ && req.method
                is Post && (req.content_type matches Header::Text(t)
                && "application/dns-message"@.is_prefix_of(t@))
        }),
{
}

/// A query is forwarded as it is, from a body as from a URI: one of 1 to 4096 bytes is, an
/// empty one is a bad request and a longer one too large.
pub proof fn law_queries_are_forwarded_as_they_are(query: Seq<u8>)
    ensures
        body_admission(Some(query)) == decoded_admission(Some(query)),
        0 < query.len() <= 4096 ==> body_admission(Some(query)) == AdmissionView::Forward(query),
        query.len() == 0 ==> (body_admission(Some(query)) matches AdmissionView::Refuse(r)
            && r.status == 400),
        query.len() > 4096 ==> (body_admission(Some(query)) matches AdmissionView::Refuse(r)
            && r.status == 413),
        body_admission(None) matches AdmissionView::Refuse(r) && r.status == 400,
        decoded_admission(None) matches AdmissionView::Refuse(r) && r.status == 400,
{
}

/// Whether a parameter has the name `dns`.
pub open spec fn is_dns_parameter(pair: Seq<char>) -> bool {
    pair == "dns"@ || "dns="@.is_prefix_of(pair)
}

proof fn lemma_dns_parameter(pair: Seq<char>)
    ensures
        is_dns_parameter(pair) <==> parameter_name(pair) == "dns"@,
        "dns="@.is_prefix_of(pair) ==> parameter_value(pair) == pair.skip(4),
        pair == "dns"@ ==> parameter_value(pair) == Seq::<char>::empty(),
{
    reveal_strlit("dns");
    reveal_strlit("dns=");
    lemma_find(pair, '=');
    let i = find(pair, '=');
    if "dns="@.is_prefix_of(pair) {
        let p = "dns="@;
        assert(pair.subrange(0, 4) == p);
        assert(pair[0] == p[0] && pair[1] == p[1] && pair[2] == p[2] && pair[3] == p[3]);
        lemma_find_is(pair, '=', 3);
        assert(pair.take(3) =~= "dns"@);
    }
    if pair == "dns"@ {
        lemma_find_is(pair, '=', 3);
        assert(pair.take(3) =~= "dns"@);
    }
    if parameter_name(pair) == "dns"@ {
        assert(pair.take(i).len() == i);
        assert(i == 3);
        assert(pair.take(3)[0] == pair[0]);
        assert(pair.take(3)[1] == pair[1]);
        assert(pair.take(3)[2] == pair[2]);
        if pair.len() == 3 {
            assert(pair =~= "dns"@);
        } else {
            assert(pair.subrange(0, 4) =~= "dns="@);
        }
    }
}

proof fn lemma_first_dns_value(pairs: Seq<Seq<char>>, from: int, i: int, v: Seq<char>)
    requires
        0 <= from <= i < pairs.len(),
        forall|j: int| from <= j < i ==> !is_dns_parameter(#[trigger] pairs[j]),
        pairs[i] == "dns="@ + v,
    ensures
        dns_value(pairs, from) == Some(v),
    decreases i - from,
{
    lemma_dns_parameter(pairs[from]);
    if from < i {
        lemma_first_dns_value(pairs, from + 1, i, v);
    } else {
        reveal_strlit("dns=");
        assert(pairs[i].subrange(0, 4) =~= "dns="@);
        assert(pairs[i].skip(4) =~= v);
    }
}

proof fn lemma_no_dns_value(pairs: Seq<Seq<char>>, from: int)
    requires
        0 <= from <= pairs.len(),
        forall|j: int| from <= j < pairs.len() ==> !is_dns_parameter(#[trigger] pairs[j]),
    ensures
        dns_value(pairs, from) is None,
    decreases pairs.len() - from,
{
    if from < pairs.len() {
        lemma_dns_parameter(pairs[from]);
        lemma_no_dns_value(pairs, from + 1);
    }
}

/// A GET is forwarded with the bytes that its first `dns` parameter stands for, wherever
/// that parameter stands among the others; without such a parameter it is a bad request.
pub proof fn law_get_takes_the_first_dns_parameter(req: DohRequest, i: int, v: Seq<char>)
    requires
        req.method is Get,
        req.path@ == "/dns-query"@,
    ensures
        req.query matches Some(q) && ({
            let pairs = split(q@, '&');
            &&& 0 <= i < pairs.len()
            &&& pairs[i] == "dns="@ + v
            &&& forall|j: int| 0 <= j < i ==> !is_dns_parameter(#[trigger] pairs[j])
        }) && v.len() > 0 ==> admission(req, None) == match base64url_decoded(v) {
            Some(query) => body_admission(Some(query)),
            None => decoded_admission(None),
        },
        req.query matches Some(q) && (forall|j: int|
            0 <= j < split(q@, '&').len() ==> !is_dns_parameter(#[trigger] split(q@, '&')[j])) ==> (
        admission(req, None) matches AdmissionView::Refuse(r) && r.status == 400),
        req.query is None ==> (admission(req, None) matches AdmissionView::Refuse(r) && r.status
            == 400),
{
    if let Some(q) = req.query {
        let pairs = split(q@, '&');
        if 0 <= i < pairs.len() && pairs[i] == "dns="@ + v && (forall|j: int|
            0 <= j < i ==> !is_dns_parameter(#[trigger] pairs[j])) {
            lemma_first_dns_value(pairs, 0, i, v);
        }
        if forall|j: int| 0 <= j < pairs.len() ==> !is_dns_parameter(#[trigger] pairs[j]) {
            lemma_no_dns_value(pairs, 0);
        }
    } else {
        let none = Seq::<char>::empty();
        lemma_find(none, '&');
        assert(split(none, '&') =~= seq![none]);
        reveal_strlit("dns");
        reveal_strlit("dns=");
        assert(!is_dns_parameter(none));
        lemma_no_dns_value(split(none, '&'), 0);
    }
}

/// The answer to a query is the message of the pipeline, or the one that says that the
/// server failed; either way it is a success of HTTP.
pub proof fn law_answers_are_messages(outcome: PipelineOutcome, serv_fail: Vec<u8>, r: DnsAnswer)
    requires
        answers_query(outcome, serv_fail, r),
    ensures
        r.status == 200,
        r.content_type@ == "application/dns-message"@,
        outcome matches PipelineOutcome::Answered(b) ==> r.body == b,
        !(outcome is Answered) ==> r.body == serv_fail,
{
}

/// What is done with a request is seen as it is: a refusal with its status, its words and the
/// methods that it names, and a query with its bytes.
pub proof fn law_admissions_are_seen_as_they_are(r: Refusal, q: Vec<u8>)
    ensures
        Admission::Refuse(r)@ == AdmissionView::Refuse(r@),
        Admission::Forward(q)@ == AdmissionView::Forward(q@),
        Admission::ReadBody@ is ReadBody,
        r@.status == r.status && r@.message == r.message@,
        r.allow matches Some(a) ==> r@.allow == Some(a@),
        r.allow is None ==> r@.allow is None,
{
}

} // verus!
