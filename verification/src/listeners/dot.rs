//! DNS over TLS: the server, and its connections, on which messages have their length
//! before them.

use crate::config::schema::TlsSocketConfig;
use crate::listeners::bind::{
    are_bind_addrs, invalid_address, is_first_invalid, parse_bind_addrs, show_bind_failure,
    show_invalid_address, ListenerSetupError,
};
use crate::net::{shown_socket_addr, SocketAddr};
use crate::pem::ServerTls;
use crate::tls::TlsSetupError;
use vstd::prelude::*;

verus! {

/// The adapter for DNS over TLS.
#[derive(Debug, Clone, Copy)]
pub struct DotAdapter;

impl DotAdapter {
    /// The name of the protocol.
    pub fn protocol_name(&self) -> (r: &'static str)
        ensures
            r@ == "dot"@,
    {
        "dot"
    }
}

// ---- the server ----

/// Errors that can occur when creating or running a [`DotServer`].
#[derive(Debug)]
pub enum DotListenerError {
    /// An address and port, as one text, that stand for nothing.
    InvalidAddress { addr: String, source: String },
    BindFailed { addr: SocketAddr, source: String },
    Tls(String),
    Runtime(String),
}

impl DotListenerError {
    /// The text that a user sees.
    pub open spec fn text(self) -> Seq<char> {
        match self {
            DotListenerError::InvalidAddress { addr, source } => invalid_address(addr@, source@),
            DotListenerError::BindFailed { addr, source } => "failed to bind "@ + "TCP"@ + " on "@
                + shown_socket_addr(addr) + ": "@ + source@,
            DotListenerError::Tls(m) => "TLS configuration error: "@ + m@,
            DotListenerError::Runtime(m) => "listener runtime error: "@ + m@,
        }
    }

    /// The text that a user sees.
    pub fn message(&self) -> (r: String)
        ensures
            r@ == self.text(),
    {
        match self {
            DotListenerError::InvalidAddress { addr, source } => {
                show_invalid_address(addr.as_str(), source.as_str())
            },
            DotListenerError::BindFailed { addr, source } => {
                show_bind_failure("TCP", *addr, source.as_str())
            },
            DotListenerError::Tls(m) => {
                let mut out = "TLS configuration error: ".to_owned();
                out.push_str(m.as_str());
                out
            },
            DotListenerError::Runtime(m) => {
                let mut out = "listener runtime error: ".to_owned();
                out.push_str(m.as_str());
                out
            },
        }
    }
}

/// A server for DNS over TLS (RFC 7858).
#[derive(Debug)]
pub struct DotServer {
    pub bind_addrs: Vec<SocketAddr>,
    pub tls_config: ServerTls,
}

impl DotServer {
    /// A server for a configuration, given what its certificate and key came to. The
    /// first address that stands for nothing is an error, and else TLS that could not be
    /// set up.
    pub fn new(
        config: &TlsSocketConfig,
        tls: Result<ServerTls, TlsSetupError>,
    ) -> (r: Result<DotServer, DotListenerError>)
        ensures
            match r {
                Ok(s) => {
                    &&& are_bind_addrs(config.addresses@, config.port, s.bind_addrs@)
                    &&& tls == Ok::<ServerTls, TlsSetupError>(s.tls_config)
                },
                Err(DotListenerError::InvalidAddress { addr, source }) => is_first_invalid(
                    config.addresses@,
                    config.port,
                    addr@,
                    source@,
                ),
                Err(DotListenerError::Tls(m)) => {
                    &&& exists|list: Seq<SocketAddr>|
                        are_bind_addrs(config.addresses@, config.port, list)
                    &&& tls matches Err(e) && m@ == e@.text()
                },
                Err(_) => false,
            },
    {
        match parse_bind_addrs(&config.addresses, config.port) {
            Err(ListenerSetupError::InvalidAddress { addr, source }) => Err(
                DotListenerError::InvalidAddress { addr, source },
            ),
            Err(e) => Err(DotListenerError::Tls(e.message())),
            Ok(bind_addrs) => match tls {
                Ok(tls_config) => Ok(DotServer { bind_addrs, tls_config }),
                Err(e) => {
                    assert(are_bind_addrs(config.addresses@, config.port, bind_addrs@));
                    Err(DotListenerError::Tls(e.message()))
                },
            },
        }
    }
}

/// What the end of a task that served came to.
pub open spec fn end_of_task(result: Result<Result<(), DotListenerError>, String>) -> Result<
    (),
    DotListenerError,
> {
    match result {
        Ok(inner) => inner,
        Err(e) => Err(DotListenerError::Runtime(e)),
    }
}

/// What a task came to is what is told of it; that it was lost is an error too.
pub proof fn law_lost_tasks_are_errors(inner: Result<(), DotListenerError>, e: String)
    ensures
        end_of_task(Ok(inner)) == inner,
        end_of_task(Err(e)) == Err::<(), DotListenerError>(DotListenerError::Runtime(e)),
{
}

/// What the end of a task that served came to; a task that was lost counts as an error of
/// the listener.
pub fn flatten_join(result: Result<Result<(), DotListenerError>, String>) -> (r: Result<
    (),
    DotListenerError,
>)
    ensures
        r == end_of_task(result),
        r == match result {
            Ok(inner) => inner,
            Err(e) => Err(DotListenerError::Runtime(e)),
        },
{
    match result {
        Ok(inner) => inner,
        Err(e) => Err(DotListenerError::Runtime(e)),
    }
}

// ---- messages ----

/// The number of bytes that two bytes announce; nothing where the message is empty.
pub open spec fn announced(high: u8, low: u8) -> Option<nat> {
    if high == 0 && low == 0 {
        None
    } else {
        Some((high * 256 + low) as nat)
    }
}

/// The first of the two bytes is the higher one: every length up to the largest is announced by
/// the bytes that it is made of.
pub proof fn law_lengths_are_announced_high_byte_first(n: nat)
    requires
        n <= 0xffff,
    ensures
        n > 0 ==> announced((n / 256) as u8, (n % 256) as u8) == Some(n),
        n == 0 ==> announced((n / 256) as u8, (n % 256) as u8) is None,
{
}

/// The number of bytes of a message, as the two bytes before it give it; nothing
/// where they announce an empty message, which is passed over.
pub fn announced_length(high: u8, low: u8) -> (r: Option<usize>)
    ensures
        match r {
            Some(n) => announced(high, low) == Some(n as nat),
            None => announced(high, low) is None,
        },
        match r {
            Some(n) => n == high * 256 + low && n > 0,
            None => high == 0 && low == 0,
        },
{
    let n: usize = high as usize * 256 + low as usize;
    if n == 0 {
        None
    } else {
        Some(n)
    }
}

/// A message with its length before it, cut off at what two bytes can announce.
pub open spec fn framed(message: Seq<u8>) -> Seq<u8> {
    let n = if message.len() <= u16::MAX {
        message.len() as int
    } else {
        u16::MAX as int
    };
    seq![(n / 256) as u8, (n % 256) as u8] + message.take(n)
}

/// A message with its length before it.
pub fn frame(message: &[u8]) -> (r: Vec<u8>)
    ensures
        r@ == framed(message@),
{
    let n: usize = if message.len() <= u16::MAX as usize {
        message.len()
    } else {
        u16::MAX as usize
    };
    let mut out: Vec<u8> = Vec::new();
    out.push((n / 256) as u8);
    out.push((n % 256) as u8);
    let mut i: usize = 0;
    while i < n
        invariant
            i <= n <= message@.len(),
            out@ == seq![(n / 256) as u8, (n % 256) as u8] + message@.take(i as int),
        decreases n - i,
    {
        out.push(message[i]);
        assert(message@.take(i + 1) =~= message@.take(i as int).push(message@[i as int]));
        i += 1;
    }
    out
}

/// What is framed is announced by its first two bytes, and follows them unchanged.
pub proof fn law_frame_is_read_back(message: Seq<u8>)
    requires
        0 < message.len() <= u16::MAX,
    ensures
        framed(message)[0] * 256 + framed(message)[1] == message.len(),
        framed(message).skip(2) == message,
{
    let f = framed(message);
    assert(f.skip(2) =~= message);
}

// ---- connections ----

/// What is done next on a connection.
#[derive(Debug)]
pub enum DotAction {
    /// Read the two bytes before a message.
    ReadLength,
    /// Read a message of so many bytes.
    ReadMessage(usize),
    /// Forward a query.
    Forward(Vec<u8>),
    /// Write these bytes.
    Write(Vec<u8>),
    /// Nothing: the client has closed the connection.
    Close,
    /// Nothing: the connection failed.
    Fail(String),
}

/// What came of an action.
#[derive(Debug)]
pub enum DotEvent {
    /// The bytes that were read.
    Read(Vec<u8>),
    /// The answer to the query.
    Answer(Vec<u8>),
    /// The bytes are written.
    Written,
    /// The connection ended before everything was read; the text says so.
    EndOfStream(String),
    Error(String),
}

/// Whether an event can come of an action.
pub open spec fn can_come_of(action: DotAction, event: DotEvent) -> bool {
    match action {
        DotAction::ReadLength => match event {
            DotEvent::Read(b) => b@.len() == 2,
            DotEvent::EndOfStream(_) | DotEvent::Error(_) => true,
            _ => false,
        },
        DotAction::ReadMessage(n) => match event {
            DotEvent::Read(b) => b@.len() == n,
            DotEvent::EndOfStream(_) | DotEvent::Error(_) => true,
            _ => false,
        },
        DotAction::Forward(_) => event is Answer,
        DotAction::Write(_) => event is Written || event is Error,
        DotAction::Close | DotAction::Fail(_) => false,
    }
}

/// What is done next on a connection, by its bytes and texts.
pub enum DotActionView {
    ReadLength,
    ReadMessage(nat),
    Forward(Seq<u8>),
    Write(Seq<u8>),
    Close,
    Fail(Seq<char>),
}

impl View for DotAction {
    type V = DotActionView;

    open spec fn view(&self) -> DotActionView {
        match self {
            DotAction::ReadLength => DotActionView::ReadLength,
            DotAction::ReadMessage(n) => DotActionView::ReadMessage(*n as nat),
            DotAction::Forward(q) => DotActionView::Forward(q@),
            DotAction::Write(b) => DotActionView::Write(b@),
            DotAction::Close => DotActionView::Close,
            DotAction::Fail(m) => DotActionView::Fail(m@),
        }
    }
}

/// What is done after an event: each query is answered, with the length before the answer,
/// before the next one is read. An empty message is passed over. The client may close the
/// connection between two messages, but not within one.
pub open spec fn following(action: DotAction, event: DotEvent) -> DotActionView {
    match event {
        DotEvent::Read(b) => if action is ReadLength {
            if b@[0] == 0 && b@[1] == 0 {
                DotActionView::ReadLength
            } else {
                DotActionView::ReadMessage((b@[0] * 256 + b@[1]) as nat)
            }
        } else {
            DotActionView::Forward(b@)
        },
        DotEvent::Answer(a) => DotActionView::Write(framed(a@)),
        DotEvent::Written => DotActionView::ReadLength,
        DotEvent::EndOfStream(m) => if action is ReadLength {
            DotActionView::Close
        } else {
            DotActionView::Fail(m@)
        },
        DotEvent::Error(m) => DotActionView::Fail(m@),
    }
}

/// What is done after an event.
pub fn handle_dot_conn(action: &DotAction, event: DotEvent) -> (r: DotAction)
    requires
        can_come_of(*action, event),
    ensures
        r@ == following(*action, event),
{
    match event {
        DotEvent::Read(b) => match action {
            DotAction::ReadLength => match announced_length(b[0], b[1]) {
                Some(n) => DotAction::ReadMessage(n),
                None => DotAction::ReadLength,
            },
            _ => DotAction::Forward(b),
        },
        DotEvent::Answer(a) => DotAction::Write(frame(a.as_slice())),
        DotEvent::Written => DotAction::ReadLength,
        DotEvent::EndOfStream(m) => match action {
            DotAction::ReadLength => DotAction::Close,
            _ => DotAction::Fail(m),
        },
        DotEvent::Error(m) => DotAction::Fail(m),
    }
}

/// A query that a client frames is forwarded as it is, and the answer to it is written
/// with its length before it.
pub proof fn law_framed_queries_are_forwarded(
    query: Seq<u8>,
    head: Vec<u8>,
    n: usize,
    body: Vec<u8>,
    forwarded: Vec<u8>,
    answer: Vec<u8>,
)
    requires
        0 < query.len() <= u16::MAX,
        head@ == framed(query).take(2),
        following(DotAction::ReadLength, DotEvent::Read(head)) == DotActionView::ReadMessage(
            n as nat,
        ),
        body@ == framed(query).subrange(2, 2 + n),
        following(DotAction::ReadMessage(n), DotEvent::Read(body)) == DotActionView::Forward(
            forwarded@,
        ),
    ensures
        forwarded@ == query,
        following(DotAction::Forward(forwarded), DotEvent::Answer(answer)) == DotActionView::Write(
            framed(answer@),
        ),
{
    law_frame_is_read_back(query);
    assert(head@[0] == framed(query)[0] && head@[1] == framed(query)[1]);
    assert(framed(query).subrange(2, 2 + n) =~= framed(query).skip(2));
}

/// A message that is longer than two bytes can announce is cut off there.
pub proof fn law_long_messages_are_cut_off(message: Seq<u8>)
    requires
        message.len() > 65535,
    ensures
        framed(message) == framed(message.take(65535)),
        framed(message) == seq![255u8, 255u8] + message.take(65535),
{
    assert(message.take(65535).take(65535) =~= message.take(65535));
}

/// A message is read in two steps: what the two bytes before it announce is what is read,
/// and what was read is forwarded, byte for byte; a message without bytes is passed over.
pub proof fn law_announced_messages_are_read(high: u8, low: u8, head: Vec<u8>, n: usize, body: Vec<u8>)
    requires
        head@ == seq![high, low],
    ensures
        high * 256 + low > 0 ==> following(DotAction::ReadLength, DotEvent::Read(head))
            == DotActionView::ReadMessage((high * 256 + low) as nat),
        high * 256 + low == 0 ==> following(DotAction::ReadLength, DotEvent::Read(head))
            == DotActionView::ReadLength,
        following(DotAction::ReadMessage(n), DotEvent::Read(body)) == DotActionView::Forward(body@),
{
}

/// After an answer the next query is awaited. A client may leave between two messages;
/// one that leaves within a message, and any error, fails the connection with its text.
pub proof fn law_connections_end_between_messages(action: DotAction, event: DotEvent)
    requires
        can_come_of(action, event),
    ensures
        event is Written ==> following(action, event) == DotActionView::ReadLength,
        following(action, event) == DotActionView::Close <==> action is ReadLength && event
            is EndOfStream,
        event matches DotEvent::Error(m) ==> following(action, event) == DotActionView::Fail(m@),
        event matches DotEvent::EndOfStream(m) ==> action is ReadLength || following(
            action,
            event,
        ) == DotActionView::Fail(m@),
        following(action, event) is Fail ==> event is Error || event is EndOfStream,
        following(action, event) is Write <==> event is Answer,
{
}

/// What is done on a connection is seen as it is.
pub proof fn law_actions_are_seen_as_they_are(n: usize, b: Vec<u8>)
    ensures
        DotAction::ReadLength@ is ReadLength,
        DotAction::ReadMessage(n)@ == DotActionView::ReadMessage(n as nat),
        DotAction::Forward(b)@ == DotActionView::Forward(b@),
        DotAction::Write(b)@ == DotActionView::Write(b@),
        DotAction::Close@ is Close,
{
}

} // verus!
