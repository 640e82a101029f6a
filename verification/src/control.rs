//! The control socket, over which a running daemon takes commands.

use crate::database::sqlite::{parent_path, path_parent};
use crate::text::{opt_text, same};
use vstd::prelude::*;

verus! {

/// The largest message that is taken, in bytes.
pub const MAX_MESSAGE_BYTES: usize = 1024;

/// How long a connection may take, in seconds.
pub const CONNECTION_TIMEOUT_SECS: u64 = 5;

/// The permissions of the socket: for the owner and the group alone.
pub const SOCKET_MODE: u32 = 0o660;

// ---- binding ----

/// What is done before the socket is bound.
#[derive(Debug)]
pub enum BindPlan {
    /// Nothing.
    Bind,
    /// A socket that nobody listens on is removed.
    RemoveStale,
    /// It is not bound: another daemon listens on it. The text says so.
    AlreadyRunning(String),
}

/// The directory that is made for the socket at a path.
pub fn socket_directory(path: &str) -> (r: Option<String>)
    ensures
        opt_text(r) == parent_path(path@),
{
    path_parent(path)
}

/// Whether a plan is what is done before the socket is bound.
pub open spec fn is_planned(path: Seq<char>, exists: bool, alive: bool, plan: BindPlan) -> bool {
    &&& !exists ==> plan is Bind
    &&& exists && !alive ==> plan is RemoveStale
    &&& exists && alive ==> (plan matches BindPlan::AlreadyRunning(m) && m@
        == "another dns-filter daemon is already running (control socket "@ + path
        + " is alive)"@)
}

/// A socket on which a daemon listens is never taken from it, one that nobody listens on is
/// removed, and nothing is removed where there is nothing.
pub proof fn law_live_sockets_are_left_alone(path: Seq<char>, exists: bool, alive: bool, plan: BindPlan)
    requires
        is_planned(path, exists, alive, plan),
    ensures
        plan is AlreadyRunning <==> exists && alive,
        plan matches BindPlan::AlreadyRunning(m) ==> m@
            == "another dns-filter daemon is already running (control socket "@ + path
            + " is alive)"@,
        plan is RemoveStale <==> exists && !alive,
        plan is Bind <==> !exists,
{
}

/// What is done before the socket is bound, given whether there is something at the path
/// and whether somebody listens on it.
pub fn plan_bind(path: &str, exists: bool, alive: bool) -> (r: BindPlan)
    ensures
        is_planned(path@, exists, alive, r),
        !exists ==> r is Bind,
        exists && !alive ==> r is RemoveStale,
        exists && alive ==> (r matches BindPlan::AlreadyRunning(m) && m@
            == "another dns-filter daemon is already running (control socket "@ + path@
            + " is alive)"@),
{
    if !exists {
        BindPlan::Bind
    } else if alive {
        let mut m = "another dns-filter daemon is already running (control socket ".to_owned();
        m.push_str(path);
        m.push_str(" is alive)");
        BindPlan::AlreadyRunning(m)
    } else {
        BindPlan::RemoveStale
    }
}

// ---- commands ----

/// What is done with a message of a certain length.
#[derive(Clone, Copy, Debug, PartialEq, Eq, Structural)]
pub enum Reading {
    /// Nothing: the peer closed the connection.
    Closed,
    /// It is refused.
    TooLarge,
    /// Its command is carried out.
    Message,
}

/// What is done with a message of a certain length.
pub open spec fn reading(bytes_read: usize) -> Reading {
    if bytes_read == 0 {
        Reading::Closed
    } else if bytes_read > MAX_MESSAGE_BYTES {
        Reading::TooLarge
    } else {
        Reading::Message
    }
}

/// Messages of 1 to 1024 bytes are read; longer ones are refused, and nothing at all means
/// that the other side has left.
pub proof fn law_messages_are_bounded(bytes_read: usize)
    ensures
        reading(bytes_read) is Message <==> 1 <= bytes_read <= 1024,
        reading(bytes_read) is TooLarge <==> bytes_read > 1024,
        reading(bytes_read) is Closed <==> bytes_read == 0,
{
}

/// What is done with a message of a certain length.
pub fn classify(bytes_read: usize) -> (r: Reading)
    ensures
        r == reading(bytes_read),
        r == if bytes_read == 0 {
            Reading::Closed
        } else if bytes_read > MAX_MESSAGE_BYTES {
            Reading::TooLarge
        } else {
            Reading::Message
        },
{
    if bytes_read == 0 {
        Reading::Closed
    } else if bytes_read > MAX_MESSAGE_BYTES {
        Reading::TooLarge
    } else {
        Reading::Message
    }
}

/// What a command asks for.
#[derive(Clone, Copy, Debug, PartialEq, Eq, Structural)]
pub enum ControlCommand {
    Reload,
    Stop,
    Status,
    Unknown,
}

/// What a command asks for; the status can be had only where it is provided.
pub open spec fn command_named(command: Seq<char>, has_status: bool) -> ControlCommand {
    if command == "reload"@ {
        ControlCommand::Reload
    } else if command == "stop"@ {
        ControlCommand::Stop
    } else if command == "status"@ && has_status {
        ControlCommand::Status
    } else {
        ControlCommand::Unknown
    }
}

/// What a command asks for.
pub fn dispatch(command: &str, has_status: bool) -> (r: ControlCommand)
    ensures
        r == command_named(command@, has_status),
{
    if same(command, "reload") {
        ControlCommand::Reload
    } else if same(command, "stop") {
        ControlCommand::Stop
    } else if has_status && same(command, "status") {
        ControlCommand::Status
    } else {
        ControlCommand::Unknown
    }
}

/// The reply to a message.
#[derive(Debug)]
pub struct ControlReply {
    pub status: &'static str,
    pub message: Option<String>,
    /// Whether the status of the daemon goes with the reply.
    pub with_status: bool,
}

/// A `ControlReply` with its texts.
pub struct ControlReplyView {
    pub status: Seq<char>,
    pub message: Option<Seq<char>>,
    pub with_status: bool,
}

impl View for ControlReply {
    type V = ControlReplyView;

    open spec fn view(&self) -> ControlReplyView {
        ControlReplyView {
            status: self.status@,
            message: opt_text(self.message),
            with_status: self.with_status,
        }
    }
}

/// A reply that says that all is well.
pub open spec fn ok_reply(message: Seq<char>) -> ControlReplyView {
    ControlReplyView { status: "ok"@, message: Some(message), with_status: false }
}

/// A reply that says that something is wrong.
pub open spec fn error_reply(message: Seq<char>) -> ControlReplyView {
    ControlReplyView { status: "error"@, message: Some(message), with_status: false }
}

fn ok_with_message(message: &str) -> (r: ControlReply)
    ensures
        r@ == ok_reply(message@),
{
    ControlReply { status: "ok", message: Some(message.to_owned()), with_status: false }
}

fn error(message: &str) -> (r: ControlReply)
    ensures
        r@ == error_reply(message@),
{
    ControlReply { status: "error", message: Some(message.to_owned()), with_status: false }
}

/// The reply to a message that is too large.
pub fn too_large() -> (r: ControlReply)
    ensures
        r@ == error_reply("message too large"@),
{
    error("message too large")
}

/// The reply to a command, and whether the daemon stops.
pub open spec fn replied(command: Seq<char>, has_status: bool, reload_accepted: bool) -> (
    ControlReplyView,
    bool,
) {
    match command_named(command, has_status) {
        ControlCommand::Reload => (
            if reload_accepted {
                ok_reply("reload triggered"@)
            } else {
                error_reply("reload channel closed"@)
            },
            false,
        ),
        ControlCommand::Stop => (ok_reply("shutdown initiated"@), true),
        ControlCommand::Status => (
            ControlReplyView { status: "ok"@, message: None, with_status: true },
            false,
        ),
        ControlCommand::Unknown => (error_reply("unknown command: "@ + command), false),
    }
}

/// The reply to a command, and whether the daemon stops. `reload_accepted` says whether
/// the daemon took a request to reload.
pub fn respond(command: &str, has_status: bool, reload_accepted: bool) -> (r: (ControlReply, bool))
    ensures
        (r.0@, r.1) == replied(command@, has_status, reload_accepted),
{
    match dispatch(command, has_status) {
        ControlCommand::Reload => if reload_accepted {
            (ok_with_message("reload triggered"), false)
        } else {
            (error("reload channel closed"), false)
        },
        ControlCommand::Stop => (ok_with_message("shutdown initiated"), true),
        ControlCommand::Status => (
            ControlReply { status: "ok", message: None, with_status: true },
            false,
        ),
        ControlCommand::Unknown => {
            let mut m = "unknown command: ".to_owned();
            m.push_str(command);
            (error(m.as_str()), false)
        },
    }
}

/// The command `stop` stops the daemon, and nothing else does.
pub proof fn law_only_stop_stops(command: Seq<char>, has_status: bool, reload_accepted: bool)
    ensures
        replied(command, has_status, reload_accepted).1 <==> command == "stop"@,
{
    reveal_strlit("reload");
    reveal_strlit("stop");
    reveal_strlit("status");
    assert("stop"@.len() != "reload"@.len());
    assert("stop"@.len() != "status"@.len());
}

// ---- the other end ----

/// The message that carries a command.
pub fn request_line(command: &str) -> (r: String)
    ensures
        r@ == "{\"command\":\""@ + command@ + "\"}\n"@,
{
    let mut m = "{\"command\":\"".to_owned();
    m.push_str(command);
    m.push_str("\"}\n");
    m
}

/// Why no connection came about.
#[derive(Debug)]
pub enum ConnectFailure {
    /// There is no socket.
    NotFound,
    /// Nobody listens on it.
    Refused,
    /// It may not be used.
    Denied,
    /// Another reason.
    Other(String),
}

/// What a user is told where no connection came about.
pub open spec fn connect_message(failure: ConnectFailure, path: Seq<char>) -> Seq<char> {
    match failure {
        ConnectFailure::NotFound => "control socket not found at "@ + path
            + "\nHint: is the dns-filter daemon running? Start it with: dns-filter start"@,
        ConnectFailure::Refused => "connection refused at "@ + path
            + "\nHint: the daemon may have crashed. Check logs and restart."@,
        ConnectFailure::Denied => "permission denied connecting to "@ + path
            + "\nHint: the control socket is restricted. Try running as root or the daemon's user/group."@,
        ConnectFailure::Other(e) => "failed to connect to control socket "@ + path + ": "@ + e@,
    }
}

/// What a user is told where no connection came about.
pub fn connect_error(failure: &ConnectFailure, path: &str) -> (r: String)
    ensures
        r@ == connect_message(*failure, path@),
{
    match failure {
        ConnectFailure::NotFound => {
            let mut m = "control socket not found at ".to_owned();
            m.push_str(path);
            m.push_str(
                "\nHint: is the dns-filter daemon running? Start it with: dns-filter start",
            );
            m
        },
        ConnectFailure::Refused => {
            let mut m = "connection refused at ".to_owned();
            m.push_str(path);
            m.push_str("\nHint: the daemon may have crashed. Check logs and restart.");
            m
        },
        ConnectFailure::Denied => {
            let mut m = "permission denied connecting to ".to_owned();
            m.push_str(path);
            m.push_str(
                "\nHint: the control socket is restricted. Try running as root or the daemon's user/group.",
            );
            m
        },
        ConnectFailure::Other(e) => {
            let mut m = "failed to connect to control socket ".to_owned();
            m.push_str(path);
            m.push_str(": ");
            m.push_str(e.as_str());
            m
        },
    }
}

/// The line of a reply, where one came.
pub fn reply_line(line: String) -> (r: Result<String, &'static str>)
    ensures
        if line@.len() == 0 {
            r matches Err(m) && m@ == "daemon closed connection without responding"@
        } else {
            r matches Ok(l) && l@ == line@
        },
{
    if line.as_str().is_empty() {
        Err("daemon closed connection without responding")
    } else {
        Ok(line)
    }
}

/// Every command has its reply: a reload is confirmed exactly where it was taken, a stop
/// always, and the status goes with the reply to `status` alone, where it is provided.
/// Whatever is not understood is an error that names it.
pub proof fn law_commands_are_answered(command: Seq<char>, has_status: bool, accepted: bool)
    ensures
        ({
            let r = replied(command, has_status, accepted).0;
            let known = command == "reload"@ || command == "stop"@ || (command == "status"@
                && has_status);
            &&& r.with_status <==> command == "status"@ && has_status
            &&& r.status == "ok"@ <==> known && (command == "reload"@ ==> accepted)
            &&& r.status == "ok"@ || r.status == "error"@
            &&& !known ==> (r.message matches Some(m) && command.is_suffix_of(m))
        }),
        command_named("reload"@, has_status) == ControlCommand::Reload,
        command_named("stop"@, has_status) == ControlCommand::Stop,
        command_named("status"@, true) == ControlCommand::Status,
        command_named("status"@, false) == ControlCommand::Unknown,
{
    reveal_strlit("reload");
    reveal_strlit("stop");
    reveal_strlit("status");
    reveal_strlit("ok");
    reveal_strlit("error");
    assert("ok"@.len() != "error"@.len());
    assert("stop"@.len() != "reload"@.len());
    assert("stop"@.len() != "status"@.len());
    assert("reload"@[0] != "status"@[0]);
    let m = "unknown command: "@ + command;
    assert(m.subrange(m.len() - command.len(), m.len() as int) =~= command);
}

/// What hinders a connection is told with the path of the socket, each hindrance in words of
/// its own; an error without a name is told as it came.
pub proof fn law_hindrances_are_told_with_the_path(path: Seq<char>, e: String)
    ensures
        ("control socket not found at "@ + path).is_prefix_of(
            connect_message(ConnectFailure::NotFound, path),
        ),
        ("connection refused at "@ + path).is_prefix_of(
            connect_message(ConnectFailure::Refused, path),
        ),
        ("permission denied connecting to "@ + path).is_prefix_of(
            connect_message(ConnectFailure::Denied, path),
        ),
        connect_message(ConnectFailure::Other(e), path) == "failed to connect to control socket "@
            + path + ": "@ + e@,
{
    let a = "control socket not found at "@ + path;
    assert(connect_message(ConnectFailure::NotFound, path).subrange(0, a.len() as int) =~= a);
    let b = "connection refused at "@ + path;
    assert(connect_message(ConnectFailure::Refused, path).subrange(0, b.len() as int) =~= b);
    let c = "permission denied connecting to "@ + path;
    assert(connect_message(ConnectFailure::Denied, path).subrange(0, c.len() as int) =~= c);
}

} // verus!
