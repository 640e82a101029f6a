//! The commands of the program and what they print.

use crate::config::merger::{merge_with_example, merged_text};
use crate::config::schema::{control_socket_path, DnsFilterConfig};
use crate::privileges::{default_chroot_dir, setting};
use crate::text::{
    decimal, join, joined, lemma_occurs_in_longer, lemma_pair_occurs, number, occurs_in, opt_str, same,
    texts,
};
use vstd::prelude::*;

verus! {

/// The path of the configuration where none is given.
pub fn default_config_path() -> (r: &'static str)
    ensures
        r@ == "/etc/dns-filter/config.yaml"@,
{
    "/etc/dns-filter/config.yaml"
}

/// A subcommand, as it stands on the command line.
#[derive(Debug, PartialEq, Eq)]
pub enum Commands {
    Start { config_path: String, debug: bool, direct: bool },
    Stop { config_path: String, socket_path: Option<String>, direct: bool },
    Reload { config_path: String, socket_path: Option<String> },
    Status { config_path: String, socket_path: Option<String> },
    MergeConfig { config_path: String, overwrite: bool },
}

/// What the program is asked to do.
#[derive(Debug, PartialEq, Eq)]
pub enum CliAction {
    Start { config_path: String, debug: bool, direct: bool },
    Stop { config_path: String, socket_path: Option<String>, direct: bool },
    Reload { config_path: String, socket_path: Option<String> },
    Status { config_path: String, socket_path: Option<String> },
    MergeConfig { config_path: String, overwrite: bool },
    Version,
}

/// What the program is asked to do: the version goes before any subcommand.
pub open spec fn action_for(version: bool, command: Option<Commands>) -> Option<CliAction> {
    if version {
        Some(CliAction::Version)
    } else {
        match command {
            Some(Commands::Start { config_path, debug, direct }) => Some(
                CliAction::Start { config_path, debug, direct },
            ),
            Some(Commands::Stop { config_path, socket_path, direct }) => Some(
                CliAction::Stop { config_path, socket_path, direct },
            ),
            Some(Commands::Reload { config_path, socket_path }) => Some(
                CliAction::Reload { config_path, socket_path },
            ),
            Some(Commands::Status { config_path, socket_path }) => Some(
                CliAction::Status { config_path, socket_path },
            ),
            Some(Commands::MergeConfig { config_path, overwrite }) => Some(
                CliAction::MergeConfig { config_path, overwrite },
            ),
            None => None,
        }
    }
}

/// What the program is asked to do, given what stands on the command line.
pub fn select_action(version: bool, command: Option<Commands>) -> (r: Result<CliAction, &'static str>)
    ensures
        match (action_for(version, command), r) {
            (Some(a), Ok(b)) => a == b,
            (None, Err(m)) => m@
                == "no subcommand provided. Usage: dns-filter <start|stop|reload|status|merge-config> [OPTIONS]"@,
            _ => false,
        },
{
    if version {
        return Ok(CliAction::Version);
    }
    match command {
        Some(Commands::Start { config_path, debug, direct }) => Ok(
            CliAction::Start { config_path, debug, direct },
        ),
        Some(Commands::Stop { config_path, socket_path, direct }) => Ok(
            CliAction::Stop { config_path, socket_path, direct },
        ),
        Some(Commands::Reload { config_path, socket_path }) => Ok(
            CliAction::Reload { config_path, socket_path },
        ),
        Some(Commands::Status { config_path, socket_path }) => Ok(
            CliAction::Status { config_path, socket_path },
        ),
        Some(Commands::MergeConfig { config_path, overwrite }) => Ok(
            CliAction::MergeConfig { config_path, overwrite },
        ),
        None => Err(
            "no subcommand provided. Usage: dns-filter <start|stop|reload|status|merge-config> [OPTIONS]",
        ),
    }
}

// ---- where the control socket is ----

/// Where the path of the control socket comes from.
#[derive(Debug)]
pub enum SocketSource {
    /// It was given, and is taken as it is.
    Given(String),
    /// It is configured, and is looked for under the root directory of the daemon.
    Configured { path: String, chroot_dir: String },
    /// The configuration could not be read: the default is looked for under the default
    /// root directory. The text is what a user is told.
    Default { path: String, chroot_dir: String, notice: String },
}

/// A `SocketSource` with its texts.
pub enum SocketSourceView {
    Given(Seq<char>),
    Configured { path: Seq<char>, chroot_dir: Seq<char> },
    Default { path: Seq<char>, chroot_dir: Seq<char>, notice: Seq<char> },
}

impl View for SocketSource {
    type V = SocketSourceView;

    open spec fn view(&self) -> SocketSourceView {
        match self {
            SocketSource::Given(p) => SocketSourceView::Given(p@),
            SocketSource::Configured { path, chroot_dir } => SocketSourceView::Configured {
                path: path@,
                chroot_dir: chroot_dir@,
            },
            SocketSource::Default { path, chroot_dir, notice } => SocketSourceView::Default {
                path: path@,
                chroot_dir: chroot_dir@,
                notice: notice@,
            },
        }
    }
}

/// The root directory of the daemon that a configuration names.
pub open spec fn chroot_dir_of(config: DnsFilterConfig) -> Seq<char> {
    match config.security {
        Some(s) => setting(s.chroot_dir, "/var/lib/dns-filter"@),
        None => "/var/lib/dns-filter"@,
    }
}

/// Where the path of the control socket comes from: what was given goes before what is
/// configured, and that before the default.
pub open spec fn socket_source(
    given: Option<Seq<char>>,
    config: Result<&DnsFilterConfig, String>,
) -> SocketSourceView {
    match (given, config) {
        (Some(p), _) => SocketSourceView::Given(p),
        (None, Ok(c)) => SocketSourceView::Configured {
            path: control_socket_path(c.control),
            chroot_dir: chroot_dir_of(*c),
        },
        (None, Err(e)) => SocketSourceView::Default {
            path: "/run/dns-filter/dns-filter.sock"@,
            chroot_dir: "/var/lib/dns-filter"@,
            notice: "failed to load config: "@ + e@ + "\nusing default control socket path"@,
        },
    }
}

/// Where the path of the control socket comes from: what was given goes before what is
/// configured, and that before the default.
pub fn control_socket_source(
    socket_override: Option<&str>,
    config: Result<&DnsFilterConfig, String>,
) -> (r: SocketSource)
    ensures
        r@ == socket_source(opt_str(socket_override), config),
        r@ == match (opt_str(socket_override), config) {
            (Some(p), _) => SocketSourceView::Given(p),
            (None, Ok(c)) => SocketSourceView::Configured {
                path: control_socket_path(c.control),
                chroot_dir: chroot_dir_of(*c),
            },
            (None, Err(e)) => SocketSourceView::Default {
                path: "/run/dns-filter/dns-filter.sock"@,
                chroot_dir: "/var/lib/dns-filter"@,
                notice: "failed to load config: "@ + e@ + "\nusing default control socket path"@,
            },
        },
{
    match socket_override {
        Some(p) => SocketSource::Given(p.to_owned()),
        None => match config {
            Ok(c) => {
                let chroot_dir = match &c.security {
                    Some(s) => match &s.chroot_dir {
                        Some(d) => d.clone(),
                        None => default_chroot_dir().to_owned(),
                    },
                    None => default_chroot_dir().to_owned(),
                };
                SocketSource::Configured { path: c.socket_path().to_owned(), chroot_dir }
            },
            Err(e) => {
                let mut notice = "failed to load config: ".to_owned();
                notice.push_str(e.as_str());
                notice.push_str("\nusing default control socket path");
                SocketSource::Default {
                    path: "/run/dns-filter/dns-filter.sock".to_owned(),
                    chroot_dir: default_chroot_dir().to_owned(),
                    notice,
                }
            },
        },
    }
}

/// The path of the control socket, given what looking for it came to.
pub open spec fn socket_at(
    source: SocketSourceView,
    resolved: Result<Seq<char>, Seq<char>>,
) -> Result<Seq<char>, Seq<char>> {
    match source {
        SocketSourceView::Given(p) => Ok(p),
        SocketSourceView::Configured { .. } => match resolved {
            Ok(p) => Ok(p),
            Err(e) => Err("invalid control socket path in config: "@ + e),
        },
        SocketSourceView::Default { path, .. } => match resolved {
            Ok(p) => Ok(p),
            Err(_) => Ok(path),
        },
    }
}

/// A result with its texts.
pub open spec fn texts_of_result(r: Result<String, String>) -> Result<Seq<char>, Seq<char>> {
    match r {
        Ok(t) => Ok(t@),
        Err(m) => Err(m@),
    }
}

/// A path on the command line goes before all others. Only a configured path that leads nowhere
/// is an error; the default stands in for itself.
pub proof fn law_given_socket_goes_first(
    source: SocketSourceView,
    resolved: Result<Seq<char>, Seq<char>>,
)
    ensures
        source matches SocketSourceView::Given(p) ==> socket_at(source, resolved) == Ok::<
            Seq<char>,
            Seq<char>,
        >(p),
        !(source is Given) && resolved is Ok ==> socket_at(source, resolved) == resolved,
        socket_at(source, resolved) is Err <==> source is Configured && resolved is Err,
        socket_at(source, resolved) matches Err(m) ==> (resolved matches Err(e) && m
            == "invalid control socket path in config: "@ + e),
        source matches SocketSourceView::Default { path, .. } ==> (resolved is Err ==> socket_at(
            source,
            resolved,
        ) == Ok::<Seq<char>, Seq<char>>(path)),
{
}

/// The path of the control socket, given what looking for it came to; the text of the
/// error is what a user is told.
pub fn resolve_control_socket_path(source: SocketSource, resolved: Result<String, String>) -> (r: Result<
    String,
    String,
>)
    ensures
        texts_of_result(r) == socket_at(source@, texts_of_result(resolved)),
        match (source@, resolved, r) {
            (SocketSourceView::Given(p), _, Ok(path)) => path@ == p,
            (SocketSourceView::Configured { .. }, Ok(p), Ok(path)) => path@ == p@,
            (SocketSourceView::Configured { .. }, Err(e), Err(m)) => m@
                == "invalid control socket path in config: "@ + e@,
            (SocketSourceView::Default { .. }, Ok(p), Ok(path)) => path@ == p@,
            (SocketSourceView::Default { path: d, .. }, Err(_), Ok(path)) => path@ == d,
            _ => false,
        },
{
    match source {
        SocketSource::Given(p) => Ok(p),
        SocketSource::Configured { .. } => match resolved {
            Ok(p) => Ok(p),
            Err(e) => {
                let mut m = "invalid control socket path in config: ".to_owned();
                m.push_str(e.as_str());
                Err(m)
            },
        },
        SocketSource::Default { path, .. } => match resolved {
            Ok(p) => Ok(p),
            Err(_) => Ok(path),
        },
    }
}

// ---- what commands print ----

/// What a command came to: what it prints, and the code with which the program ends.
#[derive(Debug)]
pub struct Report {
    pub out: String,
    pub err: String,
    pub exit_code: i32,
}

/// A `Report` with its texts.
pub struct ReportView {
    pub out: Seq<char>,
    pub err: Seq<char>,
    pub exit_code: i32,
}

impl View for Report {
    type V = ReportView;

    open spec fn view(&self) -> ReportView {
        ReportView { out: self.out@, err: self.err@, exit_code: self.exit_code }
    }
}

/// A command that succeeded.
pub open spec fn succeeded(out: Seq<char>) -> ReportView {
    ReportView { out, err: ""@, exit_code: 0 }
}

/// A command that failed.
pub open spec fn failed(err: Seq<char>) -> ReportView {
    ReportView { out: ""@, err, exit_code: 1 }
}

fn success(out: String) -> (r: Report)
    ensures
        r@ == succeeded(out@),
{
    Report { out, err: "".to_owned(), exit_code: 0 }
}

fn failure(err: String) -> (r: Report)
    ensures
        r@ == failed(err@),
{
    Report { out: "".to_owned(), err, exit_code: 1 }
}

/// The reply of a daemon to a command.
#[derive(Debug)]
pub struct ControlResponse {
    pub status: String,
    pub message: Option<String>,
    /// What came with the reply, or why it could not be read.
    pub data: Option<Result<StatusPayload, String>>,
}

/// What a daemon tells about itself.
#[derive(Debug)]
pub struct StatusPayload {
    pub uptime_seconds: u64,
    pub filtering_enabled: bool,
    pub queries_total: u64,
    pub queries_blocked: u64,
    pub queries_allowed: u64,
    pub queries_passthrough: u64,
    /// The names of the filter lists.
    pub lists: Vec<String>,
}

/// What a daemon says is wrong.
pub open spec fn refusal_text(message: Option<String>) -> Seq<char> {
    "daemon returned error: "@ + (match message {
        Some(m) => m@,
        None => ""@,
    })
}

fn show_refusal(message: Option<String>) -> (r: String)
    ensures
        r@ == refusal_text(message),
{
    let mut m = "daemon returned error: ".to_owned();
    match message {
        Some(text) => m.push_str(text.as_str()),
        None => m.push_str(""),
    }
    m
}

/// A command that the daemon refused.
pub open spec fn refused(message: Option<String>) -> ReportView {
    failed(refusal_text(message) + "\n"@)
}

fn refusal(message: Option<String>) -> (r: Report)
    ensures
        r@ == refused(message),
{
    let mut m = show_refusal(message);
    m.push_str("\n");
    failure(m)
}

/// Whether a result is what came of a command that the daemon replied to.
pub open spec fn accepts(response: ControlResponse, r: Result<ControlResponse, String>) -> bool {
    if response.status@ == "ok"@ {
        r == Ok::<ControlResponse, String>(response)
    } else {
        r matches Err(e) && e@ == refusal_text(response.message)
    }
}

/// What came of a command that the daemon replied to: its reply, or a descriptive error
/// where the reply has the status of one.
pub fn accept_response(response: ControlResponse) -> (r: Result<ControlResponse, String>)
    ensures
        accepts(response, r),
        if response.status@ == "ok"@ {
            r == Ok::<ControlResponse, String>(response)
        } else {
            r matches Err(e) && e@ == refusal_text(response.message)
        },
{
    if same(response.status.as_str(), "ok") {
        Ok(response)
    } else {
        Err(show_refusal(response.message))
    }
}

/// What a command that was sent to the daemon came to.
pub open spec fn control_report(command: Seq<char>, response: Result<ControlResponse, String>) -> ReportView {
    match response {
        Err(e) => failed(e@ + "\n"@),
        Ok(r) => if r.status@ == "ok"@ {
            match r.message {
                Some(m) => succeeded(m@ + "\n"@),
                None => succeeded(command + " command sent successfully"@ + "\n"@),
            }
        } else {
            refused(r.message)
        },
    }
}

/// What a command that was sent to the daemon came to.
pub fn run_control_command(command: &str, response: Result<ControlResponse, String>) -> (r: Report)
    ensures
        r@ == control_report(command@, response),
{
    match response {
        Err(e) => {
            let mut m = e;
            m.push_str("\n");
            failure(m)
        },
        Ok(r) => if same(r.status.as_str(), "ok") {
            match r.message {
                Some(text) => {
                    let mut m = text;
                    m.push_str("\n");
                    success(m)
                },
                None => {
                    let mut m = command.to_owned();
                    m.push_str(" command sent successfully");
                    m.push_str("\n");
                    success(m)
                },
            }
        } else {
            refusal(r.message)
        },
    }
}

/// The text of a truth value.
pub open spec fn shown_bool(b: bool) -> Seq<char> {
    if b {
        "true"@
    } else {
        "false"@
    }
}

/// What a user reads about a daemon.
pub open spec fn status_text(p: StatusPayload) -> Seq<char> {
    "Daemon status: healthy\n"@ + "Uptime (s): "@ + decimal(p.uptime_seconds as nat)
        + "\nFiltering enabled: "@ + shown_bool(p.filtering_enabled) + "\nQueries total: "@ + decimal(
        p.queries_total as nat,
    ) + "\nQueries blocked: "@ + decimal(p.queries_blocked as nat) + "\nQueries allowed: "@ + decimal(
        p.queries_allowed as nat,
    ) + "\nQueries passthrough: "@ + decimal(p.queries_passthrough as nat) + "\nFilter lists: "@
        + decimal(p.lists@.len()) + "\nList names: "@ + (if p.lists@.len() == 0 {
        "(none)"@
    } else {
        joined(texts(p.lists@), ", "@)
    }) + "\n"@
}

fn show_status(p: &StatusPayload) -> (r: String)
    ensures
        r@ == status_text(*p),
{
    let mut m = "Daemon status: healthy\n".to_owned();
    m.push_str("Uptime (s): ");
    m.push_str(number(p.uptime_seconds).as_str());
    m.push_str("\nFiltering enabled: ");
    if p.filtering_enabled {
        m.push_str("true");
    } else {
        m.push_str("false");
    }
    m.push_str("\nQueries total: ");
    m.push_str(number(p.queries_total).as_str());
    m.push_str("\nQueries blocked: ");
    m.push_str(number(p.queries_blocked).as_str());
    m.push_str("\nQueries allowed: ");
    m.push_str(number(p.queries_allowed).as_str());
    m.push_str("\nQueries passthrough: ");
    m.push_str(number(p.queries_passthrough).as_str());
    m.push_str("\nFilter lists: ");
    m.push_str(number(p.lists.len() as u64).as_str());
    m.push_str("\nList names: ");
    if p.lists.len() == 0 {
        m.push_str("(none)");
    } else {
        m.push_str(join(&p.lists, ", ").as_str());
    }
    m.push_str("\n");
    m
}

/// What the command that asks for the status came to.
pub open spec fn status_report(response: Result<ControlResponse, String>) -> ReportView {
    match response {
        Err(e) => failed(e@ + "\n"@),
        Ok(r) => if r.status@ != "ok"@ {
            refused(r.message)
        } else {
            match r.data {
                None => failed("daemon did not return status data\n"@),
                Some(Err(e)) => failed("failed to decode status payload: "@ + e@ + "\n"@),
                Some(Ok(p)) => succeeded(status_text(p)),
            }
        },
    }
}

/// What the command that asks for the status came to.
pub fn run_status_command(response: Result<ControlResponse, String>) -> (r: Report)
    ensures
        r@ == status_report(response),
{
    match response {
        Err(e) => {
            let mut m = e;
            m.push_str("\n");
            failure(m)
        },
        Ok(r) => if !same(r.status.as_str(), "ok") {
            refusal(r.message)
        } else {
            match r.data {
                None => failure("daemon did not return status data\n".to_owned()),
                Some(Err(e)) => {
                    let mut m = "failed to decode status payload: ".to_owned();
                    m.push_str(e.as_str());
                    m.push_str("\n");
                    failure(m)
                },
                Some(Ok(p)) => success(show_status(&p)),
            }
        },
    }
}

/// A command succeeds exactly where the daemon says that all is well; the status also
/// needs the data that comes with it.
pub proof fn law_exit_code_says_what_came(command: Seq<char>, response: Result<ControlResponse, String>)
    ensures
        control_report(command, response).exit_code == 0 <==> (response matches Ok(r) && r.status@
            == "ok"@),
        status_report(response).exit_code == 0 <==> (response matches Ok(r) && r.status@ == "ok"@
            && r.data matches Some(Ok(_))),
{
}

// ---- merging configurations ----

/// What is done with a merged configuration.
#[derive(Debug)]
pub enum MergeStep {
    /// It is printed.
    Print(String),
    /// It takes the place of the file.
    Overwrite(String),
    /// The merge failed.
    Fail(Report),
}

/// Whether a step is what is done with a merged configuration, or with the text of the
/// failure.
pub open spec fn is_merge_step(
    overwrite: bool,
    merged: Result<Seq<char>, Seq<char>>,
    step: MergeStep,
) -> bool {
    match merged {
        Err(e) => step matches MergeStep::Fail(f) && f@ == failed(e),
        Ok(m) => if overwrite {
            step matches MergeStep::Overwrite(t) && t@ == m
        } else {
            step matches MergeStep::Print(t) && t@ == m
        },
    }
}

/// The merged configuration of a user, or what is said where there is none.
pub open spec fn merge_outcome(
    config_path: Seq<char>,
    example: Seq<char>,
    user_config: Result<String, String>,
) -> Result<Seq<char>, Seq<char>> {
    match user_config {
        Err(e) => Err("failed to read config file "@ + config_path + ": "@ + e@ + "\n"@),
        Ok(user) => match merged_text(example, user@) {
            Err((context, _)) => Err("failed to merge config: "@ + context + "\n"@),
            Ok(m) => Ok(m),
        },
    }
}

/// Merges the configuration of a user with the defaults of an example, and says what is
/// done with the result.
pub fn run_merge_config(
    config_path: &str,
    overwrite: bool,
    example: &str,
    user_config: Result<String, String>,
) -> (r: MergeStep)
    ensures
        is_merge_step(overwrite, merge_outcome(config_path@, example@, user_config), r),
        match user_config {
            Err(e) => r matches MergeStep::Fail(f) && f@ == failed(
                "failed to read config file "@ + config_path@ + ": "@ + e@ + "\n"@,
            ),
            Ok(user) => match merged_text(example@, user@) {
                Err((context, _)) => r matches MergeStep::Fail(f) && f@ == failed(
                    "failed to merge config: "@ + context + "\n"@,
                ),
                Ok(m) => if overwrite {
                    r matches MergeStep::Overwrite(t) && t@ == m
                } else {
                    r matches MergeStep::Print(t) && t@ == m
                },
            },
        },
{
    let user = match user_config {
        Ok(u) => u,
        Err(e) => {
            let mut m = "failed to read config file ".to_owned();
            m.push_str(config_path);
            m.push_str(": ");
            m.push_str(e.as_str());
            m.push_str("\n");
            return MergeStep::Fail(failure(m));
        },
    };
    match merge_with_example(example, user.as_str()) {
        Err(e) => {
            let mut m = "failed to merge config: ".to_owned();
            m.push_str(e.context);
            m.push_str("\n");
            MergeStep::Fail(failure(m))
        },
        Ok(text) => if overwrite {
            MergeStep::Overwrite(text)
        } else {
            MergeStep::Print(text)
        },
    }
}

/// What the user is told after the file was written, or was not.
pub fn overwritten(config_path: &str, written: Result<(), String>) -> (r: Report)
    ensures
        match written {
            Ok(_) => r@ == (ReportView {
                out: ""@,
                err: "merged config written to "@ + config_path@ + "\n"@,
                exit_code: 0,
            }),
            Err(e) => r@ == failed(
                "failed to write merged config to "@ + config_path@ + ": "@ + e@ + "\n"@,
            ),
        },
{
    match written {
        Ok(_) => {
            let mut m = "merged config written to ".to_owned();
            m.push_str(config_path);
            m.push_str("\n");
            Report { out: "".to_owned(), err: m, exit_code: 0 }
        },
        Err(e) => {
            let mut m = "failed to write merged config to ".to_owned();
            m.push_str(config_path);
            m.push_str(": ");
            m.push_str(e.as_str());
            m.push_str("\n");
            failure(m)
        },
    }
}

/// The program does what stands on the command line, with what stands there: the version
/// goes before every subcommand, and without either there is nothing to do.
pub proof fn law_command_line_is_followed(version: bool, command: Option<Commands>)
    ensures
        version <==> action_for(version, command) == Some(CliAction::Version),
        action_for(version, command) is None <==> !version && command is None,
        !version ==> match (command, action_for(version, command)) {
            (
                Some(Commands::Start { config_path, debug, direct }),
                Some(CliAction::Start { config_path: c, debug: d, direct: x }),
            ) => c == config_path && d == debug && x == direct,
            (
                Some(Commands::Stop { config_path, socket_path, direct }),
                Some(CliAction::Stop { config_path: c, socket_path: s, direct: x }),
            ) => c == config_path && s == socket_path && x == direct,
            (
                Some(Commands::Reload { config_path, socket_path }),
                Some(CliAction::Reload { config_path: c, socket_path: s }),
            ) => c == config_path && s == socket_path,
            (
                Some(Commands::Status { config_path, socket_path }),
                Some(CliAction::Status { config_path: c, socket_path: s }),
            ) => c == config_path && s == socket_path,
            (
                Some(Commands::MergeConfig { config_path, overwrite }),
                Some(CliAction::MergeConfig { config_path: c, overwrite: o }),
            ) => c == config_path && o == overwrite,
            (None, None) => true,
            _ => false,
        },
{
}

/// A path that was given is used, whatever is configured; the default is used only where
/// the configuration cannot be read, and the user is told why.
pub proof fn law_given_sockets_go_first(given: Option<Seq<char>>, config: Result<&DnsFilterConfig, String>)
    ensures
        given matches Some(p) ==> socket_source(given, config) == SocketSourceView::Given(p),
        given is None ==> (socket_source(given, config) is Configured <==> config is Ok),
        given is None ==> match (config, socket_source(given, config)) {
            (Ok(c), SocketSourceView::Configured { path, chroot_dir }) => path
                == control_socket_path(c.control) && chroot_dir == match c.security {
                Some(s) => match s.chroot_dir {
                    Some(d) => d@,
                    None => "/var/lib/dns-filter"@,
                },
                None => "/var/lib/dns-filter"@,
            },
            (Err(e), SocketSourceView::Default { path, chroot_dir, notice }) => path
                == "/run/dns-filter/dns-filter.sock"@ && chroot_dir == "/var/lib/dns-filter"@
                && ("failed to load config: "@ + e@).is_prefix_of(notice),
            _ => false,
        },
{
    if let Err(e) = config {
        let t = "failed to load config: "@ + e@ + "\nusing default control socket path"@;
        let p = "failed to load config: "@ + e@;
        assert(t.subrange(0, p.len() as int) =~= p);
    }
}

/// What the daemon says is passed on: a success goes to the output and a failure to the
/// error output, each with the words of the daemon and a line end.
pub proof fn law_replies_are_passed_on(command: Seq<char>, response: Result<ControlResponse, String>)
    ensures
        ({
            let r = control_report(command, response);
            &&& r.exit_code == 0 || r.exit_code == 1
            &&& r.exit_code == 0 ==> r.err == ""@
            &&& r.exit_code == 1 ==> r.out == ""@
            &&& match response {
                Err(e) => r.err == e@ + "\n"@,
                Ok(x) => match x.message {
                    Some(m) => (x.status@ == "ok"@ ==> r.out == m@ + "\n"@) && (x.status@ != "ok"@
                        ==> (m@ + "\n"@).is_suffix_of(r.err)),
                    None => x.status@ == "ok"@ ==> command.is_prefix_of(r.out),
                },
            }
        }),
        status_report(response).exit_code == 0 ==> status_report(response).err == ""@,
        status_report(response).exit_code != 0 ==> status_report(response).out == ""@
            && status_report(response).exit_code == 1,
{
    if let Ok(x) = response {
        match x.message {
            Some(m) => {
                let t = m@ + "\n"@;
                let e = "daemon returned error: "@ + m@ + "\n"@;
                assert(e.subrange(e.len() - t.len(), e.len() as int) =~= t);
            },
            None => {
                let o = command + " command sent successfully"@ + "\n"@;
                assert(o.subrange(0, command.len() as int) =~= command);
            },
        }
    }
}

/// A reply is accepted exactly where the daemon says that all is well, and then unchanged.
pub proof fn law_only_good_replies_are_accepted(
    response: ControlResponse,
    r: Result<ControlResponse, String>,
)
    requires
        accepts(response, r),
    ensures
        r is Ok <==> response.status@ == "ok"@,
        r matches Ok(x) ==> x == response,
        r matches Err(e) ==> (response.message matches Some(m) ==> e@ == "daemon returned error: "@
            + m@),
{
}

/// The file of the user is overwritten exactly where that was asked for and the merge
/// succeeded; what is printed and what is written is the same.
pub proof fn law_files_are_overwritten_on_demand(
    overwrite: bool,
    merged: Result<Seq<char>, Seq<char>>,
    step: MergeStep,
)
    requires
        is_merge_step(overwrite, merged, step),
    ensures
        step is Overwrite <==> overwrite && merged is Ok,
        step is Print <==> !overwrite && merged is Ok,
        step is Fail <==> merged is Err,
        step matches MergeStep::Overwrite(t) ==> merged == Ok::<Seq<char>, Seq<char>>(t@),
        step matches MergeStep::Print(t) ==> merged == Ok::<Seq<char>, Seq<char>>(t@),
        step matches MergeStep::Fail(f) ==> f@.exit_code == 1 && f@.out == ""@,
{
}

/// The status shows every number behind its name, and the names of all lists.
pub proof fn law_status_shows_every_number(p: StatusPayload)
    ensures
        occurs_in("Uptime (s): "@ + decimal(p.uptime_seconds as nat), status_text(p)),
        p.filtering_enabled ==> occurs_in("\nFiltering enabled: "@ + "true"@, status_text(p)),
        !p.filtering_enabled ==> occurs_in("\nFiltering enabled: "@ + "false"@, status_text(p)),
        occurs_in("\nQueries total: "@ + decimal(p.queries_total as nat), status_text(p)),
        occurs_in("\nQueries blocked: "@ + decimal(p.queries_blocked as nat), status_text(p)),
        occurs_in("\nQueries allowed: "@ + decimal(p.queries_allowed as nat), status_text(p)),
        occurs_in("\nQueries passthrough: "@ + decimal(p.queries_passthrough as nat), status_text(p)),
        occurs_in("\nFilter lists: "@ + decimal(p.lists@.len()), status_text(p)),
        p.lists@.len() == 0 ==> occurs_in("\nList names: "@ + "(none)"@, status_text(p)),
        p.lists@.len() > 0 ==> occurs_in(
            "\nList names: "@ + joined(texts(p.lists@), ", "@),
            status_text(p),
        ),
{
    let filtering = if p.filtering_enabled {
        "true"@
    } else {
        "false"@
    };
    let names = if p.lists@.len() == 0 {
        "(none)"@
    } else {
        joined(texts(p.lists@), ", "@)
    };
    let t1 = "Daemon status: healthy\n"@ + "Uptime (s): "@ + decimal(p.uptime_seconds as nat);
    lemma_pair_occurs("Daemon status: healthy\n"@, "Uptime (s): "@, decimal(p.uptime_seconds as nat));
    let t2 = t1 + "\nFiltering enabled: "@ + filtering;
    lemma_pair_occurs(t1, "\nFiltering enabled: "@, filtering);
    let t3 = t2 + "\nQueries total: "@ + decimal(p.queries_total as nat);
    lemma_pair_occurs(t2, "\nQueries total: "@, decimal(p.queries_total as nat));
    let t4 = t3 + "\nQueries blocked: "@ + decimal(p.queries_blocked as nat);
    lemma_pair_occurs(t3, "\nQueries blocked: "@, decimal(p.queries_blocked as nat));
    let t5 = t4 + "\nQueries allowed: "@ + decimal(p.queries_allowed as nat);
    lemma_pair_occurs(t4, "\nQueries allowed: "@, decimal(p.queries_allowed as nat));
    let t6 = t5 + "\nQueries passthrough: "@ + decimal(p.queries_passthrough as nat);
    lemma_pair_occurs(t5, "\nQueries passthrough: "@, decimal(p.queries_passthrough as nat));
    let t7 = t6 + "\nFilter lists: "@ + decimal(p.lists@.len());
    lemma_pair_occurs(t6, "\nFilter lists: "@, decimal(p.lists@.len()));
    let t8 = t7 + "\nList names: "@ + names;
    lemma_pair_occurs(t7, "\nList names: "@, names);
    lemma_occurs_in_longer(t8, "\n"@);
    assert(status_text(p) == t8 + "\n"@);
}

/// The status is shown where the daemon sends it; a reply without one, and one that cannot be
/// read, are failures that tell so.
pub proof fn law_status_is_shown(r: ControlResponse, e: String)
    ensures
        status_report(Err(e)) == failed(e@ + "\n"@),
        r.status@ != "ok"@ ==> status_report(Ok(r)) == refused(r.message),
        r.status@ == "ok"@ && r.data is None ==> status_report(Ok(r)) == failed(
            "daemon did not return status data\n"@,
        ),
        r.status@ == "ok"@ ==> (r.data matches Some(Ok(p)) ==> status_report(Ok(r)) == succeeded(
            status_text(p),
        )),
        r.status@ == "ok"@ ==> (r.data matches Some(Err(m)) ==> status_report(Ok(r)) == failed(
            "failed to decode status payload: "@ + m@ + "\n"@,
        )),
{
}

} // verus!
