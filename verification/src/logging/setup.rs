//! What a configuration says about where messages go.

use crate::config::schema::{LoggingConfig, SyslogConfig};
use crate::logging::syslog::{
    configured_transport, facility_from_str, facility_number, is_rfc5424, level_from_str,
    level_with_name, or_default, unknown_facility, Facility, Level, SyslogTransport,
    SyslogTransportView,
};
use crate::text::{ascii_lower, opt_str, opt_text, same_ignoring_case};
use crate::tls::lowercase;
use vstd::prelude::*;

verus! {

/// The filter for a target: in normal mode the DNS library is heard only about errors,
/// in debug mode like everything else.
pub open spec fn filter_text(level: Level, debug: bool) -> Seq<char> {
    if debug {
        level.shown()
    } else {
        level.shown() + ",hickory_proto=error,hickory_resolver=error"@
    }
}

/// The directives of the filter for a level.
///
/// In normal mode, noisy third-party modules are suppressed to errors. In debug mode all
/// messages pass through.
pub fn build_env_filter(level: Level, debug: bool) -> (r: String)
    ensures
        r@ == filter_text(level, debug),
{
    let mut out = level.name().to_owned();
    if !debug {
        out.push_str(",hickory_proto=error,hickory_resolver=error");
    }
    out
}

/// The level that a text names, or else the one that stands in for it.
pub open spec fn level_or(text: Option<Seq<char>>, default: Level) -> Level {
    match text {
        Some(t) => match level_with_name(lowercase(t)) {
            Some(l) => l,
            None => default,
        },
        None => default,
    }
}

fn parse_level_or(text: &str, default: Level) -> (r: Level)
    ensures
        r == level_or(Some(text@), default),
{
    match level_from_str(text) {
        Some(l) => l,
        None => default,
    }
}

/// How messages go to the system log.
#[derive(Debug)]
pub struct SyslogPlan {
    pub transport: SyslogTransport,
    pub facility: Facility,
    /// Whether they have the format of RFC 5424; they have that of RFC 3164 otherwise.
    pub rfc5424: bool,
}

/// How messages go to the system log.
pub open spec fn syslog_plan(config: SyslogConfig) -> Result<
    (SyslogTransportView, u8, bool),
    Seq<char>,
> {
    let ca_path = match config.tls {
        Some(t) => opt_text(t.ca_cert_path),
        None => None,
    };
    match configured_transport(opt_text(config.transport), opt_text(config.server), ca_path) {
        Err(m) => Err("building syslog transport: "@ + m),
        Ok(t) => match facility_number(config.facility@) {
            None => Err("parsing syslog facility: "@ + unknown_facility(config.facility@)),
            Some(n) => Ok(
                (
                    t,
                    n,
                    same_ignoring_case(or_default(opt_text(config.format), "rfc3164"@), "rfc5424"@),
                ),
            ),
        },
    }
}

fn borrow_text(o: &Option<String>) -> (r: Option<&str>)
    ensures
        opt_str(r) == opt_text(*o),
{
    match o {
        Some(s) => Some(s.as_str()),
        None => None,
    }
}

/// How messages go to the system log. It fails where the transport or the facility is
/// unknown, or where the certificate that TLS needs is missing.
pub fn plan_syslog(config: &SyslogConfig) -> (r: Result<SyslogPlan, String>)
    ensures
        match (syslog_plan(*config), r) {
            (Ok((t, n, f)), Ok(p)) => p.transport@ == t && p.facility.number() == n && p.rfc5424 == f,
            (Err(m), Err(e)) => e@ == m,
            _ => false,
        },
{
    let ca_path = match &config.tls {
        Some(t) => borrow_text(&t.ca_cert_path),
        None => None,
    };
    let transport = match SyslogTransport::from_config(
        borrow_text(&config.transport),
        borrow_text(&config.server),
        ca_path,
    ) {
        Ok(t) => t,
        Err(e) => {
            let mut m = "building syslog transport: ".to_owned();
            m.push_str(e.as_str());
            return Err(m);
        },
    };
    let facility = match facility_from_str(config.facility.as_str()) {
        Ok(f) => f,
        Err(e) => {
            let mut m = "parsing syslog facility: ".to_owned();
            m.push_str(e.as_str());
            return Err(m);
        },
    };
    let rfc5424 = match &config.format {
        Some(f) => is_rfc5424(f.as_str()),
        None => is_rfc5424("rfc3164"),
    };
    Ok(SyslogPlan { transport, facility, rfc5424 })
}

/// Where messages go: for each target the directives of its filter.
#[derive(Debug)]
pub struct LoggingPlan {
    pub stdout: Option<String>,
    /// The path of the file, and the filter.
    pub file: Option<(String, String)>,
    pub syslog: Option<(Result<SyslogPlan, String>, String)>,
    /// The filter of the standard error stream, which is used where nothing else is.
    pub stderr: Option<String>,
}

/// Whether messages go to the standard output.
pub open spec fn wants_stdout(config: LoggingConfig) -> bool {
    config.stdout matches Some(c) && c.enabled
}

/// Whether messages go to a file.
pub open spec fn wants_file(config: LoggingConfig) -> bool {
    config.file matches Some(c) && c.enabled
}

/// Whether messages go to the system log.
pub open spec fn wants_syslog(config: LoggingConfig) -> bool {
    config.syslog matches Some(c) && c.enabled
}

/// Whether a plan says where messages go: to every target that is enabled, and to the
/// standard error stream where none is.
pub open spec fn is_logging_plan(config: LoggingConfig, debug: bool, r: LoggingPlan) -> bool {
    &&& (opt_text(r.stdout) == if wants_stdout(config) {
            Some(filter_text(level_or(Some(config.stdout->0.level@), Level::Info), debug))
        } else {
            None
        })
    &&& (wants_file(config) ==> (r.file matches Some((path, filter)) && path@
            == config.file->0.location@ && filter@ == filter_text(
            level_or(Some(config.file->0.level@), Level::Debug),
            debug,
        )))
    &&& (!wants_file(config) ==> r.file is None)
    &&& (wants_syslog(config) ==> (r.syslog matches Some((plan, filter)) && (match (
            syslog_plan(config.syslog->0),
            plan,
        ) {
            (Ok((t, n, f)), Ok(p)) => p.transport@ == t && p.facility.number() == n && p.rfc5424 == f,
            (Err(m), Err(e)) => e@ == m,
            _ => false,
        }) && filter@ == filter_text(
            if debug {
                Level::Debug
            } else {
                level_or(Some(config.syslog->0.level@), Level::Info)
            },
            debug,
        )))
    &&& (!wants_syslog(config) ==> r.syslog is None)
    &&& (opt_text(r.stderr) == if wants_stdout(config) || wants_file(config) || wants_syslog(config) {
            None
        } else {
            Some(
                filter_text(
                    if debug {
                        Level::Debug
                    } else {
                        Level::Info
                    },
                    debug,
                ),
            )
        })
}

/// Decides where messages go: to every target that is enabled, and to the standard error
/// stream where none is. Debug mode raises the level of the system log.
pub fn init_logging(config: &LoggingConfig, debug: bool) -> (r: LoggingPlan)
    ensures
        is_logging_plan(*config, debug, r),
        opt_text(r.stdout) == if wants_stdout(*config) {
            Some(filter_text(level_or(Some(config.stdout->0.level@), Level::Info), debug))
        } else {
            None
        },
        wants_file(*config) ==> (r.file matches Some((path, filter)) && path@
            == config.file->0.location@ && filter@ == filter_text(
            level_or(Some(config.file->0.level@), Level::Debug),
            debug,
        )),
        !wants_file(*config) ==> r.file is None,
        wants_syslog(*config) ==> (r.syslog matches Some((plan, filter)) && (match (
            syslog_plan(config.syslog->0),
            plan,
        ) {
            (Ok((t, n, f)), Ok(p)) => p.transport@ == t && p.facility.number() == n && p.rfc5424 == f,
            (Err(m), Err(e)) => e@ == m,
            _ => false,
        }) && filter@ == filter_text(
            if debug {
                Level::Debug
            } else {
                level_or(Some(config.syslog->0.level@), Level::Info)
            },
            debug,
        )),
        !wants_syslog(*config) ==> r.syslog is None,
        opt_text(r.stderr) == if wants_stdout(*config) || wants_file(*config) || wants_syslog(*config) {
            None
        } else {
            Some(
                filter_text(
                    if debug {
                        Level::Debug
                    } else {
                        Level::Info
                    },
                    debug,
                ),
            )
        },
{
    let stdout = match &config.stdout {
        Some(c) => if c.enabled {
            Some(build_env_filter(parse_level_or(c.level.as_str(), Level::Info), debug))
        } else {
            None
        },
        None => None,
    };
    let file = match &config.file {
        Some(c) => if c.enabled {
            Some(
                (
                    c.location.clone(),
                    build_env_filter(parse_level_or(c.level.as_str(), Level::Debug), debug),
                ),
            )
        } else {
            None
        },
        None => None,
    };
    let syslog = match &config.syslog {
        Some(c) => if c.enabled {
            let level = if debug {
                Level::Debug
            } else {
                parse_level_or(c.level.as_str(), Level::Info)
            };
            Some((plan_syslog(c), build_env_filter(level, debug)))
        } else {
            None
        },
        None => None,
    };
    let stderr = if stdout.is_none() && file.is_none() && syslog.is_none() {
        let level = if debug {
            Level::Debug
        } else {
            Level::Info
        };
        Some(build_env_filter(level, debug))
    } else {
        None
    };
    LoggingPlan { stdout, file, syslog, stderr }
}

/// The targets that are in use.
#[derive(Debug)]
pub struct LoggingTargets {
    pub stdout: Option<String>,
    pub file: Option<String>,
    pub syslog: Option<(SyslogPlan, String)>,
    pub stderr: Option<String>,
}

impl LoggingPlan {
    /// Why logging cannot be set up: the file could not be opened, or else the settings of
    /// the system log are wrong.
    pub open spec fn trouble(self, file_error: Option<Seq<char>>) -> Option<Seq<char>> {
        match (self.file, file_error) {
            (Some((path, _)), Some(e)) => Some("opening log file "@ + path@ + ": "@ + e),
            _ => match self.syslog {
                Some((Err(e), _)) => Some(e@),
                _ => None,
            },
        }
    }

    /// The targets that are in use, given the error with which the file did not open. A
    /// target that was asked for and cannot be used is an error: messages do not go
    /// missing in silence.
    pub fn complete(self, file_error: Option<String>) -> (r: Result<LoggingTargets, String>)
        ensures
            match (self.trouble(opt_text(file_error)), r) {
                (Some(m), Err(e)) => e@ == m,
                (None, Ok(t)) => {
                    &&& t.stdout == self.stdout
                    &&& t.stderr == self.stderr
                    &&& match self.file {
                        Some((_, filter)) => t.file == Some(filter),
                        None => t.file is None,
                    }
                    &&& match self.syslog {
                        Some((Ok(plan), filter)) => t.syslog == Some((plan, filter)),
                        _ => t.syslog is None,
                    }
                },
                _ => false,
            },
    {
        let file = match self.file {
            Some((path, filter)) => match file_error {
                Some(e) => {
                    let mut m = "opening log file ".to_owned();
                    m.push_str(path.as_str());
                    m.push_str(": ");
                    m.push_str(e.as_str());
                    return Err(m);
                },
                None => Some(filter),
            },
            None => None,
        };
        let syslog = match self.syslog {
            Some((plan, filter)) => match plan {
                Ok(p) => Some((p, filter)),
                Err(e) => return Err(e),
            },
            None => None,
        };
        Ok(LoggingTargets { stdout: self.stdout, file, syslog, stderr: self.stderr })
    }
}

/// Messages go to every target that is enabled and to no other; where none is, they go to
/// the standard error stream, so that they never go missing.
pub proof fn law_enabled_targets_are_used(config: LoggingConfig, debug: bool, plan: LoggingPlan)
    requires
        is_logging_plan(config, debug, plan),
    ensures
        plan.stdout is Some <==> (config.stdout matches Some(c) && c.enabled),
        plan.file is Some <==> (config.file matches Some(c) && c.enabled),
        plan.syslog is Some <==> (config.syslog matches Some(c) && c.enabled),
        plan.stderr is Some <==> plan.stdout is None && plan.file is None && plan.syslog is None,
        plan.file matches Some((path, _)) ==> (config.file matches Some(c) && path@ == c.location@),
{
}

/// Every target has the level that is configured for it; what names no level counts as
/// `info`, for the file as `debug`. Debug mode lets the system log hear what the file does.
pub proof fn law_targets_have_their_level(config: LoggingConfig, debug: bool, plan: LoggingPlan)
    requires
        is_logging_plan(config, debug, plan),
    ensures
        config.stdout matches Some(c) ==> (plan.stdout matches Some(f) ==> f@ == filter_text(
            match level_with_name(lowercase(c.level@)) {
                Some(l) => l,
                None => Level::Info,
            },
            debug,
        )),
        config.file matches Some(c) ==> (plan.file matches Some((_, f)) ==> f@ == filter_text(
            match level_with_name(lowercase(c.level@)) {
                Some(l) => l,
                None => Level::Debug,
            },
            debug,
        )),
        config.syslog matches Some(c) ==> (plan.syslog matches Some((_, f)) ==> f@ == filter_text(
            match level_with_name(lowercase(c.level@)) {
                Some(l) => if debug {
                    Level::Debug
                } else {
                    l
                },
                None => if debug {
                    Level::Debug
                } else {
                    Level::Info
                },
            },
            debug,
        )),
        plan.stderr matches Some(f) ==> f@ == filter_text(
            if debug {
                Level::Debug
            } else {
                Level::Info
            },
            debug,
        ),
{
}

/// In debug mode a filter is its level alone; otherwise the two parts of the DNS library are
/// heard about errors alone.
pub proof fn law_filters_quiet_the_library(level: Level)
    ensures
        filter_text(level, true) == level.shown(),
        filter_text(level, false) == filter_text(level, true) + ",hickory_proto=error"@
            + ",hickory_resolver=error"@,
{
    reveal_strlit(",hickory_proto=error");
    reveal_strlit(",hickory_resolver=error");
    reveal_strlit(",hickory_proto=error,hickory_resolver=error");
    assert(",hickory_proto=error,hickory_resolver=error"@ =~= ",hickory_proto=error"@
        + ",hickory_resolver=error"@);
    assert(filter_text(level, false) =~= filter_text(level, true) + ",hickory_proto=error"@
        + ",hickory_resolver=error"@);
}

/// The settings of the system log are used where its transport and its facility are known;
/// what is wrong with them is told, with the transport first.
pub proof fn law_system_log_settings_are_checked(config: SyslogConfig)
    ensures
        ({
            let ca_path = match config.tls {
                Some(t) => opt_text(t.ca_cert_path),
                None => None,
            };
            match (
                configured_transport(opt_text(config.transport), opt_text(config.server), ca_path),
                facility_number(config.facility@),
                syslog_plan(config),
            ) {
                (Ok(t), Some(n), Ok((u, m, rfc5424))) => {
                    &&& u == t && m == n
                    &&& config.format is None ==> !rfc5424
                    &&& config.format matches Some(f) ==> (rfc5424 <==> same_ignoring_case(
                        f@,
                        "rfc5424"@,
                    ))
                },
                (Err(e), _, Err(m)) => e.is_suffix_of(m),
                (Ok(_), None, Err(m)) => config.facility@.is_suffix_of(m),
                _ => false,
            }
        }),
{
    reveal_strlit("rfc3164");
    reveal_strlit("rfc5424");
    let a = "rfc3164"@;
    assert(ascii_lower(a[3]) != ascii_lower("rfc5424"@[3]));
    let ca_path = match config.tls {
        Some(t) => opt_text(t.ca_cert_path),
        None => None,
    };
    match configured_transport(opt_text(config.transport), opt_text(config.server), ca_path) {
        Err(e) => {
            let m = "building syslog transport: "@ + e;
            assert(m.subrange(m.len() - e.len(), m.len() as int) =~= e);
        },
        Ok(_) => {
            let f = config.facility@;
            let m = "parsing syslog facility: "@ + unknown_facility(f);
            assert(m.subrange(m.len() - f.len(), m.len() as int) =~= f);
        },
    }
}

/// A target that was asked for and cannot be used keeps logging from being set up; the file
/// is looked at first.
pub proof fn law_unusable_targets_are_told(plan: LoggingPlan, file_error: Option<Seq<char>>)
    ensures
        plan.trouble(file_error) is None <==> !(plan.file is Some && file_error is Some) && !(
        plan.syslog matches Some((Err(_), _))),
        plan.file matches Some((path, _)) ==> (file_error matches Some(e) ==> (plan.trouble(
            file_error,
        ) matches Some(m) && (path@ + ": "@ + e).is_suffix_of(m))),
{
    if let Some((path, _)) = plan.file {
        if let Some(e) = file_error {
            let m = "opening log file "@ + path@ + ": "@ + e;
            let t = path@ + ": "@ + e;
            assert(m.subrange(m.len() - t.len(), m.len() as int) =~= t);
        }
    }
}

/// A system log that cannot be set up is told why, and else it is set up as configured.
pub proof fn law_system_log_is_set_up_as_configured(
    config: LoggingConfig,
    debug: bool,
    plan: LoggingPlan,
)
    requires
        is_logging_plan(config, debug, plan),
        wants_syslog(config),
    ensures
        plan.syslog matches Some((p, _)) && (match syslog_plan(config.syslog->0) {
            Ok((t, n, f)) => p matches Ok(x) && x.transport@ == t && x.facility.number() == n
                && x.rfc5424 == f,
            Err(m) => p matches Err(e) && e@ == m,
        }),
{
}

} // verus!
