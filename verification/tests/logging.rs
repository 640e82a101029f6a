use dns_filter::config::schema::{
    FileLogConfig, LoggingConfig, StdoutLogConfig, SyslogConfig, SyslogTlsConfig,
};
use dns_filter::logging::setup::{build_env_filter, init_logging, plan_syslog};
use dns_filter::logging::syslog::{
    accept_authorities, accept_server_name, facility_code, facility_from_str, is_rfc5424,
    level_from_str, level_named, load_authorities, load_server_name, severity_code, tls_line,
    tls_server_name, unopened_authorities, Facility, Level, SenderAction, SenderEvent,
    SyslogMessage, SyslogTransport,
};
use dns_filter::pem::{load_listener_material, read_authorities};
use dns_filter::tls::{autogenerate_tls_cert_if_missing, certificate_request};

#[test]
fn default_stdout_level() {
    let level = "info";
    let parsed = level_from_str(level);
    assert_eq!(parsed, Some(Level::Info));
}

#[test]
fn facility_local0() {
    let code = facility_code("local0").unwrap();
    assert_eq!(code, 16);
}

#[test]
fn facility_code_all_valid() {
    let facilities = [
        "kern", "user", "mail", "daemon", "auth", "syslog", "lpr", "news", "uucp", "cron",
        "authpriv", "local0", "local1", "local2", "local3", "local4", "local5", "local6", "local7",
    ];
    for f in &facilities {
        assert!(facility_code(f).is_ok(), "failed for {}", f);
    }
}

#[test]
fn facility_code_invalid() {
    assert!(facility_code("invalid").is_err());
}

#[test]
fn severity_maps_correctly() {
    assert_eq!(severity_code(&Level::Error), 3);
    assert_eq!(severity_code(&Level::Warn), 4);
    assert_eq!(severity_code(&Level::Info), 6);
    assert_eq!(severity_code(&Level::Debug), 7);
    assert_eq!(severity_code(&Level::Trace), 7);
}

#[test]
fn level_from_str_all_valid() {
    assert_eq!(level_from_str("error"), Some(Level::Error));
    assert_eq!(level_from_str("warn"), Some(Level::Warn));
    assert_eq!(level_from_str("warning"), Some(Level::Warn));
    assert_eq!(level_from_str("info"), Some(Level::Info));
    assert_eq!(level_from_str("debug"), Some(Level::Debug));
    assert_eq!(level_from_str("trace"), Some(Level::Trace));
}

#[test]
fn level_from_str_invalid() {
    assert_eq!(level_from_str("invalid"), None);
}

#[test]
fn facility_from_str_valid() {
    assert!(facility_from_str("local0").is_ok());
    assert!(facility_from_str("LOCAL7").is_ok());
    assert!(facility_from_str("authpriv").is_ok());
}

#[test]
fn priority_calculation() {
    // facility 16 (local0) + severity 6 (info) = priority 134
    let facility = facility_code("local0").unwrap();
    let severity = severity_code(&Level::Info);
    let priority = (facility * 8) + severity;
    assert_eq!(priority, 134);
}

#[test]
fn facilities_and_levels_ignore_case() {
    assert_eq!(facility_from_str("Authpriv").unwrap(), Facility::Authpriv);
    assert_eq!(facility_from_str("nope").unwrap_err(), "unknown syslog facility: nope");
    assert_eq!(level_from_str("WARNING"), Some(Level::Warn));
    assert_eq!(level_named("WARNING"), None);
    assert_eq!(Level::Trace.name(), "TRACE");
    assert_eq!(Facility::Local7.code(), 23);
}

#[test]
fn transports_have_default_servers() {
    let made = |t, s, c| SyslogTransport::from_config(t, s, c);
    assert!(matches!(made(None, None, None), Ok(SyslogTransport::Unix(p)) if p == "/dev/log"));
    assert!(
        matches!(made(Some("udp"), None, None), Ok(SyslogTransport::Udp(a)) if a == "127.0.0.1:514")
    );
    assert!(matches!(made(Some("tcp"), Some("h:1"), None), Ok(SyslogTransport::Tcp(a)) if a == "h:1"));
    assert!(matches!(
        made(Some("tls"), None, Some("/ca.pem")),
        Ok(SyslogTransport::Tls(a, c)) if a == "127.0.0.1:514" && c == "/ca.pem"
    ));
    assert_eq!(
        made(Some("tls"), None, None).unwrap_err(),
        "tls transport requires ca_cert_path in syslog config"
    );
    assert_eq!(made(Some("x"), None, None).unwrap_err(), "unknown syslog transport: x");
}

#[test]
fn messages_over_tls_are_lines() {
    assert_eq!(tls_server_name("logs.example:6514"), "logs.example");
    assert_eq!(tls_server_name("logs.example"), "logs.example");
    let line = tls_line(SyslogMessage { level: Level::Info, msg: "hello".to_string() });
    assert!(line.ends_with('\n'));
    assert!(line.contains("hello"));
    assert!(is_rfc5424("RFC5424"));
    assert!(!is_rfc5424("rfc3164"));
}

#[test]
fn filters_silence_the_resolver_unless_debugging() {
    assert_eq!(
        build_env_filter(Level::Info, false),
        "INFO,hickory_proto=error,hickory_resolver=error"
    );
}

fn syslog(transport: &str, facility: &str) -> SyslogConfig {
    SyslogConfig {
        enabled: true,
        facility: facility.to_string(),
        level: "info".to_string(),
        transport: Some(transport.to_string()),
        server: None,
        format: Some("rfc5424".to_string()),
        tls: Some(SyslogTlsConfig { ca_cert_path: None, verify_hostname: None }),
    }
}

#[test]
fn syslog_is_planned_or_refused() {
    let plan = plan_syslog(&syslog("udp", "local3")).unwrap();
    assert_eq!(plan.facility, Facility::Local3);
    assert!(plan.rfc5424);
    assert_eq!(
        plan_syslog(&syslog("udp", "nope")).unwrap_err(),
        "parsing syslog facility: unknown syslog facility: nope"
    );
    assert_eq!(
        plan_syslog(&syslog("x", "local3")).unwrap_err(),
        "building syslog transport: unknown syslog transport: x"
    );
}

#[test]
fn logging_goes_to_every_enabled_target() {
    let plan = init_logging(
        &LoggingConfig {
            syslog: Some(syslog("udp", "daemon")),
            file: Some(FileLogConfig {
                enabled: true,
                location: "/l".to_string(),
                level: "warn".to_string(),
            }),
            stdout: Some(StdoutLogConfig { enabled: true, level: "debug".to_string() }),
        },
        false,
    );
    assert!(plan.stdout.unwrap().starts_with("DEBUG"));
    assert_eq!(plan.file.as_ref().unwrap().0, "/l");
    assert!(plan.file.unwrap().1.starts_with("WARN"));
    assert!(plan.syslog.unwrap().0.is_ok());
    assert!(plan.stderr.is_none());
}

#[test]
fn logging_falls_back_to_the_standard_error() {
    let nothing = LoggingConfig { syslog: None, file: None, stdout: None };
    let plan = init_logging(&nothing, false);
    assert!(plan.stderr.is_some());
    assert!(plan.stdout.is_none() && plan.file.is_none() && plan.syslog.is_none());
}

fn logging_to_file_and_syslog(facility: &str) -> LoggingConfig {
    LoggingConfig {
        syslog: Some(syslog("udp", facility)),
        file: Some(FileLogConfig {
            enabled: true,
            location: "/l".to_string(),
            level: "warn".to_string(),
        }),
        stdout: None,
    }
}

#[test]
fn targets_that_cannot_be_used_are_errors() {
    let denied = || Some("denied".to_string());
    let good = logging_to_file_and_syslog("daemon");
    let targets = init_logging(&good, false).complete(None).unwrap();
    assert!(targets.file.unwrap().starts_with("WARN"));
    assert_eq!(targets.syslog.unwrap().0.facility, Facility::Daemon);
    assert!(targets.stdout.is_none() && targets.stderr.is_none());
    assert_eq!(
        init_logging(&good, false).complete(denied()).unwrap_err(),
        "opening log file /l: denied"
    );
    let bad = logging_to_file_and_syslog("nope");
    assert_eq!(
        init_logging(&bad, false).complete(None).unwrap_err(),
        "parsing syslog facility: unknown syslog facility: nope"
    );
    // The file comes first.
    assert_eq!(
        init_logging(&bad, false).complete(denied()).unwrap_err(),
        "opening log file /l: denied"
    );
}

fn hello(level: Level) -> SenderEvent {
    SenderEvent::Message(SyslogMessage { level, msg: "hello".to_string() })
}

#[test]
fn native_clients_go_on_after_a_lost_message() {
    let unix = SyslogTransport::Unix("/dev/log".to_string());
    assert!(matches!(unix.next_action(SenderEvent::Connected), SenderAction::Receive));
    let SenderAction::Log { severity, text } = unix.next_action(hello(Level::Warn)) else {
        panic!("a message is logged")
    };
    assert_eq!((severity, text.as_str()), (4, "hello"));
    let lost = SenderEvent::NotWritten("full".to_string());
    assert!(matches!(unix.next_action(lost), SenderAction::Receive));
    assert!(matches!(unix.next_action(SenderEvent::Closed), SenderAction::Connect));
    assert!(!unix.names_host());
}

#[test]
fn tls_gives_up_the_connection_after_a_lost_message() {
    let tls = SyslogTransport::Tls("h:514".to_string(), "/ca".to_string());
    let SenderAction::WriteLine(line) = tls.next_action(hello(Level::Info)) else {
        panic!("a message is a line")
    };
    assert_eq!(line, "hello\n");
    let lost = SenderEvent::NotWritten("broken pipe".to_string());
    let SenderAction::Wait { warning, seconds } = tls.next_action(lost) else {
        panic!("the sender waits")
    };
    assert_eq!(warning, "syslog tls sender error: broken pipe");
    assert_eq!(seconds, 5);
    assert!(matches!(tls.next_action(SenderEvent::Waited), SenderAction::Connect));
    assert!(tls.names_host());
}

#[test]
fn senders_pause_after_an_error() {
    let udp = SyslogTransport::Udp("h:514".to_string());
    let refused = SenderEvent::NotConnected("refused".to_string());
    let SenderAction::Wait { warning, seconds } = udp.next_action(refused) else {
        panic!("the sender waits")
    };
    assert_eq!(warning, "syslog udp sender error: refused");
    assert_eq!(seconds, 1);
    assert!(matches!(udp.next_action(SenderEvent::Written), SenderAction::Receive));
}

// ---- connections over TLS ----

fn authority() -> (String, Vec<u8>) {
    let request = certificate_request(None, &vec![], &vec!["syslog.example".to_string()]);
    let made = autogenerate_tls_cert_if_missing(false, false, &request).unwrap().unwrap();
    let material =
        load_listener_material(made.cert_pem.as_bytes(), made.key_pem.as_bytes()).unwrap();
    let der = material.chain[0].clone();
    (made.cert_pem, der)
}

#[test]
fn authorities_are_read_from_their_file() {
    let (first, first_der) = authority();
    let (second, second_der) = authority();
    let file = format!("{first}{second}");
    assert_eq!(
        load_authorities(file.as_bytes()).unwrap(),
        vec![first_der.clone(), second_der.clone()]
    );
    assert_eq!(read_authorities(file.as_bytes()).unwrap(), vec![first_der, second_der]);
    assert!(load_authorities(b"").unwrap().is_empty());
}

#[test]
fn file_is_read_before_a_certificate_is_looked_at() {
    let refused = "-----BEGIN CERTIFICATE-----\nAAAA\n-----END CERTIFICATE-----\n";
    let broken = "-----BEGIN CERTIFICATE-----\n****\n-----END CERTIFICATE-----\n";
    let error = load_authorities(refused.as_bytes()).unwrap_err();
    assert_eq!(error.message(), "adding cert to root store");
    assert_eq!(error.context, Some("adding cert to root store"));
    assert!(error.full_message().starts_with("adding cert to root store: "));
    assert!(!error.source.is_empty());

    let error = load_authorities(format!("{refused}{broken}").as_bytes()).unwrap_err();
    assert_eq!(error.context, None);
    assert_eq!(error.message(), read_authorities(broken.as_bytes()).unwrap_err());
    assert_eq!(error.full_message(), error.message());
}

#[test]
fn first_refused_authority_is_the_error() {
    let certs = || Ok(vec![vec![1], vec![2], vec![3]]);
    let refusals = vec![None, Some("second".to_string()), Some("third".to_string())];
    let error = accept_authorities(certs(), &refusals).unwrap_err();
    assert_eq!(error.full_message(), "adding cert to root store: second");
    assert_eq!(
        accept_authorities(certs(), &vec![None, None, None]).unwrap(),
        vec![vec![1], vec![2], vec![3]]
    );
    let error = accept_authorities(Err("not PEM".to_string()), &refusals).unwrap_err();
    assert_eq!(error.message(), "not PEM");
    let error = unopened_authorities("no such file".to_string());
    assert_eq!(error.message(), "opening CA cert file");
    assert_eq!(error.full_message(), "opening CA cert file: no such file");
}

#[test]
fn server_names_are_names_or_addresses() {
    assert_eq!(load_server_name("syslog.example:6514").unwrap(), "syslog.example");
    assert_eq!(load_server_name("10.0.0.1:6514").unwrap(), "10.0.0.1");
    for address in ["", ":6514", "not a name:6514"] {
        let error = load_server_name(address).unwrap_err();
        assert_eq!(error.message(), "parsing server name");
        assert!(error.full_message().starts_with("parsing server name: "));
    }
    assert_eq!(accept_server_name("a".to_string(), None).unwrap(), "a");
    let error = accept_server_name("a".to_string(), Some("bad".to_string())).unwrap_err();
    assert_eq!(error.full_message(), "parsing server name: bad");
}
