use dns_filter::config::schema::{
    ApiConfig, ControlConfig, DnsFilterConfig, ListenConfig, LoggingConfig,
    MetricsConfig, QueryLoggingConfig, ResolversConfig, SecurityConfig, SocketConfig,
};
use dns_filter::control::{
    classify, connect_error, dispatch, plan_bind, reply_line, request_line, respond,
    socket_directory, too_large, BindPlan, ConnectFailure, ControlCommand, Reading,
    MAX_MESSAGE_BYTES, SOCKET_MODE,
};
use dns_filter::daemon::cli::{
    accept_response,
    control_socket_source, default_config_path, overwritten, resolve_control_socket_path,
    run_control_command, run_merge_config, run_status_command, select_action, CliAction, Commands,
    ControlResponse, MergeStep, SocketSource, StatusPayload,
};
use dns_filter::daemon::serving::{
    after_reload, api_address_of, ending_message, exit_code, query_log_size,
    spawn_api_server, spawn_metrics_servers, uptime_seconds, Ending,
};
use dns_filter::daemon::startup::{
    listener_failure, next_stage, path_view, plan_dns, plan_secure, stage_failure, ListenerStep,
    PathView, SecureProtocol, Stage,
};
use dns_filter::net::{IpAddr, SocketAddr};
use dns_filter::privileges::{
    drop_privileges, privilege_settings, Action, Event, PrivilegeDropConfig,
};
use dns_filter::tls::TlsUse;

fn v4(a: u8, b: u8, c: u8, d: u8) -> IpAddr {
    IpAddr::V4(u32::from_be_bytes([a, b, c, d]))
}

// ---- the command line ----

#[test]
fn version_flag_comes_before_the_command() {
    assert_eq!(select_action(true, None), Ok(CliAction::Version));
    let start = Commands::Start {
        config_path: default_config_path().to_string(),
        debug: true,
        direct: false,
    };
    assert_eq!(select_action(true, Some(start)), Ok(CliAction::Version));
}

#[test]
fn commands_become_actions() {
    let path = "/tmp/test.yaml".to_string();
    assert_eq!(default_config_path(), "/etc/dns-filter/config.yaml");
    assert_eq!(
        select_action(
            false,
            Some(Commands::Start { config_path: path.clone(), debug: true, direct: false })
        ),
        Ok(CliAction::Start { config_path: path.clone(), debug: true, direct: false })
    );
    assert_eq!(
        select_action(
            false,
            Some(Commands::Stop {
                config_path: path.clone(),
                socket_path: Some("/s".to_string()),
                direct: true
            })
        ),
        Ok(CliAction::Stop {
            config_path: path.clone(),
            socket_path: Some("/s".to_string()),
            direct: true
        })
    );
    assert_eq!(
        select_action(false, Some(Commands::Reload { config_path: path.clone(), socket_path: None })),
        Ok(CliAction::Reload { config_path: path.clone(), socket_path: None })
    );
    assert_eq!(
        select_action(false, Some(Commands::Status { config_path: path.clone(), socket_path: None })),
        Ok(CliAction::Status { config_path: path.clone(), socket_path: None })
    );
    assert_eq!(
        select_action(
            false,
            Some(Commands::MergeConfig { config_path: path.clone(), overwrite: true })
        ),
        Ok(CliAction::MergeConfig { config_path: path, overwrite: true })
    );
}

#[test]
fn rejects_no_subcommand() {
    let err = select_action(false, None).unwrap_err();
    assert!(err.contains("no subcommand"));
}

fn config(socket: Option<&str>, chroot: Option<&str>) -> DnsFilterConfig {
    DnsFilterConfig {
        listen: listen(None),
        blocklists: vec![],
        allowlists: vec![],
        filtering: None,
        resolvers: ResolversConfig {
            strategy: "random".to_string(),
            bootstrap_resolvers: vec![],
            cache: None,
            zones: vec![],
            zone_discovery: vec![],
            servers: vec![],
        },
        plugins: vec![],
        logging: LoggingConfig { syslog: None, file: None, stdout: None },
        security: chroot.map(|dir| SecurityConfig {
            user: None,
            group: None,
            chroot_dir: Some(dir.to_string()),
        }),
        api: None,
        control: socket.map(|path| ControlConfig { socket_path: Some(path.to_string()) }),
        mcp: None,
        database: None,
        outbound: None,
    }
}

#[test]
fn control_socket_is_given_configured_or_default() {
    let given = control_socket_source(Some("/s"), Err("unused".to_string()));
    assert!(matches!(&given, SocketSource::Given(p) if p == "/s"));
    assert_eq!(resolve_control_socket_path(given, Ok("/other".to_string())), Ok("/s".to_string()));
    let c = config(Some("/run/x.sock"), Some("/jail"));
    let configured = control_socket_source(None, Ok(&c));
    assert!(matches!(&configured, SocketSource::Configured { path, chroot_dir }
        if path == "/run/x.sock" && chroot_dir == "/jail"));
    assert_eq!(
        resolve_control_socket_path(configured, Err("outside".to_string())),
        Err("invalid control socket path in config: outside".to_string())
    );
    let default = control_socket_source(None, Err("no file".to_string()));
    assert!(matches!(&default, SocketSource::Default { path, chroot_dir, notice }
        if path == "/run/dns-filter/dns-filter.sock"
            && chroot_dir == "/var/lib/dns-filter"
            && notice == "failed to load config: no file\nusing default control socket path"));
    let c = config(None, None);
    assert_eq!(c.socket_path(), "/run/dns-filter/dns-filter.sock");
}

fn response(status: &str, message: Option<&str>) -> ControlResponse {
    ControlResponse {
        status: status.to_string(),
        message: message.map(|m| m.to_string()),
        data: None,
    }
}

#[test]
fn control_commands_report_their_outcome() {
    let report = run_control_command("reload", Ok(response("ok", Some("reload triggered"))));
    assert_eq!((report.out.as_str(), report.exit_code), ("reload triggered\n", 0));
    let report = run_control_command("stop", Ok(response("ok", None)));
    assert_eq!(report.out, "stop command sent successfully\n");
    let report = run_control_command("stop", Ok(response("error", Some("busy"))));
    assert_eq!((report.err.as_str(), report.exit_code), ("daemon returned error: busy\n", 1));
    let report = run_control_command("stop", Err("not running".to_string()));
    assert_eq!((report.err.as_str(), report.exit_code), ("not running\n", 1));
}

#[test]
fn status_is_printed_line_by_line() {
    let mut answered = response("ok", None);
    answered.data = Some(Ok(StatusPayload {
        uptime_seconds: 60,
        filtering_enabled: true,
        queries_total: 10,
        queries_blocked: 3,
        queries_allowed: 2,
        queries_passthrough: 5,
        lists: vec!["ads".to_string(), "malware".to_string()],
    }));
    let report = run_status_command(Ok(answered));
    assert_eq!(report.exit_code, 0);
    assert_eq!(
        report.out,
        "Daemon status: healthy\nUptime (s): 60\nFiltering enabled: true\nQueries total: 10\nQueries blocked: 3\nQueries allowed: 2\nQueries passthrough: 5\nFilter lists: 2\nList names: ads, malware\n"
    );
    let report = run_status_command(Ok(response("ok", None)));
    assert_eq!((report.err.as_str(), report.exit_code), ("daemon did not return status data\n", 1));
    let mut garbled = response("ok", None);
    garbled.data = Some(Err("bad".to_string()));
    assert_eq!(run_status_command(Ok(garbled)).err, "failed to decode status payload: bad\n");
}

#[test]
fn merged_config_is_printed_or_written() {
    let user = || Ok("a: 2\n".to_string());
    assert!(matches!(
        run_merge_config("/c", false, "a: 1\nb: 3\n", user()),
        MergeStep::Print(text) if text == "b: 3\na: 2\n"
    ));
    assert!(matches!(run_merge_config("/c", true, "a: 1\n", user()), MergeStep::Overwrite(_)));
    match run_merge_config("/c", true, "a: 1\n", Err("gone".to_string())) {
        MergeStep::Fail(report) => {
            assert_eq!(report.err, "failed to read config file /c: gone\n");
            assert_eq!(report.exit_code, 1);
        }
        other => panic!("unexpected {other:?}"),
    }
    match run_merge_config("/c", true, "a: 1\n", Ok("a: [".to_string())) {
        MergeStep::Fail(report) => {
            assert_eq!(report.err, "failed to merge config: failed to parse user config file\n");
        }
        other => panic!("unexpected {other:?}"),
    }
    assert_eq!(overwritten("/c", Ok(())).err, "merged config written to /c\n");
    assert_eq!(overwritten("/c", Err("full".to_string())).exit_code, 1);
}

// ---- the control socket ----

#[test]
fn reload_command_sends_to_channel() {
    let (reply, stops) = respond("reload", false, true);
    assert_eq!(reply.status, "ok");
    assert!(!stops);
    assert_eq!(dispatch("reload", false), ControlCommand::Reload);
}

#[test]
fn stop_command_shuts_down_server() {
    let (reply, stops) = respond("stop", false, true);
    assert_eq!(reply.status, "ok");
    assert_eq!(reply.message, Some("shutdown initiated".to_string()));
    assert!(stops);
}

#[test]
fn unknown_command_returns_error() {
    let (reply, stops) = respond("explode", false, true);
    assert_eq!(reply.status, "error");
    assert!(reply.message.unwrap().contains("unknown command"));
    assert!(!stops);
}

#[test]
fn stale_socket_is_replaced() {
    assert!(matches!(plan_bind("/s", true, false), BindPlan::RemoveStale));
    assert!(matches!(plan_bind("/s", false, false), BindPlan::Bind));
}

#[test]
fn duplicate_bind_fails() {
    match plan_bind("/s", true, true) {
        BindPlan::AlreadyRunning(message) => assert!(message.contains("already running")),
        other => panic!("unexpected {other:?}"),
    }
}

#[test]
fn status_needs_a_source() {
    assert_eq!(dispatch("status", true), ControlCommand::Status);
    assert_eq!(dispatch("status", false), ControlCommand::Unknown);
    let (reply, _) = respond("status", true, true);
    assert!(reply.with_status);
    let (reply, _) = respond("reload", false, false);
    assert_eq!(reply.message, Some("reload channel closed".to_string()));
    assert_eq!(too_large().message, Some("message too large".to_string()));
}

#[test]
fn messages_have_a_greatest_length() {
    assert_eq!(classify(0), Reading::Closed);
    assert_eq!(classify(MAX_MESSAGE_BYTES), Reading::Message);
    assert_eq!(classify(MAX_MESSAGE_BYTES + 1), Reading::TooLarge);
    assert_eq!(SOCKET_MODE, 0o660);
    assert_eq!(request_line("stop"), "{\"command\":\"stop\"}\n");
    assert_eq!(reply_line("{}\n".to_string()), Ok("{}\n".to_string()));
    assert_eq!(
        reply_line(String::new()),
        Err("daemon closed connection without responding")
    );
}

#[test]
fn unreachable_daemons_come_with_a_hint() {
    assert!(connect_error(&ConnectFailure::NotFound, "/s").contains("is the dns-filter daemon running"));
    assert!(connect_error(&ConnectFailure::Refused, "/s").starts_with("connection refused at /s"));
    assert!(connect_error(&ConnectFailure::Denied, "/s").starts_with("permission denied"));
    assert_eq!(
        connect_error(&ConnectFailure::Other("e".to_string()), "/s"),
        "failed to connect to control socket /s: e"
    );
    assert_eq!(socket_directory("/run/dns-filter/x.sock"), Some("/run/dns-filter".to_string()));
    assert_eq!(socket_directory("/"), None);
}

// ---- starting ----

#[test]
fn sockets_are_bound_before_privileges_go() {
    let mut stage = Stage::ReadConfig;
    let mut seen = vec![];
    while stage != Stage::Serve {
        seen.push(stage);
        stage = next_stage(stage);
    }
    let at = |s: Stage| seen.iter().position(|x| *x == s).unwrap();
    assert!(at(Stage::BindListeners) < at(Stage::DropPrivileges));
    assert!(at(Stage::BindControlSocket) < at(Stage::DropPrivileges));
    assert!(at(Stage::DropPrivileges) < at(Stage::OpenDatabase));
    assert_eq!(next_stage(Stage::Serve), Stage::Serve);
    assert!(matches!(path_view(Stage::BindControlSocket, true), PathView::Host));
    assert!(matches!(path_view(Stage::OpenDatabase, true), PathView::Runtime));
}

#[test]
fn failures_name_their_stage() {
    assert_eq!(
        stage_failure(Stage::DropPrivileges, "/c", "no"),
        "failed to drop privileges: no"
    );
    assert!(stage_failure(Stage::ReadConfig, "/c", "gone").contains("File: /c\n  Reason: gone"));
    assert_eq!(stage_failure(Stage::ParseConfig, "/c", "as it is"), "as it is");
    assert_eq!(
        listener_failure("DoQ", ListenerStep::CertPath, "e"),
        "invalid DoQ tls.cert_path: e"
    );
    assert_eq!(
        listener_failure("DNS", ListenerStep::Bind(SocketAddr::new(v4(1, 2, 3, 4), 53)), "in use"),
        "failed to bind DNS on 1.2.3.4:53: in use"
    );
}

fn listen(dns: Option<SocketConfig>) -> ListenConfig {
    ListenConfig { dns, dot: None, doh: None, doq: None, admin: None, metrics: None }
}

fn dns_on(enabled: bool, addresses: &[&str]) -> Option<SocketConfig> {
    Some(SocketConfig {
        enabled,
        addresses: addresses.iter().map(|a| a.to_string()).collect(),
        port: 53,
    })
}

#[test]
fn dns_listens_over_udp_and_tcp() {
    let plan = plan_dns(&listen(dns_on(true, &["127.0.0.1"]))).unwrap();
    assert_eq!(plan.len(), 2);
    assert!(plan.iter().any(|s| s.udp) && plan.iter().any(|s| !s.udp));
    assert!(plan.iter().all(|s| s.address == SocketAddr::new(v4(127, 0, 0, 1), 53)));
    let missing = "listen.dns must be configured with enabled: true";
    assert_eq!(plan_dns(&listen(None)).unwrap_err(), missing);
    assert_eq!(plan_dns(&listen(dns_on(false, &["127.0.0.1"]))).unwrap_err(), missing);
    assert_eq!(
        plan_dns(&listen(dns_on(true, &["x"]))).unwrap_err(),
        "failed to parse DNS bind addresses: invalid bind address 'x:53': invalid socket address syntax"
    );
}

#[test]
fn secure_protocols_are_optional() {
    assert_eq!(plan_secure(SecureProtocol::Doq, &None), Ok(None));
    assert_eq!(SecureProtocol::Doh.tls_use(), TlsUse::Doh);
    assert!(SecureProtocol::Doq.over_udp());
    assert!(!SecureProtocol::Dot.over_udp());
}

// ---- serving ----

fn api(enabled: bool, address: &str, logging: Option<QueryLoggingConfig>) -> Option<ApiConfig> {
    Some(ApiConfig {
        enabled,
        address: address.to_string(),
        port: 8000,
        api_token: None,
        query_logging: logging,
        tls: None,
    })
}

#[test]
fn api_is_served_where_it_is_enabled() {
    assert_eq!(
        spawn_api_server(&api(true, "127.0.0.1", None)),
        Ok(Some(SocketAddr::new(v4(127, 0, 0, 1), 8000)))
    );
    assert_eq!(spawn_api_server(&api(false, "x", None)), Ok(None));
    assert_eq!(spawn_api_server(&None), Ok(None));
    assert_eq!(
        spawn_api_server(&api(true, "x", None)),
        Err("invalid API bind address: invalid socket address syntax".to_string())
    );
    assert_eq!(api_address_of(Err("e".to_string())), Err("invalid API bind address: e".to_string()));
}

#[test]
fn query_log_is_kept_where_it_is_enabled() {
    let on = QueryLoggingConfig { enabled: true, max_entries: 7 };
    assert_eq!(query_log_size(&api(true, "x", Some(on))), Some(7));
    let off = QueryLoggingConfig { enabled: false, max_entries: 7 };
    assert_eq!(query_log_size(&api(true, "x", Some(off))), None);
    assert_eq!(query_log_size(&None), None);
}

#[test]
fn metrics_are_served_on_every_address() {
    let metrics = MetricsConfig {
        enabled: true,
        addresses: vec!["127.0.0.1".to_string(), "::1".to_string()],
        port: 9090,
        tls: None,
    };
    assert_eq!(spawn_metrics_servers(&Some(metrics)).unwrap().len(), 2);
    assert!(spawn_metrics_servers(&None).unwrap().is_empty());
}

#[test]
fn uptime_is_never_negative() {
    assert_eq!(uptime_seconds(100, 160), 60);
    assert_eq!(uptime_seconds(160, 100), 0);
}

#[test]
fn failed_reload_keeps_what_there_is() {
    assert_eq!(after_reload(1, Ok(2)), (2, None));
    let (kept, warning) = after_reload(1, Err("bad".to_string()));
    assert_eq!(kept, 1);
    assert_eq!(
        warning.unwrap(),
        "Configuration reload failed, keeping previous config: bad"
    );
}

#[test]
fn lost_reloads_end_with_an_error() {
    assert_eq!(exit_code(Ending::Shutdown), 0);
    assert_eq!(exit_code(Ending::DnsServer), 0);
    assert_eq!(exit_code(Ending::Reload), 1);
    assert_eq!(ending_message(Ending::Shutdown), "shutdown signal received, exiting");
    assert_eq!(ending_message(Ending::Mcp), "MCP server exited unexpectedly");
}

// ---- privileges ----

#[test]
fn drop_privileges_is_noop_when_non_root() {
    let config = PrivilegeDropConfig { user: "nobody", group: "nogroup", chroot_dir: None };
    assert!(drop_privileges(&config, false).is_none());
}

#[test]
fn privileges_go_step_by_step() {
    let config =
        PrivilegeDropConfig { user: "nobody", group: "nogroup", chroot_dir: Some("/jail") };
    let mut sequence = drop_privileges(&config, true).unwrap();
    let mut actions = vec![];
    while sequence.action() != Action::Finished {
        actions.push(sequence.action());
        let event = match sequence.action() {
            Action::LookUpUser => Event::Found(65534),
            Action::LookUpGroup => Event::Found(65533),
            Action::Verify => Event::Identity { uid: 65534, gid: 65533 },
            _ => Event::Done,
        };
        sequence.step(event);
    }
    assert_eq!(
        actions,
        vec![
            Action::LookUpUser,
            Action::LookUpGroup,
            Action::Chroot,
            Action::ChangeDirectory,
            Action::KeepCapabilities,
            Action::SetGroups,
            Action::SetGid,
            Action::SetUid,
            Action::PermitNetBind,
            Action::EnableNetBind,
            Action::ForgetCapabilities,
            Action::Verify,
        ]
    );
    assert_eq!((sequence.uid(), sequence.gid()), (65534, 65533));
    assert!(sequence.failure().is_none());
}

#[test]
fn failed_step_ends_the_sequence() {
    let config = PrivilegeDropConfig { user: "u", group: "g", chroot_dir: None };
    let mut sequence = drop_privileges(&config, true).unwrap();
    sequence.step(Event::NotFound);
    assert_eq!(sequence.action(), Action::Failed);
    assert_eq!(sequence.failure(), Some("user 'u' not found"));

    let mut sequence = drop_privileges(&config, true).unwrap();
    sequence.step(Event::Found(5));
    sequence.step(Event::Found(6));
    assert_eq!(sequence.action(), Action::KeepCapabilities);
    sequence.step(Event::Done);
    sequence.step(Event::Done);
    assert_eq!(sequence.action(), Action::SetGid);
    sequence.step(Event::Error("EPERM".to_string()));
    assert_eq!(sequence.failure(), Some("setgid(6): EPERM"));
}

#[test]
fn wrong_identity_is_noticed() {
    let config = PrivilegeDropConfig { user: "u", group: "g", chroot_dir: None };
    let mut sequence = drop_privileges(&config, true).unwrap();
    sequence.step(Event::Found(5));
    sequence.step(Event::Found(6));
    while sequence.action() != Action::Verify {
        sequence.step(Event::Done);
    }
    sequence.step(Event::Identity { uid: 5, gid: 0 });
    assert_eq!(
        sequence.failure(),
        Some("privilege drop verification failed: expected gid 6, got 0")
    );
}

#[test]
fn settings_stand_in_for_what_is_not_configured() {
    let settings = privilege_settings(&None);
    assert_eq!(
        (settings.user.as_str(), settings.group.as_str(), settings.chroot_dir.as_str()),
        ("nobody", "nogroup", "/var/lib/dns-filter")
    );
    let given = Some(SecurityConfig { user: Some("dns".to_string()), group: None, chroot_dir: None });
    assert_eq!(privilege_settings(&given).user, "dns");
}

#[test]
fn replies_with_an_error_are_errors() {
    assert_eq!(accept_response(response("ok", Some("done"))).unwrap().status, "ok");
    assert_eq!(
        accept_response(response("error", Some("unknown command"))).unwrap_err(),
        "daemon returned error: unknown command"
    );
    assert_eq!(accept_response(response("error", None)).unwrap_err(), "daemon returned error: ");
    // What the user reads is the same either way.
    let refused = || response("error", Some("no"));
    assert_eq!(
        run_control_command("stop", accept_response(refused())).err,
        run_control_command("stop", Ok(refused())).err
    );
}
