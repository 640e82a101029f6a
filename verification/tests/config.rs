use dns_filter::config::loader::{cached_path, hint_for_path, parse_failure, unreadable, Location};
use dns_filter::config::merger::{deep_merge, merge_documents, merge_with_example, parse_yaml};
use dns_filter::config::schema::{
    addresses, default_bootstrap_resolvers, default_public_addresses, default_strategy,
    AdminConfig, AdminConfigRaw, MetricsConfig, MetricsConfigRaw, MissingField, NamedList, NamedListEntry, NamedListRepr,
    OneOrMany, SocketConfig, SocketConfigRaw, TlsConfig, TlsSocketConfig, TlsSocketConfigRaw,
    UpstreamServer, ZoneServerConfig,
};
use dns_filter::config::yaml::{is_same, Yaml};

fn yaml(text: &str) -> Yaml {
    parse_yaml(text).unwrap()
}

fn at<'a>(value: &'a Yaml, path: &[&str]) -> &'a Yaml {
    let mut here = value;
    for key in path {
        let wanted = Yaml::Text(key.to_string());
        here = match here {
            Yaml::Mapping(entries) => {
                &entries.iter().find(|e| is_same(&e.key, &wanted)).expect("key").value
            }
            other => panic!("no mapping at {key}: {other:?}"),
        };
    }
    here
}

fn is_number(value: &Yaml, shown: &str) -> bool {
    matches!(value, Yaml::Number(n) if n == shown)
}

#[test]
fn scalar_override_user_wins() {
    let base = yaml("listen:\n  dns:\n    port: 53\n");
    let overlay = yaml("listen:\n  dns:\n    port: 5353\n");
    let merged = deep_merge(base, overlay);
    assert!(is_number(at(&merged, &["listen", "dns", "port"]), "5353"));
}

#[test]
fn recursive_map_merge_preserves_both_keys() {
    let base = yaml("listen:\n  dns:\n    port: 53\n    enabled: true\n");
    let overlay = yaml("listen:\n  dns:\n    port: 5353\n");
    let merged = deep_merge(base, overlay);
    assert!(is_number(at(&merged, &["listen", "dns", "port"]), "5353"));
    assert!(matches!(at(&merged, &["listen", "dns", "enabled"]), Yaml::Bool(true)));
}

#[test]
fn array_replacement_user_array_wins() {
    let base = yaml("blocklists:\n  - name: a\n    url: http://a\n");
    let overlay = yaml("blocklists:\n  - name: b\n    url: http://b\n");
    let merged = deep_merge(base, overlay);
    match at(&merged, &["blocklists"]) {
        Yaml::Sequence(list) => {
            assert_eq!(list.len(), 1);
            assert!(matches!(at(&list[0], &["name"]), Yaml::Text(n) if n == "b"));
        }
        other => panic!("no sequence: {other:?}"),
    }
}

#[test]
fn missing_section_filled_from_base() {
    let base = yaml("listen:\n  dns:\n    port: 53\nlogging:\n  stdout:\n    enabled: true\n");
    let overlay = yaml("listen:\n  dns:\n    port: 5353\n");
    let merged = deep_merge(base, overlay);
    assert!(is_number(at(&merged, &["listen", "dns", "port"]), "5353"));
    assert!(matches!(at(&merged, &["logging", "stdout", "enabled"]), Yaml::Bool(true)));
}

#[test]
fn empty_overlay_gets_full_base() {
    let base = yaml("listen:\n  dns:\n    port: 53\n");
    let overlay = yaml("{}");
    let merged = deep_merge(base, overlay);
    assert!(is_number(at(&merged, &["listen", "dns", "port"]), "53"));
}

#[test]
fn extra_user_keys_preserved() {
    let base = yaml("listen:\n  dns:\n    port: 53\n");
    let overlay = yaml("listen:\n  dns:\n    port: 53\ncustom_key: custom_value\n");
    let merged = deep_merge(base, overlay);
    assert!(matches!(at(&merged, &["custom_key"]), Yaml::Text(v) if v == "custom_value"));
}

const EXAMPLE: &str = "listen:\n  dns:\n    enabled: true\n    port: 53\nblocklists:\n  - ads:\n      url: http://ads\n  - malware:\n      url: http://malware\n";

#[test]
fn merge_with_example_produces_valid_yaml() {
    let user = "listen:\n  dns:\n    enabled: true\n    port: 5353\n";
    let merged = merge_with_example(EXAMPLE, user).expect("merge should succeed");
    assert!(merged.contains("5353"), "user port should be in output");
    assert!(merged.contains("blocklists"), "blocklists section should be filled from example");
}

#[test]
fn merge_with_example_user_blocklists_replace() {
    let user = "blocklists:\n  - my_list:\n      url: http://my.list\n      enabled: true\n";
    let merged = yaml(&merge_with_example(EXAMPLE, user).unwrap());
    assert!(matches!(at(&merged, &["blocklists"]), Yaml::Sequence(lists) if lists.len() == 1));
}

#[test]
fn overlaid_keys_go_to_the_end() {
    assert_eq!(
        merge_with_example("b: 1\na: 2\n", "c: 3\na: 4\n").unwrap(),
        "b: 1\nc: 3\na: 4\n"
    );
}

#[test]
fn an_empty_document_omits_every_section() {
    for empty in ["", "\n", "# nothing but a comment\n", "---\n", "~\n"] {
        assert_eq!(merge_with_example("a: 1\n", empty).unwrap(), "a: 1\n");
        let merged = yaml(&merge_with_example(EXAMPLE, empty).unwrap());
        assert!(is_same(&merged, &yaml(EXAMPLE)));
    }
    let merged = merge_documents(Ok(yaml("a: 1")), Ok(Yaml::Null)).unwrap();
    assert!(is_same(&merged, &yaml("a: 1")));
    // Inside of a document, null is a value.
    assert_eq!(merge_with_example("a: {b: 1}\nc: 2\n", "a: ~\n").unwrap(), "c: 2\na: null\n");
}

#[test]
fn documents_that_are_no_yaml_are_errors() {
    let err = merge_with_example(EXAMPLE, "a: [").unwrap_err();
    assert_eq!(err.context, "failed to parse user config file");
    let err = merge_with_example("a: [", "a: 1").unwrap_err();
    assert_eq!(err.context, "failed to parse embedded example config (this is a bug)");
    let err = merge_documents(Ok(Yaml::Null), Err("bad".to_string())).unwrap_err();
    assert_eq!(err.source, "bad");
}

#[test]
fn mappings_are_the_same_in_any_order() {
    assert!(is_same(&yaml("{a: 1, b: [x, ~]}"), &yaml("{b: [x, null], a: 1}")));
    assert!(!is_same(&yaml("[1, 2]"), &yaml("[2, 1]")));
    assert!(!is_same(&yaml("1"), &yaml("'1'")));
    assert!(!is_same(&yaml("!a x"), &yaml("!b x")));
    assert!(is_same(&yaml("!a x"), &yaml("!a x")));
}

// ---- listeners and lists ----

fn cert() -> TlsConfig {
    TlsConfig { cert_path: "c".to_string(), key_path: "k".to_string(), autogenerate: None }
}

fn socket(enabled: bool, port: Option<u16>) -> SocketConfigRaw {
    SocketConfigRaw { enabled, addresses: vec![], port }
}

#[test]
fn enabled_listeners_need_a_port() {
    assert_eq!(SocketConfig::from_raw(socket(true, Some(53))).unwrap().port, 53);
    assert_eq!(SocketConfig::from_raw(socket(true, None)).unwrap_err(), MissingField::Port);
    assert!(!SocketConfig::from_raw(socket(false, None)).unwrap().enabled);
}

#[test]
fn enabled_secure_listeners_need_a_certificate() {
    let raw = |enabled, port, tls| TlsSocketConfigRaw { enabled, addresses: vec![], port, tls };
    assert_eq!(
        TlsSocketConfig::from_raw(raw(true, Some(853), None)).unwrap_err(),
        MissingField::Tls
    );
    assert_eq!(
        TlsSocketConfig::from_raw(raw(true, None, Some(cert()))).unwrap_err(),
        MissingField::Port
    );
    let given = TlsSocketConfig::from_raw(raw(true, Some(853), Some(cert()))).unwrap();
    assert_eq!((given.port, given.tls.cert_path.as_str()), (853, "c"));
    assert!(TlsSocketConfig::from_raw(raw(false, None, None)).is_ok());
    assert_eq!(MissingField::Tls.name(), "tls");
}

#[test]
fn metrics_need_a_port_and_admin_has_one() {
    let raw = |port| MetricsConfigRaw { enabled: true, addresses: vec![], port, tls: None };
    assert_eq!(MetricsConfig::from_raw(raw(Some(9090))).unwrap().port, 9090);
    assert_eq!(MetricsConfig::from_raw(raw(None)).unwrap_err(), MissingField::Port);
    let admin = AdminConfig::from_raw(AdminConfigRaw {
        enabled: true,
        addresses: vec![],
        port: None,
        tls_port: 8443,
        tls: None,
    });
    assert_eq!((admin.port, admin.tls_port), (80, 8443));
}

#[test]
fn one_address_stands_for_a_list() {
    assert_eq!(addresses(OneOrMany::One("::1".to_string())), vec!["::1".to_string()]);
    let many = vec!["0.0.0.0".to_string(), "::".to_string()];
    assert_eq!(addresses(OneOrMany::Many(many)), default_public_addresses());
    assert_eq!(default_bootstrap_resolvers(), vec!["1.1.1.1".to_string()]);
    assert_eq!(default_strategy(), "round_robin");
}

#[test]
fn lists_are_named_by_field_or_by_key() {
    let entry = || NamedListEntry {
        url: "http://ads".to_string(),
        interval: Some("12h".to_string()),
        enabled: Some(false),
        list_type: None,
    };
    let nested = NamedListRepr::Nested(vec![("ads".to_string(), entry())]);
    let list = NamedList::from_repr(nested).unwrap();
    assert_eq!((list.name.as_str(), list.url.as_str()), ("ads", "http://ads"));
    assert_eq!((list.interval.as_deref(), list.enabled), (Some("12h"), Some(false)));
    assert_eq!(
        NamedList::from_repr(NamedListRepr::Nested(vec![])).unwrap_err(),
        "named list map must contain exactly one item"
    );
    let two = NamedListRepr::Nested(vec![("a".to_string(), entry()), ("b".to_string(), entry())]);
    assert!(NamedList::from_repr(two).is_err());
}

#[test]
fn servers_have_defaults() {
    let zone = ZoneServerConfig::default();
    assert_eq!(zone.max_hops, None);
    let upstream = UpstreamServer::default();
    assert_eq!(upstream.fwmark, None);
}

// ---- reports ----

#[test]
fn failures_name_the_place_and_a_hint() {
    assert_eq!(cached_path(), "<cached>");
    let report = parse_failure(
        "/c.yaml",
        Some(Location { line: 3, column: 5 }),
        "logging.stdout",
        "missing field `level`",
    );
    assert_eq!(
        report,
        format!(
            "Could not parse the config file.\n  File: /c.yaml\n  Location: line 3, column 5\n  Field: logging.stdout\n  Reason: missing field `level`\n  Hint: {}",
            hint_for_path("logging")
        )
    );
    let report = parse_failure("/c.yaml", None, ".", "x");
    assert!(!report.contains("Location"));
    assert!(unreadable("/c.yaml", "gone").contains("Reason: gone"));
}

#[test]
fn hints_follow_the_section() {
    assert!(hint_for_path("blocklists[0]").starts_with("Use either"));
    assert!(hint_for_path("listen.dns").starts_with("Check listener fields"));
    assert!(hint_for_path("resolvers.zones[0]").starts_with("Check each zone"));
    assert!(hint_for_path("resolvers.servers").contains("default: 1.1.1.1"));
    assert!(hint_for_path("x").starts_with("Check YAML indentation"));
}
