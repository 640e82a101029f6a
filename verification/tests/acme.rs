use dns_filter::acme::account::{account_error, account_next, account_start, contact, AccountStep};
use dns_filter::acme::calendar::days_from_civil;
use dns_filter::acme::cloudflare::{
    candidates, deletion_url, dns_provider, env_reference, expand_env_var, record_created,
    record_deleted, record_request, CloudflareDnsProvider, ZoneList, ZoneSearch,
};
use dns_filter::acme::der::{parse_asn1_time, parse_x509_not_after};
use dns_filter::acme::duration::{is_representable, parse_duration};
use dns_filter::acme::error::{AcmeError, DnsProviderError};
use dns_filter::acme::flow::{AuthorizationStatus, Flow, FlowEvent, FlowPhase};
use dns_filter::acme::renewal::{
    cert_time_remaining, needs_renewal, plan_certificate, CertificatePlan, Renewal, RenewalAction,
    RenewalEvent, Span,
};

// ---- durations ----

#[test]
fn test_parse_duration_days() {
    let d = parse_duration("30d").unwrap();
    assert_eq!(d, 30 * 86400);
}

#[test]
fn test_parse_duration_hours() {
    let d = parse_duration("720h").unwrap();
    assert_eq!(d, 720 * 3600);
}

#[test]
fn test_parse_duration_minutes() {
    let d = parse_duration("45m").unwrap();
    assert_eq!(d, 45 * 60);
}

#[test]
fn test_parse_duration_seconds() {
    let d = parse_duration("120s").unwrap();
    assert_eq!(d, 120);
}

#[test]
fn test_parse_duration_invalid() {
    assert!(parse_duration("").is_err());
    assert!(parse_duration("abc").is_err());
    assert!(parse_duration("30x").is_err());
}

#[test]
fn durations_ignore_white_space_around_them() {
    assert_eq!(parse_duration(" 5m ").unwrap(), 300);
    assert!(is_representable("1d"));
    assert!(!is_representable("18446744073709551615d"));
}

#[test]
fn duration_errors_name_the_duration() {
    assert_eq!(
        parse_duration("30x").unwrap_err().message(),
        "invalid configuration: invalid duration '30x': must end with d, h, m, or s"
    );
    assert_eq!(
        parse_duration("xd").unwrap_err().message(),
        "invalid configuration: invalid duration 'xd': not a valid number"
    );
}

// ---- dates ----

#[test]
fn test_days_from_civil() {
    let d = days_from_civil(1970, 1, 1);
    assert!(d > 0);
}

#[test]
fn days_follow_one_another() {
    assert_eq!(days_from_civil(1970, 1, 1), 719468);
    assert_eq!(days_from_civil(2000, 3, 1) - days_from_civil(2000, 2, 29), 1);
    assert_eq!(days_from_civil(2024, 3, 1) - days_from_civil(2024, 2, 28), 2);
    assert_eq!(days_from_civil(1900, 3, 1) - days_from_civil(1900, 2, 28), 1);
    assert_eq!(days_from_civil(2025, 1, 1) - days_from_civil(2024, 1, 1), 366);
}

#[test]
fn test_parse_asn1_time_utctime() {
    let bytes = b"250101120000Z";
    let time = parse_asn1_time(0x17, bytes).unwrap();
    assert!(time > 1735700000);
    assert!(time < 1735740000);
}

#[test]
fn asn1_times_are_exact() {
    assert_eq!(parse_asn1_time(0x17, b"250101120000Z"), Some(1735732800));
    assert_eq!(parse_asn1_time(0x18, b"20250101120000Z"), Some(1735732800));
    assert_eq!(parse_asn1_time(0x18, b"19700101000000Z"), Some(0));
    assert_eq!(parse_asn1_time(0x16, b"250101120000Z"), None);
    assert_eq!(parse_asn1_time(0x17, b"2501"), None);
    assert_eq!(parse_asn1_time(0x17, b"\xff50101120000Z"), None);
}

fn tlv(tag: u8, content: &[u8]) -> Vec<u8> {
    let mut out = vec![tag];
    if content.len() < 128 {
        out.push(content.len() as u8);
    } else {
        out.push(0x82);
        out.push((content.len() / 256) as u8);
        out.push((content.len() % 256) as u8);
    }
    out.extend_from_slice(content);
    out
}

fn certificate(not_after: &[u8]) -> Vec<u8> {
    let mut validity = tlv(0x17, b"240101000000Z");
    validity.extend(tlv(0x17, not_after));
    let mut tbs = tlv(0xa0, &tlv(0x02, &[2]));
    tbs.extend(tlv(0x02, &[1]));
    tbs.extend(tlv(0x30, &[]));
    tbs.extend(tlv(0x30, &[0u8; 200]));
    tbs.extend(tlv(0x30, &validity));
    tlv(0x30, &tlv(0x30, &tbs))
}

#[test]
fn end_of_a_certificate_is_read() {
    assert_eq!(parse_x509_not_after(&certificate(b"250101120000Z")), Some(1735732800));
    assert_eq!(parse_x509_not_after(&[0x30, 0x03, 1, 2, 3]), None);
    assert_eq!(parse_x509_not_after(&[]), None);
}

#[test]
fn remaining_time_ends_with_the_certificate() {
    let chain = vec![certificate(b"250101120000Z")];
    let now = Span { secs: 1735732700, nanos: 0 };
    let left = cert_time_remaining(&chain, now).unwrap();
    assert_eq!(left.secs, 100);
    assert!(needs_renewal(Some(left), 200));
    assert!(!needs_renewal(Some(left), 50));
    assert!(needs_renewal(None, 1));
    assert!(cert_time_remaining(&chain, Span { secs: 1735732801, nanos: 0 }).is_none());
    assert!(cert_time_remaining(&vec![], now).is_none());
}

// ---- the provider ----

#[test]
fn test_expand_env_var_literal() {
    assert_eq!(expand_env_var("my-token-value", None), "my-token-value");
}

#[test]
fn test_expand_env_var_env_syntax() {
    assert_eq!(
        env_reference("${TEST_ACME_TOKEN_123}"),
        Some("TEST_ACME_TOKEN_123".to_string())
    );
    assert_eq!(
        expand_env_var("${TEST_ACME_TOKEN_123}", Some("secret-value".to_string())),
        "secret-value"
    );
}

#[test]
fn test_expand_env_var_missing_env() {
    assert_eq!(expand_env_var("${NONEXISTENT_VAR_XYZ_ACME_TEST}", None), "");
}

#[test]
fn test_expand_env_var_partial_syntax() {
    assert_eq!(expand_env_var("${INCOMPLETE", None), "${INCOMPLETE");
    assert_eq!(expand_env_var("prefix_${VAR}", None), "prefix_${VAR}");
}

#[test]
fn test_cloudflare_provider_empty_token_rejected() {
    let result = CloudflareDnsProvider::new(String::new(), None, None);
    assert!(result.is_err());
}

#[test]
fn test_cloudflare_provider_env_empty_rejected() {
    let result = CloudflareDnsProvider::new(
        "${NONEXISTENT_VAR_ACME_CLOUD_TEST}".to_string(),
        None,
        None,
    );
    assert!(result.is_err());
}

#[test]
fn provider_signs_its_requests() {
    let provider = CloudflareDnsProvider::new("t0ken".to_string(), None, None).unwrap();
    assert_eq!(provider.authorization(), "Bearer t0ken");
    assert!(dns_provider("cloudflare", "t".to_string(), None, None).is_ok());
    assert!(dns_provider("route53", "t".to_string(), None, None).is_err());
}

fn zones(ids: &[&str]) -> ZoneList {
    ZoneList {
        status: 200,
        success: true,
        errors: vec![],
        zone_ids: ids.iter().map(|i| i.to_string()).collect(),
    }
}

#[test]
fn zones_are_searched_from_the_longest_name() {
    assert_eq!(candidates("a.b.example.com"), vec!["a.b.example.com", "b.example.com", "example.com"]);
    let mut search = ZoneSearch::new("www.example.com");
    assert_eq!(
        search.next_url().unwrap(),
        "https://api.cloudflare.com/client/v4/zones?name=www.example.com&status=active"
    );
    search.answer(Ok(zones(&[])));
    assert_eq!(
        search.next_url().unwrap(),
        "https://api.cloudflare.com/client/v4/zones?name=example.com&status=active"
    );
    search.answer(Ok(zones(&["z1", "z2"])));
    assert_eq!(search.next_url(), None);
    assert_eq!(search.into_result().unwrap(), "z1");
}

#[test]
fn search_without_a_zone_names_the_domain() {
    let mut search = ZoneSearch::new("example.com");
    search.answer(Ok(zones(&[])));
    let error = search.into_result().unwrap_err();
    assert_eq!(error.message(), "zone not found for domain: example.com");
}

#[test]
fn search_ends_with_the_first_failure() {
    let mut search = ZoneSearch::new("a.example.com");
    search.answer(Err("no route".to_string()));
    assert_eq!(search.next_url(), None);
    assert_eq!(search.into_result().unwrap_err().message(), "HTTP request failed: no route");

    let mut search = ZoneSearch::new("a.example.com");
    search.answer(Ok(ZoneList {
        status: 403,
        success: false,
        errors: vec!["one".to_string(), "two".to_string()],
        zone_ids: vec![],
    }));
    assert_eq!(search.into_result().unwrap_err().message(), "API error (403): one; two");
}

#[test]
fn configured_zone_is_not_searched_for() {
    let set = CloudflareDnsProvider::new("t".to_string(), Some("z9".to_string()), None).unwrap();
    let search = set.resolve_zone_id("www.example.com");
    assert_eq!(search.next_url(), None);
    assert_eq!(search.into_result().unwrap(), "z9");
    let unset = CloudflareDnsProvider::new("t".to_string(), None, None).unwrap();
    let mut search = unset.resolve_zone_id("example.com");
    assert_eq!(
        search.next_url().unwrap(),
        "https://api.cloudflare.com/client/v4/zones?name=example.com&status=active"
    );
    search.answer(Ok(zones(&["z1"])));
    assert_eq!(search.into_result().unwrap(), "z1");
}

#[test]
fn created_record_can_be_deleted() {
    let request = record_request("z1", "example.com", "value");
    assert!(request.url.contains("z1"));
    assert_eq!(request.record_type, "TXT");
    assert_eq!(request.name, "_acme-challenge.example.com");
    assert_eq!((request.content.as_str(), request.ttl), ("value", 120));
    assert!(deletion_url("no separator").is_err());
    assert!(record_deleted(200, &vec![]).is_ok());
    assert!(record_deleted(500, &vec!["broken".to_string()]).is_err());
    let reply = dns_filter::acme::cloudflare::RecordReply {
        status: 200,
        success: true,
        errors: vec![],
        record_id: Some("r1".to_string()),
    };
    let key = record_created("z1", reply).unwrap();
    let url = deletion_url(&key).unwrap();
    assert!(url.contains("/zones/z1/dns_records/r1"));
}

// ---- the account ----

#[test]
fn account_is_restored_or_created() {
    assert_eq!(account_start(true), AccountStep::ReadCredentials);
    let mut step = account_start(false);
    let mut steps = vec![];
    while step != AccountStep::Ready {
        steps.push(step);
        step = account_next(step);
    }
    assert_eq!(
        steps,
        vec![
            AccountStep::BuildNew,
            AccountStep::Create,
            AccountStep::SerializeCredentials,
            AccountStep::SaveCredentials
        ]
    );
    assert_eq!(contact("a@example.com"), "mailto:a@example.com");
    assert_eq!(
        account_error(AccountStep::Restore, "x").message(),
        "ACME protocol error: failed to restore account: x"
    );
    assert_eq!(
        account_error(AccountStep::ParseCredentials, "x").message(),
        "invalid configuration: failed to parse account credentials: x"
    );
    assert_eq!(
        account_error(AccountStep::SaveCredentials, "x").message(),
        "certificate I/O error: x"
    );
}

// ---- the exchange ----

#[test]
fn exchange_installs_a_certificate() {
    let mut flow = Flow::start();
    assert_eq!(flow.phase(), FlowPhase::Account);
    flow.step(FlowEvent::Succeeded);
    assert_eq!(flow.phase(), FlowPhase::Order);
    flow.step(FlowEvent::Succeeded);
    flow.step(FlowEvent::Authorization { status: AuthorizationStatus::Pending, challenge: true });
    assert_eq!(flow.phase(), FlowPhase::Record);
    flow.step(FlowEvent::Created("z1:r1".to_string()));
    assert_eq!(flow.phase(), FlowPhase::Propagation);
    flow.step(FlowEvent::Succeeded);
    flow.step(FlowEvent::Succeeded);
    assert_eq!(flow.phase(), FlowPhase::Authorization);
    flow.step(FlowEvent::NoMoreAuthorizations);
    let mut deleted = vec![];
    while flow.phase() != FlowPhase::Done {
        match flow.phase() {
            FlowPhase::CleanUp => {
                deleted.push(flow.record_to_delete().unwrap().clone());
                flow.step(FlowEvent::Succeeded);
            }
            FlowPhase::Poll => flow.step(FlowEvent::Status { ready: true, name: "Ready".to_string() }),
            _ => flow.step(FlowEvent::Succeeded),
        }
    }
    assert_eq!(deleted, vec!["z1:r1".to_string()]);
    assert!(flow.into_result().is_ok());
}

#[test]
fn failed_exchange_still_cleans_up() {
    let mut flow = Flow::start();
    flow.step(FlowEvent::Succeeded);
    flow.step(FlowEvent::Succeeded);
    flow.step(FlowEvent::Authorization { status: AuthorizationStatus::Pending, challenge: true });
    flow.step(FlowEvent::Created("z1:r1".to_string()));
    flow.step(FlowEvent::Succeeded);
    flow.step(FlowEvent::Failed("nope".to_string()));
    assert_eq!(flow.phase(), FlowPhase::CleanUp);
    assert_eq!(flow.record_to_delete().unwrap(), "z1:r1");
    flow.step(FlowEvent::Succeeded);
    assert_eq!(flow.phase(), FlowPhase::Done);
    assert!(matches!(flow.into_result(), Err(AcmeError::Protocol(_))));
}

#[test]
fn errors_of_the_provider_are_passed_on() {
    let error = AcmeError::DnsProvider(DnsProviderError::ZoneNotFound("x.y".to_string()));
    assert_eq!(error.message(), "DNS provider error: zone not found for domain: x.y");
    assert_eq!(AcmeError::Expired.message(), "certificate expired and renewal failed");
    assert_eq!(AcmeError::Key("k".to_string()).message(), "TLS key error: k");
}

// ---- renewal ----

#[test]
fn certificate_on_disk_is_used_while_it_holds() {
    let long = Some(Span { secs: 90 * 86400, nanos: 0 });
    let short = Some(Span { secs: 86400, nanos: 0 });
    assert_eq!(plan_certificate(true, long, "30d").unwrap(), CertificatePlan::UseExisting);
    assert_eq!(plan_certificate(true, short, "30d").unwrap(), CertificatePlan::Obtain);
    assert_eq!(plan_certificate(true, None, "30d").unwrap(), CertificatePlan::Obtain);
    assert_eq!(plan_certificate(false, None, "nonsense").unwrap(), CertificatePlan::Obtain);
    assert!(plan_certificate(true, long, "nonsense").is_err());
}

#[test]
fn failures_make_the_wait_longer_up_to_a_day() {
    let mut task = Renewal::start("30d");
    assert_eq!(task.action(), RenewalAction::Sleep(43200));
    let mut waits = vec![];
    for _ in 0..6 {
        task.step(RenewalEvent::Elapsed { remaining: None });
        assert_eq!(task.action(), RenewalAction::Renew);
        task.step(RenewalEvent::Failed);
        match task.action() {
            RenewalAction::Sleep(s) => waits.push(s),
            other => panic!("unexpected {other:?}"),
        }
        task.step(RenewalEvent::Elapsed { remaining: None });
    }
    assert_eq!(waits, vec![3600, 7200, 14400, 28800, 57600, 86400]);
    task.step(RenewalEvent::Elapsed { remaining: Some(Span { secs: 90 * 86400, nanos: 0 }) });
    assert_eq!(task.backoff, 3600);
    task.step(RenewalEvent::Shutdown);
    assert_eq!(task.action(), RenewalAction::Stop);
    task.step(RenewalEvent::Elapsed { remaining: None });
    assert_eq!(task.action(), RenewalAction::Stop);
}

#[test]
fn unusable_duration_means_thirty_days() {
    assert_eq!(Renewal::start("soon").renew_before, 30 * 86400);
}

#[test]
fn both_forms_of_a_time_agree() {
    for (short, long) in [
        ("991231235959Z", "19991231235959Z"),
        ("491231235959Z", "20491231235959Z"),
        ("700101000000Z", "19700101000000Z"),
        ("691231235959Z", "19691231235959Z"),
        ("500101000000Z", "19500101000000Z"),
    ] {
        assert_eq!(
            parse_asn1_time(0x17, short.as_bytes()),
            parse_asn1_time(0x18, long.as_bytes())
        );
    }
    assert_eq!(parse_asn1_time(0x17, b"700101000000Z"), Some(0));
    assert_eq!(parse_asn1_time(0x17, b"691231235959Z"), None);
    assert_eq!(parse_asn1_time(0x16, b"700101000000Z"), None);
}
