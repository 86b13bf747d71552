use phish_detector::certificate::{
    inspect_chain, issuer_is_flagged, folded_issuer_flagged, tls_signal, RawCertificate,
};
use phish_detector::detector::{parse_target, PhishingDetector};
use phish_detector::domain_age::{age_days, domain_age_days, domain_signal};
use phish_detector::error::{Error, ErrorCategory};
use phish_detector::origin::{apex_domain, main_page_signal, main_page_url, reachable_from_status};
use phish_detector::text::contains_text;
use phish_detector::verdict::SignalResult;

fn cert(issuer: Option<&str>, from: &str, until: &str) -> RawCertificate {
    RawCertificate {
        issuer_entry: issuer.map(|s| s.to_string()),
        not_before: from.to_string(),
        not_after: until.to_string(),
    }
}

fn sample_chain() -> Vec<RawCertificate> {
    vec![
        cert(Some("R3"), "Mar 13 00:00:00 2024 GMT", "Jun 11 23:59:59 2024 GMT"),
        cert(Some("Let's Encrypt"), "Mar 13 00:00:00 2024 GMT", "Jun 11 23:59:59 2024 GMT"),
        cert(None, "Mar 13 00:00:00 2024 GMT", "Jun 11 23:59:59 2024 GMT"),
    ]
}

#[test]
fn issuer_match_is_case_insensitive_substring() {
    assert!(issuer_is_flagged("Let's Encrypt Authority X3"));
    assert!(issuer_is_flagged("LETS ENCRYPT"));
    assert!(issuer_is_flagged("xlettuceencryptor"));
    assert!(!issuer_is_flagged("DigiCert Inc"));
    assert!(!issuer_is_flagged("Encrypt Only"));
}

#[test]
fn folded_label_is_matched_as_given() {
    assert!(folded_issuer_flagged("let's encrypt"));
    assert!(!folded_issuer_flagged("LET'S ENCRYPT"));
    assert!(contains_text("abc", ""));
    assert!(!contains_text("ab", "abc"));
}

#[test]
fn chain_is_read_into_records() {
    let records = inspect_chain(&sample_chain()).unwrap();
    assert_eq!(records.len(), 3);
    assert_eq!(records[0].issuer_label, "R3");
    assert_eq!(records[2].issuer_label, "Unknown Issuer");
    assert_eq!(records[0].valid_from, 1710288000);
    assert_eq!(records[0].valid_until, 1718150399);
    assert_eq!(records[1].validity_duration(), 1718150399 - 1710288000);
}

#[test]
fn inspection_is_deterministic() {
    let chain = sample_chain();
    let a = inspect_chain(&chain);
    let b = inspect_chain(&chain);
    let (ra, rb) = (a.as_ref().unwrap(), b.as_ref().unwrap());
    assert_eq!(ra.len(), rb.len());
    for (x, y) in ra.iter().zip(rb.iter()) {
        assert_eq!(x.issuer_label, y.issuer_label);
        assert_eq!(x.valid_from, y.valid_from);
        assert_eq!(x.valid_until, y.valid_until);
    }
    assert_eq!(tls_signal(&a), SignalResult::Detected);
    assert_eq!(tls_signal(&b), SignalResult::Detected);
}

#[test]
fn chain_without_flagged_issuer_is_not_detected() {
    let chain = vec![cert(Some("DigiCert Inc"), "Mar 13 00:00:00 2024 GMT", "Jun 11 23:59:59 2024 GMT")];
    assert_eq!(tls_signal(&inspect_chain(&chain)), SignalResult::NotDetected);
}

#[test]
fn empty_chain_is_an_error() {
    let r = inspect_chain(&Vec::new());
    assert!(matches!(r, Err(Error::NoCertificateChain)));
    assert_eq!(tls_signal(&r), SignalResult::Indeterminate(ErrorCategory::NoCertificateChain));
}

#[test]
fn unreadable_date_fails_whole_chain() {
    let mut chain = sample_chain();
    chain.push(cert(Some("X"), "yesterday", "Jun 11 23:59:59 2024 GMT"));
    let r = inspect_chain(&chain);
    assert!(matches!(r, Err(Error::CertificateDateFormat(_))));
    assert_eq!(tls_signal(&r), SignalResult::Indeterminate(ErrorCategory::CertificateDateFormat));
}

#[test]
fn reversed_window_is_unreadable() {
    let chain = vec![cert(Some("X"), "Jun 11 23:59:59 2024 GMT", "Mar 13 00:00:00 2024 GMT")];
    assert!(matches!(inspect_chain(&chain), Err(Error::CertificateDateFormat(_))));
}

#[test]
fn network_failure_is_indeterminate_not_negative() {
    let r = Err(Error::NetworkError("connection refused".to_string()));
    assert_eq!(tls_signal(&r), SignalResult::Indeterminate(ErrorCategory::Network));
}

const ANSWER: &str = r#"{"current_dns":{"a":{"first_seen":"2024-01-31"}}}"#;

#[test]
fn domain_first_seen_today_is_detected() {
    let age = domain_age_days(ANSWER, 738916);
    assert_eq!(age.as_ref().unwrap(), &0);
    assert_eq!(domain_signal(&age), SignalResult::Detected);
}

#[test]
fn domain_first_seen_thirty_days_ago_is_not_detected() {
    let age = domain_age_days(ANSWER, 738946);
    assert_eq!(age.as_ref().unwrap(), &30);
    assert_eq!(domain_signal(&age), SignalResult::NotDetected);
    assert_eq!(domain_signal(&Ok(29)), SignalResult::Detected);
}

#[test]
fn negative_age_is_a_clock_anomaly() {
    let age = domain_age_days(ANSWER, 738915);
    assert_eq!(age.as_ref().unwrap(), &-1);
    assert_eq!(domain_signal(&age), SignalResult::Indeterminate(ErrorCategory::ClockAnomaly));
    assert_eq!(age_days(10, 3), -7);
}

#[test]
fn malformed_domain_answers_are_parse_errors() {
    for body in [
        "not json",
        r#"{"current_dns":{"a":{}}}"#,
        r#"{"current_dns":{"a":{"first_seen":"31/01/2024"}}}"#,
        r#"{"current_dns":{"a":{"first_seen":20240131}}}"#,
    ] {
        let r = domain_age_days(body, 738916);
        assert!(matches!(r, Err(Error::ParseError(_))), "{}", body);
        assert_eq!(domain_signal(&r), SignalResult::Indeterminate(ErrorCategory::Parse));
    }
}

#[test]
fn clock_failure_is_indeterminate() {
    let r: Result<i64, Error> = Err(Error::ClockAnomaly);
    assert_eq!(domain_signal(&r), SignalResult::Indeterminate(ErrorCategory::ClockAnomaly));
    assert_eq!(Error::ClockAnomaly.message(), "system clock out of range");
}

#[test]
fn apex_is_last_two_labels_literally() {
    assert_eq!(apex_domain("a.b.example.co.uk").unwrap(), "co.uk");
    assert_eq!(apex_domain("sub.example.com").unwrap(), "example.com");
    assert_eq!(apex_domain("example.com").unwrap(), "example.com");
}

#[test]
fn host_with_one_label_is_malformed() {
    assert!(matches!(apex_domain("localhost"), Err(Error::MalformedHost(_))));
    assert!(matches!(apex_domain(""), Err(Error::MalformedHost(_))));
}

#[test]
fn main_page_reachability() {
    assert_eq!(main_page_url("example.com"), "https://example.com/");
    assert!(reachable_from_status(Some(200)));
    assert!(reachable_from_status(Some(299)));
    assert!(!reachable_from_status(Some(301)));
    assert!(!reachable_from_status(Some(404)));
    assert!(!reachable_from_status(None));
    assert_eq!(main_page_signal(&Ok(false)), SignalResult::Detected);
    assert_eq!(main_page_signal(&Ok(true)), SignalResult::NotDetected);
    assert_eq!(
        main_page_signal(&Err(Error::MalformedHost("x".to_string()))),
        SignalResult::Indeterminate(ErrorCategory::MalformedHost)
    );
}

#[test]
fn target_takes_the_url_host() {
    let t = parse_target("https://login.trueton.xyz/abcdefgh").unwrap();
    assert_eq!(t.host, "login.trueton.xyz");
    assert_eq!(t.url, "https://login.trueton.xyz/abcdefgh");
    assert!(matches!(parse_target("not a url"), Err(Error::ParseError(m)) if m == "Invalid URL structure!"));
}

#[test]
fn target_with_one_label_host_is_rejected() {
    assert!(matches!(
        parse_target("https://localhost/abcdefgh"),
        Err(Error::ParseError(m)) if m == "Host has too few labels!"
    ));
    assert!(parse_target("https://example.com/").is_ok());
}

#[test]
fn domain_answer_errors_carry_their_messages() {
    assert!(matches!(
        domain_age_days(r#"{"current_dns":{"a":{}}}"#, 738916),
        Err(Error::ParseError(m)) if m == "Missing `first_seen` date"
    ));
    assert!(matches!(
        domain_age_days(r#"{"current_dns":{"a":{"first_seen":"2024/01/05"}}}"#, 738916),
        Err(Error::ParseError(m)) if m == "Invalid `first_seen` date format"
    ));
}

#[test]
fn certificate_date_errors_carry_their_messages() {
    let bad_start = vec![cert(None, "soon", "Jun 11 23:59:59 2024 GMT")];
    assert!(matches!(inspect_chain(&bad_start), Err(Error::CertificateDateFormat(m)) if m == "Invalid certificate start date"));
    let bad_end = vec![cert(None, "Mar 13 00:00:00 2024 GMT", "later")];
    assert!(matches!(inspect_chain(&bad_end), Err(Error::CertificateDateFormat(m)) if m == "Invalid certificate expiry date"));
}

#[test]
fn api_key_must_be_a_header_value() {
    assert_eq!(PhishingDetector::new("abc123").unwrap().api_key(), "abc123");
    assert!(matches!(PhishingDetector::new("bad\nkey"), Err(Error::ParseError(m)) if m == "Invalid API key"));
}

#[test]
fn error_helpers() {
    let e = Error::custom("boom");
    assert!(matches!(&e, Error::Custom(m) if m == "boom"));
    assert_eq!(e.category(), ErrorCategory::Custom);
    assert_eq!(e.message(), "boom");
    assert_eq!(Error::NoCertificateChain.message(), "no certificate chain presented");
    assert!(matches!(Error::from("oops"), Error::Custom(m) if m == "oops"));
    assert!(matches!(Error::from("late".to_string()), Error::Custom(m) if m == "late"));
}
