use phish_detector::detector::PhishingDetector;
use phish_detector::url_pattern;

#[test]
fn lure_path_of_eight_letters_matches() {
    assert!(url_pattern::matches("https://trueton.xyz/abcdefgh"));
    assert!(url_pattern::matches("http://a/ABCDefgh"));
    assert!(url_pattern::matches("https://trueton.xyz/somesome"));
}

#[test]
fn non_letter_segment_does_not_match() {
    assert!(!url_pattern::matches("https://trueton.xyz/ab12cdef"));
}

#[test]
fn trailing_slash_does_not_match() {
    assert!(!url_pattern::matches("https://trueton.xyz/abcdefgh/"));
}

#[test]
fn query_does_not_match() {
    assert!(!url_pattern::matches("https://trueton.xyz/abcdefgh?x=1"));
    assert!(!url_pattern::matches("https://trueton.xyz/abcdefgh?"));
    assert!(!url_pattern::matches("https://a.xyz/?r=https://b.xyz/abcdefgh"));
}

#[test]
fn shape_must_start_the_text() {
    assert!(!url_pattern::matches("xhttps://trueton.xyz/abcdefgh"));
    assert!(!url_pattern::matches(" https://trueton.xyz/abcdefgh"));
    assert!(!url_pattern::matches("https://a.xyz/#https://b.xyz/abcdefgh"));
}

#[test]
fn other_lengths_do_not_match() {
    assert!(!url_pattern::matches("https://trueton.xyz/abcdefg"));
    assert!(!url_pattern::matches("https://trueton.xyz/abcdefghi"));
}

#[test]
fn additional_segments_do_not_match() {
    assert!(!url_pattern::matches("https://trueton.xyz/login/abcdefgh"));
}

#[test]
fn missing_scheme_or_host_does_not_match() {
    assert!(!url_pattern::matches("trueton.xyz/abcdefgh"));
    assert!(!url_pattern::matches("https:///abcdefgh"));
    assert!(!url_pattern::matches("ftp://trueton.xyz/abcdefgh"));
    assert!(!url_pattern::matches(""));
}

#[test]
fn detector_reports_lure_shape() {
    let d = PhishingDetector::new("key").unwrap();
    assert!(d.is_suspicious_url("https://trueton.xyz/abcdefgh"));
    assert!(!d.is_suspicious_url("https://trueton.xyz/"));
    assert!(matches!(d.check_domain_levalgo(&"trueton.xyz".to_string()), Ok(false)));
}
