use domain_liveness::probe::{
    check_dns, check_whois, last_label_of, top_level_domain, whois_server_for, whois_server_in, ProbeFailure,
};
use domain_liveness::sink::{destination, output_path, parse_exclusion, Verdict};
use domain_liveness::target::{normalize, probe_url, scheme_given, select_targets};
use domain_liveness::text::{is_blank, same_text, starts_with};

#[test]
fn text_helpers() {
    assert!(starts_with("http://x", "http://"));
    assert!(!starts_with("http:/", "http://"));
    assert!(starts_with("abc", ""));
    assert!(is_blank(""));
    assert!(is_blank(" \t\r\n"));
    assert!(!is_blank("  a "));
    assert!(same_text("ACTIVE", "ACTIVE"));
    assert!(!same_text("ACTIVE", "ACTIVe"));
}

#[test]
fn bare_domain_gets_http_scheme_and_itself_as_host() {
    let t = normalize("example.com");
    assert_eq!(t.probe_url, "http://example.com");
    assert_eq!(t.host, Some("example.com".to_string()));
}

#[test]
fn url_keeps_its_text_and_gives_its_host() {
    let t = normalize("https://example.com/path?q=1");
    assert_eq!(t.probe_url, "https://example.com/path?q=1");
    assert_eq!(t.host, Some("example.com".to_string()));
    let t = normalize("http://sub.example.org:8080/");
    assert_eq!(t.host, Some("sub.example.org".to_string()));
}

#[test]
fn unparseable_host_is_absent() {
    let t = normalize("exa mple.com");
    assert_eq!(t.probe_url, "http://exa mple.com");
    assert_eq!(t.host, None);
    assert_eq!(normalize("http://").host, None);
}

#[test]
fn scheme_detection() {
    assert!(scheme_given("http://a"));
    assert!(scheme_given("https://a"));
    assert!(!scheme_given("ftp://a"));
    assert_eq!(probe_url("ftp://a"), "http://ftp://a");
}

#[test]
fn blank_lines_are_skipped() {
    let lines: Vec<String> = vec!["a.com", "", "  ", "https://b.org", "\t"].into_iter().map(String::from).collect();
    assert_eq!(select_targets(&lines), vec!["a.com".to_string(), "https://b.org".to_string()]);
    assert!(select_targets(&Vec::new()).is_empty());
}

#[test]
fn exclusion_parsing() {
    assert_eq!(parse_exclusion("ACTIVE"), Some(Verdict::Active));
    assert_eq!(parse_exclusion("INACTIVE"), Some(Verdict::Inactive));
    assert_eq!(parse_exclusion(""), None);
    assert_eq!(parse_exclusion("inactive"), None);
}

#[test]
fn output_paths_and_destinations() {
    assert_eq!(output_path("out", Verdict::Active), "out_ACTIVE.txt");
    assert_eq!(output_path("res/run", Verdict::Inactive), "res/run_INACTIVE.txt");
    assert_eq!(Verdict::Active.label(), "ACTIVE");
    assert_eq!(destination("out", Verdict::Inactive, Some(Verdict::Inactive)), None);
    assert_eq!(destination("out", Verdict::Active, Some(Verdict::Inactive)), Some("out_ACTIVE.txt".to_string()));
    assert_eq!(destination("out", Verdict::Inactive, None), Some("out_INACTIVE.txt".to_string()));
}

#[test]
fn dns_outcomes() {
    assert_eq!(check_dns(Ok(())), Ok(()));
    assert_eq!(check_dns(Err("NXDOMAIN".to_string())), Err(ProbeFailure::Resolution("NXDOMAIN".to_string())));
}

#[test]
fn top_level_domains() {
    assert_eq!(last_label_of("example.co.uk"), "uk");
    assert_eq!(last_label_of("localhost"), "localhost");
    assert_eq!(last_label_of("trailing."), "");
    assert_eq!(top_level_domain("example.com"), Some("com".to_string()));
    assert_eq!(top_level_domain("Example.CO.UK"), Some("uk".to_string()));
    assert_eq!(top_level_domain("192.168.0.1"), None);
    assert_eq!(top_level_domain("exa mple.com"), None);
}

fn table() -> Vec<(String, String)> {
    vec![
        ("com".to_string(), "whois.verisign-grs.com".to_string()),
        ("org".to_string(), "whois.pir.org".to_string()),
        ("com".to_string(), "shadowed.example".to_string()),
    ]
}

#[test]
fn whois_server_selection() {
    assert_eq!(whois_server_in(&table(), "com"), Some("whois.verisign-grs.com".to_string()));
    assert_eq!(whois_server_in(&table(), "net"), None);
    assert_eq!(whois_server_for("example.org", &table()), Ok("whois.pir.org".to_string()));
    assert_eq!(whois_server_for("example.net", &table()), Err(ProbeFailure::NoWhoisServer("net".to_string())));
    assert_eq!(whois_server_for("exa mple.com", &table()), Err(ProbeFailure::Parse("exa mple.com".to_string())));
}

#[test]
fn whois_outcomes() {
    assert_eq!(check_whois("s", Ok("Domain Name: EXAMPLE.COM".to_string())), Ok(()));
    assert_eq!(check_whois("s", Ok(String::new())), Err(ProbeFailure::EmptyRecord("s".to_string())));
    assert_eq!(
        check_whois("s", Err("refused".to_string())),
        Err(ProbeFailure::WhoisUnreachable("refused".to_string()))
    );
}
