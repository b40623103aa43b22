use domain_liveness::classifier::{Action, Event, Stage, Workflow};
use domain_liveness::sink::Verdict;
use domain_liveness::status::{active_code, check_http, classify_status, inactive_code, www_host, StatusClass};

fn run_workflow(host_present: bool, http: (bool, bool), dns_ok: bool, whois_ok: bool) -> (Verdict, Vec<Action>) {
    let mut w = Workflow::new(host_present);
    let mut asked = Vec::new();
    let mut a = w.step(Event::Begin);
    loop {
        let e = match a {
            Action::ProbeHttp => Event::Http { is_active: http.0, redirected_to_www: http.1 },
            Action::ProbeDns => Event::Dns(dns_ok),
            Action::ProbeWhois => Event::Whois(whois_ok),
            Action::Record(v) => return (v, asked),
            Action::Wait => panic!("workflow stalled"),
        };
        asked.push(a);
        a = w.step(e);
    }
}

#[test]
fn active_codes_are_read_as_live() {
    for c in [200u16, 201, 206, 300, 304, 307, 308, 401, 403, 405, 409, 410, 429, 500, 505] {
        assert!(active_code(c), "{}", c);
    }
    for c in [199u16, 207, 305, 306, 400, 402, 404, 411, 418, 451, 499, 506] {
        assert!(!active_code(c), "{}", c);
    }
}

#[test]
fn inactive_codes_are_read_as_dead() {
    assert!(inactive_code(404));
    assert!(inactive_code(410));
    assert!(inactive_code(451));
    assert!(!inactive_code(200));
    assert!(!inactive_code(418));
}

#[test]
fn status_classes() {
    assert_eq!(classify_status(200), StatusClass::Active);
    assert_eq!(classify_status(404), StatusClass::Inactive);
    assert_eq!(classify_status(410), StatusClass::Active);
    assert_eq!(classify_status(451), StatusClass::Inactive);
    assert_eq!(classify_status(418), StatusClass::Ambiguous);
}

#[test]
fn http_evidence_reads_code_and_final_host() {
    assert_eq!(check_http(200, Some("example.com")), (true, false));
    assert_eq!(check_http(418, Some("www.example.com")), (false, true));
    assert_eq!(check_http(404, Some("example.com")), (false, false));
    assert_eq!(check_http(404, None), (false, false));
    assert!(!www_host(Some("ww.example.com")));
    assert!(!www_host(Some("www")));
    assert!(www_host(Some("www.")));
}

#[test]
fn status_200_is_active_on_http_alone() {
    let (v, asked) = run_workflow(true, check_http(200, Some("example.com")), false, false);
    assert_eq!(v, Verdict::Active);
    assert_eq!(asked, vec![Action::ProbeHttp]);
}

#[test]
fn status_404_falls_through_and_dns_failure_is_inactive() {
    let (v, asked) = run_workflow(true, check_http(404, Some("example.com")), false, true);
    assert_eq!(v, Verdict::Inactive);
    assert_eq!(asked, vec![Action::ProbeHttp, Action::ProbeDns]);
}

#[test]
fn status_403_is_active_whatever_dns_and_whois_say() {
    for dns_ok in [false, true] {
        for whois_ok in [false, true] {
            let (v, asked) = run_workflow(true, check_http(403, Some("example.com")), dns_ok, whois_ok);
            assert_eq!(v, Verdict::Active);
            assert_eq!(asked, vec![Action::ProbeHttp]);
        }
    }
}

#[test]
fn timeout_with_dns_and_whois_is_active() {
    let (v, asked) = run_workflow(true, (false, false), true, true);
    assert_eq!(v, Verdict::Active);
    assert_eq!(asked, vec![Action::ProbeHttp, Action::ProbeDns, Action::ProbeWhois]);
}

#[test]
fn failed_http_and_nxdomain_is_inactive_without_whois() {
    let (v, asked) = run_workflow(true, (false, false), false, true);
    assert_eq!(v, Verdict::Inactive);
    assert!(!asked.contains(&Action::ProbeWhois));
}

#[test]
fn dns_without_whois_record_is_inactive() {
    let (v, _) = run_workflow(true, (false, false), true, false);
    assert_eq!(v, Verdict::Inactive);
}

#[test]
fn www_redirect_alone_is_active() {
    let (v, _) = run_workflow(true, check_http(418, Some("www.example.com")), false, false);
    assert_eq!(v, Verdict::Active);
}

#[test]
fn no_host_and_silent_http_is_inactive() {
    let (v, asked) = run_workflow(false, (false, false), true, true);
    assert_eq!(v, Verdict::Inactive);
    assert_eq!(asked, vec![Action::ProbeHttp]);
}

#[test]
fn unexpected_event_changes_nothing() {
    let mut w = Workflow::new(true);
    assert_eq!(w.step(Event::Dns(true)), Action::Wait);
    assert_eq!(w.stage, Stage::Start);
    assert_eq!(w.verdict(), None);
    assert_eq!(w.step(Event::Begin), Action::ProbeHttp);
    assert_eq!(w.step(Event::Whois(true)), Action::Wait);
    assert_eq!(w.stage, Stage::AwaitingHttp);
    w.step(Event::Http { is_active: true, redirected_to_www: false });
    assert_eq!(w.verdict(), Some(Verdict::Active));
    assert_eq!(w.step(Event::Http { is_active: false, redirected_to_www: false }), Action::Wait);
    assert_eq!(w.verdict(), Some(Verdict::Active));
}
