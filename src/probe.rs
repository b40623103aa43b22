//! What the DNS and WHOIS probes decide around their network calls.
use vstd::prelude::*;
use vstd::string::*;
use crate::target::http_scheme;
use crate::text::{opt_view, same_text};

verus! {

/// Why a probe did not succeed.
#[derive(Clone, Debug, PartialEq, Eq)]
pub enum ProbeFailure {
    /// The HTTP exchange failed: connection, timeout or TLS.
    Transport(String),
    /// The host did not resolve.
    Resolution(String),
    /// The text cannot be read as a domain.
    Parse(String),
    /// No WHOIS server is known for this top-level domain.
    NoWhoisServer(String),
    /// The WHOIS server could not be queried.
    WhoisUnreachable(String),
    /// The WHOIS server answered with an empty record.
    EmptyRecord(String),
}

/// The domain of `s` read as an absolute URL, `None` where it does not parse
/// or its host is not a domain (an IP address, say).
pub uninterp spec fn url_domain_of(s: Seq<char>) -> Option<Seq<char>>;

/// Relies on `url::Url::parse` and `Url::domain`: the domain component of
/// `s` read as an absolute URL.
#[verifier::external_body]
fn url_domain(s: &str) -> (r: Option<String>)
    ensures
        opt_view(r) == url_domain_of(s@),
{
    url::Url::parse(s).ok().and_then(|u| u.domain().map(|d| d.to_string()))
}

/// The outcome of a DNS lookup: any answer is success, any error a
/// resolution failure that keeps the resolver's message.
pub fn check_dns(lookup: Result<(), String>) -> (r: Result<(), ProbeFailure>)
    ensures
        match lookup {
            Ok(()) => r == Ok::<(), ProbeFailure>(()),
            Err(e) => r == Err::<(), ProbeFailure>(ProbeFailure::Resolution(e)),
        },
{
    match lookup {
        Ok(()) => Ok(()),
        Err(e) => Err(ProbeFailure::Resolution(e)),
    }
}

/// Where the last label of `d` starts: just after its last `.`, or 0.
pub open spec fn label_start(d: Seq<char>) -> int
    decreases d.len(),
{
    if d.len() == 0 {
        0
    } else if d.last() == '.' {
        d.len() as int
    } else {
        label_start(d.drop_last())
    }
}

pub proof fn lemma_label_start_bounds(d: Seq<char>)
    ensures
        0 <= label_start(d) <= d.len(),
    decreases d.len(),
{
    if d.len() > 0 && d.last() != '.' {
        lemma_label_start_bounds(d.drop_last());
    }
}

/// The last label of a domain: its top-level domain.
pub open spec fn last_label(d: Seq<char>) -> Seq<char> {
    d.subrange(label_start(d), d.len() as int)
}

/// The top-level domain of `domain`, where `domain` reads as a domain.
pub open spec fn tld_of(domain: Seq<char>) -> Option<Seq<char>> {
    match url_domain_of(http_scheme() + domain) {
        Some(d) => Some(last_label(d)),
        None => None,
    }
}

/// The text after the last `.` of `d` (all of `d` where it has none).
pub fn last_label_of(d: &str) -> (r: String)
    ensures
        r@ == last_label(d@),
{
    let n = d.unicode_len();
    let mut i: usize = n;
    proof {
        assert(d@.subrange(0, n as int) =~= d@);
    }
    while i > 0 && d.get_char(i - 1) != '.'
        invariant
            n == d@.len(),
            i <= n,
            label_start(d@) == label_start(d@.subrange(0, i as int)),
        decreases i,
    {
        proof {
            let s = d@.subrange(0, i as int);
            assert(s.drop_last() =~= d@.subrange(0, i - 1));
        }
        i = i - 1;
    }
    proof {
        lemma_label_start_bounds(d@);
    }
    d.substring_char(i, n).to_string()
}

/// The top-level domain of a bare domain, `None` where it does not read as
/// a domain.
pub fn top_level_domain(domain: &str) -> (r: Option<String>)
    ensures
        opt_view(r) == tld_of(domain@),
{
    let mut u = String::from_str("http://");
    proof {
        reveal_strlit("http://");
    }
    assert(u@ =~= http_scheme());
    u.append(domain);
    match url_domain(u.as_str()) {
        Some(d) => Some(last_label_of(d.as_str())),
        None => None,
    }
}

/// The views of a table of (top-level domain, WHOIS server) entries.
pub open spec fn table_view(t: Seq<(String, String)>) -> Seq<(Seq<char>, Seq<char>)> {
    t.map_values(|e: (String, String)| (e.0@, e.1@))
}

/// Entry `i` is the first entry of `t` for `key`.
pub open spec fn first_entry(t: Seq<(Seq<char>, Seq<char>)>, key: Seq<char>, i: int) -> bool {
    &&& 0 <= i < t.len()
    &&& t[i].0 == key
    &&& forall|j: int| 0 <= j < i ==> t[j].0 != key
}

/// The server of the first entry for `key`, if any.
pub open spec fn server_in(t: Seq<(Seq<char>, Seq<char>)>, key: Seq<char>) -> Option<Seq<char>> {
    if exists|i: int| first_entry(t, key, i) {
        Some(t[choose|i: int| first_entry(t, key, i)].1)
    } else {
        None
    }
}

proof fn lemma_first_entry_unique(t: Seq<(Seq<char>, Seq<char>)>, key: Seq<char>, i: int, k: int)
    requires
        first_entry(t, key, i),
        first_entry(t, key, k),
    ensures
        i == k,
{
}

/// Looks `tld` up in the table of WHOIS servers; the first entry wins.
pub fn whois_server_in(table: &Vec<(String, String)>, tld: &str) -> (r: Option<String>)
    ensures
        opt_view(r) == server_in(table_view(table@), tld@),
{
    let ghost t = table_view(table@);
    let mut i: usize = 0;
    while i < table.len()
        invariant
            t == table_view(table@),
            i <= table@.len(),
            forall|j: int| 0 <= j < i ==> t[j].0 != tld@,
        decreases table.len() - i,
    {
        if same_text(table[i].0.as_str(), tld) {
            proof {
                assert(first_entry(t, tld@, i as int));
                let k = choose|k: int| first_entry(t, tld@, k);
                lemma_first_entry_unique(t, tld@, i as int, k);
            }
            return Some(table[i].1.clone());
        }
        i = i + 1;
    }
    proof {
        if exists|k: int| first_entry(t, tld@, k) {
            let k = choose|k: int| first_entry(t, tld@, k);
            assert(t[k].0 != tld@);
        }
    }
    None
}

/// The WHOIS server to ask about `domain`, or why there is none.
pub open spec fn whois_plan(domain: Seq<char>, t: Seq<(Seq<char>, Seq<char>)>) -> Result<Seq<char>, Seq<char>> {
    match tld_of(domain) {
        None => Err(domain),
        Some(tld) => match server_in(t, tld) {
            Some(s) => Ok(s),
            None => Err(tld),
        },
    }
}

/// Picks the WHOIS server for `domain` by its top-level domain. A domain
/// that does not parse is a `Parse` failure, a top-level domain without a
/// server a `NoWhoisServer` failure; neither stops the batch.
pub fn whois_server_for(domain: &str, table: &Vec<(String, String)>) -> (r: Result<String, ProbeFailure>)
    ensures
        match tld_of(domain@) {
            None => r matches Err(ProbeFailure::Parse(d)) && d@ == domain@,
            Some(tld) => match server_in(table_view(table@), tld) {
                Some(s) => r matches Ok(x) && x@ == s,
                None => r matches Err(ProbeFailure::NoWhoisServer(x)) && x@ == tld,
            },
        },
{
    match top_level_domain(domain) {
        None => Err(ProbeFailure::Parse(domain.to_string())),
        Some(tld) => match whois_server_in(table, tld.as_str()) {
            Some(s) => Ok(s),
            None => Err(ProbeFailure::NoWhoisServer(tld)),
        },
    }
}

/// The outcome of a WHOIS query to `server`: a non-empty record is success,
/// an empty one an `EmptyRecord` failure naming the server, a failed query
/// a `WhoisUnreachable` failure with its message.
pub fn check_whois(server: &str, response: Result<String, String>) -> (r: Result<(), ProbeFailure>)
    ensures
        match response {
            Ok(rec) => if rec@.len() > 0 {
                r == Ok::<(), ProbeFailure>(())
            } else {
                r matches Err(ProbeFailure::EmptyRecord(s)) && s@ == server@
            },
            Err(e) => r == Err::<(), ProbeFailure>(ProbeFailure::WhoisUnreachable(e)),
        },
{
    match response {
        Ok(rec) => {
            if rec.unicode_len() > 0 {
                Ok(())
            } else {
                Err(ProbeFailure::EmptyRecord(server.to_string()))
            }
        },
        Err(e) => Err(ProbeFailure::WhoisUnreachable(e)),
    }
}

} // verus!
