//! From a raw input line to the URL that is probed and the host that DNS
//! and WHOIS are asked about.
use vstd::prelude::*;
use vstd::string::*;
use crate::text::{is_blank, is_blank_seq, is_prefix, opt_view, starts_with};

verus! {

/// The host of `s` read as an absolute URL, `None` where it does not parse
/// or has no host.
pub uninterp spec fn url_host_of(s: Seq<char>) -> Option<Seq<char>>;

/// Relies on `url::Url::parse` and `Url::host_str`: the host component of
/// `s` read as an absolute URL.
#[verifier::external_body]
fn url_host(s: &str) -> (r: Option<String>)
    ensures
        opt_view(r) == url_host_of(s@),
{
    url::Url::parse(s).ok().and_then(|u| u.host_str().map(|h| h.to_string()))
}

pub open spec fn http_scheme() -> Seq<char> {
    seq!['h', 't', 't', 'p', ':', '/', '/']
}

pub open spec fn https_scheme() -> Seq<char> {
    seq!['h', 't', 't', 'p', 's', ':', '/', '/']
}

/// The line already names its scheme.
pub open spec fn has_scheme(s: Seq<char>) -> bool {
    is_prefix(http_scheme(), s) || is_prefix(https_scheme(), s)
}

/// The URL that is probed for the line `s`.
pub open spec fn probe_url_of(s: Seq<char>) -> Seq<char> {
    if has_scheme(s) {
        s
    } else {
        http_scheme() + s
    }
}

/// The host that DNS and WHOIS are asked about: the URL's host where the
/// line is a URL, the line itself where it is a bare host that parses as
/// one, and nothing where parsing fails.
pub open spec fn host_of(s: Seq<char>) -> Option<Seq<char>> {
    if has_scheme(s) {
        url_host_of(s)
    } else if url_host_of(http_scheme() + s) is Some {
        Some(s)
    } else {
        None
    }
}

/// A target ready for probing.
pub struct Target {
    pub probe_url: String,
    pub host: Option<String>,
}

/// Tells whether the line starts with `http://` or `https://`.
pub fn scheme_given(input: &str) -> (r: bool)
    ensures
        r == has_scheme(input@),
{
    let http = "http://";
    let https = "https://";
    proof {
        reveal_strlit("http://");
        reveal_strlit("https://");
    }
    assert(http@ =~= http_scheme());
    assert(https@ =~= https_scheme());
    starts_with(input, http) || starts_with(input, https)
}

/// Prefixes `http://` to a line that names no scheme.
pub fn probe_url(input: &str) -> (r: String)
    ensures
        r@ == probe_url_of(input@),
{
    if scheme_given(input) {
        input.to_string()
    } else {
        let mut u = String::from_str("http://");
        proof {
            reveal_strlit("http://");
        }
        assert(u@ =~= http_scheme());
        u.append(input);
        u
    }
}

/// Turns a raw line into the probe URL and, where one can be had, the host.
/// Never fails: a line whose host cannot be parsed gets no host.
pub fn normalize(input: &str) -> (r: Target)
    ensures
        r.probe_url@ == probe_url_of(input@),
        opt_view(r.host) == host_of(input@),
{
    let url = probe_url(input);
    let host = if scheme_given(input) {
        url_host(input)
    } else {
        match url_host(url.as_str()) {
            Some(_) => Some(input.to_string()),
            None => None,
        }
    };
    Target { probe_url: url, host }
}

/// The lines of `lines` that are not blank, in their order.
pub open spec fn non_blank(lines: Seq<Seq<char>>) -> Seq<Seq<char>>
    decreases lines.len(),
{
    if lines.len() == 0 {
        Seq::empty()
    } else {
        let rest = non_blank(lines.drop_last());
        if is_blank_seq(lines.last()) {
            rest
        } else {
            rest.push(lines.last())
        }
    }
}

/// The views of a list of strings.
pub open spec fn views(v: Seq<String>) -> Seq<Seq<char>> {
    v.map_values(|s: String| s@)
}

/// Keeps the lines that name a target: blank lines are skipped.
pub fn select_targets(lines: &Vec<String>) -> (r: Vec<String>)
    ensures
        views(r@) == non_blank(views(lines@)),
{
    let mut out: Vec<String> = Vec::new();
    let mut i: usize = 0;
    while i < lines.len()
        invariant
            i <= lines@.len(),
            views(out@) == non_blank(views(lines@.subrange(0, i as int))),
        decreases lines.len() - i,
    {
        let line = &lines[i];
        proof {
            let pre = lines@.subrange(0, i as int + 1);
            assert(views(pre).drop_last() =~= views(lines@.subrange(0, i as int)));
            assert(views(pre).last() == line@);
        }
        if !is_blank(line.as_str()) {
            out.push(line.clone());
            assert(views(out@) =~= non_blank(views(lines@.subrange(0, i as int))).push(line@));
        }
        i = i + 1;
    }
    assert(lines@.subrange(0, lines@.len() as int) =~= lines@);
    out
}

} // verus!
