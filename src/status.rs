//! What an HTTP response says about a target's liveness.
use vstd::prelude::*;
use crate::text::{is_prefix, starts_with};

verus! {

/// Status codes that show a responding, configured server: success,
/// redirection, client errors that only a live server sends, server errors.
pub open spec fn is_active_code(c: u16) -> bool {
    (200 <= c <= 206) || (300 <= c <= 304) || c == 307 || c == 308 || c == 401 || c == 403
        || (405 <= c <= 410) || c == 429 || (500 <= c <= 505)
}

/// Status codes that say the resource or domain does not exist or was removed.
pub open spec fn is_inactive_code(c: u16) -> bool {
    c == 404 || c == 410 || c == 451
}

/// The characters `www.`.
pub open spec fn www_prefix() -> Seq<char> {
    seq!['w', 'w', 'w', '.']
}

/// The final host after redirects is a `www.` host.
pub open spec fn is_www_host(final_host: Option<Seq<char>>) -> bool {
    match final_host {
        Some(h) => is_prefix(www_prefix(), h),
        None => false,
    }
}

/// How a status code is read, where the two sets of codes overlap the
/// active reading wins.
#[derive(Clone, Copy, Debug, PartialEq, Eq, Structural)]
pub enum StatusClass {
    Active,
    Inactive,
    Ambiguous,
}

pub open spec fn class_of(c: u16) -> StatusClass {
    if is_active_code(c) {
        StatusClass::Active
    } else if is_inactive_code(c) {
        StatusClass::Inactive
    } else {
        StatusClass::Ambiguous
    }
}

/// Tells whether `code` shows a live server.
pub fn active_code(code: u16) -> (r: bool)
    ensures
        r == is_active_code(code),
{
    match code {
        200..=206 | 300..=304 | 307 | 308 | 401 | 403 | 405..=410 | 429 | 500..=505 => true,
        _ => false,
    }
}

/// Tells whether `code` says that the target does not exist.
pub fn inactive_code(code: u16) -> (r: bool)
    ensures
        r == is_inactive_code(code),
{
    code == 404 || code == 410 || code == 451
}

/// Reads a status code into one of the three classes.
pub fn classify_status(code: u16) -> (r: StatusClass)
    ensures
        r == class_of(code),
{
    if active_code(code) {
        StatusClass::Active
    } else if inactive_code(code) {
        StatusClass::Inactive
    } else {
        StatusClass::Ambiguous
    }
}

/// Tells whether a final host starts with `www.`.
pub fn www_host(final_host: Option<&str>) -> (r: bool)
    ensures
        r == is_www_host(
            match final_host {
                Some(h) => Some(h@),
                None => None,
            },
        ),
{
    match final_host {
        Some(h) => {
            let www = "www.";
            proof {
                reveal_strlit("www.");
            }
            assert(www@ =~= www_prefix());
            starts_with(h, www)
        },
        None => false,
    }
}

/// The evidence of one completed HTTP exchange: the final status code and
/// the final host after redirects. Returns whether the code shows a live
/// server and whether the exchange ended on a `www.` host.
pub fn check_http(status_code: u16, final_host: Option<&str>) -> (r: (bool, bool))
    ensures
        r.0 == is_active_code(status_code),
        r.1 == is_www_host(
            match final_host {
                Some(h) => Some(h@),
                None => None,
            },
        ),
{
    (active_code(status_code), www_host(final_host))
}

} // verus!
