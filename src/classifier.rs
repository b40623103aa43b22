//! The per-target decision procedure: HTTP first, then DNS gating WHOIS.
//! The caller performs each probe the machine asks for and hands back its
//! outcome as the next event.
use vstd::prelude::*;
use crate::sink::Verdict;
use crate::status::{is_active_code, is_www_host};

verus! {

/// Where a target's workflow stands.
#[derive(Clone, Copy, Debug, PartialEq, Eq, Structural)]
pub enum Stage {
    Start,
    AwaitingHttp,
    AwaitingDns,
    AwaitingWhois,
    Done(Verdict),
}

/// The outcome of a probe, or the signal to begin.
#[derive(Clone, Copy, Debug, PartialEq, Eq, Structural)]
pub enum Event {
    Begin,
    Http { is_active: bool, redirected_to_www: bool },
    Dns(bool),
    Whois(bool),
}

/// What the caller does next.
#[derive(Clone, Copy, Debug, PartialEq, Eq, Structural)]
pub enum Action {
    ProbeHttp,
    ProbeDns,
    ProbeWhois,
    Record(Verdict),
    Wait,
}

/// One target's classification in progress. `host_present` tells whether
/// the target has a host for DNS and WHOIS.
#[derive(Clone, Copy, Debug, PartialEq, Eq, Structural)]
pub struct Workflow {
    pub stage: Stage,
    pub host_present: bool,
}

/// The verdict that the probes' evidence gives, in priority order: a live
/// HTTP answer decides; without one a target needs a host, a DNS answer and
/// a WHOIS record to count as active.
pub open spec fn verdict_of(http_live: bool, host_present: bool, dns_ok: bool, whois_ok: bool) -> Verdict {
    if http_live {
        Verdict::Active
    } else if !host_present || !dns_ok {
        Verdict::Inactive
    } else if whois_ok {
        Verdict::Active
    } else {
        Verdict::Inactive
    }
}

/// One transition of the machine: the next workflow and the action asked for.
/// An event that does not answer the pending action changes nothing.
pub open spec fn next(w: Workflow, e: Event) -> (Workflow, Action) {
    match (w.stage, e) {
        (Stage::Start, Event::Begin) => (Workflow { stage: Stage::AwaitingHttp, ..w }, Action::ProbeHttp),
        (Stage::AwaitingHttp, Event::Http { is_active, redirected_to_www }) => {
            if is_active || redirected_to_www {
                (Workflow { stage: Stage::Done(Verdict::Active), ..w }, Action::Record(Verdict::Active))
            } else if !w.host_present {
                (
                    Workflow { stage: Stage::Done(Verdict::Inactive), ..w },
                    Action::Record(Verdict::Inactive),
                )
            } else {
                (Workflow { stage: Stage::AwaitingDns, ..w }, Action::ProbeDns)
            }
        },
        (Stage::AwaitingDns, Event::Dns(ok)) => {
            if ok {
                (Workflow { stage: Stage::AwaitingWhois, ..w }, Action::ProbeWhois)
            } else {
                (
                    Workflow { stage: Stage::Done(Verdict::Inactive), ..w },
                    Action::Record(Verdict::Inactive),
                )
            }
        },
        (Stage::AwaitingWhois, Event::Whois(ok)) => {
            let v = if ok {
                Verdict::Active
            } else {
                Verdict::Inactive
            };
            (Workflow { stage: Stage::Done(v), ..w }, Action::Record(v))
        },
        _ => (w, Action::Wait),
    }
}

impl Workflow {
    /// A workflow that has not begun.
    pub fn new(host_present: bool) -> (r: Workflow)
        ensures
            r.stage == Stage::Start,
            r.host_present == host_present,
    {
        Workflow { stage: Stage::Start, host_present }
    }

    /// Takes one event and returns the action to perform next.
    pub fn step(&mut self, e: Event) -> (a: Action)
        ensures
            (*final(self), a) == next(*old(self), e),
    {
        let w = *self;
        match (w.stage, e) {
            (Stage::Start, Event::Begin) => {
                self.stage = Stage::AwaitingHttp;
                Action::ProbeHttp
            },
            (Stage::AwaitingHttp, Event::Http { is_active, redirected_to_www }) => {
                if is_active || redirected_to_www {
                    self.stage = Stage::Done(Verdict::Active);
                    Action::Record(Verdict::Active)
                } else if !w.host_present {
                    self.stage = Stage::Done(Verdict::Inactive);
                    Action::Record(Verdict::Inactive)
                } else {
                    self.stage = Stage::AwaitingDns;
                    Action::ProbeDns
                }
            },
            (Stage::AwaitingDns, Event::Dns(ok)) => {
                if ok {
                    self.stage = Stage::AwaitingWhois;
                    Action::ProbeWhois
                } else {
                    self.stage = Stage::Done(Verdict::Inactive);
                    Action::Record(Verdict::Inactive)
                }
            },
            (Stage::AwaitingWhois, Event::Whois(ok)) => {
                let v = if ok {
                    Verdict::Active
                } else {
                    Verdict::Inactive
                };
                self.stage = Stage::Done(v);
                Action::Record(v)
            },
            _ => Action::Wait,
        }
    }

    /// The verdict, once the workflow is done.
    pub fn verdict(&self) -> (r: Option<Verdict>)
        ensures
            r == (match self.stage {
                Stage::Done(v) => Some(v),
                _ => None,
            }),
    {
        match self.stage {
            Stage::Done(v) => Some(v),
            _ => None,
        }
    }
}

/// The event that answers `a` when the probes give these outcomes.
pub open spec fn answer(a: Action, http_active: bool, www: bool, dns_ok: bool, whois_ok: bool) -> Event {
    match a {
        Action::ProbeHttp => Event::Http { is_active: http_active, redirected_to_www: www },
        Action::ProbeDns => Event::Dns(dns_ok),
        Action::ProbeWhois => Event::Whois(whois_ok),
        _ => Event::Begin,
    }
}

/// Runs the machine from `w`, answering each action it asks for, until it
/// records a verdict, waits, or `fuel` runs out. Returns the final workflow
/// and the probes it asked for, in order.
pub open spec fn drive(
    w: Workflow,
    a: Action,
    http_active: bool,
    www: bool,
    dns_ok: bool,
    whois_ok: bool,
    fuel: nat,
) -> (Workflow, Seq<Action>)
    decreases fuel,
{
    if fuel == 0 {
        (w, Seq::empty())
    } else {
        match a {
            Action::Record(_) => (w, Seq::empty()),
            Action::Wait => (w, Seq::empty()),
            _ => {
                let (w2, a2) = next(w, answer(a, http_active, www, dns_ok, whois_ok));
                let (w3, asked) = drive(w2, a2, http_active, www, dns_ok, whois_ok, (fuel - 1) as nat);
                (w3, seq![a] + asked)
            },
        }
    }
}

/// The full run of one target: begun, then driven to its end.
pub open spec fn run(host_present: bool, http_active: bool, www: bool, dns_ok: bool, whois_ok: bool) -> (
    Workflow,
    Seq<Action>,
) {
    let (w, a) = next(Workflow { stage: Stage::Start, host_present }, Event::Begin);
    drive(w, a, http_active, www, dns_ok, whois_ok, 3)
}

/// Every run ends in the verdict of the policy, and asks for exactly the
/// probes the policy needs: HTTP always, DNS only after a silent HTTP probe
/// of a target with a host, WHOIS only after a DNS answer.
pub proof fn lemma_run_follows_policy(
    host_present: bool,
    http_active: bool,
    www: bool,
    dns_ok: bool,
    whois_ok: bool,
)
    ensures
        ({
            let (w, asked) = run(host_present, http_active, www, dns_ok, whois_ok);
            &&& w.stage == Stage::Done(verdict_of(http_active || www, host_present, dns_ok, whois_ok))
            &&& asked == if http_active || www || !host_present {
                seq![Action::ProbeHttp]
            } else if !dns_ok {
                seq![Action::ProbeHttp, Action::ProbeDns]
            } else {
                seq![Action::ProbeHttp, Action::ProbeDns, Action::ProbeWhois]
            }
        }),
{
    reveal_with_fuel(drive, 4);
    let (w, asked) = run(host_present, http_active, www, dns_ok, whois_ok);
    if http_active || www || !host_present {
        assert(asked =~= seq![Action::ProbeHttp]);
    } else if !dns_ok {
        assert(asked =~= seq![Action::ProbeHttp, Action::ProbeDns]);
    } else {
        assert(asked =~= seq![Action::ProbeHttp, Action::ProbeDns, Action::ProbeWhois]);
    }
}

/// A status that shows a live server makes the target ACTIVE on the HTTP
/// probe alone, whatever DNS and WHOIS would say, and neither is asked.
pub proof fn lemma_live_status_is_active(
    status: u16,
    final_host: Option<Seq<char>>,
    host_present: bool,
    dns_ok: bool,
    whois_ok: bool,
)
    requires
        is_active_code(status),
    ensures
        ({
            let (w, asked) = run(host_present, is_active_code(status), is_www_host(final_host), dns_ok, whois_ok);
            w.stage == Stage::Done(Verdict::Active) && asked == seq![Action::ProbeHttp]
        }),
{
    lemma_run_follows_policy(host_present, is_active_code(status), is_www_host(final_host), dns_ok, whois_ok);
}

/// A status that shows no live server, without a `www.` redirect, leaves the
/// verdict to DNS: where DNS fails the target is INACTIVE and WHOIS is never
/// asked.
pub proof fn lemma_silent_http_dns_failure(status: u16, final_host: Option<Seq<char>>, whois_ok: bool)
    requires
        !is_active_code(status),
        !is_www_host(final_host),
    ensures
        ({
            let (w, asked) = run(true, is_active_code(status), is_www_host(final_host), false, whois_ok);
            w.stage == Stage::Done(Verdict::Inactive) && asked == seq![Action::ProbeHttp, Action::ProbeDns]
        }),
{
    lemma_run_follows_policy(true, is_active_code(status), is_www_host(final_host), false, whois_ok);
}

/// A target with a host whose HTTP probe fails, whose DNS answers and whose
/// WHOIS record is found is ACTIVE.
pub proof fn lemma_registered_fallback_is_active()
    ensures
        run(true, false, false, true, true).0.stage == Stage::Done(Verdict::Active),
{
    lemma_run_follows_policy(true, false, false, true, true);
}

} // verus!
