//! The bounded batch: which targets may start probing, which are in flight
//! and how each one ended. The caller runs the probes, starts a target only
//! when the batch hands it out and reports each end back.
use vstd::prelude::*;
use vstd::multiset::Multiset;
use crate::sink::Verdict;

verus! {

/// Where one target of the batch stands.
#[derive(Clone, Copy, Debug, PartialEq, Eq, Structural)]
pub enum Slot {
    /// Not started.
    Waiting,
    /// Holds a worker slot; its probes are in flight.
    Probing,
    /// Ended with a verdict that was written to that verdict's file.
    Written(Verdict),
    /// Ended with a verdict that the configuration drops.
    Excluded(Verdict),
    /// Ended in an unexpected workflow error: no verdict, no line.
    Failed,
}

/// The number of slots in `s` that are probing.
pub open spec fn count_probing(s: Seq<Slot>) -> nat
    decreases s.len(),
{
    if s.len() == 0 {
        0
    } else {
        count_probing(s.drop_last()) + if s.last() == Slot::Probing {
            1nat
        } else {
            0nat
        }
    }
}

/// How a target that was probing ends, given its workflow's outcome.
pub open spec fn settled(outcome: Option<Verdict>, exclude: Option<Verdict>) -> Slot {
    match outcome {
        Some(v) => if exclude == Some(v) {
            Slot::Excluded(v)
        } else {
            Slot::Written(v)
        },
        None => Slot::Failed,
    }
}

/// The slot has ended.
pub open spec fn is_settled(s: Slot) -> bool {
    s is Written || s is Excluded || s is Failed
}

/// What a batch is: its worker budget, how far it has started, how many
/// targets hold a worker slot, the verdict it drops and each target's slot.
pub ghost struct BatchView {
    pub capacity: nat,
    pub next: nat,
    pub in_flight: nat,
    pub exclude: Option<Verdict>,
    pub slots: Seq<Slot>,
}

impl BatchView {
    pub open spec fn wf(self) -> bool {
        &&& self.capacity >= 1
        &&& self.next <= self.slots.len()
        &&& self.in_flight == count_probing(self.slots)
        &&& self.in_flight <= self.capacity
        &&& forall|i: int| 0 <= i < self.slots.len() ==> (#[trigger] self.slots[i] == Slot::Waiting <==> i >= self.next)
        &&& forall|i: int| 0 <= i < self.slots.len() ==> match #[trigger] self.slots[i] {
            Slot::Written(v) => self.exclude != Some(v),
            Slot::Excluded(v) => self.exclude == Some(v),
            _ => true,
        }
    }

    /// Every target has started and none is in flight.
    pub open spec fn done(self) -> bool {
        self.next == self.slots.len() && self.in_flight == 0
    }
}

/// A batch of targets run under a fixed worker budget.
pub struct Batch {
    capacity: usize,
    next: usize,
    in_flight: usize,
    exclude: Option<Verdict>,
    slots: Vec<Slot>,
}

impl View for Batch {
    type V = BatchView;

    closed spec fn view(&self) -> BatchView {
        BatchView {
            capacity: self.capacity as nat,
            next: self.next as nat,
            in_flight: self.in_flight as nat,
            exclude: self.exclude,
            slots: self.slots@,
        }
    }
}

proof fn lemma_count_update(s: Seq<Slot>, i: int, x: Slot)
    requires
        0 <= i < s.len(),
    ensures
        count_probing(s.update(i, x)) + (if s[i] == Slot::Probing {
            1nat
        } else {
            0nat
        }) == count_probing(s) + (if x == Slot::Probing {
            1nat
        } else {
            0nat
        }),
    decreases s.len(),
{
    let t = s.update(i, x);
    if i < s.len() - 1 {
        assert(t.drop_last() =~= s.drop_last().update(i, x));
        lemma_count_update(s.drop_last(), i, x);
    } else {
        assert(t.drop_last() =~= s.drop_last());
    }
}

/// No slot is probing where the count is zero.
pub proof fn lemma_count_zero(s: Seq<Slot>)
    requires
        count_probing(s) == 0,
    ensures
        forall|i: int| 0 <= i < s.len() ==> s[i] != Slot::Probing,
    decreases s.len(),
{
    if s.len() > 0 {
        lemma_count_zero(s.drop_last());
        assert forall|i: int| 0 <= i < s.len() implies s[i] != Slot::Probing by {
            if i < s.len() - 1 {
                assert(s[i] == s.drop_last()[i]);
            }
        }
    }
}

impl Batch {
    /// A batch of `n_targets` targets, none started, under `concurrency`
    /// worker slots, dropping the verdict `exclude`.
    pub fn new(n_targets: usize, concurrency: usize, exclude: Option<Verdict>) -> (r: Batch)
        requires
            concurrency >= 1,
        ensures
            r@.wf(),
            r@.capacity == concurrency,
            r@.next == 0,
            r@.in_flight == 0,
            r@.exclude == exclude,
            r@.slots == Seq::new(n_targets as nat, |i: int| Slot::Waiting),
    {
        let mut slots: Vec<Slot> = Vec::new();
        let mut i: usize = 0;
        while i < n_targets
            invariant
                i <= n_targets,
                slots@ == Seq::new(i as nat, |j: int| Slot::Waiting),
            decreases n_targets - i,
        {
            slots.push(Slot::Waiting);
            i = i + 1;
            assert(slots@ =~= Seq::new(i as nat, |j: int| Slot::Waiting));
        }
        proof {
            lemma_count_zero_of_waiting(slots@);
        }
        Batch { capacity: concurrency, next: 0, in_flight: 0, exclude, slots }
    }

    /// Hands out the next target where a worker slot is free, marking it as
    /// probing; `None` where all slots are held or every target has started.
    pub fn try_start(&mut self) -> (r: Option<usize>)
        requires
            old(self)@.wf(),
        ensures
            final(self)@.wf(),
            if old(self)@.in_flight < old(self)@.capacity && old(self)@.next < old(self)@.slots.len() {
                &&& r == Some(old(self)@.next as usize)
                &&& final(self)@ == (BatchView {
                    next: old(self)@.next + 1,
                    in_flight: old(self)@.in_flight + 1,
                    slots: old(self)@.slots.update(old(self)@.next as int, Slot::Probing),
                    ..old(self)@
                })
            } else {
                r is None && final(self)@ == old(self)@
            },
    {
        if self.in_flight < self.capacity && self.next < self.slots.len() {
            let i = self.next;
            proof {
                lemma_count_update(self.slots@, i as int, Slot::Probing);
            }
            self.slots.set(i, Slot::Probing);
            self.next = i + 1;
            self.in_flight = self.in_flight + 1;
            Some(i)
        } else {
            None
        }
    }

    /// Reports how target `i` ended: `Some(v)` for a verdict, `None` for a
    /// workflow error. Releases its worker slot. A target that is not
    /// probing is left as it is, and `false` is returned.
    pub fn finish(&mut self, i: usize, outcome: Option<Verdict>) -> (r: bool)
        requires
            old(self)@.wf(),
        ensures
            final(self)@.wf(),
            r == (i < old(self)@.slots.len() && old(self)@.slots[i as int] == Slot::Probing),
            r ==> final(self)@ == (BatchView {
                in_flight: (old(self)@.in_flight - 1) as nat,
                slots: old(self)@.slots.update(i as int, settled(outcome, old(self)@.exclude)),
                ..old(self)@
            }),
            !r ==> final(self)@ == old(self)@,
    {
        if i < self.slots.len() && self.slots[i] == Slot::Probing {
            let s = match outcome {
                Some(v) => if self.exclude == Some(v) {
                    Slot::Excluded(v)
                } else {
                    Slot::Written(v)
                },
                None => Slot::Failed,
            };
            proof {
                lemma_count_update(self.slots@, i as int, s);
            }
            self.slots.set(i, s);
            self.in_flight = self.in_flight - 1;
            true
        } else {
            false
        }
    }

    /// Every target has started and none is in flight.
    pub fn is_done(&self) -> (r: bool)
        requires
            self@.wf(),
        ensures
            r == self@.done(),
    {
        self.next == self.slots.len() && self.in_flight == 0
    }

    /// The number of targets holding a worker slot.
    pub fn in_flight(&self) -> (r: usize)
        ensures
            r == self@.in_flight,
    {
        self.in_flight
    }

    /// The number of targets in the batch.
    pub fn len(&self) -> (r: usize)
        ensures
            r == self@.slots.len(),
    {
        self.slots.len()
    }

    /// Where target `i` stands.
    pub fn slot(&self, i: usize) -> (r: Slot)
        requires
            i < self@.slots.len(),
        ensures
            r == self@.slots[i as int],
    {
        self.slots[i]
    }
}

proof fn lemma_count_zero_of_waiting(s: Seq<Slot>)
    requires
        forall|i: int| 0 <= i < s.len() ==> s[i] == Slot::Waiting,
    ensures
        count_probing(s) == 0,
    decreases s.len(),
{
    if s.len() > 0 {
        lemma_count_zero_of_waiting(s.drop_last());
    }
}

/// In every well-formed batch the targets holding a worker slot are exactly
/// those probing, and never more than the budget.
pub proof fn lemma_in_flight_bounded(b: BatchView)
    requires
        b.wf(),
    ensures
        count_probing(b.slots) == b.in_flight,
        b.in_flight <= b.capacity,
{
}

/// When a batch is done every target has ended in exactly one way: written
/// to its verdict's file, dropped by the exclusion, or failed. A written
/// target's verdict is never the excluded one, a dropped one's always is.
pub proof fn lemma_done_settles_every_target(b: BatchView)
    requires
        b.wf(),
        b.done(),
    ensures
        forall|i: int| 0 <= i < b.slots.len() ==> is_settled(#[trigger] b.slots[i]),
        forall|i: int|
            0 <= i < b.slots.len() ==> match #[trigger] b.slots[i] {
                Slot::Written(v) => b.exclude != Some(v),
                Slot::Excluded(v) => b.exclude == Some(v),
                _ => true,
            },
{
    lemma_count_zero(b.slots);
    assert forall|i: int| 0 <= i < b.slots.len() implies is_settled(#[trigger] b.slots[i]) by {
        assert(b.slots[i] != Slot::Waiting);
        assert(b.slots[i] != Slot::Probing);
    }
}

/// The lines that a batch over `targets` has written to the file of verdict
/// `v`: one per target whose slot is `Written(v)`.
pub open spec fn file_lines(targets: Seq<Seq<char>>, slots: Seq<Slot>, v: Verdict) -> Multiset<Seq<char>>
    decreases slots.len(),
{
    if slots.len() == 0 {
        Multiset::empty()
    } else {
        let rest = file_lines(targets, slots.drop_last(), v);
        if slots.last() == Slot::Written(v) {
            rest.insert(targets[slots.len() - 1])
        } else {
            rest
        }
    }
}

/// The verdict a settled slot carries, if any.
pub open spec fn outcome_of(s: Slot) -> Option<Verdict> {
    match s {
        Slot::Written(v) => Some(v),
        Slot::Excluded(v) => Some(v),
        _ => None,
    }
}

proof fn lemma_no_lines(targets: Seq<Seq<char>>, slots: Seq<Slot>, v: Verdict)
    requires
        forall|i: int| 0 <= i < slots.len() ==> slots[i] != Slot::Written(v),
    ensures
        file_lines(targets, slots, v) =~= Multiset::empty(),
    decreases slots.len(),
{
    if slots.len() > 0 {
        lemma_no_lines(targets, slots.drop_last(), v);
    }
}

proof fn lemma_line_written(targets: Seq<Seq<char>>, slots: Seq<Slot>, v: Verdict, i: int)
    requires
        0 <= i < slots.len(),
        slots[i] == Slot::Written(v),
    ensures
        file_lines(targets, slots, v).contains(targets[i]),
    decreases slots.len(),
{
    if i < slots.len() - 1 {
        lemma_line_written(targets, slots.drop_last(), v, i);
    }
}

/// A batch that drops INACTIVE writes nothing to the INACTIVE file, and
/// writes every target that ended ACTIVE to the ACTIVE file.
pub proof fn lemma_exclude_inactive_run(targets: Seq<Seq<char>>, b: BatchView)
    requires
        b.wf(),
        b.done(),
        b.exclude == Some(Verdict::Inactive),
    ensures
        file_lines(targets, b.slots, Verdict::Inactive) =~= Multiset::empty(),
        forall|i: int|
            0 <= i < b.slots.len() && outcome_of(#[trigger] b.slots[i]) == Some(Verdict::Active)
                ==> file_lines(targets, b.slots, Verdict::Active).contains(targets[i]),
{
    lemma_done_settles_every_target(b);
    assert forall|i: int| 0 <= i < b.slots.len() implies b.slots[i] != Slot::Written(Verdict::Inactive) by {
        assert(match b.slots[i] {
            Slot::Written(v) => b.exclude != Some(v),
            _ => true,
        });
    }
    lemma_no_lines(targets, b.slots, Verdict::Inactive);
    assert forall|i: int|
        0 <= i < b.slots.len() && outcome_of(#[trigger] b.slots[i]) == Some(Verdict::Active)
            implies file_lines(targets, b.slots, Verdict::Active).contains(targets[i]) by {
        assert(match b.slots[i] {
            Slot::Excluded(v) => b.exclude == Some(v),
            _ => true,
        });
        lemma_line_written(targets, b.slots, Verdict::Active, i);
    }
}

/// Two finished runs over the same targets with the same exclusion, in which
/// every target got the same outcome, leave the same lines in both files,
/// whatever order the targets finished in.
pub proof fn lemma_runs_agree(targets: Seq<Seq<char>>, b1: BatchView, b2: BatchView, v: Verdict)
    requires
        b1.wf(),
        b2.wf(),
        b1.done(),
        b2.done(),
        b1.exclude == b2.exclude,
        b1.slots.len() == b2.slots.len(),
        forall|i: int| 0 <= i < b1.slots.len() ==> outcome_of(b1.slots[i]) == outcome_of(b2.slots[i]),
    ensures
        file_lines(targets, b1.slots, v) == file_lines(targets, b2.slots, v),
{
    lemma_done_settles_every_target(b1);
    lemma_done_settles_every_target(b2);
    assert forall|i: int| 0 <= i < b1.slots.len() implies b1.slots[i] == b2.slots[i] by {
        assert(is_settled(b1.slots[i]));
        assert(is_settled(b2.slots[i]));
    }
    assert(b1.slots =~= b2.slots);
}

} // verus!
