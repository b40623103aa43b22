//! Verdicts, the exclusion filter and which output file a target goes to.
use vstd::prelude::*;
use vstd::string::*;
use crate::text::{opt_view, same_text};

verus! {

/// The final classification of a target.
#[derive(Clone, Copy, Debug, PartialEq, Eq, Structural)]
pub enum Verdict {
    Active,
    Inactive,
}

pub open spec fn label_of(v: Verdict) -> Seq<char> {
    match v {
        Verdict::Active => seq!['A', 'C', 'T', 'I', 'V', 'E'],
        Verdict::Inactive => seq!['I', 'N', 'A', 'C', 'T', 'I', 'V', 'E'],
    }
}

pub open spec fn txt_suffix() -> Seq<char> {
    seq!['.', 't', 'x', 't']
}

/// The file that holds the targets of verdict `v`: `<base>_<LABEL>.txt`.
pub open spec fn path_of(base: Seq<char>, v: Verdict) -> Seq<char> {
    base + seq!['_'] + label_of(v) + txt_suffix()
}

/// The exclusion that a configuration string names: `ACTIVE` or `INACTIVE`
/// drops that verdict, any other string drops nothing.
pub open spec fn exclusion_of(s: Seq<char>) -> Option<Verdict> {
    if s == label_of(Verdict::Active) {
        Some(Verdict::Active)
    } else if s == label_of(Verdict::Inactive) {
        Some(Verdict::Inactive)
    } else {
        None
    }
}

/// Where a target of verdict `v` is written, `None` where `v` is excluded.
pub open spec fn destination_of(base: Seq<char>, v: Verdict, exclude: Option<Verdict>) -> Option<
    Seq<char>,
> {
    if exclude == Some(v) {
        None
    } else {
        Some(path_of(base, v))
    }
}

impl Verdict {
    /// `ACTIVE` or `INACTIVE`.
    pub fn label(&self) -> (r: String)
        ensures
            r@ == label_of(*self),
    {
        match self {
            Verdict::Active => {
                let s = String::from_str("ACTIVE");
                proof {
                    reveal_strlit("ACTIVE");
                }
                assert(s@ =~= label_of(*self));
                s
            },
            Verdict::Inactive => {
                let s = String::from_str("INACTIVE");
                proof {
                    reveal_strlit("INACTIVE");
                }
                assert(s@ =~= label_of(*self));
                s
            },
        }
    }
}

/// Reads the exclusion setting.
pub fn parse_exclusion(s: &str) -> (r: Option<Verdict>)
    ensures
        r == exclusion_of(s@),
{
    let active = "ACTIVE";
    let inactive = "INACTIVE";
    proof {
        reveal_strlit("ACTIVE");
        reveal_strlit("INACTIVE");
    }
    assert(active@ =~= label_of(Verdict::Active));
    assert(inactive@ =~= label_of(Verdict::Inactive));
    if same_text(s, active) {
        Some(Verdict::Active)
    } else if same_text(s, inactive) {
        Some(Verdict::Inactive)
    } else {
        None
    }
}

/// The output file for verdict `v` under the base name `base`.
pub fn output_path(base: &str, v: Verdict) -> (r: String)
    ensures
        r@ == path_of(base@, v),
{
    let mut p = base.to_string();
    let sep = "_";
    let txt = ".txt";
    proof {
        reveal_strlit("_");
        reveal_strlit(".txt");
    }
    assert(sep@ =~= seq!['_']);
    assert(txt@ =~= txt_suffix());
    p.append(sep);
    let label = v.label();
    p.append(label.as_str());
    p.append(txt);
    assert(p@ =~= path_of(base@, v));
    p
}

/// The file a target of verdict `v` is appended to, `None` where the
/// configuration excludes `v`.
pub fn destination(base: &str, v: Verdict, exclude: Option<Verdict>) -> (r: Option<String>)
    ensures
        opt_view(r) == destination_of(base@, v, exclude),
{
    if exclude == Some(v) {
        None
    } else {
        Some(output_path(base, v))
    }
}

/// Under one base name the two verdicts go to two different files.
pub proof fn lemma_paths_differ(base: Seq<char>)
    ensures
        path_of(base, Verdict::Active) != path_of(base, Verdict::Inactive),
{
    let a = path_of(base, Verdict::Active);
    let b = path_of(base, Verdict::Inactive);
    assert(a.len() != b.len());
}

/// With `INACTIVE` excluded nothing is ever written to the INACTIVE file,
/// while every ACTIVE target is written to the ACTIVE file.
pub proof fn lemma_exclude_inactive(base: Seq<char>, v: Verdict)
    ensures
        destination_of(base, v, exclusion_of(label_of(Verdict::Inactive))) != Some(
            path_of(base, Verdict::Inactive),
        ),
        v == Verdict::Active ==> destination_of(base, v, exclusion_of(label_of(Verdict::Inactive)))
            == Some(path_of(base, Verdict::Active)),
{
    assert(label_of(Verdict::Inactive) != label_of(Verdict::Active));
    lemma_paths_differ(base);
}

} // verus!
