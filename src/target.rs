//! Diff targets: the working tree, the staging index, or a named tree, and
//! the table that turns a pair of them into one comparison primitive.

use vstd::prelude::*;
use vstd::string::*;
use crate::error::MilkError;

verus! {

/// One side of a comparison.
#[derive(Debug, Clone, Copy)]
pub enum DiffTarget<'a> {
    WorkingTree,
    Index,
    Name(&'a str),
}

/// A diff target as mathematical text.
pub enum TargetView {
    WorkingTree,
    Index,
    Name(Seq<char>),
}

impl<'a> View for DiffTarget<'a> {
    type V = TargetView;

    open spec fn view(&self) -> TargetView {
        match self {
            DiffTarget::WorkingTree => TargetView::WorkingTree,
            DiffTarget::Index => TargetView::Index,
            DiffTarget::Name(s) => TargetView::Name(s@),
        }
    }
}

pub open spec fn work_label() -> Seq<char> {
    seq!['/', 'W', 'O', 'R', 'K']
}

pub open spec fn index_label() -> Seq<char> {
    seq!['/', 'I', 'N', 'D', 'E', 'X']
}

/// Exactly `/WORK` is the working tree and exactly `/INDEX` the index;
/// every other label names a tree.
pub open spec fn classify(label: Seq<char>) -> TargetView {
    if label == work_label() {
        TargetView::WorkingTree
    } else if label == index_label() {
        TargetView::Index
    } else {
        TargetView::Name(label)
    }
}

/// The canonical direction of the store's primitives: a named tree comes
/// first, then the index, then the working tree.
pub open spec fn rank(t: TargetView) -> int {
    match t {
        TargetView::Name(_) => 0,
        TargetView::Index => 1,
        TargetView::WorkingTree => 2,
    }
}

/// Comparing the index with itself, or the working tree with itself, is
/// not meaningful.
pub open spec fn degenerate(old: TargetView, new: TargetView) -> bool {
    rank(old) == rank(new) && rank(old) > 0
}

/// How a comparison is computed: a primitive from `from` to `to`, whose
/// changes are flipped when `reversed`.
pub struct PlanView {
    pub from: TargetView,
    pub to: TargetView,
    pub reversed: bool,
}

/// The comparison of `old` with `new`: the primitive always runs in the
/// canonical direction, and is reversed exactly when `old` ranks after `new`.
pub open spec fn plan_of(old: TargetView, new: TargetView) -> Option<PlanView> {
    if degenerate(old, new) {
        None
    } else if rank(old) > rank(new) {
        Some(PlanView { from: new, to: old, reversed: true })
    } else {
        Some(PlanView { from: old, to: new, reversed: false })
    }
}

/// A comparison primitive to run, and whether to flip what it reports.
#[derive(Debug, Clone, Copy)]
pub struct DiffPlan<'a> {
    pub from: DiffTarget<'a>,
    pub to: DiffTarget<'a>,
    pub reversed: bool,
}

impl<'a> View for DiffPlan<'a> {
    type V = PlanView;

    open spec fn view(&self) -> PlanView {
        PlanView { from: self.from@, to: self.to@, reversed: self.reversed }
    }
}

/// Whether two strings hold the same characters.
pub fn same_text(a: &str, b: &str) -> (r: bool)
    ensures
        r == (a@ == b@),
{
    let n = a.unicode_len();
    let m = b.unicode_len();
    if n != m {
        return false;
    }
    let mut i: usize = 0;
    while i < n
        invariant
            n == a@.len(),
            m == b@.len(),
            n == m,
            i <= n,
            forall|k: int| 0 <= k < i ==> a@[k] == b@[k],
        decreases n - i,
    {
        if a.get_char(i) != b.get_char(i) {
            return false;
        }
        i = i + 1;
    }
    assert(a@ =~= b@);
    true
}

impl<'a> DiffTarget<'a> {
    /// Reads a label as a diff target.
    pub fn from_str(s: &'a str) -> (t: DiffTarget<'a>)
        ensures
            t@ == classify(s@),
            t matches DiffTarget::Name(n) ==> n == s,
    {
        proof {
            reveal_strlit("/WORK");
            reveal_strlit("/INDEX");
        }
        if same_text(s, "/WORK") {
            assert("/WORK"@ =~= work_label());
            DiffTarget::WorkingTree
        } else if same_text(s, "/INDEX") {
            assert("/INDEX"@ =~= index_label());
            DiffTarget::Index
        } else {
            assert(s@ != work_label()) by {
                assert("/WORK"@ =~= work_label());
            }
            assert(s@ != index_label()) by {
                assert("/INDEX"@ =~= index_label());
            }
            DiffTarget::Name(s)
        }
    }

    fn rank(&self) -> (r: u8)
        ensures
            r as int == rank(self@),
    {
        match self {
            DiffTarget::Name(_) => 0,
            DiffTarget::Index => 1,
            DiffTarget::WorkingTree => 2,
        }
    }
}

/// Chooses the primitive for comparing `old` with `new`, or rejects a
/// degenerate pair.
pub fn plan_diff<'a>(old: DiffTarget<'a>, new: DiffTarget<'a>) -> (r: Result<DiffPlan<'a>, MilkError>)
    ensures
        r is Ok <==> plan_of(old@, new@) is Some,
        r matches Ok(p) ==> p@ == plan_of(old@, new@)->0,
        r matches Ok(p) ==> (if p.reversed { p.from == new && p.to == old } else { p.from == old && p.to == new }),
        r matches Err(e) ==> e == MilkError::DegenerateComparison,
{
    let ro = old.rank();
    let rn = new.rank();
    if ro == rn && ro > 0 {
        Err(MilkError::DegenerateComparison)
    } else if ro > rn {
        Ok(DiffPlan { from: new, to: old, reversed: true })
    } else {
        Ok(DiffPlan { from: old, to: new, reversed: false })
    }
}

/// `/WORK` and `/INDEX` never read as names, though both begin with `/`.
pub proof fn lemma_sentinels_are_not_names()
    ensures
        classify(work_label()) == TargetView::WorkingTree,
        classify(index_label()) == TargetView::Index,
{
    assert(work_label() != index_label()) by {
        assert(work_label()[1] != index_label()[1]);
    }
}

/// Comparing the working tree with itself, or the index with itself, is
/// rejected.
pub proof fn lemma_identical_pseudo_targets_rejected()
    ensures
        plan_of(TargetView::WorkingTree, TargetView::WorkingTree) is None,
        plan_of(TargetView::Index, TargetView::Index) is None,
{
}

/// Index against a named tree, and that tree against the index, run the
/// same primitive between the same two sides; exactly one of the two flips
/// what the primitive reports.
pub proof fn lemma_index_name_reversal(name: Seq<char>)
    ensures
        plan_of(TargetView::Index, TargetView::Name(name)) matches Some(p)
            && plan_of(TargetView::Name(name), TargetView::Index) matches Some(q)
            && p.from == q.from && p.to == q.to && p.reversed != q.reversed,
        plan_of(TargetView::Name(name), TargetView::Index) matches Some(q)
            && q.from == TargetView::Name(name) && q.to == TargetView::Index && !q.reversed,
{
}

/// Swapping two sides of different kinds runs the same primitive between
/// the same two sides and flips whether its changes are reversed.
pub proof fn lemma_swap_flips_reversal(a: TargetView, b: TargetView)
    requires
        rank(a) != rank(b),
    ensures
        plan_of(a, b) matches Some(p) && plan_of(b, a) matches Some(q)
            && p.from == q.from && p.to == q.to && p.reversed == !q.reversed,
{
}

} // verus!
