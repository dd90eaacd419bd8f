use crate::grade::{Grade, GradeView};
use vstd::prelude::*;

verus! {

/// The records of a snapshot, in order.
pub open spec fn records(s: Seq<Grade>) -> Seq<GradeView> {
    s.map_values(|g: Grade| g@)
}

/// Two snapshots hold the same set of records, order and repetition aside.
pub open spec fn same_records(a: Seq<GradeView>, b: Seq<GradeView>) -> bool {
    a.to_set() == b.to_set()
}

/// The records of `current` that `previous` does not hold, in the order of `current`.
pub open spec fn delta_of(previous: Seq<GradeView>, current: Seq<GradeView>) -> Seq<GradeView> {
    current.filter(|r: GradeView| !previous.contains(r))
}

/// The outcome of comparing two snapshots.
#[derive(Debug, Clone)]
pub struct Diff {
    /// Whether the two snapshots differ as sets of records.
    pub changed: bool,
    /// The records that are new in the current snapshot.
    pub delta: Vec<Grade>,
}

/// Whether `s` holds a record equal to `g`.
pub fn contains_grade(s: &Vec<Grade>, g: &Grade) -> (r: bool)
    ensures
        r == records(s@).contains(g@),
{
    let mut i: usize = 0;
    while i < s.len()
        invariant
            i <= s.len(),
            forall|j: int| 0 <= j < i ==> s@[j]@ != g@,
        decreases s.len() - i,
    {
        if s[i] == *g {
            assert(records(s@)[i as int] == g@);
            return true;
        }
        i = i + 1;
    }
    assert forall|k: int| 0 <= k < records(s@).len() implies records(s@)[k] != g@ by {
        assert(records(s@)[k] == s@[k]@);
    }
    false
}

/// A copy of a snapshot, record by record.
pub fn copy_grades(s: &Vec<Grade>) -> (r: Vec<Grade>)
    ensures
        records(r@) == records(s@),
{
    let mut out: Vec<Grade> = Vec::new();
    let mut i: usize = 0;
    while i < s.len()
        invariant
            i <= s.len(),
            records(out@) == records(s@).take(i as int),
        decreases s.len() - i,
    {
        let ghost before = out@;
        out.push(s[i].duplicate());
        assert(records(out@) =~= records(before).push(s@[i as int]@));
        assert(records(out@) =~= records(s@).take(i + 1));
        i = i + 1;
    }
    assert(records(s@).take(s.len() as int) =~= records(s@));
    out
}

/// Whether every record of `a` is held by `b`.
fn all_held(a: &Vec<Grade>, b: &Vec<Grade>) -> (r: bool)
    ensures
        r == (forall|x: GradeView| records(a@).contains(x) ==> records(b@).contains(x)),
{
    let mut i: usize = 0;
    while i < a.len()
        invariant
            i <= a.len(),
            forall|j: int| 0 <= j < i ==> records(b@).contains(#[trigger] a@[j]@),
        decreases a.len() - i,
    {
        if !contains_grade(b, &a[i]) {
            assert(records(a@)[i as int] == a@[i as int]@);
            return false;
        }
        i = i + 1;
    }
    assert forall|x: GradeView| records(a@).contains(x) implies records(b@).contains(x) by {
        let k = choose|k: int| 0 <= k < records(a@).len() && records(a@)[k] == x;
        assert(records(a@)[k] == a@[k]@);
    }
    true
}

/// Compares the previous snapshot with the current one: `changed` tells whether
/// they differ as sets of records, and `delta` lists, in order, the records of
/// `current` that `previous` lacks. A record whose grade was corrected is a new
/// record.
pub fn diff(previous: &Vec<Grade>, current: &Vec<Grade>) -> (r: Diff)
    ensures
        r.changed == !same_records(records(previous@), records(current@)),
        records(r.delta@) == delta_of(records(previous@), records(current@)),
{
    let ghost pv = records(previous@);
    let ghost cv = records(current@);
    let fwd = all_held(current, previous);
    let bwd = all_held(previous, current);
    let changed = !(fwd && bwd);
    proof {
        if fwd && bwd {
            assert(pv.to_set() =~= cv.to_set());
        } else if !fwd {
            let x = choose|x: GradeView| cv.contains(x) && !pv.contains(x);
            assert(cv.to_set().contains(x));
        } else {
            let x = choose|x: GradeView| pv.contains(x) && !cv.contains(x);
            assert(pv.to_set().contains(x));
        }
    }
    let mut delta: Vec<Grade> = Vec::new();
    let mut i: usize = 0;
    while i < current.len()
        invariant
            i <= current.len(),
            pv == records(previous@),
            cv == records(current@),
            records(delta@) == delta_of(pv, cv.take(i as int)),
        decreases current.len() - i,
    {
        let ghost before = delta@;
        proof {
            let pred = |r: GradeView| !pv.contains(r);
            assert(cv.take(i + 1) =~= cv.take(i as int).push(cv[i as int]));
            cv.take(i as int).lemma_filter_push(cv[i as int], pred);
        }
        if !contains_grade(previous, &current[i]) {
            delta.push(current[i].duplicate());
            assert(records(delta@) =~= records(before).push(cv[i as int]));
        } else {
            assert(records(delta@) =~= records(before));
        }
        i = i + 1;
    }
    assert(cv.take(current.len() as int) =~= cv);
    Diff { changed, delta }
}

/// A snapshot compared with itself is unchanged and has no new record.
pub proof fn lemma_diff_self(a: Seq<GradeView>)
    ensures
        same_records(a, a),
        delta_of(a, a) == Seq::<GradeView>::empty(),
{
    broadcast use vstd::seq_lib::group_filter_ensures;

    let pred = |r: GradeView| !a.contains(r);
    assert(delta_of(a, a) =~= Seq::<GradeView>::empty()) by {
        if delta_of(a, a).len() > 0 {
            let r = a.filter(pred)[0];
            assert(a.filter(pred).contains(r));
            a.lemma_filter_contains_rev(pred, r);
        }
    }
}

} // verus!
