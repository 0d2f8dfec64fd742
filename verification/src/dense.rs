//! The dense extractor.  A dense child holds only the values its rows
//! reference (plus possibly unreferenced trailing values), and a per-row
//! offset picks the element.  The cases, classified up front: a union of
//! zero rows, an empty child, a single declared field, a multi-field fast
//! path (every other child empty, or unanimous discriminants) — all of which
//! reduce to "take the child in offset order", by clone, slice or gather —
//! and the general masked rebuild, a one-pass span walk.

use vstd::prelude::*;

use crate::builder::ArrayBuilder;
use crate::column::{
    extracted, lemma_matching_row, lemma_others_empty_all_match, lemma_single_field_all_match,
    UnionArray,
};
use crate::values::ValueArray;

verus! {

/// The shape a dense extraction falls under, checked in this order.
#[derive(Clone, Copy, Debug, PartialEq, Eq, Structural)]
pub enum DenseCase {
    /// The union has zero rows.
    EmptyUnion,
    /// The union has rows but the requested child has no values.
    EmptyChild,
    /// Only one field is declared, so every row selects it.
    SingleField,
    /// Several fields, but every other child is empty or every discriminant
    /// already matches: the result is still all of the child in offset order.
    FastPathMultiField,
    /// Mixed discriminants with other children populated: a masked rebuild.
    MaskedRebuild,
}

/// Whether every child but `j` is empty.
pub open spec fn others_empty(u: UnionArray, j: int) -> bool {
    forall|k: int|
        0 <= k < u.children@.len() && k != j ==> (#[trigger] u.children@[k])@.len() == 0
}

/// Whether every row's discriminant equals field `j`'s type id.
pub open spec fn all_match(u: UnionArray, j: int) -> bool {
    forall|i: int| 0 <= i < u.spec_len() ==> (#[trigger] u.type_ids@[i]) == u.fields@[j].type_id
}

/// The decision table of the dense extractor.
pub open spec fn dense_case(u: UnionArray, j: int) -> DenseCase {
    if u.spec_len() == 0 {
        DenseCase::EmptyUnion
    } else if u.children@[j]@.len() == 0 {
        DenseCase::EmptyChild
    } else if u.fields@.len() == 1 {
        DenseCase::SingleField
    } else if others_empty(u, j) || all_match(u, j) {
        DenseCase::FastPathMultiField
    } else {
        DenseCase::MaskedRebuild
    }
}

/// Classifies a dense extraction, so that each case below can be handled —
/// and audited — on its own.
pub fn classify(u: &UnionArray, j: usize) -> (c: DenseCase)
    requires
        u.wf(),
        u.is_dense(),
        j < u.fields@.len(),
    ensures
        c == dense_case(*u, j as int),
{
    if u.type_ids.len() == 0 {
        return DenseCase::EmptyUnion;
    }
    if u.children[j].len() == 0 {
        return DenseCase::EmptyChild;
    }
    if u.fields.len() == 1 {
        return DenseCase::SingleField;
    }
    let mut others_are_empty: bool = true;
    let nc: usize = u.children.len();
    let mut k: usize = 0;
    while k < nc
        invariant
            nc == u.children@.len(),
            k <= nc,
            others_are_empty <==> (forall|l: int|
                0 <= l < k && l != j ==> (#[trigger] u.children@[l])@.len() == 0),
        decreases nc - k,
    {
        if k != j && u.children[k].len() != 0 {
            others_are_empty = false;
        }
        k = k + 1;
    }
    if others_are_empty || u.all_rows_match(u.fields[j].type_id) {
        DenseCase::FastPathMultiField
    } else {
        DenseCase::MaskedRebuild
    }
}

/// Whether each offset is exactly one more than the one before it.
pub open spec fn sequential(offs: Seq<usize>) -> bool {
    forall|i: int| 0 <= i < offs.len() - 1 ==> (#[trigger] offs[i + 1]) == offs[i] + 1
}

/// Checks sequentiality of an offset buffer.
pub fn offsets_sequential(offs: &Vec<usize>) -> (b: bool)
    ensures
        b == sequential(offs@),
{
    let n: usize = offs.len();
    if n == 0 {
        return true;
    }
    let mut i: usize = 0;
    while i + 1 < n
        invariant
            n == offs@.len(),
            i < n,
            forall|k: int| 0 <= k < i ==> (#[trigger] offs@[k + 1]) == offs@[k] + 1,
        decreases n - i,
    {
        let next: usize = offs[i + 1];
        if next == 0 || offs[i] != next - 1 {
            proof {
                assert(offs@[i + 1] != offs@[i as int] + 1);
            }
            return false;
        }
        i = i + 1;
    }
    true
}

/// Sequential offsets advance one by one from the first.
pub proof fn lemma_sequential_from_first(offs: Seq<usize>, i: int)
    requires
        sequential(offs),
        0 <= i < offs.len(),
    ensures
        offs[i] == offs[0] + i,
    decreases i,
{
    if i > 0 {
        lemma_sequential_from_first(offs, i - 1);
        assert(offs[(i - 1) + 1] == offs[i - 1] + 1);
    }
}

/// Takes all of the dense child in offset order: the union's rows all select
/// field `j`, so the result is the child clone when the lengths agree, a
/// slice when the child has unreferenced trailing values, and a gather when
/// the offsets are not sequential.
pub fn take_all_in_offset_order(u: &UnionArray, j: usize) -> (r: ValueArray)
    requires
        u.wf(),
        u.is_dense(),
        j < u.fields@.len(),
        u.spec_len() > 0,
        u.children@[j as int]@.len() > 0,
        all_match(*u, j as int),
    ensures
        r.wf(),
        r@ == extracted(*u, j as int),
{
    let child = &u.children[j];
    let offs: &Vec<usize> = match &u.offsets {
        Option::Some(o) => o,
        Option::None => vstd::pervasive::unreached(),
    };
    let n: usize = u.type_ids.len();
    proof {
        assert forall|i: int| 0 <= i < n implies (#[trigger] offs@[i]) < child@.len() by {
            lemma_matching_row(*u, j as int, i);
        }
        assert forall|i: int| 0 <= i < n implies extracted(*u, j as int)[i] == child@[
            offs@[i] as int
        ] by {}
    }
    if child.len() >= n && offsets_sequential(offs) {
        proof {
            assert forall|i: int| 0 <= i < n implies (#[trigger] offs@[i]) == offs@[0] + i by {
                lemma_sequential_from_first(offs@, i);
            }
        }
        if child.len() == n {
            let r = child.clone();
            proof {
                assert(offs@[n - 1] == offs@[0] + (n - 1));
                assert(offs@[0] == 0);
                assert(r@ =~= extracted(*u, j as int));
            }
            r
        } else {
            let start: usize = offs[0];
            proof {
                assert(offs@[n - 1] == start + (n - 1));
            }
            let r = child.slice_range(start, n);
            proof {
                assert(r@ =~= extracted(*u, j as int));
            }
            r
        }
    } else {
        let r = child.take_at(offs);
        proof {
            assert(r@ =~= extracted(*u, j as int));
        }
        r
    }
}

/// The cursor of the span walk: whether the rows walked so far end in a run
/// of matching rows, and, when they do, the contiguous span of child
/// elements `[run_start, run_start + run_len)` that those rows reference and
/// that has not been copied out yet.
#[derive(Clone, Copy, Debug, PartialEq, Eq, Structural)]
pub struct SpanState {
    pub matching: bool,
    pub run_start: usize,
    pub run_len: usize,
}

/// What the walk does at one row, besides moving the cursor.
#[derive(Clone, Copy, Debug, PartialEq, Eq, Structural)]
pub enum SpanAction {
    /// A contiguous matching row: the pending span grows; nothing is copied.
    KeepAccumulating,
    /// A matching row whose offset breaks the span: copy the pending span
    /// out, then start a new one at this row's offset.
    FlushThenRestart,
    /// A matching row after non-matching ones: pad the output with nulls up
    /// to this row, then start a span at its offset.
    BeginAfterNulls,
    /// A non-matching row ending a span: copy the pending span out.
    FlushAndStop,
    /// A non-matching row amid non-matching rows: nothing to do.
    Skip,
}

/// The cursor after one row.
pub open spec fn span_step_state(s: SpanState, offset: usize, is_match: bool) -> SpanState {
    if is_match {
        if s.matching && offset == s.run_start + s.run_len {
            SpanState { matching: true, run_start: s.run_start, run_len: (s.run_len + 1) as usize }
        } else {
            SpanState { matching: true, run_start: offset, run_len: 1 }
        }
    } else {
        SpanState { matching: false, run_start: 0, run_len: 0 }
    }
}

/// The action at one row.
pub open spec fn span_step_action(s: SpanState, offset: usize, is_match: bool) -> SpanAction {
    if is_match {
        if s.matching {
            if offset == s.run_start + s.run_len {
                SpanAction::KeepAccumulating
            } else {
                SpanAction::FlushThenRestart
            }
        } else {
            SpanAction::BeginAfterNulls
        }
    } else {
        if s.matching {
            SpanAction::FlushAndStop
        } else {
            SpanAction::Skip
        }
    }
}

impl SpanState {
    /// The cursor before any row.
    pub fn start() -> (s: SpanState)
        ensures
            s == (SpanState { matching: false, run_start: 0usize, run_len: 0usize }),
    {
        SpanState { matching: false, run_start: 0, run_len: 0 }
    }

    /// One transition of the walk, isolated from the array-building sink:
    /// the next cursor and what the sink should do.
    pub fn step(self, offset: usize, is_match: bool) -> (r: (SpanState, SpanAction))
        requires
            self.matching ==> self.run_start + self.run_len <= usize::MAX,
            (self.matching && is_match && offset == self.run_start + self.run_len) ==> self.run_len
                < usize::MAX,
        ensures
            r.0 == span_step_state(self, offset, is_match),
            r.1 == span_step_action(self, offset, is_match),
    {
        if is_match {
            if self.matching && offset == self.run_start + self.run_len {
                (
                    SpanState {
                        matching: true,
                        run_start: self.run_start,
                        run_len: self.run_len + 1,
                    },
                    SpanAction::KeepAccumulating,
                )
            } else if self.matching {
                (
                    SpanState { matching: true, run_start: offset, run_len: 1 },
                    SpanAction::FlushThenRestart,
                )
            } else {
                (
                    SpanState { matching: true, run_start: offset, run_len: 1 },
                    SpanAction::BeginAfterNulls,
                )
            }
        } else {
            if self.matching {
                (SpanState { matching: false, run_start: 0, run_len: 0 }, SpanAction::FlushAndStop)
            } else {
                (SpanState { matching: false, run_start: 0, run_len: 0 }, SpanAction::Skip)
            }
        }
    }
}

/// The masked rebuild: one pass over the rows, copying each maximal
/// contiguous run of matching offsets out of the child and padding every
/// other row with a null.  Correct for any well-formed dense column; the
/// fast paths above merely avoid it.
pub fn masked_rebuild(u: &UnionArray, j: usize) -> (r: ValueArray)
    requires
        u.wf(),
        u.is_dense(),
        j < u.fields@.len(),
    ensures
        r.wf(),
        r@ == extracted(*u, j as int),
{
    let ghost target = extracted(*u, j as int);
    let child = &u.children[j];
    let tid: i8 = u.fields[j].type_id;
    let offs: &Vec<usize> = match &u.offsets {
        Option::Some(o) => o,
        Option::None => vstd::pervasive::unreached(),
    };
    let n: usize = u.type_ids.len();
    proof {
        assert(child@.len() == child.values.len());
    }
    let mut b = ArrayBuilder::new();
    let mut s = SpanState::start();
    let mut i: usize = 0;
    while i < n
        invariant
            u.wf(),
            u.is_dense(),
            j < u.fields@.len(),
            child == &u.children@[j as int],
            tid == u.fields@[j as int].type_id,
            offs@ == u.offs(),
            n == u.spec_len(),
            target == extracted(*u, j as int),
            i <= n,
            child@.len() <= usize::MAX,
            b.wf(),
            s.matching ==> {
                &&& s.run_len >= 1
                &&& s.run_start + s.run_len <= child@.len()
                &&& b@.len() + s.run_len == i
                &&& b@ + child@.subrange(s.run_start as int, s.run_start + s.run_len) == target.subrange(0, i as int)
            },
            !s.matching ==> {
                &&& b@.len() <= i
                &&& b@ == target.subrange(0, b@.len() as int)
                &&& forall|l: int| b@.len() <= l < i ==> target[l] is None
            },
        decreases n - i,
    {
        let offset: usize = offs[i];
        let is_match: bool = u.type_ids[i] == tid;
        proof {
            if is_match {
                lemma_matching_row(*u, j as int, i as int);
                assert(offset < child@.len());
                assert(target[i as int] == child@[offset as int]);
            } else {
                assert(target[i as int] is None);
            }
        }
        let (s2, action) = s.step(offset, is_match);
        match action {
            SpanAction::KeepAccumulating => {
                proof {
                    assert(b@ + child@.subrange(s2.run_start as int, s2.run_start + s2.run_len)
                        =~= target.subrange(0, i + 1));
                }
            },
            SpanAction::FlushThenRestart => {
                b.extend_from(child, s.run_start, s.run_start + s.run_len);
                proof {
                    assert(b@ == target.subrange(0, i as int));
                    assert(b@ + child@.subrange(s2.run_start as int, s2.run_start + s2.run_len)
                        =~= target.subrange(0, i + 1));
                }
            },
            SpanAction::BeginAfterNulls => {
                let pad: usize = i - b.len();
                proof {
                    assert(b@.len() + pad <= usize::MAX);
                }
                b.extend_nulls(pad);
                proof {
                    assert(b@ =~= target.subrange(0, i as int));
                    assert(b@ + child@.subrange(s2.run_start as int, s2.run_start + s2.run_len)
                        =~= target.subrange(0, i + 1));
                }
            },
            SpanAction::FlushAndStop => {
                b.extend_from(child, s.run_start, s.run_start + s.run_len);
                proof {
                    assert(b@ == target.subrange(0, i as int));
                }
            },
            SpanAction::Skip => {},
        }
        s = s2;
        i = i + 1;
    }
    if s.matching {
        b.extend_from(child, s.run_start, s.run_start + s.run_len);
        proof {
            assert(b@ == target.subrange(0, n as int));
        }
    }
    let pad: usize = n - b.len();
    b.extend_nulls(pad);
    proof {
        assert(b@ =~= target);
    }
    let r = b.freeze();
    r
}

/// Extracts field `j` from a dense union column: classifies the shape and
/// routes to the cheapest correct path.
pub fn extract_dense(u: &UnionArray, j: usize) -> (r: ValueArray)
    requires
        u.wf(),
        u.is_dense(),
        j < u.fields@.len(),
    ensures
        r.wf(),
        r@ == extracted(*u, j as int),
{
    let child = &u.children[j];
    match classify(u, j) {
        DenseCase::EmptyUnion => {
            // No rows: nothing of the child may leak, not even unreferenced
            // trailing values.
            if child.len() == 0 {
                let r = child.clone();
                proof {
                    assert(r@ =~= extracted(*u, j as int));
                }
                r
            } else {
                let r = ValueArray::new_empty();
                proof {
                    assert(r@ =~= extracted(*u, j as int));
                }
                r
            }
        },
        DenseCase::EmptyChild => {
            // Rows exist but the child has no values, so no row can select
            // this field: all null.
            let r = ValueArray::new_null(u.len());
            proof {
                assert forall|i: int| 0 <= i < u.spec_len() implies extracted(*u, j as int)[i]
                    is None by {
                    if u.type_ids@[i] == u.fields@[j as int].type_id {
                        lemma_matching_row(*u, j as int, i);
                    }
                }
                assert(r@ =~= extracted(*u, j as int));
            }
            r
        },
        DenseCase::SingleField => {
            proof {
                lemma_single_field_all_match(*u);
            }
            take_all_in_offset_order(u, j)
        },
        DenseCase::FastPathMultiField => {
            proof {
                if !all_match(*u, j as int) {
                    lemma_others_empty_all_match(*u, j as int);
                }
            }
            take_all_in_offset_order(u, j)
        },
        DenseCase::MaskedRebuild => masked_rebuild(u, j),
    }
}

} // verus!
