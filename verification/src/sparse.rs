//! The sparse extractor.  Sparse children are row-aligned, so extraction is
//! the child itself whenever no row can disagree with it — a single declared
//! field, no rows, an all-null child, or unanimous discriminants — and is
//! otherwise the child's values under a combined validity bitmap.  No path
//! copies or changes value bytes.

use vstd::prelude::*;

use crate::column::{extracted, lemma_single_field_all_match, UnionArray};
use crate::mask::{combine_validity, selected_mask};
use crate::values::ValueArray;

verus! {

/// Whether every element of `a` is null.
pub open spec fn child_all_null(a: ValueArray) -> bool {
    forall|i: int| 0 <= i < a@.len() ==> (#[trigger] a@[i]) is None
}

/// The conditions under which the sparse extractor hands the child back
/// verbatim: only one declared field, a union of zero rows, a child that is
/// already null everywhere, or discriminants that all select the field.
pub open spec fn sparse_fast_path(u: UnionArray, j: int) -> bool {
    ||| u.fields@.len() == 1
    ||| u.spec_len() == 0
    ||| child_all_null(u.children@[j])
    ||| (forall|i: int|
        0 <= i < u.spec_len() ==> (#[trigger] u.type_ids@[i]) == u.fields@[j].type_id)
}

/// Extracts field `j` from a sparse union column.
///
/// The result is row-for-row the logical extraction: the child's element
/// where the discriminant selects field `j`, null elsewhere.  The child's
/// value buffer is reused as it stands, and on a fast path the validity
/// bitmap is the child's own.
pub fn extract_sparse(u: &UnionArray, j: usize) -> (r: ValueArray)
    requires
        u.wf(),
        !u.is_dense(),
        j < u.fields@.len(),
    ensures
        r.wf(),
        r@ == extracted(*u, j as int),
        r.values@ == u.children@[j as int].values@,
        sparse_fast_path(*u, j as int) ==> r.validity_view() == u.children@[
            j as int
        ].validity_view(),
{
    let child = &u.children[j];
    let tid: i8 = u.fields[j].type_id;
    let fast: bool = if u.fields.len() == 1 {
        true
    } else if u.type_ids.len() == 0 {
        true
    } else if child.all_null() {
        true
    } else {
        u.all_rows_match(tid)
    };
    if fast {
        let r = child.clone();
        proof {
            if u.fields@.len() == 1 {
                lemma_single_field_all_match(*u);
            }
            assert(r@ =~= extracted(*u, j as int));
        }
        r
    } else {
        proof {
            assert(!sparse_fast_path(*u, j as int));
        }
        let sel: Vec<bool> = selected_mask(&u.type_ids, tid);
        let combined: Vec<bool> = combine_validity(&sel, &child.validity);
        let values: Vec<u64> = child.values.clone();
        let r = ValueArray { values, validity: Option::Some(combined) };
        proof {
            assert forall|i: int| 0 <= i < r@.len() implies r@[i] == extracted(*u, j as int)[i] by {
                assert(r.valid_at(i) == (u.type_ids@[i] == tid && child.valid_at(i)));
            }
            assert(r@ =~= extracted(*u, j as int));
        }
        r
    }
}

} // verus!
