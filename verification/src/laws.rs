//! The library's general laws, each stated over the same spec functions the
//! extractors' contracts use, and proved for every input its hypotheses
//! allow.

use vstd::prelude::*;

use crate::column::{extracted, lemma_matching_row, lemma_single_field_all_match, UnionArray};
use crate::scalar::{scalar_extracted, UnionScalar};
use crate::sparse::{child_all_null, sparse_fast_path};

verus! {

/// Round-trip identity: a sparse union with exactly one declared field
/// extracts to its child unchanged, whatever the discriminants hold — and
/// the extractor's fast-path clause then also keeps the child's own
/// validity bitmap.
pub proof fn lemma_sparse_single_field_identity(u: UnionArray)
    requires
        u.wf(),
        !u.is_dense(),
        u.fields@.len() == 1,
    ensures
        extracted(u, 0) == u.children@[0]@,
        sparse_fast_path(u, 0),
{
    lemma_single_field_all_match(u);
    assert(extracted(u, 0) =~= u.children@[0]@);
}

/// All-null fast path: when the requested sparse child is null at every
/// row, the extraction equals that child, whatever the discriminants hold.
pub proof fn lemma_sparse_all_null_identity(u: UnionArray, j: int)
    requires
        u.wf(),
        !u.is_dense(),
        0 <= j < u.fields@.len(),
        child_all_null(u.children@[j]),
    ensures
        extracted(u, j) == u.children@[j]@,
        sparse_fast_path(u, j),
{
    assert(extracted(u, j) =~= u.children@[j]@);
}

/// Mask correctness: row `i` of a sparse extraction is non-null exactly
/// when the discriminant selects the field and the child is non-null there,
/// and then carries the child's value.
pub proof fn lemma_sparse_mask_correctness(u: UnionArray, j: int, i: int)
    requires
        u.wf(),
        !u.is_dense(),
        0 <= j < u.fields@.len(),
        0 <= i < u.spec_len(),
    ensures
        extracted(u, j)[i] is Some <==> (u.type_ids@[i] == u.fields@[j].type_id
            && u.children@[j]@[i] is Some),
        extracted(u, j)[i] is Some ==> extracted(u, j)[i] == u.children@[j]@[i],
{
}

/// Dense empty union: with zero rows the extraction is empty, whatever the
/// dense child's own size.
pub proof fn lemma_dense_empty_union(u: UnionArray, j: int)
    requires
        u.wf(),
        u.is_dense(),
        0 <= j < u.fields@.len(),
        u.spec_len() == 0,
    ensures
        extracted(u, j).len() == 0,
{
}

/// Dense empty child: rows exist but the child has no values, so no row can
/// select the field and every row extracts to null.
pub proof fn lemma_dense_empty_child(u: UnionArray, j: int)
    requires
        u.wf(),
        u.is_dense(),
        0 <= j < u.fields@.len(),
        u.children@[j]@.len() == 0,
    ensures
        forall|i: int| 0 <= i < u.spec_len() ==> (#[trigger] extracted(u, j)[i]) is None,
{
    assert forall|i: int| 0 <= i < u.spec_len() implies (#[trigger] extracted(u, j)[i]) is None by {
        if u.type_ids@[i] == u.fields@[j].type_id {
            lemma_matching_row(u, j, i);
        }
    }
}

/// Dense sequential slice: a single field whose offsets run `0, 1, 2, ...`
/// over a child longer than the union extracts to exactly the child's first
/// `N` elements.
pub proof fn lemma_dense_sequential_slice(u: UnionArray)
    requires
        u.wf(),
        u.is_dense(),
        u.fields@.len() == 1,
        forall|i: int| 0 <= i < u.spec_len() ==> (#[trigger] u.offs()[i]) == i,
        u.children@[0]@.len() > u.spec_len(),
    ensures
        extracted(u, 0) == u.children@[0]@.subrange(0, u.spec_len() as int),
{
    lemma_single_field_all_match(u);
    assert forall|i: int| 0 <= i < u.spec_len() implies extracted(u, 0)[i] == u.children@[0]@.subrange(
        0,
        u.spec_len() as int,
    )[i] by {
        assert(u.offs()[i] == i);
    }
    assert(extracted(u, 0) =~= u.children@[0]@.subrange(0, u.spec_len() as int));
}

/// Scalar extraction: the value comes back exactly when the active variant
/// is the requested field; a different active variant, or a fully null
/// scalar, extracts to null.
pub proof fn lemma_scalar_extraction(s: UnionScalar, j: int)
    requires
        s.wf(),
        0 <= j < s.fields@.len(),
    ensures
        s.value matches Option::Some(v) ==> {
            &&& v.type_id == s.fields@[j].type_id ==> scalar_extracted(s, j) == Option::Some(
                v.value,
            )
            &&& v.type_id != s.fields@[j].type_id ==> scalar_extracted(s, j) is None
        },
        s.value is None ==> scalar_extracted(s, j) is None,
{
}

} // verus!
