//! The tagged-union column model: per-row discriminants, declared fields,
//! one child array per field, and — in the dense layout — per-row offsets
//! into the selected child.  Well-formedness is validated once, at
//! construction; extraction then relies on it.

use vstd::prelude::*;

use crate::fields::{
    fields_wf, find_child_index, has_field_id, index_of_id, lemma_index_of_id,
    lemma_index_of_id_unique, str_eq, FieldDef,
};
use crate::values::ValueArray;

verus! {

/// A union-typed column of `N` logical rows.
///
/// `offsets` is present exactly in the dense layout.  Sparse children are
/// row-aligned (each child has length `N`); a dense child holds only the
/// values its rows reference, possibly with unreferenced extra values, and
/// `offsets[i]` indexes into the child selected by `type_ids[i]`.
#[derive(Debug)]
pub struct UnionArray {
    pub fields: Vec<FieldDef>,
    pub type_ids: Vec<i8>,
    pub offsets: Option<Vec<usize>>,
    pub children: Vec<ValueArray>,
}

impl UnionArray {
    /// The number of logical rows.
    pub open spec fn spec_len(self) -> nat {
        self.type_ids@.len()
    }

    pub open spec fn is_dense(self) -> bool {
        self.offsets is Some
    }

    /// The offset sequence of a dense column.
    pub open spec fn offs(self) -> Seq<usize>
        recommends
            self.is_dense(),
    {
        self.offsets->Some_0@
    }

    /// The position, among the declared fields, of the child that row `i`'s
    /// discriminant selects.
    pub open spec fn child_of_row(self, i: int) -> int {
        index_of_id(self.fields@, self.type_ids@[i])
    }

    /// Well-formedness: declared fields bijective, one child per field, every
    /// discriminant declared, and the layout invariant — row-aligned children
    /// when sparse, in-bounds offsets when dense.
    pub open spec fn wf(self) -> bool {
        &&& fields_wf(self.fields@)
        &&& self.children@.len() == self.fields@.len()
        &&& forall|k: int| 0 <= k < self.children@.len() ==> (#[trigger] self.children@[k]).wf()
        &&& forall|i: int|
            0 <= i < self.type_ids@.len() ==> has_field_id(
                self.fields@,
                #[trigger] self.type_ids@[i],
            )
        &&& match self.offsets {
            Option::None => forall|k: int|
                0 <= k < self.children@.len() ==> (#[trigger] self.children@[k])@.len()
                    == self.type_ids@.len(),
            Option::Some(offsets) => {
                &&& offsets@.len() == self.type_ids@.len()
                &&& forall|i: int|
                    0 <= i < offsets@.len() ==> (#[trigger] offsets@[i]) < self.children@[self.child_of_row(
                        i,
                    )]@.len()
            },
        }
    }

    pub fn len(&self) -> (n: usize)
        ensures
            n == self.spec_len(),
    {
        self.type_ids.len()
    }

    /// Whether every row's discriminant equals `tid`.
    pub fn all_rows_match(&self, tid: i8) -> (b: bool)
        ensures
            b <==> (forall|i: int|
                0 <= i < self.type_ids@.len() ==> (#[trigger] self.type_ids@[i]) == tid),
    {
        let n: usize = self.type_ids.len();
        let mut i: usize = 0;
        while i < n
            invariant
                n == self.type_ids@.len(),
                i <= n,
                forall|k: int| 0 <= k < i ==> (#[trigger] self.type_ids@[k]) == tid,
            decreases n - i,
        {
            if self.type_ids[i] != tid {
                return false;
            }
            i = i + 1;
        }
        true
    }

    /// Validates the model invariant once, at the column's construction:
    /// the columns built here are exactly the well-formed ones.
    #[verifier::loop_isolation(false)]
    pub fn try_new(
        fields: Vec<FieldDef>,
        type_ids: Vec<i8>,
        offsets: Option<Vec<usize>>,
        children: Vec<ValueArray>,
    ) -> (r: Option<UnionArray>)
        ensures
            ({
                let c = (UnionArray { fields, type_ids, offsets, children });
                match r {
                    Option::Some(u) => u == c && c.wf(),
                    Option::None => !c.wf(),
                }
            }),
    {
        let c = UnionArray { fields, type_ids, offsets, children };
        if !check_fields_wf(&c.fields) {
            return Option::None;
        }
        if c.children.len() != c.fields.len() {
            return Option::None;
        }
        let mut k: usize = 0;
        let nc: usize = c.children.len();
        while k < nc
            invariant
                nc == c.children@.len(),
                k <= nc,
                forall|l: int| 0 <= l < k ==> (#[trigger] c.children@[l]).wf(),
            decreases nc - k,
        {
            match &c.children[k].validity {
                Option::None => {},
                Option::Some(v) => {
                    if v.len() != c.children[k].values.len() {
                        proof {
                            assert(!c.children@[k as int].wf());
                        }
                        return Option::None;
                    }
                },
            }
            k = k + 1;
        }
        let n: usize = c.type_ids.len();
        match &c.offsets {
            Option::None => {
                let mut k: usize = 0;
                while k < nc
                    invariant
                        c.offsets is None,
                        nc == c.children@.len(),
                        n == c.type_ids@.len(),
                        k <= nc,
                        forall|l: int|
                            0 <= l < k ==> (#[trigger] c.children@[l])@.len() == n,
                    decreases nc - k,
                {
                    if c.children[k].len() != n {
                        return Option::None;
                    }
                    k = k + 1;
                }
            },
            Option::Some(offsets) => {
                if offsets.len() != n {
                    return Option::None;
                }
            },
        }
        let mut i: usize = 0;
        while i < n
            invariant
                fields_wf(c.fields@),
                c.children@.len() == c.fields@.len(),
                n == c.type_ids@.len(),
                i <= n,
                match c.offsets {
                    Option::None => true,
                    Option::Some(offsets) => offsets@.len() == n,
                },
                forall|l: int|
                    0 <= l < i ==> has_field_id(c.fields@, #[trigger] c.type_ids@[l]),
                forall|l: int|
                    0 <= l < i && c.is_dense() ==> (#[trigger] c.offs()[l]) < c.children@[c.child_of_row(
                        l,
                    )]@.len(),
            decreases n - i,
        {
            match find_child_index(&c.fields, c.type_ids[i]) {
                Option::None => {
                    return Option::None;
                },
                Option::Some(j) => {
                    match &c.offsets {
                        Option::None => {},
                        Option::Some(offsets) => {
                            if offsets[i] >= c.children[j].len() {
                                proof {
                                    assert(c.child_of_row(i as int) == j as int);
                                }
                                return Option::None;
                            }
                        },
                    }
                },
            }
            i = i + 1;
        }
        proof {
            match &c.offsets {
                Option::None => {},
                Option::Some(offsets) => {
                    assert forall|l: int|
                        0 <= l < offsets@.len() implies (#[trigger] offsets@[l])
                        < c.children@[c.child_of_row(l)]@.len() by {
                        assert(c.offs()[l] == offsets@[l]);
                    }
                },
            }
            assert(c.wf());
        }
        Option::Some(c)
    }
}

/// Whether the declared fields are bijective: non-negative type ids, no two
/// fields with one id, no two fields with one name.
pub fn check_fields_wf(fields: &Vec<FieldDef>) -> (b: bool)
    ensures
        b == fields_wf(fields@),
{
    let n: usize = fields.len();
    let mut k: usize = 0;
    while k < n
        invariant
            n == fields@.len(),
            k <= n,
            forall|a: int| 0 <= a < k ==> 0 <= (#[trigger] fields@[a]).type_id,
            forall|a: int, b: int|
                0 <= a < k && a < b < n ==> (#[trigger] fields@[a]).type_id != (
                #[trigger] fields@[b]).type_id,
            forall|a: int, b: int|
                0 <= a < k && a < b < n ==> (#[trigger] fields@[a]).name@ != (
                #[trigger] fields@[b]).name@,
        decreases n - k,
    {
        if fields[k].type_id < 0 {
            return false;
        }
        let mut l: usize = k + 1;
        while l < n
            invariant
                n == fields@.len(),
                k < l || l == k + 1,
                k < n,
                k + 1 <= l <= n,
                forall|b: int|
                    k < b < l ==> (#[trigger] fields@[b]).type_id != fields@[k as int].type_id,
                forall|b: int| k < b < l ==> (#[trigger] fields@[b]).name@ != fields@[
                    k as int
                ].name@,
            decreases n - l,
        {
            if fields[l].type_id == fields[k].type_id {
                return false;
            }
            if str_eq(fields[l].name.as_str(), fields[k].name.as_str()) {
                return false;
            }
            l = l + 1;
        }
        k = k + 1;
    }
    true
}

/// The logical result of extracting field `j` out of `u`: per row, the
/// selected child's element when the row's discriminant matches the field's
/// type id, and null otherwise.  In the sparse layout the child is
/// row-aligned; in the dense layout the row's offset picks the element.
pub open spec fn extracted(u: UnionArray, j: int) -> Seq<Option<u64>>
    recommends
        u.wf(),
        0 <= j < u.fields@.len(),
{
    Seq::new(
        u.type_ids@.len(),
        |i: int|
            if u.type_ids@[i] == u.fields@[j].type_id {
                match u.offsets {
                    Option::None => u.children@[j]@[i],
                    Option::Some(offsets) => u.children@[j]@[offsets@[i] as int],
                }
            } else {
                Option::None
            },
    )
}

/// On a matching row of a well-formed dense column, the row's offset is in
/// bounds for the requested child, which is the row's own child.
pub proof fn lemma_matching_row(u: UnionArray, j: int, i: int)
    requires
        u.wf(),
        u.is_dense(),
        0 <= j < u.fields@.len(),
        0 <= i < u.spec_len(),
        u.type_ids@[i] == u.fields@[j].type_id,
    ensures
        u.child_of_row(i) == j,
        u.offs()[i] < u.children@[j]@.len(),
{
    lemma_index_of_id_unique(u.fields@, u.type_ids@[i], j);
}

/// With a single declared field, every row's discriminant is its type id.
pub proof fn lemma_single_field_all_match(u: UnionArray)
    requires
        u.wf(),
        u.fields@.len() == 1,
    ensures
        forall|i: int|
            0 <= i < u.spec_len() ==> (#[trigger] u.type_ids@[i]) == u.fields@[0].type_id,
{
    assert forall|i: int|
        0 <= i < u.spec_len() implies (#[trigger] u.type_ids@[i]) == u.fields@[0].type_id by {
        let k = choose|k: int|
            0 <= k < u.fields@.len() && (#[trigger] u.fields@[k]).type_id == u.type_ids@[i];
        assert(k == 0);
    }
}

/// In a dense column where every child but `j` is empty, every row's
/// discriminant is field `j`'s type id: an offset into an empty child is
/// impossible.
pub proof fn lemma_others_empty_all_match(u: UnionArray, j: int)
    requires
        u.wf(),
        u.is_dense(),
        0 <= j < u.fields@.len(),
        forall|k: int|
            0 <= k < u.children@.len() && k != j ==> (#[trigger] u.children@[k])@.len() == 0,
    ensures
        forall|i: int|
            0 <= i < u.spec_len() ==> (#[trigger] u.type_ids@[i]) == u.fields@[j].type_id,
{
    assert forall|i: int|
        0 <= i < u.spec_len() implies (#[trigger] u.type_ids@[i]) == u.fields@[j].type_id by {
        lemma_index_of_id(u.fields@, u.type_ids@[i]);
        let k = u.child_of_row(i);
        assert(u.offs()[i] < u.children@[k]@.len());
        if k != j {
            assert(u.children@[k]@.len() == 0);
        } else {
            assert(u.fields@[k].type_id == u.type_ids@[i]);
        }
    }
}

} // verus!
