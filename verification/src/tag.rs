//! The companion discriminant-name operation: maps every row of a union
//! column to the declared name of its active variant, as a dictionary — the
//! discriminants themselves are the keys, and the names table is indexed by
//! type id.  For a scalar it is the active variant's name, or null.

use vstd::prelude::*;
use vstd::pervasive::VecAdditionalExecFns;

use crate::column::UnionArray;
use crate::fields::{index_of_id, lemma_index_of_id, lemma_index_of_id_unique, FieldDef};
use crate::scalar::UnionScalar;

verus! {

/// A dictionary-encoded string column: per row a key, and a names table the
/// keys index into.
#[derive(Debug)]
pub struct TagDictionary {
    pub keys: Vec<i8>,
    pub names: Vec<String>,
}

/// The size of the names table: one slot per type id up to the largest
/// declared one, and none at all when no field is declared.
pub open spec fn table_len(fields: Seq<FieldDef>) -> int
    decreases fields.len(),
{
    if fields.len() == 0 {
        0
    } else {
        let rest = table_len(fields.drop_last());
        let last = fields.last().type_id + 1;
        if last > rest {
            last as int
        } else {
            rest
        }
    }
}

/// Every declared type id fits in the table.
pub proof fn lemma_table_len(fields: Seq<FieldDef>, k: int)
    requires
        0 <= k < fields.len(),
    ensures
        fields[k].type_id < table_len(fields),
        table_len(fields) >= 0,
    decreases fields.len(),
{
    lemma_table_len_nonneg(fields);
    if k < fields.len() - 1 {
        lemma_table_len(fields.drop_last(), k);
    }
}

pub proof fn lemma_table_len_nonneg(fields: Seq<FieldDef>)
    ensures
        table_len(fields) >= 0,
    decreases fields.len(),
{
    if fields.len() > 0 {
        lemma_table_len_nonneg(fields.drop_last());
    }
}

/// The name of the field declared with type id `tid`.
pub open spec fn name_of_id(fields: Seq<FieldDef>, tid: i8) -> Seq<char> {
    fields[index_of_id(fields, tid)].name@
}

/// Maps every row to the declared name of its active variant, dictionary
/// encoded: the keys are the discriminants as they stand, and for every
/// declared field the names table holds its name at its type id.
pub fn tag_of_array(u: &UnionArray) -> (d: TagDictionary)
    requires
        u.wf(),
    ensures
        d.keys@ == u.type_ids@,
        d.names@.len() == table_len(u.fields@),
        forall|k: int|
            0 <= k < u.fields@.len() ==> d.names@[(#[trigger] u.fields@[k]).type_id as int]@
                == u.fields@[k].name@,
        forall|i: int|
            0 <= i < u.type_ids@.len() ==> {
                &&& 0 <= (#[trigger] u.type_ids@[i]) < d.names@.len()
                &&& d.names@[u.type_ids@[i] as int]@ == name_of_id(u.fields@, u.type_ids@[i])
            },
{
    let keys: Vec<i8> = u.type_ids.clone();
    proof {
        assert(keys@ =~= u.type_ids@);
    }
    let nf: usize = u.fields.len();
    let mut width: usize = 0;
    let mut k: usize = 0;
    while k < nf
        invariant
            u.wf(),
            nf == u.fields@.len(),
            k <= nf,
            width == table_len(u.fields@.subrange(0, k as int)),
            width <= 128,
        decreases nf - k,
    {
        proof {
            lemma_table_len_nonneg(u.fields@.subrange(0, k as int));
            assert(u.fields@.subrange(0, k + 1 as int).drop_last() =~= u.fields@.subrange(
                0,
                k as int,
            ));
            assert(u.fields@.subrange(0, k + 1 as int).last() == u.fields@[k as int]);
        }
        let tid: i8 = u.fields[k].type_id;
        let slot: usize = (tid as usize) + 1;
        if slot > width {
            width = slot;
        }
        k = k + 1;
    }
    proof {
        assert(u.fields@.subrange(0, nf as int) =~= u.fields@);
    }
    let mut names: Vec<String> = Vec::new();
    let mut w: usize = 0;
    while w < width
        invariant
            w <= width,
            names@.len() == w,
        decreases width - w,
    {
        names.push(String::new());
        w = w + 1;
    }
    let mut k: usize = 0;
    while k < nf
        invariant
            u.wf(),
            nf == u.fields@.len(),
            k <= nf,
            names@.len() == table_len(u.fields@),
            forall|l: int|
                0 <= l < k ==> names@[(#[trigger] u.fields@[l]).type_id as int]@
                    == u.fields@[l].name@,
        decreases nf - k,
    {
        let tid: i8 = u.fields[k].type_id;
        proof {
            lemma_table_len(u.fields@, k as int);
            assert(0 <= tid);
            assert((tid as usize) as int == tid as int);
        }
        let ghost prev = names@;
        names.set(tid as usize, u.fields[k].name.clone());
        proof {
            assert(names@ == prev.update(tid as int, names@[tid as int]));
            assert(names@[tid as int]@ == u.fields@[k as int].name@);
            assert forall|l: int|
                0 <= l < k + 1 implies names@[(#[trigger] u.fields@[l]).type_id as int]@
                == u.fields@[l].name@ by {
                if l < k {
                    lemma_table_len(u.fields@, l);
                    assert(0 <= u.fields@[l].type_id);
                    assert(u.fields@[l].type_id != u.fields@[k as int].type_id);
                    assert(names@[u.fields@[l].type_id as int] == prev[u.fields@[l].type_id as int]);
                }
            }
        }
        k = k + 1;
    }
    let d = TagDictionary { keys, names };
    proof {
        assert forall|i: int| 0 <= i < u.type_ids@.len() implies {
            &&& 0 <= (#[trigger] u.type_ids@[i]) < d.names@.len()
            &&& d.names@[u.type_ids@[i] as int]@ == name_of_id(u.fields@, u.type_ids@[i])
        } by {
            lemma_index_of_id(u.fields@, u.type_ids@[i]);
            let j = index_of_id(u.fields@, u.type_ids@[i]);
            lemma_table_len(u.fields@, j);
            assert(d.names@[u.fields@[j].type_id as int]@ == u.fields@[j].name@);
        }
    }
    d
}

/// The active variant's declared name, or `None` for a fully null scalar.
pub fn tag_of_scalar(s: &UnionScalar) -> (r: Option<String>)
    requires
        s.wf(),
    ensures
        r is Some <==> s.value is Some,
        match (s.value, r) {
            (Option::Some(v), Option::Some(name)) => name@ == name_of_id(s.fields@, v.type_id),
            (Option::None, Option::None) => true,
            _ => false,
        },
{
    match &s.value {
        Option::None => Option::None,
        Option::Some(v) => {
            match crate::fields::find_child_index(&s.fields, v.type_id) {
                Option::Some(j) => {
                    proof {
                        lemma_index_of_id_unique(s.fields@, v.type_id, j as int);
                    }
                    Option::Some(s.fields[j].name.clone())
                },
                Option::None => vstd::pervasive::unreached(),
            }
        },
    }
}

} // verus!
