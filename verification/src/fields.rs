//! Declared fields of a union: the bijective mapping from field name to type
//! id, and its lookups.

use vstd::prelude::*;
use vstd::string::StrSliceExecFns;

verus! {

/// One declared variant: its type id and its name.
#[derive(Debug)]
pub struct FieldDef {
    pub type_id: i8,
    pub name: String,
}

/// The declared fields are well formed: type ids are small non-negative
/// integers, no two fields share a type id, and no two share a name.
pub open spec fn fields_wf(fields: Seq<FieldDef>) -> bool {
    &&& forall|k: int| 0 <= k < fields.len() ==> 0 <= (#[trigger] fields[k]).type_id
    &&& forall|k: int, l: int|
        0 <= k < l < fields.len() ==> (#[trigger] fields[k]).type_id != (
        #[trigger] fields[l]).type_id
    &&& forall|k: int, l: int|
        0 <= k < l < fields.len() ==> (#[trigger] fields[k]).name@ != (#[trigger] fields[l]).name@
}

/// Whether some declared field carries the type id `tid`.
pub open spec fn has_field_id(fields: Seq<FieldDef>, tid: i8) -> bool {
    exists|k: int| 0 <= k < fields.len() && (#[trigger] fields[k]).type_id == tid
}

/// Whether some declared field is named `name`.
pub open spec fn has_field_name(fields: Seq<FieldDef>, name: Seq<char>) -> bool {
    exists|k: int| 0 <= k < fields.len() && (#[trigger] fields[k]).name@ == name
}

/// The position of the field that carries `tid` (the first, which under
/// `fields_wf` is the only one).
pub open spec fn index_of_id(fields: Seq<FieldDef>, tid: i8) -> int
    decreases fields.len(),
{
    if fields.len() == 0 {
        0
    } else if fields[0].type_id == tid {
        0
    } else {
        1 + index_of_id(fields.drop_first(), tid)
    }
}

/// The position of the field named `name` (the first, which under
/// `fields_wf` is the only one).
pub open spec fn index_of_name(fields: Seq<FieldDef>, name: Seq<char>) -> int
    decreases fields.len(),
{
    if fields.len() == 0 {
        0
    } else if fields[0].name@ == name {
        0
    } else {
        1 + index_of_name(fields.drop_first(), name)
    }
}

/// When `tid` is declared, `index_of_id` lands on it.
pub proof fn lemma_index_of_id(fields: Seq<FieldDef>, tid: i8)
    requires
        has_field_id(fields, tid),
    ensures
        0 <= index_of_id(fields, tid) < fields.len(),
        fields[index_of_id(fields, tid)].type_id == tid,
    decreases fields.len(),
{
    if fields.len() > 0 && fields[0].type_id != tid {
        let sub = fields.drop_first();
        assert forall|k: int| 0 <= k < fields.len() && fields[k].type_id == tid implies exists|
            l: int,
        | 0 <= l < sub.len() && (#[trigger] sub[l]).type_id == tid by {
            assert(sub[k - 1] == fields[k]);
        }
        lemma_index_of_id(sub, tid);
    }
}

/// Any position that carries `tid` is `index_of_id`: the lookup is unique
/// under `fields_wf`.
pub proof fn lemma_index_of_id_unique(fields: Seq<FieldDef>, tid: i8, k: int)
    requires
        fields_wf(fields),
        0 <= k < fields.len(),
        fields[k].type_id == tid,
    ensures
        index_of_id(fields, tid) == k,
{
    lemma_index_of_id(fields, tid);
    let j = index_of_id(fields, tid);
    if j != k {
        if j < k {
            assert(fields[j].type_id != fields[k].type_id);
        } else {
            assert(fields[k].type_id != fields[j].type_id);
        }
    }
}

/// When `name` is declared, `index_of_name` lands on it.
pub proof fn lemma_index_of_name(fields: Seq<FieldDef>, name: Seq<char>)
    requires
        has_field_name(fields, name),
    ensures
        0 <= index_of_name(fields, name) < fields.len(),
        fields[index_of_name(fields, name)].name@ == name,
    decreases fields.len(),
{
    if fields.len() > 0 && fields[0].name@ != name {
        let sub = fields.drop_first();
        assert forall|k: int| 0 <= k < fields.len() && fields[k].name@ == name implies exists|
            l: int,
        | 0 <= l < sub.len() && (#[trigger] sub[l]).name@ == name by {
            assert(sub[k - 1] == fields[k]);
        }
        lemma_index_of_name(sub, name);
    }
}

/// Any position that carries `name` is `index_of_name`: the lookup is unique
/// under `fields_wf`.
pub proof fn lemma_index_of_name_unique(fields: Seq<FieldDef>, name: Seq<char>, k: int)
    requires
        fields_wf(fields),
        0 <= k < fields.len(),
        fields[k].name@ == name,
    ensures
        index_of_name(fields, name) == k,
{
    lemma_index_of_name(fields, name);
    let j = index_of_name(fields, name);
    if j < k {
        assert(fields[j].name@ != fields[k].name@);
    } else if k < j {
        assert(fields[k].name@ != fields[j].name@);
    }
}

/// Character-for-character string comparison.
pub fn str_eq(a: &str, b: &str) -> (r: bool)
    ensures
        r <==> a@ == b@,
{
    let na: usize = a.unicode_len();
    let nb: usize = b.unicode_len();
    if na != nb {
        return false;
    }
    let mut i: usize = 0;
    while i < na
        invariant
            na == a@.len(),
            na == b@.len(),
            i <= na,
            forall|k: int| 0 <= k < i ==> a@[k] == b@[k],
        decreases na - i,
    {
        if a.get_char(i) != b.get_char(i) {
            return false;
        }
        i = i + 1;
    }
    proof {
        assert(a@ =~= b@);
    }
    true
}

/// Looks a field up by name: the position of the declared field so named,
/// or `None` when no field carries the name.
pub fn find_field(fields: &Vec<FieldDef>, name: &str) -> (r: Option<usize>)
    requires
        fields_wf(fields@),
    ensures
        match r {
            Option::Some(j) => {
                &&& j < fields@.len()
                &&& fields@[j as int].name@ == name@
                &&& j == index_of_name(fields@, name@)
                &&& has_field_name(fields@, name@)
            },
            Option::None => !has_field_name(fields@, name@),
        },
{
    let n: usize = fields.len();
    let mut i: usize = 0;
    while i < n
        invariant
            fields_wf(fields@),
            n == fields@.len(),
            i <= n,
            forall|k: int| 0 <= k < i ==> (#[trigger] fields@[k]).name@ != name@,
        decreases n - i,
    {
        if str_eq(fields[i].name.as_str(), name) {
            proof {
                lemma_index_of_name_unique(fields@, name@, i as int);
            }
            return Option::Some(i);
        }
        i = i + 1;
    }
    Option::None
}

/// Looks a field up by type id: the position of the declared field that
/// carries it, or `None` when the id is undeclared.
pub fn find_child_index(fields: &Vec<FieldDef>, tid: i8) -> (r: Option<usize>)
    requires
        fields_wf(fields@),
    ensures
        match r {
            Option::Some(j) => {
                &&& j < fields@.len()
                &&& fields@[j as int].type_id == tid
                &&& j == index_of_id(fields@, tid)
                &&& has_field_id(fields@, tid)
            },
            Option::None => !has_field_id(fields@, tid),
        },
{
    let n: usize = fields.len();
    let mut i: usize = 0;
    while i < n
        invariant
            fields_wf(fields@),
            n == fields@.len(),
            i <= n,
            forall|k: int| 0 <= k < i ==> (#[trigger] fields@[k]).type_id != tid,
        decreases n - i,
    {
        if fields[i].type_id == tid {
            proof {
                lemma_index_of_id_unique(fields@, tid, i as int);
            }
            return Option::Some(i);
        }
        i = i + 1;
    }
    Option::None
}

} // verus!
