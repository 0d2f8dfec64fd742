//! The scalar form of a union value — one selected variant with one value,
//! or a fully null scalar — and its extractor: pure value-level logic, no
//! array allocation.

use vstd::prelude::*;

use crate::fields::{fields_wf, find_child_index, has_field_id, FieldDef};

verus! {

/// The active variant of a non-null union scalar.
#[derive(Clone, Copy, Debug, PartialEq, Eq, Structural)]
pub struct ScalarVariant {
    pub type_id: i8,
    pub value: u64,
}

/// A single constant union value: `None` when fully null, otherwise one
/// selected variant and its value, with the declared field mapping.
#[derive(Debug)]
pub struct UnionScalar {
    pub fields: Vec<FieldDef>,
    pub value: Option<ScalarVariant>,
}

impl UnionScalar {
    /// The declared fields are bijective and the active variant, when
    /// present, is declared.
    pub open spec fn wf(self) -> bool {
        &&& fields_wf(self.fields@)
        &&& match self.value {
            Option::None => true,
            Option::Some(v) => has_field_id(self.fields@, v.type_id),
        }
    }

    /// Validates the scalar invariant at construction: the scalars built
    /// here are exactly the well-formed ones.
    pub fn try_new(fields: Vec<FieldDef>, value: Option<ScalarVariant>) -> (r: Option<UnionScalar>)
        ensures
            ({
                let c = (UnionScalar { fields, value });
                match r {
                    Option::Some(s) => s == c && c.wf(),
                    Option::None => !c.wf(),
                }
            }),
    {
        let c = UnionScalar { fields, value };
        if !crate::column::check_fields_wf(&c.fields) {
            return Option::None;
        }
        match &c.value {
            Option::None => {},
            Option::Some(v) => {
                match find_child_index(&c.fields, v.type_id) {
                    Option::None => {
                        return Option::None;
                    },
                    Option::Some(_) => {},
                }
            },
        }
        Option::Some(c)
    }
}

/// The logical result of extracting field `j` out of the scalar `s`: the
/// value when the active variant is field `j`, and null otherwise — also
/// when the scalar itself is null.
pub open spec fn scalar_extracted(s: UnionScalar, j: int) -> Option<u64> {
    match s.value {
        Option::None => Option::None,
        Option::Some(v) => {
            if v.type_id == s.fields@[j].type_id {
                Option::Some(v.value)
            } else {
                Option::None
            }
        },
    }
}

/// Extracts field `j` from a union scalar.
pub fn extract_scalar(s: &UnionScalar, j: usize) -> (r: Option<u64>)
    requires
        s.wf(),
        j < s.fields@.len(),
    ensures
        r == scalar_extracted(*s, j as int),
{
    match &s.value {
        Option::None => Option::None,
        Option::Some(v) => {
            if v.type_id == s.fields[j].type_id {
                Option::Some(v.value)
            } else {
                Option::None
            }
        },
    }
}

} // verus!
