//! The extraction dispatcher: resolves the requested field name against the
//! declared fields, fails when it is absent, and otherwise routes to the
//! sparse, dense or scalar extractor.  It never inspects row data.

use vstd::prelude::*;

use crate::column::{extracted, UnionArray};
use crate::dense::extract_dense;
use crate::fields::{find_field, has_field_name, index_of_name};
use crate::scalar::{extract_scalar, scalar_extracted, UnionScalar};
use crate::sparse::extract_sparse;
use crate::values::ValueArray;

verus! {

/// The recoverable failure of an extraction: the requested field name is
/// not declared on the union.  A missing field is always an error, never a
/// null result.
#[derive(Clone, Copy, Debug, PartialEq, Eq, Structural)]
pub enum ExtractError {
    FieldNotFound,
}

/// A union value in either form: a column of rows or a single scalar.
#[derive(Debug)]
pub enum UnionValue {
    Array(UnionArray),
    Scalar(UnionScalar),
}

/// What an extraction returns: a plain nullable column, or a plain nullable
/// scalar, of the requested variant.
#[derive(Debug)]
pub enum ExtractedValue {
    Array(ValueArray),
    Scalar(Option<u64>),
}

impl UnionValue {
    pub open spec fn wf(self) -> bool {
        match self {
            UnionValue::Array(u) => u.wf(),
            UnionValue::Scalar(s) => s.wf(),
        }
    }

    /// The declared fields, common to both forms.
    pub open spec fn decl_fields(self) -> Seq<crate::fields::FieldDef> {
        match self {
            UnionValue::Array(u) => u.fields@,
            UnionValue::Scalar(s) => s.fields@,
        }
    }
}

/// Extracts the field named `field_name` from a union column: `Ok` exactly
/// when the name is declared, and then row-for-row the logical extraction.
pub fn extract_from_array(u: &UnionArray, field_name: &str) -> (r: Result<
    ValueArray,
    ExtractError,
>)
    requires
        u.wf(),
    ensures
        r is Ok <==> has_field_name(u.fields@, field_name@),
        match r {
            Result::Ok(arr) => {
                &&& arr.wf()
                &&& arr@ == extracted(*u, index_of_name(u.fields@, field_name@))
            },
            Result::Err(e) => e == ExtractError::FieldNotFound,
        },
{
    match find_field(&u.fields, field_name) {
        Option::None => Result::Err(ExtractError::FieldNotFound),
        Option::Some(j) => {
            match &u.offsets {
                Option::None => Result::Ok(extract_sparse(u, j)),
                Option::Some(_) => Result::Ok(extract_dense(u, j)),
            }
        },
    }
}

/// Extracts the field named `field_name` from a union scalar: `Ok` exactly
/// when the name is declared, and then the variant's value when it is the
/// active one, null otherwise.
pub fn extract_from_scalar(s: &UnionScalar, field_name: &str) -> (r: Result<
    Option<u64>,
    ExtractError,
>)
    requires
        s.wf(),
    ensures
        r is Ok <==> has_field_name(s.fields@, field_name@),
        match r {
            Result::Ok(v) => v == scalar_extracted(*s, index_of_name(s.fields@, field_name@)),
            Result::Err(e) => e == ExtractError::FieldNotFound,
        },
{
    match find_field(&s.fields, field_name) {
        Option::None => Result::Err(ExtractError::FieldNotFound),
        Option::Some(j) => Result::Ok(extract_scalar(s, j)),
    }
}

/// The single entry point: dispatches on the input form.
pub fn extract_field(input: &UnionValue, field_name: &str) -> (r: Result<
    ExtractedValue,
    ExtractError,
>)
    requires
        input.wf(),
    ensures
        r is Ok <==> has_field_name(input.decl_fields(), field_name@),
        match *input {
            UnionValue::Array(u) => match r {
                Result::Ok(v) => v matches ExtractedValue::Array(arr) && arr.wf() && arr@
                    == extracted(u, index_of_name(u.fields@, field_name@)),
                Result::Err(e) => e == ExtractError::FieldNotFound,
            },
            UnionValue::Scalar(s) => match r {
                Result::Ok(v) => v matches ExtractedValue::Scalar(x) && x == scalar_extracted(
                    s,
                    index_of_name(s.fields@, field_name@),
                ),
                Result::Err(e) => e == ExtractError::FieldNotFound,
            },
        },
{
    match input {
        UnionValue::Array(u) => {
            match extract_from_array(u, field_name) {
                Result::Ok(arr) => Result::Ok(ExtractedValue::Array(arr)),
                Result::Err(e) => Result::Err(e),
            }
        },
        UnionValue::Scalar(s) => {
            match extract_from_scalar(s, field_name) {
                Result::Ok(v) => Result::Ok(ExtractedValue::Scalar(v)),
                Result::Err(e) => Result::Err(e),
            }
        },
    }
}

} // verus!
