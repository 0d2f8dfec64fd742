use union_extract::column::UnionArray;
use union_extract::extract::{extract_from_array, ExtractError};
use union_extract::fields::FieldDef;
use union_extract::values::ValueArray;

fn field(type_id: i8, name: &str) -> FieldDef {
    FieldDef { type_id, name: name.to_string() }
}

fn sparse(
    fields: Vec<FieldDef>,
    type_ids: Vec<i8>,
    children: Vec<ValueArray>,
) -> UnionArray {
    UnionArray::try_new(fields, type_ids, None, children).expect("well-formed sparse union")
}

fn collect(a: &ValueArray) -> Vec<Option<u64>> {
    let mut out = Vec::new();
    let mut i = 0;
    while i < a.len() {
        out.push(a.get(i));
        i += 1;
    }
    out
}

#[test]
fn sparse_single_field_round_trip() {
    // One declared field; the child comes back unchanged, values and
    // validity both.
    let child = ValueArray::try_new(vec![7, 8, 9], Some(vec![true, false, true])).unwrap();
    let expected_values = child.values.clone();
    let expected_validity = child.validity.clone();
    let u = sparse(vec![field(3, "only")], vec![3, 3, 3], vec![child]);
    let r = extract_from_array(&u, "only").unwrap();
    assert_eq!(r.values, expected_values);
    assert_eq!(r.validity, expected_validity);
}

#[test]
fn sparse_all_null_fast_path() {
    // The target child is all-null; the result equals that child for
    // every row, whatever the discriminants.
    let a = ValueArray::try_new(vec![1, 2, 3], Some(vec![false, false, false])).unwrap();
    let b = ValueArray::from_values(vec![10, 20, 30]);
    let u = sparse(
        vec![field(0, "a"), field(1, "b")],
        vec![0, 1, 1],
        vec![a, b],
    );
    let r = extract_from_array(&u, "a").unwrap();
    assert_eq!(r.values, vec![1, 2, 3]);
    assert_eq!(r.validity, Some(vec![false, false, false]));
    assert_eq!(collect(&r), vec![None, None, None]);
}

#[test]
fn sparse_mixed_mask_correctness() {
    // Row i is non-null iff the discriminant selects the field and the
    // child is valid there, and then carries the child's value.
    let a = ValueArray::try_new(vec![1, 0, 4], Some(vec![true, true, true])).unwrap();
    let b = ValueArray::from_values(vec![0, 300, 0]);
    let u = sparse(
        vec![field(0, "a"), field(1, "b")],
        vec![0, 1, 0],
        vec![a, b],
    );
    let r = extract_from_array(&u, "a").unwrap();
    assert_eq!(collect(&r), vec![Some(1), None, Some(4)]);
    // The fallback keeps the child's value buffer untouched.
    assert_eq!(r.values, vec![1, 0, 4]);
}

#[test]
fn sparse_union_without_nulls() {
    let ints = ValueArray::from_values(vec![1, 2]);
    let bools = ValueArray::from_values(vec![1, 0]);
    let u = sparse(
        vec![field(0, "a"), field(1, "b")],
        vec![0, 1],
        vec![ints, bools],
    );
    let ra = extract_from_array(&u, "a").unwrap();
    assert_eq!(collect(&ra), vec![Some(1), None]);
    let rb = extract_from_array(&u, "b").unwrap();
    assert_eq!(collect(&rb), vec![None, Some(0)]);
}

#[test]
fn sparse_union_with_nulls() {
    // Child validity and selection combine: a row is null when either says
    // so.
    let ints = ValueArray::try_new(vec![1, 2], Some(vec![true, false])).unwrap();
    let bools = ValueArray::try_new(vec![1, 0], Some(vec![true, false])).unwrap();
    let u = sparse(
        vec![field(0, "a"), field(1, "b")],
        vec![0, 1],
        vec![ints, bools],
    );
    let ra = extract_from_array(&u, "a").unwrap();
    assert_eq!(collect(&ra), vec![Some(1), None]);
    let rb = extract_from_array(&u, "b").unwrap();
    assert_eq!(collect(&rb), vec![None, None]);
}

#[test]
fn sparse_unanimous_discriminants_fast_path() {
    // Every row selects the requested field: the child comes back verbatim
    // even with several fields declared.
    let a = ValueArray::try_new(vec![5, 6], Some(vec![true, false])).unwrap();
    let b = ValueArray::from_values(vec![0, 0]);
    let u = sparse(
        vec![field(0, "a"), field(1, "b")],
        vec![0, 0],
        vec![a, b],
    );
    let r = extract_from_array(&u, "a").unwrap();
    assert_eq!(r.values, vec![5, 6]);
    assert_eq!(r.validity, Some(vec![true, false]));
}

#[test]
fn sparse_empty_union() {
    let u = sparse(
        vec![field(0, "a"), field(1, "b")],
        vec![],
        vec![ValueArray::new_empty(), ValueArray::new_empty()],
    );
    let r = extract_from_array(&u, "b").unwrap();
    assert_eq!(r.len(), 0);
}

#[test]
fn sparse_missing_field_is_error() {
    let u = sparse(vec![field(0, "a")], vec![0], vec![ValueArray::from_values(vec![1])]);
    assert_eq!(extract_from_array(&u, "nope").unwrap_err(), ExtractError::FieldNotFound);
}
