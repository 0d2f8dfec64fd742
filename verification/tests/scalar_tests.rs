use union_extract::column::UnionArray;
use union_extract::extract::{
    extract_field, extract_from_scalar, ExtractError, ExtractedValue, UnionValue,
};
use union_extract::fields::FieldDef;
use union_extract::scalar::{ScalarVariant, UnionScalar};
use union_extract::values::ValueArray;

fn decl(type_id: i8, name: &str) -> FieldDef {
    FieldDef { type_id, name: name.to_string() }
}

fn two_field_scalar(value: Option<ScalarVariant>) -> UnionScalar {
    UnionScalar::try_new(vec![decl(0, "a"), decl(1, "b")], value)
        .expect("well-formed union scalar")
}

#[test]
fn scalar_extraction() {
    // The matching field unwraps the value, a different declared field
    // is null, a fully null scalar is null for every declared field.
    let s = two_field_scalar(Some(ScalarVariant { type_id: 0, value: 42 }));
    assert_eq!(extract_from_scalar(&s, "a").unwrap(), Some(42));
    assert_eq!(extract_from_scalar(&s, "b").unwrap(), None);

    let null = two_field_scalar(None);
    assert_eq!(extract_from_scalar(&null, "a").unwrap(), None);
    assert_eq!(extract_from_scalar(&null, "b").unwrap(), None);
}

#[test]
fn scalar_missing_field_is_error() {
    // An undeclared name is an error, never a null result — also on a
    // fully null scalar.
    let s = two_field_scalar(Some(ScalarVariant { type_id: 1, value: 7 }));
    assert_eq!(extract_from_scalar(&s, "c").unwrap_err(), ExtractError::FieldNotFound);

    let null = two_field_scalar(None);
    assert_eq!(extract_from_scalar(&null, "c").unwrap_err(), ExtractError::FieldNotFound);
}

#[test]
fn dispatcher_routes_by_form() {
    let s = two_field_scalar(Some(ScalarVariant { type_id: 0, value: 5 }));
    match extract_field(&UnionValue::Scalar(s), "a").unwrap() {
        ExtractedValue::Scalar(v) => assert_eq!(v, Some(5)),
        ExtractedValue::Array(_) => panic!("scalar input must give a scalar result"),
    }

    let u = UnionArray::try_new(
        vec![decl(0, "a")],
        vec![0, 0],
        None,
        vec![ValueArray::from_values(vec![1, 2])],
    )
    .unwrap();
    match extract_field(&UnionValue::Array(u), "a").unwrap() {
        ExtractedValue::Array(arr) => {
            assert_eq!(arr.len(), 2);
            assert_eq!(arr.get(0), Some(1));
            assert_eq!(arr.get(1), Some(2));
        },
        ExtractedValue::Scalar(_) => panic!("array input must give an array result"),
    }
}

#[test]
fn dispatcher_missing_field_is_error() {
    let u = UnionArray::try_new(
        vec![decl(0, "a")],
        vec![0],
        None,
        vec![ValueArray::from_values(vec![1])],
    )
    .unwrap();
    assert_eq!(
        extract_field(&UnionValue::Array(u), "missing").unwrap_err(),
        ExtractError::FieldNotFound
    );
}
