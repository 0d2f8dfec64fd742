use union_extract::column::UnionArray;
use union_extract::fields::FieldDef;
use union_extract::scalar::{ScalarVariant, UnionScalar};
use union_extract::tag::{tag_of_array, tag_of_scalar};
use union_extract::values::ValueArray;

fn declared(type_id: i8, name: &str) -> FieldDef {
    FieldDef { type_id, name: name.to_string() }
}

#[test]
fn union_array() {
    // A sparse union with rows (a: 1), (b: _), (a: 4): every row maps to
    // the name of its active variant, dictionary encoded over the
    // discriminants.
    let ints = ValueArray::from_values(vec![1, 0, 4]);
    let others = ValueArray::from_values(vec![0, 3, 0]);
    let u = UnionArray::try_new(
        vec![declared(0, "a"), declared(1, "b")],
        vec![0, 1, 0],
        None,
        vec![ints, others],
    )
    .unwrap();
    let dict = tag_of_array(&u);
    assert_eq!(dict.keys, vec![0, 1, 0]);
    let row_names: Vec<&str> = dict.keys.iter().map(|&k| dict.names[k as usize].as_str()).collect();
    assert_eq!(row_names, vec!["a", "b", "a"]);
}

#[test]
fn union_scalar() {
    let s = UnionScalar::try_new(
        vec![declared(0, "a")],
        Some(ScalarVariant { type_id: 0, value: 0 }),
    )
    .unwrap();
    assert_eq!(tag_of_scalar(&s), Some("a".to_string()));
}

#[test]
fn union_scalar_null_has_no_tag() {
    let s = UnionScalar::try_new(vec![declared(0, "a"), declared(1, "b")], None).unwrap();
    assert_eq!(tag_of_scalar(&s), None);
}

#[test]
fn tag_dictionary_table_spans_largest_id() {
    // Sparse ids leave gaps in the names table; keys still land on their
    // own names.
    let a = ValueArray::from_values(vec![1]);
    let b = ValueArray::from_values(vec![2]);
    let u = UnionArray::try_new(
        vec![declared(5, "five"), declared(2, "two")],
        vec![2],
        None,
        vec![a, b],
    )
    .unwrap();
    let dict = tag_of_array(&u);
    assert_eq!(dict.names.len(), 6);
    assert_eq!(dict.names[5], "five");
    assert_eq!(dict.names[2], "two");
    assert_eq!(dict.keys, vec![2]);
}
