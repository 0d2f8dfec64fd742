use union_extract::column::UnionArray;
use union_extract::dense::{classify, DenseCase};
use union_extract::extract::extract_from_array;
use union_extract::fields::FieldDef;
use union_extract::values::ValueArray;

fn named(type_id: i8, name: &str) -> FieldDef {
    FieldDef { type_id, name: name.to_string() }
}

fn dense(
    fields: Vec<FieldDef>,
    type_ids: Vec<i8>,
    offsets: Vec<usize>,
    children: Vec<ValueArray>,
) -> UnionArray {
    UnionArray::try_new(fields, type_ids, Some(offsets), children)
        .expect("well-formed dense union")
}

fn rows(a: &ValueArray) -> Vec<Option<u64>> {
    let mut out = Vec::new();
    let mut i = 0;
    while i < a.len() {
        out.push(a.get(i));
        i += 1;
    }
    out
}

#[test]
fn dense_empty_union() {
    // Zero rows give a zero-length result, whatever the child holds —
    // unreferenced values must not leak.
    let u = dense(
        vec![named(0, "a")],
        vec![],
        vec![],
        vec![ValueArray::from_values(vec![1, 2])],
    );
    assert_eq!(classify(&u, 0), DenseCase::EmptyUnion);
    let r = extract_from_array(&u, "a").unwrap();
    assert_eq!(r.len(), 0);
}

#[test]
fn dense_empty_union_empty_child() {
    let u = dense(vec![named(0, "a")], vec![], vec![], vec![ValueArray::new_empty()]);
    let r = extract_from_array(&u, "a").unwrap();
    assert_eq!(r.len(), 0);
}

#[test]
fn dense_union_empty_child() {
    // The requested child has no values but the union has a row: all
    // null, at the union's length.
    let ints = ValueArray::from_values(vec![1, 2]);
    let bools = ValueArray::new_empty();
    let u = dense(
        vec![named(0, "a"), named(1, "b")],
        vec![0],
        vec![0],
        vec![ints, bools],
    );
    assert_eq!(classify(&u, 1), DenseCase::EmptyChild);
    let r = extract_from_array(&u, "b").unwrap();
    assert_eq!(rows(&r), vec![None]);
}

#[test]
fn dense_sequential_slice() {
    // Single field, offsets 0..N-1, child longer than the union: the
    // result is exactly the child's first N elements.
    let child = ValueArray::from_values(vec![1, 2, 3, 4, 5]);
    let u = dense(vec![named(0, "a")], vec![0, 0, 0], vec![0, 1, 2], vec![child]);
    assert_eq!(classify(&u, 0), DenseCase::SingleField);
    let r = extract_from_array(&u, "a").unwrap();
    assert_eq!(r.values, vec![1, 2, 3]);
    assert_eq!(rows(&r), vec![Some(1), Some(2), Some(3)]);
}

#[test]
fn dense_sequential_slice_from_offset() {
    // Sequential offsets that start past the child's first element slice
    // from there.
    let child = ValueArray::from_values(vec![1, 2, 3, 4, 5]);
    let u = dense(vec![named(0, "a")], vec![0, 0, 0], vec![1, 2, 3], vec![child]);
    let r = extract_from_array(&u, "a").unwrap();
    assert_eq!(r.values, vec![2, 3, 4]);
}

#[test]
fn dense_gather() {
    // Non-sequential offsets gather in row order.
    let child = ValueArray::from_values(vec![10, 20, 30, 40]);
    let u = dense(vec![named(0, "a")], vec![0, 0, 0], vec![0, 2, 1], vec![child]);
    let r = extract_from_array(&u, "a").unwrap();
    assert_eq!(rows(&r), vec![Some(10), Some(30), Some(20)]);
}

#[test]
fn dense_union_duplicated_offsets() {
    let ints = ValueArray::from_values(vec![1, 2]);
    let u = dense(vec![named(0, "a")], vec![0, 0, 0, 0], vec![0, 0, 1, 1], vec![ints]);
    let r = extract_from_array(&u, "a").unwrap();
    assert_eq!(rows(&r), vec![Some(1), Some(1), Some(2), Some(2)]);
}

#[test]
fn dense_union_non_sequential_offsets() {
    let ints = ValueArray::from_values(vec![1, 2, 3, 4, 5, 6, 7, 8]);
    let u = dense(vec![named(0, "a")], vec![0, 0, 0, 0], vec![0, 2, 4, 6], vec![ints]);
    let r = extract_from_array(&u, "a").unwrap();
    assert_eq!(rows(&r), vec![Some(1), Some(3), Some(5), Some(7)]);
}

#[test]
fn dense_union_single_type_exact_size() {
    let ints = ValueArray::from_values(vec![1, 4]);
    let u = dense(vec![named(0, "a")], vec![0, 0], vec![0, 1], vec![ints]);
    let r = extract_from_array(&u, "a").unwrap();
    assert_eq!(r.values, vec![1, 4]);
    assert_eq!(rows(&r), vec![Some(1), Some(4)]);
}

#[test]
fn dense_union_single_type_bigger_child() {
    let ints = ValueArray::from_values(vec![1, 2]);
    let u = dense(vec![named(0, "a")], vec![0], vec![0], vec![ints]);
    let r = extract_from_array(&u, "a").unwrap();
    assert_eq!(rows(&r), vec![Some(1)]);
}

#[test]
fn dense_multi_field_others_empty_fast_path() {
    // Several fields, but the others' children are empty: still "take all
    // of the child in offset order".
    let a = ValueArray::from_values(vec![1, 4]);
    let b = ValueArray::new_empty();
    let u = dense(
        vec![named(0, "a"), named(1, "b")],
        vec![0, 0],
        vec![0, 1],
        vec![a, b],
    );
    assert_eq!(classify(&u, 0), DenseCase::FastPathMultiField);
    let r = extract_from_array(&u, "a").unwrap();
    assert_eq!(rows(&r), vec![Some(1), Some(4)]);
}

#[test]
fn dense_span_walk_mixed() {
    // Discriminants [T, T, U, T] over dense_T = [x, y, z] at positions
    // 0, 1, 2 and dense_U = [w]: the result is [x, y, null, z].
    let dense_t = ValueArray::from_values(vec![100, 200, 300]);
    let dense_u = ValueArray::from_values(vec![400]);
    let u = dense(
        vec![named(0, "t"), named(1, "u")],
        vec![0, 0, 1, 0],
        vec![0, 1, 0, 2],
        vec![dense_t, dense_u],
    );
    assert_eq!(classify(&u, 0), DenseCase::MaskedRebuild);
    let r = extract_from_array(&u, "t").unwrap();
    assert_eq!(rows(&r), vec![Some(100), Some(200), None, Some(300)]);
    let r2 = extract_from_array(&u, "u").unwrap();
    assert_eq!(rows(&r2), vec![None, None, Some(400), None]);
}

#[test]
fn dense_union_multiple_types() {
    // Interleaved variants, builder-style offsets.
    let a = ValueArray::from_values(vec![1, 4]);
    let b = ValueArray::from_values(vec![300]);
    let u = dense(
        vec![named(0, "a"), named(1, "b")],
        vec![0, 1, 0],
        vec![0, 0, 1],
        vec![a, b],
    );
    let r = extract_from_array(&u, "a").unwrap();
    assert_eq!(rows(&r), vec![Some(1), None, Some(4)]);
    let r2 = extract_from_array(&u, "b").unwrap();
    assert_eq!(rows(&r2), vec![None, Some(300), None]);
}

#[test]
fn dense_span_walk_keeps_child_nulls() {
    // A null inside the dense child stays null in the rebuilt result.
    let a = ValueArray::try_new(vec![1, 2], Some(vec![true, false])).unwrap();
    let b = ValueArray::from_values(vec![9]);
    let u = dense(
        vec![named(0, "a"), named(1, "b")],
        vec![0, 1, 0],
        vec![0, 0, 1],
        vec![a, b],
    );
    let r = extract_from_array(&u, "a").unwrap();
    assert_eq!(rows(&r), vec![Some(1), None, None]);
}

#[test]
fn dense_span_walk_trailing_unmatched() {
    // Rows after the last matching span are padded with nulls.
    let a = ValueArray::from_values(vec![1]);
    let b = ValueArray::from_values(vec![7, 8]);
    let u = dense(
        vec![named(0, "a"), named(1, "b")],
        vec![0, 1, 1],
        vec![0, 0, 1],
        vec![a, b],
    );
    let r = extract_from_array(&u, "a").unwrap();
    assert_eq!(rows(&r), vec![Some(1), None, None]);
}
