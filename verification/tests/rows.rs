use colback::catalog::{PrimitiveType, StorageType};
use colback::error::ColbackError;
use colback::schema::{DeclaredType, FieldSpec, NullPolicy, RowSchema};
use colback::value::{FieldValue, Value};
use colback::view::{materialize, RowRef, RowView};
use polars::prelude::{Column, DataFrame, DataType};

fn field(name: &str, p: PrimitiveType) -> FieldSpec<'static> {
    FieldSpec {
        name: name.to_string(),
        declared_type: DeclaredType::Plain(p),
        source_column: name.to_string(),
        null_policy: NullPolicy::Error,
        default_value: None,
    }
}

fn optional(name: &str, p: PrimitiveType) -> FieldSpec<'static> {
    FieldSpec {
        name: name.to_string(),
        declared_type: DeclaredType::Optional(p),
        source_column: name.to_string(),
        null_policy: NullPolicy::AsOptional,
        default_value: None,
    }
}

fn defaulted(name: &str, p: PrimitiveType, d: Value<'static>) -> FieldSpec<'static> {
    FieldSpec {
        name: name.to_string(),
        declared_type: DeclaredType::Plain(p),
        source_column: name.to_string(),
        null_policy: NullPolicy::Default,
        default_value: Some(d),
    }
}

fn schema(fields: Vec<FieldSpec<'static>>) -> RowSchema<'static> {
    RowSchema::new(fields).unwrap()
}

fn frame(columns: Vec<Column>) -> DataFrame {
    DataFrame::new_infer_height(columns).unwrap()
}

fn required(v: Value<'static>) -> FieldValue<'static> {
    FieldValue::Required(v)
}

fn values<'a>(row: &RowRef<'a>) -> Vec<FieldValue<'a>> {
    (0..row.len()).map(|i| row.value(i)).collect()
}

fn results<'a, 'r>(
    rows: &'r [Result<RowRef<'a>, ColbackError>],
) -> Vec<Result<Vec<FieldValue<'a>>, &'r ColbackError>> {
    rows.iter()
        .map(|r| match r {
            Ok(row) => Ok(values(row)),
            Err(e) => Err(e),
        })
        .collect()
}

#[test]
fn round_trip() {
    let s = schema(vec![field("row_a", PrimitiveType::U32), field("row_b", PrimitiveType::Bool)]);
    let df = frame(vec![
        Column::new("row_a".into(), [0u32, 1u32]),
        Column::new("row_b".into(), [true, false]),
    ]);
    let view = RowView::build(&s, &df).unwrap();
    assert_eq!(view.len(), 2);
    assert_eq!(
        values(&view.get(0).unwrap()),
        vec![required(Value::UInt32(0)), required(Value::Boolean(true))]
    );
    assert_eq!(
        values(&view.get(1).unwrap()),
        vec![required(Value::UInt32(1)), required(Value::Boolean(false))]
    );
}

#[test]
fn optional_field_is_empty_where_the_cell_is_null() {
    let s = schema(vec![optional("row_c", PrimitiveType::U16)]);
    let df = frame(vec![Column::new("row_c".into(), [None, Some(7u16)])]);
    let view = RowView::build(&s, &df).unwrap();
    assert_eq!(view.get(0).unwrap().get("row_c"), Some(FieldValue::Optional(None)));
    assert_eq!(
        view.get(1).unwrap().get("row_c"),
        Some(FieldValue::Optional(Some(Value::UInt16(7))))
    );
}

#[test]
fn default_stands_in_for_a_null() {
    let s = schema(vec![defaulted("row_a", PrimitiveType::U32, Value::UInt32(1))]);
    let df = frame(vec![Column::new("row_a".into(), [None, Some(5u32)])]);
    let view = RowView::build(&s, &df).unwrap();
    assert_eq!(view.get(0).unwrap().get("row_a"), Some(required(Value::UInt32(1))));
    assert_eq!(view.get(1).unwrap().get("row_a"), Some(required(Value::UInt32(5))));
}

#[test]
fn missing_column() {
    let s = schema(vec![field("row_a", PrimitiveType::U32), field("row_b", PrimitiveType::Bool)]);
    let df = frame(vec![Column::new("row_a".into(), [0u32, 1u32])]);
    assert_eq!(
        RowView::build(&s, &df).err(),
        Some(ColbackError::MissingColumn("row_b".to_string()))
    );
}

#[test]
fn missing_column_whatever_the_later_columns() {
    let s = schema(vec![
        field("row_a", PrimitiveType::U32),
        field("row_b", PrimitiveType::Bool),
        field("row_c", PrimitiveType::U8),
    ]);
    // row_c has the wrong type, row_b is not there at all
    let df = frame(vec![
        Column::new("row_c".into(), ["x", "y"]),
        Column::new("row_a".into(), [0u32, 1u32]),
    ]);
    assert_eq!(
        RowView::build(&s, &df).err(),
        Some(ColbackError::MissingColumn("row_b".to_string()))
    );
}

#[test]
fn first_unbound_field_is_reported() {
    let s = schema(vec![field("row_a", PrimitiveType::U32), field("row_b", PrimitiveType::Bool)]);
    // row_a has the wrong type and comes first in the schema; row_b is missing
    let df = frame(vec![Column::new("row_a".into(), [0u64, 1u64])]);
    assert_eq!(
        RowView::build(&s, &df).err(),
        Some(ColbackError::WrongDtype {
            col: "row_a".to_string(),
            expected: StorageType::UInt32,
            actual: StorageType::UInt64,
        })
    );
}

#[test]
fn wrong_dtype_names_the_true_type() {
    let s = schema(vec![field("row_a", PrimitiveType::U32), field("row_b", PrimitiveType::Bool)]);
    let df = frame(vec![
        Column::new("row_a".into(), [0u32, 1u32]),
        Column::new("row_b".into(), [1i64, 0i64]),
    ]);
    assert_eq!(
        RowView::build(&s, &df).err(),
        Some(ColbackError::WrongDtype {
            col: "row_b".to_string(),
            expected: StorageType::Boolean,
            actual: StorageType::Int64,
        })
    );
}

#[test]
fn wrong_dtype_of_every_catalog_type() {
    let columns = vec![
        (Column::new("c".into(), [1u8]), StorageType::UInt8),
        (Column::new("c".into(), [1u16]), StorageType::UInt16),
        (Column::new("c".into(), [1u32]), StorageType::UInt32),
        (Column::new("c".into(), [1u64]), StorageType::UInt64),
        (Column::new("c".into(), [1i32]), StorageType::Int32),
        (Column::new("c".into(), [1i64]), StorageType::Int64),
        (Column::new("c".into(), [1f32]), StorageType::Float32),
        (Column::new("c".into(), [1f64]), StorageType::Float64),
        (Column::new("c".into(), [true]), StorageType::Boolean),
        (Column::new("c".into(), ["t"]), StorageType::String),
    ];
    let all = [
        PrimitiveType::U8,
        PrimitiveType::U16,
        PrimitiveType::U32,
        PrimitiveType::U64,
        PrimitiveType::I32,
        PrimitiveType::I64,
        PrimitiveType::F32,
        PrimitiveType::F64,
        PrimitiveType::Bool,
        PrimitiveType::String,
    ];
    for (i, (col, actual)) in columns.into_iter().enumerate() {
        let df = frame(vec![col]);
        for (j, p) in all.iter().enumerate() {
            let s = schema(vec![field("c", *p)]);
            let built = RowView::build(&s, &df);
            if i == j {
                assert!(built.is_ok());
            } else {
                match built.err() {
                    Some(ColbackError::WrongDtype { col, expected: _, actual: a }) => {
                        assert_eq!(col, "c");
                        assert_eq!(a, actual);
                    },
                    other => panic!("{other:?}"),
                }
            }
        }
    }
}

#[test]
fn wrong_dtype_outside_the_catalog() {
    let s = schema(vec![field("c", PrimitiveType::U32)]);
    let df = frame(vec![Column::full_null("c".into(), 2, &DataType::Null)]);
    assert_eq!(
        RowView::build(&s, &df).err(),
        Some(ColbackError::WrongDtype {
            col: "c".to_string(),
            expected: StorageType::UInt32,
            actual: StorageType::Other("null".to_string()),
        })
    );
    let df = frame(vec![Column::full_null("c".into(), 2, &DataType::Binary)]);
    assert_eq!(
        RowView::build(&s, &df).err(),
        Some(ColbackError::WrongDtype {
            col: "c".to_string(),
            expected: StorageType::UInt32,
            actual: StorageType::Other("binary".to_string()),
        })
    );
}

#[test]
fn null_fails_its_row_only() {
    let s = schema(vec![field("a", PrimitiveType::I32), field("b", PrimitiveType::String)]);
    let df = frame(vec![
        Column::new("a".into(), [Some(1i32), Some(2), None, Some(4)]),
        Column::new("b".into(), [Some("w"), None, Some("y"), Some("z")]),
    ]);
    let view = RowView::build(&s, &df).unwrap();
    assert_eq!(
        values(&view.get(0).unwrap()),
        vec![required(Value::Int32(1)), required(Value::Text("w"))]
    );
    assert_eq!(
        view.get(1).err(),
        Some(ColbackError::InvalidNull { col: "b".to_string(), idx: 1 })
    );
    assert_eq!(
        view.get(2).err(),
        Some(ColbackError::InvalidNull { col: "a".to_string(), idx: 2 })
    );
    assert_eq!(
        values(&view.get(3).unwrap()),
        vec![required(Value::Int32(4)), required(Value::Text("z"))]
    );
}

#[test]
fn first_null_field_is_reported() {
    let s = schema(vec![field("a", PrimitiveType::I32), field("b", PrimitiveType::I32)]);
    let df = frame(vec![
        Column::new("b".into(), [None::<i32>]),
        Column::new("a".into(), [None::<i32>]),
    ]);
    let view = RowView::build(&s, &df).unwrap();
    assert_eq!(
        view.get(0).err(),
        Some(ColbackError::InvalidNull { col: "a".to_string(), idx: 0 })
    );
}

#[test]
fn invalid_null_names_the_source_column() {
    let mut f = field("a", PrimitiveType::I32);
    f.source_column = "col a".to_string();
    let s = schema(vec![f]);
    let df = frame(vec![Column::new("col a".into(), [Some(3i32), None])]);
    let view = RowView::build(&s, &df).unwrap();
    assert_eq!(view.get(0).unwrap().get("a"), Some(required(Value::Int32(3))));
    assert_eq!(view.get(0).unwrap().get("col a"), None);
    assert_eq!(
        view.get(1).err(),
        Some(ColbackError::InvalidNull { col: "col a".to_string(), idx: 1 })
    );
}

#[test]
fn optional_and_default_never_fail() {
    let s = schema(vec![
        optional("o", PrimitiveType::Bool),
        defaulted("d", PrimitiveType::String, Value::Text("none")),
    ]);
    let df = frame(vec![
        Column::new("o".into(), [None, Some(true), None, Some(false)]),
        Column::new("d".into(), [None, None, Some("x"), Some("")]),
    ]);
    let view = RowView::build(&s, &df).unwrap();
    let expected = vec![
        vec![FieldValue::Optional(None), required(Value::Text("none"))],
        vec![FieldValue::Optional(Some(Value::Boolean(true))), required(Value::Text("none"))],
        vec![FieldValue::Optional(None), required(Value::Text("x"))],
        vec![FieldValue::Optional(Some(Value::Boolean(false))), required(Value::Text(""))],
    ];
    for (i, want) in expected.iter().enumerate() {
        assert_eq!(&values(&view.get(i).unwrap()), want);
    }
}

#[test]
fn every_type_is_read() {
    let s = schema(vec![
        field("u8", PrimitiveType::U8),
        field("u16", PrimitiveType::U16),
        field("u32", PrimitiveType::U32),
        field("u64", PrimitiveType::U64),
        field("i32", PrimitiveType::I32),
        field("i64", PrimitiveType::I64),
        field("f32", PrimitiveType::F32),
        field("f64", PrimitiveType::F64),
        field("bool", PrimitiveType::Bool),
        field("str", PrimitiveType::String),
    ]);
    let df = frame(vec![
        Column::new("u8".into(), [7u8, u8::MAX]),
        Column::new("u16".into(), [8u16, u16::MAX]),
        Column::new("u32".into(), [9u32, u32::MAX]),
        Column::new("u64".into(), [10u64, u64::MAX]),
        Column::new("i32".into(), [-11i32, i32::MIN]),
        Column::new("i64".into(), [-12i64, i64::MIN]),
        Column::new("f32".into(), [1.5f32, -0.0]),
        Column::new("f64".into(), [2.25f64, f64::INFINITY]),
        Column::new("bool".into(), [true, false]),
        Column::new("str".into(), ["one", "two"]),
    ]);
    let view = RowView::build(&s, &df).unwrap();
    assert_eq!(
        values(&view.get(0).unwrap()),
        vec![
            required(Value::UInt8(7)),
            required(Value::UInt16(8)),
            required(Value::UInt32(9)),
            required(Value::UInt64(10)),
            required(Value::Int32(-11)),
            required(Value::Int64(-12)),
            required(Value::Float32(1.5f32.to_bits())),
            required(Value::Float64(2.25f64.to_bits())),
            required(Value::Boolean(true)),
            required(Value::Text("one")),
        ]
    );
    assert_eq!(
        values(&view.get(1).unwrap()),
        vec![
            required(Value::UInt8(255)),
            required(Value::UInt16(65535)),
            required(Value::UInt32(4294967295)),
            required(Value::UInt64(18446744073709551615)),
            required(Value::Int32(-2147483648)),
            required(Value::Int64(-9223372036854775808)),
            required(Value::Float32(0x8000_0000)),
            required(Value::Float64(0x7ff0_0000_0000_0000)),
            required(Value::Boolean(false)),
            required(Value::Text("two")),
        ]
    );
}

#[test]
fn every_type_may_be_null() {
    let all = [
        (PrimitiveType::U8, DataType::UInt8),
        (PrimitiveType::U16, DataType::UInt16),
        (PrimitiveType::U32, DataType::UInt32),
        (PrimitiveType::U64, DataType::UInt64),
        (PrimitiveType::I32, DataType::Int32),
        (PrimitiveType::I64, DataType::Int64),
        (PrimitiveType::F32, DataType::Float32),
        (PrimitiveType::F64, DataType::Float64),
        (PrimitiveType::Bool, DataType::Boolean),
        (PrimitiveType::String, DataType::String),
    ];
    for (p, dtype) in all {
        let df = frame(vec![Column::full_null("c".into(), 3, &dtype)]);
        let s = schema(vec![optional("c", p)]);
        let view = RowView::build(&s, &df).unwrap();
        assert_eq!(view.len(), 3);
        for i in 0..3 {
            assert_eq!(view.get(i).unwrap().value(0), FieldValue::Optional(None));
        }
        let s = schema(vec![field("c", p)]);
        let view = RowView::build(&s, &df).unwrap();
        assert_eq!(
            view.get(2).err(),
            Some(ColbackError::InvalidNull { col: "c".to_string(), idx: 2 })
        );
    }
}

#[test]
fn two_fields_may_read_one_column() {
    let mut second = optional("again", PrimitiveType::U32);
    second.source_column = "a".to_string();
    let s = schema(vec![defaulted("a", PrimitiveType::U32, Value::UInt32(0)), second]);
    let df = frame(vec![Column::new("a".into(), [Some(4u32), None])]);
    let view = RowView::build(&s, &df).unwrap();
    assert_eq!(
        values(&view.get(0).unwrap()),
        vec![required(Value::UInt32(4)), FieldValue::Optional(Some(Value::UInt32(4)))]
    );
    assert_eq!(
        values(&view.get(1).unwrap()),
        vec![required(Value::UInt32(0)), FieldValue::Optional(None)]
    );
}

#[test]
fn columns_outside_the_schema_are_ignored() {
    let s = schema(vec![field("b", PrimitiveType::Bool)]);
    let df = frame(vec![
        Column::new("a".into(), [1u32]),
        Column::new("b".into(), [true]),
        Column::new("c".into(), ["x"]),
    ]);
    let view = RowView::build(&s, &df).unwrap();
    assert_eq!(values(&view.get(0).unwrap()), vec![required(Value::Boolean(true))]);
}

#[test]
fn iter_reads_every_row_in_order() {
    let s = schema(vec![field("a", PrimitiveType::U8)]);
    let df = frame(vec![Column::new("a".into(), [Some(1u8), None, Some(3)])]);
    let view = RowView::build(&s, &df).unwrap();
    let rows = view.iter().collect();
    assert_eq!(rows.len(), 3);
    assert_eq!(
        results(&rows),
        vec![
            Ok(vec![required(Value::UInt8(1))]),
            Err(&ColbackError::InvalidNull { col: "a".to_string(), idx: 1 }),
            Ok(vec![required(Value::UInt8(3))]),
        ]
    );
}

#[test]
fn iter_is_restartable() {
    let s = schema(vec![field("a", PrimitiveType::U8), optional("b", PrimitiveType::String)]);
    let df = frame(vec![
        Column::new("a".into(), [Some(1u8), None, Some(3)]),
        Column::new("b".into(), [Some("x"), Some("y"), None]),
    ]);
    let view = RowView::build(&s, &df).unwrap();
    let first = view.iter().collect();
    let second = view.iter().collect();
    assert_eq!(results(&first), results(&second));
    drop(first);
    let third = view.iter().collect();
    assert_eq!(results(&second), results(&third));
    assert_eq!(view.len(), 3);
}

#[test]
fn iter_agrees_with_get() {
    let s = schema(vec![field("a", PrimitiveType::U8), optional("b", PrimitiveType::String)]);
    let df = frame(vec![
        Column::new("a".into(), [Some(1u8), None, Some(3)]),
        Column::new("b".into(), [Some("x"), Some("y"), None]),
    ]);
    let view = RowView::build(&s, &df).unwrap();
    let rows = view.iter().collect();
    let single: Vec<_> = (0..view.len()).map(|i| view.get(i)).collect();
    assert_eq!(results(&rows), results(&single));
}

#[test]
fn empty_table_has_no_rows() {
    let s = schema(vec![field("a", PrimitiveType::U8)]);
    let df = frame(vec![Column::new("a".into(), Vec::<u8>::new())]);
    let view = RowView::build(&s, &df).unwrap();
    assert_eq!(view.len(), 0);
    assert!(view.iter().collect().is_empty());
    assert!(view.iter().next().is_none());
    assert!(view.checked_get(0).is_none());
}

#[test]
fn empty_schema_reads_empty_rows() {
    let s = schema(vec![]);
    let df = frame(vec![Column::new("a".into(), [1u8, 2])]);
    let view = RowView::build(&s, &df).unwrap();
    assert_eq!(view.len(), 2);
    let row = view.get(1).unwrap();
    assert_eq!(row.len(), 0);
    assert_eq!(row.get("a"), None);
    assert_eq!(view.iter().collect().len(), 2);
}

#[test]
fn view_hands_out_what_it_was_built_of() {
    let s = schema(vec![field("a", PrimitiveType::U8)]);
    let df = frame(vec![Column::new("a".into(), [1u8, 2])]);
    let view = RowView::build(&s, &df).unwrap();
    assert!(std::ptr::eq(view.df(), &df));
    assert!(std::ptr::eq(view.schema(), &s));
    assert_eq!(view.df().height(), 2);
}

#[test]
fn fitting_table_builds_and_reads() {
    let s = schema(vec![
        field("id", PrimitiveType::U64),
        optional("score", PrimitiveType::F64),
        defaulted("tag", PrimitiveType::String, Value::Text("-")),
    ]);
    let df = frame(vec![
        Column::new("id".into(), [1u64, 2, 3, 4]),
        Column::new("score".into(), [Some(0.5f64), None, Some(1.0), None]),
        Column::new("tag".into(), [None, Some("a"), None, Some("b")]),
    ]);
    let view = RowView::build(&s, &df).unwrap();
    assert_eq!(view.len(), 4);
    for i in 0..view.len() {
        let row = view.get(i).unwrap();
        assert_eq!(row.get("id"), Some(required(Value::UInt64(i as u64 + 1))));
    }
    assert_eq!(
        view.get(0).unwrap().get("score"),
        Some(FieldValue::Optional(Some(Value::Float64(0.5f64.to_bits()))))
    );
    assert_eq!(view.get(3).unwrap().get("tag"), Some(required(Value::Text("b"))));
    assert_eq!(view.get(2).unwrap().get("tag"), Some(required(Value::Text("-"))));
}

#[test]
fn text_is_borrowed_from_the_table() {
    let s = schema(vec![field("t", PrimitiveType::String)]);
    let df = frame(vec![Column::new("t".into(), ["a fairly long piece of text, over the inline size"])]);
    let view = RowView::build(&s, &df).unwrap();
    let first = match view.get(0).unwrap().value(0) {
        FieldValue::Required(Value::Text(t)) => t,
        other => panic!("{other:?}"),
    };
    let second = match view.get(0).unwrap().value(0) {
        FieldValue::Required(Value::Text(t)) => t,
        other => panic!("{other:?}"),
    };
    assert_eq!(first, "a fairly long piece of text, over the inline size");
    assert!(std::ptr::eq(first.as_ptr(), second.as_ptr()));
}

#[test]
fn materialize_by_policy() {
    let e = field("a", PrimitiveType::U32);
    let o = optional("a", PrimitiveType::U32);
    let d = defaulted("a", PrimitiveType::U32, Value::UInt32(1));
    let five = Some(Value::UInt32(5));
    assert_eq!(materialize(&e, five, 9), Ok(required(Value::UInt32(5))));
    assert_eq!(
        materialize(&e, None, 9),
        Err(ColbackError::InvalidNull { col: "a".to_string(), idx: 9 })
    );
    assert_eq!(materialize(&o, five, 9), Ok(FieldValue::Optional(five)));
    assert_eq!(materialize(&o, None, 9), Ok(FieldValue::Optional(None)));
    assert_eq!(materialize(&d, five, 9), Ok(required(Value::UInt32(5))));
    assert_eq!(materialize(&d, None, 9), Ok(required(Value::UInt32(1))));
}

#[test]
fn materialize_default_without_a_value() {
    let mut d = field("a", PrimitiveType::U32);
    d.null_policy = NullPolicy::Default;
    assert_eq!(
        materialize(&d, None, 0),
        Err(ColbackError::MissingDefault { field: "a".to_string() })
    );
    assert_eq!(materialize(&d, Some(Value::UInt32(2)), 0), Ok(required(Value::UInt32(2))));
}

#[test]
fn iter_reads_one_row_at_a_time() {
    let s = schema(vec![field("a", PrimitiveType::U8)]);
    let df = frame(vec![Column::new("a".into(), [Some(1u8), None, Some(3)])]);
    let view = RowView::build(&s, &df).unwrap();
    let mut it = view.iter();
    assert_eq!(values(&it.next().unwrap().unwrap()), vec![required(Value::UInt8(1))]);
    // a second pass starts at the first row, wherever the first pass stands
    let mut other = view.iter();
    assert_eq!(values(&other.next().unwrap().unwrap()), vec![required(Value::UInt8(1))]);
    assert_eq!(
        it.next().unwrap().err(),
        Some(ColbackError::InvalidNull { col: "a".to_string(), idx: 1 })
    );
    assert_eq!(values(&it.next().unwrap().unwrap()), vec![required(Value::UInt8(3))]);
    assert!(it.next().is_none());
    assert!(it.next().is_none());
    assert_eq!(
        other.next().unwrap().err(),
        Some(ColbackError::InvalidNull { col: "a".to_string(), idx: 1 })
    );
}

#[test]
fn collect_reads_the_rows_that_are_left() {
    let s = schema(vec![field("a", PrimitiveType::U8)]);
    let df = frame(vec![Column::new("a".into(), [1u8, 2, 3])]);
    let view = RowView::build(&s, &df).unwrap();
    let mut it = view.iter();
    it.next();
    let rest = it.collect();
    assert_eq!(
        results(&rest),
        vec![Ok(vec![required(Value::UInt8(2))]), Ok(vec![required(Value::UInt8(3))])]
    );
    let mut it = view.iter();
    while it.next().is_some() {}
    assert!(it.collect().is_empty());
}

#[test]
fn checked_get_past_the_end() {
    let s = schema(vec![field("a", PrimitiveType::U8)]);
    let df = frame(vec![Column::new("a".into(), [Some(1u8), None])]);
    let view = RowView::build(&s, &df).unwrap();
    assert_eq!(
        view.checked_get(0).map(|r| r.map(|row| values(&row))),
        Some(Ok(vec![required(Value::UInt8(1))]))
    );
    assert_eq!(
        view.checked_get(1).map(|r| r.map(|row| values(&row))),
        Some(Err(ColbackError::InvalidNull { col: "a".to_string(), idx: 1 }))
    );
    assert!(view.checked_get(2).is_none());
    assert!(view.checked_get(usize::MAX).is_none());
}
