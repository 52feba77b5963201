use agg_max::accum::{AggMax, AggMaxAccum};
use agg_max::column::Column;
use agg_max::scalar::{AggError, ElementType, ScalarValue};

fn fresh(t: ElementType) -> AggMaxAccum {
    AggMaxAccum::new(&t)
}

fn holding(t: ElementType, v: ScalarValue) -> AggMaxAccum {
    let mut a = fresh(t);
    a.partial_merge_scalar(v).unwrap();
    a
}

fn texts(v: &[Option<&str>]) -> Column {
    Column::Utf8(v.iter().map(|o| o.map(|s| s.to_string())).collect())
}

#[test]
fn int_rows_give_largest() {
    let col = Column::Int32(vec![Some(3), None, Some(7), Some(2)]);
    let mut a = fresh(ElementType::Int32);
    assert!(a.partial.is_null());
    for row in 0..col.len() {
        a.partial_update(&col, row).unwrap();
    }
    assert_eq!(a.partial, ScalarValue::Int32(Some(7)));
}

#[test]
fn int_partitions_merge_to_largest() {
    let mut a = holding(ElementType::Int32, ScalarValue::Int32(Some(5)));
    let b = holding(ElementType::Int32, ScalarValue::Int32(Some(9)));
    a.partial_merge(b).unwrap();
    assert_eq!(a.partial, ScalarValue::Int32(Some(9)));
}

#[test]
fn all_null_column_keeps_empty_and_saves_null() {
    let col = Column::Int32(vec![None, None]);
    let mut a = fresh(ElementType::Int32);
    a.partial_update_all(&col).unwrap();
    assert_eq!(a.partial, ScalarValue::Int32(None));
    let mut out = Column::new_empty(&ElementType::Int32).unwrap();
    a.save_final(&mut out).unwrap();
    assert_eq!(out, Column::Int32(vec![None]));
}

#[test]
fn all_null_column_keeps_empty_for_every_type() {
    let cols = vec![
        Column::Null(3),
        Column::Boolean(vec![None, None]),
        Column::Int8(vec![None]),
        Column::Int16(vec![None]),
        Column::Int64(vec![None]),
        Column::UInt8(vec![None]),
        Column::UInt16(vec![None]),
        Column::UInt32(vec![None]),
        Column::UInt64(vec![None]),
        Column::Decimal128(vec![None, None], 10, 2),
        Column::Utf8(vec![None]),
        Column::Date32(vec![None]),
        Column::Date64(vec![None]),
    ];
    for col in cols {
        let mut a = fresh(col.get_datatype());
        a.partial_update_all(&col).unwrap();
        assert!(a.partial.is_null());
        for row in 0..col.len() {
            a.partial_update(&col, row).unwrap();
        }
        assert!(a.partial.is_null());
    }
}

#[test]
fn text_rows_give_lexicographic_largest() {
    let col = texts(&[Some("banana"), Some("apple"), Some("cherry")]);
    let mut a = fresh(ElementType::Utf8);
    for row in 0..col.len() {
        a.partial_update(&col, row).unwrap();
    }
    assert_eq!(a.partial, ScalarValue::Utf8(Some("cherry".to_string())));
}

#[test]
fn text_prefix_and_bytes_order() {
    let col = texts(&[Some("ab"), Some("abc"), None, Some("Zz"), Some("")]);
    let mut rows = fresh(ElementType::Utf8);
    for row in 0..col.len() {
        rows.partial_update(&col, row).unwrap();
    }
    let mut whole = fresh(ElementType::Utf8);
    whole.partial_update_all(&col).unwrap();
    assert_eq!(rows.partial, ScalarValue::Utf8(Some("abc".to_string())));
    assert_eq!(whole.partial, rows.partial);
}

#[test]
fn decimal_merge_keeps_larger_raw_value() {
    let t = ElementType::Decimal128(10, 2);
    let mut a = holding(t.clone(), ScalarValue::Decimal128(Some(999), 10, 2));
    let b = holding(t.clone(), ScalarValue::Decimal128(Some(1050), 10, 2));
    a.partial_merge(b).unwrap();
    assert_eq!(a.partial, ScalarValue::Decimal128(Some(1050), 10, 2));
    let mut c = holding(t, ScalarValue::Decimal128(Some(1050), 10, 2));
    c.partial_merge_scalar(ScalarValue::Decimal128(Some(999), 10, 2)).unwrap();
    assert_eq!(c.partial, ScalarValue::Decimal128(Some(1050), 10, 2));
}

#[test]
fn decimal_of_other_scale_is_refused() {
    let mut a = fresh(ElementType::Decimal128(10, 2));
    let col = Column::Decimal128(vec![Some(5)], 10, 3);
    assert_eq!(a.partial_update(&col, 0), Err(AggError::TypeMismatch));
    assert!(a.partial.is_null());
}

#[test]
fn row_wise_matches_whole_column_on_each_type() {
    let cols = vec![
        Column::Boolean(vec![Some(false), None, Some(true), Some(false)]),
        Column::Int8(vec![Some(-5), None, Some(-2), Some(-100)]),
        Column::Int16(vec![Some(300), Some(-300), None]),
        Column::Int32(vec![None, Some(1), Some(40), Some(4)]),
        Column::Int64(vec![Some(i64::MIN), Some(i64::MAX), None]),
        Column::UInt8(vec![Some(200), Some(255), Some(0)]),
        Column::UInt16(vec![Some(7), None, Some(60000)]),
        Column::UInt32(vec![Some(1), Some(2), Some(3)]),
        Column::UInt64(vec![None, Some(u64::MAX), Some(0)]),
        Column::Decimal128(vec![Some(-1), Some(12345678901234567890), None], 38, 4),
        texts(&[Some("x"), None, Some("xy"), Some("w")]),
        Column::Date32(vec![Some(19000), Some(-3), None]),
        Column::Date64(vec![Some(1_600_000_000_000), None, Some(1_700_000_000_000)]),
    ];
    for col in cols {
        let t = col.get_datatype();
        let mut rows = fresh(t.clone());
        for row in 0..col.len() {
            rows.partial_update(&col, row).unwrap();
        }
        let mut whole = fresh(t);
        whole.partial_update_all(&col).unwrap();
        assert!(!whole.partial.is_null());
        assert_eq!(rows.partial, whole.partial);
    }
}

#[test]
fn whole_column_results_by_type() {
    let cases = vec![
        (Column::Boolean(vec![Some(false), None, Some(true)]), ScalarValue::Boolean(Some(true))),
        (Column::Boolean(vec![Some(false), None]), ScalarValue::Boolean(Some(false))),
        (Column::Int8(vec![Some(-5), Some(-2)]), ScalarValue::Int8(Some(-2))),
        (Column::Int16(vec![Some(300), Some(-300)]), ScalarValue::Int16(Some(300))),
        (Column::Int32(vec![Some(1), Some(40), None]), ScalarValue::Int32(Some(40))),
        (Column::Int64(vec![Some(-9), Some(-8)]), ScalarValue::Int64(Some(-8))),
        (Column::UInt8(vec![Some(200), Some(255)]), ScalarValue::UInt8(Some(255))),
        (Column::UInt16(vec![Some(7), Some(60000)]), ScalarValue::UInt16(Some(60000))),
        (Column::UInt32(vec![Some(9), Some(3)]), ScalarValue::UInt32(Some(9))),
        (Column::UInt64(vec![Some(u64::MAX), Some(0)]), ScalarValue::UInt64(Some(u64::MAX))),
        (Column::Decimal128(vec![Some(999), Some(1050)], 10, 2), ScalarValue::Decimal128(Some(1050), 10, 2)),
        (texts(&[Some("pear"), Some("plum")]), ScalarValue::Utf8(Some("plum".to_string()))),
        (Column::Date32(vec![Some(10), Some(20)]), ScalarValue::Date32(Some(20))),
        (Column::Date64(vec![Some(20), Some(10)]), ScalarValue::Date64(Some(20))),
    ];
    for (col, expected) in cases {
        let mut a = fresh(col.get_datatype());
        a.partial_update_all(&col).unwrap();
        assert_eq!(a.partial, expected);
    }
}

#[test]
fn boolean_max_is_or() {
    let mut a = holding(ElementType::Boolean, ScalarValue::Boolean(Some(true)));
    a.partial_update(&Column::Boolean(vec![Some(false)]), 0).unwrap();
    assert_eq!(a.partial, ScalarValue::Boolean(Some(true)));
    let mut b = holding(ElementType::Boolean, ScalarValue::Boolean(Some(false)));
    b.partial_update_all(&Column::Boolean(vec![Some(true), None])).unwrap();
    assert_eq!(b.partial, ScalarValue::Boolean(Some(true)));
}

#[test]
fn existing_value_kept_against_smaller_column() {
    let mut a = holding(ElementType::Int64, ScalarValue::Int64(Some(100)));
    a.partial_update_all(&Column::Int64(vec![Some(3), Some(99)])).unwrap();
    assert_eq!(a.partial, ScalarValue::Int64(Some(100)));
    a.partial_update(&Column::Int64(vec![Some(101)]), 0).unwrap();
    assert_eq!(a.partial, ScalarValue::Int64(Some(101)));
}

#[test]
fn merge_order_does_not_matter() {
    let vals = [Some(4), None, Some(-1)];
    let make = |v: Option<i16>| holding(ElementType::Int16, ScalarValue::Int16(v));
    let mut ab_c = make(vals[0]);
    ab_c.partial_merge(make(vals[1])).unwrap();
    ab_c.partial_merge(make(vals[2])).unwrap();
    let mut bc = make(vals[1]);
    bc.partial_merge(make(vals[2])).unwrap();
    let mut a_bc = make(vals[0]);
    a_bc.partial_merge(bc).unwrap();
    let mut ac_b = make(vals[0]);
    ac_b.partial_merge(make(vals[2])).unwrap();
    ac_b.partial_merge(make(vals[1])).unwrap();
    assert_eq!(ab_c.partial, ScalarValue::Int16(Some(4)));
    assert_eq!(a_bc.partial, ab_c.partial);
    assert_eq!(ac_b.partial, ab_c.partial);
}

#[test]
fn merge_with_empty_is_identity() {
    let mut a = holding(ElementType::Utf8, ScalarValue::Utf8(Some("kiwi".to_string())));
    a.partial_merge(fresh(ElementType::Utf8)).unwrap();
    assert_eq!(a.partial, ScalarValue::Utf8(Some("kiwi".to_string())));
    let mut e = fresh(ElementType::Utf8);
    e.partial_merge(a.clone()).unwrap();
    assert_eq!(e.partial, a.partial);
}

#[test]
fn save_then_merge_from_row_restores() {
    let states = vec![
        ScalarValue::Boolean(Some(true)),
        ScalarValue::Int8(Some(-7)),
        ScalarValue::UInt64(Some(5)),
        ScalarValue::Decimal128(Some(1050), 10, 2),
        ScalarValue::Utf8(Some("héllo".to_string())),
        ScalarValue::Date32(Some(18000)),
        ScalarValue::Date64(None),
        ScalarValue::Null,
    ];
    for s in states {
        let t = s.get_datatype();
        let a = AggMaxAccum { partial: s.clone() };
        let mut builder = Column::new_empty(&t).unwrap();
        builder.push(ScalarValue::new_null(&t)).unwrap();
        a.save(&mut builder).unwrap();
        assert_eq!(builder.len(), 2);
        let mut b = fresh(t.clone());
        b.partial_merge_from_array(&builder, 1).unwrap();
        assert_eq!(b.partial, s);
        let mut c = fresh(t);
        c.load(&builder, 1).unwrap();
        assert_eq!(c.partial, s);
    }
}

#[test]
fn unsupported_type_fails_on_first_use() {
    let t = ElementType::Unsupported("Float16".to_string());
    let agg = AggMax::try_new((), t.clone()).unwrap();
    let mut a = agg.create_accum();
    assert!(a.partial.is_null());
    let err = Err(AggError::Unsupported("Float16".to_string()));
    assert_eq!(a.partial_update(&Column::Int32(vec![Some(1)]), 0), err);
    assert_eq!(a.partial_update_all(&Column::Int32(vec![Some(1)])), err);
    assert_eq!(a.partial_merge_scalar(ScalarValue::Int32(Some(1))), err);
    assert_eq!(a.partial_merge(fresh(ElementType::Int32)), err);
    assert_eq!(a.partial_merge_from_array(&Column::Int32(vec![Some(1)]), 0), err);
    assert!(Column::new_empty(&t).is_none());
}

#[test]
fn mismatched_column_is_refused() {
    let mut a = holding(ElementType::Int32, ScalarValue::Int32(Some(3)));
    let col = Column::Int64(vec![Some(9)]);
    assert_eq!(a.partial_update(&col, 0), Err(AggError::TypeMismatch));
    assert_eq!(a.partial_update_all(&col), Err(AggError::TypeMismatch));
    assert_eq!(a.partial_merge_from_array(&col, 0), Err(AggError::TypeMismatch));
    assert_eq!(a.partial_merge_scalar(ScalarValue::Utf8(None)), Err(AggError::TypeMismatch));
    assert_eq!(a.partial, ScalarValue::Int32(Some(3)));
    let mut out = Column::Utf8(vec![]);
    assert_eq!(a.save(&mut out), Err(AggError::TypeMismatch));
    assert_eq!(out, Column::Utf8(vec![]));
}

#[test]
fn descriptor_describes_one_nullable_field() {
    let agg = AggMax::try_new("col_a".to_string(), ElementType::Date64).unwrap();
    assert_eq!(agg.child(), "col_a");
    assert_eq!(agg.data_type(), &ElementType::Date64);
    assert!(agg.nullable());
    let fields = agg.accum_fields();
    assert_eq!(fields.len(), 1);
    assert_eq!(fields[0].name, "max");
    assert_eq!(fields[0].data_type, ElementType::Date64);
    assert!(fields[0].nullable);
    let a = agg.create_accum();
    assert_eq!(a.partial, ScalarValue::Date64(None));
}

#[test]
fn mem_size_counts_text_bytes() {
    let fixed = fresh(ElementType::Int64).mem_size();
    assert_eq!(fresh(ElementType::Utf8).mem_size(), fixed);
    let a = holding(ElementType::Utf8, ScalarValue::Utf8(Some("héllo".to_string())));
    assert_eq!(a.mem_size(), fixed + 6);
    assert_eq!(fixed, std::mem::size_of::<ScalarValue>());
}
