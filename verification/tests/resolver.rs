use odbc_api_helper::column::{BufferDescription, BufferKind, DataType, OdbcColumn, UnsupportedType};

fn resolve(data_type: DataType, nullable: bool) -> Result<BufferDescription, UnsupportedType> {
    let column = OdbcColumn::new(String::from("c"), data_type, nullable);
    BufferDescription::try_from(&column)
}

fn kind_of(data_type: DataType) -> BufferKind {
    resolve(data_type, false).unwrap().kind
}

#[test]
fn nullability_is_copied_verbatim() {
    assert!(resolve(DataType::Integer, true).unwrap().nullable);
    assert!(!resolve(DataType::Integer, false).unwrap().nullable);
}

#[test]
fn integer_types_map_to_integer_kinds() {
    assert_eq!(kind_of(DataType::Integer), BufferKind::I32);
    assert_eq!(kind_of(DataType::SmallInt), BufferKind::I16);
    assert_eq!(kind_of(DataType::BigInt), BufferKind::I64);
    assert_eq!(kind_of(DataType::TinyInt), BufferKind::I8);
    assert_eq!(kind_of(DataType::Bit), BufferKind::Bit);
}

#[test]
fn float_types_map_by_precision() {
    assert_eq!(kind_of(DataType::Real), BufferKind::F32);
    assert_eq!(kind_of(DataType::Double), BufferKind::F64);
    assert_eq!(kind_of(DataType::Float { precision: 24 }), BufferKind::F32);
    assert_eq!(kind_of(DataType::Float { precision: 25 }), BufferKind::F64);
    assert_eq!(kind_of(DataType::Float { precision: 53 }), BufferKind::F64);
}

#[test]
fn calendar_types_map_to_their_kinds() {
    assert_eq!(kind_of(DataType::Date), BufferKind::Date);
    assert_eq!(kind_of(DataType::Time { precision: 0 }), BufferKind::Time);
    assert_eq!(kind_of(DataType::Timestamp { precision: 0 }), BufferKind::Timestamp);
    assert_eq!(kind_of(DataType::Timestamp { precision: 3 }), BufferKind::Timestamp);
}

#[test]
fn time_with_fraction_maps_to_text() {
    assert_eq!(
        kind_of(DataType::Time { precision: 3 }),
        BufferKind::Text { max_str_len: 12 }
    );
}

#[test]
fn text_types_map_to_text_with_length() {
    assert_eq!(
        kind_of(DataType::Char { length: 10 }),
        BufferKind::Text { max_str_len: 10 }
    );
    assert_eq!(
        kind_of(DataType::Varchar { length: 255 }),
        BufferKind::Text { max_str_len: 255 }
    );
    assert_eq!(
        kind_of(DataType::WChar { length: 7 }),
        BufferKind::Text { max_str_len: 7 }
    );
    assert_eq!(
        kind_of(DataType::WVarchar { length: 9 }),
        BufferKind::Text { max_str_len: 9 }
    );
    assert_eq!(
        kind_of(DataType::LongVarchar { length: 33 }),
        BufferKind::Text { max_str_len: 33 }
    );
    assert_eq!(
        kind_of(DataType::WLongVarchar { length: 33 }),
        BufferKind::Text { max_str_len: 33 }
    );
}

#[test]
fn binary_types_map_to_binary_with_length() {
    assert_eq!(kind_of(DataType::Binary { length: 16 }), BufferKind::Binary { length: 16 });
    assert_eq!(
        kind_of(DataType::Varbinary { length: 64 }),
        BufferKind::Binary { length: 64 }
    );
    assert_eq!(
        kind_of(DataType::LongVarbinary { length: 128 }),
        BufferKind::Binary { length: 128 }
    );
}

#[test]
fn integral_decimals_map_to_integers() {
    assert_eq!(kind_of(DataType::Numeric { precision: 2, scale: 0 }), BufferKind::I8);
    assert_eq!(kind_of(DataType::Numeric { precision: 9, scale: 0 }), BufferKind::I32);
    assert_eq!(kind_of(DataType::Numeric { precision: 18, scale: 0 }), BufferKind::I64);
    assert_eq!(kind_of(DataType::Decimal { precision: 2, scale: 0 }), BufferKind::I8);
    assert_eq!(kind_of(DataType::Decimal { precision: 9, scale: 0 }), BufferKind::I32);
    assert_eq!(kind_of(DataType::Decimal { precision: 18, scale: 0 }), BufferKind::I64);
}

#[test]
fn wide_decimals_map_to_display_sized_text() {
    assert_eq!(
        kind_of(DataType::Numeric { precision: 19, scale: 0 }),
        BufferKind::Text { max_str_len: 21 }
    );
    assert_eq!(
        kind_of(DataType::Decimal { precision: 10, scale: 3 }),
        BufferKind::Text { max_str_len: 12 }
    );
}

#[test]
fn unsupported_types_fail_with_the_offending_type() {
    assert_eq!(
        resolve(DataType::Unknown, true),
        Err(UnsupportedType { data_type: DataType::Unknown })
    );
    let other = DataType::Other { data_type: -97, column_size: 4, decimal_digits: 0 };
    assert_eq!(resolve(other, false), Err(UnsupportedType { data_type: other }));
    assert_eq!(
        resolve(DataType::Float { precision: 54 }, false),
        Err(UnsupportedType { data_type: DataType::Float { precision: 54 } })
    );
}

#[test]
fn unreported_lengths_fail() {
    assert_eq!(
        resolve(DataType::Varchar { length: 0 }, false),
        Err(UnsupportedType { data_type: DataType::Varchar { length: 0 } })
    );
    assert_eq!(
        resolve(DataType::Binary { length: 0 }, false),
        Err(UnsupportedType { data_type: DataType::Binary { length: 0 } })
    );
}

#[test]
fn new_keeps_its_parts() {
    let c = OdbcColumn::new(String::from("amount"), DataType::Double, true);
    assert_eq!(c.name, "amount");
    assert_eq!(c.data_type, DataType::Double);
    assert!(c.nullable);
}
