use odbc_api_helper::buffer::{DecodeError, OdbcColumnItem, RawColumnBuffer, NULL_DATA};
use odbc_api_helper::sys::{OdbcDate, OdbcTime, OdbcTimestamp};

#[test]
fn narrow_text_decodes_utf8_exactly() {
    let bytes = String::from("héllo").into_bytes();
    let buffer = RawColumnBuffer::Text(vec![Some(bytes), None]);
    let items = buffer.convert().unwrap();
    assert_eq!(
        items,
        vec![
            OdbcColumnItem::Text(Some(String::from("héllo"))),
            OdbcColumnItem::Text(None),
        ]
    );
}

#[test]
fn narrow_text_replaces_invalid_utf8() {
    let buffer = RawColumnBuffer::Text(vec![Some(vec![0x61, 0xFF, 0x62])]);
    let items = buffer.convert().unwrap();
    match &items[0] {
        OdbcColumnItem::Text(Some(s)) => {
            assert!(s.contains('\u{FFFD}'));
            assert!(s.contains('a'));
            assert!(s.contains('b'));
        }
        other => panic!("unexpected cell {:?}", other),
    }
}

#[test]
fn wide_text_decodes_utf16() {
    // "héllo", then a surrogate pair (U+1D11E), then an absent row.
    let plain: Vec<u16> = vec![0x68, 0xE9, 0x6C, 0x6C, 0x6F];
    let pair: Vec<u16> = vec![0xD834, 0xDD1E];
    let buffer = RawColumnBuffer::WText(vec![Some(plain), Some(pair), None]);
    let items = buffer.convert().unwrap();
    assert_eq!(
        items,
        vec![
            OdbcColumnItem::WText(Some(String::from("héllo"))),
            OdbcColumnItem::WText(Some(String::from("\u{1D11E}"))),
            OdbcColumnItem::WText(None),
        ]
    );
}

#[test]
fn wide_text_unpaired_surrogate_is_fatal() {
    let bad: Vec<u16> = vec![0x61, 0xD800, 0x62];
    let buffer = RawColumnBuffer::WText(vec![Some(bad)]);
    assert_eq!(buffer.convert(), Err(DecodeError { row: 0 }));
}

#[test]
fn wide_text_reports_first_bad_row() {
    let good: Vec<u16> = vec![0x68, 0x69];
    let lone_low: Vec<u16> = vec![0xDC00];
    let buffer = RawColumnBuffer::WText(vec![Some(good), None, Some(lone_low)]);
    assert_eq!(buffer.convert(), Err(DecodeError { row: 2 }));
}

#[test]
fn binary_copies_bytes_exactly() {
    let buffer = RawColumnBuffer::Binary(vec![Some(vec![1, 2, 3]), None]);
    let items = buffer.convert().unwrap();
    assert_eq!(
        items,
        vec![
            OdbcColumnItem::Binary(Some(vec![1, 2, 3])),
            OdbcColumnItem::Binary(None),
        ]
    );
}

#[test]
fn fixed_width_rows_are_all_present() {
    let items = RawColumnBuffer::I32(vec![5, -7]).convert().unwrap();
    assert_eq!(
        items,
        vec![
            OdbcColumnItem::I32(Some(5)),
            OdbcColumnItem::I32(Some(-7)),
        ]
    );
    let items = RawColumnBuffer::I8(vec![-1]).convert().unwrap();
    assert_eq!(items, vec![OdbcColumnItem::I8(Some(-1))]);
    let items = RawColumnBuffer::I16(vec![300]).convert().unwrap();
    assert_eq!(items, vec![OdbcColumnItem::I16(Some(300))]);
    let items = RawColumnBuffer::I64(vec![1 << 40]).convert().unwrap();
    assert_eq!(items, vec![OdbcColumnItem::I64(Some(1 << 40))]);
    let items = RawColumnBuffer::U8(vec![200]).convert().unwrap();
    assert_eq!(items, vec![OdbcColumnItem::U8(Some(200))]);
}

#[test]
fn float_bits_are_copied_verbatim() {
    let bits64 = 1.5f64.to_bits();
    let items = RawColumnBuffer::F64(vec![bits64]).convert().unwrap();
    assert_eq!(items, vec![OdbcColumnItem::F64(Some(bits64))]);
    assert_eq!(
        match items[0] {
            OdbcColumnItem::F64(Some(b)) => f64::from_bits(b),
            _ => panic!("unexpected cell"),
        },
        1.5
    );
    let bits32 = 2.25f32.to_bits();
    let items = RawColumnBuffer::F32(vec![bits32]).convert().unwrap();
    assert_eq!(items, vec![OdbcColumnItem::F32(Some(bits32))]);
}

#[test]
fn bit_uses_nonzero_truthiness() {
    let items = RawColumnBuffer::Bit(vec![0, 1, 2]).convert().unwrap();
    assert_eq!(
        items,
        vec![
            OdbcColumnItem::Bit(Some(false)),
            OdbcColumnItem::Bit(Some(true)),
            OdbcColumnItem::Bit(Some(true)),
        ]
    );
}

#[test]
fn calendar_values_are_wrapped_whole() {
    let d = OdbcDate { year: 2022, month: 3, day: 4 };
    let t = OdbcTime { hour: 5, minute: 6, second: 7 };
    let ts = OdbcTimestamp {
        year: 2022,
        month: 3,
        day: 4,
        hour: 5,
        minute: 6,
        second: 7,
        fraction: 8,
    };
    let items = RawColumnBuffer::Date(vec![d]).convert().unwrap();
    assert_eq!(items, vec![OdbcColumnItem::Date(Some(d))]);
    let items = RawColumnBuffer::Time(vec![t]).convert().unwrap();
    assert_eq!(items, vec![OdbcColumnItem::Time(Some(t))]);
    let items = RawColumnBuffer::Timestamp(vec![ts]).convert().unwrap();
    assert_eq!(items, vec![OdbcColumnItem::Timestamp(Some(ts))]);
}

#[test]
fn nullable_indicator_round_trip() {
    // For every nullable fixed-width kind: the sentinel yields the null
    // variant, any other indicator wraps exactly the row's raw value.
    let d = OdbcDate { year: 2022, month: 3, day: 4 };
    let t = OdbcTime { hour: 5, minute: 6, second: 7 };
    let ts = OdbcTimestamp {
        year: 2022,
        month: 3,
        day: 4,
        hour: 5,
        minute: 6,
        second: 7,
        fraction: 8,
    };
    let inds = vec![NULL_DATA, 0];

    let items = RawColumnBuffer::NullableDate(vec![d, d], inds.clone()).convert().unwrap();
    assert_eq!(items, vec![OdbcColumnItem::Date(None), OdbcColumnItem::Date(Some(d))]);

    let items = RawColumnBuffer::NullableTime(vec![t, t], inds.clone()).convert().unwrap();
    assert_eq!(items, vec![OdbcColumnItem::Time(None), OdbcColumnItem::Time(Some(t))]);

    let items = RawColumnBuffer::NullableTimestamp(vec![ts, ts], inds.clone()).convert().unwrap();
    assert_eq!(
        items,
        vec![OdbcColumnItem::Timestamp(None), OdbcColumnItem::Timestamp(Some(ts))]
    );

    let bits = 3.5f64.to_bits();
    let items = RawColumnBuffer::NullableF64(vec![bits, bits], inds.clone()).convert().unwrap();
    assert_eq!(items, vec![OdbcColumnItem::F64(None), OdbcColumnItem::F64(Some(bits))]);

    let bits = 0.5f32.to_bits();
    let items = RawColumnBuffer::NullableF32(vec![bits, bits], inds.clone()).convert().unwrap();
    assert_eq!(items, vec![OdbcColumnItem::F32(None), OdbcColumnItem::F32(Some(bits))]);

    let items = RawColumnBuffer::NullableI8(vec![1, 2], inds.clone()).convert().unwrap();
    assert_eq!(items, vec![OdbcColumnItem::I8(None), OdbcColumnItem::I8(Some(2))]);

    let items = RawColumnBuffer::NullableI16(vec![1, 2], inds.clone()).convert().unwrap();
    assert_eq!(items, vec![OdbcColumnItem::I16(None), OdbcColumnItem::I16(Some(2))]);

    let items = RawColumnBuffer::NullableI32(vec![1, 2], inds.clone()).convert().unwrap();
    assert_eq!(items, vec![OdbcColumnItem::I32(None), OdbcColumnItem::I32(Some(2))]);

    let items = RawColumnBuffer::NullableI64(vec![1, 2], inds.clone()).convert().unwrap();
    assert_eq!(items, vec![OdbcColumnItem::I64(None), OdbcColumnItem::I64(Some(2))]);

    let items = RawColumnBuffer::NullableU8(vec![1, 2], inds.clone()).convert().unwrap();
    assert_eq!(items, vec![OdbcColumnItem::U8(None), OdbcColumnItem::U8(Some(2))]);

    let items = RawColumnBuffer::NullableBit(vec![1, 1], inds.clone()).convert().unwrap();
    assert_eq!(items, vec![OdbcColumnItem::Bit(None), OdbcColumnItem::Bit(Some(true))]);
}

#[test]
fn row_order_is_preserved() {
    // Five rows with a known pattern of present and absent values: each
    // output index holds exactly its input row, not merely the same set.
    let vals = vec![10, 20, 30, 40, 50];
    let inds = vec![0, NULL_DATA, 0, NULL_DATA, 0];
    let items = RawColumnBuffer::NullableI32(vals, inds).convert().unwrap();
    assert_eq!(
        items,
        vec![
            OdbcColumnItem::I32(Some(10)),
            OdbcColumnItem::I32(None),
            OdbcColumnItem::I32(Some(30)),
            OdbcColumnItem::I32(None),
            OdbcColumnItem::I32(Some(50)),
        ]
    );
}

#[test]
fn empty_buffer_yields_no_rows() {
    let items = RawColumnBuffer::Text(vec![]).convert().unwrap();
    assert!(items.is_empty());
    let items = RawColumnBuffer::NullableI32(vec![], vec![]).convert().unwrap();
    assert!(items.is_empty());
}

#[test]
fn cell_text_is_deterministic_debug_form() {
    assert_eq!(OdbcColumnItem::I32(Some(5)).to_string(), "I32(Some(5))");
    assert_eq!(OdbcColumnItem::I32(None).to_string(), "I32(None)");
    assert_eq!(
        OdbcColumnItem::Text(Some(String::from("hi"))).to_string(),
        "Text(Some(\"hi\"))"
    );
    assert_eq!(OdbcColumnItem::Bit(Some(true)).to_string(), "Bit(Some(true))");
}
