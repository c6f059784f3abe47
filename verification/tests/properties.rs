// The stated properties of the layout containers, checked on concrete
// values: insertion identity, length consistency, cross-strategy
// equivalence, iteration order, diff reflexivity and diff precision.

use soaaos::columnar::Columnar2;
use soaaos::ids::RecordId;
use soaaos::record::{LayoutError2, Record2};
use soaaos::rowmajor::RowMajor2;

#[derive(Debug, Copy, Clone, PartialEq, Eq)]
enum Register {
    A,
    B,
    C,
}

#[test]
fn insertion_identity() {
    let mut columnar: Columnar2<u32, String> = Columnar2::new();
    let mut rowmajor: RowMajor2<u32, String> = RowMajor2::new();
    for i in 0..5u32 {
        let record = Record2 {
            field1: i * 7,
            field2: format!("r{i}"),
        };
        let id_c = columnar.add(record.clone());
        let id_r = rowmajor.add(record);
        assert_eq!(id_c, RecordId(i));
        assert_eq!(id_r, RecordId(i));
    }
    for i in 0..5u32 {
        assert_eq!(columnar.get_field1(RecordId(i)).unwrap(), &(i * 7));
        assert_eq!(columnar.get_field2(RecordId(i)).unwrap(), &format!("r{i}"));
        assert_eq!(rowmajor.get_field1(RecordId(i)).unwrap(), &(i * 7));
        assert_eq!(rowmajor.get_field2(RecordId(i)).unwrap(), &format!("r{i}"));
    }
    // Ids at or beyond the length fail with the field's own variant.
    assert_eq!(
        columnar.get_field1(RecordId(5)).unwrap_err(),
        LayoutError2::NotFoundField1
    );
    assert_eq!(
        columnar.get_field2(RecordId(9)).unwrap_err(),
        LayoutError2::NotFoundField2
    );
    assert_eq!(
        rowmajor.get_field1(RecordId(5)).unwrap_err(),
        LayoutError2::NotFoundField1
    );
    assert_eq!(
        rowmajor.get_field2(RecordId(9)).unwrap_err(),
        LayoutError2::NotFoundField2
    );
}

#[test]
fn length_consistency() {
    let mut columnar: Columnar2<u8, u8> = Columnar2::with_capacity(4);
    let mut rowmajor: RowMajor2<u8, u8> = RowMajor2::with_capacity(4);
    assert!(columnar.is_empty());
    assert!(rowmajor.is_empty());
    assert_eq!(columnar.len(), 0);
    assert_eq!(rowmajor.len(), 0);
    for n in 1..=6u8 {
        columnar.add(Record2 { field1: n, field2: n });
        rowmajor.add(Record2 { field1: n, field2: n });
        assert_eq!(columnar.len(), n as usize);
        assert_eq!(rowmajor.len(), n as usize);
        assert!(!columnar.is_empty());
        assert!(!rowmajor.is_empty());
    }
}

#[test]
fn cross_strategy_equivalence() {
    let mut columnar: Columnar2<u8, u16> = Columnar2::new();
    let mut rowmajor: RowMajor2<u8, u16> = RowMajor2::new();
    for i in 0..3u8 {
        let record = Record2 {
            field1: i,
            field2: u16::from(i) * 10,
        };
        columnar.add(record.clone());
        rowmajor.add(record);
    }

    assert_eq!(columnar.field1(), rowmajor.field1());
    assert_eq!(columnar.field2(), rowmajor.field2());

    let from_columnar = columnar.iter_enumerated();
    let from_rowmajor = rowmajor.iter_enumerated();
    assert_eq!(from_columnar.len(), from_rowmajor.len());
    for (left, right) in from_columnar.iter().zip(from_rowmajor.iter()) {
        assert_eq!(left.0, right.0);
        assert_eq!(left.1.field1, right.1.field1);
        assert_eq!(left.1.field2, right.1.field2);
    }

    assert_eq!(columnar.diff(&columnar.clone()), rowmajor.diff(&rowmajor.clone()));
}

#[test]
fn iteration_order() {
    let mut layout: RowMajor2<u16, u16> = RowMajor2::new();
    for i in 0..4u16 {
        layout.add(Record2 {
            field1: i,
            field2: 100 + i,
        });
    }
    let pairs = layout.iter_enumerated();
    assert_eq!(pairs.len(), 4);
    for (expected, (id, record_ref)) in pairs.iter().enumerate() {
        assert_eq!(id.0 as usize, expected);
        assert_eq!(*record_ref.field1 as usize, expected);
        assert_eq!(*record_ref.field2 as usize, 100 + expected);
    }
}

#[test]
fn diff_reflexive() {
    let empty: Columnar2<u32, String> = Columnar2::new();
    assert_eq!(empty.diff(&empty), None);

    let mut columnar: Columnar2<u32, String> = Columnar2::new();
    let mut rowmajor: RowMajor2<u32, String> = RowMajor2::new();
    for i in 0..4u32 {
        let record = Record2 {
            field1: i,
            field2: format!("v{i}"),
        };
        columnar.add(record.clone());
        rowmajor.add(record);
    }
    assert_eq!(columnar.diff(&columnar), None);
    assert_eq!(rowmajor.diff(&rowmajor), None);
}

#[test]
fn diff_precision() {
    let mut left: RowMajor2<u32, String> = RowMajor2::new();
    let mut right: RowMajor2<u32, String> = RowMajor2::new();
    for i in 0..3u32 {
        left.add(Record2 {
            field1: i,
            field2: format!("w{i}"),
        });
        let second = if i == 1 { "other".to_string() } else { format!("w{i}") };
        right.add(Record2 {
            field1: i,
            field2: second,
        });
    }
    let report = left.diff(&right).unwrap();
    assert!(report.contains("field2"));
    assert!(!report.contains("field1"));
    // The whole report is exactly the one line for the one disagreement.
    assert_eq!(report, "\nfield2 1: \"w1\" vs \"other\"");
}

#[test]
fn diff_exact_text() {
    let mut left: Columnar2<u32, Option<u32>> = Columnar2::new();
    let mut right: Columnar2<u32, Option<u32>> = Columnar2::new();
    left.add(Record2 {
        field1: 3,
        field2: Some(5),
    });
    right.add(Record2 {
        field1: 31337,
        field2: None,
    });
    let report = left.diff(&right).unwrap();
    assert_eq!(report, "\nfield1 0: 3 vs 31337\nfield2 0: Some(5) vs None");
}

#[test]
fn diff_ignores_positions_past_shorter() {
    let mut short: Columnar2<u32, String> = Columnar2::new();
    let mut long: Columnar2<u32, String> = Columnar2::new();
    short.add(Record2 {
        field1: 1,
        field2: "x".to_string(),
    });
    long.add(Record2 {
        field1: 1,
        field2: "x".to_string(),
    });
    long.add(Record2 {
        field1: 2,
        field2: "y".to_string(),
    });
    // The zip stops at the shorter container, so no difference is seen.
    assert_eq!(short.diff(&long), None);
    assert_eq!(long.diff(&short), None);
}

#[test]
fn node_scenario() {
    // Schema Node { op: byte, arg: optional register }.
    let mut nodes: Columnar2<u8, Option<Register>> = Columnar2::new();
    let id0 = nodes.add(Record2 {
        field1: 8,
        field2: Some(Register::B),
    });
    let id1 = nodes.add(Record2 {
        field1: 1,
        field2: Some(Register::A),
    });
    let id2 = nodes.add(Record2 {
        field1: 2,
        field2: Some(Register::C),
    });
    assert_eq!(id0, RecordId(0));
    assert_eq!(id1, RecordId(1));
    assert_eq!(id2, RecordId(2));
    assert_eq!(nodes.get_field1(RecordId(1)).unwrap(), &1);
    assert_eq!(nodes.field1(), vec![&8u8, &1, &2]);
    assert_eq!(nodes.get_field2(RecordId(0)).unwrap(), &Some(Register::B));
}

#[test]
fn two_container_diff_scenario() {
    let mut first: Columnar2<u32, String> = Columnar2::new();
    let mut second: Columnar2<u32, String> = Columnar2::new();
    first.add(Record2 {
        field1: 7,
        field2: "same".to_string(),
    });
    second.add(Record2 {
        field1: 7,
        field2: "same".to_string(),
    });
    assert_eq!(first.diff(&second), None);

    first.add(Record2 {
        field1: 9,
        field2: "left".to_string(),
    });
    second.add(Record2 {
        field1: 9,
        field2: "right".to_string(),
    });
    let report = first.diff(&second);
    assert!(report.is_some());
    assert!(report.unwrap().contains("field2"));
}

#[test]
fn mutable_getters() {
    let mut columnar: Columnar2<u32, String> = Columnar2::new();
    let id = columnar.add(Record2 {
        field1: 5,
        field2: "before".to_string(),
    });
    *columnar.get_field1_mut(id).unwrap() = 55;
    *columnar.get_field2_mut(id).unwrap() = "after".to_string();
    assert_eq!(columnar.get_field1(id).unwrap(), &55);
    assert_eq!(columnar.get_field2(id).unwrap(), "after");
    assert_eq!(
        columnar.get_field1_mut(RecordId(1)).unwrap_err(),
        LayoutError2::NotFoundField1
    );

    let mut rowmajor: RowMajor2<u32, String> = RowMajor2::new();
    let id = rowmajor.add(Record2 {
        field1: 6,
        field2: "before".to_string(),
    });
    *rowmajor.get_field1_mut(id).unwrap() = 66;
    *rowmajor.get_field2_mut(id).unwrap() = "after".to_string();
    assert_eq!(rowmajor.get_field1(id).unwrap(), &66);
    assert_eq!(rowmajor.get_field2(id).unwrap(), "after");
    assert_eq!(
        rowmajor.get_field2_mut(RecordId(3)).unwrap_err(),
        LayoutError2::NotFoundField2
    );
}

#[test]
fn enumerated_getters() {
    let mut layout: Columnar2<u8, u8> = Columnar2::new();
    for i in 0..3u8 {
        layout.add(Record2 {
            field1: i,
            field2: 10 + i,
        });
    }
    let firsts = layout.get_field1_enumerated();
    let seconds = layout.get_field2_enumerated();
    assert_eq!(firsts.len(), 3);
    for (i, (id, value)) in firsts.iter().enumerate() {
        assert_eq!(id.0 as usize, i);
        assert_eq!(**value as usize, i);
    }
    for (i, (id, value)) in seconds.iter().enumerate() {
        assert_eq!(id.0 as usize, i);
        assert_eq!(**value as usize, 10 + i);
    }
}

#[test]
fn null_id_addresses_first_record() {
    assert_eq!(RecordId::null(), RecordId(0));
    let mut layout: RowMajor2<u8, u8> = RowMajor2::new();
    assert_eq!(
        layout.get_field1(RecordId::null()).unwrap_err(),
        LayoutError2::NotFoundField1
    );
    layout.add(Record2 {
        field1: 77,
        field2: 88,
    });
    assert_eq!(layout.get_field1(RecordId::null()).unwrap(), &77);
}

#[test]
fn lookup_error_messages() {
    assert_eq!(
        LayoutError2::NotFoundField1.message(),
        "not found: field1"
    );
    assert_eq!(
        LayoutError2::NotFoundField2.message(),
        "not found: field2"
    );
}
