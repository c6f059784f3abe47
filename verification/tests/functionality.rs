// Cross-strategy behaviour of the three-field containers: identical
// insertion sequences, collected per-field columns, and diffing.

use soaaos::columnar3::Columnar3;
use soaaos::ids::RecordId;
use soaaos::record::{LayoutError3, Record3};
use soaaos::rowmajor3::RowMajor3;

#[derive(Debug, Copy, Clone, PartialEq, Eq, Hash)]
enum Register {
    A,
    B,
}

impl Register {
    fn name(self) -> &'static str {
        match self {
            Register::A => "A",
            Register::B => "B",
        }
    }
}

#[test]
fn test_soa() {
    // Schema { op: u8, arg1: u16, arg2: u16 }, one container per strategy.
    let mut nodes_soa: Columnar3<u8, u16, u16> = Columnar3::new();
    let mut nodes_aos: RowMajor3<u8, u16, u16> = RowMajor3::new();
    for i in 0..3 {
        nodes_soa.add(Record3 {
            field1: u8::from(i),
            field2: u16::from(i * 10),
            field3: u16::from(i * 20),
        });
        nodes_aos.add(Record3 {
            field1: u8::from(i),
            field2: u16::from(i * 10),
            field3: u16::from(i * 20),
        });
    }

    assert_eq!(nodes_soa.field1(), nodes_aos.field1());
    assert_eq!(nodes_soa.field2(), nodes_aos.field2());
    assert_eq!(nodes_soa.field3(), nodes_aos.field3());
}

#[test]
fn test_diff_soa() {
    let mut nodes_soa: Columnar3<u8, u16, u16> = Columnar3::new();
    let mut nodes_soa2: Columnar3<u8, u16, u16> = Columnar3::new();
    for i in 0..3_u8 {
        let mut node = Record3 {
            field1: u8::from(i),
            field2: u16::from(i * 10),
            field3: u16::from(i * 20),
        };
        let node2 = node.clone();

        if i == 1 {
            node.field2 = 31337;
        }

        nodes_soa.add(node);
        nodes_soa2.add(node2);
    }

    let Some(diff) = nodes_soa.diff(&nodes_soa2) else {
        panic!("Expected diff not found");
    };

    assert_eq!(diff, "\nfield2 1: 31337 vs 10");
}

#[test]
fn test_diff_aos() {
    let mut nodes_soa: RowMajor3<u8, u16, u16> = RowMajor3::new();
    let mut nodes_soa2: RowMajor3<u8, u16, u16> = RowMajor3::new();
    for i in 0..3_u8 {
        let mut node = Record3 {
            field1: u8::from(i),
            field2: u16::from(i * 10),
            field3: u16::from(i * 20),
        };
        let node2 = node.clone();

        if i == 1 {
            node.field2 = 31337;
        }

        nodes_soa.add(node);
        nodes_soa2.add(node2);
    }

    let Some(diff) = nodes_soa.diff(&nodes_soa2) else {
        panic!("Expected diff not found");
    };

    assert_eq!(diff, "\nfield2 1: 31337 vs 10");
}

#[test]
fn test_soa_with_generics() {
    // Schema { op: u8, arg1: Register, arg2: Option<Register> }.
    let mut nodes_soa: Columnar3<u8, Register, Option<Register>> = Columnar3::new();
    let mut nodes_aos: RowMajor3<u8, Register, Option<Register>> = RowMajor3::new();
    for i in 0..3 {
        nodes_soa.add(Record3 {
            field1: u8::from(i),
            field2: Register::A,
            field3: Some(Register::B),
        });
        nodes_aos.add(Record3 {
            field1: u8::from(i),
            field2: Register::A,
            field3: Some(Register::B),
        });
    }

    assert_eq!(nodes_soa.field1(), nodes_aos.field1());
    assert_eq!(nodes_soa.field2(), nodes_aos.field2());
    assert_eq!(
        nodes_soa.field2().iter().map(|x| x.name()).collect::<Vec<_>>(),
        nodes_aos.field2().iter().map(|x| x.name()).collect::<Vec<_>>()
    );
    assert_eq!(nodes_soa.field3(), nodes_aos.field3());
}

#[test]
fn three_field_getters_and_errors() {
    let mut columnar: Columnar3<u8, u16, u16> = Columnar3::with_capacity(2);
    let mut rowmajor: RowMajor3<u8, u16, u16> = RowMajor3::with_capacity(2);
    assert!(columnar.is_empty());
    assert!(rowmajor.is_empty());
    let record = Record3 {
        field1: 1,
        field2: 22,
        field3: 333,
    };
    let id = columnar.add(record.clone());
    rowmajor.add(record);
    assert_eq!(columnar.len(), 1);
    assert_eq!(rowmajor.len(), 1);

    assert_eq!(columnar.get_field1(id).unwrap(), &1);
    assert_eq!(columnar.get_field2(id).unwrap(), &22);
    assert_eq!(columnar.get_field3(id).unwrap(), &333);
    assert_eq!(rowmajor.get_field3(id).unwrap(), &333);

    let miss = RecordId(4);
    assert_eq!(
        columnar.get_field1(miss).unwrap_err(),
        LayoutError3::NotFoundField1
    );
    assert_eq!(
        columnar.get_field2(miss).unwrap_err(),
        LayoutError3::NotFoundField2
    );
    assert_eq!(
        columnar.get_field3(miss).unwrap_err(),
        LayoutError3::NotFoundField3
    );
    assert_eq!(
        rowmajor.get_field3_mut(miss).unwrap_err(),
        LayoutError3::NotFoundField3
    );
    assert_eq!(LayoutError3::NotFoundField3.message(), "not found: field3");

    *columnar.get_field3_mut(id).unwrap() = 444;
    assert_eq!(columnar.get_field3(id).unwrap(), &444);

    let pairs = columnar.get_field1_enumerated();
    assert_eq!(pairs.len(), 1);
    assert_eq!(pairs[0].0, RecordId(0));
    assert_eq!(pairs[0].1, &1);
    let thirds = columnar.get_field3_enumerated();
    assert_eq!(thirds[0].1, &444);
}

#[test]
fn three_field_iteration() {
    let mut layout: RowMajor3<u8, u16, u16> = RowMajor3::new();
    for i in 0..3u8 {
        layout.add(Record3 {
            field1: i,
            field2: u16::from(i) + 10,
            field3: u16::from(i) + 20,
        });
    }
    // The iterator is restartable: a fresh one walks from id 0 again.
    for _ in 0..2 {
        let mut iter = layout.iter();
        for i in 0..3u8 {
            let item = iter.next().unwrap();
            assert_eq!(item.field1, &i);
            assert_eq!(item.field2, &(u16::from(i) + 10));
            assert_eq!(item.field3, &(u16::from(i) + 20));
        }
        assert!(iter.next().is_none());
        assert!(iter.next().is_none());
    }
    for (expected, (id, item)) in layout.iter_enumerated().iter().enumerate() {
        assert_eq!(id.0 as usize, expected);
        assert_eq!(*item.field1 as usize, expected);
    }
}
