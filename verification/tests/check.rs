// The layout containers exercised through the public contract: insertion,
// per-field getters, whole-record iteration and diffing, for both storage
// strategies.

use soaaos::columnar::Columnar2;
use soaaos::record::Record2;
use soaaos::rowmajor::RowMajor2;

//
// Struct-of-arrays (columnar) layout, schema {field1: u32, field2: String}.
//

#[test]
fn soa_add_and_getters() {
    let mut layout: Columnar2<u32, String> = Columnar2::new();
    assert!(layout.is_empty());

    // Add an item to the layout.
    let item = Record2 {
        field1: 42u32,
        field2: "hello".to_string(),
    };
    let id = layout.add(item);
    assert_eq!(layout.len(), 1);

    // Per-field getters.
    assert_eq!(layout.get_field1(id).unwrap(), &42);
    assert_eq!(layout.get_field2(id).unwrap(), "hello");
}

#[test]
fn soa_iterators() {
    let mut layout: Columnar2<u32, String> = Columnar2::new();
    layout.add(Record2 {
        field1: 1,
        field2: "a".to_string(),
    });
    layout.add(Record2 {
        field1: 2,
        field2: "b".to_string(),
    });

    // The iterator returns a reference view into each element.
    let mut iter = layout.iter();
    let first = iter.next().unwrap();
    assert_eq!(first.field1, &1);
    assert_eq!(first.field2, "a");

    let second = iter.next().unwrap();
    assert_eq!(second.field1, &2);
    assert_eq!(second.field2, "b");
    assert!(iter.next().is_none());
}

//
// Array-of-structs (row-major) layout, schema {value: i32, text: String}.
//

#[test]
fn aos_add_and_getters() {
    let mut layout: RowMajor2<i32, String> = RowMajor2::new();
    let item = Record2 {
        field1: 10i32,
        field2: "world".to_string(),
    };
    let id = layout.add(item);
    assert_eq!(layout.len(), 1);

    assert_eq!(layout.get_field1(id).unwrap(), &10);
    assert_eq!(layout.get_field2(id).unwrap(), "world");
}

#[test]
fn aos_iterators() {
    let mut layout: RowMajor2<i32, String> = RowMajor2::new();
    layout.add(Record2 {
        field1: 3,
        field2: "foo".to_string(),
    });
    layout.add(Record2 {
        field1: 4,
        field2: "bar".to_string(),
    });

    let mut iter = layout.iter();
    let first = iter.next().unwrap();
    assert_eq!(first.field1, &3);
    assert_eq!(first.field2, "foo");

    let second = iter.next().unwrap();
    assert_eq!(second.field1, &4);
    assert_eq!(second.field2, "bar");
    assert!(iter.next().is_none());
}

//
// The diff method on the columnar layout.
//

#[test]
fn diff_method() {
    let mut layout1: Columnar2<u32, String> = Columnar2::new();
    let mut layout2: Columnar2<u32, String> = Columnar2::new();

    layout1.add(Record2 {
        field1: 100,
        field2: "diff".to_string(),
    });
    layout2.add(Record2 {
        field1: 100,
        field2: "diff".to_string(),
    });
    // When both layouts are identical, diff should return None.
    assert!(layout1.diff(&layout2).is_none());

    // Add a second element that differs in one field.
    layout1.add(Record2 {
        field1: 200,
        field2: "same".to_string(),
    });
    layout2.add(Record2 {
        field1: 200,
        field2: "changed".to_string(),
    });

    let diff = layout1.diff(&layout2);
    assert!(diff.is_some());
    let diff_str = diff.unwrap();
    // The diff output mentions the differing field.
    assert!(diff_str.contains("field2"));
}
