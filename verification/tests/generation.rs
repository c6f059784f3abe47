// The generation half of the layout compiler: strategy resolution, schema
// validation and identifier synthesis.

use soaaos::generate::layout;
use soaaos::names::{
    container_ident, error_ident, getter_enumerated_ident, getter_ident, getter_mut_ident,
    id_ident, iter_ident, not_found_ident, ref_ident, synthesize,
};
use soaaos::render::{render_i64, render_u64, str_eq};
use soaaos::schema::{FieldDecl, GenError, Schema};
use soaaos::strategy::{parse_strategy, Strategy};

fn node_schema() -> Schema {
    Schema {
        record_name: "Node".to_string(),
        fields: vec![
            FieldDecl {
                name: "op".to_string(),
                ty: "u8".to_string(),
            },
            FieldDecl {
                name: "arg".to_string(),
                ty: "Option<Register>".to_string(),
            },
        ],
    }
}

#[test]
fn strategy_tokens() {
    assert_eq!(parse_strategy("soa"), Ok(Strategy::Columnar));
    assert_eq!(parse_strategy("struct-of-arrays"), Ok(Strategy::Columnar));
    assert_eq!(parse_strategy("aos"), Ok(Strategy::RowMajor));
    assert_eq!(parse_strategy("array-of-structs"), Ok(Strategy::RowMajor));
    assert_eq!(parse_strategy("rowwise"), Err(GenError::UnknownStrategy));
    assert_eq!(parse_strategy(""), Err(GenError::UnknownStrategy));
}

#[test]
fn string_equality() {
    assert!(str_eq("abc", "abc"));
    assert!(!str_eq("abc", "abd"));
    assert!(!str_eq("abc", "abcd"));
    assert!(str_eq("", ""));
}

#[test]
fn derived_identifiers() {
    assert_eq!(container_ident("Node"), "NodesLayout");
    assert_eq!(id_ident("Node"), "NodeId");
    assert_eq!(error_ident("Node"), "NodesError");
    assert_eq!(ref_ident("Node"), "NodeRef");
    assert_eq!(iter_ident("Node"), "NodesIter");
    assert_eq!(getter_ident("op"), "get_op");
    assert_eq!(getter_enumerated_ident("op"), "get_op_enumerated");
    assert_eq!(getter_mut_ident("op"), "get_op_mut");
    assert_eq!(not_found_ident("op"), "NotFound_op");
}

#[test]
fn synthesize_node_schema() {
    let names = synthesize(&node_schema());
    assert_eq!(names.container, "NodesLayout");
    assert_eq!(names.id, "NodeId");
    assert_eq!(names.error, "NodesError");
    assert_eq!(names.record_ref, "NodeRef");
    assert_eq!(names.iter, "NodesIter");
    assert_eq!(names.getters, vec!["get_op", "get_arg"]);
    assert_eq!(
        names.getters_enumerated,
        vec!["get_op_enumerated", "get_arg_enumerated"]
    );
    assert_eq!(names.getters_mut, vec!["get_op_mut", "get_arg_mut"]);
    assert_eq!(names.not_found_variants, vec!["NotFound_op", "NotFound_arg"]);
}

#[test]
fn layout_resolves_well_formed_request() {
    let plan = layout(&node_schema(), "struct-of-arrays").unwrap();
    assert_eq!(plan.strategy, Strategy::Columnar);
    assert_eq!(plan.names.container, "NodesLayout");

    let plan = layout(&node_schema(), "aos").unwrap();
    assert_eq!(plan.strategy, Strategy::RowMajor);
}

#[test]
fn layout_rejects_unknown_strategy() {
    let err = layout(&node_schema(), "column-store").unwrap_err();
    assert_eq!(err, GenError::UnknownStrategy);

    // The strategy token is examined before the schema.
    let empty = Schema {
        record_name: "Node".to_string(),
        fields: vec![],
    };
    assert_eq!(layout(&empty, "column-store").unwrap_err(), GenError::UnknownStrategy);
}

#[test]
fn layout_rejects_bad_schemas() {
    let empty = Schema {
        record_name: "Node".to_string(),
        fields: vec![],
    };
    assert_eq!(layout(&empty, "soa").unwrap_err(), GenError::SchemaWithoutFields);

    let unnamed = Schema {
        record_name: "Node".to_string(),
        fields: vec![FieldDecl {
            name: String::new(),
            ty: "u8".to_string(),
        }],
    };
    assert_eq!(layout(&unnamed, "soa").unwrap_err(), GenError::UnnamedField);
}

#[test]
fn generation_error_messages() {
    assert_eq!(
        GenError::UnknownStrategy.message(),
        "unknown memory layout (expected 'soa', 'struct-of-arrays', 'aos' or 'array-of-structs')"
    );
    assert_eq!(
        GenError::SchemaWithoutFields.message(),
        "no fields found for this memory layout"
    );
    assert_eq!(
        GenError::UnnamedField.message(),
        "only named fields are supported for a layout"
    );
}

#[test]
fn decimal_rendering() {
    assert_eq!(render_u64(0), "0");
    assert_eq!(render_u64(9), "9");
    assert_eq!(render_u64(10), "10");
    assert_eq!(render_u64(31337), "31337");
    assert_eq!(render_u64(u64::MAX), "18446744073709551615");
    assert_eq!(render_i64(7), "7");
    assert_eq!(render_i64(0), "0");
    assert_eq!(render_i64(-42), "-42");
    assert_eq!(render_i64(i64::MIN), "-9223372036854775808");
}
