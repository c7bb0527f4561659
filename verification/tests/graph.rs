use rustflow::error::{Error, Status, TFCode};
use rustflow::graph::{Graph, OpRecord};

fn record(name: &str, op_type: &str, num_inputs: usize, num_outputs: usize) -> OpRecord {
    OpRecord {
        name: String::from(name),
        op_type: String::from(op_type),
        device: String::new(),
        num_inputs,
        num_outputs,
    }
}

fn addition_graph() -> Graph {
    let records = vec![
        record("x", "Placeholder", 0, 1),
        record("y", "Placeholder", 0, 1),
        record("add", "Add", 2, 1),
        record("z", "Identity", 1, 1),
    ];
    Graph::from_import(&Status::new(), records).unwrap()
}

#[test]
fn import_with_ok_status_yields_the_catalog() {
    let graph = addition_graph();
    assert_eq!(graph.operations().len(), 4);
}

#[test]
fn import_with_failed_status_yields_the_translated_error() {
    let status = Status::from_parts(3, String::from("Invalid GraphDef"));
    let result = Graph::from_import(&status, Vec::new());
    match result {
        Err(Error::TFError(err)) => {
            assert_eq!(err.code(), TFCode::InvalidArgument);
            assert_eq!(err.message(), "Invalid GraphDef");
        }
        _ => panic!("a failed import must surface the native error"),
    }
}

#[test]
fn import_of_empty_catalog_enumerates_nothing() {
    let graph = Graph::from_import(&Status::new(), Vec::new()).unwrap();
    assert!(graph.operations().is_empty());
    assert!(graph.operation_by_name("x").is_none());
}

#[test]
fn enumeration_keeps_catalog_order() {
    let graph = addition_graph();
    let names: Vec<&str> = graph.operations().iter().map(|op| op.name()).collect();
    assert_eq!(names, ["x", "y", "add", "z"]);
}

#[test]
fn finds_placeholder_in_addition_graph() {
    let graph = addition_graph();
    let op = graph.operation_by_name("x").unwrap();
    assert_eq!(op.name(), "x");
    assert_eq!(op.op_type(), "Placeholder");
    assert_eq!(op.device(), "");
    assert_eq!(op.inputs().len(), 0);
    assert_eq!(op.outputs().len(), 1);
    assert_eq!(graph.operations().len(), 4);
    assert!(graph.operation_by_name("nonexistent").is_none());
}

#[test]
fn lookup_agrees_with_enumeration() {
    let graph = addition_graph();
    for op in graph.operations() {
        let name = op.name().to_string();
        let found = graph.operation_by_name(&name).unwrap();
        assert_eq!(found.name(), name);
    }
    assert!(graph.operation_by_name("mul").is_none());
}

#[test]
fn name_with_embedded_terminator_never_matches() {
    let graph = addition_graph();
    assert!(graph.operation_by_name("x\0").is_none());
    assert!(graph.operation_by_name("\0").is_none());
}

#[test]
fn lookup_returns_the_first_match() {
    let records = vec![record("dup", "Add", 2, 1), record("dup", "Mul", 2, 1)];
    let graph = Graph::from_import(&Status::new(), records).unwrap();
    let op = graph.operation_by_name("dup").unwrap();
    assert_eq!(op.op_type(), "Add");
}

#[test]
fn edge_slots_carry_their_positions() {
    let graph = addition_graph();
    let add = graph.operation_by_name("add").unwrap();
    let inputs = add.inputs();
    assert_eq!(inputs.len(), 2);
    for (i, slot) in inputs.iter().enumerate() {
        assert_eq!(slot.index(), i);
        assert_eq!(slot.operation().name(), "add");
    }
    let outputs = add.outputs();
    assert_eq!(outputs.len(), 1);
    assert_eq!(outputs[0].index(), 0);
    assert_eq!(outputs[0].operation().name(), "add");
}
