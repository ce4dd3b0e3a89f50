//! Tests of the error aggregator and of the validation capability through
//! the graph types.

use catlog::graph::{Diagram, DiagramError, Edge, Graph, GraphError};
use catlog::validate::{collect_errors, Validate};
use nonempty::NonEmpty;

fn errors_of<T>(result: Result<(), NonEmpty<T>>) -> Vec<T> {
    match result {
        Ok(()) => panic!("expected an invalid outcome"),
        Err(errors) => errors.into_iter().collect(),
    }
}

#[test]
fn collect_errors_empty_input_is_ok() {
    let no_errors: Vec<GraphError> = vec![];
    assert_eq!(collect_errors(no_errors), Ok(()));
}

#[test]
fn collect_errors_singleton_input() {
    let result = collect_errors(vec!["bad field"]);
    let errors = result.unwrap_err();
    assert_eq!(errors.head, "bad field");
    assert!(errors.tail.is_empty());
    assert_eq!(errors.len(), 1);
}

#[test]
fn collect_errors_keeps_length_and_order() {
    let result = collect_errors(vec![1u32, 2, 3]);
    let errors = result.unwrap_err();
    assert_eq!(errors.len(), 3);
    assert_eq!(errors.head, 1);
    assert_eq!(errors.tail, vec![2, 3]);
}

#[test]
fn valid_graph_validates_ok() {
    let graph = Graph {
        num_vertices: 3,
        edges: vec![Edge { src: 0, tgt: 1 }, Edge { src: 1, tgt: 2 }, Edge { src: 2, tgt: 0 }],
    };
    assert_eq!(graph.validate(), Ok(()));
    assert!(graph.iter_invalid().is_empty());
}

#[test]
fn graph_with_one_violation() {
    let graph = Graph { num_vertices: 2, edges: vec![Edge { src: 0, tgt: 5 }] };
    let errors = errors_of(graph.validate());
    assert_eq!(errors, vec![GraphError::TgtOutOfBounds(0)]);
}

#[test]
fn graph_with_three_violations_in_order() {
    let graph = Graph {
        num_vertices: 1,
        edges: vec![Edge { src: 1, tgt: 2 }, Edge { src: 0, tgt: 3 }],
    };
    let errors = errors_of(graph.validate());
    assert_eq!(
        errors,
        vec![
            GraphError::SrcOutOfBounds(0),
            GraphError::TgtOutOfBounds(0),
            GraphError::TgtOutOfBounds(1),
        ]
    );
}

#[test]
fn validate_is_idempotent() {
    let graph = Graph {
        num_vertices: 2,
        edges: vec![Edge { src: 0, tgt: 2 }, Edge { src: 0, tgt: 1 }, Edge { src: 9, tgt: 9 }],
    };
    let first = graph.validate();
    let second = graph.validate();
    assert_eq!(first, second);
}

#[test]
fn diagram_composes_local_errors_first() {
    let invalid_child = Graph { num_vertices: 1, edges: vec![Edge { src: 0, tgt: 1 }] };
    let valid_child = Graph { num_vertices: 2, edges: vec![Edge { src: 0, tgt: 1 }] };
    let diagram = Diagram { label: vec![], graphs: vec![invalid_child, valid_child] };
    let errors = errors_of(diagram.validate());
    assert_eq!(
        errors,
        vec![
            DiagramError::EmptyLabel,
            DiagramError::InGraph(0, GraphError::TgtOutOfBounds(0)),
        ]
    );
}

#[test]
fn diagram_valid_when_label_nonempty_and_graphs_valid() {
    let diagram = Diagram {
        label: vec![b'd'],
        graphs: vec![
            Graph { num_vertices: 1, edges: vec![] },
            Graph { num_vertices: 2, edges: vec![Edge { src: 1, tgt: 0 }] },
        ],
    };
    assert_eq!(diagram.validate(), Ok(()));
}

#[test]
fn diagram_collects_errors_of_every_graph_in_order() {
    let diagram = Diagram {
        label: vec![b'd'],
        graphs: vec![
            Graph { num_vertices: 0, edges: vec![Edge { src: 0, tgt: 0 }] },
            Graph { num_vertices: 1, edges: vec![] },
            Graph { num_vertices: 1, edges: vec![Edge { src: 2, tgt: 0 }] },
        ],
    };
    let errors = errors_of(diagram.validate());
    assert_eq!(
        errors,
        vec![
            DiagramError::InGraph(0, GraphError::SrcOutOfBounds(0)),
            DiagramError::InGraph(0, GraphError::TgtOutOfBounds(0)),
            DiagramError::InGraph(2, GraphError::SrcOutOfBounds(0)),
        ]
    );
}
