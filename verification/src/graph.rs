//! Validatable graph types.
//!
//! [`Graph`] checks its own edges, one error per out-of-bounds endpoint.
//! [`Diagram`] composes validation: its errors are its own local errors
//! followed by the errors of each graph it owns, tagged with the graph's
//! position, so a diagram is valid exactly when its local rule holds and
//! every owned graph is valid.

use vstd::prelude::*;
use crate::validate::{Validate, concat_all, lemma_composed_validity, lemma_concat_all_push};

verus! {

/// A directed edge between numbered vertices.
#[derive(Clone, Copy, Debug, PartialEq, Eq)]
pub struct Edge {
    pub src: usize,
    pub tgt: usize,
}

/// One way a graph can be invalid: an edge, named by its position in the edge
/// list, has an endpoint that is not a vertex of the graph.
#[derive(Clone, Copy, Debug, PartialEq, Eq)]
pub enum GraphError {
    SrcOutOfBounds(usize),
    TgtOutOfBounds(usize),
}

/// A directed graph on the vertices `0 .. num_vertices`, given by an edge
/// list. It is valid when every edge's endpoints are vertices of the graph.
#[derive(Debug)]
pub struct Graph {
    pub num_vertices: usize,
    pub edges: Vec<Edge>,
}

/// The errors contributed by the edge `e` at position `i` of a graph with `n`
/// vertices: its source is checked before its target.
pub open spec fn edge_errors(n: usize, e: Edge, i: usize) -> Seq<GraphError> {
    (if e.src >= n {
        seq![GraphError::SrcOutOfBounds(i)]
    } else {
        Seq::<GraphError>::empty()
    }) + (if e.tgt >= n {
        seq![GraphError::TgtOutOfBounds(i)]
    } else {
        Seq::<GraphError>::empty()
    })
}

/// The errors of the edges of a graph with `n` vertices, in edge-list order.
pub open spec fn edges_errors(n: usize, edges: Seq<Edge>) -> Seq<GraphError>
    decreases edges.len(),
{
    if edges.len() == 0 {
        Seq::<GraphError>::empty()
    } else {
        edges_errors(n, edges.drop_last()) + edge_errors(
            n,
            edges.last(),
            (edges.len() - 1) as usize,
        )
    }
}

impl Validate for Graph {
    type ValidationError = GraphError;

    open spec fn invalid_seq(&self) -> Seq<GraphError> {
        edges_errors(self.num_vertices, self.edges@)
    }

    fn iter_invalid(&self) -> (errors: Vec<GraphError>) {
        let mut errors: Vec<GraphError> = Vec::new();
        let mut i: usize = 0;
        while i < self.edges.len()
            invariant
                i <= self.edges.len(),
                errors@ == edges_errors(self.num_vertices, self.edges@.take(i as int)),
            decreases self.edges.len() - i,
        {
            let ghost before = errors@;
            let e = self.edges[i];
            if e.src >= self.num_vertices {
                errors.push(GraphError::SrcOutOfBounds(i));
            }
            if e.tgt >= self.num_vertices {
                errors.push(GraphError::TgtOutOfBounds(i));
            }
            proof {
                let stepped = self.edges@.take(i as int + 1);
                assert(stepped.drop_last() =~= self.edges@.take(i as int));
                assert(errors@ =~= before + edge_errors(self.num_vertices, e, i));
            }
            i = i + 1;
        }
        proof {
            assert(self.edges@.take(self.edges.len() as int) =~= self.edges@);
        }
        errors
    }
}

/// One way a diagram can be invalid: its label is empty (the diagram's own
/// local rule), or the graph at the named position has the given error.
#[derive(Clone, Copy, Debug, PartialEq, Eq)]
pub enum DiagramError {
    EmptyLabel,
    InGraph(usize, GraphError),
}

/// A labelled collection of graphs. Its validity is composed: the diagram is
/// valid when its one local rule holds (the label is nonempty) and every
/// graph it owns is valid.
#[derive(Debug)]
pub struct Diagram {
    pub label: Vec<u8>,
    pub graphs: Vec<Graph>,
}

/// The local errors of a diagram: violations of the diagram's own rules,
/// apart from the graphs it owns.
pub open spec fn diagram_local_errors(d: Diagram) -> Seq<DiagramError> {
    if d.label@.len() == 0 {
        seq![DiagramError::EmptyLabel]
    } else {
        Seq::<DiagramError>::empty()
    }
}

/// The errors of the graph `g` at position `i` of a diagram, each tagged with
/// that position.
pub open spec fn tagged_graph_errors(g: Graph, i: usize) -> Seq<DiagramError> {
    g.invalid_seq().map_values(|e: GraphError| DiagramError::InGraph(i, e))
}

/// The per-graph error sequences of a diagram, in order of the graphs.
pub open spec fn diagram_child_errors(d: Diagram) -> Seq<Seq<DiagramError>> {
    d.graphs@.map(|i: int, g: Graph| tagged_graph_errors(g, i as usize))
}

impl Validate for Diagram {
    type ValidationError = DiagramError;

    open spec fn invalid_seq(&self) -> Seq<DiagramError> {
        diagram_local_errors(*self) + concat_all(diagram_child_errors(*self))
    }

    fn iter_invalid(&self) -> (errors: Vec<DiagramError>) {
        let ghost children = diagram_child_errors(*self);
        let mut errors: Vec<DiagramError> = Vec::new();
        if self.label.len() == 0 {
            errors.push(DiagramError::EmptyLabel);
        }
        proof {
            assert(errors@ =~= diagram_local_errors(*self) + concat_all(children.take(0)));
        }
        let mut i: usize = 0;
        while i < self.graphs.len()
            invariant
                i <= self.graphs.len(),
                children == diagram_child_errors(*self),
                errors@ == diagram_local_errors(*self) + concat_all(children.take(i as int)),
            decreases self.graphs.len() - i,
        {
            let ghost before = errors@;
            let g: &Graph = &self.graphs[i];
            let child = g.iter_invalid();
            let mut j: usize = 0;
            while j < child.len()
                invariant
                    j <= child.len(),
                    i < self.graphs.len(),
                    child@ == self.graphs@[i as int].invalid_seq(),
                    errors@ == before + child@.take(j as int).map_values(
                        (|e: GraphError| DiagramError::InGraph(i, e)),
                    ),
                decreases child.len() - j,
            {
                errors.push(DiagramError::InGraph(i, child[j]));
                proof {
                    assert(child@.take(j as int + 1).map_values(
                        (|e: GraphError| DiagramError::InGraph(i, e)),
                    ) =~= child@.take(j as int).map_values(
                        (|e: GraphError| DiagramError::InGraph(i, e)),
                    ).push(DiagramError::InGraph(i, child@[j as int])));
                }
                j = j + 1;
            }
            proof {
                assert(child@.take(child.len() as int) =~= child@);
                assert(errors@ =~= before + tagged_graph_errors(self.graphs@[i as int], i));
                assert(children[i as int] == tagged_graph_errors(self.graphs@[i as int], i));
                assert(children.take(i as int + 1) =~= children.take(i as int).push(
                    children[i as int],
                ));
                lemma_concat_all_push(children.take(i as int), children[i as int]);
                assert(errors@ =~= diagram_local_errors(*self) + concat_all(
                    children.take(i as int + 1),
                ));
            }
            i = i + 1;
        }
        proof {
            assert(children.take(self.graphs.len() as int) =~= children);
        }
        errors
    }
}

/// Composition, instantiated: a diagram is valid exactly when its label is
/// nonempty and every graph it owns is valid.
pub proof fn lemma_diagram_valid_iff(d: Diagram)
    ensures
        d.invalid_seq().len() == 0 <==> (d.label@.len() > 0 && (forall|i: int|
            0 <= i < d.graphs@.len() ==> d.graphs@[i].invalid_seq().len() == 0)),
{
    let local = diagram_local_errors(d);
    let children = diagram_child_errors(d);
    lemma_composed_validity(local, children);
    assert forall|i: int| 0 <= i < d.graphs@.len() implies children[i].len()
        == d.graphs@[i].invalid_seq().len() by {
        assert(children[i] == tagged_graph_errors(d.graphs@[i], i as usize));
    }
    if d.invalid_seq().len() == 0 {
        assert forall|i: int| 0 <= i < d.graphs@.len() implies d.graphs@[i].invalid_seq().len()
            == 0 by {
            assert(children[i].len() == 0);
        }
    } else if d.label@.len() > 0 && (forall|i: int|
        0 <= i < d.graphs@.len() ==> d.graphs@[i].invalid_seq().len() == 0) {
        assert forall|i: int| 0 <= i < children.len() implies children[i].len() == 0 by {
            assert(d.graphs@[i].invalid_seq().len() == 0);
        }
        assert(local.len() == 0);
    }
}

} // verus!
