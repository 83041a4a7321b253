//! The handle traits exercised on the adjacency-list graph.

use graph_zipper::adjacency::AdjacencyList;
use graph_zipper::adjacency::NavEdge;
use graph_zipper::adjacency::NavVertex;
use graph_zipper::mut_types::Vertex as _;
use graph_zipper::nav_types;
use graph_zipper::nav_types::Edge as _;
use graph_zipper::nav_types::InEdgeCollection as _;
use graph_zipper::nav_types::NavTypes;
use graph_zipper::nav_types::OutEdgeCollection as _;
use graph_zipper::nav_types::Vertex as _;

type Graph = AdjacencyList<String, u32>;

const A: usize = 0;
const B: usize = 1;
const C: usize = 2;

/// Vertices A, B, C with edges A -> B and A -> C.
fn fork() -> Graph {
    let mut g = Graph::new();
    let a = g.add_vertex("A".to_string());
    let b = g.add_vertex("B".to_string());
    let c = g.add_vertex("C".to_string());
    g.add_edge(a, b, 10);
    g.add_edge(a, c, 20);
    g
}

/// The out-degree of a vertex, through the traits alone.
fn out_degree<'a, V>(v: &V) -> usize
where
    V: nav_types::Vertex<'a>,
    <V::Types as NavTypes<'a>>::NavOutEdgeCollection: nav_types::OutEdgeCollection<'a>,
{
    v.out_edges().len()
}

/// The payloads at the far ends of the edges of a collection, through the
/// traits alone.
fn target_payloads<'a, C>(edges: &C) -> Vec<&'a String>
where
    C: nav_types::OutEdgeCollection<'a, Types = Graph>,
{
    let mut names = Vec::new();
    for e in edges.iter() {
        names.push(e.target().data());
    }
    names
}

#[test]
fn fork_scenario() {
    let g = fork();
    let a = g.vertex(A);
    let b = g.vertex(B);
    assert_eq!(a.out_edges().len(), 2);
    let first = target_payloads(&a.out_edges());
    assert_eq!(first, vec!["B", "C"]);
    let second = target_payloads(&a.out_edges());
    assert_eq!(first, second);
    let into_b = b.in_edges();
    assert_eq!(into_b.len(), 1);
    let sole: Vec<NavEdge<String, u32>> = into_b.iter().collect();
    assert_eq!(sole.len(), 1);
    assert_eq!(sole[0].source().id(), a.id());
    assert_eq!(sole[0].source().data(), "A");
    assert_eq!(*sole[0].data(), 10);
}

#[test]
fn empty_graph_has_nothing() {
    let g = Graph::new();
    assert_eq!(g.vertex_count(), 0);
    assert_eq!(g.edge_count(), 0);
}

#[test]
fn vertices_and_edges_are_numbered_in_order() {
    let mut g = Graph::new();
    assert_eq!(g.add_vertex("x".to_string()), 0);
    assert_eq!(g.add_vertex("y".to_string()), 1);
    assert_eq!(g.add_edge(0, 1, 5), 0);
    assert_eq!(g.add_edge(1, 0, 6), 1);
    assert_eq!(g.add_vertex("z".to_string()), 2);
    assert_eq!(g.vertex_count(), 3);
    assert_eq!(g.edge_count(), 2);
    assert_eq!(g.vertex(1).id(), 1);
    assert_eq!(g.vertex(2).data(), "z");
}

#[test]
fn handles_obtained_apart_observe_the_same_payload() {
    let g = fork();
    let direct = g.vertex(A);
    let again = g.vertex(A);
    let copied = direct;
    let first_edge = g.vertex(B).in_edges().iter().next().unwrap();
    let through_edge = first_edge.source();
    let through_collection = direct.out_edges().source();
    assert_eq!(direct.data(), "A");
    assert_eq!(again.data(), direct.data());
    assert_eq!(copied.data(), direct.data());
    assert_eq!(through_edge.data(), direct.data());
    assert_eq!(through_collection.data(), direct.data());
    assert_eq!(through_edge.id(), direct.id());
    assert_eq!(through_collection.id(), direct.id());
    // All of them point at the one stored payload.
    assert!(std::ptr::eq(through_edge.data(), direct.data()));
}

#[test]
fn iteration_yields_as_many_edges_as_len() {
    let g = fork();
    let expected_out = [2, 0, 0];
    let expected_in = [0, 1, 1];
    for id in 0..g.vertex_count() {
        let v = g.vertex(id);
        let out = v.out_edges();
        let inc = v.in_edges();
        assert_eq!(out.len(), expected_out[id]);
        assert_eq!(inc.len(), expected_in[id]);
        assert_eq!(out.iter().count(), out.len());
        assert_eq!(inc.iter().count(), inc.len());
        assert_eq!(out.is_empty(), out.len() == 0);
        assert_eq!(inc.is_empty(), inc.len() == 0);
        assert_eq!(out_degree(&v), expected_out[id]);
    }
    assert!(!g.vertex(A).out_edges().is_empty());
    assert!(g.vertex(A).in_edges().is_empty());
    assert!(g.vertex(C).out_edges().is_empty());
    assert!(!g.vertex(C).in_edges().is_empty());
}

#[test]
fn iterator_ends_and_stays_ended() {
    let g = fork();
    let mut it = g.vertex(A).out_edges().iter();
    assert_eq!(it.next().map(|e| e.id()), Some(0));
    assert_eq!(it.next().map(|e| e.id()), Some(1));
    assert!(it.next().is_none());
    assert!(it.next().is_none());
}

#[test]
fn every_out_edge_starts_at_its_owner() {
    let g = fork();
    for id in 0..g.vertex_count() {
        let v = g.vertex(id);
        for e in v.out_edges().iter() {
            assert_eq!(e.source().id(), v.id());
            assert_eq!(e.source().data(), v.data());
        }
        assert_eq!(v.out_edges().source().id(), v.id());
    }
}

#[test]
fn every_in_edge_ends_at_its_owner() {
    let g = fork();
    for id in 0..g.vertex_count() {
        let v = g.vertex(id);
        for e in v.in_edges().iter() {
            assert_eq!(e.target().id(), v.id());
            assert_eq!(e.target().data(), v.data());
        }
        assert_eq!(v.in_edges().target().id(), v.id());
    }
}

#[test]
fn edge_payloads_and_end_points() {
    let g = fork();
    let edges: Vec<NavEdge<String, u32>> = g.vertex(A).out_edges().iter().collect();
    assert_eq!(edges[0].id(), 0);
    assert_eq!(*edges[0].data(), 10);
    assert_eq!(edges[0].source().id(), A);
    assert_eq!(edges[0].target().id(), B);
    assert_eq!(edges[1].id(), 1);
    assert_eq!(*edges[1].data(), 20);
    assert_eq!(edges[1].source().id(), A);
    assert_eq!(edges[1].target().id(), C);
}

#[test]
fn self_loop_is_listed_in_both_directions() {
    let mut g = Graph::new();
    let v = g.add_vertex("loop".to_string());
    let e = g.add_edge(v, v, 1);
    let h = g.vertex(v);
    assert_eq!(h.out_edges().len(), 1);
    assert_eq!(h.in_edges().len(), 1);
    let out = h.out_edges().iter().next().unwrap();
    let inc = h.in_edges().iter().next().unwrap();
    assert_eq!(out.id(), e);
    assert_eq!(inc.id(), e);
    assert_eq!(out.source().id(), v);
    assert_eq!(out.target().id(), v);
}

#[test]
fn parallel_edges_are_kept_apart() {
    let mut g = Graph::new();
    let x = g.add_vertex("x".to_string());
    let y = g.add_vertex("y".to_string());
    g.add_edge(x, y, 1);
    g.add_edge(x, y, 2);
    let weights: Vec<u32> = g.vertex(x).out_edges().iter().map(|e| *e.data()).collect();
    assert_eq!(weights, vec![1, 2]);
    let weights: Vec<u32> = g.vertex(y).in_edges().iter().map(|e| *e.data()).collect();
    assert_eq!(weights, vec![1, 2]);
}

#[test]
fn payload_reference_outlives_the_handle() {
    let g = fork();
    let name: &String = {
        let v: NavVertex<String, u32> = g.vertex(C);
        v.data()
    };
    let weight: &u32 = {
        let v = g.vertex(A);
        let e = v.out_edges().iter().next().unwrap();
        e.data()
    };
    assert_eq!(name, "C");
    assert_eq!(*weight, 10);
}

#[test]
fn data_mut_replaces_one_payload() {
    let mut g = fork();
    {
        let mut v = g.vertex_mut(B);
        assert_eq!(v.data(), "B");
        v.data_mut().push_str("-edited");
        assert_eq!(v.data(), "B-edited");
    }
    assert_eq!(g.vertex(A).data(), "A");
    assert_eq!(g.vertex(B).data(), "B-edited");
    assert_eq!(g.vertex(C).data(), "C");
    assert_eq!(g.vertex_count(), 3);
    assert_eq!(g.edge_count(), 2);
    assert_eq!(target_payloads(&g.vertex(A).out_edges()), vec!["B-edited", "C"]);
    assert_eq!(g.vertex(B).in_edges().len(), 1);
}

#[test]
fn nested_view_reads_then_mutation_resumes() {
    let mut g = fork();
    let mut v = g.vertex_mut(A);
    *v.data_mut() = "A1".to_string();
    let seen = {
        let view = v.out_edges();
        assert_eq!(view.len(), 2);
        assert_eq!(view.source().data(), "A1");
        let edges: Vec<NavEdge<String, u32>> = view.iter().collect();
        assert_eq!(edges[0].source().data(), "A1");
        edges.iter().map(|e| e.target().data().clone()).collect::<Vec<String>>()
    };
    assert_eq!(seen, vec!["B".to_string(), "C".to_string()]);
    *v.data_mut() = "A2".to_string();
    assert_eq!(v.data(), "A2");
    assert_eq!(v.out_edges().len(), 2);
}

#[test]
fn conversion_hands_custody_to_the_collection() {
    let mut g = fork();
    {
        let v = g.vertex_mut(A);
        let out = v.to_out_edges();
        assert_eq!(out.owner, A);
        assert_eq!(out.graph.vertex_count(), 3);
        out.graph.add_edge(out.owner, out.owner, 30);
    }
    assert_eq!(g.vertex(A).out_edges().len(), 3);
    {
        let v = g.vertex_mut(C);
        let inc = v.to_in_edges();
        assert_eq!(inc.owner, C);
        assert_eq!(inc.graph.vertex(inc.owner).in_edges().len(), 1);
    }
}

#[test]
fn editors_follow_one_another() {
    let mut g = fork();
    {
        let mut first = g.vertex_mut(A);
        first.data_mut().push('!');
    }
    {
        let mut second = g.vertex_mut(A);
        second.data_mut().push('?');
    }
    assert_eq!(g.vertex(A).data(), "A!?");
}
