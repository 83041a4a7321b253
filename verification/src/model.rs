//! The mathematical model that the handle contracts speak of.

use vstd::prelude::*;

verus! {

/// One directed connection: where it starts, where it ends, what it carries.
pub struct EdgeView<E> {
    pub source: int,
    pub target: int,
    pub data: E,
}

/// The content of a graph. Vertices and edges are named by integers; which
/// integers is up to the implementation.
pub struct GraphView<V, E> {
    /// The payload of each vertex.
    pub vertices: Map<int, V>,
    /// Each edge with its end points and payload.
    pub edges: Map<int, EdgeView<E>>,
    /// For each vertex, the edges that leave it, in the order of iteration.
    pub outgoing: Map<int, Seq<int>>,
    /// For each vertex, the edges that reach it, in the order of iteration.
    pub incoming: Map<int, Seq<int>>,
}

impl<V, E> GraphView<V, E> {
    pub open spec fn has_vertex(self, v: int) -> bool {
        self.vertices.dom().contains(v)
    }

    pub open spec fn has_edge(self, e: int) -> bool {
        self.edges.dom().contains(e)
    }

    /// The adjacency lists and the edge table describe the same graph: every
    /// edge joins two vertices and is listed once by its source and once by
    /// its target, and every listed edge exists and belongs to the list's
    /// vertex.
    pub open spec fn wf(self) -> bool {
        &&& self.outgoing.dom() == self.vertices.dom()
        &&& self.incoming.dom() == self.vertices.dom()
        &&& forall|e: int| #[trigger] self.has_edge(e) ==> {
                &&& self.has_vertex(self.edges[e].source)
                &&& self.has_vertex(self.edges[e].target)
                &&& self.outgoing[self.edges[e].source].contains(e)
                &&& self.incoming[self.edges[e].target].contains(e)
            }
        &&& forall|v: int, i: int|
                self.has_vertex(v) && 0 <= i < self.outgoing[v].len() ==> {
                    &&& self.has_edge(#[trigger] self.outgoing[v][i])
                    &&& self.edges[self.outgoing[v][i]].source == v
                }
        &&& forall|v: int, i: int|
                self.has_vertex(v) && 0 <= i < self.incoming[v].len() ==> {
                    &&& self.has_edge(#[trigger] self.incoming[v][i])
                    &&& self.edges[self.incoming[v][i]].target == v
                }
        &&& forall|v: int| #[trigger] self.has_vertex(v) ==> self.outgoing[v].no_duplicates()
        &&& forall|v: int| #[trigger] self.has_vertex(v) ==> self.incoming[v].no_duplicates()
    }

    /// The graph without vertices and edges.
    pub open spec fn empty() -> Self {
        GraphView {
            vertices: Map::empty(),
            edges: Map::empty(),
            outgoing: Map::empty(),
            incoming: Map::empty(),
        }
    }

    /// The same graph with one more vertex `v`, which carries `data` and has
    /// no edges yet.
    pub open spec fn add_vertex(self, v: int, data: V) -> Self {
        GraphView {
            vertices: self.vertices.insert(v, data),
            edges: self.edges,
            outgoing: self.outgoing.insert(v, Seq::empty()),
            incoming: self.incoming.insert(v, Seq::empty()),
        }
    }

    /// The same graph with one more edge `e` from `source` to `target`, which
    /// carries `data` and comes last among the edges of both vertices.
    pub open spec fn add_edge(self, e: int, source: int, target: int, data: E) -> Self {
        GraphView {
            vertices: self.vertices,
            edges: self.edges.insert(e, EdgeView { source, target, data }),
            outgoing: self.outgoing.insert(source, self.outgoing[source].push(e)),
            incoming: self.incoming.insert(target, self.incoming[target].push(e)),
        }
    }

    /// The same graph with the payload of vertex `v` replaced by `data`.
    pub open spec fn with_vertex_data(self, v: int, data: V) -> Self {
        GraphView {
            vertices: self.vertices.insert(v, data),
            edges: self.edges,
            outgoing: self.outgoing,
            incoming: self.incoming,
        }
    }
}

/// Where a handle stands: the graph that it looks at, and the vertex or edge
/// of that graph that it denotes. For a collection of edges `at` is the vertex
/// that owns the collection.
pub struct Place<V, E> {
    pub graph: GraphView<V, E>,
    pub at: int,
}

impl<V, E> Place<V, E> {
    /// The place denotes a vertex of a well-formed graph.
    pub open spec fn is_vertex(self) -> bool {
        self.graph.wf() && self.graph.has_vertex(self.at)
    }

    /// The place denotes an edge of a well-formed graph.
    pub open spec fn is_edge(self) -> bool {
        self.graph.wf() && self.graph.has_edge(self.at)
    }

    /// The payload of the vertex at this place.
    pub open spec fn vertex_data(self) -> V {
        self.graph.vertices[self.at]
    }

    /// The payload of the edge at this place.
    pub open spec fn edge_data(self) -> E {
        self.graph.edges[self.at].data
    }

    /// The edges that leave the vertex at this place, in iteration order.
    pub open spec fn out_edges(self) -> Seq<int> {
        self.graph.outgoing[self.at]
    }

    /// The edges that reach the vertex at this place, in iteration order.
    pub open spec fn in_edges(self) -> Seq<int> {
        self.graph.incoming[self.at]
    }

    /// The place of the `i`-th edge that leaves this vertex.
    pub open spec fn out_edge(self, i: int) -> Self {
        Place { graph: self.graph, at: self.out_edges()[i] }
    }

    /// The place of the `i`-th edge that reaches this vertex.
    pub open spec fn in_edge(self, i: int) -> Self {
        Place { graph: self.graph, at: self.in_edges()[i] }
    }

    /// The place of the vertex at which this edge starts.
    pub open spec fn source(self) -> Self {
        Place { graph: self.graph, at: self.graph.edges[self.at].source }
    }

    /// The place of the vertex at which this edge ends.
    pub open spec fn target(self) -> Self {
        Place { graph: self.graph, at: self.graph.edges[self.at].target }
    }

    /// The same place after the payload of its vertex was replaced by `data`.
    pub open spec fn with_vertex_data(self, data: V) -> Self {
        Place { graph: self.graph.with_vertex_data(self.at, data), at: self.at }
    }
}

/// The `i`-th edge that leaves a vertex is an edge of the graph, and it starts
/// at that vertex.
pub proof fn lemma_out_edge_starts_here<V, E>(p: Place<V, E>, i: int)
    requires
        p.is_vertex(),
        0 <= i < p.out_edges().len(),
    ensures
        p.out_edge(i).is_edge(),
        p.out_edge(i).source() == p,
        p.out_edge(i).target().is_vertex(),
{
    let e = p.graph.outgoing[p.at][i];
    assert(p.graph.has_edge(e));
}

/// The `i`-th edge that reaches a vertex is an edge of the graph, and it ends
/// at that vertex.
pub proof fn lemma_in_edge_ends_here<V, E>(p: Place<V, E>, i: int)
    requires
        p.is_vertex(),
        0 <= i < p.in_edges().len(),
    ensures
        p.in_edge(i).is_edge(),
        p.in_edge(i).target() == p,
        p.in_edge(i).source().is_vertex(),
{
    let e = p.graph.incoming[p.at][i];
    assert(p.graph.has_edge(e));
}

/// An edge is listed among the edges that leave its source and among those
/// that reach its target, each of which is a vertex of the graph.
pub proof fn lemma_edge_is_listed<V, E>(p: Place<V, E>)
    requires
        p.is_edge(),
    ensures
        p.source().is_vertex(),
        p.target().is_vertex(),
        p.source().out_edges().contains(p.at),
        p.target().in_edges().contains(p.at),
{
}

/// Replacing the payload of a vertex changes that payload and nothing else:
/// the place is still a vertex, its edges are the same in both directions,
/// every edge is as it was, and every other vertex keeps its payload.
pub proof fn lemma_with_vertex_data<V, E>(p: Place<V, E>, data: V)
    requires
        p.is_vertex(),
    ensures
        p.with_vertex_data(data).is_vertex(),
        p.with_vertex_data(data).vertex_data() == data,
        p.with_vertex_data(data).out_edges() == p.out_edges(),
        p.with_vertex_data(data).in_edges() == p.in_edges(),
        p.with_vertex_data(data).graph.edges == p.graph.edges,
        forall|v: int|
            v != p.at && p.graph.has_vertex(v) ==> #[trigger] p.with_vertex_data(data).graph.vertices[v]
                == p.graph.vertices[v],
{
    let g = p.graph;
    let h = g.with_vertex_data(p.at, data);
    assert(h.vertices.dom() =~= g.vertices.dom());
    assert forall|e: int| #[trigger] h.has_edge(e) implies {
        &&& h.has_vertex(h.edges[e].source)
        &&& h.has_vertex(h.edges[e].target)
        &&& h.outgoing[h.edges[e].source].contains(e)
        &&& h.incoming[h.edges[e].target].contains(e)
    } by {
        assert(g.has_edge(e));
    }
    assert forall|v: int| #[trigger] h.has_vertex(v) implies h.outgoing[v].no_duplicates() by {
        assert(g.has_vertex(v));
    }
    assert forall|v: int| #[trigger] h.has_vertex(v) implies h.incoming[v].no_duplicates() by {
        assert(g.has_vertex(v));
    }
}

/// The empty graph is well formed.
pub proof fn lemma_empty_wf<V, E>()
    ensures
        GraphView::<V, E>::empty().wf(),
{
}

/// A new vertex keeps the graph well formed.
pub proof fn lemma_add_vertex_wf<V, E>(g: GraphView<V, E>, v: int, data: V)
    requires
        g.wf(),
        !g.has_vertex(v),
    ensures
        g.add_vertex(v, data).wf(),
{
    let h = g.add_vertex(v, data);
    assert(h.outgoing.dom() =~= h.vertices.dom());
    assert(h.incoming.dom() =~= h.vertices.dom());
    assert forall|e: int| #[trigger] h.has_edge(e) implies {
        &&& h.has_vertex(h.edges[e].source)
        &&& h.has_vertex(h.edges[e].target)
        &&& h.outgoing[h.edges[e].source].contains(e)
        &&& h.incoming[h.edges[e].target].contains(e)
    } by {
        assert(g.has_edge(e));
    }
    assert forall|u: int, i: int| h.has_vertex(u) && 0 <= i < h.outgoing[u].len() implies {
        &&& h.has_edge(#[trigger] h.outgoing[u][i])
        &&& h.edges[h.outgoing[u][i]].source == u
    } by {
        assert(g.has_vertex(u));
        assert(g.has_edge(g.outgoing[u][i]));
    }
    assert forall|u: int, i: int| h.has_vertex(u) && 0 <= i < h.incoming[u].len() implies {
        &&& h.has_edge(#[trigger] h.incoming[u][i])
        &&& h.edges[h.incoming[u][i]].target == u
    } by {
        assert(g.has_vertex(u));
        assert(g.has_edge(g.incoming[u][i]));
    }
    assert forall|u: int| #[trigger] h.has_vertex(u) implies h.outgoing[u].no_duplicates() by {
        if u != v {
            assert(g.has_vertex(u));
        }
    }
    assert forall|u: int| #[trigger] h.has_vertex(u) implies h.incoming[u].no_duplicates() by {
        if u != v {
            assert(g.has_vertex(u));
        }
    }
}

/// A new edge between two vertices of the graph keeps it well formed.
pub proof fn lemma_add_edge_wf<V, E>(g: GraphView<V, E>, e: int, source: int, target: int, data: E)
    requires
        g.wf(),
        !g.has_edge(e),
        g.has_vertex(source),
        g.has_vertex(target),
    ensures
        g.add_edge(e, source, target, data).wf(),
{
    let h = g.add_edge(e, source, target, data);
    assert(h.outgoing.dom() =~= h.vertices.dom());
    assert(h.incoming.dom() =~= h.vertices.dom());
    assert forall|u: int, i: int| h.has_vertex(u) && 0 <= i < h.outgoing[u].len() implies {
        &&& h.has_edge(#[trigger] h.outgoing[u][i])
        &&& h.edges[h.outgoing[u][i]].source == u
    } by {
        if u == source && i == g.outgoing[source].len() {
        } else {
            assert(g.has_edge(g.outgoing[u][i]));
        }
    }
    assert forall|u: int, i: int| h.has_vertex(u) && 0 <= i < h.incoming[u].len() implies {
        &&& h.has_edge(#[trigger] h.incoming[u][i])
        &&& h.edges[h.incoming[u][i]].target == u
    } by {
        if u == target && i == g.incoming[target].len() {
        } else {
            assert(g.has_edge(g.incoming[u][i]));
        }
    }
    assert forall|d: int| #[trigger] h.has_edge(d) implies {
        &&& h.has_vertex(h.edges[d].source)
        &&& h.has_vertex(h.edges[d].target)
        &&& h.outgoing[h.edges[d].source].contains(d)
        &&& h.incoming[h.edges[d].target].contains(d)
    } by {
        if d == e {
            assert(h.outgoing[source][g.outgoing[source].len() as int] == e);
            assert(h.incoming[target][g.incoming[target].len() as int] == e);
        } else {
            assert(g.has_edge(d));
            let s = g.edges[d].source;
            let t = g.edges[d].target;
            let i = choose|i: int| 0 <= i < g.outgoing[s].len() && g.outgoing[s][i] == d;
            assert(h.outgoing[s][i] == d);
            let j = choose|j: int| 0 <= j < g.incoming[t].len() && g.incoming[t][j] == d;
            assert(h.incoming[t][j] == d);
        }
    }
    assert forall|u: int| #[trigger] h.has_vertex(u) implies h.outgoing[u].no_duplicates() by {
        assert(g.has_vertex(u));
        if u == source {
            assert forall|i: int| 0 <= i < g.outgoing[u].len() implies g.outgoing[u][i] != e by {
                assert(g.has_edge(g.outgoing[u][i]));
            }
        }
    }
    assert forall|u: int| #[trigger] h.has_vertex(u) implies h.incoming[u].no_duplicates() by {
        assert(g.has_vertex(u));
        if u == target {
            assert forall|i: int| 0 <= i < g.incoming[u].len() implies g.incoming[u][i] != e by {
                assert(g.has_edge(g.incoming[u][i]));
            }
        }
    }
}

} // verus!
