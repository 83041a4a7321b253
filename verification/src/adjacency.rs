//! A graph kept as adjacency lists, with read-only and exclusive handles over
//! it.

use vstd::prelude::*;
use vstd::std_specs::vec::axiom_spec_into_iter;
use crate::{GraphTypes, BoundedIterator};
use crate::model::{
    EdgeView, GraphView, Place, lemma_add_edge_wf, lemma_add_vertex_wf, lemma_with_vertex_data,
};
use crate::mut_types::MutTypes;
use crate::nav_types::NavTypes;

verus! {

/// One stored edge.
struct Arc<E> {
    source: usize,
    target: usize,
    data: E,
}

/// One stored vertex with the numbers of its edges.
struct Node<V> {
    data: V,
    outgoing: Vec<usize>,
    incoming: Vec<usize>,
}

/// A finite directed graph. Vertices and edges are numbered from zero, each
/// kind in the order in which it was added.
pub struct AdjacencyList<V, E> {
    nodes: Vec<Node<V>>,
    arcs: Vec<Arc<E>>,
}

/// The edge numbers of a stored adjacency list.
spec fn ids(list: Seq<usize>) -> Seq<int> {
    Seq::new(list.len(), |i: int| list[i] as int)
}

impl<V, E> View for AdjacencyList<V, E> {
    type V = GraphView<V, E>;

    closed spec fn view(&self) -> GraphView<V, E> {
        GraphView {
            vertices: Map::new(|v: int| 0 <= v < self.nodes.len(), |v: int| self.nodes[v].data),
            edges: Map::new(
                |e: int| 0 <= e < self.arcs.len(),
                |e: int| (EdgeView {
                    source: self.arcs[e].source as int,
                    target: self.arcs[e].target as int,
                    data: self.arcs[e].data,
                }),
            ),
            outgoing: Map::new(
                |v: int| 0 <= v < self.nodes.len(),
                |v: int| ids(self.nodes[v].outgoing@),
            ),
            incoming: Map::new(
                |v: int| 0 <= v < self.nodes.len(),
                |v: int| ids(self.nodes[v].incoming@),
            ),
        }
    }
}

impl<V, E> AdjacencyList<V, E> {
    /// The number of vertices.
    pub closed spec fn order(&self) -> nat {
        self.nodes.len() as nat
    }

    /// The number of edges.
    pub closed spec fn size(&self) -> nat {
        self.arcs.len() as nat
    }

    /// The vertices are the numbers below `order()`, the edges those below
    /// `size()`.
    pub proof fn lemma_numbering(&self)
        ensures
            forall|v: int| #[trigger] self@.has_vertex(v) <==> 0 <= v < self.order(),
            forall|e: int| #[trigger] self@.has_edge(e) <==> 0 <= e < self.size(),
    {
    }

    /// `after` is this graph but for the payload of vertex `at`.
    spec fn differs_in_data(self, after: Self, at: int) -> bool {
        &&& 0 <= at < self.nodes.len()
        &&& after.arcs == self.arcs
        &&& after.nodes.len() == self.nodes.len()
        &&& after.nodes[at].outgoing == self.nodes[at].outgoing
        &&& after.nodes[at].incoming == self.nodes[at].incoming
        &&& forall|v: int| 0 <= v < self.nodes.len() && v != at ==> after.nodes[v] == self.nodes[v]
    }

    proof fn lemma_differs_in_data(self, after: Self, at: int)
        requires
            self.differs_in_data(after, at),
        ensures
            after@ == self@.with_vertex_data(at, after.nodes[at].data),
    {
        let k = self@.with_vertex_data(at, after.nodes[at].data);
        assert(after@.vertices =~= k.vertices);
        assert(after@.edges =~= k.edges);
        assert(after@.outgoing =~= k.outgoing);
        assert(after@.incoming =~= k.incoming);
    }

    /// A graph without vertices and edges.
    pub fn new() -> (g: Self)
        ensures
            g@.wf(),
            g@ == GraphView::<V, E>::empty(),
            g.order() == 0,
            g.size() == 0,
    {
        let g = AdjacencyList { nodes: Vec::new(), arcs: Vec::new() };
        assert(g@.vertices =~= Map::empty());
        assert(g@.edges =~= Map::empty());
        assert(g@.outgoing =~= Map::empty());
        assert(g@.incoming =~= Map::empty());
        g
    }

    /// The number of vertices.
    pub fn vertex_count(&self) -> (n: usize)
        ensures
            n == self.order(),
    {
        self.nodes.len()
    }

    /// The number of edges.
    pub fn edge_count(&self) -> (n: usize)
        ensures
            n == self.size(),
    {
        self.arcs.len()
    }

    /// Adds a vertex that carries `data` and returns its number.
    pub fn add_vertex(&mut self, data: V) -> (id: usize)
        requires
            old(self)@.wf(),
        ensures
            final(self)@.wf(),
            id == old(self).order(),
            final(self).order() == old(self).order() + 1,
            final(self).size() == old(self).size(),
            final(self)@ == old(self)@.add_vertex(id as int, data),
    {
        let id = self.nodes.len();
        self.nodes.push(Node { data, outgoing: Vec::new(), incoming: Vec::new() });
        proof {
            let g = old(self)@;
            let h = g.add_vertex(id as int, data);
            assert(self@.vertices =~= h.vertices);
            assert(self@.edges =~= h.edges);
            assert forall|v: int| 0 <= v < self.nodes.len() implies #[trigger] self@.outgoing[v]
                == h.outgoing[v] by {
                assert(ids(self.nodes[v].outgoing@) =~= h.outgoing[v]);
            }
            assert forall|v: int| 0 <= v < self.nodes.len() implies #[trigger] self@.incoming[v]
                == h.incoming[v] by {
                assert(ids(self.nodes[v].incoming@) =~= h.incoming[v]);
            }
            assert(self@.outgoing =~= h.outgoing);
            assert(self@.incoming =~= h.incoming);
            lemma_add_vertex_wf(g, id as int, data);
        }
        id
    }

    /// Adds an edge from `source` to `target` that carries `data` and returns
    /// its number. It comes last among the edges of both vertices.
    pub fn add_edge(&mut self, source: usize, target: usize, data: E) -> (id: usize)
        requires
            old(self)@.wf(),
            source < old(self).order(),
            target < old(self).order(),
        ensures
            final(self)@.wf(),
            id == old(self).size(),
            final(self).order() == old(self).order(),
            final(self).size() == old(self).size() + 1,
            final(self)@ == old(self)@.add_edge(id as int, source as int, target as int, data),
    {
        let id = self.arcs.len();
        self.arcs.push(Arc { source, target, data });
        self.nodes[source].outgoing.push(id);
        self.nodes[target].incoming.push(id);
        proof {
            let g = old(self)@;
            let h = g.add_edge(id as int, source as int, target as int, data);
            assert(self@.vertices =~= h.vertices);
            assert(self@.edges =~= h.edges);
            assert forall|v: int| 0 <= v < self.nodes.len() implies #[trigger] self@.outgoing[v]
                == h.outgoing[v] by {
                assert(ids(self.nodes[v].outgoing@) =~= h.outgoing[v]);
            }
            assert forall|v: int| 0 <= v < self.nodes.len() implies #[trigger] self@.incoming[v]
                == h.incoming[v] by {
                assert(ids(self.nodes[v].incoming@) =~= h.incoming[v]);
            }
            assert(self@.outgoing =~= h.outgoing);
            assert(self@.incoming =~= h.incoming);
            lemma_add_edge_wf(g, id as int, source as int, target as int, data);
        }
        id
    }

    /// A read-only handle on vertex `id`.
    pub fn vertex<'a>(&'a self, id: usize) -> (v: NavVertex<'a, V, E>)
        requires
            self@.wf(),
            id < self.order(),
        ensures
            Self::vertex_view(v) == (Place { graph: self@, at: id as int }),
            Self::vertex_view(v).is_vertex(),
    {
        NavVertex { graph: self, id }
    }

    /// An exclusive handle on vertex `id`. What the graph holds when the
    /// handle is gone is what the handle last saw.
    pub fn vertex_mut<'a>(&'a mut self, id: usize) -> (v: MutVertex<'a, V, E>)
        requires
            old(self)@.wf(),
            id < old(self).order(),
        ensures
            Self::mut_vertex_view(v) == (Place { graph: old(self)@, at: id as int }),
            Self::mut_vertex_view(v).is_vertex(),
            *final(self) == *final(v.graph),
    {
        MutVertex { graph: self, id }
    }
}

/// A read-only handle on a vertex.
pub struct NavVertex<'a, V, E> {
    graph: &'a AdjacencyList<V, E>,
    id: usize,
}

/// A read-only handle on an edge.
pub struct NavEdge<'a, V, E> {
    graph: &'a AdjacencyList<V, E>,
    id: usize,
}

/// The edges that reach one vertex.
pub struct NavInEdges<'a, V, E> {
    graph: &'a AdjacencyList<V, E>,
    owner: usize,
}

/// The edges that leave one vertex.
pub struct NavOutEdges<'a, V, E> {
    graph: &'a AdjacencyList<V, E>,
    owner: usize,
}

impl<'a, V, E> NavVertex<'a, V, E> {
    /// The number of the vertex.
    pub fn id(&self) -> (id: usize)
        ensures
            id == AdjacencyList::<V, E>::vertex_view(*self).at,
    {
        self.id
    }
}

impl<'a, V, E> NavEdge<'a, V, E> {
    /// The number of the edge.
    pub fn id(&self) -> (id: usize)
        ensures
            id == AdjacencyList::<V, E>::edge_view(*self).at,
    {
        self.id
    }
}

impl<'a, V, E> Clone for NavVertex<'a, V, E> {
    fn clone(&self) -> (copy: Self)
        ensures
            copy == *self,
    {
        NavVertex { graph: self.graph, id: self.id }
    }
}

impl<'a, V, E> Copy for NavVertex<'a, V, E> { }

impl<'a, V, E> Clone for NavEdge<'a, V, E> {
    fn clone(&self) -> (copy: Self)
        ensures
            copy == *self,
    {
        NavEdge { graph: self.graph, id: self.id }
    }
}

impl<'a, V, E> Copy for NavEdge<'a, V, E> { }

impl<'a, V, E> Clone for NavInEdges<'a, V, E> {
    fn clone(&self) -> (copy: Self)
        ensures
            copy == *self,
    {
        NavInEdges { graph: self.graph, owner: self.owner }
    }
}

impl<'a, V, E> Copy for NavInEdges<'a, V, E> { }

impl<'a, V, E> Clone for NavOutEdges<'a, V, E> {
    fn clone(&self) -> (copy: Self)
        ensures
            copy == *self,
    {
        NavOutEdges { graph: self.graph, owner: self.owner }
    }
}

impl<'a, V, E> Copy for NavOutEdges<'a, V, E> { }

impl<V, E> GraphTypes for AdjacencyList<V, E> {
    type VertexData = V;
    type EdgeData = E;
}

impl<'a, V: 'a, E: 'a> NavTypes<'a> for AdjacencyList<V, E> {
    type NavVertex = NavVertex<'a, V, E>;
    type NavEdge = NavEdge<'a, V, E>;
    type NavInEdgeCollection = NavInEdges<'a, V, E>;
    type NavOutEdgeCollection = NavOutEdges<'a, V, E>;

    closed spec fn vertex_view(v: NavVertex<'a, V, E>) -> Place<V, E> {
        Place { graph: v.graph@, at: v.id as int }
    }

    closed spec fn edge_view(e: NavEdge<'a, V, E>) -> Place<V, E> {
        Place { graph: e.graph@, at: e.id as int }
    }

    closed spec fn in_edges_view(c: NavInEdges<'a, V, E>) -> Place<V, E> {
        Place { graph: c.graph@, at: c.owner as int }
    }

    closed spec fn out_edges_view(c: NavOutEdges<'a, V, E>) -> Place<V, E> {
        Place { graph: c.graph@, at: c.owner as int }
    }
}

impl<'a, V: 'a, E: 'a> BoundedIterator<'a> for std::vec::IntoIter<NavEdge<'a, V, E>> { }

/// Handles on the edges that `list` numbers, in its order.
fn edge_handles<'a, V, E>(graph: &'a AdjacencyList<V, E>, list: &Vec<usize>) -> (edges: Vec<NavEdge<'a, V, E>>)
    ensures
        edges.len() == list.len(),
        forall|k: int| 0 <= k < list.len() ==> (#[trigger] edges[k]).graph == graph && edges[k].id == list[k],
{
    let mut edges: Vec<NavEdge<'a, V, E>> = Vec::new();
    let mut i: usize = 0;
    while i < list.len()
        invariant
            i <= list.len(),
            edges.len() == i,
            forall|k: int| 0 <= k < i ==> (#[trigger] edges[k]).graph == graph && edges[k].id == list[k],
        decreases list.len() - i,
    {
        edges.push(NavEdge { graph, id: list[i] });
        i += 1;
    }
    edges
}

impl<'a, V: 'a, E: 'a> crate::nav_types::Vertex<'a> for NavVertex<'a, V, E> {
    type Types = AdjacencyList<V, E>;

    fn data(&self) -> (d: &'a V) {
        &self.graph.nodes[self.id].data
    }

    fn out_edges(&self) -> (c: NavOutEdges<'a, V, E>) {
        NavOutEdges { graph: self.graph, owner: self.id }
    }

    fn in_edges(&self) -> (c: NavInEdges<'a, V, E>) {
        NavInEdges { graph: self.graph, owner: self.id }
    }
}

impl<'a, V: 'a, E: 'a> crate::nav_types::Edge<'a> for NavEdge<'a, V, E> {
    type Types = AdjacencyList<V, E>;

    fn data(&self) -> (d: &'a E) {
        &self.graph.arcs[self.id].data
    }

    fn source(&self) -> (v: NavVertex<'a, V, E>) {
        NavVertex { graph: self.graph, id: self.graph.arcs[self.id].source }
    }

    fn target(&self) -> (v: NavVertex<'a, V, E>) {
        NavVertex { graph: self.graph, id: self.graph.arcs[self.id].target }
    }
}

impl<'a, V: 'a, E: 'a> crate::nav_types::InEdgeCollection<'a> for NavInEdges<'a, V, E> {
    type Types = AdjacencyList<V, E>;
    type Iter = std::vec::IntoIter<NavEdge<'a, V, E>>;

    fn len(&self) -> (n: usize) {
        proof {
            assert(<AdjacencyList<V, E> as NavTypes<'a>>::in_edges_view(*self).at == self.owner);
        }
        self.graph.nodes[self.owner].incoming.len()
    }

    fn target(&self) -> (v: NavVertex<'a, V, E>) {
        NavVertex { graph: self.graph, id: self.owner }
    }

    fn iter(&self) -> (it: Self::Iter) {
        broadcast use axiom_spec_into_iter;
        let edges = edge_handles(self.graph, &self.graph.nodes[self.owner].incoming);
        edges.into_iter()
    }
}

impl<'a, V: 'a, E: 'a> crate::nav_types::OutEdgeCollection<'a> for NavOutEdges<'a, V, E> {
    type Types = AdjacencyList<V, E>;
    type Iter = std::vec::IntoIter<NavEdge<'a, V, E>>;

    fn len(&self) -> (n: usize) {
        proof {
            assert(<AdjacencyList<V, E> as NavTypes<'a>>::out_edges_view(*self).at == self.owner);
        }
        self.graph.nodes[self.owner].outgoing.len()
    }

    fn source(&self) -> (v: NavVertex<'a, V, E>) {
        NavVertex { graph: self.graph, id: self.owner }
    }

    fn iter(&self) -> (it: Self::Iter) {
        broadcast use axiom_spec_into_iter;
        let edges = edge_handles(self.graph, &self.graph.nodes[self.owner].outgoing);
        edges.into_iter()
    }
}

/// An exclusive handle on a vertex.
pub struct MutVertex<'a, V, E> {
    pub graph: &'a mut AdjacencyList<V, E>,
    pub id: usize,
}

/// An exclusive handle on an edge.
pub struct MutEdge<'a, V, E> {
    pub graph: &'a mut AdjacencyList<V, E>,
    pub id: usize,
}

/// Exclusive custody of the graph, in the shape of the edges that reach one
/// vertex.
pub struct MutInEdges<'a, V, E> {
    pub graph: &'a mut AdjacencyList<V, E>,
    pub owner: usize,
}

/// Exclusive custody of the graph, in the shape of the edges that leave one
/// vertex.
pub struct MutOutEdges<'a, V, E> {
    pub graph: &'a mut AdjacencyList<V, E>,
    pub owner: usize,
}

impl<'a, V: 'a, E: 'a> MutTypes<'a> for AdjacencyList<V, E> {
    type MutVertex = MutVertex<'a, V, E>;
    type MutEdge = MutEdge<'a, V, E>;
    type MutInEdgeCollection = MutInEdges<'a, V, E>;
    type MutOutEdgeCollection = MutOutEdges<'a, V, E>;

    open spec fn mut_vertex_view(v: MutVertex<'a, V, E>) -> Place<V, E> {
        Place { graph: (*v.graph)@, at: v.id as int }
    }

    open spec fn mut_edge_view(e: MutEdge<'a, V, E>) -> Place<V, E> {
        Place { graph: (*e.graph)@, at: e.id as int }
    }

    open spec fn mut_in_edges_view(c: MutInEdges<'a, V, E>) -> Place<V, E> {
        Place { graph: (*c.graph)@, at: c.owner as int }
    }

    open spec fn mut_out_edges_view(c: MutOutEdges<'a, V, E>) -> Place<V, E> {
        Place { graph: (*c.graph)@, at: c.owner as int }
    }
}

impl<'a, V: 'a, E: 'a> crate::mut_types::Vertex<'a> for MutVertex<'a, V, E> {
    type Types = AdjacencyList<V, E>;

    fn data(&self) -> (d: &V) {
        &self.graph.nodes[self.id].data
    }

    fn data_mut(&mut self) -> (d: &mut V)
        ensures
            final(self).id == old(self).id,
            *final(final(self).graph) == *final(old(self).graph),
    {
        proof {
            let before = *self.graph;
            let at = self.id as int;
            assert forall|after: AdjacencyList<V, E>| before.differs_in_data(after, at) implies
                #[trigger] after@ == before@.with_vertex_data(at, after.nodes[at].data) by {
                before.lemma_differs_in_data(after, at);
            }
            assert forall|data: V| #[trigger]
                Place { graph: before@, at }.with_vertex_data(data).is_vertex() by {
                lemma_with_vertex_data(Place { graph: before@, at }, data);
            }
        }
        &mut self.graph.nodes[self.id].data
    }

    fn to_out_edges(self) -> (c: MutOutEdges<'a, V, E>)
        ensures
            c.owner == self.id,
            *final(c.graph) == *final(self.graph),
    {
        MutOutEdges { graph: self.graph, owner: self.id }
    }

    fn to_in_edges(self) -> (c: MutInEdges<'a, V, E>)
        ensures
            c.owner == self.id,
            *final(c.graph) == *final(self.graph),
    {
        MutInEdges { graph: self.graph, owner: self.id }
    }

    fn out_edges<'s>(&'s self) -> (c: <AdjacencyList<V, E> as NavTypes<'s>>::NavOutEdgeCollection)
        where
            'a: 's,
    {
        NavOutEdges { graph: &*self.graph, owner: self.id }
    }
}

impl<'a, V: 'a, E: 'a> crate::mut_types::Edge<'a> for MutEdge<'a, V, E> {
    type Types = AdjacencyList<V, E>;
}

impl<'a, V: 'a, E: 'a> crate::mut_types::InEdgeCollection<'a> for MutInEdges<'a, V, E> {
    type Types = AdjacencyList<V, E>;
    type Iter = std::vec::IntoIter<NavEdge<'a, V, E>>;
}

impl<'a, V: 'a, E: 'a> crate::mut_types::OutEdgeCollection<'a> for MutOutEdges<'a, V, E> {
    type Types = AdjacencyList<V, E>;
    type Iter = std::vec::IntoIter<NavEdge<'a, V, E>>;
}

} // verus!
