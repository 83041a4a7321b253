//! Handles that can traverse the graph and cannot modify it. They are backed
//! by a shared borrow of the graph, so any number of them may coexist.
//!
//! A handle may be thought of as a fat pointer into some graph structure, with
//! operations to move along it.

use vstd::prelude::*;
use vstd::std_specs::iter::IteratorSpec;
use crate::{GraphTypes, BoundedIterator};
use crate::model::{Place, lemma_out_edge_starts_here, lemma_in_edge_ends_here};

verus! {

/// The read-only handle types of a graph, and the place at which each handle
/// stands.
///
/// The four types are named here without bounds, because each handle trait
/// below names this one in turn. Code that is generic over a whole family asks
/// for `NavVertex: Vertex<'a, Types = Self>` and the like where it needs them.
pub trait NavTypes<'a>: GraphTypes {
    type NavVertex;
    type NavEdge;
    type NavInEdgeCollection;
    type NavOutEdgeCollection;

    /// The vertex that `v` denotes.
    spec fn vertex_view(v: Self::NavVertex) -> Place<Self::VertexData, Self::EdgeData>;

    /// The edge that `e` denotes.
    spec fn edge_view(e: Self::NavEdge) -> Place<Self::VertexData, Self::EdgeData>;

    /// The vertex whose incoming edges `c` holds.
    spec fn in_edges_view(c: Self::NavInEdgeCollection) -> Place<Self::VertexData, Self::EdgeData>;

    /// The vertex whose outgoing edges `c` holds.
    spec fn out_edges_view(c: Self::NavOutEdgeCollection) -> Place<Self::VertexData, Self::EdgeData>;
}

/// `items` are handles on the edges that leave the vertex at `place`, one for
/// each edge, in the order of the graph.
pub open spec fn are_out_edges_of<'a, T: NavTypes<'a>>(
    items: Seq<T::NavEdge>,
    place: Place<T::VertexData, T::EdgeData>,
) -> bool {
    &&& items.len() == place.out_edges().len()
    &&& forall|i: int| 0 <= i < items.len() ==> T::edge_view(#[trigger] items[i]) == place.out_edge(i)
}

/// `items` are handles on the edges that reach the vertex at `place`, one for
/// each edge, in the order of the graph.
pub open spec fn are_in_edges_of<'a, T: NavTypes<'a>>(
    items: Seq<T::NavEdge>,
    place: Place<T::VertexData, T::EdgeData>,
) -> bool {
    &&& items.len() == place.in_edges().len()
    &&& forall|i: int| 0 <= i < items.len() ==> T::edge_view(#[trigger] items[i]) == place.in_edge(i)
}

/// A read-only handle on one vertex.
pub trait Vertex<'a>: Sized {
    type Types: NavTypes<'a, NavVertex=Self>;

    /// The payload of the vertex. The reference lives as long as the borrow of
    /// the graph, not only as long as this handle.
    fn data(&self) -> (d: &'a <<Self as Vertex<'a>>::Types as GraphTypes>::VertexData)
        requires
            Self::Types::vertex_view(*self).is_vertex(),
        ensures
            *d == Self::Types::vertex_view(*self).vertex_data(),
    ;

    /// The edges that leave the vertex.
    fn out_edges(&self) -> (c: <<Self as Vertex<'a>>::Types as NavTypes<'a>>::NavOutEdgeCollection)
        requires
            Self::Types::vertex_view(*self).is_vertex(),
        ensures
            Self::Types::out_edges_view(c) == Self::Types::vertex_view(*self),
    ;

    /// The edges that reach the vertex.
    fn in_edges(&self) -> (c: <<Self as Vertex<'a>>::Types as NavTypes<'a>>::NavInEdgeCollection)
        requires
            Self::Types::vertex_view(*self).is_vertex(),
        ensures
            Self::Types::in_edges_view(c) == Self::Types::vertex_view(*self),
    ;
}

/// A read-only handle on one directed edge.
pub trait Edge<'a>: Sized {
    type Types: NavTypes<'a, NavEdge=Self>;

    /// The payload of the edge.
    fn data(&self) -> (d: &'a <<Self as Edge<'a>>::Types as GraphTypes>::EdgeData)
        requires
            Self::Types::edge_view(*self).is_edge(),
        ensures
            *d == Self::Types::edge_view(*self).edge_data(),
    ;

    /// A new handle on the vertex at which the edge starts.
    fn source(&self) -> (v: <<Self as Edge<'a>>::Types as NavTypes<'a>>::NavVertex)
        requires
            Self::Types::edge_view(*self).is_edge(),
        ensures
            Self::Types::vertex_view(v) == Self::Types::edge_view(*self).source(),
            Self::Types::vertex_view(v).is_vertex(),
    ;

    /// A new handle on the vertex at which the edge ends.
    fn target(&self) -> (v: <<Self as Edge<'a>>::Types as NavTypes<'a>>::NavVertex)
        requires
            Self::Types::edge_view(*self).is_edge(),
        ensures
            Self::Types::vertex_view(v) == Self::Types::edge_view(*self).target(),
            Self::Types::vertex_view(v).is_vertex(),
    ;
}

/// The edges that reach one vertex, in an order that stays the same as long
/// as the graph does.
pub trait InEdgeCollection<'a>: Sized {
    type Types: NavTypes<'a, NavInEdgeCollection=Self>;
    type Iter: BoundedIterator<'a, Item=<<Self as InEdgeCollection<'a>>::Types as NavTypes<'a>>::NavEdge>;

    /// The number of edges that reach the owning vertex.
    fn len(&self) -> (n: usize)
        requires
            Self::Types::in_edges_view(*self).is_vertex(),
        ensures
            n == Self::Types::in_edges_view(*self).in_edges().len(),
    ;

    /// Whether no edge reaches the owning vertex.
    fn is_empty(&self) -> (b: bool)
        requires
            Self::Types::in_edges_view(*self).is_vertex(),
        ensures
            b == (Self::Types::in_edges_view(*self).in_edges().len() == 0),
    {
        self.len() == 0
    }

    /// A new handle on the vertex that owns the collection.
    fn target(&self) -> (v: <<Self as InEdgeCollection<'a>>::Types as NavTypes<'a>>::NavVertex)
        requires
            Self::Types::in_edges_view(*self).is_vertex(),
        ensures
            Self::Types::vertex_view(v) == Self::Types::in_edges_view(*self),
    ;

    /// The edges of the collection, one after the other, each as a new handle.
    /// The iterator ends after as many edges as `len` counts.
    fn iter(&self) -> (it: Self::Iter)
        requires
            Self::Types::in_edges_view(*self).is_vertex(),
        ensures
            it.obeys_prophetic_iter_laws(),
            it.decrease() is Some,
            are_in_edges_of::<Self::Types>(it.remaining(), Self::Types::in_edges_view(*self)),
    ;
}

/// The edges that leave one vertex, in an order that stays the same as long
/// as the graph does.
pub trait OutEdgeCollection<'a>: Sized {
    type Types: NavTypes<'a, NavOutEdgeCollection=Self>;
    type Iter: BoundedIterator<'a, Item=<<Self as OutEdgeCollection<'a>>::Types as NavTypes<'a>>::NavEdge>;

    /// The number of edges that leave the owning vertex.
    fn len(&self) -> (n: usize)
        requires
            Self::Types::out_edges_view(*self).is_vertex(),
        ensures
            n == Self::Types::out_edges_view(*self).out_edges().len(),
    ;

    /// Whether no edge leaves the owning vertex.
    fn is_empty(&self) -> (b: bool)
        requires
            Self::Types::out_edges_view(*self).is_vertex(),
        ensures
            b == (Self::Types::out_edges_view(*self).out_edges().len() == 0),
    {
        self.len() == 0
    }

    /// A new handle on the vertex that owns the collection.
    fn source(&self) -> (v: <<Self as OutEdgeCollection<'a>>::Types as NavTypes<'a>>::NavVertex)
        requires
            Self::Types::out_edges_view(*self).is_vertex(),
        ensures
            Self::Types::vertex_view(v) == Self::Types::out_edges_view(*self),
    ;

    /// The edges of the collection, one after the other, each as a new handle.
    /// The iterator ends after as many edges as `len` counts.
    fn iter(&self) -> (it: Self::Iter)
        requires
            Self::Types::out_edges_view(*self).is_vertex(),
        ensures
            it.obeys_prophetic_iter_laws(),
            it.decrease() is Some,
            are_out_edges_of::<Self::Types>(it.remaining(), Self::Types::out_edges_view(*self)),
    ;
}

/// Read-only handles are transparent: two vertex handles that stand at the
/// same vertex of the same graph observe the same payload and the same edges,
/// however each of them was obtained.
pub proof fn lemma_vertex_handles_agree<'a, T: NavTypes<'a>>(h1: T::NavVertex, h2: T::NavVertex)
    requires
        T::vertex_view(h1).graph == T::vertex_view(h2).graph,
        T::vertex_view(h1).at == T::vertex_view(h2).at,
    ensures
        T::vertex_view(h1).vertex_data() == T::vertex_view(h2).vertex_data(),
        T::vertex_view(h1).out_edges() == T::vertex_view(h2).out_edges(),
        T::vertex_view(h1).in_edges() == T::vertex_view(h2).in_edges(),
{
}

/// Two edge handles that stand at the same edge of the same graph observe the
/// same payload and the same end points.
pub proof fn lemma_edge_handles_agree<'a, T: NavTypes<'a>>(h1: T::NavEdge, h2: T::NavEdge)
    requires
        T::edge_view(h1).graph == T::edge_view(h2).graph,
        T::edge_view(h1).at == T::edge_view(h2).at,
    ensures
        T::edge_view(h1).edge_data() == T::edge_view(h2).edge_data(),
        T::edge_view(h1).source() == T::edge_view(h2).source(),
        T::edge_view(h1).target() == T::edge_view(h2).target(),
{
}

/// Every edge that iterating over the outgoing edges of `v` yields starts at
/// `v`. With `c` what `v.out_edges()` returned, `items` what `c.iter()` yields
/// and `s` what `source()` returned on the `i`-th of them: that item is an
/// edge of the graph, and `s` stands where `v` stands and reads its payload.
pub proof fn lemma_out_edge_source_is_owner<'a, T: NavTypes<'a>>(
    v: T::NavVertex,
    c: T::NavOutEdgeCollection,
    items: Seq<T::NavEdge>,
    i: int,
    s: T::NavVertex,
)
    requires
        T::vertex_view(v).is_vertex(),
        T::out_edges_view(c) == T::vertex_view(v),
        are_out_edges_of::<T>(items, T::out_edges_view(c)),
        0 <= i < items.len(),
        T::vertex_view(s) == T::edge_view(items[i]).source(),
    ensures
        T::edge_view(items[i]).is_edge(),
        T::vertex_view(s) == T::vertex_view(v),
        T::vertex_view(s).vertex_data() == T::vertex_view(v).vertex_data(),
{
    lemma_out_edge_starts_here(T::vertex_view(v), i);
}

/// Every edge that iterating over the incoming edges of `v` yields ends at
/// `v`. With `c` what `v.in_edges()` returned, `items` what `c.iter()` yields
/// and `t` what `target()` returned on the `i`-th of them: that item is an
/// edge of the graph, and `t` stands where `v` stands and reads its payload.
pub proof fn lemma_in_edge_target_is_owner<'a, T: NavTypes<'a>>(
    v: T::NavVertex,
    c: T::NavInEdgeCollection,
    items: Seq<T::NavEdge>,
    i: int,
    t: T::NavVertex,
)
    requires
        T::vertex_view(v).is_vertex(),
        T::in_edges_view(c) == T::vertex_view(v),
        are_in_edges_of::<T>(items, T::in_edges_view(c)),
        0 <= i < items.len(),
        T::vertex_view(t) == T::edge_view(items[i]).target(),
    ensures
        T::edge_view(items[i]).is_edge(),
        T::vertex_view(t) == T::vertex_view(v),
        T::vertex_view(t).vertex_data() == T::vertex_view(v).vertex_data(),
{
    lemma_in_edge_ends_here(T::vertex_view(v), i);
}

/// The order of iteration is stable: two walks over the outgoing edges of
/// one vertex of one graph yield equally many edges and the same edge at each
/// position. `items1` and `items2` are what the iterators of `c1` and `c2`
/// yield.
pub proof fn lemma_out_edge_order_is_stable<'a, T: NavTypes<'a>>(
    c1: T::NavOutEdgeCollection,
    c2: T::NavOutEdgeCollection,
    items1: Seq<T::NavEdge>,
    items2: Seq<T::NavEdge>,
)
    requires
        T::out_edges_view(c1) == T::out_edges_view(c2),
        are_out_edges_of::<T>(items1, T::out_edges_view(c1)),
        are_out_edges_of::<T>(items2, T::out_edges_view(c2)),
    ensures
        items1.len() == items2.len(),
        forall|i: int| 0 <= i < items1.len() ==> T::edge_view(#[trigger] items1[i]) == T::edge_view(items2[i]),
{
}

/// The order of iteration is stable for incoming edges too.
pub proof fn lemma_in_edge_order_is_stable<'a, T: NavTypes<'a>>(
    c1: T::NavInEdgeCollection,
    c2: T::NavInEdgeCollection,
    items1: Seq<T::NavEdge>,
    items2: Seq<T::NavEdge>,
)
    requires
        T::in_edges_view(c1) == T::in_edges_view(c2),
        are_in_edges_of::<T>(items1, T::in_edges_view(c1)),
        are_in_edges_of::<T>(items2, T::in_edges_view(c2)),
    ensures
        items1.len() == items2.len(),
        forall|i: int| 0 <= i < items1.len() ==> T::edge_view(#[trigger] items1[i]) == T::edge_view(items2[i]),
{
}

} // verus!
