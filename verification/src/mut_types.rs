//! Handles that can traverse the graph and may modify it. They are backed by
//! an exclusive borrow of the graph, so no two of them can be in use over the
//! same graph at once.

use vstd::prelude::*;
use crate::{GraphTypes, BoundedIterator};
use crate::model::{Place, lemma_with_vertex_data};
use crate::nav_types::NavTypes;

verus! {

/// The exclusive handle types of a graph, and the place at which each handle
/// stands.
pub trait MutTypes<'a>: NavTypes<'a> {
    type MutVertex;
    type MutEdge;
    type MutInEdgeCollection;
    type MutOutEdgeCollection;

    /// The vertex that `v` denotes.
    spec fn mut_vertex_view(v: Self::MutVertex) -> Place<Self::VertexData, Self::EdgeData>;

    /// The edge that `e` denotes.
    spec fn mut_edge_view(e: Self::MutEdge) -> Place<Self::VertexData, Self::EdgeData>;

    /// The vertex whose incoming edges `c` holds.
    spec fn mut_in_edges_view(c: Self::MutInEdgeCollection) -> Place<Self::VertexData, Self::EdgeData>;

    /// The vertex whose outgoing edges `c` holds.
    spec fn mut_out_edges_view(c: Self::MutOutEdgeCollection) -> Place<Self::VertexData, Self::EdgeData>;
}

/// An exclusive handle on one vertex. It is moved, never copied: whoever
/// holds it is the only one who can reach the graph.
pub trait Vertex<'a>: Sized {
    type Types: MutTypes<'a, MutVertex=Self>;

    /// The payload of the vertex, for as long as this handle is borrowed.
    fn data(&self) -> (d: &<<Self as Vertex<'a>>::Types as GraphTypes>::VertexData)
        requires
            Self::Types::mut_vertex_view(*self).is_vertex(),
        ensures
            *d == Self::Types::mut_vertex_view(*self).vertex_data(),
    ;

    /// Since we have exclusive access to the underlying graph, we can get a
    /// mutable borrow of its actual contents. What the caller leaves in the
    /// payload is what the graph then holds at this vertex; nothing else of
    /// the graph changes, and the handle stays where it is.
    fn data_mut(&mut self) -> (d: &mut <<Self as Vertex<'a>>::Types as GraphTypes>::VertexData)
        requires
            Self::Types::mut_vertex_view(*old(self)).is_vertex(),
        ensures
            *d == Self::Types::mut_vertex_view(*old(self)).vertex_data(),
            Self::Types::mut_vertex_view(*final(self))
                == Self::Types::mut_vertex_view(*old(self)).with_vertex_data(*final(d)),
            Self::Types::mut_vertex_view(*final(self)).is_vertex(),
    ;

    /// Consumes `self` entirely and passes the underlying borrow to a list of
    /// outgoing edges.
    fn to_out_edges(self) -> (c: <<Self as Vertex<'a>>::Types as MutTypes<'a>>::MutOutEdgeCollection)
        requires
            Self::Types::mut_vertex_view(self).is_vertex(),
        ensures
            Self::Types::mut_out_edges_view(c) == Self::Types::mut_vertex_view(self),
    ;

    /// Consumes `self` entirely and passes the underlying borrow to a list of
    /// incoming edges.
    fn to_in_edges(self) -> (c: <<Self as Vertex<'a>>::Types as MutTypes<'a>>::MutInEdgeCollection)
        requires
            Self::Types::mut_vertex_view(self).is_vertex(),
        ensures
            Self::Types::mut_in_edges_view(c) == Self::Types::mut_vertex_view(self),
    ;

    /// A read-only view of the outgoing edges, backed by a shared borrow of
    /// this handle. While the view, or anything obtained from it, is in use,
    /// the handle cannot be used for mutation; when they are gone, it can
    /// again. The view shows the graph as this handle sees it now.
    fn out_edges<'s>(&'s self) -> (c: <<Self as Vertex<'a>>::Types as NavTypes<'s>>::NavOutEdgeCollection)
        where
            'a: 's,
            <Self as Vertex<'a>>::Types: NavTypes<'s>,
        requires
            Self::Types::mut_vertex_view(*self).is_vertex(),
        ensures
            <<Self as Vertex<'a>>::Types as NavTypes<'s>>::out_edges_view(c)
                == Self::Types::mut_vertex_view(*self),
    ;
}

/// An exclusive handle on one edge. It has no operations of its own yet; an
/// implementation may add edits of the structure to its type.
pub trait Edge<'a>: Sized {
    type Types: MutTypes<'a, MutEdge=Self>;
}

/// Exclusive custody of the graph in the shape of the edges that reach one
/// vertex. `Iter` names the sequence in which they are walked.
pub trait InEdgeCollection<'a>: Sized {
    type Types: MutTypes<'a, MutInEdgeCollection=Self>;
    type Iter: BoundedIterator<'a>;
}

/// Exclusive custody of the graph in the shape of the edges that leave one
/// vertex. `Iter` names the sequence in which they are walked.
pub trait OutEdgeCollection<'a>: Sized {
    type Types: MutTypes<'a, MutOutEdgeCollection=Self>;
    type Iter: BoundedIterator<'a>;
}

/// An edit of the payload touches nothing else. With `before` an exclusive
/// handle on a vertex and `after` the same handle once the reference that
/// `data_mut` returned was used to leave `data` in the payload: `after` still
/// stands at a vertex, reads `data` there, and finds the same edges in both
/// directions, each with the end points and payload that it had.
pub proof fn lemma_data_mut_keeps_structure<'a, T: MutTypes<'a>>(
    before: T::MutVertex,
    after: T::MutVertex,
    data: T::VertexData,
)
    requires
        T::mut_vertex_view(before).is_vertex(),
        T::mut_vertex_view(after) == T::mut_vertex_view(before).with_vertex_data(data),
    ensures
        T::mut_vertex_view(after).is_vertex(),
        T::mut_vertex_view(after).at == T::mut_vertex_view(before).at,
        T::mut_vertex_view(after).vertex_data() == data,
        T::mut_vertex_view(after).out_edges() == T::mut_vertex_view(before).out_edges(),
        T::mut_vertex_view(after).in_edges() == T::mut_vertex_view(before).in_edges(),
        T::mut_vertex_view(after).graph.edges == T::mut_vertex_view(before).graph.edges,
{
    lemma_with_vertex_data(T::mut_vertex_view(before), data);
}

/// A read-only view taken from an exclusive handle shows what the handle
/// holds. With `c` what `v.out_edges()` returned and `s` what `c.source()`
/// returned: `c` can be read, it lists the edges that leave the vertex of `v`,
/// and `s` reads the payload that `v.data()` reads.
pub proof fn lemma_nested_view_shows_editor<'a, T: MutTypes<'a>>(
    v: T::MutVertex,
    c: T::NavOutEdgeCollection,
    s: T::NavVertex,
)
    requires
        T::mut_vertex_view(v).is_vertex(),
        T::out_edges_view(c) == T::mut_vertex_view(v),
        T::vertex_view(s) == T::out_edges_view(c),
    ensures
        T::out_edges_view(c).is_vertex(),
        T::out_edges_view(c).out_edges() == T::mut_vertex_view(v).out_edges(),
        T::vertex_view(s).is_vertex(),
        T::vertex_view(s).vertex_data() == T::mut_vertex_view(v).vertex_data(),
{
}

} // verus!
