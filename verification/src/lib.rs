//! Zipper-like traversal traits over graph-structured data.
//!
//! A graph implementation (adjacency list, adjacency matrix, lazily built
//! graph, an actual zipper) supplies handle types; client code walks the graph
//! through them. Two families of handles exist: [`nav_types`] holds read-only
//! handles backed by a shared borrow of the graph, any number of which may be
//! live at once, and [`mut_types`] holds handles backed by an exclusive borrow.
//!
//! What each operation returns is stated over [`model::GraphView`], the
//! mathematical content of the graph that a handle looks at, and
//! [`model::Place`], the position of a handle in it.

use vstd::prelude::*;

pub mod model;
pub mod nav_types;
pub mod mut_types;
pub mod adjacency;

verus! {

/// Base types that a graph defines its structure over.
pub trait GraphTypes: Sized {
    /// The type of data at vertices.
    type VertexData;
    /// The type of data at edges.
    type EdgeData;
}

/// An iterator over components of a graph. The lifetime names the borrow of
/// the underlying graph that the items share.
pub trait BoundedIterator<'a>: Iterator { }

} // verus!
