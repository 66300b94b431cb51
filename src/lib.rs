//! A typed dataflow graph that describes a shader program: operator nodes
//! feed declared inputs and uniforms into declared outputs, and each edge
//! carries the argument slot it fills at its consumer.

pub mod types;
pub mod model;
mod storage;
pub mod graph;
pub mod laws;

pub use graph::{Direction, Graph, GraphData, GraphError, NodeIndex};
pub use types::{Dim, Node, TypeName, TypedValue};
