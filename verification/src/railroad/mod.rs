//! Railroad (syntax) diagrams for the node types of an abstract syntax tree.
//!
//! A type describes itself as a tree of diagram nodes ([`Railroad`]), or has
//! its description derived from its shape ([`derive::railroad`]). A
//! [`Diagram`] gathers the main track and the tracks of the types referred
//! to, and hands them to the `railroad` crate, which draws them.

pub mod attrs;
pub mod config;
pub mod derive;
pub mod describe;
pub mod diagram;
pub mod engine;
pub mod error;
pub mod guards;
pub mod laws;
pub mod node;
pub mod schema;

pub use self::describe::{DescribedDelim, Railroad, RailroadDelim};
pub use self::diagram::{Diagram, DiagramSvgFormatter};
pub use self::error::Error;
pub use self::node::Node;
