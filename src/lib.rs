//! A static landing page for an ecological marketplace, described as a tree
//! of nodes, and the one-time act of attaching that tree to a document.

pub mod node;
pub mod page;
pub mod mount;
