//! Generates text in the DOT language of [Graphviz](https://graphviz.org/)
//! from a graph that the caller describes.
//!
//! The library imposes no graph data structure. A caller implements two
//! traits on a type of its own: `Labeller` gives the graph and its nodes
//! their identifiers and, where wanted, labels, styles, colors, shapes,
//! arrows and further attributes; `GraphWalk` lists the nodes and the edges
//! and tells where each edge starts and ends. `render` and `render_opts`
//! then append the text to a `String`:
//!
//! ```text
//! digraph example {
//!     N0[label="N0"];
//!     N1[label="N1"];
//!     N0 -> N1[label=""];
//! }
//! ```
//!
//! Only a regular subset of the language is written: one line for each node
//! and each edge, no subgraphs, clusters or ports.
//!
//! Every function is verified with Verus against a description of the text
//! in spec functions: `escape` says what becomes of each character of a
//! label, `label` and `arrow` what a label and an arrow look like,
//! `document` what each line and the whole output are, and `render` how the
//! output hangs together with the answers of the graph.

pub mod arrow;
pub mod attrs;
pub mod document;
pub mod escape;
pub mod graph;
pub mod id;
pub mod label;
pub mod render;
pub mod style;

pub use crate::arrow::{Arrow, ArrowShape, Fill, Side};
pub use crate::attrs::Attrs;
pub use crate::escape::escape_html;
pub use crate::graph::{Edges, GraphWalk, Labeller, Nodes};
pub use crate::id::Id;
pub use crate::label::{LabelText, LabelView};
pub use crate::document::{
    write_edge, write_footer, write_graph_attrs, write_header, write_node, write_rank_dir, Document,
    EdgeStmt, NodeStmt, RenderOption,
};
pub use crate::render::{default_options, render, render_opts};
pub use crate::style::{Kind, RankDir, Style};
