//! The two traits through which a caller describes its graph: `Labeller`
//! names and decorates nodes and edges, `GraphWalk` enumerates them.
//!
//! The operations that a graph must supply carry no contract here: a graph
//! may answer as it likes. The optional operations have a default body, and
//! state as `default_ensures` what that default returns. The renderer's
//! contract speaks of the answers through `call_ensures`: an implementation
//! that states in `ensures` what its operations return finds the same said
//! of the output.

use crate::arrow::{Arrow, ArrowShape};
use crate::attrs::Attrs;
use crate::id::Id;
use crate::label::{LabelText, LabelView};
use crate::style::{Kind, RankDir, Style};
use vstd::prelude::*;

verus! {

/// The nodes of a graph, in the order in which they are written.
pub type Nodes<N> = Vec<N>;

/// The edges of a graph, in the order in which they are written.
pub type Edges<E> = Vec<E>;

/// The graph instance is responsible for providing the DOT compatible
/// identifiers for the nodes and (optionally) rendered labels for the nodes and
/// edges, as well as an identifier for the graph itself.
pub trait Labeller<'a, N, E> {
    /// Must return a DOT compatible identifier naming the graph.
    fn graph_id(&'a self) -> (id: Id);

    /// A list of attributes to apply to the graph
    fn graph_attrs(&'a self) -> (attrs: Attrs)
        default_ensures
            attrs@ == Seq::<(Seq<char>, Seq<char>)>::empty(),
            attrs.wf(),
    {
        Attrs::new()
    }

    /// Maps `n` to a unique identifier with respect to `self`. The
    /// implementer is responsible for ensuring that different nodes get
    /// different identifiers.
    fn node_id(&'a self, n: &N) -> (id: Id);

    /// Maps `n` to one of the graphviz `shape` names. If `None`
    /// is returned, no `shape` attribute is specified.
    fn node_shape(&'a self, _node: &N) -> (shape: Option<LabelText>)
        default_ensures
            shape is None,
    {
        None
    }

    /// Maps `n` to a label that will be used in the rendered output.
    /// The label need not be unique, and may be the empty string; the
    /// default is just the output from `node_id`.
    fn node_label(&'a self, n: &N) -> (label: LabelText)
        default_ensures
            exists|id: Id|
                call_ensures(Self::node_id, (self, n), id) && label@ == LabelView::LabelStr(id@),
    {
        LabelText::LabelStr(self.node_id(n).name())
    }

    /// Maps `e` to a label that will be used in the rendered output.
    /// The label need not be unique, and may be the empty string; the
    /// default is in fact the empty string.
    fn edge_label(&'a self, _e: &E) -> (label: LabelText)
        default_ensures
            label@ == LabelView::LabelStr(Seq::empty()),
    {
        LabelText::LabelStr(String::new())
    }

    /// Maps `n` to a style that will be used in the rendered output.
    fn node_style(&'a self, _n: &N) -> (style: Style)
        default_ensures
            style == Style::NoStyle,
    {
        Style::NoStyle
    }

    /// Return an explicit rank dir to use for directed graphs.
    ///
    /// Return 'None' to use the default (generally "TB" for directed graphs).
    fn rank_dir(&'a self) -> (dir: Option<RankDir>)
        default_ensures
            dir is None,
    {
        None
    }

    /// Maps `n` to one of the graphviz `color` names. If `None`
    /// is returned, no `color` attribute is specified.
    fn node_color(&'a self, _node: &N) -> (color: Option<LabelText>)
        default_ensures
            color is None,
    {
        None
    }

    /// Maps `n` to a set of arbritrary node attributes.
    fn node_attrs(&'a self, _n: &N) -> (attrs: Attrs)
        default_ensures
            attrs@ == Seq::<(Seq<char>, Seq<char>)>::empty(),
            attrs.wf(),
    {
        Attrs::new()
    }

    /// Maps `e` to arrow style that will be used on the end of an edge.
    /// Defaults to default arrow style.
    fn edge_end_arrow(&'a self, _e: &E) -> (arrow: Arrow)
        default_ensures
            arrow@ == Seq::<ArrowShape>::empty(),
    {
        Arrow::default()
    }

    /// Maps `e` to arrow style that will be used on the start of an edge.
    /// Defaults to default arrow style.
    fn edge_start_arrow(&'a self, _e: &E) -> (arrow: Arrow)
        default_ensures
            arrow@ == Seq::<ArrowShape>::empty(),
    {
        Arrow::default()
    }

    /// Maps `e` to a style that will be used in the rendered output.
    fn edge_style(&'a self, _e: &E) -> (style: Style)
        default_ensures
            style == Style::NoStyle,
    {
        Style::NoStyle
    }

    /// Maps `e` to one of the graphviz `color` names. If `None`
    /// is returned, no `color` attribute is specified.
    fn edge_color(&'a self, _e: &E) -> (color: Option<LabelText>)
        default_ensures
            color is None,
    {
        None
    }

    /// Maps `e` to a set of arbritrary edge attributes.
    fn edge_attrs(&'a self, _e: &E) -> (attrs: Attrs)
        default_ensures
            attrs@ == Seq::<(Seq<char>, Seq<char>)>::empty(),
            attrs.wf(),
    {
        Attrs::new()
    }

    /// The kind of graph, defaults to `Kind::Digraph`.
    fn kind(&self) -> (kind: Kind)
        default_ensures
            kind == Kind::Digraph,
    {
        Kind::Digraph
    }
}

/// GraphWalk is an abstraction over a graph = (nodes,edges)
/// made up of node handles `N` and edge handles `E`, where each `E`
/// can be mapped to its source and target nodes.
pub trait GraphWalk<'a, N: Clone, E: Clone> {
    /// Returns all the nodes in this graph.
    fn nodes(&'a self) -> (nodes: Nodes<N>);

    /// Returns all of the edges in this graph.
    fn edges(&'a self) -> (edges: Edges<E>);

    /// The source node for `edge`.
    fn source(&'a self, edge: &E) -> (node: N);

    /// The target node for `edge`.
    fn target(&'a self, edge: &E) -> (node: N);
}

} // verus!
