//! The fixed vocabularies of the output: styles, rank directions and the
//! two kinds of graph.

use vstd::prelude::*;

verus! {

/// The style for a node or edge.
/// Note that some of these are not valid for edges.
#[derive(Copy, Clone, PartialEq, Eq, Debug, Structural)]
pub enum Style {
    NoStyle,
    Solid,
    Dashed,
    Dotted,
    Bold,
    Rounded,
    Diagonals,
    Filled,
    Striped,
    Wedged,
}

impl Style {
    /// The style's name in the output. `NoStyle` has the empty name, and no
    /// style attribute is written for it.
    pub open spec fn token(self) -> Seq<char> {
        match self {
            Style::NoStyle => ""@,
            Style::Solid => "solid"@,
            Style::Dashed => "dashed"@,
            Style::Dotted => "dotted"@,
            Style::Bold => "bold"@,
            Style::Rounded => "rounded"@,
            Style::Diagonals => "diagonals"@,
            Style::Filled => "filled"@,
            Style::Striped => "striped"@,
            Style::Wedged => "wedged"@,
        }
    }

    pub fn as_slice(self) -> (s: &'static str)
        ensures
            s@ == self.token(),
    {
        match self {
            Style::NoStyle => "",
            Style::Solid => "solid",
            Style::Dashed => "dashed",
            Style::Dotted => "dotted",
            Style::Bold => "bold",
            Style::Rounded => "rounded",
            Style::Diagonals => "diagonals",
            Style::Filled => "filled",
            Style::Striped => "striped",
            Style::Wedged => "wedged",
        }
    }
}

/// The direction to draw directed graphs (one rank at a time)
#[derive(Copy, Clone, PartialEq, Eq, Debug, Structural)]
pub enum RankDir {
    TopBottom,
    LeftRight,
    BottomTop,
    RightLeft,
}

impl RankDir {
    /// The two letters that name the direction in the output.
    pub open spec fn token(self) -> Seq<char> {
        match self {
            RankDir::TopBottom => "TB"@,
            RankDir::LeftRight => "LR"@,
            RankDir::BottomTop => "BT"@,
            RankDir::RightLeft => "RL"@,
        }
    }

    pub fn as_slice(self) -> (s: &'static str)
        ensures
            s@ == self.token(),
    {
        match self {
            RankDir::TopBottom => "TB",
            RankDir::LeftRight => "LR",
            RankDir::BottomTop => "BT",
            RankDir::RightLeft => "RL",
        }
    }
}

/// Graph kind determines if `digraph` or `graph` is used as keyword
/// for the graph.
#[derive(Copy, Clone, PartialEq, Eq, Debug, Structural)]
pub enum Kind {
    Digraph,
    Graph,
}

impl Kind {
    /// The keyword that introduces a graph of this kind.
    pub open spec fn keyword_text(self) -> Seq<char> {
        match self {
            Kind::Digraph => "digraph"@,
            Kind::Graph => "graph"@,
        }
    }

    /// The operator between the two ends of an edge in a graph of this kind.
    pub open spec fn edgeop_text(self) -> Seq<char> {
        match self {
            Kind::Digraph => "->"@,
            Kind::Graph => "--"@,
        }
    }

    /// The keyword to use to introduce the graph.
    pub fn keyword(&self) -> (s: &'static str)
        ensures
            s@ == self.keyword_text(),
    {
        match *self {
            Kind::Digraph => "digraph",
            Kind::Graph => "graph",
        }
    }

    /// The edgeop syntax to use for this graph kind.
    pub fn edgeop(&self) -> (s: &'static str)
        ensures
            s@ == self.edgeop_text(),
    {
        match *self {
            Kind::Digraph => "->",
            Kind::Graph => "--",
        }
    }
}

} // verus!
