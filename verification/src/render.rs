//! The renderer: it asks a graph for all that is to be written, and writes
//! it out in DOT syntax.
//!
//! `describes` says when a document is what a graph says of itself, and
//! `is_rendering` when a text is the text of such a document. `render_opts`
//! asks the graph, part by part, and appends each part to the output as
//! `document` says it is written.

use crate::document::{
    attr_lines, edge_lines, edge_text, footer_text, header_text, lemma_appended, node_lines,
    node_text, rank_dir_text, write_edge, write_footer, write_graph_attrs, write_header,
    write_node, write_rank_dir, Document, EdgeStmt, NodeStmt, RenderOption,
};
use crate::graph::{GraphWalk, Labeller};
use crate::style::Kind;
use vstd::prelude::*;

verus! {

/// `node` is what `g` says of its node `n`: each field holds an answer of
/// the operation of that name to `n`.
pub open spec fn describes_node<'a, N, E, G: Labeller<'a, N, E>>(
    g: &'a G,
    n: &N,
    node: NodeStmt,
) -> bool {
    &&& call_ensures(G::node_id, (g, n), node.id)
    &&& call_ensures(G::node_label, (g, n), node.label)
    &&& call_ensures(G::node_style, (g, n), node.style)
    &&& call_ensures(G::node_color, (g, n), node.color)
    &&& call_ensures(G::node_shape, (g, n), node.shape)
    &&& call_ensures(G::node_attrs, (g, n), node.attrs)
}

/// `edge` is what `g` says of its edge `e`: the two ends are identifiers of
/// the nodes that `source` and `target` give for `e`, and each other field
/// holds an answer of the operation of that name to `e`.
pub open spec fn describes_edge<
    'a,
    N: Clone + 'a,
    E: Clone + 'a,
    G: Labeller<'a, N, E> + GraphWalk<'a, N, E>,
>(g: &'a G, e: &E, edge: EdgeStmt) -> bool {
    &&& exists|source: N, target: N|
        {
            &&& #[trigger] call_ensures(G::source, (g, e), source)
            &&& #[trigger] call_ensures(G::target, (g, e), target)
            &&& call_ensures(G::node_id, (g, &source), edge.source)
            &&& call_ensures(G::node_id, (g, &target), edge.target)
        }
    &&& call_ensures(G::edge_label, (g, e), edge.label)
    &&& call_ensures(G::edge_style, (g, e), edge.style)
    &&& call_ensures(G::edge_color, (g, e), edge.color)
    &&& call_ensures(G::edge_start_arrow, (g, e), edge.start_arrow)
    &&& call_ensures(G::edge_end_arrow, (g, e), edge.end_arrow)
    &&& call_ensures(G::edge_attrs, (g, e), edge.attrs)
}

/// `stmts` are what `g` says of `nodes`, one statement for each node, in the
/// same order.
pub open spec fn describes_nodes<'a, N, E, G: Labeller<'a, N, E>>(
    g: &'a G,
    nodes: Seq<N>,
    stmts: Seq<NodeStmt>,
) -> bool {
    &&& stmts.len() == nodes.len()
    &&& forall|i: int| 0 <= i < nodes.len() ==> describes_node(g, &nodes[i], #[trigger] stmts[i])
}

/// `stmts` are what `g` says of `edges`, one statement for each edge, in the
/// same order.
pub open spec fn describes_edges<
    'a,
    N: Clone + 'a,
    E: Clone + 'a,
    G: Labeller<'a, N, E> + GraphWalk<'a, N, E>,
>(g: &'a G, edges: Seq<E>, stmts: Seq<EdgeStmt>) -> bool {
    &&& stmts.len() == edges.len()
    &&& forall|i: int| 0 <= i < edges.len() ==> describes_edge(g, &edges[i], #[trigger] stmts[i])
}

/// `doc` is what `g` says of itself: every part of `doc` is an answer of `g`
/// to the question that the renderer asks for it. The rank direction is
/// asked of a directed graph only, and the nodes and edges are those that
/// `nodes` and `edges` give, in their order.
///
/// `call_ensures(G::kind, (g,), k)` holds of every `k` that the contract of
/// `kind` allows `g.kind()` to return. So an operation of `g` that promises
/// its result makes `describes` say what that part of the document is; an
/// operation that promises nothing leaves the part open.
pub open spec fn describes<
    'a,
    N: Clone + 'a,
    E: Clone + 'a,
    G: Labeller<'a, N, E> + GraphWalk<'a, N, E>,
>(g: &'a G, doc: Document) -> bool {
    &&& call_ensures(G::kind, (g,), doc.kind)
    &&& call_ensures(G::graph_id, (g,), doc.id)
    &&& match doc.kind {
        Kind::Digraph => call_ensures(G::rank_dir, (g,), doc.rank_dir),
        Kind::Graph => doc.rank_dir is None,
    }
    &&& call_ensures(G::graph_attrs, (g,), doc.attrs)
    &&& exists|nodes: Vec<N>|
        #[trigger] call_ensures(G::nodes, (g,), nodes) && describes_nodes(g, nodes@, doc.nodes)
    &&& exists|edges: Vec<E>|
        #[trigger] call_ensures(G::edges, (g,), edges) && describes_edges(g, edges@, doc.edges)
}

/// `text` is a rendering of `g` under `options`: the text of a document that
/// is what `g` says of itself.
pub open spec fn is_rendering<
    'a,
    N: Clone + 'a,
    E: Clone + 'a,
    G: Labeller<'a, N, E> + GraphWalk<'a, N, E>,
>(g: &'a G, text: Seq<char>, options: Seq<RenderOption>) -> bool {
    exists|doc: Document| describes(g, doc) && text == #[trigger] doc.text(options)
}

/// Returns vec holding all the default render options.
pub fn default_options() -> (options: Vec<RenderOption>)
    ensures
        options@ == Seq::<RenderOption>::empty(),
{
    Vec::new()
}

/// Writes one line for each node of `g`, and returns what `g` said of each.
fn write_nodes<
    'a,
    N: Clone + 'a,
    E: Clone + 'a,
    G: Labeller<'a, N, E> + GraphWalk<'a, N, E>,
>(g: &'a G, w: &mut String, options: &[RenderOption]) -> (stmts: Ghost<Seq<NodeStmt>>)
    ensures
        exists|nodes: Vec<N>|
            #[trigger] call_ensures(G::nodes, (g,), nodes) && describes_nodes(g, nodes@, stmts@),
        final(w)@ == old(w)@ + node_lines(stmts@, options@),
{
    let ghost start = w@;
    let nodes = g.nodes();
    let ghost mut stmts: Seq<NodeStmt> = Seq::empty();
    assert(start + node_lines(stmts, options@) =~= start);
    let mut i: usize = 0;
    while i < nodes.len()
        invariant
            i <= nodes.len(),
            describes_nodes(g, nodes@.take(i as int), stmts),
            w@ == start + node_lines(stmts, options@),
        decreases nodes.len() - i,
    {
        let n = &nodes[i];
        let node = NodeStmt {
            id: g.node_id(n),
            label: g.node_label(n),
            style: g.node_style(n),
            color: g.node_color(n),
            shape: g.node_shape(n),
            attrs: g.node_attrs(n),
        };
        write_node(w, &node, options);
        proof {
            assert(describes_node(g, n, node));
            assert(stmts.push(node).drop_last() == stmts);
            lemma_appended(start, node_lines(stmts, options@), node_text(node, options@));
            stmts = stmts.push(node);
        }
        i = i + 1;
    }
    assert(nodes@.take(nodes@.len() as int) == nodes@);
    Ghost(stmts)
}

/// Writes one line for each edge of `g`, and returns what `g` said of each.
fn write_edges<
    'a,
    N: Clone + 'a,
    E: Clone + 'a,
    G: Labeller<'a, N, E> + GraphWalk<'a, N, E>,
>(g: &'a G, w: &mut String, kind: Kind, options: &[RenderOption]) -> (stmts: Ghost<
    Seq<EdgeStmt>,
>)
    ensures
        exists|edges: Vec<E>|
            #[trigger] call_ensures(G::edges, (g,), edges) && describes_edges(g, edges@, stmts@),
        final(w)@ == old(w)@ + edge_lines(kind, stmts@, options@),
{
    let ghost start = w@;
    let edges = g.edges();
    let ghost mut stmts: Seq<EdgeStmt> = Seq::empty();
    assert(start + edge_lines(kind, stmts, options@) =~= start);
    let mut i: usize = 0;
    while i < edges.len()
        invariant
            i <= edges.len(),
            describes_edges(g, edges@.take(i as int), stmts),
            w@ == start + edge_lines(kind, stmts, options@),
        decreases edges.len() - i,
    {
        let e = &edges[i];
        let label = g.edge_label(e);
        let start_arrow = g.edge_start_arrow(e);
        let end_arrow = g.edge_end_arrow(e);
        let source = g.source(e);
        let target = g.target(e);
        let edge = EdgeStmt {
            source: g.node_id(&source),
            target: g.node_id(&target),
            label,
            style: g.edge_style(e),
            color: g.edge_color(e),
            start_arrow,
            end_arrow,
            attrs: g.edge_attrs(e),
        };
        write_edge(w, kind, &edge, options);
        proof {
            assert(call_ensures(G::source, (g, e), source));
            assert(call_ensures(G::target, (g, e), target));
            assert(describes_edge(g, e, edge));
            assert(stmts.push(edge).drop_last() == stmts);
            lemma_appended(
                start,
                edge_lines(kind, stmts, options@),
                edge_text(kind, edge, options@),
            );
            stmts = stmts.push(edge);
        }
        i = i + 1;
    }
    assert(edges@.take(edges@.len() as int) == edges@);
    Ghost(stmts)
}

/// Renders graph `g` into `w` in DOT syntax, with no option set.
/// (Simple wrapper around `render_opts` that passes a default set of options.)
pub fn render<
    'a,
    N: Clone + 'a,
    E: Clone + 'a,
    G: Labeller<'a, N, E> + GraphWalk<'a, N, E>,
>(g: &'a G, w: &mut String)
    ensures
        exists|text: Seq<char>|
            final(w)@ == old(w)@ + text && #[trigger] is_rendering(
                g,
                text,
                Seq::<RenderOption>::empty(),
            ),
{
    let options = default_options();
    render_opts(g, w, options.as_slice())
}

/// Renders graph `g` into `w` in DOT syntax.
/// (Main entry point for the library.)
///
/// The text is appended to `w`: the header, the rank direction of a directed
/// graph that has one, the graph's attributes, one line for each node and
/// each edge in the order in which `g` gives them, and the closing brace.
/// Every part of it is what `g` answers when it is asked for that part.
pub fn render_opts<
    'a,
    N: Clone + 'a,
    E: Clone + 'a,
    G: Labeller<'a, N, E> + GraphWalk<'a, N, E>,
>(g: &'a G, w: &mut String, options: &[RenderOption])
    ensures
        exists|text: Seq<char>|
            final(w)@ == old(w)@ + text && #[trigger] is_rendering(g, text, options@),
{
    let kind = g.kind();
    let id = g.graph_id();
    write_header(w, kind, &id);
    let rank_dir = match kind {
        Kind::Digraph => g.rank_dir(),
        Kind::Graph => None,
    };
    write_rank_dir(w, kind, rank_dir);
    let attrs = g.graph_attrs();
    write_graph_attrs(w, &attrs);
    let nodes = write_nodes(g, w, options);
    let edges = write_edges(g, w, kind, options);
    write_footer(w);
    proof {
        let doc = Document { kind, id, rank_dir, attrs, nodes: nodes@, edges: edges@ };
        let start = old(w)@;
        let header = header_text(kind, id@);
        let rank = rank_dir_text(kind, rank_dir);
        let lines = attr_lines(attrs@);
        let node_part = node_lines(nodes@, options@);
        let edge_part = edge_lines(kind, edges@, options@);
        lemma_appended(start, header, rank);
        lemma_appended(start, header + rank, lines);
        lemma_appended(start, header + rank + lines, node_part);
        lemma_appended(start, header + rank + lines + node_part, edge_part);
        lemma_appended(start, header + rank + lines + node_part + edge_part, footer_text());
        assert(describes(g, doc));
        assert(w@ == start + doc.text(options@));
        assert(is_rendering(g, doc.text(options@), options@));
    }
}

} // verus!
