//! The text of a graph, piece by piece.
//!
//! `NodeStmt`, `EdgeStmt` and `Document` hold what is written; the spec
//! functions `header_text`, `rank_dir_text`, `attr_lines`, `node_text`,
//! `edge_text` and `footer_text` say what each line is, and `Document::text`
//! puts the lines together. The `write_*` functions append one line each to
//! the output.

use crate::arrow::{shapes_text, Arrow, ArrowShape};
use crate::attrs::Attrs;
use crate::id::{is_identifier, lemma_identifier_is_kept, Id};
use crate::label::{LabelText, LabelView};
use crate::style::{Kind, RankDir, Style};
use vstd::prelude::*;

verus! {

/// A flag that keeps one category of optional attribute out of the output.
#[derive(Copy, Clone, PartialEq, Eq, Debug, Structural)]
pub enum RenderOption {
    /// Write no label on any edge.
    NoEdgeLabels,
    /// Write no label on any node.
    NoNodeLabels,
    /// Write no style on any edge.
    NoEdgeStyles,
    /// Write no color on any edge.
    NoEdgeColors,
    /// Write no style on any node.
    NoNodeStyles,
    /// Write no color on any node.
    NoNodeColors,
    /// Write no arrows on any edge.
    NoArrows,
}

/// One node of a graph as it is written: its identifier and what the graph
/// says of it.
pub struct NodeStmt {
    pub id: Id,
    pub label: LabelText,
    pub style: Style,
    pub color: Option<LabelText>,
    pub shape: Option<LabelText>,
    pub attrs: Attrs,
}

/// One edge of a graph as it is written: the identifiers of its two ends
/// and what the graph says of it.
pub struct EdgeStmt {
    pub source: Id,
    pub target: Id,
    pub label: LabelText,
    pub style: Style,
    pub color: Option<LabelText>,
    pub start_arrow: Arrow,
    pub end_arrow: Arrow,
    pub attrs: Attrs,
}

/// The four spaces in front of a node line, an edge line and the rank
/// direction.
pub open spec fn indent_text() -> Seq<char> {
    "    "@
}

/// The first line of the output: keyword, graph name, opening brace.
pub open spec fn header_text(kind: Kind, id: Seq<char>) -> Seq<char> {
    kind.keyword_text() + " "@ + id + " {\n"@
}

/// The line that sets the rank direction. Only a directed graph with a
/// direction has one.
pub open spec fn rank_dir_text(kind: Kind, rank_dir: Option<RankDir>) -> Seq<char> {
    match (kind, rank_dir) {
        (Kind::Digraph, Some(dir)) => indent_text() + "rankdir=\""@ + dir.token() + "\";\n"@,
        _ => Seq::empty(),
    }
}

/// One line `name=value` for each attribute of the graph, in order.
pub open spec fn attr_lines(attrs: Seq<(Seq<char>, Seq<char>)>) -> Seq<char>
    decreases attrs.len(),
{
    if attrs.len() == 0 {
        Seq::empty()
    } else {
        attr_lines(attrs.drop_last()) + (attrs.last().0 + "="@ + attrs.last().1 + "\n"@)
    }
}

/// One block `[name=value]` for each attribute of a node or an edge, in
/// order.
pub open spec fn attr_blocks(attrs: Seq<(Seq<char>, Seq<char>)>) -> Seq<char>
    decreases attrs.len(),
{
    if attrs.len() == 0 {
        Seq::empty()
    } else {
        attr_blocks(attrs.drop_last()) + ("["@ + attrs.last().0 + "="@ + attrs.last().1 + "]"@)
    }
}

/// The block that holds a label, unless labels are suppressed.
pub open spec fn label_clause(label: LabelText, suppressed: bool) -> Seq<char> {
    if suppressed {
        Seq::empty()
    } else {
        "[label="@ + label@.dot_text() + "]"@
    }
}

/// The block that holds a style, unless styles are suppressed or there is
/// no style.
pub open spec fn style_clause(style: Style, suppressed: bool) -> Seq<char> {
    if suppressed || style == Style::NoStyle {
        Seq::empty()
    } else {
        "[style=\""@ + style.token() + "\"]"@
    }
}

/// The block that holds a color, unless colors are suppressed or there is
/// no color.
pub open spec fn color_clause(color: Option<LabelText>, suppressed: bool) -> Seq<char> {
    match color {
        Some(c) => if suppressed {
            Seq::empty()
        } else {
            "[color="@ + c@.dot_text() + "]"@
        },
        None => Seq::empty(),
    }
}

/// The block that holds a node's shape, if it has one.
pub open spec fn shape_clause(shape: Option<LabelText>) -> Seq<char> {
    match shape {
        Some(s) => "[shape="@ + s@.dot_text() + "]"@,
        None => Seq::empty(),
    }
}

/// The `arrowhead` setting, for an arrow that is not the default one.
pub open spec fn arrow_head_text(end: Seq<ArrowShape>) -> Seq<char> {
    if end.len() == 0 {
        Seq::empty()
    } else {
        "arrowhead=\""@ + shapes_text(end) + "\""@
    }
}

/// The `arrowtail` setting, for an arrow that is not the default one.
pub open spec fn arrow_tail_text(start: Seq<ArrowShape>) -> Seq<char> {
    if start.len() == 0 {
        Seq::empty()
    } else {
        " dir=\"both\" arrowtail=\""@ + shapes_text(start) + "\""@
    }
}

/// The block that holds the arrows of an edge: none if arrows are
/// suppressed or both arrows are the default one.
pub open spec fn arrow_clause(
    start: Seq<ArrowShape>,
    end: Seq<ArrowShape>,
    suppressed: bool,
) -> Seq<char> {
    if suppressed || (start.len() == 0 && end.len() == 0) {
        Seq::empty()
    } else {
        "["@ + arrow_head_text(end) + arrow_tail_text(start) + "]"@
    }
}

/// The blocks behind a node's identifier: label, style, color, shape and
/// the custom attributes, each as far as it is there and not suppressed.
pub open spec fn node_clauses(node: NodeStmt, options: Seq<RenderOption>) -> Seq<char> {
    label_clause(node.label, options.contains(RenderOption::NoNodeLabels)) + style_clause(
        node.style,
        options.contains(RenderOption::NoNodeStyles),
    ) + color_clause(node.color, options.contains(RenderOption::NoNodeColors)) + shape_clause(
        node.shape,
    ) + attr_blocks(node.attrs@)
}

/// The line of one node.
pub open spec fn node_text(node: NodeStmt, options: Seq<RenderOption>) -> Seq<char> {
    indent_text() + node.id@ + node_clauses(node, options) + ";\n"@
}

/// The two ends of an edge with the edge operator between them.
pub open spec fn edge_ends_text(kind: Kind, source: Seq<char>, target: Seq<char>) -> Seq<char> {
    source + " "@ + kind.edgeop_text() + " "@ + target
}

/// The blocks behind an edge's ends: label, style, color, arrows and the
/// custom attributes, each as far as it is there and not suppressed.
pub open spec fn edge_clauses(edge: EdgeStmt, options: Seq<RenderOption>) -> Seq<char> {
    label_clause(edge.label, options.contains(RenderOption::NoEdgeLabels)) + style_clause(
        edge.style,
        options.contains(RenderOption::NoEdgeStyles),
    ) + color_clause(edge.color, options.contains(RenderOption::NoEdgeColors)) + arrow_clause(
        edge.start_arrow@,
        edge.end_arrow@,
        options.contains(RenderOption::NoArrows),
    ) + attr_blocks(edge.attrs@)
}

/// The line of one edge.
pub open spec fn edge_text(kind: Kind, edge: EdgeStmt, options: Seq<RenderOption>) -> Seq<char> {
    indent_text() + edge_ends_text(kind, edge.source@, edge.target@) + edge_clauses(edge, options)
        + ";\n"@
}

/// The last line of the output.
pub open spec fn footer_text() -> Seq<char> {
    "}\n"@
}

/// The lines of `nodes`, in order.
pub open spec fn node_lines(nodes: Seq<NodeStmt>, options: Seq<RenderOption>) -> Seq<char>
    decreases nodes.len(),
{
    if nodes.len() == 0 {
        Seq::empty()
    } else {
        node_lines(nodes.drop_last(), options) + node_text(nodes.last(), options)
    }
}

/// The lines of `edges`, in order.
pub open spec fn edge_lines(kind: Kind, edges: Seq<EdgeStmt>, options: Seq<RenderOption>) -> Seq<
    char,
>
    decreases edges.len(),
{
    if edges.len() == 0 {
        Seq::empty()
    } else {
        edge_lines(kind, edges.drop_last(), options) + edge_text(kind, edges.last(), options)
    }
}

/// All that one rendering writes down: what the graph answered when it was
/// asked for its kind, its name, its rank direction and its attributes, and
/// one statement for each node and each edge.
pub struct Document {
    pub kind: Kind,
    pub id: Id,
    pub rank_dir: Option<RankDir>,
    pub attrs: Attrs,
    pub nodes: Seq<NodeStmt>,
    pub edges: Seq<EdgeStmt>,
}

impl Document {
    /// The text of the document under `options`: the header, the rank
    /// direction of a directed graph that has one, the graph's attributes,
    /// the nodes, the edges, and the closing brace.
    pub open spec fn text(self, options: Seq<RenderOption>) -> Seq<char> {
        header_text(self.kind, self.id@) + rank_dir_text(self.kind, self.rank_dir) + attr_lines(
            self.attrs@,
        ) + node_lines(self.nodes, options) + edge_lines(self.kind, self.edges, options)
            + footer_text()
    }
}

/// Suppressing node labels takes the label block out of every node line and
/// changes nothing else. Let `others` be options that differ from `options`
/// at most in `NoNodeLabels`, which `options` holds: then a node line under
/// `options` has no label block, and its style, color, shape and attributes
/// are those under `others`; an edge line is the same under both, with its
/// label, style, color and arrows.
pub proof fn lemma_no_node_labels(
    node: NodeStmt,
    kind: Kind,
    edge: EdgeStmt,
    options: Seq<RenderOption>,
    others: Seq<RenderOption>,
)
    requires
        options.contains(RenderOption::NoNodeLabels),
        forall|o: RenderOption|
            o != RenderOption::NoNodeLabels ==> options.contains(o) == others.contains(o),
    ensures
        node_text(node, options) == indent_text() + node.id@ + style_clause(
            node.style,
            others.contains(RenderOption::NoNodeStyles),
        ) + color_clause(node.color, others.contains(RenderOption::NoNodeColors)) + shape_clause(
            node.shape,
        ) + attr_blocks(node.attrs@) + ";\n"@,
        edge_text(kind, edge, options) == edge_text(kind, edge, others),
{
    let style = style_clause(node.style, others.contains(RenderOption::NoNodeStyles));
    let color = color_clause(node.color, others.contains(RenderOption::NoNodeColors));
    let shape = shape_clause(node.shape);
    let attrs = attr_blocks(node.attrs@);
    let head = indent_text() + node.id@;
    assert(label_clause(node.label, true) + style == style);
    assert(node_clauses(node, options) == style + color + shape + attrs);
    lemma_appended(head, style, color);
    lemma_appended(head, style + color, shape);
    lemma_appended(head, style + color + shape, attrs);
    assert(edge_clauses(edge, options) == edge_clauses(edge, others));
}

/// A graph without attributes, nodes and edges, and without a rank
/// direction if it is directed, is written as its header and the closing
/// brace.
pub proof fn lemma_empty_document(doc: Document, options: Seq<RenderOption>)
    requires
        doc.kind == Kind::Graph || doc.rank_dir is None,
        doc.attrs@.len() == 0,
        doc.nodes.len() == 0,
        doc.edges.len() == 0,
    ensures
        doc.text(options) == doc.kind.keyword_text() + " "@ + doc.id@ + " {\n}\n"@,
{
    reveal_strlit(" {\n");
    reveal_strlit("}\n");
    reveal_strlit(" {\n}\n");
    assert(" {\n"@ + "}\n"@ =~= " {\n}\n"@);
    let head = doc.kind.keyword_text() + " "@ + doc.id@;
    let none = Seq::<char>::empty();
    assert(header_text(doc.kind, doc.id@) + none + none + none + none =~= head + " {\n"@);
    lemma_appended(head, " {\n"@, "}\n"@);
}

/// A node that has nothing but the default label, which is its identifier
/// as plain text, is written as `id[label="id"];` behind the indent: an
/// identifier needs no escaping.
pub proof fn lemma_default_node_line(node: NodeStmt, options: Seq<RenderOption>)
    requires
        is_identifier(node.id@),
        node.label@ == LabelView::LabelStr(node.id@),
        node.style == Style::NoStyle,
        node.color is None,
        node.shape is None,
        node.attrs@.len() == 0,
        !options.contains(RenderOption::NoNodeLabels),
    ensures
        node_text(node, options) == indent_text() + node.id@ + "[label=\""@ + node.id@
            + "\"];\n"@,
{
    let id = node.id@;
    let quote = seq!['"'];
    lemma_identifier_is_kept(id);
    reveal_strlit("[label=");
    reveal_strlit("[label=\"");
    reveal_strlit("]");
    reveal_strlit(";\n");
    reveal_strlit("\"];\n");
    assert("[label=\""@ =~= "[label="@ + quote);
    assert("\"];\n"@ =~= quote + "]"@ + ";\n"@);
    assert(node.label@.dot_text() == quote + id + quote);
    assert(node_clauses(node, options) =~= "[label="@ + (quote + id + quote) + "]"@);
    assert(node_text(node, options) =~= indent_text() + id + "[label=\""@ + id + "\"];\n"@);
}

/// The block of the arrows of an edge, where arrows are not suppressed. An
/// end arrow alone gives `[arrowhead="..."]`, with no `dir`; both arrows
/// give `[arrowhead="..." dir="both" arrowtail="..."]`.
pub proof fn lemma_arrow_block(start: Seq<ArrowShape>, end: Seq<ArrowShape>)
    requires
        end.len() > 0,
    ensures
        start.len() == 0 ==> arrow_clause(start, end, false) == "[arrowhead=\""@ + shapes_text(end)
            + "\"]"@,
        start.len() > 0 ==> arrow_clause(start, end, false) == "[arrowhead=\""@ + shapes_text(end)
            + "\" dir=\"both\" arrowtail=\""@ + shapes_text(start) + "\"]"@,
{
    reveal_strlit("[");
    reveal_strlit("]");
    reveal_strlit("\"");
    reveal_strlit("arrowhead=\"");
    reveal_strlit("[arrowhead=\"");
    reveal_strlit("\"]");
    reveal_strlit(" dir=\"both\" arrowtail=\"");
    reveal_strlit("\" dir=\"both\" arrowtail=\"");
    assert("[arrowhead=\""@ =~= "["@ + "arrowhead=\""@);
    assert("\"]"@ =~= "\""@ + "]"@);
    assert("\" dir=\"both\" arrowtail=\""@ =~= "\""@ + " dir=\"both\" arrowtail=\""@);
    if start.len() == 0 {
        assert(arrow_clause(start, end, false) =~= "[arrowhead=\""@ + shapes_text(end) + "\"]"@);
    } else {
        assert(arrow_clause(start, end, false) =~= "[arrowhead=\""@ + shapes_text(end)
            + "\" dir=\"both\" arrowtail=\""@ + shapes_text(start) + "\"]"@);
    }
}

/// Appending `piece` to what holds `start` and `done` gives what holds
/// `start` and then `done` with `piece`.
pub(crate) proof fn lemma_appended(start: Seq<char>, done: Seq<char>, piece: Seq<char>)
    ensures
        (start + done) + piece == start + (done + piece),
{
    vstd::seq_lib::lemma_concat_associative(start, done, piece);
}

/// Whether `options` holds `option`.
fn has_option(options: &[RenderOption], option: RenderOption) -> (b: bool)
    ensures
        b == options@.contains(option),
{
    let mut i: usize = 0;
    while i < options.len()
        invariant
            i <= options.len(),
            forall|j: int| 0 <= j < i ==> options@[j] != option,
        decreases options.len() - i,
    {
        if options[i] == option {
            return true;
        }
        i = i + 1;
    }
    false
}

/// Writes the first line of a graph.
pub fn write_header(w: &mut String, kind: Kind, id: &Id)
    ensures
        final(w)@ == old(w)@ + header_text(kind, id@),
{
    let ghost start = w@;
    w.append(kind.keyword());
    w.append(" ");
    proof {
        lemma_appended(start, kind.keyword_text(), " "@);
    }
    w.append(id.as_slice());
    proof {
        lemma_appended(start, kind.keyword_text() + " "@, id@);
    }
    w.append(" {\n");
    proof {
        lemma_appended(start, kind.keyword_text() + " "@ + id@, " {\n"@);
    }
}

/// Writes the rank direction of a directed graph that has one.
pub fn write_rank_dir(w: &mut String, kind: Kind, rank_dir: Option<RankDir>)
    ensures
        final(w)@ == old(w)@ + rank_dir_text(kind, rank_dir),
{
    let ghost start = w@;
    match (kind, rank_dir) {
        (Kind::Digraph, Some(dir)) => {
            w.append("    ");
            w.append("rankdir=\"");
            proof {
                lemma_appended(start, indent_text(), "rankdir=\""@);
            }
            w.append(dir.as_slice());
            proof {
                lemma_appended(start, indent_text() + "rankdir=\""@, dir.token());
            }
            w.append("\";\n");
            proof {
                lemma_appended(start, indent_text() + "rankdir=\""@ + dir.token(), "\";\n"@);
            }
        },
        _ => {
            assert(start + Seq::<char>::empty() =~= start);
        },
    }
}

/// Writes the line `name=value` of one attribute of the graph.
fn write_attr_line(w: &mut String, name: &str, value: &str)
    ensures
        final(w)@ == old(w)@ + (name@ + "="@ + value@ + "\n"@),
{
    let ghost start = w@;
    w.append(name);
    w.append("=");
    proof {
        lemma_appended(start, name@, "="@);
    }
    w.append(value);
    proof {
        lemma_appended(start, name@ + "="@, value@);
    }
    w.append("\n");
    proof {
        lemma_appended(start, name@ + "="@ + value@, "\n"@);
    }
}

/// Writes the block `[name=value]` of one attribute of a node or an edge.
fn write_attr_block(w: &mut String, name: &str, value: &str)
    ensures
        final(w)@ == old(w)@ + ("["@ + name@ + "="@ + value@ + "]"@),
{
    let ghost start = w@;
    w.append("[");
    w.append(name);
    proof {
        lemma_appended(start, "["@, name@);
    }
    w.append("=");
    proof {
        lemma_appended(start, "["@ + name@, "="@);
    }
    w.append(value);
    proof {
        lemma_appended(start, "["@ + name@ + "="@, value@);
    }
    w.append("]");
    proof {
        lemma_appended(start, "["@ + name@ + "="@ + value@, "]"@);
    }
}

/// Writes one line for each attribute of the graph.
pub fn write_graph_attrs(w: &mut String, attrs: &Attrs)
    ensures
        final(w)@ == old(w)@ + attr_lines(attrs@),
{
    let ghost start = w@;
    assert(start + attr_lines(attrs@.take(0)) =~= start);
    let mut i: usize = 0;
    while i < attrs.len()
        invariant
            i <= attrs@.len(),
            w@ == start + attr_lines(attrs@.take(i as int)),
        decreases attrs@.len() - i,
    {
        write_attr_line(w, attrs.name(i), attrs.value(i));
        proof {
            let done = attrs@.take(i as int);
            let next = attrs@.take(i + 1);
            let entry = attrs@[i as int];
            assert(next.drop_last() == done);
            assert(next.last() == entry);
            lemma_appended(start, attr_lines(done), entry.0 + "="@ + entry.1 + "\n"@);
        }
        i = i + 1;
    }
    assert(attrs@.take(attrs@.len() as int) == attrs@);
}

/// Writes one block for each attribute of a node or an edge.
fn write_attr_blocks(w: &mut String, attrs: &Attrs)
    ensures
        final(w)@ == old(w)@ + attr_blocks(attrs@),
{
    let ghost start = w@;
    assert(start + attr_blocks(attrs@.take(0)) =~= start);
    let mut i: usize = 0;
    while i < attrs.len()
        invariant
            i <= attrs@.len(),
            w@ == start + attr_blocks(attrs@.take(i as int)),
        decreases attrs@.len() - i,
    {
        write_attr_block(w, attrs.name(i), attrs.value(i));
        proof {
            let done = attrs@.take(i as int);
            let next = attrs@.take(i + 1);
            let entry = attrs@[i as int];
            assert(next.drop_last() == done);
            assert(next.last() == entry);
            lemma_appended(start, attr_blocks(done), "["@ + entry.0 + "="@ + entry.1 + "]"@);
        }
        i = i + 1;
    }
    assert(attrs@.take(attrs@.len() as int) == attrs@);
}

/// Writes the label block, unless `suppressed`.
fn write_label(w: &mut String, label: &LabelText, suppressed: bool)
    ensures
        final(w)@ == old(w)@ + label_clause(*label, suppressed),
{
    let ghost start = w@;
    if !suppressed {
        let text = label.to_dot_string();
        w.append("[label=");
        w.append(text.as_str());
        proof {
            lemma_appended(start, "[label="@, text@);
        }
        w.append("]");
        proof {
            lemma_appended(start, "[label="@ + text@, "]"@);
        }
    } else {
        assert(start + Seq::<char>::empty() =~= start);
    }
}

/// Writes the style block, unless `suppressed` or there is no style.
fn write_style(w: &mut String, style: Style, suppressed: bool)
    ensures
        final(w)@ == old(w)@ + style_clause(style, suppressed),
{
    let ghost start = w@;
    if !suppressed && style != Style::NoStyle {
        w.append("[style=\"");
        w.append(style.as_slice());
        proof {
            lemma_appended(start, "[style=\""@, style.token());
        }
        w.append("\"]");
        proof {
            lemma_appended(start, "[style=\""@ + style.token(), "\"]"@);
        }
    } else {
        assert(start + Seq::<char>::empty() =~= start);
    }
}

/// Writes the color block, unless `suppressed` or there is no color.
fn write_color(w: &mut String, color: &Option<LabelText>, suppressed: bool)
    ensures
        final(w)@ == old(w)@ + color_clause(*color, suppressed),
{
    let ghost start = w@;
    proof {
        assert(start + Seq::<char>::empty() =~= start);
    }
    if !suppressed {
        if let Some(c) = color {
            let text = c.to_dot_string();
            w.append("[color=");
            w.append(text.as_str());
            proof {
                lemma_appended(start, "[color="@, text@);
            }
            w.append("]");
            proof {
                lemma_appended(start, "[color="@ + text@, "]"@);
            }
        }
    }
}

/// Writes the shape block of a node that has a shape.
fn write_shape(w: &mut String, shape: &Option<LabelText>)
    ensures
        final(w)@ == old(w)@ + shape_clause(*shape),
{
    let ghost start = w@;
    match shape {
        Some(s) => {
            let text = s.to_dot_string();
            w.append("[shape=");
            w.append(text.as_str());
            proof {
                lemma_appended(start, "[shape="@, text@);
            }
            w.append("]");
            proof {
                lemma_appended(start, "[shape="@ + text@, "]"@);
            }
        },
        None => {
            assert(start + Seq::<char>::empty() =~= start);
        },
    }
}

/// Writes the `arrowhead` setting of an arrow that is not the default one.
fn write_arrow_head(w: &mut String, end: &Arrow)
    ensures
        final(w)@ == old(w)@ + arrow_head_text(end@),
{
    let ghost start = w@;
    if !end.is_default() {
        let text = end.to_dot_string();
        w.append("arrowhead=\"");
        w.append(text.as_str());
        proof {
            lemma_appended(start, "arrowhead=\""@, text@);
        }
        w.append("\"");
        proof {
            lemma_appended(start, "arrowhead=\""@ + text@, "\""@);
        }
    } else {
        assert(start + Seq::<char>::empty() =~= start);
    }
}

/// Writes the `arrowtail` setting of an arrow that is not the default one.
fn write_arrow_tail(w: &mut String, start_arrow: &Arrow)
    ensures
        final(w)@ == old(w)@ + arrow_tail_text(start_arrow@),
{
    let ghost start = w@;
    if !start_arrow.is_default() {
        let text = start_arrow.to_dot_string();
        w.append(" dir=\"both\" arrowtail=\"");
        w.append(text.as_str());
        proof {
            lemma_appended(start, " dir=\"both\" arrowtail=\""@, text@);
        }
        w.append("\"");
        proof {
            lemma_appended(start, " dir=\"both\" arrowtail=\""@ + text@, "\""@);
        }
    } else {
        assert(start + Seq::<char>::empty() =~= start);
    }
}

/// Writes the block of the two arrows, unless `suppressed` or both are the
/// default arrow.
fn write_arrows(w: &mut String, start_arrow: &Arrow, end_arrow: &Arrow, suppressed: bool)
    ensures
        final(w)@ == old(w)@ + arrow_clause(start_arrow@, end_arrow@, suppressed),
{
    let ghost start = w@;
    if !suppressed && (!start_arrow.is_default() || !end_arrow.is_default()) {
        w.append("[");
        write_arrow_head(w, end_arrow);
        proof {
            lemma_appended(start, "["@, arrow_head_text(end_arrow@));
        }
        write_arrow_tail(w, start_arrow);
        proof {
            lemma_appended(
                start,
                "["@ + arrow_head_text(end_arrow@),
                arrow_tail_text(start_arrow@),
            );
        }
        w.append("]");
        proof {
            lemma_appended(
                start,
                "["@ + arrow_head_text(end_arrow@) + arrow_tail_text(start_arrow@),
                "]"@,
            );
        }
    } else {
        assert(start + Seq::<char>::empty() =~= start);
    }
}

/// Writes the blocks behind a node's identifier.
fn write_node_clauses(w: &mut String, node: &NodeStmt, options: &[RenderOption])
    ensures
        final(w)@ == old(w)@ + node_clauses(*node, options@),
{
    let ghost start = w@;
    let no_labels = has_option(options, RenderOption::NoNodeLabels);
    let no_styles = has_option(options, RenderOption::NoNodeStyles);
    let no_colors = has_option(options, RenderOption::NoNodeColors);
    let ghost label = label_clause(node.label, no_labels);
    let ghost style = style_clause(node.style, no_styles);
    let ghost color = color_clause(node.color, no_colors);
    let ghost shape = shape_clause(node.shape);
    write_label(w, &node.label, no_labels);
    write_style(w, node.style, no_styles);
    proof {
        lemma_appended(start, label, style);
    }
    write_color(w, &node.color, no_colors);
    proof {
        lemma_appended(start, label + style, color);
    }
    write_shape(w, &node.shape);
    proof {
        lemma_appended(start, label + style + color, shape);
    }
    write_attr_blocks(w, &node.attrs);
    proof {
        lemma_appended(start, label + style + color + shape, attr_blocks(node.attrs@));
    }
}

/// Writes the line of one node.
pub fn write_node(w: &mut String, node: &NodeStmt, options: &[RenderOption])
    ensures
        final(w)@ == old(w)@ + node_text(*node, options@),
{
    let ghost start = w@;
    w.append("    ");
    w.append(node.id.as_slice());
    proof {
        lemma_appended(start, indent_text(), node.id@);
    }
    write_node_clauses(w, node, options);
    proof {
        lemma_appended(start, indent_text() + node.id@, node_clauses(*node, options@));
    }
    w.append(";\n");
    proof {
        lemma_appended(start, indent_text() + node.id@ + node_clauses(*node, options@), ";\n"@);
    }
}

/// Writes the two ends of an edge with the edge operator between them.
fn write_edge_ends(w: &mut String, kind: Kind, source: &Id, target: &Id)
    ensures
        final(w)@ == old(w)@ + edge_ends_text(kind, source@, target@),
{
    let ghost start = w@;
    w.append(source.as_slice());
    w.append(" ");
    proof {
        lemma_appended(start, source@, " "@);
    }
    w.append(kind.edgeop());
    proof {
        lemma_appended(start, source@ + " "@, kind.edgeop_text());
    }
    w.append(" ");
    proof {
        lemma_appended(start, source@ + " "@ + kind.edgeop_text(), " "@);
    }
    w.append(target.as_slice());
    proof {
        lemma_appended(start, source@ + " "@ + kind.edgeop_text() + " "@, target@);
    }
}

/// Writes the blocks behind an edge's ends.
fn write_edge_clauses(w: &mut String, edge: &EdgeStmt, options: &[RenderOption])
    ensures
        final(w)@ == old(w)@ + edge_clauses(*edge, options@),
{
    let ghost start = w@;
    let no_labels = has_option(options, RenderOption::NoEdgeLabels);
    let no_styles = has_option(options, RenderOption::NoEdgeStyles);
    let no_colors = has_option(options, RenderOption::NoEdgeColors);
    let no_arrows = has_option(options, RenderOption::NoArrows);
    let ghost label = label_clause(edge.label, no_labels);
    let ghost style = style_clause(edge.style, no_styles);
    let ghost color = color_clause(edge.color, no_colors);
    let ghost arrows = arrow_clause(edge.start_arrow@, edge.end_arrow@, no_arrows);
    write_label(w, &edge.label, no_labels);
    write_style(w, edge.style, no_styles);
    proof {
        lemma_appended(start, label, style);
    }
    write_color(w, &edge.color, no_colors);
    proof {
        lemma_appended(start, label + style, color);
    }
    write_arrows(w, &edge.start_arrow, &edge.end_arrow, no_arrows);
    proof {
        lemma_appended(start, label + style + color, arrows);
    }
    write_attr_blocks(w, &edge.attrs);
    proof {
        lemma_appended(start, label + style + color + arrows, attr_blocks(edge.attrs@));
    }
}

/// Writes the line of one edge.
pub fn write_edge(w: &mut String, kind: Kind, edge: &EdgeStmt, options: &[RenderOption])
    ensures
        final(w)@ == old(w)@ + edge_text(kind, *edge, options@),
{
    let ghost start = w@;
    let ghost ends = edge_ends_text(kind, edge.source@, edge.target@);
    w.append("    ");
    write_edge_ends(w, kind, &edge.source, &edge.target);
    proof {
        lemma_appended(start, indent_text(), ends);
    }
    write_edge_clauses(w, edge, options);
    proof {
        lemma_appended(start, indent_text() + ends, edge_clauses(*edge, options@));
    }
    w.append(";\n");
    proof {
        lemma_appended(start, indent_text() + ends + edge_clauses(*edge, options@), ";\n"@);
    }
}

/// Writes the last line of a graph.
pub fn write_footer(w: &mut String)
    ensures
        final(w)@ == old(w)@ + footer_text(),
{
    w.append("}\n");
}

} // verus!
