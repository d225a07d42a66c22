//! The text of a label on a node or an edge, in one of three escaping modes.

use crate::escape::{
    esc_char, esc_text, is_control, is_whitespace, lemma_esc_text_concat,
    lemma_esc_text_without_backslash, lemma_plain_text_escaped_again, plain_char, plain_text,
    push_literal_escape,
};
use vstd::prelude::*;

verus! {

/// The text for a label on a node or edge.
pub enum LabelText {
    /// Plain text: every character is shown as it is, so a backslash in the
    /// text is escaped and appears as a backslash in the drawn label.
    LabelStr(String),
    /// Text in the escString syntax of the DOT language: a backslash is not
    /// escaped, it starts an escape sequence such as `\n`, `\l` or `\r`.
    EscStr(String),
    /// An HTML label: the text is emitted exactly as given, between `<` and
    /// `>`, with no escaping at all.
    HtmlStr(String),
}

/// The mathematical value of a `LabelText`: the escaping mode and the text.
pub enum LabelView {
    LabelStr(Seq<char>),
    EscStr(Seq<char>),
    HtmlStr(Seq<char>),
}

impl View for LabelText {
    type V = LabelView;

    open spec fn view(&self) -> LabelView {
        match self {
            LabelText::LabelStr(s) => LabelView::LabelStr(s@),
            LabelText::EscStr(s) => LabelView::EscStr(s@),
            LabelText::HtmlStr(s) => LabelView::HtmlStr(s@),
        }
    }
}

/// The two characters `\n`, twice: the separator that `suffix_line` puts
/// between two labels. In an escString it reads as two line breaks.
pub open spec fn blank_line() -> Seq<char> {
    seq!['\\', 'n', '\\', 'n']
}

impl LabelView {
    /// The label as it stands in the output, delimiters included.
    pub open spec fn dot_text(self) -> Seq<char> {
        match self {
            LabelView::LabelStr(s) => seq!['"'] + plain_text(s) + seq!['"'],
            LabelView::EscStr(s) => seq!['"'] + esc_text(s) + seq!['"'],
            LabelView::HtmlStr(s) => seq!['<'] + s + seq!['>'],
        }
    }

    /// The text that an `EscStr` is given to stand for this label: plain
    /// text is escaped first if it holds a backslash, any other text is
    /// taken as it is.
    pub open spec fn pre_escaped(self) -> Seq<char> {
        match self {
            LabelView::LabelStr(s) => if s.contains('\\') {
                plain_text(s)
            } else {
                s
            },
            LabelView::EscStr(s) => s,
            LabelView::HtmlStr(s) => s,
        }
    }

    /// This label with `suffix` on a line below it, after a blank line.
    pub open spec fn suffix_line(self, suffix: LabelView) -> LabelView {
        LabelView::EscStr(self.pre_escaped() + blank_line() + suffix.pre_escaped())
    }

    /// This label with `prefix` on a line above it, after a blank line.
    pub open spec fn prefix_line(self, prefix: LabelView) -> LabelView {
        prefix.suffix_line(self)
    }
}

/// Escaping leaves the separator of two stacked labels as it is.
proof fn lemma_blank_line_is_kept()
    ensures
        esc_text(blank_line()) == blank_line(),
{
    let none = Seq::<char>::empty();
    let one = none.push('\\');
    let two = one.push('n');
    let three = two.push('\\');
    let four = three.push('n');
    assert(one.drop_last() == none);
    assert(two.drop_last() == one);
    assert(three.drop_last() == two);
    assert(four.drop_last() == three);
    assert(esc_text(none) == none);
    assert(esc_text(one) =~= one);
    assert(esc_text(two) =~= two);
    assert(esc_text(three) =~= three);
    assert(esc_text(four) =~= four);
    assert(four =~= blank_line());
}

/// A label stacked on another renders as one quoted escString: the escaped
/// content of the upper label, the separator `\n\n`, and the escaped
/// content of the lower label.
pub proof fn lemma_stacked_text(upper: LabelView, lower: LabelView)
    ensures
        upper.suffix_line(lower).dot_text() == seq!['"'] + esc_text(upper.pre_escaped())
            + blank_line() + esc_text(lower.pre_escaped()) + seq!['"'],
        lower.prefix_line(upper) == upper.suffix_line(lower),
{
    let a = upper.pre_escaped();
    let b = lower.pre_escaped();
    lemma_blank_line_is_kept();
    lemma_esc_text_concat(a, blank_line());
    lemma_esc_text_concat(a + blank_line(), b);
}

/// An `EscStr` made of the pre-escaped content of a label renders exactly
/// as the label does. This holds of every escString label, and of every
/// plain label but one whose text holds a backslash together with a single
/// or double quote; an HTML label has other delimiters.
pub proof fn lemma_pre_escaped_renders_alike(label: LabelView)
    requires
        label !is HtmlStr,
        label matches LabelView::LabelStr(s) ==> !s.contains('\\') || (!s.contains('\'')
            && !s.contains('"')),
    ensures
        LabelView::EscStr(label.pre_escaped()).dot_text() == label.dot_text(),
{
    match label {
        LabelView::LabelStr(s) => {
            if s.contains('\\') {
                lemma_plain_text_escaped_again(s);
            } else {
                lemma_esc_text_without_backslash(s);
            }
        },
        _ => {},
    }
}

/// Stacking is associative: three labels stacked give the same label
/// whichever two are stacked first.
pub proof fn lemma_stacking_is_associative(a: LabelView, b: LabelView, c: LabelView)
    ensures
        a.suffix_line(b).suffix_line(c) == a.suffix_line(b.suffix_line(c)),
{
    let x = a.pre_escaped();
    let y = b.pre_escaped();
    let z = c.pre_escaped();
    assert((x + blank_line() + y) + blank_line() + z =~= x + blank_line() + (y + blank_line() + z));
}

/// Whether `s` holds a backslash.
fn has_backslash(s: &str) -> (b: bool)
    ensures
        b == s@.contains('\\'),
{
    let mut found = false;
    for c in it: s.chars()
        invariant
            it.seq() == s@,
            found == s@.take(it.index() as int).contains('\\'),
    {
        proof {
            let i = it.index() as int;
            let before = s@.take(i);
            let after = s@.take(i + 1);
            assert(after == before.push(c));
            if before.contains('\\') {
                let j = choose|j: int| 0 <= j < before.len() && before[j] == '\\';
                assert(after[j] == '\\');
            }
            if c == '\\' {
                assert(after[i] == '\\');
            }
        }
        if c == '\\' {
            found = true;
        }
    }
    assert(s@.take(s@.len() as int) == s@);
    found
}

impl LabelText {
    /// A plain label.
    pub fn label(s: &str) -> (l: LabelText)
        ensures
            l@ == LabelView::LabelStr(s@),
    {
        LabelText::LabelStr(s.to_owned())
    }

    /// A label in escString syntax.
    pub fn escaped(s: &str) -> (l: LabelText)
        ensures
            l@ == LabelView::EscStr(s@),
    {
        LabelText::EscStr(s.to_owned())
    }

    /// An HTML label.
    pub fn html(s: &str) -> (l: LabelText)
        ensures
            l@ == LabelView::HtmlStr(s@),
    {
        LabelText::HtmlStr(s.to_owned())
    }

    /// What one character of plain text becomes.
    fn escape_ascii_char(c: char) -> (out: String)
        ensures
            out@ == plain_char(c),
    {
        let mut out = String::new();
        let u: u32 = c as u32;
        if u < 0x80 || is_control(c) || is_whitespace(c) {
            push_literal_escape(&mut out, c);
        } else {
            out.push(c);
        }
        out
    }

    /// Appends to `out` what one character of escString text becomes.
    fn escape_char(c: char, out: &mut String)
        ensures
            final(out)@ == old(out)@ + esc_char(c),
    {
        if c == '\\' {
            out.push(c);
        } else {
            let e = LabelText::escape_ascii_char(c);
            out.append(e.as_str());
        }
    }

    /// Escapes escString text: every character but the backslash.
    fn escape_str(s: &str) -> (out: String)
        ensures
            out@ == esc_text(s@),
    {
        let mut out = String::new();
        for c in it: s.chars()
            invariant
                it.seq() == s@,
                out@ == esc_text(s@.take(it.index() as int)),
        {
            proof {
                let i = it.index() as int;
                assert(s@.take(i + 1).drop_last() == s@.take(i));
            }
            LabelText::escape_char(c, &mut out);
        }
        assert(s@.take(s@.len() as int) == s@);
        out
    }

    /// Escapes plain text: every character, the backslash too.
    fn escape_default(s: &str) -> (out: String)
        ensures
            out@ == plain_text(s@),
    {
        let mut out = String::new();
        for c in it: s.chars()
            invariant
                it.seq() == s@,
                out@ == plain_text(s@.take(it.index() as int)),
        {
            proof {
                let i = it.index() as int;
                assert(s@.take(i + 1).drop_last() == s@.take(i));
            }
            let e = LabelText::escape_ascii_char(c);
            out.append(e.as_str());
        }
        assert(s@.take(s@.len() as int) == s@);
        out
    }

    /// Renders the label as it stands in a DOT file, with its quotes or
    /// angle brackets.
    pub fn to_dot_string(&self) -> (out: String)
        ensures
            out@ == self@.dot_text(),
    {
        let mut out = String::new();
        match self {
            LabelText::LabelStr(s) => {
                out.push('"');
                let e = LabelText::escape_default(s.as_str());
                out.append(e.as_str());
                out.push('"');
            },
            LabelText::EscStr(s) => {
                out.push('"');
                let e = LabelText::escape_str(s.as_str());
                out.append(e.as_str());
                out.push('"');
            },
            LabelText::HtmlStr(s) => {
                out.push('<');
                out.append(s.as_str());
                out.push('>');
            },
        }
        out
    }

    /// Takes the label apart into text for an `EscStr` that stands for it.
    fn pre_escaped_content(self) -> (out: String)
        ensures
            out@ == self@.pre_escaped(),
    {
        match self {
            LabelText::EscStr(s) => s,
            LabelText::LabelStr(s) => {
                if has_backslash(s.as_str()) {
                    LabelText::escape_default(s.as_str())
                } else {
                    s
                }
            },
            LabelText::HtmlStr(s) => s,
        }
    }

    /// Puts `prefix` on a line above this label, with a blank line between.
    pub fn prefix_line(self, prefix: LabelText) -> (l: LabelText)
        ensures
            l@ == self@.prefix_line(prefix@),
    {
        prefix.suffix_line(self)
    }

    /// Puts `suffix` on a line below this label, with a blank line between.
    pub fn suffix_line(self, suffix: LabelText) -> (l: LabelText)
        ensures
            l@ == self@.suffix_line(suffix@),
    {
        let mut text = self.pre_escaped_content();
        let below = suffix.pre_escaped_content();
        text.push('\\');
        text.push('n');
        text.push('\\');
        text.push('n');
        text.append(below.as_str());
        assert(text@ =~= self@.pre_escaped() + blank_line() + below@);
        LabelText::EscStr(text)
    }
}

} // verus!
