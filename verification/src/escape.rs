//! Character escaping for label text.
//!
//! The specification functions here say, character by character, what the
//! text of a label becomes inside the quotes of a DOT string. The executable
//! functions append that text to a `String`.

use vstd::prelude::*;

verus! {

/// `String::push` of the standard library: the string afterwards is the
/// string before with `c` appended, and nothing else changes.
pub assume_specification[ String::push ](s: &mut String, c: char)
    ensures
        final(s)@ == old(s)@.push(c),
;

/// The code point of `c` is below 128.
pub open spec fn is_ascii_char(c: char) -> bool {
    (c as u32) < 0x80
}

/// `c` is a control code: one of the code points of the general category Cc,
/// which are U+0000 to U+001F and U+007F to U+009F.
pub open spec fn is_control_char(c: char) -> bool {
    (c as u32) <= 0x1f || 0x7f <= (c as u32) <= 0x9f
}

/// `c` has the Unicode property White_Space.
pub open spec fn is_whitespace_char(c: char) -> bool {
    let u = c as u32;
    ||| 0x09 <= u <= 0x0d
    ||| u == 0x20
    ||| u == 0x85
    ||| u == 0xa0
    ||| u == 0x1680
    ||| 0x2000 <= u <= 0x200a
    ||| u == 0x2028
    ||| u == 0x2029
    ||| u == 0x202f
    ||| u == 0x205f
    ||| u == 0x3000
}

/// The lower-case hexadecimal digit for `d`, where `0 <= d < 16`.
pub open spec fn hex_digit(d: nat) -> char {
    if d < 10 {
        ('0' as nat + d) as char
    } else {
        ('a' as nat + d - 10) as char
    }
}

/// The hexadecimal numeral of `n`, without leading zeros; `0` is "0".
pub open spec fn hex_digits(n: nat) -> Seq<char>
    decreases n,
{
    if n < 16 {
        seq![hex_digit(n)]
    } else {
        hex_digits(n / 16).push(hex_digit(n % 16))
    }
}

/// The escape `\u{..}` that holds the code point of `c` in hexadecimal.
pub open spec fn unicode_escape(c: char) -> Seq<char> {
    seq!['\\', 'u', '{'] + hex_digits(c as nat) + seq!['}']
}

/// The escape of `c` as a character literal is written in Rust source:
/// `\t`, `\r`, `\n`, `\'`, `\"` and `\\` for those six characters, the
/// character itself for the other printable ASCII characters (U+0020 to
/// U+007E), and a `\u{..}` escape for every other character.
pub open spec fn literal_escape(c: char) -> Seq<char> {
    if c == '\t' {
        seq!['\\', 't']
    } else if c == '\r' {
        seq!['\\', 'r']
    } else if c == '\n' {
        seq!['\\', 'n']
    } else if c == '\'' || c == '"' || c == '\\' {
        seq!['\\', c]
    } else if 0x20 <= (c as u32) <= 0x7e {
        seq![c]
    } else {
        unicode_escape(c)
    }
}

/// Whether plain label text escapes `c` at all: ASCII characters, control
/// codes and white space are escaped, every other character is kept.
pub open spec fn is_escaped(c: char) -> bool {
    is_ascii_char(c) || is_control_char(c) || is_whitespace_char(c)
}

/// What one character of plain label text becomes.
pub open spec fn plain_char(c: char) -> Seq<char> {
    if is_escaped(c) {
        literal_escape(c)
    } else {
        seq![c]
    }
}

/// What one character of escString text becomes: a backslash stays as it
/// is, because it starts an escape sequence of the DOT language; every
/// other character is treated as in plain text.
pub open spec fn esc_char(c: char) -> Seq<char> {
    if c == '\\' {
        seq![c]
    } else {
        plain_char(c)
    }
}

/// Plain label text with each character escaped, the backslash too.
pub open spec fn plain_text(s: Seq<char>) -> Seq<char>
    decreases s.len(),
{
    if s.len() == 0 {
        Seq::empty()
    } else {
        plain_text(s.drop_last()) + plain_char(s.last())
    }
}

/// EscString text with each character but the backslash escaped.
pub open spec fn esc_text(s: Seq<char>) -> Seq<char>
    decreases s.len(),
{
    if s.len() == 0 {
        Seq::empty()
    } else {
        esc_text(s.drop_last()) + esc_char(s.last())
    }
}

/// What one character becomes in text that stands inside an HTML label:
/// `&`, `"`, `<` and `>` become the entities that name them.
pub open spec fn html_char(c: char) -> Seq<char> {
    if c == '&' {
        "&amp;"@
    } else if c == '"' {
        "&quot;"@
    } else if c == '<' {
        "&lt;"@
    } else if c == '>' {
        "&gt;"@
    } else {
        seq![c]
    }
}

/// Text with each character as `html_char` gives it.
pub open spec fn html_text(s: Seq<char>) -> Seq<char>
    decreases s.len(),
{
    if s.len() == 0 {
        Seq::empty()
    } else {
        html_text(s.drop_last()) + html_char(s.last())
    }
}

/// The executable digit for `d`.
fn hex_digit_char(d: u32) -> (c: char)
    requires
        d < 16,
    ensures
        c == hex_digit(d as nat),
{
    match d {
        0 => '0',
        1 => '1',
        2 => '2',
        3 => '3',
        4 => '4',
        5 => '5',
        6 => '6',
        7 => '7',
        8 => '8',
        9 => '9',
        10 => 'a',
        11 => 'b',
        12 => 'c',
        13 => 'd',
        14 => 'e',
        _ => 'f',
    }
}

/// Appends the hexadecimal numeral of `n` to `out`.
fn push_hex(out: &mut String, n: u32)
    ensures
        final(out)@ == old(out)@ + hex_digits(n as nat),
    decreases n,
{
    if n >= 16 {
        push_hex(out, n / 16);
    }
    out.push(hex_digit_char(n % 16));
}

/// Whether `c` is a control code.
pub(crate) fn is_control(c: char) -> (b: bool)
    ensures
        b == is_control_char(c),
{
    let u: u32 = c as u32;
    u <= 0x1f || (0x7f <= u && u <= 0x9f)
}

/// Whether `c` is white space.
pub(crate) fn is_whitespace(c: char) -> (b: bool)
    ensures
        b == is_whitespace_char(c),
{
    let u: u32 = c as u32;
    (0x09 <= u && u <= 0x0d) || u == 0x20 || u == 0x85 || u == 0xa0 || u == 0x1680 || (0x2000 <= u
        && u <= 0x200a) || u == 0x2028 || u == 0x2029 || u == 0x202f || u == 0x205f || u == 0x3000
}

/// Appends to `out` the escape of `c` as Rust source writes it.
pub(crate) fn push_literal_escape(out: &mut String, c: char)
    ensures
        final(out)@ == old(out)@ + literal_escape(c),
{
    let u: u32 = c as u32;
    if c == '\t' {
        out.push('\\');
        out.push('t');
    } else if c == '\r' {
        out.push('\\');
        out.push('r');
    } else if c == '\n' {
        out.push('\\');
        out.push('n');
    } else if c == '\'' || c == '"' || c == '\\' {
        out.push('\\');
        out.push(c);
    } else if 0x20 <= u && u <= 0x7e {
        out.push(c);
    } else {
        out.push('\\');
        out.push('u');
        out.push('{');
        push_hex(out, u);
        out.push('}');
    }
}

/// Escape tags in such a way that it is suitable for inclusion in a
/// Graphviz HTML label.
pub fn escape_html(s: &str) -> (out: String)
    ensures
        out@ == html_text(s@),
{
    let mut out = String::new();
    for c in it: s.chars()
        invariant
            it.seq() == s@,
            out@ == html_text(s@.take(it.index() as int)),
    {
        proof {
            let i = it.index() as int;
            assert(s@.take(i + 1).drop_last() == s@.take(i));
        }
        if c == '&' {
            out.append("&amp;");
        } else if c == '"' {
            out.append("&quot;");
        } else if c == '<' {
            out.append("&lt;");
        } else if c == '>' {
            out.append("&gt;");
        } else {
            out.push(c);
        }
    }
    assert(s@.take(s@.len() as int) == s@);
    out
}

/// Plain text is escaped character by character: the escape of two texts
/// joined is their two escapes joined.
pub proof fn lemma_plain_text_concat(a: Seq<char>, b: Seq<char>)
    ensures
        plain_text(a + b) == plain_text(a) + plain_text(b),
    decreases b.len(),
{
    if b.len() == 0 {
        assert(a + b == a);
    } else {
        lemma_plain_text_concat(a, b.drop_last());
        assert((a + b).drop_last() == a + b.drop_last());
    }
}

/// EscString text is escaped character by character: the escape of two
/// texts joined is their two escapes joined.
pub proof fn lemma_esc_text_concat(a: Seq<char>, b: Seq<char>)
    ensures
        esc_text(a + b) == esc_text(a) + esc_text(b),
    decreases b.len(),
{
    if b.len() == 0 {
        assert(a + b == a);
    } else {
        lemma_esc_text_concat(a, b.drop_last());
        assert((a + b).drop_last() == a + b.drop_last());
    }
}

/// Text without a backslash is escaped alike in both modes.
pub proof fn lemma_esc_text_without_backslash(s: Seq<char>)
    requires
        !s.contains('\\'),
    ensures
        esc_text(s) == plain_text(s),
    decreases s.len(),
{
    if s.len() > 0 {
        let front = s.drop_last();
        assert forall|i: int| 0 <= i < front.len() implies front[i] != '\\' by {
            assert(s[i] == front[i]);
            assert(s.contains(s[i]));
        }
        assert(s.contains(s.last()));
        lemma_esc_text_without_backslash(front);
    }
}

/// Both modes write `c` as it is: `c` is a character that is not escaped
/// at all, or a printable ASCII character other than the quotes and the
/// backslash.
pub open spec fn is_kept(c: char) -> bool {
    !is_escaped(c) || (0x20 <= (c as u32) <= 0x7e && c != '\'' && c != '"' && c != '\\')
}

/// Text of characters that are kept passes through both escaping modes
/// unchanged.
pub proof fn lemma_kept_text(s: Seq<char>)
    requires
        forall|i: int| 0 <= i < s.len() ==> is_kept(#[trigger] s[i]),
    ensures
        plain_text(s) == s,
        esc_text(s) == s,
    decreases s.len(),
{
    if s.len() > 0 {
        let front = s.drop_last();
        assert forall|i: int| 0 <= i < front.len() implies is_kept(#[trigger] front[i]) by {
            assert(front[i] == s[i]);
        }
        lemma_kept_text(front);
        assert(is_kept(s.last()));
        assert(front + seq![s.last()] == s);
    } else {
        assert(s == Seq::<char>::empty());
    }
}

/// Text outside ASCII that holds no control code and no white space (Greek
/// letters, say, or symbols) passes through both escaping modes unchanged.
pub proof fn lemma_unescaped_text_is_kept(s: Seq<char>)
    requires
        forall|i: int| 0 <= i < s.len() ==> !is_escaped(#[trigger] s[i]),
    ensures
        plain_text(s) == s,
        esc_text(s) == s,
{
    assert forall|i: int| 0 <= i < s.len() implies is_kept(#[trigger] s[i]) by {
        assert(!is_escaped(s[i]));
    }
    lemma_kept_text(s);
}

/// A text of one character is escaped as that character is.
proof fn lemma_esc_text_of_one(c: char)
    ensures
        esc_text(seq![c]) == esc_char(c),
{
    assert(seq![c].drop_last() == Seq::<char>::empty());
    assert(esc_text(Seq::<char>::empty()) == Seq::<char>::empty());
    assert(esc_text(seq![c]) =~= esc_char(c));
}

/// A hexadecimal digit is a printable character that stays as it is.
proof fn lemma_hex_digit_is_kept(d: nat)
    requires
        d < 16,
    ensures
        esc_char(hex_digit(d)) == seq![hex_digit(d)],
{
    let c = hex_digit(d);
    assert(0x30 <= (c as u32) <= 0x39 || 0x61 <= (c as u32) <= 0x66);
}

/// A hexadecimal numeral stays as it is.
proof fn lemma_hex_digits_are_kept(n: nat)
    ensures
        esc_text(hex_digits(n)) == hex_digits(n),
    decreases n,
{
    if n < 16 {
        lemma_hex_digit_is_kept(n);
        lemma_esc_text_of_one(hex_digit(n));
    } else {
        lemma_hex_digits_are_kept(n / 16);
        lemma_hex_digit_is_kept(n % 16);
        assert(hex_digits(n).drop_last() == hex_digits(n / 16));
    }
}

/// What plain text makes of a character other than a quote is text that
/// the escString mode leaves as it is.
pub proof fn lemma_plain_char_escaped_again(c: char)
    requires
        c != '\'' && c != '"',
    ensures
        esc_text(plain_char(c)) == plain_char(c),
{
    let backslash = seq!['\\'];
    lemma_esc_text_of_one('\\');
    if !is_escaped(c) {
        lemma_esc_text_of_one(c);
    } else if c == '\t' || c == '\r' || c == '\n' || c == '\\' {
        let second = if c == '\t' {
            't'
        } else if c == '\r' {
            'r'
        } else if c == '\n' {
            'n'
        } else {
            '\\'
        };
        assert(plain_char(c) =~= backslash + seq![second]);
        lemma_esc_text_of_one(second);
        lemma_esc_text_concat(backslash, seq![second]);
    } else if 0x20 <= (c as u32) <= 0x7e {
        lemma_esc_text_of_one(c);
    } else {
        let digits = hex_digits(c as nat);
        let open = seq!['u', '{'];
        lemma_esc_text_of_one('u');
        lemma_esc_text_of_one('{');
        lemma_esc_text_of_one('}');
        lemma_esc_text_concat(seq!['u'], seq!['{']);
        assert(seq!['u'] + seq!['{'] =~= open);
        assert(esc_text(open) =~= open);
        lemma_hex_digits_are_kept(c as nat);
        lemma_esc_text_concat(backslash, open);
        lemma_esc_text_concat(backslash + open, digits);
        lemma_esc_text_concat(backslash + open + digits, seq!['}']);
        assert(plain_char(c) =~= backslash + open + digits + seq!['}']);
    }
}

/// Escaped plain text that holds no quote is text that the escString mode
/// leaves as it is: escaping it once more changes nothing.
pub proof fn lemma_plain_text_escaped_again(s: Seq<char>)
    requires
        !s.contains('\''),
        !s.contains('"'),
    ensures
        esc_text(plain_text(s)) == plain_text(s),
    decreases s.len(),
{
    if s.len() > 0 {
        let front = s.drop_last();
        assert forall|i: int| 0 <= i < front.len() implies front[i] != '\'' && front[i] != '"' by {
            assert(s[i] == front[i]);
            assert(s.contains(s[i]));
        }
        assert(s.contains(s.last()));
        lemma_plain_text_escaped_again(front);
        lemma_plain_char_escaped_again(s.last());
        lemma_esc_text_concat(plain_text(front), plain_char(s.last()));
    }
}

} // verus!
