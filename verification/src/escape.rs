//! Making arbitrary text safe to embed in LaTeX source.

use vstd::prelude::*;

verus! {

/// The characters that LaTeX reads as syntax rather than as text.
pub open spec fn is_reserved(c: char) -> bool {
    c == '\\' || c == '{' || c == '}' || c == '%' || c == '&' || c == '#' || c == '_' || c == '^'
        || c == '~' || c == '$'
}

/// What stands for one character of text in LaTeX source: the character
/// itself, or the command that prints it where it is reserved.
pub open spec fn escape_char(c: char) -> Seq<char> {
    if c == '\\' {
        "\\textbackslash{}"@
    } else if c == '^' {
        "\\textasciicircum{}"@
    } else if c == '~' {
        "\\textasciitilde{}"@
    } else if is_reserved(c) {
        seq!['\\', c]
    } else {
        seq![c]
    }
}

/// The LaTeX source for a text: what stands for each of its characters, in
/// the order of the text.
pub open spec fn escape_text(s: Seq<char>) -> Seq<char>
    decreases s.len(),
{
    if s.len() == 0 {
        Seq::empty()
    } else {
        escape_text(s.drop_last()) + escape_char(s.last())
    }
}

/// `String::push` appends one character to the end of the string and
/// leaves what was there before in place.
pub assume_specification[ String::push ](s: &mut String, ch: char)
    ensures
        final(s)@ == old(s)@.push(ch),
;

/// Escapes `raw` for embedding in LaTeX source.
pub fn escape(raw: &str) -> (out: String)
    ensures
        out@ == escape_text(raw@),
{
    let mut out = String::new();
    for c in it: raw.chars()
        invariant
            it.seq() == raw@,
            out@ == escape_text(raw@.take(it.index() as int)),
    {
        proof {
            let n = it.index() as int;
            assert(raw@.take(n + 1).drop_last() =~= raw@.take(n));
        }
        if c == '\\' {
            out.append("\\textbackslash{}");
        } else if c == '^' {
            out.append("\\textasciicircum{}");
        } else if c == '~' {
            out.append("\\textasciitilde{}");
        } else if c == '{' || c == '}' || c == '%' || c == '&' || c == '#' || c == '_' || c == '$' {
            out.push('\\');
            out.push(c);
        } else {
            out.push(c);
        }
    }
    proof {
        assert(raw@.take(raw@.len() as int) =~= raw@);
    }
    out
}

/// Appends `raw`, escaped, to `out`.
pub(crate) fn append_escaped(out: &mut String, raw: &str)
    ensures
        final(out)@ == old(out)@ + escape_text(raw@),
{
    let escaped = escape(raw);
    out.append(escaped.as_str());
}

/// The escape of a text of one character is what stands for that
/// character.
pub proof fn lemma_escape_text_single(c: char)
    ensures
        escape_text(seq![c]) == escape_char(c),
{
    assert(seq![c].drop_last() =~= Seq::<char>::empty());
    assert(escape_text(Seq::<char>::empty()) =~= Seq::<char>::empty());
    assert(escape_text(seq![c]) =~= escape_char(c));
}

/// Escaping goes part by part: the escape of two texts in a row is the
/// escape of the first followed by the escape of the second.
pub proof fn lemma_escape_text_concat(a: Seq<char>, b: Seq<char>)
    ensures
        escape_text(a + b) == escape_text(a) + escape_text(b),
    decreases b.len(),
{
    if b.len() == 0 {
        assert(a + b =~= a);
        assert(escape_text(a) + escape_text(b) =~= escape_text(a));
    } else {
        lemma_escape_text_concat(a, b.drop_last());
        assert((a + b).drop_last() =~= a + b.drop_last());
        assert((a + b).last() == b.last());
        assert(escape_text(a + b) =~= escape_text(a) + escape_text(b));
    }
}

/// Every character of a text has its substitute in the escaped text, in
/// the place of the character: behind the escape of what precedes it and
/// before the escape of what follows.
pub proof fn lemma_escape_text_at(s: Seq<char>, i: int)
    requires
        0 <= i < s.len(),
    ensures
        escape_text(s) == escape_text(s.take(i)) + escape_char(s[i]) + escape_text(s.skip(i + 1)),
{
    let front = s.take(i);
    let back = s.skip(i + 1);
    assert(s =~= front + seq![s[i]] + back);
    lemma_escape_text_concat(front + seq![s[i]], back);
    lemma_escape_text_concat(front, seq![s[i]]);
    lemma_escape_text_single(s[i]);
}

/// A text without reserved characters is its own escape.
pub proof fn lemma_escape_text_plain(s: Seq<char>)
    requires
        forall|i: int| 0 <= i < s.len() ==> !is_reserved(#[trigger] s[i]),
    ensures
        escape_text(s) == s,
    decreases s.len(),
{
    if s.len() > 0 {
        lemma_escape_text_plain(s.drop_last());
        assert(escape_text(s) =~= s);
    }
}

/// Whether `text` begins with `head`.
pub open spec fn starts_with(text: Seq<char>, head: Seq<char>) -> bool {
    head.len() <= text.len() && text.take(head.len() as int) == head
}

/// The character whose substitute `t` begins with, if it begins with one.
/// A reserved character that is not part of a substitute has none.
pub open spec fn escaped_head(t: Seq<char>) -> Option<char> {
    if t.len() == 0 {
        None
    } else if !is_reserved(t[0]) {
        Some(t[0])
    } else if t[0] != '\\' {
        None
    } else if starts_with(t, escape_char('\\')) {
        Some('\\')
    } else if starts_with(t, escape_char('^')) {
        Some('^')
    } else if starts_with(t, escape_char('~')) {
        Some('~')
    } else if t.len() >= 2 && is_reserved(t[1]) && t[1] != '\\' && t[1] != '^' && t[1] != '~' {
        Some(t[1])
    } else {
        None
    }
}

/// Reads escaped text back: the text that `t` is the escape of, or `None`
/// where `t` holds a reserved character outside a substitute.
pub open spec fn unescape_text(t: Seq<char>) -> Option<Seq<char>>
    decreases t.len(),
{
    if t.len() == 0 {
        Some(Seq::empty())
    } else {
        match escaped_head(t) {
            None => None,
            Some(c) => {
                proof {
                    lemma_escape_char_len(c);
                }
                match unescape_text(t.skip(escape_char(c).len() as int)) {
                    None => None,
                    Some(rest) => Some(seq![c] + rest),
                }
            },
        }
    }
}

/// How long the substitute of a character is. It is never empty.
pub proof fn lemma_escape_char_len(c: char)
    ensures
        escape_char(c).len() == if c == '\\' {
            16nat
        } else if c == '^' {
            18nat
        } else if c == '~' {
            17nat
        } else if is_reserved(c) {
            2nat
        } else {
            1nat
        },
{
    reveal_strlit("\\textbackslash{}");
    reveal_strlit("\\textasciicircum{}");
    reveal_strlit("\\textasciitilde{}");
}

/// Text that begins with the substitute of `c` is read back as beginning
/// with `c`, whatever follows.
pub proof fn lemma_escaped_head_of_escape(c: char, rest: Seq<char>)
    ensures
        escaped_head(escape_char(c) + rest) == Some(c),
{
    reveal_strlit("\\textbackslash{}");
    reveal_strlit("\\textasciicircum{}");
    reveal_strlit("\\textasciitilde{}");
    let t = escape_char(c) + rest;
    let slash = escape_char('\\');
    let circ = escape_char('^');
    let tilde = escape_char('~');
    assert(t[0] == escape_char(c)[0]);
    if !is_reserved(c) {
    } else {
        assert(t[0] == '\\');
        assert(t[1] == escape_char(c)[1]);
        if c == '\\' {
            assert(t.take(16) =~= slash);
        } else if c == '^' {
            assert(t[5] == 'a');
            assert(t.take(16)[5] == t[5]);
            assert(t.take(18) =~= circ);
        } else if c == '~' {
            assert(t[5] == 'a');
            assert(t.take(16)[5] == t[5]);
            assert(t[10] == 't');
            if t.len() >= 18 {
                assert(t.take(18)[10] == t[10]);
            }
            assert(t.take(17) =~= tilde);
        } else {
            assert(t[1] == c);
            if t.len() >= 16 {
                assert(t.take(16)[1] == t[1]);
            }
            if t.len() >= 18 {
                assert(t.take(18)[1] == t[1]);
            }
            if t.len() >= 17 {
                assert(t.take(17)[1] == t[1]);
            }
        }
    }
}

/// Escaping loses nothing and leaves no reserved character bare: escaped
/// text is read back as the text it came from.
pub proof fn lemma_unescape_escape(s: Seq<char>)
    ensures
        unescape_text(escape_text(s)) == Some(s),
    decreases s.len(),
{
    if s.len() == 0 {
    } else {
        let c = s[0];
        let rest = s.skip(1);
        assert(s =~= seq![c] + rest);
        lemma_escape_text_concat(seq![c], rest);
        lemma_escape_text_single(c);
        let t = escape_char(c) + escape_text(rest);
        assert(escape_text(s) == t);
        lemma_escape_char_len(c);
        lemma_escaped_head_of_escape(c, escape_text(rest));
        assert(t.skip(escape_char(c).len() as int) =~= escape_text(rest));
        lemma_unescape_escape(rest);
    }
}

} // verus!
