//! Text as a sequence of characters: what strings hold, how parts are
//! joined with a separator, and where one text stands within another.

use vstd::prelude::*;

verus! {

/// The texts that a list of strings holds, in the order of the list.
pub open spec fn texts(values: Seq<String>) -> Seq<Seq<char>> {
    Seq::new(values.len(), |i: int| values[i]@)
}

/// The text that an optional string holds, if it holds one.
pub open spec fn optional_text(value: Option<String>) -> Option<Seq<char>> {
    match value {
        Some(s) => Some(s@),
        None => None,
    }
}

/// The parts in their order, with `sep` between each two neighbours. No
/// part gives the empty text, and one part gives that part alone.
pub open spec fn join_text(parts: Seq<Seq<char>>, sep: Seq<char>) -> Seq<char>
    decreases parts.len(),
{
    if parts.len() == 0 {
        Seq::empty()
    } else if parts.len() == 1 {
        parts[0]
    } else {
        join_text(parts.drop_last(), sep) + sep + parts.last()
    }
}

/// Where part `i` begins in `join_text(parts, sep)`: behind all earlier
/// parts, each followed by one separator.
pub open spec fn join_offset(parts: Seq<Seq<char>>, sep: Seq<char>, i: int) -> int
    decreases i,
{
    if i <= 0 {
        0
    } else {
        join_offset(parts, sep, i - 1) + parts[i - 1].len() + sep.len()
    }
}

/// Whether `part` stands in `whole`, whole and unbroken, beginning at `at`.
pub open spec fn stands_at(whole: Seq<char>, at: int, part: Seq<char>) -> bool {
    0 <= at && at + part.len() <= whole.len() && whole.subrange(at, at + part.len()) == part
}

/// Whether `part` stands somewhere in `whole`, whole and unbroken.
pub open spec fn occurs_in(part: Seq<char>, whole: Seq<char>) -> bool {
    exists|at: int| stands_at(whole, at, part)
}

/// Joins `parts` with `sep` between each two neighbours.
pub fn join(parts: &Vec<String>, sep: &str) -> (out: String)
    ensures
        out@ == join_text(texts(parts@), sep@),
{
    let ghost all = texts(parts@);
    let mut out = String::new();
    let mut i: usize = 0;
    while i < parts.len()
        invariant
            i <= parts.len(),
            all == texts(parts@),
            out@ == join_text(all.take(i as int), sep@),
        decreases parts.len() - i,
    {
        if i > 0 {
            out.append(sep);
        }
        out.append(parts[i].as_str());
        proof {
            let next = all.take(i + 1);
            assert(next.drop_last() =~= all.take(i as int));
            assert(next.last() == parts@[i as int]@);
        }
        i += 1;
    }
    proof {
        assert(all.take(parts.len() as int) =~= all);
    }
    out
}

/// Where a part begins does not depend on the parts behind it.
proof fn lemma_join_offset_of_prefix(parts: Seq<Seq<char>>, sep: Seq<char>, n: int, i: int)
    requires
        0 <= i <= n <= parts.len(),
        i < parts.len(),
    ensures
        join_offset(parts.take(n), sep, i) == join_offset(parts, sep, i),
    decreases i,
{
    if i > 0 {
        lemma_join_offset_of_prefix(parts, sep, n, i - 1);
    }
}

/// No part begins before the start of the joined text.
proof fn lemma_join_offset_bounds(parts: Seq<Seq<char>>, sep: Seq<char>, i: int)
    ensures
        0 <= join_offset(parts, sep, i),
    decreases i,
{
    if i > 0 {
        lemma_join_offset_bounds(parts, sep, i - 1);
    }
}

/// The joined text ends with the last part, which begins at its offset.
pub proof fn lemma_join_text_len(parts: Seq<Seq<char>>, sep: Seq<char>)
    requires
        parts.len() > 0,
    ensures
        join_text(parts, sep).len() == join_offset(parts, sep, parts.len() - 1)
            + parts.last().len(),
    decreases parts.len(),
{
    if parts.len() > 1 {
        let front = parts.drop_last();
        lemma_join_text_len(front, sep);
        assert(front =~= parts.take(parts.len() - 1));
        lemma_join_offset_of_prefix(parts, sep, parts.len() - 1, parts.len() - 2);
        assert(front.last() == parts[parts.len() - 2]);
    }
}

/// Joining keeps every part whole and at its offset: part `i` stands in
/// the joined text as it is, beginning at `join_offset(parts, sep, i)`.
pub proof fn lemma_join_places_each_part(parts: Seq<Seq<char>>, sep: Seq<char>, i: int)
    requires
        0 <= i < parts.len(),
    ensures
        stands_at(join_text(parts, sep), join_offset(parts, sep, i), parts[i]),
    decreases parts.len(),
{
    let joined = join_text(parts, sep);
    let at = join_offset(parts, sep, i);
    lemma_join_offset_bounds(parts, sep, i);
    lemma_join_text_len(parts, sep);
    if parts.len() == 1 {
        assert(joined.subrange(0, parts[0].len() as int) =~= parts[0]);
    } else if i == parts.len() - 1 {
        assert(joined.subrange(at, at + parts[i].len()) =~= parts[i]);
    } else {
        let front = parts.drop_last();
        assert(front =~= parts.take(parts.len() - 1));
        lemma_join_places_each_part(front, sep, i);
        lemma_join_offset_of_prefix(parts, sep, parts.len() - 1, i);
        assert(joined.subrange(at, at + parts[i].len()) =~= join_text(front, sep).subrange(
            at,
            at + parts[i].len(),
        ));
    }
}

/// Between two neighbours stands the separator, and nothing else.
pub proof fn lemma_join_places_each_separator(parts: Seq<Seq<char>>, sep: Seq<char>, i: int)
    requires
        0 <= i < parts.len() - 1,
    ensures
        stands_at(join_text(parts, sep), join_offset(parts, sep, i) + parts[i].len(), sep),
        join_offset(parts, sep, i) + parts[i].len() + sep.len() == join_offset(parts, sep, i + 1),
    decreases parts.len(),
{
    let joined = join_text(parts, sep);
    let at = join_offset(parts, sep, i) + parts[i].len();
    let front = parts.drop_last();
    assert(front =~= parts.take(parts.len() - 1));
    lemma_join_offset_bounds(parts, sep, i);
    lemma_join_text_len(front, sep);
    lemma_join_offset_of_prefix(parts, sep, parts.len() - 1, i);
    if i == parts.len() - 2 {
        assert(front.last() == parts[i]);
        assert(joined.subrange(at, at + sep.len()) =~= sep);
    } else {
        lemma_join_places_each_separator(front, sep, i);
        assert(joined.subrange(at, at + sep.len()) =~= join_text(front, sep).subrange(
            at,
            at + sep.len(),
        ));
    }
}

/// Joining keeps the order of the parts: an earlier part, and the
/// separator behind it, end before a later part begins.
pub proof fn lemma_join_keeps_order(parts: Seq<Seq<char>>, sep: Seq<char>, i: int, j: int)
    requires
        0 <= i < j < parts.len(),
    ensures
        join_offset(parts, sep, i) + parts[i].len() + sep.len() <= join_offset(parts, sep, j),
    decreases j,
{
    if i < j - 1 {
        lemma_join_keeps_order(parts, sep, i, j - 1);
    }
}

/// A text stands in every text built around it.
pub proof fn lemma_occurs_in_middle(before: Seq<char>, part: Seq<char>, after: Seq<char>)
    ensures
        stands_at(before + part + after, before.len() as int, part),
        occurs_in(part, before + part + after),
{
    let whole = before + part + after;
    let at = before.len() as int;
    assert(whole.subrange(at, at + part.len()) =~= part);
    assert(stands_at(whole, at, part));
}

/// What stands in a part of a text stands in the text.
pub proof fn lemma_occurs_in_transitive(a: Seq<char>, b: Seq<char>, c: Seq<char>)
    requires
        occurs_in(a, b),
        occurs_in(b, c),
    ensures
        occurs_in(a, c),
{
    let i = choose|at: int| stands_at(b, at, a);
    let j = choose|at: int| stands_at(c, at, b);
    assert(c.subrange(i + j, i + j + a.len()) =~= c.subrange(j, j + b.len()).subrange(
        i,
        i + a.len(),
    ));
    assert(stands_at(c, i + j, a));
}

} // verus!
