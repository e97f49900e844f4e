//! How text is cut into lines: every line ends at a line feed, except a last
//! line that has none; there is no empty last line. Both `BufRead::lines`
//! and `str::lines` read their input this way.

use vstd::prelude::*;
use crate::chars::string_from_range;

verus! {

/// Index of the last `sep` strictly before position `i` of `s`, or `-1`.
pub open spec fn last_sep_before<A>(s: Seq<A>, sep: A, i: int) -> int
    decreases i,
{
    if i <= 0 {
        -1
    } else if s[i - 1] == sep {
        i - 1
    } else {
        last_sep_before(s, sep, i - 1)
    }
}

pub proof fn lemma_last_sep_bounds<A>(s: Seq<A>, sep: A, i: int)
    ensures
        -1 <= last_sep_before(s, sep, i),
        i > 0 ==> last_sep_before(s, sep, i) < i,
        i <= 0 ==> last_sep_before(s, sep, i) == -1,
    decreases i,
{
    if i > 0 && s[i - 1] != sep {
        lemma_last_sep_bounds(s, sep, i - 1);
    }
}

/// The pieces that a line reader consumes from `s`: each ends with `sep`
/// except possibly the last, and none is empty.
pub open spec fn line_pieces<A>(s: Seq<A>, sep: A) -> Seq<Seq<A>>
    decreases s.len(),
{
    if s.len() == 0 {
        seq![]
    } else {
        let j = last_sep_before(s, sep, s.len() - 1);
        proof {
            lemma_last_sep_bounds(s, sep, s.len() - 1);
        }
        line_pieces(s.take(j + 1), sep).push(s.skip(j + 1))
    }
}

/// Whether `sep` occurs in `s[from..to]`.
pub open spec fn has_sep<A>(s: Seq<A>, sep: A, from: int, to: int) -> bool {
    exists|k: int| from <= k < to && s[k] == sep
}

proof fn lemma_last_sep_take<A>(s: Seq<A>, sep: A, m: int, i: int)
    requires
        0 <= i <= m <= s.len(),
    ensures
        last_sep_before(s.take(m), sep, i) == last_sep_before(s, sep, i),
    decreases i,
{
    if i > 0 {
        lemma_last_sep_take(s, sep, m, i - 1);
    }
}

proof fn lemma_last_sep_is<A>(s: Seq<A>, sep: A, start: int, i: int)
    requires
        0 <= start <= i <= s.len(),
        start == 0 || s[start - 1] == sep,
        !has_sep(s, sep, start, i),
    ensures
        last_sep_before(s, sep, i) == start - 1,
    decreases i,
{
    if i > start {
        assert(s[i - 1] != sep);
        lemma_last_sep_is(s, sep, start, i - 1);
    } else if start > 0 {
    }
}

/// Cutting `s` at a piece boundary `start`, and reading on to position
/// `end` with no separator in `s[start..end - 1]`, adds the one piece
/// `s[start..end]`.
pub proof fn lemma_pieces_extend<A>(s: Seq<A>, sep: A, start: int, end: int)
    requires
        0 <= start < end <= s.len(),
        start == 0 || s[start - 1] == sep,
        !has_sep(s, sep, start, end - 1),
    ensures
        line_pieces(s.take(end), sep) == line_pieces(s.take(start), sep).push(
            s.subrange(start, end),
        ),
{
    let t = s.take(end);
    lemma_last_sep_take(s, sep, end, end - 1);
    lemma_last_sep_is(s, sep, start, end - 1);
    assert(last_sep_before(t, sep, t.len() - 1) == start - 1);
    assert(t.take(start) =~= s.take(start));
    assert(t.skip(start) =~= s.subrange(start, end));
}

/// Appending one piece that ends with the only separator it holds to a text
/// that is empty or ends with a separator adds exactly that piece.
pub proof fn lemma_pieces_append<A>(s: Seq<A>, piece: Seq<A>, sep: A)
    requires
        s.len() == 0 || s.last() == sep,
        piece.len() > 0,
        piece.last() == sep,
        !has_sep(piece, sep, 0, piece.len() - 1),
    ensures
        line_pieces(s + piece, sep) == line_pieces(s, sep).push(piece),
{
    let t = s + piece;
    let start = s.len() as int;
    assert forall|k: int| start <= k < t.len() - 1 implies t[k] != sep by {
        assert(t[k] == piece[k - start]);
        if t[k] == sep {
            assert(has_sep(piece, sep, 0, piece.len() - 1));
        }
    }
    lemma_pieces_extend(t, sep, start, t.len() as int);
    assert(t.take(t.len() as int) =~= t);
    assert(t.take(start) =~= s);
    assert(t.subrange(start, t.len() as int) =~= piece);
}

/// The text of a line: without its final line feed, and without a carriage
/// return just before that line feed.
pub open spec fn strip_line_end(t: Seq<char>) -> Seq<char> {
    if t.len() > 0 && t.last() == '\n' {
        let u = t.drop_last();
        if u.len() > 0 && u.last() == '\r' {
            u.drop_last()
        } else {
            u
        }
    } else {
        t
    }
}

/// The text of the line `cs[from..to]`.
pub fn line_text(cs: &Vec<char>, from: usize, to: usize) -> (r: String)
    requires
        from <= to <= cs.len(),
    ensures
        r@ == strip_line_end(cs@.subrange(from as int, to as int)),
{
    let mut end = to;
    if end > from && cs[end - 1] == '\n' {
        end = end - 1;
        if end > from && cs[end - 1] == '\r' {
            end = end - 1;
        }
    }
    let r = string_from_range(cs, from, end);
    proof {
        let t = cs@.subrange(from as int, to as int);
        if t.len() > 0 && t.last() == '\n' {
            assert(t.drop_last() =~= cs@.subrange(from as int, to - 1));
            let u = t.drop_last();
            if u.len() > 0 && u.last() == '\r' {
                assert(u.drop_last() =~= cs@.subrange(from as int, to - 2));
            }
        }
    }
    r
}

} // verus!
