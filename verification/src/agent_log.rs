//! The agent's log file: one record per line. The agent appends the balance
//! it has just seen and, on its next round, reads back the last line.

use vstd::prelude::*;
use vstd::utf8::{decode_utf8, encode_utf8, valid_utf8};
use crate::chars::{to_chars, utf8_text};
use crate::lines::{has_sep, lemma_pieces_append, lemma_pieces_extend, line_pieces, line_text, strip_line_end};

verus! {

/// The line feed byte.
pub const LINE_FEED: u8 = 10;

/// What a line reader yields for one piece: its text when the piece is
/// valid UTF-8, nothing when it is not (the reader reports an error that the
/// agent skips).
pub open spec fn read_piece(piece: Seq<u8>) -> Option<Seq<char>> {
    if valid_utf8(piece) {
        Some(strip_line_end(decode_utf8(piece)))
    } else {
        None
    }
}

/// The text of the last readable piece.
pub open spec fn last_readable(pieces: Seq<Seq<u8>>) -> Option<Seq<char>>
    decreases pieces.len(),
{
    if pieces.len() == 0 {
        None
    } else {
        match read_piece(pieces.last()) {
            Some(t) => Some(t),
            None => last_readable(pieces.drop_last()),
        }
    }
}

/// The last entry of a log whose bytes are `content`: the last line that
/// reads as text, as `reader.lines().filter_map(Result::ok).last()` gives it.
pub open spec fn last_entry(content: Seq<u8>) -> Option<Seq<char>> {
    last_readable(line_pieces(content, LINE_FEED))
}

/// The bytes that one `writeln!` of `item` appends to the log.
pub open spec fn record_bytes(item: Seq<char>) -> Seq<u8> {
    encode_utf8(item).push(LINE_FEED)
}

/// Reads one piece of the log as a line of text.
pub fn read_log_piece(piece: &[u8]) -> (r: Option<String>)
    ensures
        r matches Some(s) ==> read_piece(piece@) == Some(s@),
        r is None ==> read_piece(piece@) is None,
{
    match utf8_text(piece) {
        None => None,
        Some(text) => {
            let cs = to_chars(text);
            let line = line_text(&cs, 0, cs.len());
            assert(cs@.subrange(0, cs.len() as int) =~= cs@);
            Some(line)
        }
    }
}

/// The last entry of the log whose bytes are `content`, as
/// `BufReader::new(file).lines().filter_map(Result::ok).last()` reads it.
pub fn last_log_entry(content: &[u8]) -> (r: Option<String>)
    ensures
        r matches Some(s) ==> last_entry(content@) == Some(s@),
        r is None ==> last_entry(content@) is None,
{
    let n = content.len();
    let mut last: Option<String> = None;
    let mut start: usize = 0;
    let mut i: usize = 0;
    while i < n
        invariant
            n == content@.len(),
            start <= i <= n,
            start == 0 || content@[start - 1] == LINE_FEED,
            !has_sep(content@, LINE_FEED, start as int, i as int),
            last matches Some(s) ==> last_readable(line_pieces(content@.take(start as int), LINE_FEED)) == Some(s@),
            last is None ==> last_readable(line_pieces(content@.take(start as int), LINE_FEED)) is None,
        decreases n - i,
    {
        if content[i] == LINE_FEED {
            let piece = &content[start..i + 1];
            proof {
                lemma_pieces_extend(content@, LINE_FEED, start as int, i + 1);
                let ps = line_pieces(content@.take(i + 1), LINE_FEED);
                assert(ps.last() == piece@);
                assert(ps.drop_last() == line_pieces(content@.take(start as int), LINE_FEED));
            }
            match read_log_piece(piece) {
                Some(line) => {
                    last = Some(line);
                }
                None => {}
            }
            start = i + 1;
        }
        i += 1;
    }
    if start < n {
        let piece = &content[start..n];
        proof {
            lemma_pieces_extend(content@, LINE_FEED, start as int, n as int);
            let ps = line_pieces(content@.take(n as int), LINE_FEED);
            assert(ps.last() == piece@);
            assert(ps.drop_last() == line_pieces(content@.take(start as int), LINE_FEED));
        }
        match read_log_piece(piece) {
            Some(line) => {
                last = Some(line);
            }
            None => {}
        }
    }
    assert(content@.take(n as int) =~= content@);
    last
}

/// The bytes `writeln!(file, "{}", item)` appends to the log.
pub fn log_record(item: &str) -> (r: Vec<u8>)
    ensures
        r@ == record_bytes(item@),
{
    let mut r = vstd::slice::slice_to_vec(item.as_bytes());
    r.push(LINE_FEED);
    r
}

proof fn lemma_encode_concat(a: Seq<char>, b: Seq<char>)
    ensures
        encode_utf8(a + b) == encode_utf8(a) + encode_utf8(b),
    decreases a.len(),
{
    if a.len() > 0 {
        lemma_encode_concat(a.drop_first(), b);
        assert((a + b).drop_first() =~= a.drop_first() + b);
        assert((a + b)[0] == a[0]);
        assert(encode_utf8(a + b) =~= encode_utf8(a) + encode_utf8(b));
    } else {
        assert(a + b =~= b);
        assert(encode_utf8(a) + encode_utf8(b) =~= encode_utf8(b));
    }
}

proof fn lemma_multibyte_not_line_feed(x: u32)
    by (bit_vector)
    ensures
        (0xC0u8 | ((x >> 6) & 0x1F) as u8) != 10u8,
        (0xE0u8 | ((x >> 12) & 0x0F) as u8) != 10u8,
        (0xF0u8 | ((x >> 18) & 0x7) as u8) != 10u8,
        (0x80u8 | (x & 0x3F) as u8) != 10u8,
        (0x80u8 | ((x >> 6) & 0x3F) as u8) != 10u8,
        (0x80u8 | ((x >> 12) & 0x3F) as u8) != 10u8,
{
}

proof fn lemma_encode_no_line_feed(item: Seq<char>)
    requires
        !item.contains('\n'),
    ensures
        !encode_utf8(item).contains(LINE_FEED),
    decreases item.len(),
{
    if item.len() > 0 {
        let c = item[0];
        assert(!item.drop_first().contains('\n')) by {
            if item.drop_first().contains('\n') {
                let k = choose|k: int| 0 <= k < item.drop_first().len() && item.drop_first()[k] == '\n';
                assert(item[k + 1] == '\n');
            }
        }
        lemma_encode_no_line_feed(item.drop_first());
        let v = c as u32;
        assert(c != '\n');
        assert(v != 10) by {
            if v == 10 {
                vstd::utf8::char_u32_cast(c, v);
                vstd::utf8::char_u32_cast('\n', 10u32);
            }
        }
        vstd::utf8::char_is_scalar(c);
        let e = vstd::utf8::encode_scalar(v);
        assert(!e.contains(LINE_FEED)) by {
            if v <= 0x7F {
                assert((v & 0x7F) as u8 != 10u8) by (bit_vector)
                    requires v <= 0x7F, v != 10;
            } else {
                lemma_multibyte_not_line_feed(v);
            }
        }
        let rest = encode_utf8(item.drop_first());
        assert(encode_utf8(item) == e + rest);
        if (e + rest).contains(LINE_FEED) {
            let k = choose|k: int| 0 <= k < (e + rest).len() && (e + rest)[k] == LINE_FEED;
            if k < e.len() {
                assert(e[k] == LINE_FEED);
            } else {
                assert(rest[k - e.len()] == LINE_FEED);
            }
        }
    }
}

/// What the agent appends to its log, it reads back: after appending the
/// record of `item` to a log that is empty or ends with a line feed, the
/// last entry is `item`, provided `item` is one line (no line feed) that does
/// not end with a carriage return.
pub proof fn law_last_entry_after_append(content: Seq<u8>, item: Seq<char>)
    requires
        content.len() == 0 || content.last() == LINE_FEED,
        !item.contains('\n'),
        !(item.len() > 0 && item.last() == '\r'),
    ensures
        last_entry(content + record_bytes(item)) == Some(item),
{
    let line = item.push('\n');
    lemma_encode_concat(item, seq!['\n']);
    assert(item + seq!['\n'] =~= line);
    assert(encode_utf8(seq!['\n']) =~= seq![LINE_FEED]) by {
        let w: u32 = '\n' as u32;
        assert(w == 10);
        assert((w & 0x7F) as u8 == 10u8) by (bit_vector)
            requires w == 10u32;
        assert(seq!['\n'].drop_first() =~= Seq::<char>::empty());
        assert(seq!['\n'][0] as u32 == w);
        assert(vstd::utf8::encode_scalar(w) =~= seq![10u8]);
        assert(encode_utf8(Seq::<char>::empty()) =~= Seq::<u8>::empty());
        assert(encode_utf8(seq!['\n']) =~= vstd::utf8::encode_scalar(w) + encode_utf8(Seq::<char>::empty()));
    }
    let rec = record_bytes(item);
    assert(rec =~= encode_utf8(line));
    lemma_encode_no_line_feed(item);
    assert(!has_sep(rec, LINE_FEED, 0, rec.len() - 1)) by {
        if has_sep(rec, LINE_FEED, 0, rec.len() - 1) {
            let k = choose|k: int| 0 <= k < rec.len() - 1 && rec[k] == LINE_FEED;
            assert(encode_utf8(item)[k] == LINE_FEED);
        }
    }
    lemma_pieces_append(content, rec, LINE_FEED);
    vstd::utf8::encode_utf8_valid_utf8(line);
    vstd::utf8::encode_utf8_decode_utf8(line);
    assert(line.drop_last() =~= item);
}

/// A line of the log that is not UTF-8 is skipped: appending such a line
/// (ended by its only line feed) to a log that is empty or ends with a line
/// feed leaves the last entry as it was. An empty log has no last entry.
pub proof fn law_last_entry_skips_unreadable(content: Seq<u8>, piece: Seq<u8>)
    requires
        content.len() == 0 || content.last() == LINE_FEED,
        piece.len() > 0,
        piece.last() == LINE_FEED,
        !has_sep(piece, LINE_FEED, 0, piece.len() - 1),
        !valid_utf8(piece),
    ensures
        last_entry(content + piece) == last_entry(content),
        last_entry(Seq::<u8>::empty()) is None,
{
    lemma_pieces_append(content, piece, LINE_FEED);
    let ps = line_pieces(content, LINE_FEED).push(piece);
    assert(ps.drop_last() =~= line_pieces(content, LINE_FEED));
    assert(ps.last() == piece);
    assert(line_pieces(Seq::<u8>::empty(), LINE_FEED) =~= Seq::<Seq<u8>>::empty());
}

} // verus!
