//! Cleaning the campaign text that the language model returns before it is
//! published: surrounding white space and one pair of matching quotes go.

use vstd::prelude::*;
use vstd::string::StrSliceExecFns;
use crate::chars::to_chars;

verus! {

/// The Unicode `White_Space` property, which `char::is_whitespace` tests.
pub open spec fn is_white_space(c: char) -> bool {
    ||| '\u{9}' <= c <= '\u{d}'
    ||| c == ' '
    ||| c == '\u{85}'
    ||| c == '\u{a0}'
    ||| c == '\u{1680}'
    ||| '\u{2000}' <= c <= '\u{200a}'
    ||| c == '\u{2028}'
    ||| c == '\u{2029}'
    ||| c == '\u{202f}'
    ||| c == '\u{205f}'
    ||| c == '\u{3000}'
}

/// `s` without its leading white space.
pub open spec fn trim_start(s: Seq<char>) -> Seq<char>
    decreases s.len(),
{
    if s.len() > 0 && is_white_space(s[0]) {
        trim_start(s.drop_first())
    } else {
        s
    }
}

/// `s` without its trailing white space.
pub open spec fn trim_end(s: Seq<char>) -> Seq<char>
    decreases s.len(),
{
    if s.len() > 0 && is_white_space(s.last()) {
        trim_end(s.drop_last())
    } else {
        s
    }
}

/// `s` without leading and trailing white space, as `str::trim` gives it.
pub open spec fn trimmed(s: Seq<char>) -> Seq<char> {
    trim_end(trim_start(s))
}

/// Whether `s` starts and ends with the same quote character, `"` or `'`.
pub open spec fn is_quoted(s: Seq<char>) -> bool {
    s.len() > 0 && ((s[0] == '"' && s.last() == '"') || (s[0] == '\'' && s.last() == '\''))
}

/// Whether `s` is a lone quote character: it would be both the opening and
/// the closing quote, so removing a pair of quotes has no meaning there.
pub open spec fn is_lone_quote(s: Seq<char>) -> bool {
    s.len() == 1 && (s[0] == '"' || s[0] == '\'')
}

/// `s` without one pair of surrounding quotes, if it has them.
pub open spec fn unquoted(s: Seq<char>) -> Seq<char> {
    if is_quoted(s) {
        s.subrange(1, s.len() - 1)
    } else {
        s
    }
}

/// The text that is published for a model answer `s`.
pub open spec fn cleaned_post(s: Seq<char>) -> Seq<char> {
    unquoted(trimmed(s))
}

/// `char::is_whitespace`.
pub fn is_white_space_char(c: char) -> (b: bool)
    ensures
        b == is_white_space(c),
{
    ('\u{9}' <= c && c <= '\u{d}') || c == ' ' || c == '\u{85}' || c == '\u{a0}' || c == '\u{1680}'
        || ('\u{2000}' <= c && c <= '\u{200a}') || c == '\u{2028}' || c == '\u{2029}'
        || c == '\u{202f}' || c == '\u{205f}' || c == '\u{3000}'
}

/// `s` without leading and trailing white space (`str::trim`).
pub fn trim(s: &str) -> (r: &str)
    ensures
        r@ == trimmed(s@),
{
    let cs = to_chars(s);
    let n = cs.len();
    let mut i: usize = 0;
    assert(s@.subrange(0, n as int) =~= s@);
    while i < n && is_white_space_char(cs[i])
        invariant
            i <= n == cs.len(),
            cs@ == s@,
            trim_start(s@) == trim_start(s@.subrange(i as int, n as int)),
        decreases n - i,
    {
        assert(s@.subrange(i as int, n as int).drop_first() =~= s@.subrange(i + 1, n as int));
        i += 1;
    }
    assert(trim_start(s@) == s@.subrange(i as int, n as int));
    let mut j: usize = n;
    while j > i && is_white_space_char(cs[j - 1])
        invariant
            i <= j <= n == cs.len(),
            cs@ == s@,
            trimmed(s@) == trim_end(s@.subrange(i as int, j as int)),
        decreases j,
    {
        assert(s@.subrange(i as int, j as int).drop_last() =~= s@.subrange(i as int, j - 1));
        j -= 1;
    }
    assert(trimmed(s@) == s@.subrange(i as int, j as int));
    s.substring_char(i, j)
}

/// `s` without one pair of surrounding matching quotes (`"` or `'`).
pub fn remove_quotes(s: &str) -> (r: &str)
    requires
        !is_lone_quote(s@),
    ensures
        r@ == unquoted(s@),
{
    let n = s.unicode_len();
    if n > 0 {
        let first = s.get_char(0);
        let last = s.get_char(n - 1);
        if (first == '"' && last == '"') || (first == '\'' && last == '\'') {
            return s.substring_char(1, n - 1);
        }
    }
    assert(s@.subrange(0, s@.len() as int) =~= s@);
    s
}

/// The text published for a model answer: trimmed, then unquoted.
pub fn clean_post(answer: &str) -> (r: &str)
    requires
        !is_lone_quote(trimmed(answer@)),
    ensures
        r@ == cleaned_post(answer@),
{
    remove_quotes(trim(answer))
}

/// One pair of surrounding quotes goes: a text of at least two characters
/// that starts and ends with the same quote character, `"` or `'`, loses its
/// first and last characters, whatever stands between them; any other text
/// (but a lone quote) stays as it is.
pub proof fn law_unquoted(s: Seq<char>)
    requires
        !is_lone_quote(s),
    ensures
        s.len() >= 2 && (s[0] == '"' || s[0] == '\'') && s.last() == s[0] ==> unquoted(s) == s.subrange(1, s.len() - 1),
        !(s.len() >= 2 && (s[0] == '"' || s[0] == '\'') && s.last() == s[0]) ==> unquoted(s) == s,
{
}

proof fn lemma_trim_start(s: Seq<char>)
    ensures
        exists|i: int| 0 <= i <= s.len() && trim_start(s) == s.skip(i)
            && (forall|k: int| 0 <= k < i ==> is_white_space(#[trigger] s[k])),
        trim_start(s).len() > 0 ==> !is_white_space(trim_start(s)[0]),
    decreases s.len(),
{
    if s.len() > 0 && is_white_space(s[0]) {
        lemma_trim_start(s.drop_first());
        let i = choose|i: int| 0 <= i <= s.drop_first().len() && trim_start(s.drop_first()) == s.drop_first().skip(i)
            && (forall|k: int| 0 <= k < i ==> is_white_space(#[trigger] s.drop_first()[k]));
        assert(s.drop_first().skip(i) =~= s.skip(i + 1));
        assert forall|k: int| 0 <= k < i + 1 implies is_white_space(#[trigger] s[k]) by {
            if k > 0 {
                assert(s[k] == s.drop_first()[k - 1]);
            }
        }
    } else {
        assert(s.skip(0) =~= s);
    }
}

proof fn lemma_trim_end(s: Seq<char>)
    ensures
        exists|j: int| 0 <= j <= s.len() && trim_end(s) == s.take(j)
            && (forall|k: int| j <= k < s.len() ==> is_white_space(#[trigger] s[k])),
        trim_end(s).len() > 0 ==> !is_white_space(trim_end(s).last()),
    decreases s.len(),
{
    if s.len() > 0 && is_white_space(s.last()) {
        lemma_trim_end(s.drop_last());
        let j = choose|j: int| 0 <= j <= s.drop_last().len() && trim_end(s.drop_last()) == s.drop_last().take(j)
            && (forall|k: int| j <= k < s.drop_last().len() ==> is_white_space(#[trigger] s.drop_last()[k]));
        assert(s.drop_last().take(j) =~= s.take(j));
        assert forall|k: int| j <= k < s.len() implies is_white_space(#[trigger] s[k]) by {
            if k < s.len() - 1 {
                assert(s[k] == s.drop_last()[k]);
            }
        }
    } else {
        assert(s.take(s.len() as int) =~= s);
    }
}

/// Trimming keeps the part of the text between its leading and its
/// trailing white space: the result is `s[i..j]` for some `i <= j`, every
/// character before `i` and from `j` on is white space, and the result
/// neither starts nor ends with white space.
pub proof fn law_trimmed(s: Seq<char>)
    ensures
        exists|i: int, j: int| 0 <= i <= j <= s.len() && trimmed(s) == s.subrange(i, j)
            && (forall|k: int| 0 <= k < i ==> is_white_space(#[trigger] s[k]))
            && (forall|k: int| j <= k < s.len() ==> is_white_space(#[trigger] s[k])),
        trimmed(s).len() > 0 ==> !is_white_space(trimmed(s)[0]) && !is_white_space(trimmed(s).last()),
{
    lemma_trim_start(s);
    let t = trim_start(s);
    let i = choose|i: int| 0 <= i <= s.len() && trim_start(s) == s.skip(i)
        && (forall|k: int| 0 <= k < i ==> is_white_space(#[trigger] s[k]));
    lemma_trim_end(t);
    let j = choose|j: int| 0 <= j <= t.len() && trim_end(t) == t.take(j)
        && (forall|k: int| j <= k < t.len() ==> is_white_space(#[trigger] t[k]));
    assert(trimmed(s) =~= s.subrange(i, i + j));
    assert forall|k: int| i + j <= k < s.len() implies is_white_space(#[trigger] s[k]) by {
        assert(s[k] == t[k - i]);
    }
    if trimmed(s).len() > 0 {
        assert(trimmed(s)[0] == t[0]);
    }
}

/// The published text of an answer is the answer trimmed, then without one
/// pair of surrounding quotes.
pub proof fn law_cleaned_post(answer: Seq<char>)
    requires
        !is_lone_quote(trimmed(answer)),
    ensures
        cleaned_post(answer) == unquoted(trimmed(answer)),
{
}

} // verus!
