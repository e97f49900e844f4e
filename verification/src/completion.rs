//! The streamed chat completion that the language model service sends:
//! server-sent-event lines, whose `data:` payloads are completion chunks, and
//! the answer assembled from the chunks' content deltas.

use vstd::prelude::*;
use vstd::string::StringExecFns;
use vstd::utf8::{decode_utf8, valid_utf8};
use crate::chars::{string_from_range, to_chars};
use crate::lines::{has_sep, lemma_pieces_append, lemma_pieces_extend, line_pieces, line_text, strip_line_end};

verus! {

/// A campaign as the model may describe it.
#[derive(Clone, Debug, PartialEq, Eq)]
pub struct CampaignResponse {
    pub campaign_text: String,
    pub developer_questions: String,
}

/// One chunk of a streamed chat completion.
#[derive(Clone, Debug, PartialEq, Eq)]
pub struct ChatCompletion {
    pub id: String,
    pub object: String,
    pub created: u64,
    pub model: String,
    pub choices: Vec<Choice>,
    pub usage: Usage,
}

/// One choice of a completion chunk.
#[derive(Clone, Debug, PartialEq, Eq)]
pub struct Choice {
    pub index: u32,
    pub finish_reason: Option<String>,
    pub delta: Delta,
    pub nostr_notes: Option<String>,
}

/// The text a choice adds to the answer.
#[derive(Clone, Debug, PartialEq, Eq)]
pub struct Delta {
    pub role: String,
    pub content: String,
    pub reasoning_content: Option<String>,
    pub tool_calls: Option<String>,
}

/// Token accounting of a completion.
#[derive(Clone, Debug, PartialEq, Eq)]
pub struct Usage {
    pub prompt_tokens: u32,
    pub completion_tokens: u32,
    pub total_tokens: u32,
}

/// A line of the event stream: a `data:` line with its payload, or any
/// other line.
#[derive(Clone, Debug, PartialEq, Eq)]
pub enum StreamLine {
    Data(String),
    Other(String),
}

/// The abstract value of a [`StreamLine`].
pub enum StreamLineView {
    Data(Seq<char>),
    Other(Seq<char>),
}

impl View for StreamLine {
    type V = StreamLineView;

    open spec fn view(&self) -> StreamLineView {
        match self {
            StreamLine::Data(s) => StreamLineView::Data(s@),
            StreamLine::Other(s) => StreamLineView::Other(s@),
        }
    }
}

/// The marker that starts a data line.
pub open spec fn data_prefix() -> Seq<char> {
    seq!['d', 'a', 't', 'a', ':']
}

/// How one line of the stream is read.
pub open spec fn classify(line: Seq<char>) -> StreamLineView {
    if line.len() >= 5 && line.take(5) == data_prefix() {
        StreamLineView::Data(line.skip(5))
    } else {
        StreamLineView::Other(line)
    }
}

/// The lines of `text` as `str::lines` yields them.
pub open spec fn text_lines(text: Seq<char>) -> Seq<Seq<char>> {
    line_pieces(text, '\n').map_values(|p: Seq<char>| strip_line_end(p))
}

/// The stream lines of `text`, in order.
pub open spec fn stream_lines(text: Seq<char>) -> Seq<StreamLineView> {
    text_lines(text).map_values(|l: Seq<char>| classify(l))
}

/// What `String::from_utf8_lossy` makes of `bytes`: valid UTF-8 is decoded,
/// and each invalid sequence is replaced by U+FFFD.
pub uninterp spec fn utf8_lossy(bytes: Seq<u8>) -> Seq<char>;

/// `String::from_utf8_lossy`: the result is named by [`utf8_lossy`]; on valid
/// UTF-8 it is the decoded text. Which replacement characters stand for an
/// invalid input is left to the name.
#[verifier::external_body]
fn lossy_text(bytes: &[u8]) -> (r: String)
    ensures
        r@ == utf8_lossy(bytes@),
        valid_utf8(bytes@) ==> r@ == decode_utf8(bytes@),
{
    String::from_utf8_lossy(bytes).into_owned()
}

fn classify_line(cs: &Vec<char>, from: usize, to: usize) -> (r: StreamLine)
    requires
        from <= to <= cs.len(),
    ensures
        r@ == classify(strip_line_end(cs@.subrange(from as int, to as int))),
{
    let line = line_text(cs, from, to);
    let lc = to_chars(line.as_str());
    let n = lc.len();
    if n >= 5 && lc[0] == 'd' && lc[1] == 'a' && lc[2] == 't' && lc[3] == 'a' && lc[4] == ':' {
        assert(lc@.take(5) =~= data_prefix());
        let payload = string_from_range(&lc, 5, n);
        assert(lc@.skip(5) =~= lc@.subrange(5, n as int));
        StreamLine::Data(payload)
    } else {
        assert(!(lc@.len() >= 5 && lc@.take(5) == data_prefix())) by {
            if lc@.len() >= 5 && lc@.take(5) == data_prefix() {
                assert(lc@.take(5)[0] == 'd');
                assert(lc@.take(5)[1] == 'a');
                assert(lc@.take(5)[2] == 't');
                assert(lc@.take(5)[3] == 'a');
                assert(lc@.take(5)[4] == ':');
            }
        }
        StreamLine::Other(line)
    }
}

/// The lines of one decoded chunk of the stream.
pub fn text_stream_lines(text: &str) -> (r: Vec<StreamLine>)
    ensures
        r@.map_values(|l: StreamLine| l@) == stream_lines(text@),
{
    let cs = to_chars(text);
    let n = cs.len();
    let mut r: Vec<StreamLine> = Vec::new();
    let mut start: usize = 0;
    let mut i: usize = 0;
    while i < n
        invariant
            n == cs.len(),
            cs@ == text@,
            start <= i <= n,
            start == 0 || cs@[start - 1] == '\n',
            !has_sep(cs@, '\n', start as int, i as int),
            r@.map_values(|l: StreamLine| l@) == stream_lines(cs@.take(start as int)),
        decreases n - i,
    {
        if cs[i] == '\n' {
            let line = classify_line(&cs, start, i + 1);
            proof {
                lemma_pieces_extend(cs@, '\n', start as int, i + 1);
                let old_r = r@.map_values(|l: StreamLine| l@);
                assert(stream_lines(cs@.take(i + 1)) =~= stream_lines(cs@.take(start as int)).push(line@));
            }
            let ghost prev = r@;
            r.push(line);
            assert(r@.map_values(|l: StreamLine| l@) =~= prev.map_values(|l: StreamLine| l@).push(line@));
            start = i + 1;
        }
        i += 1;
    }
    if start < n {
        let line = classify_line(&cs, start, n);
        proof {
            lemma_pieces_extend(cs@, '\n', start as int, n as int);
            assert(stream_lines(cs@.take(n as int)) =~= stream_lines(cs@.take(start as int)).push(line@));
        }
        let ghost prev = r@;
        r.push(line);
        assert(r@.map_values(|l: StreamLine| l@) =~= prev.map_values(|l: StreamLine| l@).push(line@));
    }
    assert(cs@.take(n as int) =~= cs@);
    r
}

/// The lines of one raw chunk of the stream, decoded as
/// `String::from_utf8_lossy` decodes it.
pub fn chunk_stream_lines(chunk: &[u8]) -> (r: Vec<StreamLine>)
    ensures
        r@.map_values(|l: StreamLine| l@) == stream_lines(utf8_lossy(chunk@)),
        valid_utf8(chunk@) ==> r@.map_values(|l: StreamLine| l@) == stream_lines(decode_utf8(chunk@)),
{
    let text = lossy_text(chunk);
    text_stream_lines(text.as_str())
}

/// The content that the choices `cs` add, in order.
pub open spec fn choices_content(cs: Seq<Choice>) -> Seq<char>
    decreases cs.len(),
{
    if cs.len() == 0 {
        seq![]
    } else {
        choices_content(cs.drop_last()) + cs.last().delta.content@
    }
}

/// The answer that the completion chunks `cs` spell out: every choice's
/// content delta, chunk by chunk.
pub open spec fn answer_text(cs: Seq<ChatCompletion>) -> Seq<char>
    decreases cs.len(),
{
    if cs.len() == 0 {
        seq![]
    } else {
        answer_text(cs.drop_last()) + choices_content(cs.last().choices@)
    }
}

/// Appends the content deltas of `choices` to `r`, in order.
fn append_choices(r: &mut String, choices: &Vec<Choice>)
    ensures
        final(r)@ == old(r)@ + choices_content(choices@),
{
    let ghost before = r@;
    let mut j: usize = 0;
    while j < choices.len()
        invariant
            j <= choices.len(),
            r@ == before + choices_content(choices@.take(j as int)),
        decreases choices.len() - j,
    {
        r.append(choices[j].delta.content.as_str());
        assert(choices@.take(j + 1).drop_last() =~= choices@.take(j as int));
        assert(r@ =~= before + choices_content(choices@.take(j + 1)));
        j += 1;
    }
    assert(choices@.take(choices.len() as int) =~= choices@);
}

/// Concatenates the content deltas of all choices of all chunks.
pub fn assemble_answer(completions: &Vec<ChatCompletion>) -> (r: String)
    ensures
        r@ == answer_text(completions@),
{
    let mut r = String::new();
    let mut i: usize = 0;
    while i < completions.len()
        invariant
            i <= completions.len(),
            r@ == answer_text(completions@.take(i as int)),
        decreases completions.len() - i,
    {
        append_choices(&mut r, &completions[i].choices);
        assert(completions@.take(i + 1).drop_last() =~= completions@.take(i as int));
        i += 1;
    }
    assert(completions@.take(completions.len() as int) =~= completions@);
    r
}

/// The payloads of the data lines among `lines`, in order.
pub open spec fn data_payloads(lines: Seq<StreamLineView>) -> Seq<Seq<char>>
    decreases lines.len(),
{
    if lines.len() == 0 {
        seq![]
    } else {
        match lines.last() {
            StreamLineView::Data(p) => data_payloads(lines.drop_last()).push(p),
            StreamLineView::Other(_) => data_payloads(lines.drop_last()),
        }
    }
}

/// The payloads of the data lines among `lines`, in order.
pub fn data_payloads_of(lines: &Vec<StreamLine>) -> (r: Vec<String>)
    ensures
        r@.map_values(|s: String| s@) == data_payloads(lines@.map_values(|l: StreamLine| l@)),
{
    let mut r: Vec<String> = Vec::new();
    let mut i: usize = 0;
    while i < lines.len()
        invariant
            i <= lines.len(),
            r@.map_values(|s: String| s@) == data_payloads(lines@.map_values(|l: StreamLine| l@).take(i as int)),
        decreases lines.len() - i,
    {
        let ghost views = lines@.map_values(|l: StreamLine| l@);
        assert(views.take(i + 1).drop_last() =~= views.take(i as int));
        assert(views.take(i + 1).last() == lines@[i as int]@);
        match &lines[i] {
            StreamLine::Data(p) => {
                let ghost prev = r@;
                r.push(p.clone());
                assert(r@.map_values(|s: String| s@) =~= prev.map_values(|s: String| s@).push(p@));
            },
            StreamLine::Other(_) => {},
        }
        i += 1;
    }
    assert(lines@.map_values(|l: StreamLine| l@).take(lines.len() as int) =~= lines@.map_values(|l: StreamLine| l@));
    r
}

/// The chunks that parsed, in order: a payload that is no completion chunk
/// (`None`) adds nothing.
pub open spec fn parsed_chunks(outcomes: Seq<Option<ChatCompletion>>) -> Seq<ChatCompletion>
    decreases outcomes.len(),
{
    if outcomes.len() == 0 {
        seq![]
    } else {
        match outcomes.last() {
            Some(c) => parsed_chunks(outcomes.drop_last()).push(c),
            None => parsed_chunks(outcomes.drop_last()),
        }
    }
}

/// The answer spelled out by the data payloads of a stream, given what
/// parsing each payload as a completion chunk gave, in order: the content
/// deltas of the chunks that parsed.
pub fn answer_from_outcomes(outcomes: &Vec<Option<ChatCompletion>>) -> (r: String)
    ensures
        r@ == answer_text(parsed_chunks(outcomes@)),
{
    let mut r = String::new();
    let mut i: usize = 0;
    while i < outcomes.len()
        invariant
            i <= outcomes.len(),
            r@ == answer_text(parsed_chunks(outcomes@.take(i as int))),
        decreases outcomes.len() - i,
    {
        assert(outcomes@.take(i + 1).drop_last() =~= outcomes@.take(i as int));
        assert(outcomes@.take(i + 1).last() == outcomes@[i as int]);
        match &outcomes[i] {
            Some(c) => {
                append_choices(&mut r, &c.choices);
                let ghost ps = parsed_chunks(outcomes@.take(i + 1));
                assert(ps.drop_last() == parsed_chunks(outcomes@.take(i as int)));
                assert(ps.last() == *c);
            },
            None => {},
        }
        i += 1;
    }
    assert(outcomes@.take(outcomes.len() as int) =~= outcomes@);
    r
}

proof fn lemma_answer_concat(a: Seq<ChatCompletion>, b: Seq<ChatCompletion>)
    ensures
        answer_text(a + b) == answer_text(a) + answer_text(b),
    decreases b.len(),
{
    if b.len() == 0 {
        assert(a + b =~= a);
        assert(answer_text(a) + answer_text(b) =~= answer_text(a));
    } else {
        lemma_answer_concat(a, b.drop_last());
        assert((a + b).drop_last() =~= a + b.drop_last());
        assert((a + b).last() == b.last());
        assert(answer_text(a + b) =~= answer_text(a) + answer_text(b));
    }
}

proof fn lemma_parsed_concat(a: Seq<Option<ChatCompletion>>, b: Seq<Option<ChatCompletion>>)
    ensures
        parsed_chunks(a + b) == parsed_chunks(a) + parsed_chunks(b),
    decreases b.len(),
{
    if b.len() == 0 {
        assert(a + b =~= a);
        assert(parsed_chunks(a) + parsed_chunks(b) =~= parsed_chunks(a));
    } else {
        lemma_parsed_concat(a, b.drop_last());
        assert((a + b).drop_last() =~= a + b.drop_last());
        assert((a + b).last() == b.last());
        assert(parsed_chunks(a + b) =~= parsed_chunks(a) + parsed_chunks(b));
    }
}

/// Reading a stream in two parts gives the answer of the first part followed
/// by the answer of the second: the answer of a whole stream is the
/// in-order concatenation of the content deltas of every data payload that
/// parses, whatever chunks the stream came in.
pub proof fn law_answer_of_concatenated_streams(
    a: Seq<Option<ChatCompletion>>,
    b: Seq<Option<ChatCompletion>>,
)
    ensures
        answer_text(parsed_chunks(a + b)) == answer_text(parsed_chunks(a)) + answer_text(parsed_chunks(b)),
{
    lemma_parsed_concat(a, b);
    lemma_answer_concat(parsed_chunks(a), parsed_chunks(b));
}

/// The data payloads of one raw chunk of the stream, decoded as
/// `String::from_utf8_lossy` decodes it and read line by line.
pub open spec fn chunk_payloads(chunk: Seq<u8>) -> Seq<Seq<char>> {
    data_payloads(stream_lines(utf8_lossy(chunk)))
}

/// The data payloads of a stream that came in `chunks`, chunk after chunk.
pub open spec fn stream_payloads(chunks: Seq<Seq<u8>>) -> Seq<Seq<char>> {
    chunks.map_values(|k: Seq<u8>| chunk_payloads(k)).flatten()
}

/// The answer that the payloads `ps` spell out when `parse` reads each one:
/// the content deltas of every payload that reads as a completion chunk, in
/// order; a payload that does not read adds nothing.
pub open spec fn payload_answer(
    ps: Seq<Seq<char>>,
    parse: spec_fn(Seq<char>) -> Option<ChatCompletion>,
) -> Seq<char>
    decreases ps.len(),
{
    if ps.len() == 0 {
        seq![]
    } else {
        payload_answer(ps.drop_last(), parse) + match parse(ps.last()) {
            Some(c) => choices_content(c.choices@),
            None => seq![],
        }
    }
}

proof fn lemma_payload_answer(
    ps: Seq<Seq<char>>,
    parse: spec_fn(Seq<char>) -> Option<ChatCompletion>,
)
    ensures
        payload_answer(ps, parse) == answer_text(parsed_chunks(ps.map_values(parse))),
    decreases ps.len(),
{
    if ps.len() > 0 {
        lemma_payload_answer(ps.drop_last(), parse);
        let os = ps.map_values(parse);
        assert(os.drop_last() =~= ps.drop_last().map_values(parse));
        assert(os.last() == parse(ps.last()));
        match parse(ps.last()) {
            Some(c) => {
                assert(parsed_chunks(os).drop_last() == parsed_chunks(os.drop_last()));
            },
            None => {
                assert(payload_answer(ps, parse) =~= payload_answer(ps.drop_last(), parse));
            },
        }
    }
}

proof fn lemma_outcomes_flatten(
    chunks: Seq<Seq<u8>>,
    outcomes: Seq<Seq<Option<ChatCompletion>>>,
    parse: spec_fn(Seq<char>) -> Option<ChatCompletion>,
)
    requires
        outcomes.len() == chunks.len(),
        forall|k: int| 0 <= k < chunks.len() ==> #[trigger] outcomes[k] == chunk_payloads(chunks[k]).map_values(parse),
    ensures
        outcomes.flatten() == stream_payloads(chunks).map_values(parse),
    decreases chunks.len(),
{
    broadcast use Seq::lemma_flatten_push;
    if chunks.len() == 0 {
        assert(outcomes.flatten() =~= seq![]);
        assert(stream_payloads(chunks) =~= seq![]);
        assert(stream_payloads(chunks).map_values(parse) =~= seq![]);
    } else {
        let ck = chunks.drop_last();
        let ok = outcomes.drop_last();
        assert forall|k: int| 0 <= k < ck.len() implies #[trigger] ok[k] == chunk_payloads(ck[k]).map_values(parse) by {
            assert(ok[k] == outcomes[k]);
        }
        lemma_outcomes_flatten(ck, ok, parse);
        let f = |k: Seq<u8>| chunk_payloads(k);
        assert(chunks.map_values(f) =~= ck.map_values(f).push(chunk_payloads(chunks.last())));
        assert(outcomes =~= ok.push(outcomes.last()));
        assert(stream_payloads(chunks) == stream_payloads(ck) + chunk_payloads(chunks.last()));
        assert(outcomes.flatten() == ok.flatten() + outcomes.last());
        assert(outcomes.last() == chunk_payloads(chunks.last()).map_values(parse));
        assert(stream_payloads(chunks).map_values(parse) =~= stream_payloads(ck).map_values(parse)
            + chunk_payloads(chunks.last()).map_values(parse));
    }
}

/// The answer to a streamed request: where the stream came in `chunks`, and
/// `outcomes[k]` holds, in order, what parsing each data payload of chunk `k`
/// as a completion chunk gave, the answer assembled from all outcomes, chunk
/// after chunk, is the in-order concatenation of the content deltas of every
/// data payload of every chunk that parses; every other line adds nothing.
pub proof fn law_stream_answer(
    chunks: Seq<Seq<u8>>,
    outcomes: Seq<Seq<Option<ChatCompletion>>>,
    parse: spec_fn(Seq<char>) -> Option<ChatCompletion>,
)
    requires
        outcomes.len() == chunks.len(),
        forall|k: int| 0 <= k < chunks.len() ==> #[trigger] outcomes[k] == chunk_payloads(chunks[k]).map_values(parse),
    ensures
        answer_text(parsed_chunks(outcomes.flatten())) == payload_answer(stream_payloads(chunks), parse),
{
    lemma_outcomes_flatten(chunks, outcomes, parse);
    lemma_payload_answer(stream_payloads(chunks), parse);
}

/// The content of a run of choices is each choice's content delta, in order,
/// whatever else the choice holds (its index, its finish reason): no choice
/// gives nothing, one choice gives its delta, and a run split in two gives
/// the two contents one after the other.
pub proof fn law_choices_content(a: Seq<Choice>, b: Seq<Choice>, c: Choice)
    ensures
        choices_content(Seq::<Choice>::empty()) == Seq::<char>::empty(),
        choices_content(seq![c]) == c.delta.content@,
        choices_content(a.push(c)) == choices_content(a) + c.delta.content@,
        choices_content(a + b) == choices_content(a) + choices_content(b),
    decreases b.len(),
{
    assert(seq![c].drop_last() =~= Seq::<Choice>::empty());
    assert(seq![c].last() == c);
    assert(choices_content(Seq::<Choice>::empty()) =~= Seq::<char>::empty());
    assert(choices_content(seq![c]) =~= c.delta.content@);
    assert(a.push(c).drop_last() =~= a);
    if b.len() == 0 {
        assert(a + b =~= a);
        assert(choices_content(a) + choices_content(b) =~= choices_content(a));
    } else {
        law_choices_content(a, b.drop_last(), c);
        assert((a + b).drop_last() =~= a + b.drop_last());
        assert((a + b).last() == b.last());
        assert(choices_content(a + b) =~= choices_content(a) + choices_content(b));
    }
}

/// The answer of a run of completion chunks is the content of each chunk's
/// choices, chunk after chunk: no chunk gives nothing, one chunk gives the
/// content of its choices, and a run split in two gives the two answers one
/// after the other.
pub proof fn law_answer_text(a: Seq<ChatCompletion>, b: Seq<ChatCompletion>, c: ChatCompletion)
    ensures
        answer_text(Seq::<ChatCompletion>::empty()) == Seq::<char>::empty(),
        answer_text(seq![c]) == choices_content(c.choices@),
        answer_text(a.push(c)) == answer_text(a) + choices_content(c.choices@),
        answer_text(a + b) == answer_text(a) + answer_text(b),
{
    assert(seq![c].drop_last() =~= Seq::<ChatCompletion>::empty());
    assert(seq![c].last() == c);
    assert(answer_text(Seq::<ChatCompletion>::empty()) =~= Seq::<char>::empty());
    assert(answer_text(seq![c]) =~= choices_content(c.choices@));
    assert(a.push(c).drop_last() =~= a);
    lemma_answer_concat(a, b);
}

/// A data line's payload is the line after the `data:` marker; any other
/// line stands as it is.
pub proof fn law_classify(p: Seq<char>, line: Seq<char>)
    ensures
        classify(data_prefix() + p) == StreamLineView::Data(p),
        classify(line) matches StreamLineView::Data(q) ==> line == data_prefix() + q,
        classify(line) matches StreamLineView::Other(o) ==> o == line,
        classify(line) is Other ==> !(line.len() >= 5 && line.take(5) == data_prefix()),
{
    assert((data_prefix() + p).take(5) =~= data_prefix());
    assert((data_prefix() + p).skip(5) =~= p);
    if line.len() >= 5 && line.take(5) == data_prefix() {
        assert(line =~= data_prefix() + line.skip(5));
    }
}

/// The payloads of a run of stream lines: a data line gives its payload,
/// any other line gives nothing, and a run split in two gives the payloads of
/// the two parts one after the other.
pub proof fn law_data_payloads(
    a: Seq<StreamLineView>,
    b: Seq<StreamLineView>,
    p: Seq<char>,
    o: Seq<char>,
)
    ensures
        data_payloads(Seq::<StreamLineView>::empty()) == Seq::<Seq<char>>::empty(),
        data_payloads(seq![StreamLineView::Data(p)]) == seq![p],
        data_payloads(seq![StreamLineView::Other(o)]) == Seq::<Seq<char>>::empty(),
        data_payloads(a + b) == data_payloads(a) + data_payloads(b),
    decreases b.len(),
{
    assert(seq![StreamLineView::Data(p)].drop_last() =~= Seq::<StreamLineView>::empty());
    assert(seq![StreamLineView::Other(o)].drop_last() =~= Seq::<StreamLineView>::empty());
    assert(seq![StreamLineView::Data(p)].last() == StreamLineView::Data(p));
    assert(seq![StreamLineView::Other(o)].last() == StreamLineView::Other(o));
    assert(data_payloads(Seq::<StreamLineView>::empty()) =~= Seq::<Seq<char>>::empty());
    assert(data_payloads(seq![StreamLineView::Data(p)]) =~= seq![p]);
    if b.len() == 0 {
        assert(a + b =~= a);
        assert(data_payloads(a) + data_payloads(b) =~= data_payloads(a));
    } else {
        law_data_payloads(a, b.drop_last(), p, o);
        assert((a + b).drop_last() =~= a + b.drop_last());
        assert((a + b).last() == b.last());
        assert(data_payloads(a + b) =~= data_payloads(a) + data_payloads(b));
    }
}

/// The chunks that parsed: a parsed chunk stays, a payload that did not
/// parse gives nothing, and a run of outcomes split in two gives the chunks
/// of the two parts one after the other.
pub proof fn law_parsed_chunks(
    a: Seq<Option<ChatCompletion>>,
    b: Seq<Option<ChatCompletion>>,
    c: ChatCompletion,
)
    ensures
        parsed_chunks(Seq::<Option<ChatCompletion>>::empty()) == Seq::<ChatCompletion>::empty(),
        parsed_chunks(seq![Some(c)]) == seq![c],
        parsed_chunks(seq![None::<ChatCompletion>]) == Seq::<ChatCompletion>::empty(),
        parsed_chunks(a + b) == parsed_chunks(a) + parsed_chunks(b),
{
    assert(seq![Some(c)].drop_last() =~= Seq::<Option<ChatCompletion>>::empty());
    assert(seq![None::<ChatCompletion>].drop_last() =~= Seq::<Option<ChatCompletion>>::empty());
    assert(seq![Some(c)].last() == Some(c));
    assert(seq![None::<ChatCompletion>].last() == None::<ChatCompletion>);
    assert(parsed_chunks(Seq::<Option<ChatCompletion>>::empty()) =~= Seq::<ChatCompletion>::empty());
    assert(parsed_chunks(seq![Some(c)]) =~= seq![c]);
    lemma_parsed_concat(a, b);
}

/// The stream lines of a text are its lines, each read as a data line or
/// another line, in order.
pub proof fn law_stream_lines(text: Seq<char>)
    ensures
        stream_lines(text).len() == text_lines(text).len(),
        forall|i: int| 0 <= i < text_lines(text).len() ==> #[trigger] stream_lines(text)[i] == classify(text_lines(text)[i]),
{
}

/// The lines of a text, as `str::lines` reads them: an empty text has none;
/// a line ended by a line feed adds the line without its line feed and
/// without a carriage return just before it; a last line with no line feed
/// adds itself.
pub proof fn law_text_lines(a: Seq<char>, l: Seq<char>)
    requires
        a.len() == 0 || a.last() == '\n',
        !l.contains('\n'),
    ensures
        text_lines(Seq::<char>::empty()) == Seq::<Seq<char>>::empty(),
        text_lines(a + l.push('\n')) == text_lines(a).push(
            if l.len() > 0 && l.last() == '\r' { l.drop_last() } else { l },
        ),
        l.len() > 0 ==> text_lines(a + l) == text_lines(a).push(l),
{
    let f = |p: Seq<char>| strip_line_end(p);
    assert(text_lines(Seq::<char>::empty()) =~= Seq::<Seq<char>>::empty());
    let piece = l.push('\n');
    assert(!has_sep(piece, '\n', 0, piece.len() - 1)) by {
        if has_sep(piece, '\n', 0, piece.len() - 1) {
            let k = choose|k: int| 0 <= k < piece.len() - 1 && piece[k] == '\n';
            assert(l[k] == '\n');
        }
    }
    lemma_pieces_append(a, piece, '\n');
    assert(line_pieces(a, '\n').push(piece).map_values(f) =~= line_pieces(a, '\n').map_values(f).push(strip_line_end(piece)));
    assert(piece.drop_last() =~= l);
    if l.len() > 0 {
        let s = a + l;
        let start = a.len() as int;
        assert(!has_sep(s, '\n', start, s.len() - 1)) by {
            if has_sep(s, '\n', start, s.len() - 1) {
                let k = choose|k: int| start <= k < s.len() - 1 && s[k] == '\n';
                assert(l[k - start] == '\n');
            }
        }
        if start > 0 {
            assert(s[start - 1] == a.last());
        }
        lemma_pieces_extend(s, '\n', start, s.len() as int);
        assert(s.take(s.len() as int) =~= s);
        assert(s.take(start) =~= a);
        assert(s.subrange(start, s.len() as int) =~= l);
        assert(l.last() != '\n') by {
            assert(l[l.len() - 1] == l.last());
        }
        assert(strip_line_end(l) == l);
        assert(line_pieces(a, '\n').push(l).map_values(f) =~= line_pieces(a, '\n').map_values(f).push(l));
    }
}

} // verus!
