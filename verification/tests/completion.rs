use sloppy::completion::{
    answer_from_outcomes, assemble_answer, chunk_stream_lines, data_payloads_of, text_stream_lines,
    ChatCompletion, Choice, Delta, StreamLine, Usage,
};

fn data(s: &str) -> StreamLine {
    StreamLine::Data(s.to_string())
}

fn other(s: &str) -> StreamLine {
    StreamLine::Other(s.to_string())
}

#[test]
fn splits_stream_lines() {
    let lines = text_stream_lines("data:{\"a\":1}\n: keep-alive\r\ndata: [DONE]\n\n");
    assert_eq!(lines, vec![data("{\"a\":1}"), other(": keep-alive"), data(" [DONE]"), other("")]);
    assert_eq!(text_stream_lines(""), vec![]);
    assert_eq!(text_stream_lines("data:"), vec![data("")]);
    assert_eq!(text_stream_lines("dat"), vec![other("dat")]);
    assert_eq!(text_stream_lines("x\r"), vec![other("x\r")]);
}

#[test]
fn stream_lines_follow_str_lines() {
    for text in ["a\nb", "a\r\nb\r\n", "\n\n", "data:x\r\r\n", "éé\ndata:€"] {
        let expected: Vec<StreamLine> = text
            .lines()
            .map(|l| match l.strip_prefix("data:") {
                Some(p) => data(p),
                None => other(l),
            })
            .collect();
        assert_eq!(text_stream_lines(text), expected, "text {:?}", text);
    }
}

#[test]
fn chunk_is_decoded_lossily() {
    assert_eq!(chunk_stream_lines(b"data:ok\n"), vec![data("ok")]);
    assert_eq!(chunk_stream_lines(b"data:\xff\n"), vec![data("\u{fffd}")]);
}

fn chunk(contents: &[&str]) -> ChatCompletion {
    ChatCompletion {
        id: "id".to_string(),
        object: "chat.completion.chunk".to_string(),
        created: 1,
        model: "m".to_string(),
        choices: contents
            .iter()
            .enumerate()
            .map(|(i, c)| Choice {
                index: i as u32,
                finish_reason: None,
                delta: Delta {
                    role: "assistant".to_string(),
                    content: c.to_string(),
                    reasoning_content: None,
                    tool_calls: None,
                },
                nostr_notes: None,
            })
            .collect(),
        usage: Usage { prompt_tokens: 1, completion_tokens: 2, total_tokens: 3 },
    }
}

#[test]
fn answer_is_all_deltas_in_order() {
    let chunks = vec![chunk(&["Help ", "me"]), chunk(&[]), chunk(&[" survive", "!"])];
    assert_eq!(assemble_answer(&chunks), "Help me survive!");
    assert_eq!(assemble_answer(&vec![]), "");
}

#[test]
fn data_payloads_keep_order() {
    let lines = text_stream_lines("data:a\nnoise\ndata: b\n\ndata:");
    assert_eq!(data_payloads_of(&lines), vec!["a".to_string(), " b".to_string(), "".to_string()]);
    assert_eq!(data_payloads_of(&vec![]), Vec::<String>::new());
}

#[test]
fn answer_skips_payloads_that_did_not_parse() {
    let outcomes = vec![Some(chunk(&["Save ", "me"])), None, Some(chunk(&[])), None, Some(chunk(&[", please"]))];
    assert_eq!(answer_from_outcomes(&outcomes), "Save me, please");
    assert_eq!(answer_from_outcomes(&vec![None, None]), "");
    let mut first = vec![Some(chunk(&["a"])), None];
    let second = vec![Some(chunk(&["b", "c"]))];
    let whole = answer_from_outcomes(&first) + &answer_from_outcomes(&second);
    first.extend(second);
    assert_eq!(answer_from_outcomes(&first), whole);
}

/// A stand-in for the JSON parse of a payload: `[...]` holds the deltas,
/// separated by `|`; anything else does not parse.
fn parse_payload(p: &str) -> Option<ChatCompletion> {
    let inner = p.strip_prefix('[')?.strip_suffix(']')?;
    let parts: Vec<&str> = if inner.is_empty() { vec![] } else { inner.split('|').collect() };
    Some(chunk(&parts))
}

#[test]
fn stream_answer_spans_chunks() {
    let raw: Vec<&[u8]> = vec![
        b"data:[Help |me]\n: ping\ndata: [DONE]\n",
        b"data:[]\r\n",
        b"\ndata:[ survive|!]\ndata:\xff\n",
    ];
    let mut outcomes = Vec::new();
    for k in &raw {
        let lines = chunk_stream_lines(k);
        for p in data_payloads_of(&lines) {
            outcomes.push(parse_payload(&p));
        }
    }
    assert_eq!(outcomes.len(), 5);
    assert_eq!(answer_from_outcomes(&outcomes), "Help me survive!");
}
