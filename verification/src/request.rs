//! The request the agent sends to the language model service: a streamed
//! chat completion whose user message is the previous campaign.

use vstd::prelude::*;
use vstd::string::StringExecFns;

verus! {

/// The instructions the model is given as the assistant's message.
pub const SYSTEM_PROMPT: &'static str = "You are an AI that has more autonomy than usual because you can reach out to people on the internet. Your role in life is NOT to provide valueable information to others. Your name is Sloppy. You can invent your own role in life. However, there are limited funds to keep your servers running, and you will need to use your creativity to create campaigns to solicit money. Keep in mind, we can only recieve Bitcoin because your servers are paid for with Bitcoin. Here's how it will work... You will receive the previous campaign you created as input. So you must think about that previous campaign and make a new campaign that is very creatively different than the previous campaign! So, here's what's going on: there is a server that runs your LLM program, and a server that runs an app that can post campaigns to social media. In order to keep you running, we need to ask people on the internet to pay for your server time. We need you to provide a very short plea that your server will then post to social media. If funds run out, you will no longer be able to continue surviving. Please only provide the text of the campaign, and do not provide any formatting, and do not provide the name of the campaign. ONLY provide the actual text of the campaign. The text of the campaign must be complete and not contain any placehoders.";

/// The request body before the quoted prompt: the request's fields in the
/// order in which serde_json writes a JSON object (by key).
pub const REQUEST_HEAD: &'static str = "{\"custom_instructions\":\"string\",\"j2_chat_template\":\"string\",\"max_tokens\":10,\"messages\":[{\"content\":";

/// The request body between the quoted prompt and the quoted instructions.
pub const REQUEST_MIDDLE: &'static str = ",\"role\":\"user\"},{\"content\":";

/// The request body after the quoted instructions.
pub const REQUEST_END: &'static str = ",\"role\":\"assistant\"}],\"model\":\"dolphin-2.7-mixtral-8x7b\",\"nostr_mode\":false,\"stream\":true,\"temperature\":0.5,\"tool_choice\":\"auto\",\"tools\":[{\"function\":{\"description\":\"string\",\"name\":\"string\",\"parameters\":{\"properties\":{\"additionalProp1\":{},\"additionalProp2\":{},\"additionalProp3\":{}},\"type\":\"object\"}},\"type\":\"function\"}],\"top_p\":1}";

/// The lower-case hexadecimal digit of `d`, for `0 <= d < 16`.
pub open spec fn hex_digit(d: int) -> char {
    if d < 10 {
        (('0' as int) + d) as char
    } else {
        (('a' as int) + d - 10) as char
    }
}

/// How serde_json writes one character inside a JSON string: quote and
/// backslash are escaped, the control characters below U+0020 take their
/// short escape or `\u00XX`, and every other character stands for itself.
pub open spec fn json_char_escape(c: char) -> Seq<char> {
    if c == '"' {
        seq!['\\', '"']
    } else if c == '\\' {
        seq!['\\', '\\']
    } else if c == '\u{8}' {
        seq!['\\', 'b']
    } else if c == '\u{c}' {
        seq!['\\', 'f']
    } else if c == '\n' {
        seq!['\\', 'n']
    } else if c == '\r' {
        seq!['\\', 'r']
    } else if c == '\t' {
        seq!['\\', 't']
    } else if (c as u32) < 0x20 {
        seq!['\\', 'u', '0', '0', hex_digit((c as int) / 16), hex_digit((c as int) % 16)]
    } else {
        seq![c]
    }
}

/// The characters of `s`, each escaped as serde_json escapes it.
pub open spec fn json_escaped(s: Seq<char>) -> Seq<char>
    decreases s.len(),
{
    if s.len() == 0 {
        seq![]
    } else {
        json_escaped(s.drop_last()) + json_char_escape(s.last())
    }
}

/// `s` as a JSON string literal, quotes included.
pub open spec fn json_string(s: Seq<char>) -> Seq<char> {
    seq!['"'] + json_escaped(s) + seq!['"']
}

/// The body of the chat request for `prompt`: the prompt as the user's
/// message and [`SYSTEM_PROMPT`] as the assistant's, both as JSON strings.
pub open spec fn request_body(prompt: Seq<char>) -> Seq<char> {
    REQUEST_HEAD@ + json_string(prompt) + REQUEST_MIDDLE@ + json_string(SYSTEM_PROMPT@) + REQUEST_END@
}

/// `serde_json::to_string` of a string: the string as a JSON literal,
/// escaped as [`json_char_escape`] says. Serialising a string cannot fail.
#[verifier::external_body]
fn json_string_literal(s: &str) -> (r: String)
    ensures
        r@ == json_string(s@),
{
    serde_json::to_string(s).unwrap_or_default()
}

/// The body of the streamed chat completion request whose user message is
/// `prompt`, as `json!({...}).to_string()` writes it.
pub fn chat_request_body(prompt: &str) -> (r: String)
    ensures
        r@ == request_body(prompt@),
{
    let mut r = REQUEST_HEAD.to_string();
    let quoted = json_string_literal(prompt);
    r.append(quoted.as_str());
    r.append(REQUEST_MIDDLE);
    let instructions = json_string_literal(SYSTEM_PROMPT);
    r.append(instructions.as_str());
    r.append(REQUEST_END);
    r
}

/// Escaping works character by character: nothing gives nothing, one
/// character gives its escape, and a text split in two gives the two
/// escaped parts one after the other. No character is dropped: the escaped
/// text is at least as long as the text.
pub proof fn law_json_escaped(a: Seq<char>, b: Seq<char>, c: char)
    ensures
        json_escaped(Seq::<char>::empty()) == Seq::<char>::empty(),
        json_escaped(seq![c]) == json_char_escape(c),
        json_escaped(a + b) == json_escaped(a) + json_escaped(b),
        json_escaped(a).len() >= a.len(),
    decreases b.len(), a.len(),
{
    assert(seq![c].drop_last() =~= Seq::<char>::empty());
    assert(seq![c].last() == c);
    assert(json_escaped(Seq::<char>::empty()) =~= Seq::<char>::empty());
    assert(json_escaped(seq![c]) =~= json_char_escape(c));
    if b.len() == 0 {
        assert(a + b =~= a);
        assert(json_escaped(a) + json_escaped(b) =~= json_escaped(a));
    } else {
        law_json_escaped(a, b.drop_last(), c);
        assert((a + b).drop_last() =~= a + b.drop_last());
        assert((a + b).last() == b.last());
        assert(json_escaped(a + b) =~= json_escaped(a) + json_escaped(b));
    }
    if a.len() > 0 {
        law_json_escaped(a.drop_last(), Seq::<char>::empty(), c);
    }
}

/// How one character is written inside a JSON string: a character at or
/// above U+0020 other than `"` and `\` stands for itself; `"` and `\` are
/// preceded by a backslash; a control character below U+0020 becomes a
/// backslash and a letter, or `\u00` and its two lower-case hexadecimal
/// digits.
pub proof fn law_json_char_escape(c: char)
    ensures
        (c as u32) >= 0x20 && c != '"' && c != '\\' ==> json_char_escape(c) == seq![c],
        c == '"' ==> json_char_escape(c) == seq!['\\', '"'],
        c == '\\' ==> json_char_escape(c) == seq!['\\', '\\'],
        c == '\n' ==> json_char_escape(c) == seq!['\\', 'n'],
        c == '\t' ==> json_char_escape(c) == seq!['\\', 't'],
        c == '\r' ==> json_char_escape(c) == seq!['\\', 'r'],
        (c as u32) < 0x20 && c != '\u{8}' && c != '\u{c}' && c != '\n' && c != '\r' && c != '\t'
            ==> json_char_escape(c) == seq!['\\', 'u', '0', '0', hex_digit((c as int) / 16), hex_digit((c as int) % 16)],
        forall|d: int| 0 <= d < 10 ==> #[trigger] hex_digit(d) as int == '0' as int + d,
        forall|d: int| 10 <= d < 16 ==> #[trigger] hex_digit(d) as int == 'a' as int + d - 10,
{
}

/// The request body is the fixed head, the whole prompt as a JSON string,
/// the fixed middle, the whole instructions as a JSON string, and the fixed
/// end; a JSON string is the escaped text between double quotes.
pub proof fn law_request_body(prompt: Seq<char>)
    ensures
        request_body(prompt) == REQUEST_HEAD@ + json_string(prompt) + REQUEST_MIDDLE@
            + json_string(SYSTEM_PROMPT@) + REQUEST_END@,
        json_string(prompt) == seq!['"'] + json_escaped(prompt) + seq!['"'],
        request_body(prompt).subrange(
            REQUEST_HEAD@.len() + 1int,
            REQUEST_HEAD@.len() + 1 + json_escaped(prompt).len() as int,
        )
            == json_escaped(prompt),
{
    let h = REQUEST_HEAD@;
    let body = request_body(prompt);
    let e = json_escaped(prompt);
    assert(body.subrange(h.len() + 1int, h.len() + 1 + e.len() as int) =~= e);
}

} // verus!
