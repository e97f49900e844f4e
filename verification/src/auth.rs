//! The headers with which the agent talks to the language model service:
//! it accepts JSON and authenticates with a bearer key.

use vstd::prelude::*;
use vstd::string::StringExecFns;
use vstd::utf8::{encode_scalar, encode_utf8};
use reqwest::header::{HeaderValue, InvalidHeaderValue};

verus! {

#[verifier::external_type_specification]
#[verifier::external_body]
pub struct ExHeaderValue(HeaderValue);

#[verifier::external_type_specification]
#[verifier::external_body]
pub struct ExInvalidHeaderValue(InvalidHeaderValue);

/// Whether a byte may stand in an HTTP header value: a visible character,
/// a space, a tab, or any byte above 127.
pub open spec fn header_byte_ok(b: u8) -> bool {
    (b >= 32 && b != 127) || b == 9
}

/// Whether every byte of `bytes` may stand in a header value.
pub open spec fn header_text_ok(bytes: Seq<u8>) -> bool {
    forall|i: int| 0 <= i < bytes.len() ==> header_byte_ok(#[trigger] bytes[i])
}

/// Whether a character may stand in a header value: its UTF-8 bytes all
/// may. Characters beyond ASCII always can; of ASCII, the controls other than
/// tab cannot.
pub open spec fn header_char_ok(c: char) -> bool {
    (c as u32 >= 32 && c as u32 != 127) || c as u32 == 9
}

/// Whether every character of `s` may stand in a header value.
pub open spec fn header_chars_ok(s: Seq<char>) -> bool {
    forall|i: int| 0 <= i < s.len() ==> header_char_ok(#[trigger] s[i])
}

proof fn lemma_scalar_bytes(v: u32)
    by (bit_vector)
    ensures
        v <= 0x7F ==> ((v & 0x7F) as u8) as u32 == v,
        (0xC0u8 | ((v >> 6) & 0x1F) as u8) >= 128u8,
        (0xE0u8 | ((v >> 12) & 0x0F) as u8) >= 128u8,
        (0xF0u8 | ((v >> 18) & 0x7) as u8) >= 128u8,
        (0x80u8 | (v & 0x3F) as u8) >= 128u8,
        (0x80u8 | ((v >> 6) & 0x3F) as u8) >= 128u8,
        (0x80u8 | ((v >> 12) & 0x3F) as u8) >= 128u8,
{
}

proof fn lemma_header_text_concat(a: Seq<u8>, b: Seq<u8>)
    ensures
        header_text_ok(a + b) == (header_text_ok(a) && header_text_ok(b)),
{
    if header_text_ok(a) && header_text_ok(b) {
        assert forall|i: int| 0 <= i < (a + b).len() implies header_byte_ok(#[trigger] (a + b)[i]) by {
            if i < a.len() {
                assert(header_byte_ok(a[i]));
            } else {
                assert(header_byte_ok(b[i - a.len()]));
            }
        }
    }
    if header_text_ok(a + b) {
        assert forall|i: int| 0 <= i < a.len() implies header_byte_ok(#[trigger] a[i]) by {
            assert((a + b)[i] == a[i]);
        }
        assert forall|i: int| 0 <= i < b.len() implies header_byte_ok(#[trigger] b[i]) by {
            assert((a + b)[i + a.len()] == b[i]);
        }
    }
}

/// A text may stand in a header value exactly when each of its characters
/// may.
pub proof fn lemma_header_text_chars(s: Seq<char>)
    ensures
        header_text_ok(encode_utf8(s)) == header_chars_ok(s),
    decreases s.len(),
{
    if s.len() > 0 {
        let c = s[0];
        let v = c as u32;
        vstd::utf8::char_is_scalar(c);
        lemma_scalar_bytes(v);
        let e = encode_scalar(v);
        assert(header_text_ok(e) == header_char_ok(c)) by {
            if v <= 0x7F {
                assert(e =~= seq![(v & 0x7F) as u8]);
                assert(e[0] as u32 == v);
            }
        }
        lemma_header_text_chars(s.drop_first());
        lemma_header_text_concat(e, encode_utf8(s.drop_first()));
        if header_chars_ok(s) {
            assert forall|i: int| 0 <= i < s.drop_first().len() implies header_char_ok(#[trigger] s.drop_first()[i]) by {
                assert(header_char_ok(s[i + 1]));
            }
        }
        if header_char_ok(c) && header_chars_ok(s.drop_first()) {
            assert forall|i: int| 0 <= i < s.len() implies header_char_ok(#[trigger] s[i]) by {
                if i > 0 {
                    assert(s[i] == s.drop_first()[i - 1]);
                }
            }
        }
    }
}

/// The value of the `Authorization` header for an API key.
pub open spec fn bearer_credentials_spec(key: Seq<char>) -> Seq<char> {
    "Bearer "@ + key
}

/// The bytes a header value holds (`HeaderValue::as_bytes`).
pub uninterp spec fn header_bytes(v: HeaderValue) -> Seq<u8>;

/// Whether a header value is marked sensitive (`HeaderValue::is_sensitive`).
pub uninterp spec fn header_sensitive(v: HeaderValue) -> bool;

/// `HeaderValue::from_str`: it succeeds exactly when every byte of `text` may
/// stand in a header value; the value then holds the bytes of `text` and is
/// not marked sensitive.
#[verifier::external_body]
fn header_value(text: &str) -> (r: Result<HeaderValue, InvalidHeaderValue>)
    ensures
        r is Ok <==> header_text_ok(encode_utf8(text@)),
        r matches Ok(v) ==> header_bytes(v) == encode_utf8(text@) && !header_sensitive(v),
{
    HeaderValue::from_str(text)
}

/// `HeaderValue::set_sensitive(true)`: marks the value as a secret, which
/// changes how it is shown and cached, not the bytes it holds.
#[verifier::external_body]
fn mark_sensitive(value: &mut HeaderValue)
    ensures
        header_bytes(*final(value)) == header_bytes(*old(value)),
        header_sensitive(*final(value)),
{
    value.set_sensitive(true);
}

/// `"Bearer {key}"`.
pub fn bearer_credentials(key: &str) -> (r: String)
    ensures
        r@ == bearer_credentials_spec(key@),
{
    let mut r = "Bearer ".to_string();
    r.append(key);
    r
}

/// The `Accept` and `Authorization` header values for the key: they can be
/// built exactly when the key's characters may stand in a header value. The
/// first holds `application/json`, the second `Bearer ` and the key, marked
/// sensitive.
pub fn service_headers(key: &str) -> (r: Result<(HeaderValue, HeaderValue), InvalidHeaderValue>)
    ensures
        r is Ok <==> header_chars_ok(key@),
        r matches Ok((accept, auth)) ==> {
            &&& header_bytes(accept) == encode_utf8("application/json"@)
            &&& !header_sensitive(accept)
            &&& header_bytes(auth) == encode_utf8(bearer_credentials_spec(key@))
            &&& header_sensitive(auth)
        },
{
    proof {
        reveal_strlit("application/json");
        reveal_strlit("Bearer ");
        lemma_header_text_chars("application/json"@);
        lemma_header_text_chars(bearer_credentials_spec(key@));
        let b = bearer_credentials_spec(key@);
        assert(header_chars_ok(b) == header_chars_ok(key@)) by {
            assert forall|i: int| 0 <= i < 7 implies header_char_ok(#[trigger] b[i]) by {}
            if header_chars_ok(key@) {
                assert forall|i: int| 0 <= i < b.len() implies header_char_ok(#[trigger] b[i]) by {
                    if i >= 7 {
                        assert(b[i] == key@[i - 7]);
                    }
                }
            }
            if header_chars_ok(b) {
                assert forall|i: int| 0 <= i < key@.len() implies header_char_ok(#[trigger] key@[i]) by {
                    assert(b[i + 7] == key@[i]);
                }
            }
        }
    }
    let accept = match header_value("application/json") {
        Ok(v) => v,
        Err(e) => return Err(e),
    };
    let credentials = bearer_credentials(key);
    let mut auth = match header_value(credentials.as_str()) {
        Ok(v) => v,
        Err(e) => return Err(e),
    };
    mark_sensitive(&mut auth);
    Ok((accept, auth))
}

/// The `Authorization` value is the word `Bearer`, a space, and then the
/// whole key; a character may stand in a header value exactly when it is
/// neither an ASCII control other than tab nor DEL.
pub proof fn law_bearer_credentials(key: Seq<char>, c: char)
    ensures
        bearer_credentials_spec(key) == seq!['B', 'e', 'a', 'r', 'e', 'r', ' '] + key,
        header_char_ok(c) <==> !((c as u32) < 32 && c != '\t') && (c as u32) != 127,
{
    reveal_strlit("Bearer ");
    assert("Bearer "@ =~= seq!['B', 'e', 'a', 'r', 'e', 'r', ' ']);
}

} // verus!
