//! The base64 converter: two text fields kept in step, plain text on one side
//! and its standard base64 encoding on the other.
use vstd::prelude::*;
use vstd::string::StringSliceAdditionalSpecFns;
use vstd::utf8::{decode_utf8, valid_utf8};
use base64::engine::general_purpose;
use base64::Engine;
use crate::tool::BASE64_CONVERTER_NAME;

verus! {

/// The standard base64 encoding (with padding) of the UTF-8 bytes of `text`.
pub uninterp spec fn base64_of(text: Seq<char>) -> Seq<char>;

/// The bytes that `text` decodes to as standard base64 (with padding), or
/// `None` when it is not valid standard base64.
pub uninterp spec fn bytes_of_base64(text: Seq<char>) -> Option<Seq<u8>>;

/// Relies on base64's `general_purpose::STANDARD.encode` over the text's
/// UTF-8 bytes: padded output, four characters for each started group of
/// three bytes.
#[verifier::external_body]
fn encode_text(text: &str) -> (r: String)
    ensures
        r@ == base64_of(text@),
        r@.len() == 4 * ((text.spec_bytes().len() + 2) / 3),
{
    general_purpose::STANDARD.encode(text.as_bytes())
}

/// Relies on base64's `general_purpose::STANDARD.decode`; a decode error
/// becomes `None`.
#[verifier::external_body]
fn decode_text(text: &str) -> (r: Option<Vec<u8>>)
    ensures
        r is Some <==> bytes_of_base64(text@) is Some,
        r is Some ==> bytes_of_base64(text@) == Some(r->0@),
{
    general_purpose::STANDARD.decode(text).ok()
}

/// Relies on std's `String::from_utf8`: the text of valid UTF-8 bytes, and an
/// error (here `None`) for any other bytes.
#[verifier::external_body]
fn utf8_text(bytes: Vec<u8>) -> (r: Option<String>)
    ensures
        r is Some <==> valid_utf8(bytes@),
        r is Some ==> r->0@ == decode_utf8(bytes@),
{
    String::from_utf8(bytes).ok()
}

/// `s` without its trailing carriage returns and line feeds.
pub open spec fn trim_line_ends(s: Seq<char>) -> Seq<char>
    decreases s.len(),
{
    if s.len() > 0 && (s.last() == '\r' || s.last() == '\n') {
        trim_line_ends(s.drop_last())
    } else {
        s
    }
}

/// The text that a base64 text decodes to, when it is base64 of UTF-8 text.
pub open spec fn decoded_text(text: Seq<char>) -> Option<Seq<char>> {
    match bytes_of_base64(text) {
        Some(b) => if valid_utf8(b) {
            Some(decode_utf8(b))
        } else {
            None
        },
        None => None,
    }
}

/// `s` without its trailing carriage returns and line feeds.
pub fn trim_line_ends_exec(s: &str) -> (r: String)
    ensures
        r@ == trim_line_ends(s@),
{
    let mut k: usize = s.unicode_len();
    assert(s@.subrange(0, k as int) =~= s@);
    while k > 0 && (s.get_char(k - 1) == '\r' || s.get_char(k - 1) == '\n')
        invariant
            k <= s@.len(),
            trim_line_ends(s@) == trim_line_ends(s@.subrange(0, k as int)),
        decreases k,
    {
        assert(s@.subrange(0, k as int).drop_last() =~= s@.subrange(0, k - 1));
        k = k - 1;
    }
    if k > 0 {
        assert(s@.subrange(0, k as int).last() == s@[k - 1]);
    }
    s.substring_char(0, k).to_owned()
}

/// The text of standard base64 when it encodes UTF-8 text; `None` otherwise.
pub fn decode_to_text(text: &str) -> (r: Option<String>)
    ensures
        r is Some <==> decoded_text(text@) is Some,
        r is Some ==> decoded_text(text@) == Some(r->0@),
{
    match decode_text(text) {
        Some(bytes) => utf8_text(bytes),
        None => None,
    }
}

/// State of the base64 converter.
pub struct Base64Converter {
    pub tool_name: String,
    pub encoded_input: String,
    pub decoded_input: String,
}

/// Input handled by the converter: the new content of one of its fields.
#[derive(Debug, Clone)]
pub enum Message {
    DecodedTextChanged(String),
    EncodedTextChanged(String),
}

impl Base64Converter {
    /// The state of a freshly opened converter.
    pub open spec fn is_initial(&self) -> bool {
        &&& self.tool_name@ == BASE64_CONVERTER_NAME@
        &&& self.encoded_input@.len() == 0
        &&& self.decoded_input@.len() == 0
    }

    /// How `update` takes the converter from `old` to `new` on `m`. The edited
    /// field takes the new content; when that content, without trailing line
    /// ends, differs from the field's previous content, the other field
    /// follows it (decoding only where the text decodes).
    pub open spec fn update_post(old: Base64Converter, m: Message, new: Base64Converter) -> bool {
        match m {
            Message::DecodedTextChanged(text) => {
                let t = trim_line_ends(text@);
                &&& new.tool_name == old.tool_name
                &&& new.decoded_input == text
                &&& if old.decoded_input@ != t {
                    new.encoded_input@ == base64_of(t)
                } else {
                    new.encoded_input == old.encoded_input
                }
            },
            Message::EncodedTextChanged(text) => {
                let t = trim_line_ends(text@);
                &&& new.tool_name == old.tool_name
                &&& new.encoded_input == text
                &&& match decoded_text(t) {
                    Some(d) => if old.encoded_input@ != t {
                        new.decoded_input@ == d
                    } else {
                        new.decoded_input == old.decoded_input
                    },
                    None => new.decoded_input == old.decoded_input,
                }
            },
        }
    }

    /// A fresh converter with both fields empty.
    pub fn new() -> (r: Base64Converter)
        ensures
            r.is_initial(),
    {
        Base64Converter {
            tool_name: BASE64_CONVERTER_NAME.to_owned(),
            encoded_input: String::new(),
            decoded_input: String::new(),
        }
    }

    /// The tool's display name.
    pub fn title(&self) -> (r: String)
        ensures
            r@ == self.tool_name@,
    {
        self.tool_name.clone()
    }

    /// Applies the new content of one field and brings the other in step.
    pub fn update(&mut self, message: Message)
        ensures
            Base64Converter::update_post(*old(self), message, *final(self)),
    {
        match message {
            Message::DecodedTextChanged(text) => {
                let trimmed = trim_line_ends_exec(text.as_str());
                let changed = !(self.decoded_input == trimmed);
                self.decoded_input = text;
                if changed {
                    self.encoded_input = encode_text(trimmed.as_str());
                }
            },
            Message::EncodedTextChanged(text) => {
                let trimmed = trim_line_ends_exec(text.as_str());
                let changed = !(self.encoded_input == trimmed);
                self.encoded_input = text;
                if changed {
                    match decode_to_text(trimmed.as_str()) {
                        Some(decoded) => {
                            self.decoded_input = decoded;
                        },
                        None => {},
                    }
                }
            },
        }
    }
}

} // verus!
