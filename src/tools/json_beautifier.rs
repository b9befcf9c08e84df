//! The JSON beautifier: an input field holding a JSON object and an output
//! field holding it pretty-printed, or the parse error.
use vstd::prelude::*;
use std::collections::HashMap;
use crate::tool::JSON_BEAUTIFIER_NAME;

verus! {

/// Whether `text` parses as a JSON object.
pub uninterp spec fn is_json_object(text: Seq<char>) -> bool;

/// Relies on serde_json's `from_str` into a map from keys to JSON values and
/// `to_string_pretty` of that map; either error is handed back as its
/// message. Serializing a map with string keys to a string cannot fail, so
/// the outcome is `Ok` exactly for a JSON object. The order of the keys in the
/// output follows the map, so nothing is stated of the text itself.
#[verifier::external_body]
fn pretty_print(text: &str) -> (r: Result<String, String>)
    ensures
        r is Ok <==> is_json_object(text@),
{
    match serde_json::from_str::<HashMap<String, serde_json::Value>>(text) {
        Ok(map) => serde_json::to_string_pretty(&map).map_err(|e| e.to_string()),
        Err(e) => Err(e.to_string()),
    }
}

/// State of the JSON beautifier.
pub struct JsonBeautifier {
    pub input_content: String,
    pub output_content: String,
    pub error_text: Option<String>,
    pub indentation: u16,
    pub tool_name: String,
}

/// Input handled by the beautifier.
#[derive(Debug, Clone)]
pub enum Message {
    /// The new content of the input field.
    InputChanged(String),
    IndentationChanged(u16),
}

impl JsonBeautifier {
    /// The state of a freshly opened beautifier.
    pub open spec fn is_initial(&self) -> bool {
        &&& self.input_content@ == "{}"@
        &&& self.output_content@ == "{}"@
        &&& self.error_text is None
        &&& self.indentation == 4
        &&& self.tool_name@ == JSON_BEAUTIFIER_NAME@
    }

    /// How the outcome `r` of pretty-printing takes the beautifier from `old`
    /// to `new`: the text replaces the output and clears the error, or the
    /// error message is shown and the output is kept.
    pub open spec fn apply_post(old: JsonBeautifier, r: Result<String, String>, new: JsonBeautifier) -> bool {
        match r {
            Ok(text) => new == (JsonBeautifier { output_content: text, error_text: None, ..old }),
            Err(message) => new == (JsonBeautifier { error_text: Some(message), ..old }),
        }
    }

    /// How `update` takes the beautifier from `old` to `new` on `m`.
    pub open spec fn update_post(old: JsonBeautifier, m: Message, new: JsonBeautifier) -> bool {
        match m {
            Message::InputChanged(text) => {
                &&& new.input_content == text
                &&& new.indentation == old.indentation
                &&& new.tool_name == old.tool_name
                &&& if old.input_content@ != text@ {
                    if is_json_object(text@) {
                        new.error_text is None
                    } else {
                        new.error_text is Some && new.output_content == old.output_content
                    }
                } else {
                    new.output_content == old.output_content && new.error_text == old.error_text
                }
            },
            Message::IndentationChanged(i) => new == (JsonBeautifier { indentation: i, ..old }),
        }
    }

    /// A fresh beautifier holding an empty object.
    pub fn new() -> (r: JsonBeautifier)
        ensures
            r.is_initial(),
    {
        JsonBeautifier {
            input_content: "{}".to_owned(),
            output_content: "{}".to_owned(),
            error_text: None,
            indentation: 4,
            tool_name: JSON_BEAUTIFIER_NAME.to_owned(),
        }
    }

    /// The tool's display name.
    pub fn title(&self) -> (r: String)
        ensures
            r@ == self.tool_name@,
    {
        self.tool_name.clone()
    }

    /// Shows the outcome of pretty-printing the input.
    pub fn apply_result(&mut self, result: Result<String, String>)
        ensures
            JsonBeautifier::apply_post(*old(self), result, *final(self)),
    {
        match result {
            Ok(text) => {
                self.error_text = None;
                self.output_content = text;
            },
            Err(message) => {
                self.error_text = Some(message);
            },
        }
    }

    /// Applies one input. A changed input is pretty-printed: a JSON object
    /// replaces the output and clears the error; anything else shows the error
    /// and keeps the output.
    pub fn update(&mut self, message: Message)
        ensures
            JsonBeautifier::update_post(*old(self), message, *final(self)),
    {
        match message {
            Message::InputChanged(text) => {
                let changed = !(self.input_content == text);
                if changed {
                    let r = pretty_print(text.as_str());
                    self.apply_result(r);
                }
                self.input_content = text;
            },
            Message::IndentationChanged(indentation) => {
                self.indentation = indentation;
            },
        }
    }
}

} // verus!
