//! The identifier generator: a number of UUIDs of a chosen version, optionally
//! quoted, one per line.
use vstd::prelude::*;
use uuid::Uuid;
use crate::tool::UUID_GENERATOR_NAME;

verus! {

/// Largest amount that is still shown on screen; more can only be exported.
pub const MAX_DISPLAYED: u32 = 1000;

/// UUID version to generate.
#[derive(Debug, Clone, Copy, PartialEq, Eq, Structural, Default)]
pub enum Version {
    V4,
    #[default]
    V7,
}

/// Quotes placed around each identifier.
#[derive(Debug, Clone, Copy, PartialEq, Eq, Structural, Default)]
pub enum Quotes {
    #[default]
    NoQuotes,
    SingleQuotes,
    DoubleQuotes,
}

impl Version {
    /// The label of a version.
    pub open spec fn label_spec(self) -> Seq<char> {
        match self {
            Version::V4 => "Version 4"@,
            Version::V7 => "Version 7"@,
        }
    }

    /// The label shown in the version picker.
    pub fn to_string(&self) -> (r: String)
        ensures
            r@ == self.label_spec(),
    {
        match self {
            Version::V4 => "Version 4".to_owned(),
            Version::V7 => "Version 7".to_owned(),
        }
    }

    /// Every version, in picker order.
    pub fn all() -> (r: Vec<Version>)
        ensures
            r@ == seq![Version::V4, Version::V7],
    {
        let r = vec![Version::V4, Version::V7];
        assert(r@ =~= seq![Version::V4, Version::V7]);
        r
    }
}

impl Quotes {
    /// The label of a quoting style.
    pub open spec fn label_spec(self) -> Seq<char> {
        match self {
            Quotes::NoQuotes => "No Quotes"@,
            Quotes::SingleQuotes => "Single Quotes"@,
            Quotes::DoubleQuotes => "Double Quotes"@,
        }
    }

    /// The label shown in the quotes picker.
    pub fn to_string(&self) -> (r: String)
        ensures
            r@ == self.label_spec(),
    {
        match self {
            Quotes::NoQuotes => "No Quotes".to_owned(),
            Quotes::SingleQuotes => "Single Quotes".to_owned(),
            Quotes::DoubleQuotes => "Double Quotes".to_owned(),
        }
    }

    /// Every quoting style, in picker order.
    pub fn all() -> (r: Vec<Quotes>)
        ensures
            r@ == seq![Quotes::NoQuotes, Quotes::SingleQuotes, Quotes::DoubleQuotes],
    {
        let r = vec![Quotes::NoQuotes, Quotes::SingleQuotes, Quotes::DoubleQuotes];
        assert(r@ =~= seq![Quotes::NoQuotes, Quotes::SingleQuotes, Quotes::DoubleQuotes]);
        r
    }
}

/// A lower-case hexadecimal digit.
pub open spec fn is_lower_hex(c: char) -> bool {
    ('0' <= c && c <= '9') || ('a' <= c && c <= 'f')
}

/// The hyphenated lower-case text of a UUID whose version digit is `version`.
pub open spec fn is_uuid_text(s: Seq<char>, version: char) -> bool {
    &&& s.len() == 36
    &&& forall|k: int|
        0 <= k < 36 ==> if k == 8 || k == 13 || k == 18 || k == 23 {
            #[trigger] s[k] == '-'
        } else {
            is_lower_hex(s[k])
        }
    &&& s[14] == version
}

/// The version digit that a selected version generates (version 4 when none
/// is selected).
pub open spec fn version_digit(v: Option<Version>) -> char {
    match v {
        Some(Version::V7) => '7',
        _ => '4',
    }
}

/// `text` with the chosen quotes around it.
pub open spec fn wrapped(text: Seq<char>, quotes: Option<Quotes>) -> Seq<char> {
    match quotes {
        Some(Quotes::SingleQuotes) => "'"@ + text + "'"@,
        Some(Quotes::DoubleQuotes) => "\""@ + text + "\""@,
        _ => text,
    }
}

/// The line separator: with or without a comma.
pub open spec fn separator(comma: bool) -> Seq<char> {
    if comma {
        ",\n"@
    } else {
        "\n"@
    }
}

/// `items` joined by `sep`.
pub open spec fn joined(items: Seq<Seq<char>>, sep: Seq<char>) -> Seq<char>
    decreases items.len(),
{
    if items.len() == 0 {
        seq![]
    } else if items.len() == 1 {
        items[0]
    } else {
        joined(items.drop_last(), sep) + sep + items.last()
    }
}

/// The output for `ids`: each quoted, joined by the separator.
pub open spec fn output_spec(ids: Seq<Seq<char>>, quotes: Option<Quotes>, comma: bool) -> Seq<char> {
    joined(ids.map_values(|t: Seq<char>| wrapped(t, quotes)), separator(comma))
}

/// Relies on uuid's `Uuid::new_v4` and its `Display`, which writes the
/// hyphenated lower-case form; the version digit of a v4 UUID is 4.
#[verifier::external_body]
fn new_v4_text() -> (r: String)
    ensures
        is_uuid_text(r@, '4'),
{
    Uuid::new_v4().to_string()
}

/// Relies on uuid's `Uuid::now_v7` and its `Display`, which writes the
/// hyphenated lower-case form; the version digit of a v7 UUID is 7.
#[verifier::external_body]
fn now_v7_text() -> (r: String)
    ensures
        is_uuid_text(r@, '7'),
{
    Uuid::now_v7().to_string()
}

/// `text` with the chosen quotes around it.
pub fn wrap_with_quotes(text: String, quote_type: Option<Quotes>) -> (r: String)
    ensures
        r@ == wrapped(text@, quote_type),
{
    match quote_type {
        Some(Quotes::SingleQuotes) => "'".to_owned().concat(text.as_str()).concat("'"),
        Some(Quotes::DoubleQuotes) => "\"".to_owned().concat(text.as_str()).concat("\""),
        _ => text,
    }
}

/// Joins identifiers into the generator's output: each quoted, one per line,
/// lines separated by a comma when asked.
pub fn join_uuids(ids: &Vec<String>, quotes: Option<Quotes>, comma: bool) -> (r: String)
    ensures
        r@ == output_spec(ids@.map_values(|s: String| s@), quotes, comma),
{
    let ghost w = ids@.map_values(|s: String| s@).map_values(|t: Seq<char>| wrapped(t, quotes));
    let sep: &str = if comma {
        ",\n"
    } else {
        "\n"
    };
    let mut r = String::new();
    let mut i: usize = 0;
    while i < ids.len()
        invariant
            i <= ids.len(),
            sep@ == separator(comma),
            w == ids@.map_values(|s: String| s@).map_values(|t: Seq<char>| wrapped(t, quotes)),
            r@ == joined(w.subrange(0, i as int), sep@),
        decreases ids.len() - i,
    {
        let item = wrap_with_quotes(ids[i].clone(), quotes);
        assert(w.subrange(0, i + 1).drop_last() =~= w.subrange(0, i as int));
        if i == 0 {
            r = item;
        } else {
            r = r.concat(sep).concat(item.as_str());
        }
        i = i + 1;
    }
    assert(w.subrange(0, ids.len() as int) =~= w);
    r
}

/// Generates `parsed_amount` identifiers of the selected version (version 4
/// when none is selected) and joins them into the generator's output.
pub fn generate_result(
    parsed_amount: u32,
    selected_version: Option<Version>,
    selected_quotes: Option<Quotes>,
    is_separated_by_comma: bool,
) -> (r: String)
    ensures
        exists|ids: Seq<Seq<char>>|
            {
                &&& ids.len() == parsed_amount
                &&& forall|k: int| 0 <= k < ids.len() ==> is_uuid_text(#[trigger] ids[k], version_digit(selected_version))
                &&& r@ == output_spec(ids, selected_quotes, is_separated_by_comma)
            },
{
    let mut ids: Vec<String> = Vec::new();
    let mut i: u32 = 0;
    while i < parsed_amount
        invariant
            i <= parsed_amount,
            ids@.len() == i,
            forall|k: int| 0 <= k < i ==> is_uuid_text(#[trigger] ids@[k]@, version_digit(selected_version)),
        decreases parsed_amount - i,
    {
        let id = match selected_version {
            Some(Version::V7) => now_v7_text(),
            _ => new_v4_text(),
        };
        ids.push(id);
        i = i + 1;
    }
    let r = join_uuids(&ids, selected_quotes, is_separated_by_comma);
    let ghost t = ids@.map_values(|s: String| s@);
    assert(forall|k: int| 0 <= k < t.len() ==> is_uuid_text(#[trigger] t[k], version_digit(selected_version))) by {
        assert forall|k: int| 0 <= k < t.len() implies is_uuid_text(#[trigger] t[k], version_digit(selected_version)) by {
            assert(is_uuid_text(ids@[k]@, version_digit(selected_version)));
        }
    }
    r
}

/// The decimal value of a sequence of ASCII digits.
pub open spec fn digits_value(s: Seq<char>) -> int
    decreases s.len(),
{
    if s.len() == 0 {
        0
    } else {
        digits_value(s.drop_last()) * 10 + ((s.last() as u32) - ('0' as u32))
    }
}

/// Every character is an ASCII digit.
pub open spec fn all_digits(s: Seq<char>) -> bool {
    forall|k: int| 0 <= k < s.len() ==> '0' <= #[trigger] s[k] && s[k] <= '9'
}

/// An unsigned 32-bit number in decimal: an optional `+`, then at least one
/// digit, with a value that fits.
pub open spec fn parsed_u32(s: Seq<char>) -> Option<u32> {
    let d = if s.len() > 0 && s[0] == '+' {
        s.drop_first()
    } else {
        s
    };
    if d.len() > 0 && all_digits(d) && digits_value(d) <= u32::MAX {
        Some(digits_value(d) as u32)
    } else {
        None
    }
}

proof fn lemma_digits_value_grows(s: Seq<char>, k: int)
    requires
        all_digits(s),
        0 <= k <= s.len(),
    ensures
        digits_value(s) >= digits_value(s.subrange(0, k)) >= 0,
    decreases s.len(),
{
    if k < s.len() {
        let rest = s.drop_last();
        assert(all_digits(rest)) by {
            assert forall|j: int| 0 <= j < rest.len() implies '0' <= #[trigger] rest[j] && rest[j] <= '9' by {
                assert(s[j] == rest[j]);
            }
        }
        assert(rest.subrange(0, k) =~= s.subrange(0, k));
        lemma_digits_value_grows(rest, k);
        assert('0' <= s[s.len() - 1] && s[s.len() - 1] <= '9');
    } else {
        assert(s.subrange(0, k) =~= s);
        if s.len() > 0 {
            let rest = s.drop_last();
            assert(all_digits(rest)) by {
                assert forall|j: int| 0 <= j < rest.len() implies '0' <= #[trigger] rest[j] && rest[j] <= '9' by {
                    assert(s[j] == rest[j]);
                }
            }
            lemma_digits_value_grows(rest, 0);
            assert('0' <= s[s.len() - 1] && s[s.len() - 1] <= '9');
        }
    }
}

/// An unsigned 32-bit number in decimal: an optional `+`, then at least one
/// digit, with a value that fits; `None` for anything else, as std's
/// `u32::from_str` reads it.
pub fn parse_u32(s: &str) -> (r: Option<u32>)
    ensures
        r == parsed_u32(s@),
{
    let n = s.unicode_len();
    let mut i: usize = 0;
    if n > 0 && s.get_char(0) == '+' {
        i = 1;
        assert(s@.drop_first() =~= s@.subrange(1, n as int));
    } else {
        assert(s@ =~= s@.subrange(0, n as int));
    }
    let start = i;
    let ghost d = s@.subrange(start as int, n as int);
    if start == n {
        return None;
    }
    let mut acc: u64 = 0;
    assert(s@.subrange(start as int, start as int) =~= Seq::<char>::empty());
    while i < n
        invariant
            start <= i <= n,
            n == s@.len(),
            start < n,
            d == s@.subrange(start as int, n as int),
            parsed_u32(s@) == (if all_digits(d) && digits_value(d) <= u32::MAX {
                Some(digits_value(d) as u32)
            } else {
                None
            }),
            all_digits(s@.subrange(start as int, i as int)),
            acc == digits_value(s@.subrange(start as int, i as int)),
            acc <= u32::MAX,
        decreases n - i,
    {
        let c = s.get_char(i);
        if !('0' <= c && c <= '9') {
            assert(d[i - start] == c);
            return None;
        }
        let ghost prefix = s@.subrange(start as int, i + 1);
        assert(prefix.drop_last() =~= s@.subrange(start as int, i as int));
        assert(all_digits(prefix)) by {
            assert forall|j: int| 0 <= j < prefix.len() implies '0' <= #[trigger] prefix[j] && prefix[j] <= '9' by {
                if j < prefix.len() - 1 {
                    assert(prefix[j] == s@.subrange(start as int, i as int)[j]);
                }
            }
        }
        acc = acc * 10 + ((c as u32) - ('0' as u32)) as u64;
        if acc > u32::MAX as u64 {
            proof {
                if all_digits(d) {
                    assert(d.subrange(0, i + 1 - start) =~= prefix);
                    lemma_digits_value_grows(d, i + 1 - start);
                }
            }
            return None;
        }
        i = i + 1;
    }
    Some(acc as u32)
}

/// The settings of one generation.
#[derive(Debug, Clone, Copy, PartialEq, Eq, Structural)]
pub struct GenerationRequest {
    pub amount: u32,
    pub version: Option<Version>,
    pub quotes: Option<Quotes>,
    pub comma: bool,
}

/// Work that the generator asks its host to run in the background.
#[derive(Debug, Clone, Copy, PartialEq, Eq, Structural)]
pub enum Effect {
    /// Nothing to run.
    Nothing,
    /// Generate the output and hand it back as `Message::UuidList`.
    Generate(GenerationRequest),
    /// Ask for a file, write the output to it, and report the outcome as
    /// `Message::FilePicked`.
    SaveToFile(GenerationRequest),
}

/// State of the identifier generator.
pub struct UuidGenerator {
    pub selected_version: Option<Version>,
    pub output: String,
    pub tool_name: String,
    pub raw_amount: String,
    pub parsed_amount: u32,
    pub parsing_error: String,
    pub selected_quotes: Option<Quotes>,
    pub is_separated_by_comma: bool,
}

/// Input handled by the identifier generator.
#[derive(Debug, Clone)]
pub enum Message {
    Generated,
    Selected(Version),
    AmountChanged(String),
    QuotesSelected(Quotes),
    CommaSelected(bool),
    UuidList(String),
    SaveToFileClicked,
    FilePicked(Option<bool>),
}

impl UuidGenerator {
    /// At least one identifier is asked for.
    pub open spec fn wf(&self) -> bool {
        self.parsed_amount >= 1
    }

    /// The state of a freshly opened generator.
    pub open spec fn is_initial(&self) -> bool {
        &&& self.selected_version == Some(Version::V4)
        &&& self.output@.len() == 0
        &&& self.tool_name@ == UUID_GENERATOR_NAME@
        &&& self.raw_amount@ == "1"@
        &&& self.parsed_amount == 1
        &&& self.parsing_error@.len() == 0
        &&& self.selected_quotes == Some(Quotes::NoQuotes)
        &&& !self.is_separated_by_comma
    }

    /// The current settings as a generation request.
    pub open spec fn request_spec(&self) -> GenerationRequest {
        GenerationRequest {
            amount: self.parsed_amount,
            version: self.selected_version,
            quotes: self.selected_quotes,
            comma: self.is_separated_by_comma,
        }
    }

    /// The amount parses and is small enough to show.
    pub open spec fn can_display_spec(&self) -> bool {
        self.parsing_error@.len() == 0 && self.parsed_amount <= MAX_DISPLAYED
    }

    /// The amount parses.
    pub open spec fn can_export_spec(&self) -> bool {
        self.parsing_error@.len() == 0
    }

    /// How `update` takes the generator from `old` to `new` on `m`, asking for
    /// `e`.
    pub open spec fn update_post(old: UuidGenerator, m: Message, new: UuidGenerator, e: Effect) -> bool {
        match m {
            Message::Generated => new == old && e == Effect::Generate(old.request_spec()),
            Message::SaveToFileClicked => new == old && e == Effect::SaveToFile(old.request_spec()),
            Message::FilePicked(_) => new == old && e == Effect::Nothing,
            Message::Selected(v) => new == (UuidGenerator { selected_version: Some(v), ..old })
                && e == Effect::Nothing,
            Message::QuotesSelected(q) => new == (UuidGenerator { selected_quotes: Some(q), ..old })
                && e == Effect::Nothing,
            Message::CommaSelected(c) => new == (UuidGenerator { is_separated_by_comma: c, ..old })
                && e == Effect::Nothing,
            Message::UuidList(text) => new == (UuidGenerator { output: text, ..old }) && e
                == Effect::Nothing,
            Message::AmountChanged(value) => {
                &&& new.raw_amount == value
                &&& new.selected_version == old.selected_version
                &&& new.output == old.output
                &&& new.tool_name == old.tool_name
                &&& new.selected_quotes == old.selected_quotes
                &&& new.is_separated_by_comma == old.is_separated_by_comma
                &&& match parsed_u32(value@) {
                    Some(v) => if v > 0 {
                        new.parsed_amount == v && new.parsing_error@.len() == 0
                    } else {
                        new.parsed_amount == old.parsed_amount && new.parsing_error@
                            == "Amount must be at least 1 '"@ + value@ + "'"@
                    },
                    None => new.parsed_amount == old.parsed_amount && new.parsing_error@
                        == "Cannot parse '"@ + value@ + "'"@,
                }
                &&& e == Effect::Nothing
            },
        }
    }

    /// A fresh generator: one version 4 identifier, no quotes, no commas.
    pub fn new() -> (r: UuidGenerator)
        ensures
            r.is_initial(),
            r.wf(),
    {
        UuidGenerator {
            selected_version: Some(Version::V4),
            output: String::new(),
            tool_name: UUID_GENERATOR_NAME.to_owned(),
            raw_amount: "1".to_owned(),
            parsed_amount: 1,
            parsing_error: String::new(),
            selected_quotes: Some(Quotes::NoQuotes),
            is_separated_by_comma: false,
        }
    }

    /// The tool's display name.
    pub fn title(&self) -> (r: String)
        ensures
            r@ == self.tool_name@,
    {
        self.tool_name.clone()
    }

    /// Whether the output may be shown: the amount parses and is at most
    /// the display limit.
    pub fn can_display(&self) -> (r: bool)
        ensures
            r == self.can_display_spec(),
    {
        self.parsing_error.unicode_len() == 0 && self.parsed_amount <= MAX_DISPLAYED
    }

    /// Whether the output may be exported: the amount parses.
    pub fn can_export(&self) -> (r: bool)
        ensures
            r == self.can_export_spec(),
    {
        self.parsing_error.unicode_len() == 0
    }

    fn request(&self) -> (r: GenerationRequest)
        ensures
            r == self.request_spec(),
    {
        GenerationRequest {
            amount: self.parsed_amount,
            version: self.selected_version,
            quotes: self.selected_quotes,
            comma: self.is_separated_by_comma,
        }
    }

    /// Applies one input; generation and export are handed back as effects.
    pub fn update(&mut self, message: Message) -> (e: Effect)
        requires
            old(self).wf(),
        ensures
            UuidGenerator::update_post(*old(self), message, *final(self), e),
            final(self).wf(),
    {
        match message {
            Message::Generated => Effect::Generate(self.request()),
            Message::SaveToFileClicked => Effect::SaveToFile(self.request()),
            Message::FilePicked(_) => Effect::Nothing,
            Message::Selected(version) => {
                self.selected_version = Some(version);
                Effect::Nothing
            },
            Message::QuotesSelected(quotes) => {
                self.selected_quotes = Some(quotes);
                Effect::Nothing
            },
            Message::CommaSelected(value) => {
                self.is_separated_by_comma = value;
                Effect::Nothing
            },
            Message::UuidList(result) => {
                self.output = result;
                Effect::Nothing
            },
            Message::AmountChanged(value) => {
                match parse_u32(value.as_str()) {
                    Some(v) => {
                        if v > 0 {
                            self.parsed_amount = v;
                            self.parsing_error = String::new();
                        } else {
                            self.parsing_error = "Amount must be at least 1 '".to_owned().concat(
                                value.as_str(),
                            ).concat("'");
                        }
                    },
                    None => {
                        self.parsing_error = "Cannot parse '".to_owned().concat(value.as_str()).concat(
                            "'",
                        );
                    },
                }
                self.raw_amount = value;
                Effect::Nothing
            },
        }
    }
}

} // verus!
