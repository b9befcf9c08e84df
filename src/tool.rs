//! The closed catalog of tools and their display names.
use vstd::prelude::*;

verus! {

/// One variant per registered tool.
#[derive(Debug, Clone, Copy, PartialEq, Eq, Structural, Default)]
pub enum Tool {
    #[default]
    UuidGenerator,
    JsonBeautifier,
    Base64Converter,
    RandomDataGenerator,
}

/// Display name of the identifier generator.
pub const UUID_GENERATOR_NAME: &'static str = "UUID Generator";

/// Display name of the JSON beautifier.
pub const JSON_BEAUTIFIER_NAME: &'static str = "JSON Beautifier";

/// Display name of the base64 converter.
pub const BASE64_CONVERTER_NAME: &'static str = "Base64 Converter";

/// Display name of the random data generator.
pub const RANDOM_DATA_GENERATOR_NAME: &'static str = "Random Data Generator";

/// The catalog in its canonical order, which is also the tie-break order of the
/// launcher's ranking.
pub open spec fn catalog_spec() -> Seq<Tool> {
    seq![Tool::UuidGenerator, Tool::JsonBeautifier, Tool::Base64Converter, Tool::RandomDataGenerator]
}

/// The display names of the catalog, in catalog order.
pub open spec fn catalog_names_spec() -> Seq<Seq<char>> {
    catalog_spec().map_values(|t: Tool| t.name_spec())
}

impl Tool {
    /// The canonical display name of a tool.
    pub open spec fn name_spec(self) -> Seq<char> {
        match self {
            Tool::UuidGenerator => UUID_GENERATOR_NAME@,
            Tool::JsonBeautifier => JSON_BEAUTIFIER_NAME@,
            Tool::Base64Converter => BASE64_CONVERTER_NAME@,
            Tool::RandomDataGenerator => RANDOM_DATA_GENERATOR_NAME@,
        }
    }

    /// The tool whose display name is exactly `n`, if any.
    pub open spec fn from_name_spec(n: Seq<char>) -> Option<Tool> {
        if n == UUID_GENERATOR_NAME@ {
            Some(Tool::UuidGenerator)
        } else if n == JSON_BEAUTIFIER_NAME@ {
            Some(Tool::JsonBeautifier)
        } else if n == BASE64_CONVERTER_NAME@ {
            Some(Tool::Base64Converter)
        } else if n == RANDOM_DATA_GENERATOR_NAME@ {
            Some(Tool::RandomDataGenerator)
        } else {
            None
        }
    }

    /// The canonical display name of this tool.
    pub fn name(&self) -> (r: &'static str)
        ensures
            r@ == self.name_spec(),
    {
        match self {
            Tool::UuidGenerator => UUID_GENERATOR_NAME,
            Tool::JsonBeautifier => JSON_BEAUTIFIER_NAME,
            Tool::Base64Converter => BASE64_CONVERTER_NAME,
            Tool::RandomDataGenerator => RANDOM_DATA_GENERATOR_NAME,
        }
    }

    /// The display name as an owned string.
    pub fn to_string(&self) -> (r: String)
        ensures
            r@ == self.name_spec(),
    {
        self.name().to_owned()
    }

    /// Resolves a display name back to its tool; `None` for any other text.
    pub fn from_name(input: &str) -> (r: Option<Tool>)
        ensures
            r == Tool::from_name_spec(input@),
    {
        let s = input.to_owned();
        if s == UUID_GENERATOR_NAME.to_owned() {
            Some(Tool::UuidGenerator)
        } else if s == JSON_BEAUTIFIER_NAME.to_owned() {
            Some(Tool::JsonBeautifier)
        } else if s == BASE64_CONVERTER_NAME.to_owned() {
            Some(Tool::Base64Converter)
        } else if s == RANDOM_DATA_GENERATOR_NAME.to_owned() {
            Some(Tool::RandomDataGenerator)
        } else {
            None
        }
    }

    /// Every tool, in catalog order.
    pub fn all() -> (r: Vec<Tool>)
        ensures
            r@ == catalog_spec(),
    {
        let r = vec![Tool::UuidGenerator, Tool::JsonBeautifier, Tool::Base64Converter, Tool::RandomDataGenerator];
        assert(r@ =~= catalog_spec());
        r
    }

    /// The display names of every tool, in catalog order.
    pub fn all_names() -> (r: Vec<String>)
        ensures
            r@.map_values(|s: String| s@) == catalog_names_spec(),
    {
        let tools = Tool::all();
        let mut r: Vec<String> = Vec::new();
        let mut i: usize = 0;
        while i < tools.len()
            invariant
                i <= tools.len(),
                tools@ == catalog_spec(),
                r@.len() == i,
                forall|k: int| 0 <= k < i ==> #[trigger] r@[k]@ == tools@[k].name_spec(),
            decreases tools.len() - i,
        {
            r.push(tools[i].to_string());
            i = i + 1;
        }
        assert(r@.map_values(|s: String| s@) =~= catalog_names_spec());
        r
    }
}

impl std::str::FromStr for Tool {
    type Err = ();

    fn from_str(input: &str) -> (r: Result<Tool, ()>)
        ensures
            r == (match Tool::from_name_spec(input@) {
                Some(t) => Ok(t),
                None => Err(()),
            }),
    {
        match Tool::from_name(input) {
            Some(t) => Ok(t),
            None => Err(()),
        }
    }
}

/// Every display name resolves back to the tool that carries it.
pub proof fn lemma_name_round_trip(t: Tool)
    ensures
        Tool::from_name_spec(t.name_spec()) == Some(t),
{
    reveal_strlit("UUID Generator");
    reveal_strlit("JSON Beautifier");
    reveal_strlit("Base64 Converter");
    reveal_strlit("Random Data Generator");
    assert(UUID_GENERATOR_NAME@.len() == 14);
    assert(JSON_BEAUTIFIER_NAME@.len() == 15);
    assert(BASE64_CONVERTER_NAME@.len() == 16);
    assert(RANDOM_DATA_GENERATOR_NAME@.len() == 21);
}

} // verus!
