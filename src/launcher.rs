//! The launcher overlay: the query being typed, the ranked matches for it, the
//! result under the pointer, and what pressing Enter or clicking selects.
use vstd::prelude::*;
use crate::fuzzy::{fuzzy_match, fuzzy_match_spec, texts};
use crate::tool::{catalog_names_spec, Tool};

verus! {

/// Transient state of the search overlay.
pub struct Launcher {
    pub search_text: String,
    pub search_matches: Vec<String>,
    pub result_hovered: Option<String>,
}

/// Input handled by the overlay.
#[derive(Debug, Clone)]
pub enum Message {
    /// The query text was edited to this value.
    Search(String),
    /// Enter was pressed in the query field.
    SearchSubmitted,
    /// A result was clicked.
    SearchClicked(String),
    /// The pointer entered a result.
    ResultEntered(String),
    /// The pointer left a result.
    ResultExited(String),
}

/// The text held by an optional string.
pub open spec fn opt_text(o: Option<String>) -> Option<Seq<char>> {
    match o {
        Some(s) => Some(s@),
        None => None,
    }
}

impl Launcher {
    /// The query text.
    pub open spec fn query(&self) -> Seq<char> {
        self.search_text@
    }

    /// The ranked matches, best first.
    pub open spec fn matches(&self) -> Seq<Seq<char>> {
        texts(self.search_matches@)
    }

    /// The hovered result, if any.
    pub open spec fn hovered(&self) -> Option<Seq<char>> {
        opt_text(self.result_hovered)
    }

    /// The matches are those of the query against the catalog.
    pub open spec fn wf(&self) -> bool {
        self.matches() == fuzzy_match_spec(self.query(), catalog_names_spec())
    }

    /// Empty query, no matches, nothing hovered.
    pub open spec fn is_reset(&self) -> bool {
        self.query().len() == 0 && self.matches().len() == 0 && self.hovered() is None
    }

    /// What Enter selects: the tool named by the best match, if there is one.
    pub open spec fn submit_spec(&self) -> Option<Tool> {
        if self.matches().len() > 0 {
            Tool::from_name_spec(self.matches()[0])
        } else {
            None
        }
    }

    /// The hovered result after the matches become `matches`: kept only while
    /// it is still among them.
    pub open spec fn hover_after(hovered: Option<Seq<char>>, matches: Seq<Seq<char>>) -> Option<Seq<char>> {
        match hovered {
            Some(h) => if matches.contains(h) {
                Some(h)
            } else {
                None
            },
            None => None,
        }
    }

    /// How `update` takes the overlay from `old` to `new` on `m`, selecting `r`.
    pub open spec fn update_post(old: Launcher, m: Message, new: Launcher, r: Option<Tool>) -> bool {
        match m {
            Message::Search(text) => {
                &&& new.query() == text@
                &&& new.matches() == fuzzy_match_spec(text@, catalog_names_spec())
                &&& new.hovered() == Launcher::hover_after(old.hovered(), new.matches())
                &&& r is None
            },
            Message::SearchSubmitted => new == old && r == old.submit_spec(),
            Message::SearchClicked(name) => new == old && r == Tool::from_name_spec(name@),
            Message::ResultEntered(name) => {
                &&& new.search_text == old.search_text
                &&& new.search_matches == old.search_matches
                &&& new.hovered() == Some(name@)
                &&& r is None
            },
            Message::ResultExited(name) => {
                &&& new.search_text == old.search_text
                &&& new.search_matches == old.search_matches
                &&& new.hovered() == (if old.hovered() == Some(name@) {
                    None
                } else {
                    old.hovered()
                })
                &&& r is None
            },
        }
    }

    /// A closed overlay: empty query, no matches, nothing hovered.
    pub fn new() -> (r: Launcher)
        ensures
            r.is_reset(),
            r.wf(),
    {
        let r = Launcher { search_text: String::new(), search_matches: Vec::new(), result_hovered: None };
        assert(r.matches() =~= Seq::<Seq<char>>::empty());
        r
    }

    /// Clears the query, the matches and the hovered result.
    pub fn reset(&mut self)
        ensures
            final(self).is_reset(),
            final(self).wf(),
    {
        self.search_matches = Vec::new();
        self.search_text = String::new();
        self.result_hovered = None;
        assert(self.matches() =~= Seq::<Seq<char>>::empty());
    }

    /// Replaces the query and recomputes the matches against the catalog; the
    /// hovered result is dropped when it is no longer among them.
    pub fn set_query(&mut self, text: String)
        ensures
            final(self).query() == text@,
            final(self).matches() == fuzzy_match_spec(text@, catalog_names_spec()),
            final(self).hovered() == Launcher::hover_after(old(self).hovered(), final(self).matches()),
            final(self).wf(),
    {
        let catalog = Tool::all_names();
        let matches = fuzzy_match(text.as_str(), &catalog);
        let keep = match &self.result_hovered {
            Some(h) => contains_text(&matches, h),
            None => false,
        };
        if !keep {
            self.result_hovered = None;
        }
        self.search_text = text;
        self.search_matches = matches;
    }

    /// Whether the matches are those of the query against the catalog.
    pub fn is_well_formed(&self) -> (r: bool)
        ensures
            r == self.wf(),
    {
        let expected = fuzzy_match(self.search_text.as_str(), &Tool::all_names());
        if expected.len() != self.search_matches.len() {
            assert(texts(expected@).len() != self.matches().len());
            return false;
        }
        let mut i: usize = 0;
        while i < expected.len()
            invariant
                i <= expected.len(),
                expected.len() == self.search_matches.len(),
                texts(expected@) == fuzzy_match_spec(self.query(), catalog_names_spec()),
                forall|k: int| 0 <= k < i ==> #[trigger] expected@[k]@ == self.search_matches@[k]@,
            decreases expected.len() - i,
        {
            if !(expected[i] == self.search_matches[i]) {
                assert(texts(expected@)[i as int] != self.matches()[i as int]);
                assert(texts(expected@) != self.matches());
                return false;
            }
            i = i + 1;
        }
        assert(texts(expected@) =~= self.matches());
        true
    }

    /// The tool named by the best-ranked match, or `None` when nothing matches.
    pub fn submit(&self) -> (r: Option<Tool>)
        ensures
            r == self.submit_spec(),
    {
        if self.search_matches.len() >= 1 {
            Tool::from_name(self.search_matches[0].as_str())
        } else {
            None
        }
    }

    /// The tool named by a clicked result, whatever its rank.
    pub fn click(&self, name: &str) -> (r: Option<Tool>)
        ensures
            r == Tool::from_name_spec(name@),
    {
        Tool::from_name(name)
    }

    /// The pointer entered the result `name`.
    pub fn hover_enter(&mut self, name: String)
        ensures
            final(self).search_text == old(self).search_text,
            final(self).search_matches == old(self).search_matches,
            final(self).hovered() == Some(name@),
    {
        self.result_hovered = Some(name);
    }

    /// The pointer left the result `name`; a stale exit of another result
    /// leaves the hovered one in place.
    pub fn hover_exit(&mut self, name: &str)
        ensures
            final(self).search_text == old(self).search_text,
            final(self).search_matches == old(self).search_matches,
            final(self).hovered() == (if old(self).hovered() == Some(name@) {
                None
            } else {
                old(self).hovered()
            }),
    {
        let same = match &self.result_hovered {
            Some(h) => h.as_str().to_owned() == name.to_owned(),
            None => false,
        };
        if same {
            self.result_hovered = None;
        }
    }

    /// Applies one overlay input and reports the tool it selects, if any.
    pub fn update(&mut self, message: Message) -> (r: Option<Tool>)
        ensures
            Launcher::update_post(*old(self), message, *final(self), r),
            old(self).wf() ==> final(self).wf(),
    {
        match message {
            Message::Search(text) => {
                self.set_query(text);
                None
            },
            Message::SearchSubmitted => self.submit(),
            Message::SearchClicked(name) => self.click(name.as_str()),
            Message::ResultEntered(name) => {
                self.hover_enter(name);
                None
            },
            Message::ResultExited(name) => {
                self.hover_exit(name.as_str());
                None
            },
        }
    }
}

/// Whether one of `v` has the text of `s`.
fn contains_text(v: &Vec<String>, s: &String) -> (r: bool)
    ensures
        r == texts(v@).contains(s@),
{
    let mut i: usize = 0;
    while i < v.len()
        invariant
            i <= v.len(),
            forall|k: int| 0 <= k < i ==> v@[k]@ != s@,
        decreases v.len() - i,
    {
        if v[i] == *s {
            assert(texts(v@)[i as int] == s@);
            return true;
        }
        i = i + 1;
    }
    assert forall|k: int| 0 <= k < texts(v@).len() implies texts(v@)[k] != s@ by {
        assert(v@[k]@ != s@);
    }
    false
}

/// Enter on an overlay with matches selects the tool of the first match;
/// with no matches it selects nothing.
pub proof fn lemma_submit_takes_first(l: Launcher)
    ensures
        l.matches().len() > 0 ==> l.submit_spec() == Tool::from_name_spec(l.matches()[0]),
        l.matches().len() == 0 ==> l.submit_spec() is None,
{
}

} // verus!
