//! The suggestion view: one engine response, held as plain values.
//!
//! A view is immutable once constructed.  A "lonely" suggestion has exactly
//! one already-decided representation and no navigable list; a listed
//! suggestion carries an ordered candidate sequence, an auxiliary text, and
//! the index that was previously selected for the same input.  An empty view
//! (no candidates at all) stands for the engine declining the event or for a
//! session that has just ended.

use vstd::prelude::*;

verus! {

/// One suggestion from the transliteration engine.
#[derive(Debug, PartialEq)]
pub struct SuggestionView {
    pub auxiliary_text: String,
    pub candidates: Vec<String>,
    pub previously_selected_index: usize,
    pub lonely: bool,
}

impl SuggestionView {
    /// A lonely view holds exactly one candidate; any view with candidates
    /// keeps its previously-selected index inside them; an empty view keeps
    /// the index at zero.
    pub open spec fn wf(&self) -> bool {
        &&& self.lonely ==> self.candidates.len() == 1
        &&& self.candidates.len() > 0 ==> self.previously_selected_index < self.candidates.len()
        &&& self.candidates.len() == 0 ==> self.previously_selected_index == 0
    }

    /// Whether the engine returned nothing for the event.
    pub open spec fn spec_is_empty(&self) -> bool {
        self.candidates.len() == 0
    }

    /// The empty view: the engine had no suggestion.
    pub fn new_empty() -> (r: SuggestionView)
        ensures
            r.wf(),
            r.spec_is_empty(),
            !r.lonely,
    {
        SuggestionView {
            auxiliary_text: String::new(),
            candidates: Vec::new(),
            previously_selected_index: 0,
            lonely: false,
        }
    }

    /// A lonely view: one fixed text, no navigable list.
    pub fn new_lonely(text: String) -> (r: SuggestionView)
        ensures
            r.wf(),
            r.lonely,
            !r.spec_is_empty(),
            r.candidates@ == seq![text],
            r.previously_selected_index == 0,
    {
        let mut candidates: Vec<String> = Vec::new();
        candidates.push(text);
        proof {
            assert(candidates@ =~= seq![text]);
        }
        SuggestionView {
            auxiliary_text: String::new(),
            candidates,
            previously_selected_index: 0,
            lonely: true,
        }
    }

    /// A listed view: the ordered candidates, the auxiliary text shown
    /// above them, and the index selected when this input was last seen.
    pub fn new_list(
        auxiliary_text: String,
        candidates: Vec<String>,
        previously_selected_index: usize,
    ) -> (r: SuggestionView)
        requires
            candidates@.len() > 0,
            previously_selected_index < candidates@.len(),
        ensures
            r.wf(),
            !r.lonely,
            !r.spec_is_empty(),
            r.auxiliary_text == auxiliary_text,
            r.candidates == candidates,
            r.previously_selected_index == previously_selected_index,
    {
        SuggestionView { auxiliary_text, candidates, previously_selected_index, lonely: false }
    }

    /// Whether this suggestion is lonely.
    pub fn is_lonely(&self) -> (r: bool)
        ensures
            r == self.lonely,
    {
        self.lonely
    }

    /// Whether the engine returned nothing.
    pub fn is_empty(&self) -> (r: bool)
        ensures
            r == self.spec_is_empty(),
    {
        self.candidates.len() == 0
    }

    /// The auxiliary text.
    pub fn get_auxiliary_text(&self) -> (r: &String)
        ensures
            r == self.auxiliary_text,
    {
        &self.auxiliary_text
    }

    /// The ordered candidate strings.
    pub fn get_suggestions(&self) -> (r: &Vec<String>)
        ensures
            r == self.candidates,
    {
        &self.candidates
    }

    /// The index selected when this input was last seen.
    pub fn previously_selected_index(&self) -> (r: usize)
        ensures
            r == self.previously_selected_index,
    {
        self.previously_selected_index
    }

    /// The preedit text to show while the candidate at `index` is selected.
    pub fn get_pre_edit_text(&self, index: usize) -> (r: String)
        requires
            index < self.candidates@.len(),
        ensures
            r == self.candidates@[index as int],
    {
        self.candidates[index].clone()
    }

    /// The single fixed text of a lonely suggestion.
    pub fn get_lonely_suggestion(&self) -> (r: String)
        requires
            self.lonely,
            self.wf(),
        ensures
            r == self.candidates@[0],
    {
        self.candidates[0].clone()
    }
}

} // verus!
