//! The shared session state and its lifecycle methods.
//!
//! One `State` lives for the whole process.  It holds the engine
//! configuration derived from the settings cache, the last suggestion, the
//! candidate list, the settings cache itself, and the sticky AltGr latch.
//! Session activity itself is owned by the external engine and is queried,
//! never cached: the event handlers take it as an argument.

use vstd::prelude::*;

use crate::actions::Action;
use crate::config::EngineConfig;
use crate::constants::DATABASE_PATH;
use crate::lookup::CandidateList;
use crate::settings::Settings;
use crate::suggestion::SuggestionView;

verus! {

/// The process-wide session state.
pub struct State {
    pub riti_cfg: EngineConfig,
    pub last_suggestion: Option<SuggestionView>,
    pub lookup_table: CandidateList,
    pub settings: Settings,
    pub alt_gr: bool,
}

/// The engine configuration a settings cache translates to.
pub open spec fn config_matches(cfg: EngineConfig, s: Settings) -> bool {
    &&& cfg.database_dir@ == DATABASE_PATH@
    &&& cfg.layout_file_path == s.layout_path
    &&& cfg.phonetic_suggestion == s.show_cwphonetic
    &&& cfg.suggestion_include_english == s.suggestion_include_english
    &&& cfg.fixed_suggestion == s.show_prev_win_fixed
    &&& cfg.fixed_automatic_vowel == s.auto_vowel_form_fixed
    &&& cfg.fixed_automatic_chandra == s.auto_chandra_pos_fixed
    &&& cfg.fixed_traditional_kar == s.traditional_kar_fixed
    &&& cfg.fixed_old_kar_order == s.fixed_old_kar_order
    &&& cfg.fixed_old_reph == s.old_reph
    &&& cfg.fixed_numpad == s.number_pad_fixed
    &&& cfg.ansi_encoding == s.ansi_encoding
    &&& cfg.smart_quote == s.smart_quoting
}

/// The three display commands that hide every surface, in the order the
/// reset protocol issues them.
pub open spec fn reset_display_actions(acts: Seq<Action>) -> bool {
    &&& acts.len() == 3
    &&& acts[0] is HidePreeditText
    &&& acts[1] is HideAuxiliaryText
    &&& acts[2] is HideLookupTable
}

/// After a reset or a commit: the candidate list is empty, the cursor is
/// back at zero, the suggestion is gone, and nothing else of the list
/// changed.
pub open spec fn display_cleared(o: State, n: State) -> bool {
    &&& n.lookup_table.candidates@.len() == 0
    &&& n.lookup_table.cursor == 0
    &&& n.lookup_table.horizontal == o.lookup_table.horizontal
    &&& n.lookup_table.page_size == o.lookup_table.page_size
    &&& n.last_suggestion is None
}

/// A cold-start refresh and nothing else: the configuration is recomputed
/// from the settings cache, the list orientation follows the settings, and
/// every other part of the state is untouched.
pub open spec fn refresh_only(o: State, n: State) -> bool {
    &&& n.settings == o.settings
    &&& n.alt_gr == o.alt_gr
    &&& n.last_suggestion == o.last_suggestion
    &&& config_matches(n.riti_cfg, o.settings)
    &&& n.lookup_table.horizontal == o.settings.candidate_win_horizontal
    &&& n.lookup_table.candidates@ == o.lookup_table.candidates@
    &&& n.lookup_table.cursor == o.lookup_table.cursor
    &&& n.lookup_table.page_size == o.lookup_table.page_size
}

/// The full effect of the commit protocol on a state, together with the
/// commands it issues.  With no active suggestion it is a no-op: nothing
/// is emitted, nothing changes.  Otherwise the selected text is committed,
/// the engine is told which candidate was accepted, and the display is
/// reset.
pub open spec fn commit_transition(o: State, n: State, acts: Seq<Action>) -> bool {
    &&& n.settings == o.settings
    &&& n.riti_cfg == o.riti_cfg
    &&& n.alt_gr == o.alt_gr
    &&& match o.last_suggestion {
        None => n == o && acts.len() == 0,
        Some(s) => {
            let idx: int = if s.lonely { 0 } else { o.lookup_table.cursor as int };
            &&& acts.len() == 5
            &&& (acts[0] matches Action::CommitText { text } && text == s.candidates@[idx])
            &&& (acts[1] matches Action::CandidateCommitted { index } && index == idx)
            &&& reset_display_actions(acts.subrange(2, 5))
            &&& display_cleared(o, n)
        },
    }
}

impl State {
    /// The candidate list is sound, any held suggestion is sound, and a
    /// held listed suggestion agrees with the candidate list built from
    /// it: same length, at least one entry, so the list cursor always
    /// selects one of its candidates.
    pub open spec fn wf(&self) -> bool {
        &&& self.lookup_table.wf()
        &&& (self.last_suggestion matches Some(s) ==> s.wf())
        &&& (self.last_suggestion matches Some(s) ==> (!s.lonely
            ==> s.candidates@.len() > 0
                && self.lookup_table.candidates@.len() == s.candidates@.len()))
    }

    /// The display refresh owed to the current suggestion: for a listed
    /// suggestion, the candidate-list snapshot and the preedit text of the
    /// candidate under the cursor; for a lonely one, its single preedit
    /// text; for none, nothing.
    pub open spec fn preedit_actions(self, acts: Seq<Action>) -> bool {
        match self.last_suggestion {
            None => acts.len() == 0,
            Some(s) => if s.lonely {
                &&& acts.len() == 1
                &&& (acts[0] matches Action::UpdatePreeditText { text } && text == s.candidates@[0])
            } else {
                &&& acts.len() == 2
                &&& (acts[0] matches Action::UpdateLookupTable { candidates, cursor, horizontal, page_size }
                    && candidates@ == self.lookup_table.candidates@
                    && cursor == self.lookup_table.cursor
                    && horizontal == self.lookup_table.horizontal
                    && page_size == self.lookup_table.page_size)
                &&& (acts[1] matches Action::UpdatePreeditText { text }
                    && text == s.candidates@[self.lookup_table.cursor as int])
            },
        }
    }

    /// A fresh state over a settings cache: configuration derived from the
    /// settings, an empty candidate list of ten entries per page in the
    /// configured orientation, no suggestion, and the AltGr latch clear.
    pub fn new(settings: Settings) -> (r: State)
        ensures
            r.wf(),
            r.settings == settings,
            config_matches(r.riti_cfg, settings),
            r.last_suggestion is None,
            r.lookup_table.candidates@.len() == 0,
            r.lookup_table.cursor == 0,
            r.lookup_table.horizontal == settings.candidate_win_horizontal,
            r.lookup_table.page_size == 10,
            !r.alt_gr,
    {
        let mut riti_cfg = EngineConfig::new();
        update_riti_config(&settings, &mut riti_cfg);
        let lookup_table = CandidateList::new(10, settings.get_candidate_win_horizontal());
        State { riti_cfg, last_suggestion: None, lookup_table, settings, alt_gr: false }
    }

    /// Resynchronizes the engine configuration and the candidate-list
    /// orientation from the settings cache.
    pub fn update_with_settings(&mut self)
        requires
            old(self).wf(),
        ensures
            final(self).wf(),
            refresh_only(*old(self), *final(self)),
    {
        update_riti_config(&self.settings, &mut self.riti_cfg);
        let horizontal = self.settings.get_candidate_win_horizontal();
        self.lookup_table.set_horizontal(horizontal);
    }

    /// Rebuilds the candidate display from the current suggestion: for a
    /// listed suggestion the list is cleared, the auxiliary text updated,
    /// every candidate appended in order and the cursor set to the
    /// previously selected index; always followed by the preedit refresh.
    pub fn update_lookup_table(&mut self) -> (r: Vec<Action>)
        requires
            old(self).lookup_table.wf(),
            old(self).last_suggestion matches Some(s) ==> s.wf() && !s.spec_is_empty(),
        ensures
            final(self).wf(),
            final(self).settings == old(self).settings,
            final(self).riti_cfg == old(self).riti_cfg,
            final(self).alt_gr == old(self).alt_gr,
            final(self).last_suggestion == old(self).last_suggestion,
            match old(self).last_suggestion {
                Some(s) => if !s.lonely {
                    &&& final(self).lookup_table.candidates@ == s.candidates@
                    &&& final(self).lookup_table.cursor == s.previously_selected_index
                    &&& final(self).lookup_table.horizontal == old(self).lookup_table.horizontal
                    &&& final(self).lookup_table.page_size == old(self).lookup_table.page_size
                    &&& r@.len() == 3
                    &&& (r@[0] matches Action::UpdateAuxiliaryText { text, visible }
                        && text == s.auxiliary_text && visible == true)
                    &&& final(self).preedit_actions(r@.skip(1))
                } else {
                    &&& final(self).lookup_table == old(self).lookup_table
                    &&& final(self).preedit_actions(r@)
                },
                None => final(self).lookup_table == old(self).lookup_table && r@.len() == 0,
            },
    {
        let mut acts: Vec<Action> = Vec::new();
        let taken = self.last_suggestion.take();
        match &taken {
            Some(s) => {
                if !s.is_lonely() {
                    acts.push(Action::UpdateAuxiliaryText {
                        text: s.auxiliary_text.clone(),
                        visible: true,
                    });
                    self.lookup_table.clear();
                    let mut i: usize = 0;
                    while i < s.candidates.len()
                        invariant
                            i <= s.candidates@.len(),
                            self.lookup_table.wf(),
                            self.lookup_table.candidates@.len() == i,
                            forall|j: int| 0 <= j < i
                                ==> self.lookup_table.candidates@[j] == s.candidates@[j],
                            self.lookup_table.cursor == 0,
                            self.lookup_table.horizontal == old(self).lookup_table.horizontal,
                            self.lookup_table.page_size == old(self).lookup_table.page_size,
                            self.last_suggestion is None,
                            self.settings == old(self).settings,
                            self.riti_cfg == old(self).riti_cfg,
                            self.alt_gr == old(self).alt_gr,
                        decreases s.candidates@.len() - i,
                    {
                        self.lookup_table.append_candidate(s.candidates[i].clone());
                        i = i + 1;
                    }
                    proof {
                        assert(self.lookup_table.candidates@ =~= s.candidates@);
                    }
                    self.lookup_table.set_cursor_pos(s.previously_selected_index);
                }
            }
            None => {}
        }
        self.last_suggestion = taken;
        let mut tail = self.update_preedit();
        acts.append(&mut tail);
        acts
    }

    /// The preedit refresh: pushes the candidate-list snapshot and the
    /// selected candidate's text for a listed suggestion, the single text
    /// for a lonely one, and nothing when no suggestion is held.
    pub fn update_preedit(&self) -> (r: Vec<Action>)
        requires
            self.wf(),
        ensures
            self.preedit_actions(r@),
    {
        let mut acts: Vec<Action> = Vec::new();
        match &self.last_suggestion {
            Some(s) => {
                if !s.is_lonely() {
                    let snapshot = copy_strings(&self.lookup_table.candidates);
                    acts.push(Action::UpdateLookupTable {
                        candidates: snapshot,
                        cursor: self.lookup_table.cursor_pos(),
                        horizontal: self.lookup_table.horizontal,
                        page_size: self.lookup_table.page_size,
                    });
                    let text = s.get_pre_edit_text(self.lookup_table.cursor_pos());
                    acts.push(Action::UpdatePreeditText { text });
                } else {
                    let text = s.get_pre_edit_text(0);
                    acts.push(Action::UpdatePreeditText { text });
                }
            }
            None => {}
        }
        acts
    }

    /// The reset protocol: empties the candidate list, drops the held
    /// suggestion, and hides the preedit, auxiliary and lookup surfaces.
    pub fn reset_engine(&mut self) -> (r: Vec<Action>)
        ensures
            final(self).wf(),
            display_cleared(*old(self), *final(self)),
            final(self).settings == old(self).settings,
            final(self).riti_cfg == old(self).riti_cfg,
            final(self).alt_gr == old(self).alt_gr,
            reset_display_actions(r@),
    {
        self.lookup_table.clear();
        self.last_suggestion = None;
        let mut acts: Vec<Action> = Vec::new();
        acts.push(Action::HidePreeditText);
        acts.push(Action::HideAuxiliaryText);
        acts.push(Action::HideLookupTable);
        acts
    }

    /// The commit protocol: resolves the text to emit — the candidate
    /// under the cursor for a listed suggestion, the single fixed text for
    /// a lonely one — commits it, notifies the engine of the accepted
    /// index, and resets the display.  With no active suggestion it does
    /// nothing at all.
    pub fn commit(&mut self) -> (r: Vec<Action>)
        requires
            old(self).wf(),
        ensures
            final(self).wf(),
            commit_transition(*old(self), *final(self), r@),
    {
        let resolved: Option<(usize, String)> = match &self.last_suggestion {
            Some(s) => {
                if !s.is_lonely() {
                    let index = self.lookup_table.cursor_pos();
                    Some((index, s.get_pre_edit_text(index)))
                } else {
                    Some((0, s.get_lonely_suggestion()))
                }
            }
            None => None,
        };
        match resolved {
            Some((index, text)) => {
                let mut acts: Vec<Action> = Vec::new();
                acts.push(Action::CommitText { text });
                acts.push(Action::CandidateCommitted { index });
                let mut tail = self.reset_engine();
                acts.append(&mut tail);
                acts
            }
            None => Vec::new(),
        }
    }

    /// Commits an already-resolved text: emits it to the host and resets
    /// the display.
    pub fn commit_text(&mut self, text: String) -> (r: Vec<Action>)
        ensures
            final(self).wf(),
            display_cleared(*old(self), *final(self)),
            final(self).settings == old(self).settings,
            final(self).riti_cfg == old(self).riti_cfg,
            final(self).alt_gr == old(self).alt_gr,
            r@.len() == 4,
            (r@[0] matches Action::CommitText { text: t } && t == text),
            reset_display_actions(r@.skip(1)),
    {
        let mut acts: Vec<Action> = Vec::new();
        acts.push(Action::CommitText { text });
        let mut tail = self.reset_engine();
        acts.append(&mut tail);
        acts
    }

    /// Pushes the current configuration into the engine.
    pub fn update_engine(&self) -> (r: Vec<Action>)
        ensures
            r@.len() == 1,
            (r@[0] matches Action::ApplyConfig { config } && config == self.riti_cfg),
    {
        let mut acts: Vec<Action> = Vec::new();
        acts.push(Action::ApplyConfig { config: self.riti_cfg.duplicate() });
        acts
    }
}

/// Translates the settings cache into the engine's configuration record.
pub fn update_riti_config(settings: &Settings, riti_cfg: &mut EngineConfig)
    ensures
        config_matches(*final(riti_cfg), *settings),
{
    riti_cfg.database_dir = DATABASE_PATH.to_string();
    riti_cfg.layout_file_path = settings.get_layout_path();
    riti_cfg.phonetic_suggestion = settings.get_show_cwphonetic();
    riti_cfg.suggestion_include_english = settings.get_suggestion_include_english();
    riti_cfg.fixed_suggestion = settings.get_show_prev_win_fixed();
    riti_cfg.fixed_automatic_vowel = settings.get_auto_vowel_form_fixed();
    riti_cfg.fixed_automatic_chandra = settings.get_auto_chandra_pos_fixed();
    riti_cfg.fixed_traditional_kar = settings.get_traditional_kar_fixed();
    riti_cfg.fixed_old_kar_order = settings.get_fixed_old_kar_order();
    riti_cfg.fixed_old_reph = settings.get_old_reph();
    riti_cfg.fixed_numpad = settings.get_number_pad_fixed();
    riti_cfg.ansi_encoding = settings.get_ansi_encoding();
    riti_cfg.smart_quote = settings.get_smart_quoting();
}

/// Committing with no active suggestion is a complete no-op: the commit
/// protocol then mutates no display state and issues no command at all —
/// nothing is emitted and the engine is not notified.
pub proof fn lemma_commit_of_absence(o: State, n: State, acts: Seq<Action>)
    requires
        commit_transition(o, n, acts),
        o.last_suggestion is None,
    ensures
        n == o,
        acts.len() == 0,
{
}

/// A fresh vector holding the same strings in the same order.
fn copy_strings(v: &Vec<String>) -> (r: Vec<String>)
    ensures
        r@ == v@,
{
    let mut r: Vec<String> = Vec::new();
    let mut i: usize = 0;
    while i < v.len()
        invariant
            i <= v@.len(),
            r@.len() == i,
            forall|j: int| 0 <= j < i ==> r@[j] == v@[j],
        decreases v@.len() - i,
    {
        r.push(v[i].clone());
        i = i + 1;
    }
    proof {
        assert(r@ =~= v@);
    }
    r
}

} // verus!
