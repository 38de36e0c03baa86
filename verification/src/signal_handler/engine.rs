//! The key-event state machine and the session-lifecycle handlers.
//!
//! `process_key_event` consumes one key event and decides everything that
//! can be decided without the engine: release filtering, the cold-start
//! configuration refresh, the special-key fast path (backspace, commit
//! triggers, candidate navigation, pure modifiers and the sticky AltGr
//! latch), and the reject rules of the generic path.  Where the
//! transliteration engine must be consulted it returns a `SubmitKey` or
//! `SubmitBackspace` follow-up; the caller performs that engine call and
//! hands the resulting suggestion back through `apply_key_response` or
//! `apply_backspace_response`, which finish the transition.
//!
//! Session activity is owned by the engine: the handlers take the queried
//! `session_active` answer as an argument, and a commit is taken to end
//! the session it commits.

use vstd::prelude::*;

use crate::actions::Action;
use crate::keycode::{spec_translatable, spec_translate, ibus_to_riti_keycode, MODIFIER_ALT_GR,
    MODIFIER_SHIFT};
use crate::keys::{spec_has_alt, spec_has_control, spec_has_shift, spec_is_release,
    spec_valid_modifier_bits, ALT_L, ALT_R, BACKSPACE, CONTROL_L, CONTROL_MASK, CONTROL_R, DOWN,
    ISO_LEVEL3_SHIFT, KP_ENTER, LEFT, META_L, META_R, MOD1_MASK, RELEASE_MASK, RETURN, RIGHT,
    SHIFT_L, SHIFT_MASK, SHIFT_R, SPACE, TAB, UP};
use crate::state::{commit_transition, config_matches, display_cleared, reset_display_actions,
    State};
use crate::suggestion::SuggestionView;

verus! {

/// What must still happen after the decided part of a key event: nothing
/// (with the final consumed verdict), or one engine call whose answer is
/// handed back to `apply_key_response` / `apply_backspace_response`.
#[derive(Debug, PartialEq)]
pub enum KeyNext {
    /// The event is fully handled; report this consumed verdict.
    Done { consumed: bool },
    /// Submit this engine key code and modifier byte to the engine.
    SubmitKey { key: u16, modifier: u8 },
    /// Forward a backspace to the engine; `delete_word` asks for
    /// word-delete rather than character-delete.
    SubmitBackspace { delete_word: bool },
}

/// One key event's outcome: the commands to perform now, in order, and the
/// follow-up.
#[derive(Debug, PartialEq)]
pub struct KeyOutcome {
    pub actions: Vec<Action>,
    pub next: KeyNext,
}

/// The secondary-Alt/level-3-shift key, tracked by the sticky AltGr latch.
pub open spec fn is_altgr_key(k: i32) -> bool {
    k == ALT_R || k == ISO_LEVEL3_SHIFT
}

/// The pure modifier keys of the special-key fast path.
pub open spec fn is_pure_modifier_key(k: i32) -> bool {
    ||| is_altgr_key(k)
    ||| k == SHIFT_L || k == SHIFT_R
    ||| k == CONTROL_L || k == CONTROL_R
    ||| k == ALT_L
    ||| k == META_L || k == META_R
}

/// The arrow and Tab keys of the navigation fast path.
pub open spec fn is_nav_key(k: i32) -> bool {
    k == RIGHT || k == LEFT || k == UP || k == DOWN || k == TAB
}

/// Whether this navigation key advances the cursor under the given
/// candidate-list orientation: Right in horizontal, Down in vertical, Tab
/// in either.
pub open spec fn nav_advances(k: i32, horizontal: bool) -> bool {
    (horizontal && k == RIGHT) || (!horizontal && k == DOWN) || k == TAB
}

/// Whether this navigation key retreats the cursor under the given
/// orientation: Left in horizontal, Up in vertical.
pub open spec fn nav_retreats(k: i32, horizontal: bool) -> bool {
    (horizontal && k == LEFT) || (!horizontal && k == UP)
}

/// The generic path rejects a key held with control but not Alt, with Alt
/// alone while the AltGr latch is clear, or with no engine translation.
pub open spec fn rejects_generic(k: i32, m: u32, alt_gr: bool) -> bool {
    ||| spec_has_control(m) && !spec_has_alt(m)
    ||| !spec_has_control(m) && spec_has_alt(m) && !alt_gr
    ||| !spec_translatable(k)
}

/// The modifier byte submitted with a translated key: the shift bit from
/// the event, and the AltGr bit when control and Alt are held together or
/// the sticky latch is set.
pub open spec fn spec_modifier_byte(m: u32, alt_gr: bool) -> u8 {
    let s = spec_has_shift(m);
    let g = (spec_has_control(m) && spec_has_alt(m)) || alt_gr;
    if s && g {
        (MODIFIER_SHIFT + MODIFIER_ALT_GR) as u8
    } else if s {
        MODIFIER_SHIFT
    } else if g {
        MODIFIER_ALT_GR
    } else {
        0u8
    }
}

/// The cold-start refresh, as it leaves the state: configuration
/// recomputed from the settings cache, list orientation refreshed, and
/// settings, suggestion and the rest of the list untouched.
pub open spec fn cold_refresh_state(o: State, n: State) -> bool {
    &&& n.settings == o.settings
    &&& n.last_suggestion == o.last_suggestion
    &&& config_matches(n.riti_cfg, o.settings)
    &&& n.lookup_table.horizontal == o.settings.candidate_win_horizontal
    &&& n.lookup_table.candidates@ == o.lookup_table.candidates@
    &&& n.lookup_table.cursor == o.lookup_table.cursor
    &&& n.lookup_table.page_size == o.lookup_table.page_size
}

/// The one command the cold-start refresh issues: push the recomputed
/// configuration into the engine.
pub open spec fn cold_refresh_actions(n: State, acts: Seq<Action>) -> bool {
    &&& acts.len() == 1
    &&& (acts[0] matches Action::ApplyConfig { config } && config == n.riti_cfg)
}

/// The cold-start refresh with the AltGr latch untouched.
pub open spec fn cold_only(o: State, n: State, acts: Seq<Action>) -> bool {
    &&& cold_refresh_state(o, n)
    &&& n.alt_gr == o.alt_gr
    &&& cold_refresh_actions(n, acts)
}

/// The saturating one-step cursor move a navigation key asks for.
pub open spec fn stepped_cursor(o: State, k: i32, horizontal: bool) -> int {
    if nav_advances(k, horizontal) {
        if o.lookup_table.cursor + 1 < o.lookup_table.candidates@.len() {
            o.lookup_table.cursor + 1
        } else {
            o.lookup_table.cursor as int
        }
    } else {
        if o.lookup_table.cursor > 0 {
            o.lookup_table.cursor - 1
        } else {
            0
        }
    }
}

/// The complete specification of one key event's decided part: how the
/// state may change, which commands come out, and what must follow.
pub open spec fn key_event_spec(
    o: State,
    n: State,
    k: i32,
    m: u32,
    active: bool,
    acts: Seq<Action>,
    next: KeyNext,
) -> bool {
    if spec_is_release(m) {
        // Release filtering: never forwarded; releasing the AltGr key
        // clears the sticky latch.
        &&& n.alt_gr == (if is_altgr_key(k) { false } else { o.alt_gr })
        &&& n.settings == o.settings
        &&& n.riti_cfg == o.riti_cfg
        &&& n.lookup_table == o.lookup_table
        &&& n.last_suggestion == o.last_suggestion
        &&& acts.len() == 0
        &&& next == (KeyNext::Done { consumed: false })
    } else if k == BACKSPACE {
        // Only meaningful mid-session; forwarded with the word-delete
        // flag taken from the control modifier.
        if active {
            &&& n == o
            &&& acts.len() == 0
            &&& next == (KeyNext::SubmitBackspace { delete_word: spec_has_control(m) })
        } else {
            &&& cold_only(o, n, acts)
            &&& next == (KeyNext::Done { consumed: false })
        }
    } else if k == RETURN || k == KP_ENTER {
        // Return and numpad-enter commit mid-session and are consumed;
        // otherwise they fall back to the host.
        if active {
            &&& commit_transition(o, n, acts)
            &&& next == (KeyNext::Done { consumed: true })
        } else {
            &&& cold_only(o, n, acts)
            &&& next == (KeyNext::Done { consumed: false })
        }
    } else if k == SPACE {
        // Plain Space commits mid-session but is never consumed, so the
        // space character still reaches the host's normal text path.
        if active {
            &&& commit_transition(o, n, acts)
            &&& next == (KeyNext::Done { consumed: false })
        } else {
            &&& cold_only(o, n, acts)
            &&& next == (KeyNext::Done { consumed: false })
        }
    } else if is_nav_key(k) {
        if active {
            let lonely = match o.last_suggestion {
                None => true,
                Some(s) => s.lonely,
            };
            let horizontal = o.settings.candidate_win_horizontal;
            if lonely {
                // No navigable list: the key becomes a commit trigger and
                // then falls back to the host.
                &&& commit_transition(o, n, acts)
                &&& next == (KeyNext::Done { consumed: false })
            } else if nav_advances(k, horizontal) || nav_retreats(k, horizontal) {
                // One saturating cursor step, then the preedit refresh.
                &&& n.settings == o.settings
                &&& n.riti_cfg == o.riti_cfg
                &&& n.alt_gr == o.alt_gr
                &&& n.last_suggestion == o.last_suggestion
                &&& n.lookup_table.candidates@ == o.lookup_table.candidates@
                &&& n.lookup_table.horizontal == o.lookup_table.horizontal
                &&& n.lookup_table.page_size == o.lookup_table.page_size
                &&& n.lookup_table.cursor == stepped_cursor(o, k, horizontal)
                &&& n.preedit_actions(acts)
                &&& next == (KeyNext::Done { consumed: true })
            } else {
                // No navigation applies under this orientation: the key
                // falls through, fails translation, and commits.
                &&& commit_transition(o, n, acts)
                &&& next == (KeyNext::Done { consumed: false })
            }
        } else {
            &&& cold_only(o, n, acts)
            &&& next == (KeyNext::Done { consumed: false })
        }
    } else if is_pure_modifier_key(k) {
        // Pressing the AltGr key sets the sticky latch; modifier presses
        // are consumed exactly while a session is active.
        &&& n.alt_gr == (if is_altgr_key(k) { true } else { o.alt_gr })
        &&& n.settings == o.settings
        &&& n.last_suggestion == o.last_suggestion
        &&& if active {
            n.riti_cfg == o.riti_cfg && n.lookup_table == o.lookup_table && acts.len() == 0
        } else {
            cold_refresh_state(o, n) && cold_refresh_actions(n, acts)
        }
        &&& next == (KeyNext::Done { consumed: active })
    } else {
        // Generic path.
        if rejects_generic(k, m, o.alt_gr) {
            // Rejected: commit any active session and fall back to the
            // host.
            if active {
                &&& commit_transition(o, n, acts)
                &&& next == (KeyNext::Done { consumed: false })
            } else {
                &&& cold_only(o, n, acts)
                &&& next == (KeyNext::Done { consumed: false })
            }
        } else {
            // Forward the translated key with the modifier byte.
            &&& if active {
                n == o && acts.len() == 0
            } else {
                cold_only(o, n, acts)
            }
            &&& (spec_translate(k) matches Some(code)
                && next == (KeyNext::SubmitKey {
                    key: code,
                    modifier: spec_modifier_byte(m, o.alt_gr),
                }))
        }
    }
}

/// One key event, decided as far as the engine's answer is not needed.
pub fn process_key_event(
    st: &mut State,
    keyval: i32,
    state_bits: u32,
    session_active: bool,
) -> (out: KeyOutcome)
    requires
        old(st).wf(),
        spec_valid_modifier_bits(state_bits),
    ensures
        final(st).wf(),
        key_event_spec(
            *old(st),
            *final(st),
            keyval,
            state_bits,
            session_active,
            out.actions@,
            out.next,
        ),
{
    // Release filtering.
    if state_bits & RELEASE_MASK != 0 {
        if keyval == ALT_R || keyval == ISO_LEVEL3_SHIFT {
            st.alt_gr = false;
        }
        return KeyOutcome { actions: Vec::new(), next: KeyNext::Done { consumed: false } };
    }

    // Cold-start refresh: resynchronize the configuration before
    // interpreting the key.
    let mut actions: Vec<Action> = Vec::new();
    if !session_active {
        st.update_with_settings();
        let mut tail = st.update_engine();
        actions.append(&mut tail);
    }

    // Special-key fast path.
    if keyval == BACKSPACE {
        if session_active {
            let delete_word = state_bits & CONTROL_MASK != 0;
            return KeyOutcome { actions, next: KeyNext::SubmitBackspace { delete_word } };
        } else {
            return KeyOutcome { actions, next: KeyNext::Done { consumed: false } };
        }
    }
    if keyval == RETURN || keyval == KP_ENTER {
        if session_active {
            let mut tail = st.commit();
            actions.append(&mut tail);
            return KeyOutcome { actions, next: KeyNext::Done { consumed: true } };
        } else {
            return KeyOutcome { actions, next: KeyNext::Done { consumed: false } };
        }
    }
    if keyval == SPACE {
        if session_active {
            let mut tail = st.commit();
            actions.append(&mut tail);
        }
        return KeyOutcome { actions, next: KeyNext::Done { consumed: false } };
    }
    if keyval == RIGHT || keyval == LEFT || keyval == UP || keyval == DOWN || keyval == TAB {
        if session_active {
            let lonely = match &st.last_suggestion {
                Some(s) => s.is_lonely(),
                None => true,
            };
            if lonely {
                let mut tail = st.commit();
                actions.append(&mut tail);
                return KeyOutcome { actions, next: KeyNext::Done { consumed: false } };
            } else {
                let horizontal = st.settings.get_candidate_win_horizontal();
                let advances = (horizontal && keyval == RIGHT)
                    || (!horizontal && keyval == DOWN) || keyval == TAB;
                let retreats = (horizontal && keyval == LEFT) || (!horizontal && keyval == UP);
                if advances {
                    st.lookup_table.cursor_down();
                    let mut tail = st.update_preedit();
                    actions.append(&mut tail);
                    return KeyOutcome { actions, next: KeyNext::Done { consumed: true } };
                } else if retreats {
                    st.lookup_table.cursor_up();
                    let mut tail = st.update_preedit();
                    actions.append(&mut tail);
                    return KeyOutcome { actions, next: KeyNext::Done { consumed: true } };
                } else {
                    let mut tail = st.commit();
                    actions.append(&mut tail);
                    return KeyOutcome { actions, next: KeyNext::Done { consumed: false } };
                }
            }
        } else {
            return KeyOutcome { actions, next: KeyNext::Done { consumed: false } };
        }
    }
    if keyval == ALT_R || keyval == ISO_LEVEL3_SHIFT || keyval == SHIFT_L || keyval == SHIFT_R
        || keyval == CONTROL_L || keyval == CONTROL_R || keyval == ALT_L || keyval == META_L
        || keyval == META_R {
        if keyval == ALT_R || keyval == ISO_LEVEL3_SHIFT {
            st.alt_gr = true;
        }
        return KeyOutcome { actions, next: KeyNext::Done { consumed: session_active } };
    }

    // Generic path.
    let shift_held = state_bits & SHIFT_MASK != 0;
    let ctrl_held = state_bits & CONTROL_MASK != 0;
    let alt_held = state_bits & MOD1_MASK != 0;
    let riti_key = ibus_to_riti_keycode(keyval);

    if (ctrl_held && !alt_held) || (!ctrl_held && alt_held && !st.alt_gr) || riti_key.is_none() {
        if session_active {
            let mut tail = st.commit();
            actions.append(&mut tail);
        }
        return KeyOutcome { actions, next: KeyNext::Done { consumed: false } };
    }

    let mut modifier: u8 = 0;
    if shift_held {
        modifier = MODIFIER_SHIFT;
    }
    if (ctrl_held && alt_held) || st.alt_gr {
        modifier = modifier + MODIFIER_ALT_GR;
    }

    KeyOutcome {
        actions,
        next: KeyNext::SubmitKey { key: riti_key.unwrap(), modifier },
    }
}

/// With a lonely active suggestion, an arrow or Tab key mid-session is
/// always a commit trigger and never a cursor movement: the key event ends
/// in the commit protocol emitting that suggestion's single text, and the
/// candidate list is left cleared, not stepped.
pub proof fn lemma_lonely_nav_commits(
    o: State,
    n: State,
    k: i32,
    m: u32,
    acts: Seq<Action>,
    next: KeyNext,
)
    requires
        key_event_spec(o, n, k, m, true, acts, next),
        !spec_is_release(m),
        is_nav_key(k),
        o.last_suggestion matches Some(s) && s.lonely,
    ensures
        commit_transition(o, n, acts),
        acts.len() == 5,
        (acts[0] matches Action::CommitText { text }
            && o.last_suggestion matches Some(s) && text == s.candidates@[0]),
        next == (KeyNext::Done { consumed: false }),
{
}

/// With a listed (non-lonely) active suggestion, an arrow or Tab key that
/// applies under the configured orientation always moves the cursor by one
/// saturating step and never commits: the event is consumed, no text is
/// emitted, and the suggestion stays active.
pub proof fn lemma_listed_nav_moves(
    o: State,
    n: State,
    k: i32,
    m: u32,
    acts: Seq<Action>,
    next: KeyNext,
)
    requires
        key_event_spec(o, n, k, m, true, acts, next),
        !spec_is_release(m),
        is_nav_key(k),
        o.last_suggestion matches Some(s) && !s.lonely,
        nav_advances(k, o.settings.candidate_win_horizontal)
            || nav_retreats(k, o.settings.candidate_win_horizontal),
    ensures
        n.lookup_table.cursor == stepped_cursor(o, k, o.settings.candidate_win_horizontal),
        n.last_suggestion == o.last_suggestion,
        n.preedit_actions(acts),
        forall|i: int| 0 <= i < acts.len() ==> !(acts[i] is CommitText),
        next == (KeyNext::Done { consumed: true }),
{
}

/// Pressing the secondary-Alt/level-3-shift key sets the sticky AltGr
/// latch, whatever its previous value.
pub proof fn lemma_altgr_press_sets_latch(
    o: State,
    n: State,
    k: i32,
    m: u32,
    active: bool,
    acts: Seq<Action>,
    next: KeyNext,
)
    requires
        key_event_spec(o, n, k, m, active, acts, next),
        !spec_is_release(m),
        is_altgr_key(k),
    ensures
        n.alt_gr,
{
}

/// Releasing the secondary-Alt/level-3-shift key clears the sticky AltGr
/// latch, and a release never reaches the engine: the event is not
/// consumed and nothing else changes.
pub proof fn lemma_altgr_release_clears_latch(
    o: State,
    n: State,
    k: i32,
    m: u32,
    active: bool,
    acts: Seq<Action>,
    next: KeyNext,
)
    requires
        key_event_spec(o, n, k, m, active, acts, next),
        spec_is_release(m),
        is_altgr_key(k),
    ensures
        !n.alt_gr,
        acts.len() == 0,
        next == (KeyNext::Done { consumed: false }),
{
}

/// The sticky AltGr latch makes an Alt-only key event a valid AltGr
/// combination: with the latch set, a translatable key held with Alt and
/// without control is not rejected but forwarded to the engine with the
/// AltGr modifier bit set.
pub proof fn lemma_altgr_latch_enables_alt(
    o: State,
    n: State,
    k: i32,
    m: u32,
    active: bool,
    acts: Seq<Action>,
    next: KeyNext,
)
    requires
        key_event_spec(o, n, k, m, active, acts, next),
        !spec_is_release(m),
        spec_has_alt(m),
        !spec_has_control(m),
        o.alt_gr,
        spec_translatable(k),
        k != BACKSPACE && k != RETURN && k != SPACE && k != KP_ENTER,
        !is_nav_key(k),
        !is_pure_modifier_key(k),
    ensures
        (next matches KeyNext::SubmitKey { key, modifier }
            && key == spec_translate(k).unwrap()
            && (modifier == MODIFIER_ALT_GR
                || modifier == (MODIFIER_SHIFT + MODIFIER_ALT_GR) as u8)),
{
}

/// A shown suggestion, as `apply_key_response` and
/// `apply_backspace_response` leave the state: the view stored, the
/// candidate display rebuilt from it, and the refresh commands out.
pub open spec fn suggestion_shown(
    o: State,
    n: State,
    view: SuggestionView,
    acts: Seq<Action>,
) -> bool {
    &&& n.settings == o.settings
    &&& n.riti_cfg == o.riti_cfg
    &&& n.alt_gr == o.alt_gr
    &&& (n.last_suggestion matches Some(s) && s == view)
    &&& if view.lonely {
        &&& n.lookup_table == o.lookup_table
        &&& acts.len() == 1
        &&& (acts[0] matches Action::UpdatePreeditText { text } && text == view.candidates@[0])
    } else {
        &&& n.lookup_table.candidates@ == view.candidates@
        &&& n.lookup_table.cursor == view.previously_selected_index
        &&& n.lookup_table.horizontal == o.lookup_table.horizontal
        &&& n.lookup_table.page_size == o.lookup_table.page_size
        &&& acts.len() == 3
        &&& (acts[0] matches Action::UpdateAuxiliaryText { text, visible }
            && text == view.auxiliary_text && visible == true)
        &&& (acts[1] matches Action::UpdateLookupTable { candidates, cursor, horizontal, page_size }
            && candidates@ == view.candidates@
            && cursor == view.previously_selected_index
            && horizontal == o.lookup_table.horizontal
            && page_size == o.lookup_table.page_size)
        &&& (acts[2] matches Action::UpdatePreeditText { text }
            && text == view.candidates@[view.previously_selected_index as int])
    }
}

/// Finishes a `SubmitKey` follow-up with the suggestion the engine
/// returned and the session-activity answer re-queried after the call.  A
/// non-empty suggestion is stored and shown and the event is consumed; an
/// empty one changes nothing, and the event is consumed exactly when the
/// engine still reports a session.
pub fn apply_key_response(
    st: &mut State,
    suggestion: SuggestionView,
    session_active_now: bool,
) -> (r: (bool, Vec<Action>))
    requires
        old(st).wf(),
        suggestion.wf(),
    ensures
        final(st).wf(),
        !suggestion.spec_is_empty() ==> r.0 == true
            && suggestion_shown(*old(st), *final(st), suggestion, r.1@),
        suggestion.spec_is_empty() ==> r.0 == session_active_now
            && *final(st) == *old(st) && r.1@.len() == 0,
{
    if !suggestion.is_empty() {
        st.last_suggestion = Some(suggestion);
        let acts = st.update_lookup_table();
        (true, acts)
    } else {
        (session_active_now, Vec::new())
    }
}

/// Finishes a `SubmitBackspace` follow-up: a non-empty suggestion is
/// stored and shown; an empty one ends the session, so the display is
/// reset instead.  Either way the backspace is consumed.
pub fn apply_backspace_response(
    st: &mut State,
    suggestion: SuggestionView,
) -> (r: (bool, Vec<Action>))
    requires
        old(st).wf(),
        suggestion.wf(),
    ensures
        final(st).wf(),
        r.0 == true,
        !suggestion.spec_is_empty()
            ==> suggestion_shown(*old(st), *final(st), suggestion, r.1@),
        suggestion.spec_is_empty() ==> display_cleared(*old(st), *final(st))
            && reset_display_actions(r.1@)
            && final(st).settings == old(st).settings
            && final(st).riti_cfg == old(st).riti_cfg
            && final(st).alt_gr == old(st).alt_gr,
{
    if !suggestion.is_empty() {
        st.last_suggestion = Some(suggestion);
        let acts = st.update_lookup_table();
        (true, acts)
    } else {
        let acts = st.reset_engine();
        (true, acts)
    }
}

/// The enable notification: push the current configuration into the
/// engine.
pub fn enable(st: &State) -> (r: Vec<Action>)
    ensures
        r@.len() == 1,
        (r@[0] matches Action::ApplyConfig { config } && config == st.riti_cfg),
{
    st.update_engine()
}

/// The reset notification: with a session active, end it and clear the
/// display; otherwise nothing happens.
pub fn reset(st: &mut State, session_active: bool) -> (r: Vec<Action>)
    requires
        old(st).wf(),
    ensures
        final(st).wf(),
        session_active ==> r@.len() == 4 && r@[0] is FinishInputSession
            && reset_display_actions(r@.skip(1))
            && display_cleared(*old(st), *final(st))
            && final(st).settings == old(st).settings
            && final(st).riti_cfg == old(st).riti_cfg
            && final(st).alt_gr == old(st).alt_gr,
        !session_active ==> *final(st) == *old(st) && r@.len() == 0,
{
    if session_active {
        let mut acts: Vec<Action> = Vec::new();
        acts.push(Action::FinishInputSession);
        let mut tail = st.reset_engine();
        acts.append(&mut tail);
        acts
    } else {
        Vec::new()
    }
}

/// The focus-out notification: same protocol as a reset.
pub fn focus_out(st: &mut State, session_active: bool) -> (r: Vec<Action>)
    requires
        old(st).wf(),
    ensures
        final(st).wf(),
        session_active ==> r@.len() == 4 && r@[0] is FinishInputSession
            && reset_display_actions(r@.skip(1))
            && display_cleared(*old(st), *final(st))
            && final(st).settings == old(st).settings
            && final(st).riti_cfg == old(st).riti_cfg
            && final(st).alt_gr == old(st).alt_gr,
        !session_active ==> *final(st) == *old(st) && r@.len() == 0,
{
    reset(st, session_active)
}

/// A click on the candidate at `index`: commit that candidate's text,
/// tell the engine which index was accepted, and reset the display.  A
/// click outside the list does nothing.
pub fn candidate_clicked(st: &mut State, index: usize) -> (r: Vec<Action>)
    requires
        old(st).wf(),
    ensures
        final(st).wf(),
        index < old(st).lookup_table.candidates@.len() ==> r@.len() == 5
            && (r@[0] matches Action::CommitText { text }
                && text == old(st).lookup_table.candidates@[index as int])
            && (r@[1] matches Action::CandidateCommitted { index: i } && i == index)
            && reset_display_actions(r@.subrange(2, 5))
            && display_cleared(*old(st), *final(st))
            && final(st).settings == old(st).settings
            && final(st).riti_cfg == old(st).riti_cfg
            && final(st).alt_gr == old(st).alt_gr,
        index >= old(st).lookup_table.candidates@.len()
            ==> *final(st) == *old(st) && r@.len() == 0,
{
    match st.lookup_table.candidate(index) {
        Some(text) => {
            let mut acts: Vec<Action> = Vec::new();
            acts.push(Action::CommitText { text });
            acts.push(Action::CandidateCommitted { index });
            let mut tail = st.reset_engine();
            acts.append(&mut tail);
            acts
        }
        None => Vec::new(),
    }
}

} // verus!
