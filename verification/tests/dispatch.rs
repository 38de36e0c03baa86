use openbangla_engine::actions::Action;
use openbangla_engine::keys::{
    ALT_R, BACKSPACE, CONTROL_MASK, DOWN, ISO_LEVEL3_SHIFT, KP_ENTER, LOWERCASE_A, MOD1_MASK,
    RELEASE_MASK, RETURN, RIGHT, SHIFT_L, SHIFT_MASK, SPACE, UP,
};
use openbangla_engine::keycode::{MODIFIER_ALT_GR, MODIFIER_SHIFT, VC_A};
use openbangla_engine::settings::Settings;
use openbangla_engine::signal_handler::engine::{
    apply_key_response, candidate_clicked, enable, focus_out, process_key_event, reset, KeyNext,
};
use openbangla_engine::state::State;
use openbangla_engine::suggestion::SuggestionView;

fn vertical_settings() -> Settings {
    let mut s = Settings::new();
    s.candidate_win_horizontal = false;
    s
}

fn listed_session(st: &mut State, texts: &[&str], prev: usize) {
    let view = SuggestionView::new_list(
        "aux".to_string(),
        texts.iter().map(|t| t.to_string()).collect(),
        prev,
    );
    let (consumed, _acts) = apply_key_response(st, view, true);
    assert!(consumed);
}

fn lonely_session(st: &mut State, text: &str) {
    let view = SuggestionView::new_lonely(text.to_string());
    let (consumed, _acts) = apply_key_response(st, view, true);
    assert!(consumed);
}

#[test]
fn commit_with_no_suggestion_is_a_no_op() {
    let mut st = State::new(Settings::new());
    let out = process_key_event(&mut st, RETURN, 0, true);
    assert!(matches!(out.next, KeyNext::Done { consumed: true }));
    assert!(out.actions.is_empty());
    assert!(st.last_suggestion.is_none());
    assert_eq!(st.lookup_table.len(), 0);
}

#[test]
fn direct_commit_with_no_suggestion_emits_nothing() {
    let mut st = State::new(Settings::new());
    let acts = st.commit();
    assert!(acts.is_empty());
    assert!(st.last_suggestion.is_none());
}

#[test]
fn reset_clears_list_and_hides_every_surface() {
    let mut st = State::new(vertical_settings());
    listed_session(&mut st, &["one", "two"], 0);
    assert_eq!(st.lookup_table.len(), 2);
    let acts = st.reset_engine();
    assert_eq!(
        acts,
        vec![Action::HidePreeditText, Action::HideAuxiliaryText, Action::HideLookupTable]
    );
    assert_eq!(st.lookup_table.len(), 0);
    assert_eq!(st.lookup_table.cursor_pos(), 0);
    assert!(st.last_suggestion.is_none());
}

#[test]
fn reset_handler_finishes_session_then_hides() {
    let mut st = State::new(Settings::new());
    listed_session(&mut st, &["one", "two"], 0);
    let acts = reset(&mut st, true);
    assert_eq!(
        acts,
        vec![
            Action::FinishInputSession,
            Action::HidePreeditText,
            Action::HideAuxiliaryText,
            Action::HideLookupTable,
        ]
    );
    assert!(st.last_suggestion.is_none());
    let again = reset(&mut st, false);
    assert!(again.is_empty());
}

#[test]
fn focus_out_acts_like_reset() {
    let mut st = State::new(Settings::new());
    listed_session(&mut st, &["one", "two"], 1);
    let acts = focus_out(&mut st, true);
    assert_eq!(acts.len(), 4);
    assert_eq!(acts[0], Action::FinishInputSession);
    assert_eq!(st.lookup_table.len(), 0);
}

#[test]
fn lonely_suggestion_makes_arrows_commit_not_navigate() {
    let mut st = State::new(vertical_settings());
    lonely_session(&mut st, "only");
    let out = process_key_event(&mut st, DOWN, 0, true);
    assert!(matches!(out.next, KeyNext::Done { consumed: false }));
    assert_eq!(out.actions.len(), 5);
    assert_eq!(out.actions[0], Action::CommitText { text: "only".to_string() });
    assert_eq!(out.actions[1], Action::CandidateCommitted { index: 0 });
    assert!(st.last_suggestion.is_none());
}

#[test]
fn listed_suggestion_makes_arrows_navigate_not_commit() {
    let mut st = State::new(vertical_settings());
    listed_session(&mut st, &["one", "two", "three"], 0);
    let out = process_key_event(&mut st, DOWN, 0, true);
    assert!(matches!(out.next, KeyNext::Done { consumed: true }));
    assert!(out.actions.iter().all(|a| !matches!(a, Action::CommitText { .. })));
    assert_eq!(st.lookup_table.cursor_pos(), 1);
    assert!(st.last_suggestion.is_some());
    let out = process_key_event(&mut st, UP, 0, true);
    assert!(matches!(out.next, KeyNext::Done { consumed: true }));
    assert_eq!(st.lookup_table.cursor_pos(), 0);
}

#[test]
fn orientation_mismatched_arrow_commits_instead() {
    // In vertical orientation Right is no navigation key: the event falls
    // through, fails translation, and commits the session.
    let mut st = State::new(vertical_settings());
    listed_session(&mut st, &["one", "two"], 0);
    let out = process_key_event(&mut st, RIGHT, 0, true);
    assert!(matches!(out.next, KeyNext::Done { consumed: false }));
    assert_eq!(out.actions[0], Action::CommitText { text: "one".to_string() });
    assert!(st.last_suggestion.is_none());
}

#[test]
fn altgr_press_sets_latch_and_release_clears_it() {
    let mut st = State::new(Settings::new());
    let out = process_key_event(&mut st, ALT_R, 0, true);
    assert!(matches!(out.next, KeyNext::Done { consumed: true }));
    assert!(st.alt_gr);
    let out = process_key_event(&mut st, ALT_R, RELEASE_MASK, true);
    assert!(matches!(out.next, KeyNext::Done { consumed: false }));
    assert!(out.actions.is_empty());
    assert!(!st.alt_gr);

    let out = process_key_event(&mut st, ISO_LEVEL3_SHIFT, 0, true);
    assert!(matches!(out.next, KeyNext::Done { consumed: true }));
    assert!(st.alt_gr);
    process_key_event(&mut st, ISO_LEVEL3_SHIFT, RELEASE_MASK, true);
    assert!(!st.alt_gr);
}

#[test]
fn latched_altgr_turns_alt_only_keys_into_altgr_events() {
    let mut st = State::new(Settings::new());
    process_key_event(&mut st, ALT_R, 0, true);
    assert!(st.alt_gr);
    let out = process_key_event(&mut st, LOWERCASE_A, MOD1_MASK, true);
    match out.next {
        KeyNext::SubmitKey { key, modifier } => {
            assert_eq!(key, VC_A);
            assert_eq!(modifier, MODIFIER_ALT_GR);
        }
        other => panic!("expected a key submission, got {:?}", other),
    }
}

#[test]
fn unlatched_alt_only_key_is_rejected() {
    let mut st = State::new(Settings::new());
    listed_session(&mut st, &["one", "two"], 0);
    let out = process_key_event(&mut st, LOWERCASE_A, MOD1_MASK, true);
    assert!(matches!(out.next, KeyNext::Done { consumed: false }));
    assert_eq!(out.actions[0], Action::CommitText { text: "one".to_string() });
}

#[test]
fn control_without_alt_commits_and_rejects() {
    let mut st = State::new(Settings::new());
    listed_session(&mut st, &["one", "two"], 1);
    let out = process_key_event(&mut st, LOWERCASE_A, CONTROL_MASK, true);
    assert!(matches!(out.next, KeyNext::Done { consumed: false }));
    assert_eq!(out.actions[0], Action::CommitText { text: "two".to_string() });
}

#[test]
fn shift_sets_the_shift_modifier_bit() {
    let mut st = State::new(Settings::new());
    let out = process_key_event(&mut st, LOWERCASE_A, SHIFT_MASK, true);
    match out.next {
        KeyNext::SubmitKey { key, modifier } => {
            assert_eq!(key, VC_A);
            assert_eq!(modifier, MODIFIER_SHIFT);
        }
        other => panic!("expected a key submission, got {:?}", other),
    }
}

#[test]
fn space_commits_but_is_not_consumed() {
    let mut st = State::new(Settings::new());
    listed_session(&mut st, &["one", "two"], 0);
    let out = process_key_event(&mut st, SPACE, 0, true);
    assert!(matches!(out.next, KeyNext::Done { consumed: false }));
    assert_eq!(out.actions[0], Action::CommitText { text: "one".to_string() });
    assert!(st.last_suggestion.is_none());
}

#[test]
fn numpad_enter_commits_and_is_consumed() {
    let mut st = State::new(Settings::new());
    listed_session(&mut st, &["one", "two"], 0);
    let out = process_key_event(&mut st, KP_ENTER, 0, true);
    assert!(matches!(out.next, KeyNext::Done { consumed: true }));
    assert_eq!(out.actions[0], Action::CommitText { text: "one".to_string() });
    assert!(st.last_suggestion.is_none());
}

#[test]
fn modifier_press_consumed_exactly_while_session_active() {
    let mut st = State::new(Settings::new());
    let out = process_key_event(&mut st, SHIFT_L, 0, true);
    assert!(matches!(out.next, KeyNext::Done { consumed: true }));
    assert!(out.actions.is_empty());
    let out = process_key_event(&mut st, SHIFT_L, 0, false);
    assert!(matches!(out.next, KeyNext::Done { consumed: false }));
    assert_eq!(out.actions.len(), 1);
    assert!(matches!(out.actions[0], Action::ApplyConfig { .. }));
}

#[test]
fn backspace_without_session_is_not_consumed() {
    let mut st = State::new(Settings::new());
    let out = process_key_event(&mut st, BACKSPACE, 0, false);
    assert!(matches!(out.next, KeyNext::Done { consumed: false }));
}

#[test]
fn backspace_with_control_asks_for_word_delete() {
    let mut st = State::new(Settings::new());
    listed_session(&mut st, &["one", "two"], 0);
    let out = process_key_event(&mut st, BACKSPACE, CONTROL_MASK, true);
    assert!(matches!(out.next, KeyNext::SubmitBackspace { delete_word: true }));
    let out = process_key_event(&mut st, BACKSPACE, 0, true);
    assert!(matches!(out.next, KeyNext::SubmitBackspace { delete_word: false }));
}

#[test]
fn candidate_click_commits_that_candidate() {
    let mut st = State::new(Settings::new());
    listed_session(&mut st, &["one", "two", "three"], 0);
    let acts = candidate_clicked(&mut st, 2);
    assert_eq!(acts.len(), 5);
    assert_eq!(acts[0], Action::CommitText { text: "three".to_string() });
    assert_eq!(acts[1], Action::CandidateCommitted { index: 2 });
    assert_eq!(st.lookup_table.len(), 0);
}

#[test]
fn candidate_click_outside_the_list_does_nothing() {
    let mut st = State::new(Settings::new());
    listed_session(&mut st, &["one", "two"], 0);
    let acts = candidate_clicked(&mut st, 5);
    assert!(acts.is_empty());
    assert_eq!(st.lookup_table.len(), 2);
}

#[test]
fn enable_pushes_the_current_configuration() {
    let st = State::new(Settings::new());
    let acts = enable(&st);
    assert_eq!(acts.len(), 1);
    match &acts[0] {
        Action::ApplyConfig { config } => assert_eq!(*config, st.riti_cfg),
        other => panic!("expected a configuration push, got {:?}", other),
    }
}

#[test]
fn release_events_are_never_forwarded() {
    let mut st = State::new(Settings::new());
    listed_session(&mut st, &["one", "two"], 0);
    let out = process_key_event(&mut st, LOWERCASE_A, RELEASE_MASK, true);
    assert!(matches!(out.next, KeyNext::Done { consumed: false }));
    assert!(out.actions.is_empty());
    assert!(st.last_suggestion.is_some());
    assert_eq!(st.lookup_table.len(), 2);
}
