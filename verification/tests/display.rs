use openbangla_engine::actions::Action;
use openbangla_engine::settings::Settings;
use openbangla_engine::signal_handler::engine::apply_key_response;
use openbangla_engine::state::State;
use openbangla_engine::suggestion::SuggestionView;

#[test]
fn preedit_refresh_without_suggestion_is_silent() {
    let st = State::new(Settings::new());
    assert!(st.update_preedit().is_empty());
}

#[test]
fn commit_text_emits_then_resets() {
    let mut st = State::new(Settings::new());
    let acts = st.commit_text("out".to_string());
    assert_eq!(
        acts,
        vec![
            Action::CommitText { text: "out".to_string() },
            Action::HidePreeditText,
            Action::HideAuxiliaryText,
            Action::HideLookupTable,
        ]
    );
    assert_eq!(st.lookup_table.len(), 0);
    assert!(st.last_suggestion.is_none());
}

#[test]
fn lonely_view_updates_only_the_preedit() {
    let mut st = State::new(Settings::new());
    let view = SuggestionView::new_lonely("x".to_string());
    let (consumed, acts) = apply_key_response(&mut st, view, true);
    assert!(consumed);
    assert_eq!(acts, vec![Action::UpdatePreeditText { text: "x".to_string() }]);
    assert_eq!(st.lookup_table.len(), 0);
}

#[test]
fn listed_view_rebuilds_the_whole_display() {
    let mut st = State::new(Settings::new());
    let view = SuggestionView::new_list(
        "ab".to_string(),
        vec!["one".to_string(), "two".to_string()],
        1,
    );
    let (consumed, acts) = apply_key_response(&mut st, view, true);
    assert!(consumed);
    assert_eq!(acts.len(), 3);
    assert_eq!(
        acts[0],
        Action::UpdateAuxiliaryText { text: "ab".to_string(), visible: true }
    );
    match &acts[1] {
        Action::UpdateLookupTable { candidates, cursor, .. } => {
            assert_eq!(candidates, &vec!["one".to_string(), "two".to_string()]);
            assert_eq!(*cursor, 1);
        }
        other => panic!("expected a lookup-table update, got {:?}", other),
    }
    assert_eq!(acts[2], Action::UpdatePreeditText { text: "two".to_string() });
    assert_eq!(st.lookup_table.cursor_pos(), 1);
}
