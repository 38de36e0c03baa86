use openbangla_engine::config::EngineConfig;
use openbangla_engine::settings::Settings;
use openbangla_engine::state::{update_riti_config, State};

#[test]
fn settings_defaults_point_at_the_phonetic_layout() {
    let s = Settings::new();
    assert_eq!(
        s.get_layout_path(),
        "/usr/share/openbangla-keyboard/layouts/avrophonetic.json"
    );
    assert!(s.get_show_prev_win_fixed());
    assert!(s.get_auto_vowel_form_fixed());
    assert!(s.get_auto_chandra_pos_fixed());
    assert!(s.get_traditional_kar_fixed());
    assert!(s.get_number_pad_fixed());
    assert!(s.get_old_reph());
    assert!(s.get_candidate_win_horizontal());
    assert!(s.get_show_cwphonetic());
    assert!(s.get_suggestion_include_english());
    assert!(s.get_fixed_old_kar_order());
    assert!(s.get_ansi_encoding());
    assert!(s.get_smart_quoting());
}

#[test]
fn config_translation_maps_every_option() {
    let mut s = Settings::new();
    s.layout_path = "/tmp/layout.json".to_string();
    s.show_cwphonetic = false;
    s.suggestion_include_english = false;
    s.show_prev_win_fixed = true;
    s.auto_vowel_form_fixed = false;
    s.auto_chandra_pos_fixed = true;
    s.traditional_kar_fixed = false;
    s.fixed_old_kar_order = true;
    s.old_reph = false;
    s.number_pad_fixed = true;
    s.ansi_encoding = false;
    s.smart_quoting = true;

    let mut cfg = EngineConfig::new();
    update_riti_config(&s, &mut cfg);

    assert_eq!(cfg.database_dir, "/usr/share/openbangla-keyboard/data");
    assert_eq!(cfg.layout_file_path, "/tmp/layout.json");
    assert_eq!(cfg.phonetic_suggestion, false);
    assert_eq!(cfg.suggestion_include_english, false);
    assert_eq!(cfg.fixed_suggestion, true);
    assert_eq!(cfg.fixed_automatic_vowel, false);
    assert_eq!(cfg.fixed_automatic_chandra, true);
    assert_eq!(cfg.fixed_traditional_kar, false);
    assert_eq!(cfg.fixed_old_kar_order, true);
    assert_eq!(cfg.fixed_old_reph, false);
    assert_eq!(cfg.fixed_numpad, true);
    assert_eq!(cfg.ansi_encoding, false);
    assert_eq!(cfg.smart_quote, true);
}

#[test]
fn fresh_state_matches_its_settings() {
    let mut s = Settings::new();
    s.candidate_win_horizontal = false;
    let st = State::new(s);
    assert!(st.last_suggestion.is_none());
    assert!(!st.alt_gr);
    assert_eq!(st.lookup_table.len(), 0);
    assert!(!st.lookup_table.horizontal);
    assert_eq!(st.lookup_table.page_size, 10);
    assert!(!st.riti_cfg.phonetic_suggestion || st.settings.show_cwphonetic);
    assert_eq!(st.riti_cfg.phonetic_suggestion, st.settings.show_cwphonetic);
}

#[test]
fn update_with_settings_follows_the_cache() {
    let mut st = State::new(Settings::new());
    assert!(st.lookup_table.horizontal);
    st.settings.candidate_win_horizontal = false;
    st.settings.show_cwphonetic = false;
    st.update_with_settings();
    assert!(!st.lookup_table.horizontal);
    assert_eq!(st.riti_cfg.phonetic_suggestion, false);
}
