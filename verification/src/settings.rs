//! The settings cache: the fixed set of named options the dispatcher reads.
//!
//! The persisted preference store itself is external; the process around the
//! library reads it and keeps this record up to date.  Every option defaults
//! to the value the store would report for a missing key.

use vstd::prelude::*;

use crate::constants::AVRO_PHONETIC_LAYOUT_PATH;

verus! {

/// Cached values of the named options, one field per option.
#[derive(Debug, PartialEq)]
pub struct Settings {
    pub layout_path: String,
    pub show_prev_win_fixed: bool,
    pub auto_vowel_form_fixed: bool,
    pub auto_chandra_pos_fixed: bool,
    pub traditional_kar_fixed: bool,
    pub number_pad_fixed: bool,
    pub old_reph: bool,
    pub candidate_win_horizontal: bool,
    pub show_cwphonetic: bool,
    pub suggestion_include_english: bool,
    pub fixed_old_kar_order: bool,
    pub ansi_encoding: bool,
    pub smart_quoting: bool,
}

impl Settings {
    /// The defaults: the phonetic layout file, and every flag on.
    pub fn new() -> (r: Settings)
        ensures
            r.layout_path@ == AVRO_PHONETIC_LAYOUT_PATH@,
            r.show_prev_win_fixed,
            r.auto_vowel_form_fixed,
            r.auto_chandra_pos_fixed,
            r.traditional_kar_fixed,
            r.number_pad_fixed,
            r.old_reph,
            r.candidate_win_horizontal,
            r.show_cwphonetic,
            r.suggestion_include_english,
            r.fixed_old_kar_order,
            r.ansi_encoding,
            r.smart_quoting,
    {
        Settings {
            layout_path: AVRO_PHONETIC_LAYOUT_PATH.to_string(),
            show_prev_win_fixed: true,
            auto_vowel_form_fixed: true,
            auto_chandra_pos_fixed: true,
            traditional_kar_fixed: true,
            number_pad_fixed: true,
            old_reph: true,
            candidate_win_horizontal: true,
            show_cwphonetic: true,
            suggestion_include_english: true,
            fixed_old_kar_order: true,
            ansi_encoding: true,
            smart_quoting: true,
        }
    }

    pub fn get_layout_path(&self) -> (r: String)
        ensures
            r == self.layout_path,
    {
        self.layout_path.clone()
    }

    pub fn get_show_prev_win_fixed(&self) -> (r: bool)
        ensures
            r == self.show_prev_win_fixed,
    {
        self.show_prev_win_fixed
    }

    pub fn get_auto_vowel_form_fixed(&self) -> (r: bool)
        ensures
            r == self.auto_vowel_form_fixed,
    {
        self.auto_vowel_form_fixed
    }

    pub fn get_auto_chandra_pos_fixed(&self) -> (r: bool)
        ensures
            r == self.auto_chandra_pos_fixed,
    {
        self.auto_chandra_pos_fixed
    }

    pub fn get_traditional_kar_fixed(&self) -> (r: bool)
        ensures
            r == self.traditional_kar_fixed,
    {
        self.traditional_kar_fixed
    }

    pub fn get_number_pad_fixed(&self) -> (r: bool)
        ensures
            r == self.number_pad_fixed,
    {
        self.number_pad_fixed
    }

    pub fn get_old_reph(&self) -> (r: bool)
        ensures
            r == self.old_reph,
    {
        self.old_reph
    }

    pub fn get_candidate_win_horizontal(&self) -> (r: bool)
        ensures
            r == self.candidate_win_horizontal,
    {
        self.candidate_win_horizontal
    }

    pub fn get_show_cwphonetic(&self) -> (r: bool)
        ensures
            r == self.show_cwphonetic,
    {
        self.show_cwphonetic
    }

    pub fn get_suggestion_include_english(&self) -> (r: bool)
        ensures
            r == self.suggestion_include_english,
    {
        self.suggestion_include_english
    }

    pub fn get_fixed_old_kar_order(&self) -> (r: bool)
        ensures
            r == self.fixed_old_kar_order,
    {
        self.fixed_old_kar_order
    }

    pub fn get_ansi_encoding(&self) -> (r: bool)
        ensures
            r == self.ansi_encoding,
    {
        self.ansi_encoding
    }

    pub fn get_smart_quoting(&self) -> (r: bool)
        ensures
            r == self.smart_quoting,
    {
        self.smart_quoting
    }
}

impl Default for Settings {
    fn default() -> (r: Settings)
        ensures
            r.layout_path@ == AVRO_PHONETIC_LAYOUT_PATH@,
            r.show_prev_win_fixed && r.auto_vowel_form_fixed && r.auto_chandra_pos_fixed,
            r.traditional_kar_fixed && r.number_pad_fixed && r.old_reph,
            r.candidate_win_horizontal && r.show_cwphonetic && r.suggestion_include_english,
            r.fixed_old_kar_order && r.ansi_encoding && r.smart_quoting,
    {
        Settings::new()
    }
}

} // verus!
