//! The engine configuration record: the shape the transliteration engine is
//! configured with, derived from the settings cache.

use vstd::prelude::*;

use crate::constants::{AVRO_PHONETIC_LAYOUT_PATH, DATABASE_PATH};

verus! {

/// One configuration for the transliteration engine, held as plain values.
#[derive(Debug, PartialEq)]
pub struct EngineConfig {
    pub database_dir: String,
    pub layout_file_path: String,
    pub phonetic_suggestion: bool,
    pub suggestion_include_english: bool,
    pub fixed_suggestion: bool,
    pub fixed_automatic_vowel: bool,
    pub fixed_automatic_chandra: bool,
    pub fixed_traditional_kar: bool,
    pub fixed_old_kar_order: bool,
    pub fixed_old_reph: bool,
    pub fixed_numpad: bool,
    pub ansi_encoding: bool,
    pub smart_quote: bool,
}

impl EngineConfig {
    /// A fresh configuration with the fixed database path, the default
    /// layout file, and every behaviour flag off.
    pub fn new() -> (r: EngineConfig)
        ensures
            r.database_dir@ == DATABASE_PATH@,
            r.layout_file_path@ == AVRO_PHONETIC_LAYOUT_PATH@,
            !r.phonetic_suggestion && !r.suggestion_include_english && !r.fixed_suggestion,
            !r.fixed_automatic_vowel && !r.fixed_automatic_chandra && !r.fixed_traditional_kar,
            !r.fixed_old_kar_order && !r.fixed_old_reph && !r.fixed_numpad,
            !r.ansi_encoding && !r.smart_quote,
    {
        EngineConfig {
            database_dir: DATABASE_PATH.to_string(),
            layout_file_path: AVRO_PHONETIC_LAYOUT_PATH.to_string(),
            phonetic_suggestion: false,
            suggestion_include_english: false,
            fixed_suggestion: false,
            fixed_automatic_vowel: false,
            fixed_automatic_chandra: false,
            fixed_traditional_kar: false,
            fixed_old_kar_order: false,
            fixed_old_reph: false,
            fixed_numpad: false,
            ansi_encoding: false,
            smart_quote: false,
        }
    }

    /// A field-for-field copy of this configuration.
    pub fn duplicate(&self) -> (r: EngineConfig)
        ensures
            r == *self,
    {
        EngineConfig {
            database_dir: self.database_dir.clone(),
            layout_file_path: self.layout_file_path.clone(),
            phonetic_suggestion: self.phonetic_suggestion,
            suggestion_include_english: self.suggestion_include_english,
            fixed_suggestion: self.fixed_suggestion,
            fixed_automatic_vowel: self.fixed_automatic_vowel,
            fixed_automatic_chandra: self.fixed_automatic_chandra,
            fixed_traditional_kar: self.fixed_traditional_kar,
            fixed_old_kar_order: self.fixed_old_kar_order,
            fixed_old_reph: self.fixed_old_reph,
            fixed_numpad: self.fixed_numpad,
            ansi_encoding: self.ansi_encoding,
            smart_quote: self.smart_quote,
        }
    }
}

impl Default for EngineConfig {
    fn default() -> (r: EngineConfig)
        ensures
            r.database_dir@ == DATABASE_PATH@,
            r.layout_file_path@ == AVRO_PHONETIC_LAYOUT_PATH@,
            !r.phonetic_suggestion && !r.suggestion_include_english && !r.fixed_suggestion,
            !r.fixed_automatic_vowel && !r.fixed_automatic_chandra && !r.fixed_traditional_kar,
            !r.fixed_old_kar_order && !r.fixed_old_reph && !r.fixed_numpad,
            !r.ansi_encoding && !r.smart_quote,
    {
        EngineConfig::new()
    }
}

} // verus!
