//! The instructions the dispatcher issues.
//!
//! Each event handler returns the ordered list of display and engine
//! commands that the process around the library performs: display
//! primitives of the host framework, and the calls owed to the
//! transliteration engine.  Holding them as data keeps every decision about
//! *what* to show or send inside the verified library.

use vstd::prelude::*;

use crate::config::EngineConfig;

verus! {

/// One display or engine command, to be performed in list order.
#[derive(Debug, PartialEq)]
pub enum Action {
    /// Show this auxiliary text above the candidate list.
    UpdateAuxiliaryText { text: String, visible: bool },
    /// Push this snapshot of the candidate list to the display.
    UpdateLookupTable { candidates: Vec<String>, cursor: usize, horizontal: bool, page_size: usize },
    /// Show this preedit text inline at the cursor, in commit focus mode.
    UpdatePreeditText { text: String },
    /// Hide the preedit text.
    HidePreeditText,
    /// Hide the auxiliary text.
    HideAuxiliaryText,
    /// Hide the candidate list.
    HideLookupTable,
    /// Emit this text to the host as committed input.
    CommitText { text: String },
    /// Notify the engine that the candidate at this index was accepted.
    CandidateCommitted { index: usize },
    /// Push this configuration into the engine.
    ApplyConfig { config: EngineConfig },
    /// Tell the engine to end the current input session.
    FinishInputSession,
}

} // verus!
