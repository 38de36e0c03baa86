//! The candidate (lookup) list: an ordered sequence of candidate strings
//! with a zero-based cursor, an orientation flag and a fixed page size.
//!
//! The cursor only ever moves by one step and saturates at both ends:
//! stepping past an end is a no-op, it never wraps.

use vstd::prelude::*;

verus! {

/// The ordered, cursor-addressable candidate list.
#[derive(Debug, PartialEq)]
pub struct CandidateList {
    pub candidates: Vec<String>,
    pub cursor: usize,
    pub horizontal: bool,
    pub page_size: usize,
}

impl CandidateList {
    /// The cursor is pinned to a valid position: zero while the list is
    /// empty, and strictly inside the list otherwise.  Every operation
    /// below keeps this, so any sequence of steps leaves the cursor within
    /// `[0, len - 1]`.
    pub open spec fn wf(&self) -> bool {
        if self.candidates.len() == 0 {
            self.cursor == 0
        } else {
            self.cursor < self.candidates.len()
        }
    }

    /// An empty list with the cursor at zero.
    pub fn new(page_size: usize, horizontal: bool) -> (r: CandidateList)
        ensures
            r.wf(),
            r.candidates@.len() == 0,
            r.cursor == 0,
            r.horizontal == horizontal,
            r.page_size == page_size,
    {
        CandidateList { candidates: Vec::new(), cursor: 0, horizontal, page_size }
    }

    /// Empties the list and returns the cursor to zero.
    pub fn clear(&mut self)
        ensures
            final(self).wf(),
            final(self).candidates@.len() == 0,
            final(self).cursor == 0,
            final(self).horizontal == old(self).horizontal,
            final(self).page_size == old(self).page_size,
    {
        self.candidates = Vec::new();
        self.cursor = 0;
    }

    /// Appends one candidate at the end; the cursor does not move.
    pub fn append_candidate(&mut self, text: String)
        requires
            old(self).wf(),
        ensures
            final(self).wf(),
            final(self).candidates@ == old(self).candidates@.push(text),
            final(self).cursor == old(self).cursor,
            final(self).horizontal == old(self).horizontal,
            final(self).page_size == old(self).page_size,
    {
        self.candidates.push(text);
    }

    /// Advances the cursor one step, saturating at the last candidate:
    /// at the last position (or on an empty list) this is a no-op.
    pub fn cursor_down(&mut self)
        requires
            old(self).wf(),
        ensures
            final(self).wf(),
            final(self).cursor == if old(self).cursor + 1 < old(self).candidates@.len() {
                old(self).cursor + 1
            } else {
                old(self).cursor as int
            },
            final(self).candidates@ == old(self).candidates@,
            final(self).horizontal == old(self).horizontal,
            final(self).page_size == old(self).page_size,
    {
        if self.cursor + 1 < self.candidates.len() {
            self.cursor = self.cursor + 1;
        }
    }

    /// Retreats the cursor one step, saturating at the first candidate:
    /// at position zero this is a no-op.
    pub fn cursor_up(&mut self)
        requires
            old(self).wf(),
        ensures
            final(self).wf(),
            final(self).cursor == if old(self).cursor > 0 {
                old(self).cursor - 1
            } else {
                0
            },
            final(self).candidates@ == old(self).candidates@,
            final(self).horizontal == old(self).horizontal,
            final(self).page_size == old(self).page_size,
    {
        if self.cursor > 0 {
            self.cursor = self.cursor - 1;
        }
    }

    /// Moves the cursor to `pos` if that is a valid position; an
    /// out-of-range position leaves the cursor where it was.
    pub fn set_cursor_pos(&mut self, pos: usize)
        requires
            old(self).wf(),
        ensures
            final(self).wf(),
            final(self).cursor == if pos < old(self).candidates@.len() {
                pos as int
            } else {
                old(self).cursor as int
            },
            final(self).candidates@ == old(self).candidates@,
            final(self).horizontal == old(self).horizontal,
            final(self).page_size == old(self).page_size,
    {
        if pos < self.candidates.len() {
            self.cursor = pos;
        }
    }

    /// Sets the display orientation.
    pub fn set_horizontal(&mut self, horizontal: bool)
        ensures
            final(self).horizontal == horizontal,
            final(self).candidates@ == old(self).candidates@,
            final(self).cursor == old(self).cursor,
            final(self).page_size == old(self).page_size,
    {
        self.horizontal = horizontal;
    }

    /// The current cursor position.
    pub fn cursor_pos(&self) -> (r: usize)
        ensures
            r == self.cursor,
    {
        self.cursor
    }

    /// How many candidates the list holds.
    pub fn len(&self) -> (r: usize)
        ensures
            r == self.candidates@.len(),
    {
        self.candidates.len()
    }

    /// The candidate at `index`, or nothing when `index` is out of range.
    pub fn candidate(&self, index: usize) -> (r: Option<String>)
        ensures
            index < self.candidates@.len() ==> (r matches Some(t)
                && t == self.candidates@[index as int]),
            index >= self.candidates@.len() ==> r is None,
    {
        if index < self.candidates.len() {
            Some(self.candidates[index].clone())
        } else {
            None
        }
    }
}

/// The cursor never leaves the list: in any well-formed list — and every
/// operation above returns one, so any sequence of steps preserves this —
/// the cursor is zero on an empty list and within `[0, len - 1]`
/// otherwise.
pub proof fn lemma_cursor_in_bounds(l: CandidateList)
    requires
        l.wf(),
    ensures
        l.candidates@.len() == 0 ==> l.cursor == 0,
        l.candidates@.len() > 0 ==> 0 <= l.cursor < l.candidates@.len(),
{
}

} // verus!
