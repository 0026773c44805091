//! Scroll state for a read-only text area: a list length and a selected
//! index. Every operation keeps the index inside the list (or at zero when
//! the list is empty).

use vstd::prelude::*;

verus! {

/// Selected line and line count of a text area.
#[derive(Default, Debug, Clone, PartialEq, Eq, Structural)]
pub struct TextareaStates {
    /// Index of the selected line.
    pub list_index: usize,
    /// Number of lines in the text area.
    pub list_len: usize,
}

impl TextareaStates {
    /// The index is in range: inside the list, or zero when the list is
    /// empty.
    pub open spec fn index_in_range(self) -> bool {
        if self.list_len == 0 {
            self.list_index == 0
        } else {
            self.list_index < self.list_len
        }
    }

    /// Set the list length and clamp the index back into range.
    pub fn set_list_len(&mut self, len: usize)
        ensures
            final(self).list_len == len,
            final(self).list_index == if old(self).list_index < len {
                old(self).list_index
            } else if len == 0 {
                0
            } else {
                (len - 1) as usize
            },
            final(self).index_in_range(),
    {
        self.list_len = len;
        self.fix_list_index();
    }

    /// Move the selection one line down, unless it already sits on the last
    /// line.
    pub fn incr_list_index(&mut self)
        ensures
            final(self).list_len == old(self).list_len,
            final(self).list_index == if old(self).list_index + 1 < old(self).list_len {
                old(self).list_index + 1
            } else {
                old(self).list_index as int
            },
    {
        if self.list_len > 0 && self.list_index < self.list_len - 1 {
            self.list_index = self.list_index + 1;
        }
    }

    /// Move the selection one line up, unless it already sits on the first
    /// line.
    pub fn decr_list_index(&mut self)
        ensures
            final(self).list_len == old(self).list_len,
            final(self).list_index == if old(self).list_index > 0 {
                old(self).list_index - 1
            } else {
                0
            },
    {
        if self.list_index > 0 {
            self.list_index = self.list_index - 1;
        }
    }

    /// Keep the index if it is still inside the list, otherwise move it to
    /// the last line (or to zero when the list is empty).
    pub fn fix_list_index(&mut self)
        ensures
            final(self).list_len == old(self).list_len,
            final(self).list_index == if old(self).list_index < old(self).list_len {
                old(self).list_index as int
            } else if old(self).list_len == 0 {
                0
            } else {
                old(self).list_len - 1
            },
            final(self).index_in_range(),
    {
        if self.list_index >= self.list_len && self.list_len > 0 {
            self.list_index = self.list_len - 1;
        } else if self.list_len == 0 {
            self.list_index = 0;
        }
    }

    /// Put the selection on the first line.
    pub fn list_index_at_first(&mut self)
        ensures
            final(self).list_len == old(self).list_len,
            final(self).list_index == 0,
    {
        self.list_index = 0;
    }

    /// Put the selection on the last line (or on zero when the list is
    /// empty).
    pub fn list_index_at_last(&mut self)
        ensures
            final(self).list_len == old(self).list_len,
            final(self).list_index == if old(self).list_len > 0 {
                old(self).list_len - 1
            } else {
                0
            },
            final(self).index_in_range(),
    {
        if self.list_len > 0 {
            self.list_index = self.list_len - 1;
        } else {
            self.list_index = 0;
        }
    }

    /// How many lines a downward scroll may move: at most `max`, and never
    /// past the last line.
    pub fn calc_max_step_ahead(&self, max: usize) -> (step: usize)
        ensures
            step == if self.remaining_below() > max {
                max as int
            } else {
                self.remaining_below()
            },
    {
        let remaining: usize = if self.list_len == 0 {
            0
        } else if self.list_index < self.list_len - 1 {
            self.list_len - 1 - self.list_index
        } else {
            0
        };
        if remaining > max {
            max
        } else {
            remaining
        }
    }

    /// Lines between the selection and the last line.
    pub open spec fn remaining_below(self) -> int {
        if self.list_len == 0 {
            0
        } else if self.list_index < self.list_len - 1 {
            self.list_len - 1 - self.list_index
        } else {
            0
        }
    }

    /// How many lines an upward scroll may move: at most `max`, and never
    /// past the first line.
    pub fn calc_max_step_behind(&self, max: usize) -> (step: usize)
        ensures
            step == if self.list_index > max {
                max
            } else {
                self.list_index
            },
    {
        if self.list_index > max {
            max
        } else {
            self.list_index
        }
    }
}

} // verus!
