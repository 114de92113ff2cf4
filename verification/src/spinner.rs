//! The mark that turns beside a source while its feed is loading.

use vstd::prelude::*;

verus! {

/// How many pictures the turning mark has.
pub const SEQUENCE_LEN: usize = 8;

/// The pictures of the turning mark, in the order in which they are shown.
pub const SEQUENCE: [char; 8] = ['⣾', '⣽', '⣻', '⢿', '⡿', '⣟', '⣯', '⣷'];

/// The picture at `step`: one of the sequence, or a blank beyond it.
pub open spec fn picture_at(step: usize) -> char {
    if step < SEQUENCE_LEN {
        SEQUENCE@[step as int]
    } else {
        ' '
    }
}

/// The step after `step`: the next one, or the first after the last.
pub open spec fn step_after(step: usize) -> usize {
    if step + 1 >= SEQUENCE_LEN {
        0
    } else {
        (step + 1) as usize
    }
}

/// Which picture of the turning mark comes next.
#[derive(Debug, Default)]
pub struct OwnStates {
    step: usize,
}

impl OwnStates {
    /// The step that the mark is at.
    pub closed spec fn current(&self) -> usize {
        self.step
    }

    /// The mark at its first picture.
    pub fn new() -> (states: OwnStates)
        ensures
            states.current() == 0,
    {
        OwnStates { step: 0 }
    }

    /// Returns the picture to show and moves on to the next one, the first
    /// after the last.
    pub fn step(&mut self) -> (picture: char)
        ensures
            picture == picture_at(old(self).current()),
            final(self).current() == step_after(old(self).current()),
    {
        let picture = if self.step < SEQUENCE_LEN {
            SEQUENCE[self.step]
        } else {
            ' '
        };
        if self.step >= SEQUENCE_LEN - 1 {
            self.step = 0;
        } else {
            self.step += 1;
        }
        picture
    }
}

} // verus!
