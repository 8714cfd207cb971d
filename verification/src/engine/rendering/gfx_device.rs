//! The numbering of render commands.

use vstd::prelude::*;

verus! {

/// Hands out the handles of render commands, counting up from 0.
pub struct CommandIds {
    cmd_ids: usize,
}

impl CommandIds {
    /// The handle that the next command gets.
    pub closed spec fn next(&self) -> usize {
        self.cmd_ids
    }

    pub fn new() -> (ids: Self)
        ensures
            ids.next() == 0,
    {
        CommandIds { cmd_ids: 0 }
    }

    /// The handle for a new command. The counter must not be used up.
    pub fn issue(&mut self) -> (id: usize)
        requires
            old(self).next() < usize::MAX,
        ensures
            id == old(self).next(),
            final(self).next() == old(self).next() + 1,
    {
        let id: usize = self.cmd_ids;
        self.cmd_ids += 1;
        id
    }

    /// The handle for a new command, or nothing once the counter is used up.
    pub fn try_issue(&mut self) -> (id: Option<usize>)
        ensures
            old(self).next() < usize::MAX ==> id == Some(old(self).next()) && final(self).next()
                == old(self).next() + 1,
            old(self).next() == usize::MAX ==> id is None && final(self).next() == old(
                self,
            ).next(),
    {
        if self.cmd_ids < usize::MAX {
            Some(self.issue())
        } else {
            None
        }
    }
}

} // verus!
