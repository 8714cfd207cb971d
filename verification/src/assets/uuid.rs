//! The two ways in which a handle gets its number: by counting, or by hashing a name.

use vstd::prelude::*;
use vstd::std_specs::hash::DefaultHasherAdditionalSpecFns;
use std::collections::hash_map::DefaultHasher;
use std::hash::Hasher;
use std::marker::PhantomData;

verus! {

/// Issues numbers for handles of one asset kind.
pub struct Uuid<T> {
    free_id: u32,
    phantom: PhantomData<T>,
}

/// The number that stands for a name: the hash of the name's UTF-8 bytes,
/// written to a fresh hasher in one piece.
pub open spec fn content_id(name: Seq<char>) -> u64 {
    DefaultHasher::spec_finish(seq![vstd::utf8::encode_utf8(name)])
}

impl<T> Default for Uuid<T> {
    fn default() -> (u: Self)
        ensures
            u.next_id() == 0,
    {
        Self { free_id: 0u32, phantom: PhantomData }
    }
}

impl<T> Uuid<T> {
    /// The number that the next call of `get_next` returns.
    pub closed spec fn next_id(&self) -> u32 {
        self.free_id
    }

    /// What a call of `get_next` does: it returns the number that the
    /// counter stands at and leaves the counter one higher.
    pub open spec fn issues(&self, after: &Uuid<T>, value: u32) -> bool {
        value == self.next_id() && after.next_id() == self.next_id() + 1
    }

    /// Issues the next number of the counter. The counter must not have
    /// reached the largest number it can hold.
    pub fn get_next(&mut self) -> (value: u32)
        requires
            old(self).next_id() < u32::MAX,
        ensures
            old(self).issues(final(self), value),
            value == old(self).next_id(),
            final(self).next_id() == old(self).next_id() + 1,
    {
        let value: u32 = self.free_id;
        self.free_id += 1;
        value
    }

    /// Issues the next number, or nothing once the counter is used up.
    pub fn try_get_next(&mut self) -> (value: Option<u32>)
        ensures
            old(self).next_id() < u32::MAX ==> value == Some(old(self).next_id())
                && final(self).next_id() == old(self).next_id() + 1,
            old(self).next_id() == u32::MAX ==> value is None && final(self).next_id()
                == old(self).next_id(),
    {
        if self.free_id < u32::MAX {
            Some(self.get_next())
        } else {
            None
        }
    }

    /// The number that stands for a name: a hash of the name's bytes, the
    /// same for the same name on every call.
    pub fn new(&self, value: &str) -> (id: u64)
        ensures
            id == content_id(value@),
    {
        let mut hasher = DefaultHasher::new();
        hasher.write(value.as_bytes());
        hasher.finish()
    }
}

/// Hashing gives equal numbers for equal names.
pub proof fn lemma_content_id_stable(a: &str, b: &str)
    requires
        a@ == b@,
    ensures
        content_id(a@) == content_id(b@),
{
}

/// Counting gives a different number on every call: of two calls of
/// `get_next` on one counter, the later returns a larger number than the
/// earlier, however many calls were made between them.
pub proof fn lemma_get_next_distinct<T>(
    before_first: Uuid<T>,
    after_first: Uuid<T>,
    before_later: Uuid<T>,
    after_later: Uuid<T>,
    first: u32,
    later: u32,
)
    requires
        before_first.issues(&after_first, first),
        after_first.next_id() <= before_later.next_id(),
        before_later.issues(&after_later, later),
    ensures
        first < later,
        first != later,
        after_first.next_id() <= after_later.next_id(),
{
}

} // verus!
