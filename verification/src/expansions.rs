//! The result of an expansion query.

use crate::text::{bytes_of, chars_of, decode_text, texts_from};
use vstd::prelude::*;
use vstd::utf8::{decode_utf8, valid_utf8};

verus! {

/// A forward-only reader over the normalised variants that the engine
/// returned for one address.
///
/// The reader borrows the engine's strings; the texts it yields live as long
/// as that borrow. An entry that is not well-formed UTF-8 ends the reading
/// for good: neither it nor anything after it is ever yielded.
pub struct Expansions<'a> {
    index: usize,
    array: Vec<&'a [u8]>,
}

impl<'a> Expansions<'a> {
    /// The engine's strings, as bytes, in the engine's order.
    pub closed spec fn raw(&self) -> Seq<Seq<u8>> {
        bytes_of(self.array@)
    }

    /// How many entries have been yielded so far.
    pub closed spec fn position(&self) -> nat {
        self.index as nat
    }

    /// The texts that are still to be yielded, in order.
    pub open spec fn remaining(&self) -> Seq<Seq<char>> {
        texts_from(self.raw(), self.position())
    }

    /// Starts reading at the first of the engine's strings.
    pub fn new(array: Vec<&'a [u8]>) -> (expansions: Self)
        ensures
            expansions.raw() == bytes_of(array@),
            expansions.position() == 0,
    {
        Expansions { index: 0, array }
    }

    /// Yields the next variant, if the next entry exists and decodes.
    pub fn next(&mut self) -> (item: Option<&'a str>)
        ensures
            final(self).raw() == old(self).raw(),
            match item {
                Some(text) => {
                    &&& old(self).position() < old(self).raw().len()
                    &&& valid_utf8(old(self).raw()[old(self).position() as int])
                    &&& text@ == decode_utf8(old(self).raw()[old(self).position() as int])
                    &&& final(self).position() == old(self).position() + 1
                    &&& old(self).remaining() == seq![text@] + final(self).remaining()
                },
                None => {
                    &&& old(self).position() >= old(self).raw().len() || !valid_utf8(
                        old(self).raw()[old(self).position() as int],
                    )
                    &&& *final(self) == *old(self)
                    &&& old(self).remaining() == Seq::<Seq<char>>::empty()
                },
            },
    {
        if self.index < self.array.len() {
            let bytes: &'a [u8] = self.array[self.index];
            match decode_text(bytes) {
                Some(text) => {
                    self.index += 1;
                    Some(text)
                },
                None => None,
            }
        } else {
            None
        }
    }

    /// Yields everything that is still to come.
    pub fn collect(&mut self) -> (items: Vec<&'a str>)
        ensures
            final(self).raw() == old(self).raw(),
            chars_of(items@) == old(self).remaining(),
            final(self).position() == old(self).position() + items@.len(),
            final(self).remaining() == Seq::<Seq<char>>::empty(),
    {
        let mut items: Vec<&'a str> = Vec::new();
        loop
            invariant
                self.raw() == old(self).raw(),
                self.position() == old(self).position() + items@.len(),
                old(self).remaining() == chars_of(items@) + self.remaining(),
            ensures
                self.raw() == old(self).raw(),
                self.position() == old(self).position() + items@.len(),
                chars_of(items@) == old(self).remaining(),
                self.remaining() == Seq::<Seq<char>>::empty(),
            decreases
                    self.raw().len() - self.position(),
        {
            let ghost before = items@;
            match self.next() {
                Some(text) => {
                    items.push(text);
                    proof {
                        assert(chars_of(items@) =~= chars_of(before) + seq![text@]);
                    }
                },
                None => {
                    break ;
                },
            }
        }
        items
    }
}

} // verus!
