//! The result of a parse query.

use crate::text::{bytes_of, decode_text};
use vstd::prelude::*;
use vstd::utf8::{decode_utf8, valid_utf8};

verus! {

/// One labelled part of a parsed address, such as the label `road` with the
/// value `main st`.
#[derive(Debug, Clone, Copy, PartialEq, Eq)]
pub struct Component<'a> {
    pub label: &'a str,
    pub value: &'a str,
}

impl<'a> View for Component<'a> {
    type V = (Seq<char>, Seq<char>);

    /// The label's text, then the value's.
    open spec fn view(&self) -> (Seq<char>, Seq<char>) {
        (self.label@, self.value@)
    }
}

/// The components that a reader yields from two parallel tables when it
/// starts at `from`: label and value decoded pair by pair, up to the end or
/// to the first pair of which either half is not well-formed UTF-8.
pub open spec fn components_from(labels: Seq<Seq<u8>>, values: Seq<Seq<u8>>, from: nat) -> Seq<
    (Seq<char>, Seq<char>),
>
    decreases labels.len() - from,
{
    if from >= labels.len() || from >= values.len() || !valid_utf8(values[from as int])
        || !valid_utf8(labels[from as int]) {
        Seq::empty()
    } else {
        seq![(decode_utf8(labels[from as int]), decode_utf8(values[from as int]))]
            + components_from(labels, values, from + 1)
    }
}

/// The views of a list of components.
pub open spec fn views_of(list: Seq<Component<'_>>) -> Seq<(Seq<char>, Seq<char>)> {
    Seq::new(list.len(), |i: int| list[i]@)
}

/// A forward-only reader over the labelled components that the engine
/// returned for one address.
///
/// The reader borrows the engine's two parallel tables; the texts it yields
/// live as long as that borrow. A label or value that is not well-formed
/// UTF-8 ends the reading for good.
pub struct Components<'a> {
    index: usize,
    labels: Vec<&'a [u8]>,
    values: Vec<&'a [u8]>,
}

impl<'a> Components<'a> {
    #[verifier::type_invariant]
    spec fn parallel(&self) -> bool {
        self.labels@.len() == self.values@.len()
    }

    /// The engine's labels, as bytes, in the engine's order.
    pub closed spec fn raw_labels(&self) -> Seq<Seq<u8>> {
        bytes_of(self.labels@)
    }

    /// The engine's values, as bytes, in the engine's order.
    pub closed spec fn raw_values(&self) -> Seq<Seq<u8>> {
        bytes_of(self.values@)
    }

    /// How many components have been yielded so far.
    pub closed spec fn position(&self) -> nat {
        self.index as nat
    }

    /// The components that are still to be yielded, in order.
    pub open spec fn remaining(&self) -> Seq<(Seq<char>, Seq<char>)> {
        components_from(self.raw_labels(), self.raw_values(), self.position())
    }

    /// Starts reading at the first entry of the engine's two tables.
    pub fn new(labels: Vec<&'a [u8]>, values: Vec<&'a [u8]>) -> (components: Self)
        requires
            labels@.len() == values@.len(),
        ensures
            components.raw_labels() == bytes_of(labels@),
            components.raw_values() == bytes_of(values@),
            components.position() == 0,
    {
        Components { index: 0, labels, values }
    }

    /// Yields the next component, if the next entry exists and both of its
    /// halves decode.
    pub fn next(&mut self) -> (item: Option<Component<'a>>)
        ensures
            final(self).raw_labels() == old(self).raw_labels(),
            final(self).raw_values() == old(self).raw_values(),
            old(self).raw_labels().len() == old(self).raw_values().len(),
            match item {
                Some(component) => {
                    &&& old(self).position() < old(self).raw_labels().len()
                    &&& valid_utf8(old(self).raw_labels()[old(self).position() as int])
                    &&& valid_utf8(old(self).raw_values()[old(self).position() as int])
                    &&& component.label@ == decode_utf8(
                        old(self).raw_labels()[old(self).position() as int],
                    )
                    &&& component.value@ == decode_utf8(
                        old(self).raw_values()[old(self).position() as int],
                    )
                    &&& final(self).position() == old(self).position() + 1
                    &&& old(self).remaining() == seq![component@] + final(self).remaining()
                },
                None => {
                    &&& old(self).position() >= old(self).raw_labels().len() || !valid_utf8(
                        old(self).raw_labels()[old(self).position() as int],
                    ) || !valid_utf8(old(self).raw_values()[old(self).position() as int])
                    &&& *final(self) == *old(self)
                    &&& old(self).remaining() == Seq::<(Seq<char>, Seq<char>)>::empty()
                },
            },
    {
        proof {
            use_type_invariant(&*self);
        }
        if self.index < self.values.len() {
            let value_bytes: &'a [u8] = self.values[self.index];
            match decode_text(value_bytes) {
                Some(value) => {
                    let label_bytes: &'a [u8] = self.labels[self.index];
                    match decode_text(label_bytes) {
                        Some(label) => {
                            self.index += 1;
                            Some(Component { label, value })
                        },
                        None => None,
                    }
                },
                None => None,
            }
        } else {
            None
        }
    }

    /// Yields everything that is still to come.
    pub fn collect(&mut self) -> (items: Vec<Component<'a>>)
        ensures
            final(self).raw_labels() == old(self).raw_labels(),
            final(self).raw_values() == old(self).raw_values(),
            views_of(items@) == old(self).remaining(),
            final(self).position() == old(self).position() + items@.len(),
            final(self).remaining() == Seq::<(Seq<char>, Seq<char>)>::empty(),
    {
        let mut items: Vec<Component<'a>> = Vec::new();
        loop
            invariant
                self.raw_labels() == old(self).raw_labels(),
                self.raw_values() == old(self).raw_values(),
                self.position() == old(self).position() + items@.len(),
                old(self).remaining() == views_of(items@) + self.remaining(),
            ensures
                self.raw_labels() == old(self).raw_labels(),
                self.raw_values() == old(self).raw_values(),
                self.position() == old(self).position() + items@.len(),
                views_of(items@) == old(self).remaining(),
                self.remaining() == Seq::<(Seq<char>, Seq<char>)>::empty(),
            decreases
                    self.raw_labels().len() - self.position(),
        {
            let ghost before = items@;
            match self.next() {
                Some(component) => {
                    items.push(component);
                    proof {
                        assert(views_of(items@) =~= views_of(before) + seq![component@]);
                    }
                },
                None => {
                    break ;
                },
            }
        }
        items
    }
}

/// What a reader yields, stated pair by pair: the decoded label and value of
/// each entry from `from` on, as far as both halves are well-formed UTF-8
/// without a gap. The first entry of which a half is not well-formed, and all
/// after it, are left out.
pub proof fn lemma_components_from(labels: Seq<Seq<u8>>, values: Seq<Seq<u8>>, from: nat)
    requires
        labels.len() == values.len(),
        from <= labels.len(),
    ensures
        from + components_from(labels, values, from).len() <= labels.len(),
        forall|k: int|
            0 <= k < components_from(labels, values, from).len() ==> valid_utf8(
                #[trigger] labels[from + k],
            ) && valid_utf8(values[from + k]) && components_from(labels, values, from)[k] == (
                decode_utf8(labels[from + k]),
                decode_utf8(values[from + k]),
            ),
        from + components_from(labels, values, from).len() < labels.len() ==> !valid_utf8(
            labels[(from + components_from(labels, values, from).len()) as int],
        ) || !valid_utf8(values[(from + components_from(labels, values, from).len()) as int]),
    decreases labels.len() - from,
{
    if from < labels.len() && valid_utf8(values[from as int]) && valid_utf8(labels[from as int]) {
        lemma_components_from(labels, values, from + 1);
        let rest = components_from(labels, values, from + 1);
        let all = components_from(labels, values, from);
        assert(all == seq![(decode_utf8(labels[from as int]), decode_utf8(values[from as int]))]
            + rest);
        assert forall|k: int| 0 <= k < all.len() implies valid_utf8(#[trigger] labels[from + k])
            && valid_utf8(values[from + k]) && all[k] == (
            decode_utf8(labels[from + k]),
            decode_utf8(values[from + k]),
        ) by {
            if k > 0 {
                assert(all[k] == rest[k - 1]);
                assert(labels[(from + 1) + (k - 1)] == labels[from + k]);
                assert(values[(from + 1) + (k - 1)] == values[from + k]);
            }
        }
    }
}

/// Reading moves forward only: where something is still to be yielded, what
/// is to be yielded from the next entry on is the same without its first
/// component.
pub proof fn lemma_components_from_next(labels: Seq<Seq<u8>>, values: Seq<Seq<u8>>, from: nat)
    requires
        components_from(labels, values, from).len() > 0,
    ensures
        from < labels.len(),
        components_from(labels, values, from + 1) == components_from(labels, values, from).skip(1),
{
    assert(components_from(labels, values, from + 1) =~= components_from(labels, values, from).skip(
        1,
    ));
}

} // verus!
