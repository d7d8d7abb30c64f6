use vstd::prelude::*;

verus! {

/// A list with at least one item and a current position that wraps around.
#[derive(Debug, PartialEq, Clone)]
pub struct NonEmptyCircularList<T> {
    items: Vec<T>,
    next_index: usize,
}

/// The position reached from `position` after `steps` advances in a list of `len` items.
pub open spec fn advanced_position(position: int, steps: int, len: int) -> int {
    (position + steps) % len
}

impl<T: Copy> NonEmptyCircularList<T> {
    pub closed spec fn items(&self) -> Seq<T> {
        self.items@
    }

    /// The position of the current item.
    pub closed spec fn position(&self) -> int {
        self.next_index as int
    }

    /// There is an item, and the position points at one.
    pub closed spec fn wf(&self) -> bool {
        0 <= self.next_index < self.items@.len()
    }

    /// The list that holds only `item`.
    pub fn one(item: T) -> (r: NonEmptyCircularList<T>)
        ensures
            r.wf(),
            r.items() == seq![item],
            r.position() == 0,
    {
        let mut items: Vec<T> = Vec::new();
        items.push(item);
        NonEmptyCircularList { items, next_index: 0 }
    }

    /// Adds `item` at the end of the list.
    pub fn push(&mut self, item: T)
        requires
            old(self).wf(),
        ensures
            final(self).wf(),
            final(self).items() == old(self).items().push(item),
            final(self).position() == old(self).position(),
    {
        self.items.push(item);
    }

    /// The current item.
    pub fn next(&self) -> (r: T)
        requires
            self.wf(),
        ensures
            r == self.items()[self.position()],
    {
        self.items[self.next_index]
    }

    /// Moves to the following item, and from the last one back to the first.
    pub fn advance(&mut self)
        requires
            old(self).wf(),
        ensures
            final(self).wf(),
            final(self).items() == old(self).items(),
            final(self).position() == advanced_position(old(self).position(), 1, old(self).items().len() as int),
    {
        let len = self.items.len();
        if self.next_index < len - 1 {
            proof {
                vstd::arithmetic::div_mod::lemma_small_mod((self.next_index + 1) as nat, len as nat);
            }
            self.next_index = self.next_index + 1;
        } else {
            proof {
                vstd::arithmetic::div_mod::lemma_mod_self_0(len as int);
            }
            self.next_index = 0;
        }
    }
}

/// Advancing step by step agrees with advancing all the steps at once, and advancing as
/// many times as there are items comes back to the same position.
pub proof fn lemma_advance_cycles(position: int, steps: int, len: int)
    requires
        0 <= position < len,
        0 <= steps,
    ensures
        advanced_position(advanced_position(position, steps, len), 1, len) == advanced_position(
            position,
            steps + 1,
            len,
        ),
        advanced_position(position, len, len) == position,
        0 <= advanced_position(position, steps, len) < len,
{
    vstd::arithmetic::div_mod::lemma_add_mod_noop(position + steps, 1, len);
    vstd::arithmetic::div_mod::lemma_mod_bound(1, len);
    vstd::arithmetic::div_mod::lemma_mod_self_0(len);
    vstd::arithmetic::div_mod::lemma_add_mod_noop(position, len, len);
    vstd::arithmetic::div_mod::lemma_small_mod(position as nat, len as nat);
    vstd::arithmetic::div_mod::lemma_mod_bound(position + steps, len);
    if len > 1 {
        vstd::arithmetic::div_mod::lemma_small_mod(1, len as nat);
    }
}

} // verus!
