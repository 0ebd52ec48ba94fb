//! A counter with one shared number and one number per caller, kept in an ink! storage hash
//! map.

use crate::amounts::AccountId;
use crate::storage::{
    number_entries, numbers_add, numbers_default, numbers_get, numbers_len, NumberMap,
};
use vstd::prelude::*;

verus! {

/// What a counter holds.
pub struct Counts {
    /// The shared number.
    pub value: i32,
    /// Numbers by caller. A caller without an entry has zero.
    pub mine: Map<AccountId, i32>,
}

impl Counts {
    /// The number of `of`: zero for a caller without an entry.
    pub open spec fn number_of(self, of: AccountId) -> i32 {
        if self.mine.contains_key(of) {
            self.mine[of]
        } else {
            0
        }
    }

    /// A counter is well formed when it holds finitely many entries.
    pub open spec fn wf(self) -> bool {
        self.mine.dom().finite()
    }

    /// Whether a number can be written for `of` without outgrowing the map.
    pub open spec fn room_for(self, of: AccountId) -> bool {
        self.mine.contains_key(of) || self.mine.len() < u32::MAX
    }
}

/// Adds `by` to a number in place.
pub fn add_to(number: &mut i32, by: i32)
    requires
        i32::MIN <= *old(number) + by <= i32::MAX,
    ensures
        *final(number) == *old(number) + by,
{
    *number += by;
}

/// A shared number and a number for each caller.
pub struct Incrementer {
    value: i32,
    my_value: NumberMap,
}

impl View for Incrementer {
    type V = Counts;

    closed spec fn view(&self) -> Counts {
        Counts { value: self.value, mine: number_entries(self.my_value) }
    }
}

impl Incrementer {
    /// A counter whose shared number is `init_value` and whose callers all have zero.
    pub fn new(init_value: i32) -> (counter: Self)
        ensures
            counter@ == (Counts { value: init_value, mine: Map::empty() }),
            counter@.wf(),
    {
        Incrementer { value: init_value, my_value: numbers_default() }
    }

    /// A counter whose shared number is zero and whose callers all have zero.
    pub fn default() -> (counter: Self)
        ensures
            counter@ == (Counts { value: 0, mine: Map::empty() }),
            counter@.wf(),
    {
        Incrementer { value: 0, my_value: numbers_default() }
    }

    /// The shared number.
    pub fn get(&self) -> (value: i32)
        ensures
            value == self@.value,
    {
        self.value
    }

    /// Adds `by` to the shared number.
    pub fn inc(&mut self, by: i32)
        requires
            i32::MIN <= old(self)@.value + by <= i32::MAX,
        ensures
            final(self)@.value == old(self)@.value + by,
            final(self)@.mine == old(self)@.mine,
    {
        self.value = self.value + by
    }

    /// The number of `caller`.
    pub fn get_mine(&self, caller: AccountId) -> (number: i32)
        ensures
            number == self@.number_of(caller),
    {
        self.my_number_or_zero(&caller)
    }

    /// Adds `by` to the number of `caller`, which starts from zero.
    pub fn inc_mine(&mut self, caller: AccountId, by: i32)
        requires
            old(self)@.wf(),
            old(self)@.room_for(caller),
            i32::MIN <= old(self)@.number_of(caller) + by <= i32::MAX,
        ensures
            final(self)@.mine == old(self)@.mine.insert(
                caller,
                (old(self)@.number_of(caller) + by) as i32,
            ),
            final(self)@.number_of(caller) == old(self)@.number_of(caller) + by,
            final(self)@.value == old(self)@.value,
            final(self)@.wf(),
    {
        numbers_add(&mut self.my_value, caller, by);
    }

    /// The number of `of`: zero for a caller without an entry.
    pub fn my_number_or_zero(&self, of: &AccountId) -> (number: i32)
        ensures
            number == self@.number_of(*of),
            !self@.mine.contains_key(*of) ==> number == 0,
    {
        match numbers_get(&self.my_value, of) {
            Some(value) => value,
            None => 0,
        }
    }

    /// Whether a number can be written for `of`: it has an entry, or the map has room for
    /// one more.
    pub fn has_room_for(&self, of: AccountId) -> (room: bool)
        requires
            self@.wf(),
        ensures
            room == self@.room_for(of),
    {
        numbers_get(&self.my_value, &of).is_some() || numbers_len(&self.my_value) < u32::MAX
    }
}

} // verus!
