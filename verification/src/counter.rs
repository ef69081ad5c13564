//! A single mutable integer with increment and decrement operations: the
//! degenerate case of a record store with one fixed slot and no owner check.

use vstd::prelude::*;

verus! {

pub struct Counter {
    pub value: i32,
}

impl Counter {
    pub fn new(init_value: i32) -> (result: Self)
        ensures
            result.value == init_value,
    {
        Self { value: init_value }
    }

    pub fn default() -> (result: Self)
        ensures
            result.value == 0,
    {
        Self { value: 0 }
    }

    pub fn get_counter(&self) -> (result: i32)
        ensures
            result == self.value,
    {
        self.value
    }

    pub fn increment_counter(&mut self)
        requires
            old(self).value < i32::MAX,
        ensures
            final(self).value == old(self).value + 1,
    {
        self.value += 1;
    }

    pub fn decrement_counter(&mut self)
        requires
            old(self).value > i32::MIN,
        ensures
            final(self).value == old(self).value - 1,
    {
        self.value -= 1;
    }
}

} // verus!
