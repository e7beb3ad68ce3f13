use vstd::prelude::*;

verus! {

/// The value a click on "+1" gives.
pub open spec fn plus_one_of(value: int) -> int {
    value + 1
}

/// The value a click on "-1" gives.
pub open spec fn minus_one_of(value: int) -> int {
    value - 1
}

/// The counter widget shown above the plots: a value that starts at zero
/// and that two buttons raise and lower by one.
pub struct Counter {
    pub value: i32,
}

impl Counter {
    /// The counter as the page first shows it.
    pub fn new() -> (c: Self)
        ensures
            c.value == 0,
    {
        Counter { value: 0 }
    }

    /// A click on "+1".
    pub fn plus_one(&mut self)
        requires
            old(self).value < i32::MAX,
        ensures
            final(self).value == plus_one_of(old(self).value as int),
            final(self).value == old(self).value + 1,
    {
        self.value = self.value + 1;
    }

    /// A click on "-1".
    pub fn minus_one(&mut self)
        requires
            old(self).value > i32::MIN,
        ensures
            final(self).value == minus_one_of(old(self).value as int),
            final(self).value == old(self).value - 1,
    {
        self.value = self.value - 1;
    }
}

/// A click on "+1" raises the value by exactly one, and a click on "-1"
/// lowers it by exactly one, whatever the value.
pub proof fn lemma_clicks_step_by_one(value: int)
    ensures
        plus_one_of(value) - value == 1,
        value - minus_one_of(value) == 1,
{
}

/// A click on "+1" followed by a click on "-1", or the other way round,
/// gives the counter back its value.
pub proof fn lemma_clicks_cancel(value: int)
    ensures
        minus_one_of(plus_one_of(value)) == value,
        plus_one_of(minus_one_of(value)) == value,
{
}

} // verus!
