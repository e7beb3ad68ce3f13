use vstd::prelude::*;

verus! {

/// One report of the sensors: the temperature of each thermal zone, in the
/// order in which the zones were found. A reading is carried as an opaque
/// value of type `V` (the front end and the server use `f32`).
#[derive(Debug)]
pub struct Stats<V> {
    pub temperatures: Vec<V>,
}

impl<V> Stats<V> {
    /// A report with no readings.
    pub fn new() -> (s: Self)
        ensures
            s.temperatures@ == Seq::<V>::empty(),
    {
        Stats { temperatures: Vec::new() }
    }
}

} // verus!
