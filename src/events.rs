use vstd::prelude::*;

verus! {

/// What an event source hands to its consumer: an input item, or a clock tick.
pub enum Event<I> {
    Input(I),
    Tick,
}

} // verus!
