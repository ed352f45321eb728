use vstd::prelude::*;

verus! {

/// The audio unit. Like the video unit it reaches the processor only
/// through the bus; what it plays is not modelled here.
pub struct Apu {}

impl Apu {
    pub fn new() -> (apu: Self) {
        Apu {}
    }
}

} // verus!
