use vstd::prelude::*;

verus! {

/// The video unit. Its registers live in the bus's device-register block;
/// what it draws is not modelled here.
pub struct Ppu {}

impl Ppu {
    pub fn new() -> (ppu: Self) {
        Ppu {}
    }
}

} // verus!
