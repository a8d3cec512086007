use vstd::prelude::*;

verus! {

/// The instruction a fill happens in.
#[derive(Clone, Copy, PartialEq, Eq, Debug, Structural)]
pub enum FillMode {
    Fill,
    PlaceAndMake,
    PlaceAndTake,
    Liquidation,
}

} // verus!
