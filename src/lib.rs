//! Decoding of the frames that a USB CO2 sensor reports, and a store of the
//! latest reading of each kind.
use vstd::prelude::*;

pub mod frame;
pub mod store;

verus! {

} // verus!
