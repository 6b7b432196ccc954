//! Colour primaries and transfer functions.

use vstd::prelude::*;

verus! {

#[derive(Debug, Clone, Copy, PartialEq, Eq, Structural)]
pub enum ColorPrimaries {
    Bt709,
    DisplayP3,
    Bt2020,
    Unknown,
}

#[derive(Debug, Clone, Copy, PartialEq, Eq, Structural)]
pub enum TransferFunction {
    Srgb,
    Bt1886,
    Pq,
    Hlg,
    Unknown,
}

} // verus!
