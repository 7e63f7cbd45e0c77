//! Display colors of locked cells and pieces.

use vstd::prelude::*;

verus! {

/// An sRGB color. Each channel is an intensity in percent, from 0 (off) to
/// 100 (full).
#[derive(Clone, Copy, PartialEq, Eq, Debug, Structural)]
pub struct Color {
    pub red: u8,
    pub green: u8,
    pub blue: u8,
}

} // verus!
