//! Cosmetic appearance colors.
//!
//! A color is part of an entity's appearance token: the engine never inspects
//! it, it only stores it and hands it to the front end, which maps each name
//! to whatever its drawing layer understands.

use vstd::prelude::*;

verus! {

/// A named color of the appearance palette, opaque to the engine's rules.
#[derive(Clone, Copy, Debug, PartialEq, Eq, Structural)]
pub enum ColorCode {
    White,
    Red,
    DarkRed,
    Green,
    DesaturatedGreen,
    DarkerGreen,
    LightGreen,
    Yellow,
    LightYellow,
    Orange,
    LightOrange,
    Violet,
    LightViolet,
    LightBlue,
    LightCyan,
}

} // verus!
