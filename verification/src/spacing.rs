//! The app's spacing scale (px). Every margin is one of these steps, so
//! spacing decisions read as named sizes instead of a number lottery.
use vstd::prelude::*;

verus! {

/// Hairline: row inner padding.
pub const XS: i32 = 2;

/// Small: section edge insets, control gaps.
pub const S: i32 = 4;

/// Medium: row insets, section vertical rhythm.
pub const M: i32 = 8;

/// Large: section indentation.
pub const L: i32 = 12;

/// Extra large: dialog and grid outer padding.
pub const XL: i32 = 16;

} // verus!
