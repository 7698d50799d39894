//! Dice-roll results with a replayable history, totals under keep/drop,
//! success-counting and fudge modifiers, and the five-element reading of a
//! ten-sided roll.

use vstd::prelude::*;

pub mod pool;
pub mod rollresult;
pub mod cde;
pub mod render;

verus! {

} // verus!
