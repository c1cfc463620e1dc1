//! A frame renderer for a terminal roguelike: it lays out the main menu and
//! the game screen as an ordered list of console drawing calls.
use vstd::prelude::*;

pub mod frame;
pub mod gui;
pub mod layering;

verus! {

} // verus!
