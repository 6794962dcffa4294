//! Verified state and rules of a set of small desktop GUI exercises: a
//! counter, a flight booker, a list editor and a circle drawer. Each module
//! holds one exercise's state and the decisions its widgets make; drawing
//! and event delivery are left to the host toolkit.
use vstd::prelude::*;

pub mod action_log;
pub mod circles;
pub mod counter;
pub mod crud;
pub mod drawer;
pub mod flights;
pub mod text;

verus! {

} // verus!
