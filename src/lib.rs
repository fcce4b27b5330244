//! Session and overlay lifecycle of a break reminder.
//!
//! The library decides; the surrounding application performs. It reads the
//! clock, sleeps, persists records and drives windows, and hands the outcome
//! of each of those back to the functions here.
use vstd::prelude::*;

pub mod config;
pub mod controller;
pub mod error;
pub mod laws;
pub mod store;
pub mod window;

verus! {

} // verus!
