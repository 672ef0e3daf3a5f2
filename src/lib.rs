//! Memorable password synthesis from personal facts.
//!
//! Numbers and words the user cares about are shortened into small
//! fragments ("bits") and assembled, optionally with symbols, into a password.
use vstd::prelude::*;

pub mod data_serialization;
pub mod form;
pub mod password_bits;
pub mod password_data;
pub mod password_generation;
mod random;

verus! {

} // verus!
