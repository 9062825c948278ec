//! The record type of the CSV conversion command.

use vstd::prelude::*;

verus! {

/// One row of the player table that the CSV converter reads; serialisation
/// names and file handling live with the calling binary.
#[derive(Debug, Clone)]
pub struct Player {
    pub name: String,
    pub position: String,
    pub dob: String,
    pub nationality: String,
    pub kit: u8,
}

} // verus!
