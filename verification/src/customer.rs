//! The record shape the emitter yields for a typical `customer` table:
//! an integer key and five text columns.

use vstd::prelude::*;

verus! {

/// A customer row: `id` maps from a serial key, the remaining columns are
/// text.
#[derive(Debug)]
pub struct Customer {
    pub id: i32,
    pub first_name: String,
    pub last_name: String,
    pub city: String,
    pub country: String,
    pub phone: String,
}

} // verus!
