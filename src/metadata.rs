//! The display metadata of a post's shard collection.
use vstd::prelude::*;

verus! {

/// The largest decimal precision accepted.
pub const MAX_DECIMAL: u32 = 18;

/// Decimal precision, name and symbol of the shard collection.
pub struct Metadata {
    pub decimal: u32,
    pub name: String,
    pub symbol: String,
}

impl Metadata {
    /// Whether the metadata is acceptable: its precision is at most 18.
    pub open spec fn wf(&self) -> bool {
        self.decimal <= MAX_DECIMAL
    }
}

} // verus!
