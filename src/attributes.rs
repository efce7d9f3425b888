//! Where a record's attributes are found in the attribute table.
use vstd::prelude::*;

verus! {

/// The row of the attribute table that holds the attributes of the record with 1-based ordinal
/// `id`. Rows count from 0, so it is row `id - 1`; ordinal 0, and ordinals beyond the last row
/// that a table can have, have none.
pub fn attribute_row(id: u64) -> (r: Option<u32>)
    ensures
        r == (if 1 <= id <= u32::MAX as int + 1 {
            Some((id - 1) as u32)
        } else {
            None::<u32>
        }),
{
    if id < 1 || id - 1 > u32::MAX as u64 {
        None
    } else {
        Some((id - 1) as u32)
    }
}

} // verus!
