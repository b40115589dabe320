//! The route of all fish of a lake: which lake a request is answered for.

use vstd::prelude::*;
use crate::routes::min_and_max::{is_valid_lake, valid_lake};
use crate::utils::text_of;

verus! {

/// The lake that a request is answered for: its own where that is a lake
/// with data, the store otherwise.
pub open spec fn lake_or_store(lake: Option<Seq<char>>) -> Seq<char> {
    match lake {
        Some(lake) => if valid_lake(lake) {
            lake
        } else {
            "Store"@
        },
        None => "Store"@,
    }
}

/// Picks the lake to answer for. A request without a lake, or with one
/// that has no data, gets the fish of the store.
pub fn fishs<'a>(lake: Option<&'a str>) -> (chosen: &'a str)
    ensures
        chosen@ == lake_or_store(text_of(lake)),
        valid_lake(chosen@),
{
    match lake {
        Some(lake) => if is_valid_lake(lake) {
            lake
        } else {
            "Store"
        },
        None => "Store",
    }
}

} // verus!
