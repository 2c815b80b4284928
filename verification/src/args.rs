//! The options of the viewer.

use vstd::prelude::*;

verus! {

/// The command-line options: the market to show, the token (asked for when
/// absent), the rows a side, the refresh interval in seconds (0 for a single
/// fetch) and whether to use the staging endpoint.
pub struct Args {
    pub market: String,
    pub token_id: Option<String>,
    pub levels: usize,
    pub refresh: u64,
    pub staging: bool,
}

} // verus!
