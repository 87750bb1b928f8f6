//! Process-wide pagination defaults.

use vstd::prelude::*;

verus! {

/// Page served when a listing request names none. Pages are 1-based.
pub const DEFAULT_PAGE: u32 = 1;

/// Page size used when a listing request names none.
pub const DEFAULT_LIMIT: u32 = 10;

} // verus!
