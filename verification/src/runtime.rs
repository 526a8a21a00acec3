//! The asynchronous runtime selector.

use vstd::prelude::*;

verus! {

/// Selects the runtime that drives `async` test bodies to completion.
///
/// Driving a future is asynchronous plumbing with nothing to verify; the
/// blocking entry point therefore lives with the unverified test driver,
/// not in this library.
pub struct Runtime;

} // verus!
