//! Device-authorization (OAuth "device code") client core.
//!
//! The crate holds the decision logic of the flow: interpreting provider
//! responses, resolving configuration, selecting a profile email, and the
//! connect / disconnect state transitions. All network and disk I/O is
//! driven by the surrounding application, which feeds plain values in and
//! carries the decided actions out.

pub mod config;
pub mod device_flow;
pub mod laws;
pub mod profile;
pub mod render;
pub mod status;
pub mod text;
pub mod types;

use vstd::prelude::*;

verus! {

/// A HTTP status code counts as success exactly when it lies in the 2xx range.
pub open spec fn is_success_status(status: u16) -> bool {
    200 <= status < 300
}

/// Executable test for the 2xx range.
pub fn status_is_success(status: u16) -> (r: bool)
    ensures
        r == is_success_status(status),
{
    200 <= status && status < 300
}

} // verus!
