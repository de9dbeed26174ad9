//! Settings of the service in production.

use vstd::prelude::*;

verus! {

/// The address on which the service listens.
pub const APP_ADDRESS: &'static str = "0.0.0.0:8080";

/// The largest number of rows that one response is meant to carry.
pub const MAX_ROWS: u32 = 1000;

/// How often a call to the remote log source is attempted before it fails.
pub const AWS_MAX_RETRIES: u32 = 10;

/// The region of the remote log source.
pub const REGION: &'static str = "eu-central-1";

/// The name under which the table is registered, and by which query text
/// refers to it.
pub const LOGGING_TABLE_NAME: &'static str = "logs";

} // verus!
