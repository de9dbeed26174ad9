//! Names of the environment variables that configure the service.

use vstd::prelude::*;

verus! {

/// The variable that names the log group to ingest.
pub const LOG_GROUP_NAME_ENV_VAR: &'static str = "LOG_GROUP_NAME";

} // verus!
