//! Fixed settings of the service, for production and for tests.

pub mod env;
pub mod prod;
