//! Settings of the surrounding application, as plain data.
use vstd::prelude::*;

verus! {

/// Where one environment's database lives.
pub struct DBEnvConfig {
    pub url: String,
    pub database: String,
}

/// The database of each environment.
pub struct Database {
    pub development: DBEnvConfig,
    pub production: DBEnvConfig,
    pub testing: DBEnvConfig,
}

/// Application settings.
pub struct Settings {
    pub debug: bool,
    pub database: Database,
}

/// An e-mail handed to the background job queue.
pub struct Email {
    pub to: String,
    pub subject: String,
    pub text: String,
}

} // verus!
