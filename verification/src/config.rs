use vstd::prelude::*;

verus! {

/// Process configuration: the single value the service is started with,
/// the storage connection string. Reading it from the environment is the
/// caller's business; the library only carries the value.
pub struct Config {
    pub database_url: String,
}

impl Config {
    pub fn new(database_url: String) -> (c: Config)
        ensures
            c.database_url@ == database_url@,
    {
        Config { database_url }
    }
}

} // verus!
