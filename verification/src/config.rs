//! The startup configuration: a storage connection string and a bind
//! host, both required at startup with no defaults. Reading them from the
//! process environment is the surrounding program's concern; this type
//! only carries the values.

use vstd::prelude::*;

verus! {

pub struct Config {
    database_url: String,
    host: String,
}

impl Config {
    pub closed spec fn spec_database_url(&self) -> Seq<char> {
        self.database_url@
    }

    pub closed spec fn spec_host(&self) -> Seq<char> {
        self.host@
    }

    /// A configuration from already-loaded values.
    pub fn new(database_url: String, host: String) -> (r: Config)
        ensures
            r.spec_database_url() == database_url@,
            r.spec_host() == host@,
    {
        Config { database_url, host }
    }

    pub fn get_database_url(&self) -> (r: &str)
        ensures
            r@ == self.spec_database_url(),
    {
        self.database_url.as_str()
    }

    pub fn get_host(&self) -> (r: &str)
        ensures
            r@ == self.spec_host(),
    {
        self.host.as_str()
    }
}

} // verus!
