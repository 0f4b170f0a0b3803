use vstd::prelude::*;

verus! {

/// Where the service listens and which store backend it uses.
#[derive(Debug)]
pub struct Config {
    pub host: String,
    pub port: u16,
    pub database_url: String,
}

impl Default for Config {
    fn default() -> (r: Self)
        ensures
            r.host@ == "127.0.0.1"@,
            r.port == 3030,
            r.database_url@ == "inmemory"@,
    {
        Config {
            host: "127.0.0.1".to_string(),
            port: 3030,
            database_url: "inmemory".to_string(),
        }
    }
}

} // verus!
