//! The gateway's settings.

use vstd::prelude::*;

verus! {

/// Where the database is and how many connections it may be given.
#[derive(Debug)]
pub struct DatabaseConfig {
    pub host: String,
    pub port: u16,
    pub db_name: String,
    pub password: String,
    pub connections_limit: u16,
}

/// The settings of one gateway.
#[derive(Debug)]
pub struct Config {
    pub stratum_host: String,
    pub stratum_port: u16,
    pub database: DatabaseConfig,
    pub api_key: String,
    pub api_url: String,
}

/// The file that is read where the command line names none.
pub open spec fn default_path() -> Seq<char> {
    "./config/config.json"@
}

impl Config {
    /// The path of the settings file: the first argument after the program's
    /// name where there is one, else the default.
    pub fn path_from_args(args: &Vec<String>) -> (path: String)
        ensures
            path@ == if args@.len() < 2 {
                default_path()
            } else {
                args@[1]@
            },
    {
        if args.len() < 2 {
            "./config/config.json".to_owned()
        } else {
            args[1].clone()
        }
    }
}

} // verus!
