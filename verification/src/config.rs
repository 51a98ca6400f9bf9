//! Configuration values, as plain data. Loading them from files and the
//! environment is the host program's business.

use vstd::prelude::*;
use vstd::string::StringExecFns;
use crate::text::{dec_of, push_dec};

verus! {

/// Where the store lives.
#[derive(Debug)]
pub struct DatabaseConfig {
    pub uri: String,
}

/// Log output to a file, with its own directives.
#[derive(Debug)]
pub struct LogFile {
    pub enabled: bool,
    pub path: String,
    pub directives: String,
}

/// Log directives for the console, and the optional file output.
#[derive(Debug)]
pub struct LogConfig {
    pub directives: String,
    pub file: LogFile,
}

/// The address the service listens on.
#[derive(Debug)]
pub struct ServiceConfig {
    pub host: String,
    pub port: u16,
}

impl ServiceConfig {
    /// The `host:port` form of the listen address.
    pub fn get_addr(&self) -> (r: String)
        ensures
            r@ == self.host@ + ":"@ + dec_of(self.port as nat),
    {
        let mut s = String::from_str(self.host.as_str());
        s.append(":");
        push_dec(self.port as u64, &mut s);
        proof {
            assert(s@ =~= self.host@ + ":"@ + dec_of(self.port as nat));
        }
        s
    }
}

} // verus!
