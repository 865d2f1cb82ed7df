//! Configuration of the services.

use crate::string_map::StringMap;
use crate::text::{decimal, int_text};
use vstd::prelude::*;
use vstd::string::StringExecFns;

verus! {

/// The configuration of all services, each under its name.
pub struct Config {
    /// Services configuration.
    pub services: StringMap<Service>,
}

impl Config {
    /// A configuration without services.
    pub fn new() -> (r: Self)
        ensures
            r.services@ == Map::<Seq<char>, Service>::empty(),
    {
        Config { services: StringMap::new() }
    }
}

/// Where one service listens.
#[derive(Clone, Debug, PartialEq, Eq)]
pub struct Service {
    /// IP to listen on.
    pub ip: String,
    /// Port to listen on.
    pub port: i64,
}

impl Service {
    /// A service at `ip` and `port`.
    pub fn new(ip: String, port: i64) -> (r: Self)
        ensures
            r.ip@ == ip@,
            r.port == port,
    {
        Service { ip: ip, port: port }
    }

    /// The address in the form `ip:port`, the port in decimal.
    pub open spec fn address_text(&self) -> Seq<char> {
        self.ip@ + seq![':'] + decimal(self.port as int)
    }

    /// The address in the form `ip:port`.
    pub fn address(&self) -> (r: String)
        ensures
            r@ == self.address_text(),
    {
        let mut out = self.ip.clone();
        out.append(":");
        out.append(int_text(self.port).as_str());
        proof {
            reveal_strlit(":");
            assert(":"@ =~= seq![':']);
        }
        out
    }
}

/// The IP of a service that names none.
pub fn default_ip() -> (r: String)
    ensures
        r@ == "127.0.0.1"@,
{
    String::from_str("127.0.0.1")
}

/// The port of a service that names none.
pub fn default_port() -> (r: i64)
    ensures
        r == 60000,
{
    60000
}

} // verus!
