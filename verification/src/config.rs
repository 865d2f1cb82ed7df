//! The configuration that is used where none is given.

use crate::schema::config_schema::{Config, Service};
use vstd::prelude::*;
use vstd::string::StringExecFns;

verus! {

/// The default configuration: the services `api` and `datastore`, both on
/// `127.0.0.1`, at the ports 60000 and 60001.
pub fn default() -> (conf: Config)
    ensures
        conf.services@.dom() == set!["api"@, "datastore"@],
        conf.services@["api"@].ip@ == "127.0.0.1"@,
        conf.services@["api"@].port == 60000,
        conf.services@["datastore"@].ip@ == "127.0.0.1"@,
        conf.services@["datastore"@].port == 60001,
{
    let mut conf = Config::new();
    let mut services = conf.services;
    services.insert(String::from_str("api"), Service::new(String::from_str("127.0.0.1"), 60000));
    services.insert(
        String::from_str("datastore"),
        Service::new(String::from_str("127.0.0.1"), 60001),
    );
    proof {
        reveal_strlit("api");
        reveal_strlit("datastore");
        assert("api"@ != "datastore"@) by {
            assert("api"@.len() != "datastore"@.len());
        }
        assert(services@.dom() =~= set!["api"@, "datastore"@]);
    }
    Config { services: services }
}

} // verus!
