//! The service's settings.
//!
//! Nothing is hard-wired into the handlers: the listening address, the
//! worker count and the names of the backing store are carried here,
//! with the deployment's usual values as the default.

use vstd::prelude::*;
use vstd::string::*;

verus! {

/// Everything needed to wire the service up.
pub struct ServiceConfig {
    /// The port the service listens on.
    pub port: u16,
    /// How many worker threads serve requests.
    pub workers: usize,
    /// The connection string of the backing store.
    pub store_uri: String,
    /// The database holding the collection.
    pub database_name: String,
    /// The collection holding the users.
    pub collection_name: String,
}

impl Default for ServiceConfig {
    /// The values the service has always run with.
    fn default() -> (c: ServiceConfig)
        ensures
            c.port == 8000,
            c.workers == 2,
            c.store_uri@ == ("mongodb://localhost:27017")@,
            c.database_name@ == ("mydb")@,
            c.collection_name@ == ("users")@,
    {
        ServiceConfig {
            port: 8000,
            workers: 2,
            store_uri: String::from_str("mongodb://localhost:27017"),
            database_name: String::from_str("mydb"),
            collection_name: String::from_str("users"),
        }
    }
}

} // verus!
