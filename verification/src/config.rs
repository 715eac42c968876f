//! The service's configuration: connection addresses, credential
//! locations, the covers directory, the retry window and the provider
//! order.

use vstd::prelude::*;
use vstd::string::StringExecFns;

use crate::provider::CoverProvider;

verus! {

/// Everything a deployment configures. Addresses and paths are held
/// as plain text; the boundary that opens connections parses them.
pub struct Config {
    /// Cover database connection address.
    pub cover_db_uri: String,
    pub cover_db_path_pass: String,
    /// Port on which the cover service listens for incoming connections.
    pub listen_port: u16,
    /// Directory where the cover files are stored.
    pub path_covers: String,
    /// Time to wait before retrying to get a cover, in seconds.
    pub wait_seconds_retry_retrieve_cover: u64,
    /// Product catalog connection; can be the same host as the cover
    /// database.
    pub product_api_uri: String,
    pub product_api_path_pass: String,
    /// Edge cache to invalidate when a record changes.
    pub cache_api_uri: String,
    pub cache_api_path_pass: String,
    /// Task tracker that callers are pointed at instead of waiting.
    pub tasks_api_uri: String,
    pub tasks_api_pass_path: String,
    /// The providers the resolver tries, in order.
    pub providers: Vec<CoverProvider>,
    /// Domain name of this instance, sent to the cache API.
    pub hostname: String,
}

/// A good example of a configuration.
impl Default for Config {
    fn default() -> (c: Self)
        ensures
            c.cover_db_uri@ == "mysql://cover@localhost:3306/cover"@,
            c.cover_db_path_pass@ == "admin/db/cover"@,
            c.listen_port == 8000u16,
            c.path_covers@ == Seq::<char>::empty(),
            c.wait_seconds_retry_retrieve_cover == 3600u64,
            c.product_api_uri@ == "https://dolibarr.example.net"@,
            c.product_api_path_pass@ == "admin/dolibarr/api_key"@,
            c.cache_api_uri@ == "http://cover_worker@localhost:8001"@,
            c.cache_api_path_pass@ == "admin/cache_pai/api_key"@,
            c.tasks_api_uri@ == "https://cover_worker@tasks.example.net"@,
            c.tasks_api_pass_path@ == "admin/tasks-tracker/token"@,
            c.providers@ == seq![CoverProvider::OpenLibrary],
            c.hostname@ == "covers.example.net"@,
    {
        let mut providers: Vec<CoverProvider> = Vec::new();
        providers.push(CoverProvider::OpenLibrary);
        proof {
            assert(providers@ =~= seq![CoverProvider::OpenLibrary]);
            reveal_strlit("");
        }
        Config {
            cover_db_uri: String::from_str("mysql://cover@localhost:3306/cover"),
            cover_db_path_pass: String::from_str("admin/db/cover"),
            listen_port: 8000,
            path_covers: String::from_str(""),
            wait_seconds_retry_retrieve_cover: 3600,
            product_api_uri: String::from_str("https://dolibarr.example.net"),
            product_api_path_pass: String::from_str("admin/dolibarr/api_key"),
            cache_api_uri: String::from_str("http://cover_worker@localhost:8001"),
            cache_api_path_pass: String::from_str("admin/cache_pai/api_key"),
            tasks_api_uri: String::from_str("https://cover_worker@tasks.example.net"),
            tasks_api_pass_path: String::from_str("admin/tasks-tracker/token"),
            providers,
            hostname: String::from_str("covers.example.net"),
        }
    }
}

} // verus!
