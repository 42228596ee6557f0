use vstd::prelude::*;

verus! {

/// Process-wide settings read once at start-up.
pub struct Config {
    /// Public `host:port` used when a request carries no host header.
    pub address: String,
    /// Page size used when a listing request carries no query.
    pub page_size: i64,
    /// Name of the database that holds every collection.
    pub db_name: String,
    /// Key that signs and verifies bearer tokens.
    pub shared_secret: String,
}

} // verus!
