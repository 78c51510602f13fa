//! The configuration the crawler runs with: catalog-service credentials and
//! graph-database connection settings. The values are read from the process
//! environment by the caller and handed in once at startup; no ambient
//! lookups happen inside the library.

use vstd::prelude::*;

verus! {

/// The environment-sourced settings, constructed once at startup and passed
/// by reference into the adapters.
pub struct EnvVars {
    /// Catalog-service client identifier.
    pub client_id: String,
    /// Catalog-service client secret.
    pub client_secret: String,
    /// Redirect URI registered with the catalog service.
    pub redirect_uri: String,
    /// Graph-database endpoint URI.
    pub neo4j_uri: String,
    /// Graph-database username.
    pub neo4j_username: String,
    /// Graph-database password.
    pub neo4j_password: String,
    /// Hosted-instance identifier of the graph database.
    pub aura_instance_id: String,
    /// Hosted-instance display name of the graph database.
    pub aura_instance_name: String,
}

impl EnvVars {
    /// Bundles the settings the caller read from its environment.
    pub fn new(
        client_id: String,
        client_secret: String,
        redirect_uri: String,
        neo4j_uri: String,
        neo4j_username: String,
        neo4j_password: String,
        aura_instance_id: String,
        aura_instance_name: String,
    ) -> (r: EnvVars)
        ensures
            r.client_id@ == client_id@,
            r.client_secret@ == client_secret@,
            r.redirect_uri@ == redirect_uri@,
            r.neo4j_uri@ == neo4j_uri@,
            r.neo4j_username@ == neo4j_username@,
            r.neo4j_password@ == neo4j_password@,
            r.aura_instance_id@ == aura_instance_id@,
            r.aura_instance_name@ == aura_instance_name@,
    {
        EnvVars {
            client_id,
            client_secret,
            redirect_uri,
            neo4j_uri,
            neo4j_username,
            neo4j_password,
            aura_instance_id,
            aura_instance_name,
        }
    }
}

} // verus!
