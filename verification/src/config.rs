//! Service configuration and its defaulting rules.
//!
//! Reading the process environment is the caller's concern; the library
//! owns the rule that every missing setting falls back to a fixed default.

use vstd::prelude::*;

verus! {

/// Connection settings of the service.
pub struct Config {
    pub mongodb_uri: String,
    pub mongodb_database: String,
    pub redis_uri: String,
    pub broker_url: String,
}

impl Config {
    /// Builds the configuration from optional overrides, applying the
    /// fixed default for every setting that is absent.
    pub fn resolve(
        mongodb_uri: Option<String>,
        mongodb_database: Option<String>,
        redis_uri: Option<String>,
        broker_url: Option<String>,
    ) -> (config: Config)
        ensures
            config.mongodb_uri@ == (match mongodb_uri {
                Some(v) => v@,
                None => "mongodb://localhost:27017"@,
            }),
            config.mongodb_database@ == (match mongodb_database {
                Some(v) => v@,
                None => "messaging_app"@,
            }),
            config.redis_uri@ == (match redis_uri {
                Some(v) => v@,
                None => "redis://localhost:6379"@,
            }),
            config.broker_url@ == (match broker_url {
                Some(v) => v@,
                None => "http://default-broker.homelab-services.svc.cluster.local"@,
            }),
    {
        let mongodb_uri = match mongodb_uri {
            Some(v) => v,
            None => "mongodb://localhost:27017".to_owned(),
        };
        let mongodb_database = match mongodb_database {
            Some(v) => v,
            None => "messaging_app".to_owned(),
        };
        let redis_uri = match redis_uri {
            Some(v) => v,
            None => "redis://localhost:6379".to_owned(),
        };
        let broker_url = match broker_url {
            Some(v) => v,
            None => "http://default-broker.homelab-services.svc.cluster.local".to_owned(),
        };
        Config { mongodb_uri, mongodb_database, redis_uri, broker_url }
    }
}

} // verus!
