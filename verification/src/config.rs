//! Process configuration: the deployment environment and the settings the
//! server starts with. The values come from environment variables, which the
//! I/O layer reads; this module holds the defaulting and parsing rules.

use vstd::prelude::*;
use crate::strings::lower_of;
use crate::strings::lowercase;
use crate::strings::parse_i64;
use crate::strings::parse_u16;
use crate::strings::spec_parse_i64;
use crate::strings::spec_parse_u16;

verus! {

/// The deployment environment the process runs in.
#[derive(Debug, Clone, Copy, PartialEq, Eq, Structural)]
pub enum Environment {
    Development,
    Production,
    Testing,
}

/// The environment a lowercased name denotes; anything unrecognized is
/// development.
pub open spec fn spec_env_of(lowered: Seq<char>) -> Environment {
    if lowered == "production"@ || lowered == "prod"@ {
        Environment::Production
    } else if lowered == "testing"@ || lowered == "test"@ {
        Environment::Testing
    } else {
        Environment::Development
    }
}

/// The environment named by an already-lowercased string.
pub fn env_from_lowered(s: &str) -> (r: Environment)
    ensures
        r == spec_env_of(s@),
{
    let owned = s.to_owned();
    if owned == "production".to_owned() || owned == "prod".to_owned() {
        Environment::Production
    } else if owned == "testing".to_owned() || owned == "test".to_owned() {
        Environment::Testing
    } else {
        Environment::Development
    }
}

impl Environment {
    /// The environment a name denotes, compared case-insensitively.
    pub fn from_str(s: &str) -> (r: Environment)
        ensures
            r == spec_env_of(lower_of(s@)),
    {
        let lowered = lowercase(s);
        env_from_lowered(lowered.as_str())
    }

    pub fn is_development(&self) -> (r: bool)
        ensures
            r == (*self == Environment::Development),
    {
        *self == Environment::Development
    }

    pub fn is_production(&self) -> (r: bool)
        ensures
            r == (*self == Environment::Production),
    {
        *self == Environment::Production
    }
}

/// Settings the server starts with.
#[derive(Debug, Clone)]
pub struct AppConfig {
    pub host: String,
    pub port: u16,
    pub neo4j_uri: String,
    pub neo4j_user: String,
    pub neo4j_password: String,
    pub jwt_secret: String,
    pub jwt_expiration: i64,
    pub environment: Environment,
}

/// A provided value, or the default.
pub open spec fn value_or(v: Option<String>, default: Seq<char>) -> Seq<char> {
    match v {
        Some(s) => s@,
        None => default,
    }
}

/// The environment the optional variable selects.
pub open spec fn spec_env_choice(environment: Option<String>) -> Environment {
    spec_env_of(lower_of(value_or(environment, "development"@)))
}

/// The port an optional variable selects: the parsed value, or 3001 when the
/// variable is missing or malformed.
pub open spec fn spec_port_choice(port: Option<String>) -> u16 {
    match port {
        Some(s) => match spec_parse_u16(s@) {
            Some(v) => v,
            None => 3001,
        },
        None => 3001,
    }
}

/// The JWT expiration an optional variable selects, in seconds: the parsed
/// value, or 86400 when the variable is missing or malformed.
pub open spec fn spec_expiration_choice(expiration: Option<String>) -> i64 {
    match expiration {
        Some(s) => match spec_parse_i64(s@) {
            Some(v) => v,
            None => 86400,
        },
        None => 86400,
    }
}

impl AppConfig {
    /// Build the configuration from the raw environment-variable values,
    /// applying the documented defaults. A production deployment must
    /// provide its own JWT secret: the caller checks that before calling
    /// and refuses to start otherwise.
    pub fn from_values(
        environment: Option<String>,
        host: Option<String>,
        port: Option<String>,
        neo4j_uri: Option<String>,
        neo4j_user: Option<String>,
        neo4j_password: Option<String>,
        jwt_secret: Option<String>,
        jwt_expiration: Option<String>,
    ) -> (r: AppConfig)
        requires
            spec_env_choice(environment) == Environment::Production ==> jwt_secret is Some,
        ensures
            r.environment == spec_env_choice(environment),
            r.host@ == value_or(host, "127.0.0.1"@),
            r.port == spec_port_choice(port),
            r.neo4j_uri@ == value_or(neo4j_uri, "bolt://localhost:7687"@),
            r.neo4j_user@ == value_or(neo4j_user, "neo4j"@),
            r.neo4j_password@ == value_or(neo4j_password, "password"@),
            r.jwt_secret@ == value_or(jwt_secret, "development_jwt_secret_key"@),
            r.jwt_expiration == spec_expiration_choice(jwt_expiration),
    {
        let env_name = match environment {
            Some(s) => s,
            None => "development".to_owned(),
        };
        let env = Environment::from_str(env_name.as_str());
        let host_value = match host {
            Some(s) => s,
            None => "127.0.0.1".to_owned(),
        };
        let port_value: u16 = match port {
            Some(s) => match parse_u16(s.as_str()) {
                Some(v) => v,
                None => 3001,
            },
            None => 3001,
        };
        let uri = match neo4j_uri {
            Some(s) => s,
            None => "bolt://localhost:7687".to_owned(),
        };
        let user = match neo4j_user {
            Some(s) => s,
            None => "neo4j".to_owned(),
        };
        let password = match neo4j_password {
            Some(s) => s,
            None => "password".to_owned(),
        };
        let secret = match jwt_secret {
            Some(s) => s,
            None => "development_jwt_secret_key".to_owned(),
        };
        let expiration: i64 = match jwt_expiration {
            Some(s) => match parse_i64(s.as_str()) {
                Some(v) => v,
                None => 86400,
            },
            None => 86400,
        };
        AppConfig {
            host: host_value,
            port: port_value,
            neo4j_uri: uri,
            neo4j_user: user,
            neo4j_password: password,
            jwt_secret: secret,
            jwt_expiration: expiration,
            environment: env,
        }
    }
}

} // verus!
