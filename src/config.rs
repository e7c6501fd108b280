use vstd::prelude::*;
use vstd::string::*;

use crate::bytes::{decimal_u64, parse_decimal_u64};
use crate::credential::Verifier;

verus! {

/// Validity of credentials that the service issues, in hours, when the setting
/// is absent or unreadable.
pub const DEFAULT_EXPIRATION_HOURS: u64 = 24;

/// Process settings, read once at startup.
#[derive(Clone, Debug)]
pub struct Config {
    pub database_url: String,
    pub server_address: String,
    pub jwt_secret: String,
    pub jwt_expiration_hours: u64,
}

/// A setting without which the service cannot start.
#[derive(Clone, Copy, Debug, PartialEq, Eq, Structural)]
pub enum ConfigError {
    MissingDatabaseUrl,
    MissingJwtSecret,
}

/// The expiration setting: its decimal value, or the default.
pub open spec fn expiration_hours(text: Option<Seq<u8>>) -> u64 {
    match text {
        Some(t) => match decimal_u64(t) {
            Some(h) => h,
            None => DEFAULT_EXPIRATION_HOURS,
        },
        None => DEFAULT_EXPIRATION_HOURS,
    }
}

impl Config {
    /// Builds the settings from the values of `DATABASE_URL`,
    /// `SERVER_ADDRESS`, `JWT_SECRET` and `JWT_EXPIRATION_HOURS`, each `None`
    /// where unset. The database URL and the secret are required; the address
    /// defaults to `0.0.0.0:3000` and the expiration to 24 hours.
    pub fn from_values(
        database_url: Option<String>,
        server_address: Option<String>,
        jwt_secret: Option<String>,
        jwt_expiration_hours: Option<String>,
    ) -> (r: Result<Config, ConfigError>)
        ensures
            database_url is None ==> r == Err::<Config, ConfigError>(
                ConfigError::MissingDatabaseUrl,
            ),
            database_url is Some && jwt_secret is None ==> r == Err::<Config, ConfigError>(
                ConfigError::MissingJwtSecret,
            ),
            database_url is Some && jwt_secret is Some ==> r is Ok,
            r matches Ok(c) ==> {
                &&& c.database_url@ == database_url.unwrap()@
                &&& c.jwt_secret@ == jwt_secret.unwrap()@
                &&& c.server_address@ == match server_address {
                    Some(a) => a@,
                    None => "0.0.0.0:3000"@,
                }
                &&& c.jwt_expiration_hours == expiration_hours(
                    match jwt_expiration_hours {
                        Some(h) => Some(vstd::utf8::encode_utf8(h@)),
                        None => None,
                    },
                )
            },
    {
        let database_url = match database_url {
            Some(u) => u,
            None => return Err(ConfigError::MissingDatabaseUrl),
        };
        let jwt_secret = match jwt_secret {
            Some(s) => s,
            None => return Err(ConfigError::MissingJwtSecret),
        };
        let server_address = match server_address {
            Some(a) => a,
            None => String::from_str("0.0.0.0:3000"),
        };
        let jwt_expiration_hours = match jwt_expiration_hours {
            Some(h) => match parse_decimal_u64(h.as_str().as_bytes()) {
                Some(v) => v,
                None => DEFAULT_EXPIRATION_HOURS,
            },
            None => DEFAULT_EXPIRATION_HOURS,
        };
        Ok(Config { database_url, server_address, jwt_secret, jwt_expiration_hours })
    }

    /// The credential verifier keyed by the secret; `None` for an empty
    /// secret, on which the service must not start.
    pub fn credential_verifier(&self, clock_skew_tolerance: u64) -> (r: Option<Verifier>)
        ensures
            vstd::utf8::encode_utf8(self.jwt_secret@).len() == 0 ==> r is None,
            vstd::utf8::encode_utf8(self.jwt_secret@).len() > 0 ==> (r matches Some(v) && v.key()
                == vstd::utf8::encode_utf8(self.jwt_secret@) && v.skew() == clock_skew_tolerance),
    {
        let key = vstd::slice::slice_to_vec(self.jwt_secret.as_str().as_bytes());
        Verifier::new(key, clock_skew_tolerance)
    }
}

} // verus!
