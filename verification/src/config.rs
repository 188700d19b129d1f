use vstd::prelude::*;
use crate::decimal::{
    is_signed_digit_run, is_unsigned_digit_run, parse_i64_lenient, parse_u16_lenient,
    signed_digit_run_val, unsigned_digit_run_val,
};

verus! {

/// The immutable process-wide configuration: store address, token
/// signing secret, token lifetime in minutes, and the bind address.
#[derive(Debug)]
pub struct Config {
    pub database_url: String,
    pub jwt_secret: String,
    pub jwt_expires_in: i64,
    pub host: String,
    pub port: u16,
}

/// Whether an optional TTL setting is acceptable: absent means the
/// default of 60 minutes, present means a decimal number of minutes
/// in the grammar of `str::parse::<i64>` (optional sign, leading
/// zeros allowed).
pub open spec fn ttl_setting_ok(v: Option<String>) -> bool {
    match v {
        Some(e) => is_signed_digit_run(e@) && i64::MIN <= signed_digit_run_val(e@) <= i64::MAX,
        None => true,
    }
}

/// Whether an optional port setting is acceptable: absent means 8080;
/// present means a number in the grammar of `str::parse::<u16>`.
pub open spec fn port_setting_ok(v: Option<String>) -> bool {
    match v {
        Some(p) => is_unsigned_digit_run(p@) && unsigned_digit_run_val(p@) <= u16::MAX,
        None => true,
    }
}

impl Config {
    /// Builds the configuration from the raw environment values.  The
    /// store address and the signing secret are required; the TTL
    /// defaults to 60 minutes, the bind address to 127.0.0.1:8080.
    /// `None` reports a missing required value or an unparsable number,
    /// which is fatal at startup.
    pub fn from_parts(
        database_url: Option<String>,
        jwt_secret: Option<String>,
        jwt_expires_in: Option<String>,
        host: Option<String>,
        port: Option<String>,
    ) -> (r: Option<Config>)
        ensures
            match r {
                Some(c) => {
                    &&& database_url matches Some(u) && c.database_url@ == u@
                    &&& jwt_secret matches Some(s) && c.jwt_secret@ == s@
                    &&& match jwt_expires_in {
                        Some(e) => c.jwt_expires_in == signed_digit_run_val(e@),
                        None => c.jwt_expires_in == 60,
                    }
                    &&& match host {
                        Some(h) => c.host@ == h@,
                        None => c.host@ == "127.0.0.1"@,
                    }
                    &&& match port {
                        Some(p) => c.port == unsigned_digit_run_val(p@),
                        None => c.port == 8080,
                    }
                },
                None => database_url is None || jwt_secret is None || !ttl_setting_ok(
                    jwt_expires_in,
                ) || !port_setting_ok(port),
            },
            r is Some <==> database_url is Some && jwt_secret is Some && ttl_setting_ok(
                jwt_expires_in,
            ) && port_setting_ok(port),
    {
        let database_url = match database_url {
            Some(u) => u,
            None => {
                return None;
            },
        };
        let jwt_secret = match jwt_secret {
            Some(s) => s,
            None => {
                return None;
            },
        };
        let jwt_expires_in: i64 = match jwt_expires_in {
            Some(e) => match parse_i64_lenient(e.as_str()) {
                Some(v) => v,
                None => {
                    return None;
                },
            },
            None => 60,
        };
        let port: u16 = match port {
            Some(p) => match parse_u16_lenient(p.as_str()) {
                Some(v) => v,
                None => {
                    return None;
                },
            },
            None => 8080,
        };
        let host = match host {
            Some(h) => h,
            None => String::from_str("127.0.0.1"),
        };
        Some(Config { database_url, jwt_secret, jwt_expires_in, host, port })
    }
}

} // verus!
