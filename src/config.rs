//! Settings of the token issuer, the database and the object store, built
//! from the raw text of their configuration values.

use vstd::prelude::*;
use vstd::string::*;

use crate::error::Error;
use crate::text::{joined, same_text};

verus! {

/// `s` is a non-empty run of ASCII digits.
pub open spec fn all_digits(s: Seq<char>) -> bool {
    s.len() > 0 && forall|i: int| 0 <= i < s.len() ==> '0' <= #[trigger] s[i] <= '9'
}

/// The number that a run of ASCII digits writes in base ten.
pub open spec fn digits_value(s: Seq<char>) -> int
    decreases s.len(),
{
    if s.len() == 0 {
        0
    } else {
        10 * digits_value(s.drop_last()) + (s.last() as int - '0' as int)
    }
}

/// The integer that `s` writes: an optional `+` or `-`, then digits.
pub open spec fn decimal_value(s: Seq<char>) -> Option<int> {
    if s.len() > 0 && s[0] == '-' && all_digits(s.skip(1)) {
        Some(-digits_value(s.skip(1)))
    } else if s.len() > 0 && s[0] == '+' && all_digits(s.skip(1)) {
        Some(digits_value(s.skip(1)))
    } else if all_digits(s) {
        Some(digits_value(s))
    } else {
        None
    }
}

/// Relies on `str::parse::<i64>`: accepts exactly an optional sign followed
/// by decimal digits whose value fits in an `i64`.
#[verifier::external_body]
fn parse_i64(s: &str) -> (r: Result<i64, String>)
    ensures
        r is Ok <==> (decimal_value(s@) is Some && i64::MIN <= decimal_value(s@)->Some_0 <= i64::MAX),
        r is Ok ==> r->Ok_0 == decimal_value(s@)->Some_0,
{
    s.parse::<i64>().map_err(|e| e.to_string())
}

/// Relies on `str::parse::<i32>`: accepts exactly an optional sign followed
/// by decimal digits whose value fits in an `i32`.
#[verifier::external_body]
fn parse_i32(s: &str) -> (r: Result<i32, String>)
    ensures
        r is Ok <==> (decimal_value(s@) is Some && i32::MIN <= decimal_value(s@)->Some_0 <= i32::MAX),
        r is Ok ==> r->Ok_0 == decimal_value(s@)->Some_0,
{
    s.parse::<i32>().map_err(|e| e.to_string())
}

/// Settings of the token issuer: the signing secret and the token lifetime
/// in minutes.
pub struct JWTConfig {
    pub secret: Vec<u8>,
    pub expriation: i64,
}

/// Settings of the database connection.
pub struct DatabaseConfig {
    pub address: String,
    pub username: String,
    pub password: String,
    pub namespace: String,
    pub database: String,
}

/// Settings of the object store.
pub struct S3Config {
    pub ip: String,
    pub bucket_name: String,
    pub console_port: i32,
    pub api_port: i32,
    pub user: String,
    pub password: String,
    pub https: bool,
}

impl JWTConfig {
    /// The issuer's settings from the secret's bytes and the lifetime's text;
    /// a lifetime that is not an `i64` in decimal is a format error.
    pub fn from_values(secret: Vec<u8>, expiration: &str) -> (r: Result<JWTConfig, Error>)
        ensures
            r is Ok <==> decimal_value(expiration@) is Some
                && i64::MIN <= decimal_value(expiration@)->Some_0 <= i64::MAX,
            r is Ok ==> r->Ok_0.secret@ == secret@ && r->Ok_0.expriation == decimal_value(expiration@)->Some_0,
            r is Err ==> r->Err_0 is ParseEnvFailedWrongFormat,
    {
        match parse_i64(expiration) {
            Ok(minutes) => Ok(JWTConfig { secret, expriation: minutes }),
            Err(cause) => Err(Error::ParseEnvFailedWrongFormat(cause)),
        }
    }
}

impl DatabaseConfig {
    /// The connection settings; the address is `"host:port"`.
    pub fn from_values(host: &str, port: &str, username: String, password: String, namespace: String, database: String) -> (r: DatabaseConfig)
        ensures
            r.address@ == host@ + ":"@ + port@,
            r.username == username,
            r.password == password,
            r.namespace == namespace,
            r.database == database,
    {
        DatabaseConfig { address: joined(host, ":", port), username, password, namespace, database }
    }
}

impl S3Config {
    /// The object store's settings; ports that are not `i32` in decimal are
    /// format errors, and any `https` text but `"false"` turns it on.
    pub fn from_values(
        ip: String,
        bucket_name: String,
        console_port: &str,
        api_port: &str,
        user: String,
        password: String,
        https: &str,
    ) -> (r: Result<S3Config, Error>)
        ensures
            r is Ok <==> (decimal_value(console_port@) is Some
                && i32::MIN <= decimal_value(console_port@)->Some_0 <= i32::MAX
                && decimal_value(api_port@) is Some
                && i32::MIN <= decimal_value(api_port@)->Some_0 <= i32::MAX),
            r is Ok ==> {
                let c = r->Ok_0;
                &&& c.ip == ip && c.bucket_name == bucket_name && c.user == user && c.password == password
                &&& c.console_port == decimal_value(console_port@)->Some_0
                &&& c.api_port == decimal_value(api_port@)->Some_0
                &&& c.https == (https@ != "false"@)
            },
            r is Err ==> r->Err_0 is ParseEnvFailedWrongFormat,
    {
        let console_port = match parse_i32(console_port) {
            Ok(p) => p,
            Err(cause) => {
                return Err(Error::ParseEnvFailedWrongFormat(cause));
            },
        };
        let api_port = match parse_i32(api_port) {
            Ok(p) => p,
            Err(cause) => {
                return Err(Error::ParseEnvFailedWrongFormat(cause));
            },
        };
        let https = !same_text(https, "false");
        Ok(S3Config { ip, bucket_name, console_port, api_port, user, password, https })
    }
}

} // verus!
