//! Settings that the service is started with.

use vstd::prelude::*;
use crate::text::{parse_u32, u32_parse};

verus! {

/// How tokens are signed and what they claim.
#[derive(Debug)]
pub struct AuthConfig {
    algorithm: String,
    aud_claims: String,
    exp_claims_additional_sec: u32,
    iss_claims: String,
    public_key_path: String,
    private_key_path: String,
}

impl AuthConfig {
    /// The settings with a lifetime that has been read as a number.
    pub fn from_parts(
        algorithm: String,
        aud_claims: String,
        exp_claims_additional_sec: u32,
        iss_claims: String,
        public_key_path: String,
        private_key_path: String,
    ) -> (c: AuthConfig)
        ensures
            c.algorithm() == algorithm@,
            c.aud_claims() == aud_claims@,
            c.exp_claims_additional_sec() == exp_claims_additional_sec,
            c.iss_claims() == iss_claims@,
            c.public_key_path() == public_key_path@,
            c.private_key_path() == private_key_path@,
    {
        AuthConfig {
            algorithm,
            aud_claims,
            exp_claims_additional_sec,
            iss_claims,
            public_key_path,
            private_key_path,
        }
    }

    /// The settings as they are given at start-up. The lifetime of a token
    /// must be a decimal number of seconds; there are no settings otherwise.
    pub fn init_auth_config(
        algorithm: String,
        aud_claims: String,
        exp_claims_additional_sec: &str,
        iss_claims: String,
        public_key_path: String,
        private_key_path: String,
    ) -> (r: Option<AuthConfig>)
        ensures
            match r {
                Some(c) => {
                    &&& u32_parse(exp_claims_additional_sec@) == Ok::<u32, Seq<char>>(
                        c.exp_claims_additional_sec(),
                    )
                    &&& c.algorithm() == algorithm@
                    &&& c.aud_claims() == aud_claims@
                    &&& c.iss_claims() == iss_claims@
                    &&& c.public_key_path() == public_key_path@
                    &&& c.private_key_path() == private_key_path@
                },
                None => u32_parse(exp_claims_additional_sec@) is Err,
            },
    {
        match parse_u32(exp_claims_additional_sec) {
            Ok(seconds) => Some(
                AuthConfig::from_parts(
                    algorithm,
                    aud_claims,
                    seconds,
                    iss_claims,
                    public_key_path,
                    private_key_path,
                ),
            ),
            Err(_) => None,
        }
    }

    /// The signing algorithm.
    pub closed spec fn algorithm(&self) -> Seq<char> {
        self.algorithm@
    }

    /// The audience.
    pub closed spec fn aud_claims(&self) -> Seq<char> {
        self.aud_claims@
    }

    /// The lifetime of a token in seconds.
    pub closed spec fn exp_claims_additional_sec(&self) -> u32 {
        self.exp_claims_additional_sec
    }

    /// The issuer.
    pub closed spec fn iss_claims(&self) -> Seq<char> {
        self.iss_claims@
    }

    /// The path of the public key.
    pub closed spec fn public_key_path(&self) -> Seq<char> {
        self.public_key_path@
    }

    /// The path of the private key.
    pub closed spec fn private_key_path(&self) -> Seq<char> {
        self.private_key_path@
    }

    /// The signing algorithm.
    pub fn get_algorithm(&self) -> (r: &str)
        ensures
            r@ == self.algorithm(),
    {
        self.algorithm.as_str()
    }

    /// The audience that tokens are issued for.
    pub fn get_aud_claims(&self) -> (r: String)
        ensures
            r@ == self.aud_claims(),
    {
        self.aud_claims.clone()
    }

    /// How many seconds a token lives.
    pub fn get_exp_claims_additional_sec(&self) -> (r: usize)
        ensures
            r == self.exp_claims_additional_sec(),
    {
        self.exp_claims_additional_sec as usize
    }

    /// The issuer that tokens name.
    pub fn get_iss_claims(&self) -> (r: String)
        ensures
            r@ == self.iss_claims(),
    {
        self.iss_claims.clone()
    }

    /// Where the public key is read from.
    pub fn get_public_key_path(&self) -> (r: &str)
        ensures
            r@ == self.public_key_path(),
    {
        self.public_key_path.as_str()
    }

    /// Where the private key is read from.
    pub fn get_private_key_path(&self) -> (r: &str)
        ensures
            r@ == self.private_key_path(),
    {
        self.private_key_path.as_str()
    }
}

/// Where the document store is.
#[derive(Debug)]
pub struct MongoConfig {
    database_url: String,
}

impl MongoConfig {
    /// The settings for the document store at `database_url`.
    pub fn init_mongo_config(database_url: String) -> (c: MongoConfig)
        ensures
            c.database_url() == database_url@,
    {
        MongoConfig { database_url }
    }

    /// The address of the store.
    pub closed spec fn database_url(&self) -> Seq<char> {
        self.database_url@
    }

    /// The address of the document store.
    pub fn get_database_url(&self) -> (r: &str)
        ensures
            r@ == self.database_url(),
    {
        self.database_url.as_str()
    }
}

/// Where the relational store is and how many connections it may take.
#[derive(Debug)]
pub struct PostgresConfig {
    max_connections: u32,
    database_url: String,
}

impl PostgresConfig {
    /// The settings as they are given at start-up. The number of connections
    /// must be a decimal number; there are no settings otherwise.
    pub fn init_postgres_config(max_connections: &str, database_url: String) -> (r: Option<
        PostgresConfig,
    >)
        ensures
            match r {
                Some(c) => u32_parse(max_connections@) == Ok::<u32, Seq<char>>(c.max_connections())
                    && c.database_url() == database_url@,
                None => u32_parse(max_connections@) is Err,
            },
    {
        match parse_u32(max_connections) {
            Ok(n) => Some(PostgresConfig { max_connections: n, database_url }),
            Err(_) => None,
        }
    }

    /// The largest number of connections.
    pub closed spec fn max_connections(&self) -> u32 {
        self.max_connections
    }

    /// The address of the store.
    pub closed spec fn database_url(&self) -> Seq<char> {
        self.database_url@
    }

    /// How many connections the pool may open.
    pub fn get_max_connections(&self) -> (r: u32)
        ensures
            r == self.max_connections(),
    {
        self.max_connections
    }

    /// The address of the relational store.
    pub fn get_database_url(&self) -> (r: &str)
        ensures
            r@ == self.database_url(),
    {
        self.database_url.as_str()
    }
}

} // verus!
