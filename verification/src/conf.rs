//! The settings that the gateway's rules read.

use crate::time::Span;
use std::path::PathBuf;
use vstd::prelude::*;

verus! {

/// How bearer tokens are signed and whom they must name.
#[derive(Clone)]
pub struct ConfJwt {
    pub secret: String,
    pub audience: String,
    pub issuer: String,
}

/// Where the certificate and the key of the listener are kept.
#[derive(Clone, Debug)]
pub struct Tls {
    pub cert_file: PathBuf,
    pub key_file: PathBuf,
}

/// The settings of one gateway.
#[derive(Clone)]
pub struct Conf {
    pub port: u16,
    pub jwt: ConfJwt,
    /// Host of the service that requests are forwarded to.
    pub target_address: String,
    /// The gateway's own credential at that service.
    pub target_auth_token: String,
    /// The least time between two requests of one caller.
    pub min_hit_interval: Span,
    /// The most tokens that one caller may use on one day.
    pub max_tokens_per_day: u64,
    /// How long a writer waits for the store before it gives up.
    pub sqlite_busy_timeout: Span,
    pub tls: Option<Tls>,
}

impl ConfJwt {
    /// The secret that a fresh installation signs with.
    pub open spec fn default_secret() -> Seq<char> {
        "super-secret"@
    }

    /// The audience that a fresh installation expects.
    pub open spec fn default_audience() -> Seq<char> {
        "authenticated"@
    }

    /// The issuer that a fresh installation expects.
    pub open spec fn default_issuer() -> Seq<char> {
        "https://bright-kitten-41.clerk.accounts.dev"@
    }
}

impl Default for ConfJwt {
    fn default() -> (c: Self)
        ensures
            c.secret@ == ConfJwt::default_secret(),
            c.audience@ == ConfJwt::default_audience(),
            c.issuer@ == ConfJwt::default_issuer(),
    {
        ConfJwt {
            secret: "super-secret".to_string(),
            audience: "authenticated".to_string(),
            issuer: "https://bright-kitten-41.clerk.accounts.dev".to_string(),
        }
    }
}

impl Conf {
    /// Every span in the settings has its fraction below one second.
    pub open spec fn wf(&self) -> bool {
        self.min_hit_interval.wf() && self.sqlite_busy_timeout.wf()
    }
}

impl Default for Conf {
    fn default() -> (c: Self)
        ensures
            c.wf(),
            c.port == 3001,
            c.jwt.secret@ == ConfJwt::default_secret(),
            c.jwt.audience@ == ConfJwt::default_audience(),
            c.jwt.issuer@ == ConfJwt::default_issuer(),
            c.target_address@ == "api.groq.com"@,
            c.target_auth_token@ == Seq::<char>::empty(),
            c.min_hit_interval == (Span { secs: 5, nanos: 0 }),
            c.max_tokens_per_day == 1_000_000,
            c.sqlite_busy_timeout == (Span { secs: 60, nanos: 0 }),
            c.tls is None,
    {
        Conf {
            port: 3001,
            jwt: ConfJwt::default(),
            target_address: "api.groq.com".to_string(),
            target_auth_token: String::new(),
            min_hit_interval: Span::from_secs(5),
            max_tokens_per_day: 1_000_000,
            sqlite_busy_timeout: Span::from_secs(60),
            tls: None,
        }
    }
}

/// `std::path::PathBuf`, the path of a file. Nothing is known of what a
/// value holds.
#[verifier::external_type_specification]
#[verifier::external_body]
pub struct ExPathBuf(PathBuf);

/// `PathBuf::clone`: a copy of the path. Nothing is claimed of it, as
/// nothing is known of a path.
pub assume_specification[ <PathBuf as Clone>::clone ](p: &PathBuf) -> (q: PathBuf)
;

} // verus!
