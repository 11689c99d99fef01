//! The administrator's secret, kept as a bcrypt hash, and the comparison of
//! a presented token with it.

use crate::error::{Error, ErrorKind};
use crate::token::XApiToken;
use bcrypt::BcryptError;
use vstd::prelude::*;

verus! {

/// What `bcrypt::verify` answers for a password and a hash string: `Some(b)`
/// where it returns `Ok(b)`, `None` where it returns an error. The answer is
/// a function of the two strings alone.
pub uninterp spec fn bcrypt_verdict(password: Seq<char>, hash: Seq<char>) -> Option<bool>;

/// The shape of a hash string that bcrypt writes at its default cost of 12:
/// sixty characters, of which the first seven give version and cost.
pub open spec fn is_default_cost_hash(hash: Seq<char>) -> bool {
    hash.len() == 60 && hash.take(7) =~= "$2b$12$"@
}

/// `bcrypt::hash` at `bcrypt::DEFAULT_COST`, with a salt that bcrypt draws
/// at random. Trusted: a hash that comes back has the shape of a hash at
/// that cost, `bcrypt::verify` reads it without error for every password,
/// and accepts it for `password`. Nothing is claimed of when hashing
/// succeeds, nor of which salt is drawn.
#[verifier::external_body]
fn bcrypt_hash(password: &str) -> (hashed: Result<String, BcryptError>)
    ensures
        hashed matches Ok(h) ==> is_default_cost_hash(h@),
        hashed matches Ok(h) ==> bcrypt_verdict(password@, h@) == Some(true),
        hashed matches Ok(h) ==> forall|other: Seq<char>| (#[trigger] bcrypt_verdict(other, h@)) is Some,
{
    bcrypt::hash(password, bcrypt::DEFAULT_COST)
}

/// `bcrypt::verify`. Trusted: what comes back is the verdict of bcrypt on
/// the two strings.
#[verifier::external_body]
fn bcrypt_verify(password: &str, hash: &str) -> (outcome: Result<bool, BcryptError>)
    ensures
        match outcome {
            Ok(matches) => bcrypt_verdict(password@, hash@) == Some(matches),
            Err(_) => bcrypt_verdict(password@, hash@) is None,
        },
{
    bcrypt::verify(password, hash)
}

/// The configuration of the guard: the bcrypt hash of the administrator's
/// secret. The secret itself is not kept.
#[derive(Clone, Debug)]
pub struct AdminConfig {
    hashed_api_token: String,
}

impl AdminConfig {
    /// The stored hash string.
    pub closed spec fn hash(&self) -> Seq<char> {
        self.hashed_api_token@
    }

    /// What bcrypt says of `token` against the stored hash: `Some(true)` for
    /// a match, `Some(false)` for a mismatch, `None` where bcrypt fails.
    pub open spec fn verdict(&self, token: Seq<char>) -> Option<bool> {
        bcrypt_verdict(token, self.hash())
    }

    /// `result` is something that `build` may return for `secret`.
    pub open spec fn builds(secret: Seq<char>, result: Result<AdminConfig, Error>) -> bool {
        match result {
            Ok(config) => {
                &&& is_default_cost_hash(config.hash())
                &&& config.verdict(secret) == Some(true)
                &&& forall|token: Seq<char>| (#[trigger] config.verdict(token)) is Some
            },
            Err(e) => e.kind is BCryptHash,
        }
    }

    /// `result` is what `verify` returns for `token`.
    pub open spec fn verifies(&self, token: Seq<char>, result: Result<bool, Error>) -> bool {
        match self.verdict(token) {
            Some(matches) => result == Ok::<bool, Error>(matches),
            None => result is Err && result->Err_0.kind is BCryptVerify,
        }
    }

    /// The configuration for the outcome of hashing the secret: the hash is
    /// stored as it is, a failure of bcrypt becomes a `BCryptHash` error.
    pub fn from_hashed(hashed: Result<String, BcryptError>) -> (result: Result<AdminConfig, Error>)
        ensures
            match hashed {
                Ok(h) => result is Ok && result->Ok_0.hash() == h@,
                Err(e) => result is Err && result->Err_0.kind == ErrorKind::BCryptHash(e),
            },
    {
        match hashed {
            Ok(h) => Ok(AdminConfig { hashed_api_token: h }),
            Err(e) => Err(Error::bcrypt_hash(e)),
        }
    }

    /// Hashes the secret with bcrypt at its default cost and keeps the hash.
    /// Whether hashing succeeds is up to bcrypt; a configuration that comes
    /// back accepts the secret it was built from and gives a verdict on
    /// every token.
    pub fn build(api_token: &str) -> (result: Result<AdminConfig, Error>)
        ensures
            Self::builds(api_token@, result),
    {
        Self::from_hashed(bcrypt_hash(api_token))
    }

    /// What `verify` returns for the outcome of bcrypt's comparison: the
    /// answer as it is, a failure of bcrypt as a `BCryptVerify` error.
    pub fn verified(outcome: Result<bool, BcryptError>) -> (result: Result<bool, Error>)
        ensures
            match outcome {
                Ok(matches) => result == Ok::<bool, Error>(matches),
                Err(e) => result is Err && result->Err_0.kind == ErrorKind::BCryptVerify(e),
            },
    {
        match outcome {
            Ok(matches) => Ok(matches),
            Err(e) => Err(Error::bcrypt_verify(e)),
        }
    }

    /// Compares the presented token with the stored hash. A mismatch is
    /// `Ok(false)`; an error is returned only where bcrypt itself fails.
    pub fn verify(&self, token: XApiToken) -> (result: Result<bool, Error>)
        ensures
            self.verifies(token@, result),
    {
        Self::verified(bcrypt_verify(token.as_str(), self.hashed_api_token.as_str()))
    }
}

/// A configuration built from a secret accepts that secret: `verify`
/// returns `Ok(true)` for it.
pub proof fn law_built_config_accepts_its_secret(
    secret: Seq<char>,
    config: AdminConfig,
    answer: Result<bool, Error>,
)
    requires
        AdminConfig::builds(secret, Ok(config)),
        config.verifies(secret, answer),
    ensures
        answer == Ok::<bool, Error>(true),
{
}

/// On a configuration that `build` returned, a token that does not match
/// is never an error: `verify` answers `Ok` for every token, with bcrypt's
/// verdict, so `Ok(false)` for every token that bcrypt does not accept.
pub proof fn law_built_config_refuses_without_error(
    secret: Seq<char>,
    config: AdminConfig,
    token: Seq<char>,
    answer: Result<bool, Error>,
)
    requires
        AdminConfig::builds(secret, Ok(config)),
        config.verifies(token, answer),
    ensures
        answer is Ok,
        config.verdict(token) == Some(answer->Ok_0),
        config.verdict(token) != Some(true) ==> answer == Ok::<bool, Error>(false),
{
}

} // verus!
