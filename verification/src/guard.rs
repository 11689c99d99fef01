//! The guard: from what a request holds to the capability that gives access
//! to the store, or to the error that rejects the request.

use crate::config::AdminConfig;
use crate::error::{Error, ErrorKind, ParseError};
use crate::token::{decode, is_visible_ascii, token_values, HeaderField, XApiToken};
use vstd::prelude::*;

verus! {

/// What the guard reads of a request: the configuration and the store
/// handle that the application registered, where it did, and the headers.
pub struct Request<'a, S> {
    pub config: Option<&'a AdminConfig>,
    pub headers: Vec<HeaderField>,
    pub store: Option<&'a S>,
}

/// The capability of an authenticated administrator: access to the store.
/// Only `Admin::verify` makes one, and only for a request that it accepted.
pub struct Admin<'a, S> {
    db: &'a S,
}

impl<'a, S> Admin<'a, S> {
    /// The store that the capability gives access to.
    pub closed spec fn db(&self) -> S {
        *self.db
    }

    /// `result` is what the guard answers for `req`. The steps are taken in
    /// this order, and the first that fails decides: the configuration is
    /// looked up, the token is read from the headers, bcrypt compares it
    /// with the stored hash, the store is looked up.
    pub open spec fn guards(req: Request<S>, result: Result<Admin<S>, Error>) -> bool {
        match req.config {
            None => result is Err && result->Err_0.kind == ErrorKind::MissingConfig,
            Some(config) => match decode(req.headers@) {
                Err(e) => result is Err && result->Err_0.kind == ErrorKind::ParseHeader(e),
                Ok(token) => match config.verdict(token) {
                    None => result is Err && result->Err_0.kind is BCryptVerify,
                    Some(false) => result is Err && result->Err_0.kind == ErrorKind::Invalid,
                    Some(true) => match req.store {
                        None => result is Err && result->Err_0.kind == ErrorKind::MissingDb,
                        Some(db) => result is Ok && result->Ok_0.db() == *db,
                    },
                },
            },
        }
    }

    /// The last two steps of the guard, for the answer of the comparison: a
    /// token that does not match is `Invalid`; for one that matches the
    /// store is handed on, or found `MissingDb`.
    pub fn grant(matches: bool, store: Option<&'a S>) -> (result: Result<&'a S, Error>)
        ensures
            match (matches, store) {
                (false, _) => result is Err && result->Err_0.kind == ErrorKind::Invalid,
                (true, None) => result is Err && result->Err_0.kind == ErrorKind::MissingDb,
                (true, Some(db)) => result == Ok::<&S, Error>(db),
            },
    {
        if matches {
            match store {
                Some(db) => Ok(db),
                None => Err(Error::missing_db()),
            }
        } else {
            Err(Error::invalid())
        }
    }

    /// Decides on a request: the capability for one that presents the
    /// configured secret, a typed error for every other.
    pub fn verify(req: &Request<'a, S>) -> (result: Result<Self, Error>)
        ensures
            Self::guards(*req, result),
    {
        let config = match req.config {
            Some(config) => config,
            None => return Err(Error::missing_config()),
        };
        let x_api_token = match XApiToken::parse(req.headers.as_slice()) {
            Ok(token) => token,
            Err(e) => return Err(Error::parse_header(e)),
        };
        let matches = match config.verify(x_api_token) {
            Ok(matches) => matches,
            Err(e) => return Err(e),
        };
        match Self::grant(matches, req.store) {
            Ok(db) => Ok(Admin { db }),
            Err(e) => Err(e),
        }
    }

    /// The store.
    pub fn db_ref(&self) -> (db: &'a S)
        ensures
            *db == self.db(),
    {
        self.db
    }
}

/// Decoding a request without the token header fails as `Missing`, and the
/// guard, once it has found the configuration, rejects the request with
/// `ParseHeader`.
pub proof fn law_no_header_is_parse_error<S>(req: Request<S>, result: Result<Admin<S>, Error>)
    requires
        token_values(req.headers@).len() == 0,
        Admin::guards(req, result),
    ensures
        decode(req.headers@) == Err::<Seq<char>, ParseError>(ParseError::Missing),
        req.config is Some ==> result is Err && result->Err_0.kind == ErrorKind::ParseHeader(
            ParseError::Missing,
        ) && result->Err_0.kind.status() == 400,
{
}

/// Decoding a request with two or more token headers fails as `Malformed`,
/// whatever their values are: none of them is taken for the token. The
/// guard, once it has found the configuration, rejects the request with
/// `ParseHeader`.
pub proof fn law_repeated_header_is_parse_error<S>(
    req: Request<S>,
    result: Result<Admin<S>, Error>,
)
    requires
        token_values(req.headers@).len() >= 2,
        Admin::guards(req, result),
    ensures
        decode(req.headers@) == Err::<Seq<char>, ParseError>(ParseError::Malformed),
        req.config is Some ==> result is Err && result->Err_0.kind == ErrorKind::ParseHeader(
            ParseError::Malformed,
        ) && result->Err_0.kind.status() == 400,
{
}

/// Decoding a request whose one token header holds, at `at`, a byte that is
/// not visible ASCII fails as `Malformed`, and the guard, once it has found
/// the configuration, rejects the request with `ParseHeader`.
pub proof fn law_invalid_byte_is_parse_error<S>(
    req: Request<S>,
    result: Result<Admin<S>, Error>,
    at: int,
)
    requires
        token_values(req.headers@).len() == 1,
        0 <= at < token_values(req.headers@)[0].len(),
        !is_visible_ascii(token_values(req.headers@)[0][at]),
        Admin::guards(req, result),
    ensures
        decode(req.headers@) == Err::<Seq<char>, ParseError>(ParseError::Malformed),
        req.config is Some ==> result is Err && result->Err_0.kind == ErrorKind::ParseHeader(
            ParseError::Malformed,
        ) && result->Err_0.kind.status() == 400,
{
}

/// Without a configuration every request is rejected with `MissingConfig`,
/// whatever its headers hold.
pub proof fn law_missing_config_comes_first<S>(req: Request<S>, result: Result<Admin<S>, Error>)
    requires
        req.config is None,
        Admin::guards(req, result),
    ensures
        result is Err,
        result->Err_0.kind == ErrorKind::MissingConfig,
        result->Err_0.kind.status() == 500,
{
}

/// A request that presents a token which the configuration accepts, to an
/// application without a store, is rejected with `MissingDb`.
pub proof fn law_missing_store<S>(req: Request<S>, result: Result<Admin<S>, Error>)
    requires
        req.config is Some,
        decode(req.headers@) is Ok,
        req.config->Some_0.verdict(decode(req.headers@)->Ok_0) == Some(true),
        req.store is None,
        Admin::guards(req, result),
    ensures
        result is Err,
        result->Err_0.kind == ErrorKind::MissingDb,
        result->Err_0.kind.status() == 500,
{
}

/// The capability is given exactly to a request that finds the
/// configuration, carries one readable token header whose token bcrypt
/// accepts against the stored hash, and finds the store.
pub proof fn law_capability_only_for_the_secret<S>(req: Request<S>, result: Result<Admin<S>, Error>)
    requires
        Admin::guards(req, result),
    ensures
        result is Ok <==> {
            &&& req.config is Some
            &&& decode(req.headers@) is Ok
            &&& req.config->Some_0.verdict(decode(req.headers@)->Ok_0) == Some(true)
            &&& req.store is Some
        },
        result is Ok ==> result->Ok_0.db() == *req.store->Some_0,
{
}

} // verus!
