//! The errors of the guard, their messages and their HTTP status codes.

use bcrypt::BcryptError;
use vstd::prelude::*;

verus! {

/// `bcrypt::BcryptError`, carried through as an opaque value.
#[verifier::external_type_specification]
#[verifier::external_body]
pub struct ExBcryptError(BcryptError);

/// Why the token header of a request could not be decoded.
#[derive(Clone, Copy, Debug, PartialEq, Eq, Structural)]
pub enum ParseError {
    /// The request has no `x-api-token` header.
    Missing,
    /// The header occurs more than once, or its value is empty or holds a
    /// byte that is not visible ASCII.
    Malformed,
}

/// What went wrong, one case per row of the status table.
#[derive(Debug)]
pub enum ErrorKind {
    /// A token was presented and does not match the configured secret.
    Invalid,
    /// No `AdminConfig` was registered with the application.
    MissingConfig,
    /// No store handle was registered with the application.
    MissingDb,
    /// bcrypt failed while comparing a token with the stored hash.
    BCryptVerify(BcryptError),
    /// bcrypt failed while hashing the secret at startup.
    BCryptHash(BcryptError),
    /// The token header is missing, repeated or malformed.
    ParseHeader(ParseError),
}

pub const BAD_REQUEST: u16 = 400;

pub const INTERNAL_SERVER_ERROR: u16 = 500;

impl ErrorKind {
    /// The status that a response for this kind of error carries.
    pub open spec fn status(self) -> u16 {
        match self {
            ErrorKind::Invalid | ErrorKind::ParseHeader(_) => BAD_REQUEST,
            _ => INTERNAL_SERVER_ERROR,
        }
    }

    /// The message that a response for this kind of error carries.
    pub open spec fn message(self) -> Seq<char> {
        match self {
            ErrorKind::Invalid => "Invalid API Token"@,
            ErrorKind::MissingConfig => "Missing Config"@,
            ErrorKind::MissingDb => "Missing Db"@,
            ErrorKind::BCryptVerify(_) => "Verifying"@,
            ErrorKind::BCryptHash(_) => "Hashing"@,
            ErrorKind::ParseHeader(_) => "Parse Header"@,
        }
    }

    /// The message as text. It depends on the kind alone: neither the
    /// presented token nor the secret can appear in it.
    pub fn to_string(&self) -> (msg: String)
        ensures
            msg@ == self.message(),
    {
        match self {
            ErrorKind::Invalid => String::from_str("Invalid API Token"),
            ErrorKind::MissingConfig => String::from_str("Missing Config"),
            ErrorKind::MissingDb => String::from_str("Missing Db"),
            ErrorKind::BCryptVerify(_) => String::from_str("Verifying"),
            ErrorKind::BCryptHash(_) => String::from_str("Hashing"),
            ErrorKind::ParseHeader(_) => String::from_str("Parse Header"),
        }
    }
}

/// A failed authentication.
#[derive(Debug)]
pub struct Error {
    pub kind: ErrorKind,
}

/// What is sent back for an error: the status of the response and the one
/// field, `msg`, of its JSON body.
#[derive(Debug)]
pub struct ErrorResponse {
    pub status: u16,
    pub msg: String,
}

impl Error {
    /// The presented token does not match the secret.
    pub fn invalid() -> (e: Self)
        ensures
            e.kind == ErrorKind::Invalid,
    {
        Error { kind: ErrorKind::Invalid }
    }

    /// The application holds no `AdminConfig`.
    pub fn missing_config() -> (e: Self)
        ensures
            e.kind == ErrorKind::MissingConfig,
    {
        Error { kind: ErrorKind::MissingConfig }
    }

    /// The application holds no store handle.
    pub fn missing_db() -> (e: Self)
        ensures
            e.kind == ErrorKind::MissingDb,
    {
        Error { kind: ErrorKind::MissingDb }
    }

    /// bcrypt failed with `e` while comparing.
    pub fn bcrypt_verify(e: BcryptError) -> (err: Self)
        ensures
            err.kind == ErrorKind::BCryptVerify(e),
    {
        Error { kind: ErrorKind::BCryptVerify(e) }
    }

    /// bcrypt failed with `e` while hashing.
    pub fn bcrypt_hash(e: BcryptError) -> (err: Self)
        ensures
            err.kind == ErrorKind::BCryptHash(e),
    {
        Error { kind: ErrorKind::BCryptHash(e) }
    }

    /// The token header could not be decoded, for the reason `e`.
    pub fn parse_header(e: ParseError) -> (err: Self)
        ensures
            err.kind == ErrorKind::ParseHeader(e),
    {
        Error { kind: ErrorKind::ParseHeader(e) }
    }

    /// The HTTP status of the response: 400 for a wrong or undecodable
    /// token, 500 for everything that is the server's fault.
    pub fn status_code(&self) -> (status: u16)
        ensures
            status == self.kind.status(),
    {
        match self.kind {
            ErrorKind::Invalid | ErrorKind::ParseHeader(_) => BAD_REQUEST,
            _ => INTERNAL_SERVER_ERROR,
        }
    }

    /// The response for this error: its status and its message.
    pub fn error_response(&self) -> (response: ErrorResponse)
        ensures
            response.status == self.kind.status(),
            response.msg@ == self.kind.message(),
    {
        ErrorResponse { status: self.status_code(), msg: self.kind.to_string() }
    }

    /// How the error itself reads, whatever its kind.
    pub fn to_string(&self) -> (text: String)
        ensures
            text@ == "Failed authentication"@,
    {
        String::from_str("Failed authentication")
    }
}

/// A status of the client's fault is given exactly for a wrong token and for
/// an undecodable header; every other kind is the server's fault.
pub proof fn law_status_table(kind: ErrorKind)
    ensures
        kind.status() == BAD_REQUEST || kind.status() == INTERNAL_SERVER_ERROR,
        kind.status() == BAD_REQUEST <==> (kind is Invalid || kind is ParseHeader),
{
}

} // verus!
