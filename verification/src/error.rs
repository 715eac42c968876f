//! The service's client-facing error kinds and their HTTP mapping.
//!
//! Each kind carries enough for the caller to log and answer;
//! construction has no side effects.

use vstd::prelude::*;

verus! {

/// What went wrong, as the HTTP boundary reports it.
#[derive(Clone, Copy, PartialEq, Eq, Structural, Debug)]
pub enum AppError {
    /// A requested file does not exist.
    FileNotFound,
    /// The instance hostname cannot be sent as a HOST header value.
    Host,
    /// The service is misconfigured on the server side.
    Conf,
    /// A backend the service depends on failed.
    Backend,
    /// The record store's connection failed.
    Db,
}

impl AppError {
    pub open spec fn status_code_spec(self) -> u16 {
        match self {
            AppError::FileNotFound => 404,
            AppError::Host => 400,
            AppError::Conf => 500,
            AppError::Backend => 500,
            AppError::Db => 500,
        }
    }

    /// The HTTP status this error answers with: not-found for a
    /// missing file, bad-request for an unusable hostname, and an
    /// internal error for everything on the server's side.
    pub fn status_code(&self) -> (code: u16)
        ensures
            code == self.status_code_spec(),
    {
        match self {
            AppError::FileNotFound => 404,
            AppError::Host => 400,
            AppError::Conf => 500,
            AppError::Backend => 500,
            AppError::Db => 500,
        }
    }

    pub open spec fn admin_hint_spec(self) -> Seq<char> {
        match self {
            AppError::FileNotFound => "a file requested does not exist"@,
            AppError::Host => "invalid value from HOST header for task tracker API"@,
            AppError::Conf => "check configuration file"@,
            AppError::Backend => "a backend service seems to be unjoinable"@,
            AppError::Db => "a database was unjoinable"@,
        }
    }

    /// Hand the error on unchanged, together with the verbose hint an
    /// administrator should see for it; the caller does the logging.
    pub fn transmit_error(self) -> (r: (Self, &'static str))
        ensures
            r.0 == self,
            r.1@ == self.admin_hint_spec(),
    {
        match self {
            AppError::FileNotFound => (self, "a file requested does not exist"),
            AppError::Host => (self, "invalid value from HOST header for task tracker API"),
            AppError::Conf => (self, "check configuration file"),
            AppError::Backend => (self, "a backend service seems to be unjoinable"),
            AppError::Db => (self, "a database was unjoinable"),
        }
    }
}

} // verus!
