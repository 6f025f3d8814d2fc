use vstd::prelude::*;

verus! {

/// Classifies every failure the protocol bridge surfaces.
#[derive(Clone, Copy, Debug, PartialEq, Eq, Structural)]
pub enum ErrorKind {
    /// Unresolved identity or missing on-disk repository.
    NotFound,
    /// Malformed service parameter, missing `.git` suffix, or media-type mismatch.
    InvalidRequest,
    /// Missing or invalid credentials.
    Unauthorized,
    /// Valid credentials, but the authenticated user lacks rights.
    Forbidden,
    /// Subprocess non-zero exit, pipe failure, or decompression failure.
    UpstreamFailure,
    /// Database or connection-pool failure.
    PersistenceFailure,
    /// Repository creation or removal failure on disk.
    FilesystemFailure,
}

/// A structured failure: the classification, the HTTP status it maps to,
/// a short reason for diagnostics, and whether the response must carry a
/// Basic authentication challenge.
#[derive(Debug)]
pub struct AppError {
    pub kind: ErrorKind,
    pub status: u16,
    pub message: String,
    pub challenge: bool,
}

impl AppError {
    /// The identity did not resolve, or the on-disk repository is missing.
    pub fn not_found(message: &str) -> (e: AppError)
        ensures
            e.kind == ErrorKind::NotFound,
            e.status == 404,
            !e.challenge,
            e.message@ == message@,
    {
        AppError { kind: ErrorKind::NotFound, status: 404, message: message.to_owned(), challenge: false }
    }

    /// A malformed request, answered with the given status.
    pub fn invalid_request(status: u16, message: &str) -> (e: AppError)
        ensures
            e.kind == ErrorKind::InvalidRequest,
            e.status == status,
            !e.challenge,
            e.message@ == message@,
    {
        AppError { kind: ErrorKind::InvalidRequest, status, message: message.to_owned(), challenge: false }
    }

    /// Credentials are missing or wrong; `challenge` asks the client to
    /// retry with Basic credentials.
    pub fn unauthorized(message: &str, challenge: bool) -> (e: AppError)
        ensures
            e.kind == ErrorKind::Unauthorized,
            e.status == 401,
            e.challenge == challenge,
            e.message@ == message@,
    {
        AppError { kind: ErrorKind::Unauthorized, status: 401, message: message.to_owned(), challenge }
    }

    /// The client proved an identity that lacks rights on the repository.
    pub fn forbidden(message: &str) -> (e: AppError)
        ensures
            e.kind == ErrorKind::Forbidden,
            e.status == 403,
            !e.challenge,
            e.message@ == message@,
    {
        AppError { kind: ErrorKind::Forbidden, status: 403, message: message.to_owned(), challenge: false }
    }

    /// The external `git` process or a decompressor failed.
    pub fn upstream(message: String) -> (e: AppError)
        ensures
            e.kind == ErrorKind::UpstreamFailure,
            e.status == 500,
            !e.challenge,
            e.message == message,
    {
        AppError { kind: ErrorKind::UpstreamFailure, status: 500, message, challenge: false }
    }

    /// The database or its connection pool failed.
    pub fn persistence(message: String) -> (e: AppError)
        ensures
            e.kind == ErrorKind::PersistenceFailure,
            e.status == 500,
            !e.challenge,
            e.message == message,
    {
        AppError { kind: ErrorKind::PersistenceFailure, status: 500, message, challenge: false }
    }

    /// A filesystem step of the repository lifecycle failed.
    pub fn filesystem(message: String) -> (e: AppError)
        ensures
            e.kind == ErrorKind::FilesystemFailure,
            e.status == 500,
            !e.challenge,
            e.message == message,
    {
        AppError { kind: ErrorKind::FilesystemFailure, status: 500, message, challenge: false }
    }

    /// The HTTP status this failure maps to.
    pub fn status_code(&self) -> (s: u16)
        ensures
            s == self.status,
    {
        self.status
    }
}

} // verus!
