//! Errors of the backend, and how each one is reported to a client.

use vstd::prelude::*;
use vstd::string::*;

verus! {

/// Every failure a request can end in. Where a variant carries several
/// strings, the last one is the underlying cause.
#[derive(Debug)]
pub enum Error {
    DBCouldNotOpenWebSocket(String, String),
    DBAuthenticationFailed(String),
    DBCouldNotCreateTable(String, String),
    DBCouldNotConnectToNamespace(String, String),
    DBCouldNotSelectAllRecords(String),
    DBCouldNotCreateRecord(String),
    DBCouldNotSelectRecord(String, String),
    DBCouldNotDeleteRecord(String, String),
    DBCouldNotUpdateRecord(String, String),
    DBDuplicateUserEmail,
    ParseEnvFailedWrongFormat(String),
    ParseEnvFailedNoSuchFile(String, String),
    ParseEnvFailedNoSuchKey(String),
    ServerNoSuchIP(String, String),
    ServerCouldNotStart(String),
    ServerCouldNotParseForm(String),
    ServerPermissionDenied(String),
    ServerUnauthorizedUser,
    ServerEmptyFormFromUser,
    ServerUnsupportedMediaType(String),
    MinioCouldNotInitBucket(String, String),
    MinioCouldNotPutObject(String),
    /// A token could not be encoded or signed.
    JWTTokenCreationError(String),
    /// The request carries no credential.
    JWTTokenNotFoundOnHeader,
    /// The credential failed its signature or structure check, or has expired.
    JWTTokenError(String),
    /// The credential is not of the form `Bearer <token>`.
    JWTInvalidAuthHeader,
}

/// Failures of the database layer.
#[derive(Debug, Clone, Copy, PartialEq, Eq, Structural)]
pub enum DBError {
    CouldNotOpenWebSocket,
    CouldNotConnectToNameSpace,
    TableCreateFailed,
    UserCreateFailed,
    UserSelectFailed,
    UserDeleteFailed,
    UserUpdateFailed,
    AuthFailed,
}

/// Failures while reading configuration.
#[derive(Debug)]
pub enum EnvError {
    NoSuchFile,
    NoSuchKey { key: String },
    WrongFormat,
}

/// Failures of the web server itself.
#[derive(Debug, Clone, Copy, PartialEq, Eq, Structural)]
pub enum ServerError {
    NoSuchIP,
    CouldNotStartServer,
    CouldNotParseUserForm,
    InvalidRegex,
}

pub const STATUS_BAD_REQUEST: u16 = 400;
pub const STATUS_UNAUTHORIZED: u16 = 401;
pub const STATUS_FORBIDDEN: u16 = 403;
pub const STATUS_NOT_FOUND: u16 = 404;
pub const STATUS_UNSUPPORTED_MEDIA_TYPE: u16 = 415;
pub const STATUS_INTERNAL_SERVER_ERROR: u16 = 500;

/// The HTTP status each error is answered with: 401 for a missing, invalid
/// or expired credential, 400 for a malformed one, 403 for a refused action.
pub open spec fn status_of(e: Error) -> u16 {
    match e {
        Error::DBAuthenticationFailed(_) => STATUS_FORBIDDEN,
        Error::DBCouldNotSelectRecord(_, _) => STATUS_NOT_FOUND,
        Error::DBCouldNotDeleteRecord(_, _) => STATUS_NOT_FOUND,
        Error::DBCouldNotUpdateRecord(_, _) => STATUS_NOT_FOUND,
        Error::ServerNoSuchIP(_, _) => STATUS_NOT_FOUND,
        Error::ServerPermissionDenied(_) => STATUS_FORBIDDEN,
        Error::ServerUnauthorizedUser => STATUS_UNAUTHORIZED,
        Error::ServerEmptyFormFromUser => STATUS_BAD_REQUEST,
        Error::ServerUnsupportedMediaType(_) => STATUS_UNSUPPORTED_MEDIA_TYPE,
        Error::ParseEnvFailedNoSuchKey(_) => STATUS_INTERNAL_SERVER_ERROR,
        Error::JWTTokenNotFoundOnHeader => STATUS_UNAUTHORIZED,
        Error::JWTTokenError(_) => STATUS_UNAUTHORIZED,
        Error::JWTInvalidAuthHeader => STATUS_BAD_REQUEST,
        _ => STATUS_INTERNAL_SERVER_ERROR,
    }
}

/// The underlying cause reported with an error: its last string, or
/// nothing for the variants that carry none.
pub open spec fn reason_of(e: Error) -> Seq<char> {
    match e {
        Error::DBCouldNotOpenWebSocket(_, c) => c@,
        Error::DBAuthenticationFailed(c) => c@,
        Error::DBCouldNotCreateTable(_, c) => c@,
        Error::DBCouldNotConnectToNamespace(_, c) => c@,
        Error::DBCouldNotSelectAllRecords(c) => c@,
        Error::DBCouldNotCreateRecord(c) => c@,
        Error::DBCouldNotSelectRecord(_, c) => c@,
        Error::DBCouldNotDeleteRecord(_, c) => c@,
        Error::DBCouldNotUpdateRecord(_, c) => c@,
        Error::ParseEnvFailedWrongFormat(c) => c@,
        Error::ParseEnvFailedNoSuchFile(_, c) => c@,
        Error::ServerNoSuchIP(_, c) => c@,
        Error::ServerCouldNotStart(c) => c@,
        Error::ServerCouldNotParseForm(c) => c@,
        Error::ServerPermissionDenied(c) => c@,
        Error::MinioCouldNotInitBucket(_, c) => c@,
        Error::MinioCouldNotPutObject(c) => c@,
        Error::JWTTokenCreationError(c) => c@,
        Error::JWTTokenError(c) => c@,
        _ => Seq::empty(),
    }
}

/// `before`, then `middle`, then `after`.
fn framed(before: &str, middle: &String, after: &str) -> (r: String)
    ensures
        r@ == before@ + middle@ + after@,
{
    let mut r = String::from_str(before);
    r.append(middle.as_str());
    r.append(after);
    r
}

/// The human-readable message each error is reported with.
pub open spec fn message_of(e: Error) -> Seq<char> {
    match e {
        Error::DBCouldNotOpenWebSocket(a, _) => "Could not connect to database server at: "@ + a@ + ""@,
        Error::DBAuthenticationFailed(_) => "Could not authenticate when trying to connect to database server"@,
        Error::DBCouldNotCreateTable(n, _) => "Could not create table "@ + n@ + ""@,
        Error::DBCouldNotConnectToNamespace(n, _) => "Could not connect to namespace: `"@ + n@ + "`"@,
        Error::DBCouldNotSelectAllRecords(_) => "Could not query all record"@,
        Error::DBCouldNotCreateRecord(_) => "Failed to create record."@,
        Error::DBCouldNotSelectRecord(id, _) => "Could not find record with id: `"@ + id@ + "`"@,
        Error::DBCouldNotDeleteRecord(id, _) => "Could not delete record with id: `"@ + id@ + "`"@,
        Error::DBCouldNotUpdateRecord(id, _) => "Could not update record with id: `"@ + id@ + "`"@,
        Error::DBDuplicateUserEmail => "Unreachable, there should not be more than one user with the same email"@,
        Error::ParseEnvFailedWrongFormat(_) => "Could not parse env file."@,
        Error::ParseEnvFailedNoSuchFile(f, _) => "Could not parse env file: `"@ + f@ + "`"@,
        Error::ParseEnvFailedNoSuchKey(k) => "No such key in env file: `"@ + k@ + "`"@,
        Error::ServerNoSuchIP(a, _) => "Could not connect to such address: "@ + a@ + ""@,
        Error::ServerCouldNotStart(_) => "Could not start web server"@,
        Error::ServerCouldNotParseForm(_) => "Could not parse form from payload"@,
        Error::ServerPermissionDenied(_) => "Could not perform action(s)"@,
        Error::ServerUnauthorizedUser => "Unauthorized user"@,
        Error::ServerEmptyFormFromUser => "User sent empty form, ignoring update"@,
        Error::ServerUnsupportedMediaType(m) => "Unsupported media type: `"@ + m@ + "`"@,
        Error::MinioCouldNotInitBucket(n, _) => "Could not initialize bucket: `"@ + n@ + "`"@,
        Error::MinioCouldNotPutObject(_) => "Could not upload object to s3"@,
        Error::JWTTokenCreationError(_) => "Could not create JWT token"@,
        Error::JWTTokenNotFoundOnHeader => "Could not find JWT token on received headers"@,
        Error::JWTTokenError(_) => "Invalid JWT token"@,
        Error::JWTInvalidAuthHeader => "Invalid JWT token"@,
    }
}

impl Error {
    /// The HTTP status this error is answered with.
    pub fn status_code(&self) -> (r: u16)
        ensures
            r == status_of(*self),
    {
        match self {
            Error::DBAuthenticationFailed(_) => STATUS_FORBIDDEN,
            Error::DBCouldNotSelectRecord(_, _) => STATUS_NOT_FOUND,
            Error::DBCouldNotDeleteRecord(_, _) => STATUS_NOT_FOUND,
            Error::DBCouldNotUpdateRecord(_, _) => STATUS_NOT_FOUND,
            Error::ServerNoSuchIP(_, _) => STATUS_NOT_FOUND,
            Error::ServerPermissionDenied(_) => STATUS_FORBIDDEN,
            Error::ServerUnauthorizedUser => STATUS_UNAUTHORIZED,
            Error::ServerEmptyFormFromUser => STATUS_BAD_REQUEST,
            Error::ServerUnsupportedMediaType(_) => STATUS_UNSUPPORTED_MEDIA_TYPE,
            Error::JWTTokenNotFoundOnHeader => STATUS_UNAUTHORIZED,
            Error::JWTTokenError(_) => STATUS_UNAUTHORIZED,
            Error::JWTInvalidAuthHeader => STATUS_BAD_REQUEST,
            _ => STATUS_INTERNAL_SERVER_ERROR,
        }
    }

    /// The underlying cause reported with this error.
    pub fn reason(&self) -> (r: String)
        ensures
            r@ == reason_of(*self),
    {
        match self {
            Error::DBCouldNotOpenWebSocket(_, c) => c.clone(),
            Error::DBAuthenticationFailed(c) => c.clone(),
            Error::DBCouldNotCreateTable(_, c) => c.clone(),
            Error::DBCouldNotConnectToNamespace(_, c) => c.clone(),
            Error::DBCouldNotSelectAllRecords(c) => c.clone(),
            Error::DBCouldNotCreateRecord(c) => c.clone(),
            Error::DBCouldNotSelectRecord(_, c) => c.clone(),
            Error::DBCouldNotDeleteRecord(_, c) => c.clone(),
            Error::DBCouldNotUpdateRecord(_, c) => c.clone(),
            Error::ParseEnvFailedWrongFormat(c) => c.clone(),
            Error::ParseEnvFailedNoSuchFile(_, c) => c.clone(),
            Error::ServerNoSuchIP(_, c) => c.clone(),
            Error::ServerCouldNotStart(c) => c.clone(),
            Error::ServerCouldNotParseForm(c) => c.clone(),
            Error::ServerPermissionDenied(c) => c.clone(),
            Error::MinioCouldNotInitBucket(_, c) => c.clone(),
            Error::MinioCouldNotPutObject(c) => c.clone(),
            Error::JWTTokenCreationError(c) => c.clone(),
            Error::JWTTokenError(c) => c.clone(),
            _ => String::new(),
        }
    }

    /// The human-readable message this error is reported with.
    pub fn message(&self) -> (r: String)
        ensures
            r@ == message_of(*self),
    {
        match self {
            Error::DBCouldNotOpenWebSocket(a, _) => framed("Could not connect to database server at: ", a, ""),
            Error::DBAuthenticationFailed(_) => String::from_str("Could not authenticate when trying to connect to database server"),
            Error::DBCouldNotCreateTable(n, _) => framed("Could not create table ", n, ""),
            Error::DBCouldNotConnectToNamespace(n, _) => framed("Could not connect to namespace: `", n, "`"),
            Error::DBCouldNotSelectAllRecords(_) => String::from_str("Could not query all record"),
            Error::DBCouldNotCreateRecord(_) => String::from_str("Failed to create record."),
            Error::DBCouldNotSelectRecord(id, _) => framed("Could not find record with id: `", id, "`"),
            Error::DBCouldNotDeleteRecord(id, _) => framed("Could not delete record with id: `", id, "`"),
            Error::DBCouldNotUpdateRecord(id, _) => framed("Could not update record with id: `", id, "`"),
            Error::DBDuplicateUserEmail => String::from_str("Unreachable, there should not be more than one user with the same email"),
            Error::ParseEnvFailedWrongFormat(_) => String::from_str("Could not parse env file."),
            Error::ParseEnvFailedNoSuchFile(f, _) => framed("Could not parse env file: `", f, "`"),
            Error::ParseEnvFailedNoSuchKey(k) => framed("No such key in env file: `", k, "`"),
            Error::ServerNoSuchIP(a, _) => framed("Could not connect to such address: ", a, ""),
            Error::ServerCouldNotStart(_) => String::from_str("Could not start web server"),
            Error::ServerCouldNotParseForm(_) => String::from_str("Could not parse form from payload"),
            Error::ServerPermissionDenied(_) => String::from_str("Could not perform action(s)"),
            Error::ServerUnauthorizedUser => String::from_str("Unauthorized user"),
            Error::ServerEmptyFormFromUser => String::from_str("User sent empty form, ignoring update"),
            Error::ServerUnsupportedMediaType(m) => framed("Unsupported media type: `", m, "`"),
            Error::MinioCouldNotInitBucket(n, _) => framed("Could not initialize bucket: `", n, "`"),
            Error::MinioCouldNotPutObject(_) => String::from_str("Could not upload object to s3"),
            Error::JWTTokenCreationError(_) => String::from_str("Could not create JWT token"),
            Error::JWTTokenNotFoundOnHeader => String::from_str("Could not find JWT token on received headers"),
            Error::JWTTokenError(_) => String::from_str("Invalid JWT token"),
            Error::JWTInvalidAuthHeader => String::from_str("Invalid JWT token"),
        }
    }
}

} // verus!
