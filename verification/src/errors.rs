//! Error types of the storage layer and of the key service.

use vstd::prelude::*;

verus! {

/// A failure reported by the storage layer, carried with its message.
#[derive(Debug, Clone)]
pub enum DatabaseError {
    /// The database driver reported an error.
    DatabaseError(String),
    /// An SQL statement failed.
    SqlError(String),
    /// A transaction could not be carried out.
    TransactionError(String),
    /// No primary connection string was configured.
    MissingPrimaryDsn,
    /// Any other failure.
    UnexpectedError(String),
}

/// The errors of the API key service.
#[derive(Debug, Clone)]
pub enum ApiKeyServiceError {
    KeyNotFound,
    KeyExpired,
    InvalidKey,
    InsufficientScope,
    KeyAlreadyExists,
    NamespaceNotFound,
    NamespaceAlreadyExists,
    TagNotFound,
    TagAlreadyExists,
    DatabaseError(DatabaseError),
    Unexpected(String),
}

/// The text of a storage error.
pub open spec fn database_error_text(e: DatabaseError) -> Seq<char> {
    match e {
        DatabaseError::DatabaseError(m) => "Database error: "@ + m@,
        DatabaseError::SqlError(m) => "SQL error: "@ + m@,
        DatabaseError::TransactionError(m) => "Transaction error: "@ + m@,
        DatabaseError::MissingPrimaryDsn => "Missing primary DSN"@,
        DatabaseError::UnexpectedError(m) => "Unexpected error: "@ + m@,
    }
}

/// The text of a service error.
pub open spec fn service_error_text(e: ApiKeyServiceError) -> Seq<char> {
    match e {
        ApiKeyServiceError::KeyNotFound => "API key not found"@,
        ApiKeyServiceError::KeyExpired => "API key expired"@,
        ApiKeyServiceError::InvalidKey => "Invalid API key"@,
        ApiKeyServiceError::InsufficientScope => "Insufficient scope"@,
        ApiKeyServiceError::KeyAlreadyExists => "API key already exists"@,
        ApiKeyServiceError::NamespaceNotFound => "Namespace not found"@,
        ApiKeyServiceError::NamespaceAlreadyExists => "Namespace already exists"@,
        ApiKeyServiceError::TagNotFound => "Tag not found"@,
        ApiKeyServiceError::TagAlreadyExists => "Tag already exists"@,
        ApiKeyServiceError::DatabaseError(d) => "Database error: "@ + database_error_text(d),
        ApiKeyServiceError::Unexpected(m) => "Unexpected error: "@ + m@,
    }
}

/// Joins a literal prefix and a message.
fn prefixed(prefix: &str, message: &str) -> (s: String)
    ensures
        s@ == prefix@ + message@,
{
    let mut s = prefix.to_owned();
    s.append(message);
    s
}

impl DatabaseError {
    /// The error's message, as the storage layer displays it.
    pub fn message(&self) -> (s: String)
        ensures
            s@ == database_error_text(*self),
    {
        match self {
            DatabaseError::DatabaseError(m) => prefixed("Database error: ", m.as_str()),
            DatabaseError::SqlError(m) => prefixed("SQL error: ", m.as_str()),
            DatabaseError::TransactionError(m) => prefixed("Transaction error: ", m.as_str()),
            DatabaseError::MissingPrimaryDsn => "Missing primary DSN".to_owned(),
            DatabaseError::UnexpectedError(m) => prefixed("Unexpected error: ", m.as_str()),
        }
    }
}

impl ApiKeyServiceError {
    /// The error's message, as the service displays it.
    pub fn message(&self) -> (s: String)
        ensures
            s@ == service_error_text(*self),
    {
        match self {
            ApiKeyServiceError::KeyNotFound => "API key not found".to_owned(),
            ApiKeyServiceError::KeyExpired => "API key expired".to_owned(),
            ApiKeyServiceError::InvalidKey => "Invalid API key".to_owned(),
            ApiKeyServiceError::InsufficientScope => "Insufficient scope".to_owned(),
            ApiKeyServiceError::KeyAlreadyExists => "API key already exists".to_owned(),
            ApiKeyServiceError::NamespaceNotFound => "Namespace not found".to_owned(),
            ApiKeyServiceError::NamespaceAlreadyExists => "Namespace already exists".to_owned(),
            ApiKeyServiceError::TagNotFound => "Tag not found".to_owned(),
            ApiKeyServiceError::TagAlreadyExists => "Tag already exists".to_owned(),
            ApiKeyServiceError::DatabaseError(d) => {
                let inner = d.message();
                prefixed("Database error: ", inner.as_str())
            },
            ApiKeyServiceError::Unexpected(m) => prefixed("Unexpected error: ", m.as_str()),
        }
    }
}

} // verus!
