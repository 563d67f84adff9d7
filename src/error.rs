//! The error taxonomy of the driver layer and its user-facing summaries.

use vstd::prelude::*;
use vstd::string::StringExecFns;

verus! {

/// What went wrong while a connection was being established.
#[derive(Debug, Clone, Copy, PartialEq, Eq, Structural)]
pub enum ConnectCause {
    /// The connection descriptor could not be parsed.
    Descriptor,
    /// The transport could not be opened.
    Network,
    /// Encryption could not be negotiated.
    Encryption,
    /// The server refused the credentials or the authentication mechanism.
    Authentication,
}

/// A failure of the driver layer. The text carried by a variant is detail for
/// internal diagnostics only; what crosses to the user is `user_message`.
#[derive(Debug)]
pub enum Error {
    /// An operation was attempted while no connection is live.
    NotConnected,
    /// Establishing a connection failed.
    ConnectFailure(ConnectCause, String),
    /// The engine failed to execute a statement.
    QueryFailure(String),
    /// A query parameter is not a string, number, boolean or null.
    UnsupportedParameterType(String),
    /// The engine's reply was not in the expected shape.
    DriverInternal(String),
    /// Saved profiles or credentials could not be read or written.
    Storage(String),
}

/// The broad category that a user is shown for an error.
#[derive(Debug, Clone, Copy, PartialEq, Eq, Structural)]
pub enum UserCategory {
    Database,
    Connection,
    NotConnected,
    Unexpected,
}

/// The category of each error.
pub open spec fn category_of(e: Error) -> UserCategory {
    match e {
        Error::NotConnected => UserCategory::NotConnected,
        Error::ConnectFailure(_, _) => UserCategory::Connection,
        Error::QueryFailure(_) => UserCategory::Database,
        Error::UnsupportedParameterType(_) => UserCategory::Unexpected,
        Error::DriverInternal(_) => UserCategory::Unexpected,
        Error::Storage(_) => UserCategory::Unexpected,
    }
}

/// The text shown to a user for each category.
pub open spec fn category_text(c: UserCategory) -> Seq<char> {
    match c {
        UserCategory::Database => "Database error occurred."@,
        UserCategory::Connection => "Connection error occurred."@,
        UserCategory::NotConnected => "Database not connected"@,
        UserCategory::Unexpected => "An unexpected error occurred."@,
    }
}

impl UserCategory {
    /// The text shown to a user for this category.
    pub fn text(&self) -> (r: &'static str)
        ensures
            r@ == category_text(*self),
    {
        match self {
            UserCategory::Database => "Database error occurred.",
            UserCategory::Connection => "Connection error occurred.",
            UserCategory::NotConnected => "Database not connected",
            UserCategory::Unexpected => "An unexpected error occurred.",
        }
    }
}

impl Error {
    /// The category a user is shown for this error.
    pub fn category(&self) -> (r: UserCategory)
        ensures
            r == category_of(*self),
    {
        match self {
            Error::NotConnected => UserCategory::NotConnected,
            Error::ConnectFailure(_, _) => UserCategory::Connection,
            Error::QueryFailure(_) => UserCategory::Database,
            Error::UnsupportedParameterType(_) => UserCategory::Unexpected,
            Error::DriverInternal(_) => UserCategory::Unexpected,
            Error::Storage(_) => UserCategory::Unexpected,
        }
    }

    /// The summary that crosses the trust boundary to the user: a fixed text
    /// per category, never the detail, which may hold hosts or credentials.
    pub fn user_message(&self) -> (r: String)
        ensures
            r@ == category_text(category_of(*self)),
    {
        let c = self.category();
        String::from_str(c.text())
    }
}

} // verus!
