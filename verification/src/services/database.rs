//! The connection pool: the one place where the shared database handle is
//! taken into ownership, and from which it is lent out.

use vstd::prelude::*;
use vstd::string::*;
use sea_orm::{DatabaseConnection, DbErr};
use std::sync::Arc;
use crate::config::DatabaseConfig;
use crate::text::{decimal, push_decimal};

verus! {

/// `sea_orm::DatabaseConnection`, the live connection (or pool) handle. Its
/// inside is not looked at here: the library only carries it.
#[verifier::external_type_specification]
#[verifier::external_body]
pub struct ExDatabaseConnection(sea_orm::DatabaseConnection);

/// `sea_orm::DbErr`, the cause the driver gives when an operation fails. Its
/// inside is not looked at here: the library only carries it.
#[verifier::external_type_specification]
#[verifier::external_body]
pub struct ExDbErr(sea_orm::DbErr);

/// Why no pool could be established.
#[derive(Debug)]
pub enum DatabaseError {
    /// The database could not be reached or refused the credentials; the
    /// driver's cause is kept.
    ConnectionError(DbErr),
}

/// The URL under which the configured database is reached.
pub open spec fn connection_url_text(config: DatabaseConfig) -> Seq<char> {
    "postgres://"@ + config.user@ + ":"@ + config.password@ + "@"@ + config.host@ + ":"@
        + decimal(config.port as nat) + "/"@ + config.name@
}

/// The message of a connection failure whose cause reads `cause`.
pub open spec fn connection_error_text(cause: Seq<char>) -> Seq<char> {
    "Failed to connect to the database: "@ + cause
}

/// Builds the message of a connection failure whose cause reads `cause`.
pub fn connection_error_message(cause: &str) -> (message: String)
    ensures
        message@ == connection_error_text(cause@),
{
    let mut message = String::from_str("Failed to connect to the database: ");
    message.append(cause);
    message
}

/// `Arc::clone` on the shared handle: another pointer to the same
/// connection, so what it points to equals what `handle` points to.
#[verifier::external_body]
fn share_handle(handle: &Arc<DatabaseConnection>) -> (shared: Arc<DatabaseConnection>)
    ensures
        *shared == **handle,
{
    Arc::clone(handle)
}

impl From<DbErr> for DatabaseError {
    fn from(cause: DbErr) -> (error: DatabaseError) {
        DatabaseError::ConnectionError(cause)
    }
}

impl vstd::std_specs::convert::FromSpecImpl<DbErr> for DatabaseError {
    open spec fn obeys_from_spec() -> bool {
        true
    }

    open spec fn from_spec(cause: DbErr) -> DatabaseError {
        DatabaseError::ConnectionError(cause)
    }
}

impl DatabaseError {
    /// The cause that the error carries.
    pub open spec fn cause(self) -> DbErr {
        match self {
            DatabaseError::ConnectionError(cause) => cause,
        }
    }

    /// The message of the error: the fixed introduction, then the cause as
    /// the driver displays it.
    pub fn message(&self) -> (message: String)
        ensures
            exists|text: String|
                #[trigger] to_string_from_display_ensures::<DbErr>(&self.cause(), text)
                    && message@ == connection_error_text(text@),
    {
        match self {
            DatabaseError::ConnectionError(cause) => {
                let text = cause.to_string();
                let message = connection_error_message(text.as_str());
                assert(to_string_from_display_ensures::<DbErr>(&self.cause(), text));
                message
            },
        }
    }
}

/// The pool that owns the process's database handle.
pub struct DatabasePool {
    connection: Arc<DatabaseConnection>,
}

impl DatabasePool {
    /// The handle that the pool owns.
    pub closed spec fn handle(&self) -> DatabaseConnection {
        *self.connection
    }

    /// Builds the URL under which the configured database is reached.
    pub fn connection_url(config: &DatabaseConfig) -> (url: String)
        ensures
            url@ == connection_url_text(*config),
    {
        let mut url = String::from_str("postgres://");
        url.append(config.user.as_str());
        url.append(":");
        url.append(config.password.as_str());
        url.append("@");
        url.append(config.host.as_str());
        url.append(":");
        push_decimal(&mut url, config.port);
        url.append("/");
        url.append(config.name.as_str());
        url
    }

    /// Establishes the pool from the outcome of the one connection attempt
    /// made at `connection_url`: the handle is taken into shared ownership,
    /// and a failure is reported at once, with the driver's cause; nothing is
    /// retried.
    pub fn new(connected: Result<DatabaseConnection, DbErr>) -> (pool: Result<
        DatabasePool,
        DatabaseError,
    >)
        ensures
            match connected {
                Ok(connection) => pool matches Ok(p) && p.handle() == connection,
                Err(cause) => pool matches Err(DatabaseError::ConnectionError(kept)) && kept
                    == cause,
            },
    {
        match connected {
            Ok(connection) => Ok(DatabasePool { connection: Arc::new(connection) }),
            Err(cause) => Err(DatabaseError::from(cause)),
        }
    }

    /// Lends the handle out; the pool keeps it.
    pub fn get_connection(&self) -> (connection: &DatabaseConnection)
        ensures
            *connection == self.handle(),
    {
        &self.connection
    }

    /// Another owner of the same handle, for a repository context to hold.
    pub fn share_connection(&self) -> (shared: Arc<DatabaseConnection>)
        ensures
            *shared == self.handle(),
    {
        share_handle(&self.connection)
    }
}

} // verus!
