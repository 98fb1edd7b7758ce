//! The errors of the program and of its web front, as plain kinds with the
//! message and the HTTP status that stand for each.

use crate::state::StateError;
use vstd::prelude::*;

verus! {

/// Why the program stopped.
#[derive(Debug)]
pub enum Error {
    /// The port could not be bound.
    Bind,
    /// The server stopped with an error.
    Run,
    /// The application state could not be had.
    State(StateError),
    /// The database could not be reached.
    InitDb,
    /// The aggregation of the feeds failed.
    GregError,
}

/// The message of each way in which the program stops.
pub open spec fn error_message(e: Error) -> Seq<char> {
    match e {
        Error::Bind => "Error binding the port to the server"@,
        Error::Run => "Error running the server"@,
        Error::State(_) => "Error with app state"@,
        Error::InitDb => "Error initializing the database"@,
        Error::GregError => "RSS feed aggregation error"@,
    }
}

impl Error {
    /// The message shown for this error.
    pub fn message(&self) -> (text: &'static str)
        ensures
            text@ == error_message(*self),
    {
        match self {
            Error::Bind => "Error binding the port to the server",
            Error::Run => "Error running the server",
            Error::State(_) => "Error with app state",
            Error::InitDb => "Error initializing the database",
            Error::GregError => "RSS feed aggregation error",
        }
    }
}

/// Why a request could not be served.
#[derive(Debug)]
pub enum AppError {
    NotFound,
    Io,
    State(StateError),
    DatabaseError,
    EmailExists,
    HashError,
    InvalidCredentials,
}

/// The HTTP status of each error of a request.
pub open spec fn status_of(e: AppError) -> u16 {
    match e {
        AppError::NotFound => 404,
        AppError::EmailExists => 409,
        AppError::InvalidCredentials => 401,
        AppError::Io => 500,
        AppError::State(_) => 500,
        AppError::DatabaseError => 500,
        AppError::HashError => 500,
    }
}

/// The message of each error of a request.
pub open spec fn app_error_message(e: AppError) -> Seq<char> {
    match e {
        AppError::NotFound => "Resource not found"@,
        AppError::Io => "IO error"@,
        AppError::State(_) => "App state"@,
        AppError::DatabaseError => "Database error"@,
        AppError::EmailExists => "Email already exists"@,
        AppError::HashError => "Password hashing error"@,
        AppError::InvalidCredentials => "Invalid credentials"@,
    }
}

impl AppError {
    /// The HTTP status with which this error is answered.
    pub fn status_code(&self) -> (status: u16)
        ensures
            status == status_of(*self),
    {
        match self {
            AppError::NotFound => 404,
            AppError::EmailExists => 409,
            AppError::InvalidCredentials => 401,
            AppError::Io => 500,
            AppError::State(_) => 500,
            AppError::DatabaseError => 500,
            AppError::HashError => 500,
        }
    }

    /// The message shown for this error.
    pub fn message(&self) -> (text: &'static str)
        ensures
            text@ == app_error_message(*self),
    {
        match self {
            AppError::NotFound => "Resource not found",
            AppError::Io => "IO error",
            AppError::State(_) => "App state",
            AppError::DatabaseError => "Database error",
            AppError::EmailExists => "Email already exists",
            AppError::HashError => "Password hashing error",
            AppError::InvalidCredentials => "Invalid credentials",
        }
    }
}

} // verus!
