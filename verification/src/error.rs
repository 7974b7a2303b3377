//! Error taxonomy of the engine.
//!
//! `ValidationError` marks malformed or incomplete input, `DatabaseError` a
//! datastore failure, `NotFoundError` an unknown user or profile,
//! `InternalError` anything unexpected, `AuthError` and `ConfigError` the
//! corresponding service-level failures. The HTTP layer maps each variant to
//! a status code and a public message through the methods below.

use vstd::prelude::*;

verus! {

/// Application-level error, carrying a detail message for logging.
#[derive(Debug)]
pub enum AppError {
    DatabaseError(String),
    AuthError(String),
    NotFoundError(String),
    ValidationError(String),
    InternalError(String),
    ConfigError(String),
}

pub type AppResult<T> = Result<T, AppError>;

impl AppError {
    /// The detail message carried by the error.
    pub fn detail(&self) -> (r: &String)
        ensures
            r@ == self.spec_detail(),
    {
        match self {
            AppError::DatabaseError(m) => m,
            AppError::AuthError(m) => m,
            AppError::NotFoundError(m) => m,
            AppError::ValidationError(m) => m,
            AppError::InternalError(m) => m,
            AppError::ConfigError(m) => m,
        }
    }

    pub open spec fn spec_detail(&self) -> Seq<char> {
        match self {
            AppError::DatabaseError(m) => m@,
            AppError::AuthError(m) => m@,
            AppError::NotFoundError(m) => m@,
            AppError::ValidationError(m) => m@,
            AppError::InternalError(m) => m@,
            AppError::ConfigError(m) => m@,
        }
    }

    /// HTTP status code the transport layer answers with for this error.
    pub fn status_code(&self) -> (r: u16)
        ensures
            r == self.spec_status_code(),
    {
        match self {
            AppError::DatabaseError(_) => 500,
            AppError::AuthError(_) => 401,
            AppError::NotFoundError(_) => 404,
            AppError::ValidationError(_) => 400,
            AppError::InternalError(_) => 500,
            AppError::ConfigError(_) => 500,
        }
    }

    pub open spec fn spec_status_code(&self) -> u16 {
        match self {
            AppError::DatabaseError(_) => 500,
            AppError::AuthError(_) => 401,
            AppError::NotFoundError(_) => 404,
            AppError::ValidationError(_) => 400,
            AppError::InternalError(_) => 500,
            AppError::ConfigError(_) => 500,
        }
    }

    /// The message shown to clients. Server-side failures hide their detail;
    /// client-side failures repeat it.
    pub fn public_message(&self) -> (r: String)
        ensures
            r@ == self.spec_public_message(),
    {
        match self {
            AppError::DatabaseError(_) => "Error en la base de datos".to_owned(),
            AppError::AuthError(m) => m.clone(),
            AppError::NotFoundError(m) => m.clone(),
            AppError::ValidationError(m) => m.clone(),
            AppError::InternalError(_) => "Error interno del servidor".to_owned(),
            AppError::ConfigError(_) => "Error de configuración del servidor".to_owned(),
        }
    }

    pub open spec fn spec_public_message(&self) -> Seq<char> {
        match self {
            AppError::DatabaseError(_) => "Error en la base de datos"@,
            AppError::AuthError(m) => m@,
            AppError::NotFoundError(m) => m@,
            AppError::ValidationError(m) => m@,
            AppError::InternalError(_) => "Error interno del servidor"@,
            AppError::ConfigError(_) => "Error de configuración del servidor"@,
        }
    }
}

} // verus!
