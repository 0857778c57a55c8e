//! The application's start-up status and the errors of preparing its local
//! database.

use vstd::prelude::*;

use crate::errors::{failed_with, AppError};

verus! {

pub open spec fn app_data_dir_code() -> Seq<char> {
    "APP_DATA_DIR_UNAVAILABLE"@
}

pub open spec fn app_data_dir_message() -> Seq<char> {
    "No se pudo preparar el directorio de datos de la aplicación."@
}

pub open spec fn database_unavailable_code() -> Seq<char> {
    "DATABASE_UNAVAILABLE"@
}

pub open spec fn database_unavailable_message() -> Seq<char> {
    "La base de datos no está disponible."@
}

pub open spec fn migration_failed_code() -> Seq<char> {
    "DATABASE_MIGRATION_FAILED"@
}

pub open spec fn migration_failed_message() -> Seq<char> {
    "No se pudieron aplicar las actualizaciones de la base de datos."@
}

pub fn app_data_dir_unavailable(technical: &str) -> (e: AppError)
    ensures
        e.is(app_data_dir_code(), app_data_dir_message()),
        e.technical_text() == technical@,
{
    AppError::new(
        "APP_DATA_DIR_UNAVAILABLE",
        "No se pudo preparar el directorio de datos de la aplicación.",
        technical,
    )
}

pub fn database_unavailable(technical: &str) -> (e: AppError)
    ensures
        e.is(database_unavailable_code(), database_unavailable_message()),
        e.technical_text() == technical@,
{
    AppError::new("DATABASE_UNAVAILABLE", "La base de datos no está disponible.", technical)
}

pub fn migration_failed(technical: &str) -> (e: AppError)
    ensures
        e.is(migration_failed_code(), migration_failed_message()),
        e.technical_text() == technical@,
{
    AppError::new(
        "DATABASE_MIGRATION_FAILED",
        "No se pudieron aplicar las actualizaciones de la base de datos.",
        technical,
    )
}

/// The ready state of the application and its version.
#[derive(Clone, Debug)]
pub struct AppStatus {
    pub state: &'static str,
    pub version: &'static str,
}

impl AppStatus {
    pub fn ready(version: &'static str) -> (status: Self)
        ensures
            status.state@ == "ready"@,
            status.version@ == version@,
    {
        AppStatus { state: "ready", version }
    }
}

/// The status the interface asks for: ready once the database is open;
/// otherwise the error that the last initialization recorded, or
/// "database unavailable" when none was recorded.
pub fn current_status(
    database_ready: bool,
    initialization_error: Option<AppError>,
    version: &'static str,
) -> (status: Result<AppStatus, AppError>)
    ensures
        database_ready ==> (status matches Ok(s) && s.state@ == "ready"@ && s.version@ == version@),
        !database_ready ==> match initialization_error {
            Some(e) => status == Err::<AppStatus, AppError>(e),
            None => failed_with(
                status,
                database_unavailable_code(),
                database_unavailable_message(),
            ),
        },
{
    if database_ready {
        return Ok(AppStatus::ready(version));
    }
    match initialization_error {
        Some(e) => Err(e),
        None => Err(database_unavailable("database has not been initialized")),
    }
}

/// What a retry of the database initialization must do.
#[derive(Clone, Copy, Debug, PartialEq, Eq)]
pub enum RetryStep {
    /// The database is already open: answer ready.
    AlreadyReady,
    /// Initialize the database at the configured path.
    Initialize,
}

/// Decides a retry: nothing to do once the database is open, an error when
/// no database path was ever configured, else initialize again at the same
/// place (never deleting or replacing what is there).
pub fn plan_retry(database_ready: bool, path_configured: bool) -> (step: Result<
    RetryStep,
    AppError,
>)
    ensures
        database_ready ==> step matches Ok(RetryStep::AlreadyReady),
        !database_ready && path_configured ==> step matches Ok(RetryStep::Initialize),
        !database_ready && !path_configured ==> failed_with(
            step,
            app_data_dir_code(),
            app_data_dir_message(),
        ),
{
    if database_ready {
        return Ok(RetryStep::AlreadyReady);
    }
    if !path_configured {
        return Err(app_data_dir_unavailable("database path is not configured"));
    }
    Ok(RetryStep::Initialize)
}

/// What the application keeps after one attempt to open its database: the
/// open database, or the error to report until the next attempt.
pub struct Initialization<D> {
    pub database: Option<D>,
    pub error: Option<AppError>,
}

/// Settles an initialization attempt: a success keeps the database and
/// clears the recorded error; a failure keeps no database and records the
/// error.
pub fn settle_initialization<D>(outcome: Result<D, AppError>) -> (settled: Initialization<D>)
    ensures
        match outcome {
            Ok(database) => settled.database == Some(database) && settled.error is None,
            Err(e) => settled.database is None && settled.error == Some(e),
        },
{
    match outcome {
        Ok(database) => Initialization { database: Some(database), error: None },
        Err(e) => Initialization { database: None, error: Some(e) },
    }
}

} // verus!
