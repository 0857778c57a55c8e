use remolino_inventario::errors::AppError;
use remolino_inventario::logging::{log_line, sanitize_message};
use remolino_inventario::status::{
    current_status, plan_retry, settle_initialization, AppStatus, RetryStep,
};

#[test]
fn status_is_ready_once_the_database_is_open() {
    let status = current_status(true, None, "1.2.3").unwrap();
    assert_eq!(status.state, "ready");
    assert_eq!(status.version, "1.2.3");
    let recorded = AppError::new(
        "DATABASE_MIGRATION_FAILED",
        "No se pudieron aplicar las actualizaciones de la base de datos.",
        "migration 2 failed",
    );
    let error = current_status(false, Some(recorded.clone()), "1.2.3").unwrap_err();
    assert_eq!(error, recorded);
    assert_eq!(error.technical(), "migration 2 failed");
    let unknown = current_status(false, None, "1.2.3").unwrap_err();
    assert_eq!(unknown.code, "DATABASE_UNAVAILABLE");
    assert_eq!(AppStatus::ready("9").state, "ready");
}

#[test]
fn retries_reuse_the_configured_path() {
    assert_eq!(plan_retry(true, false).unwrap(), RetryStep::AlreadyReady);
    assert_eq!(plan_retry(false, true).unwrap(), RetryStep::Initialize);
    assert_eq!(plan_retry(false, false).unwrap_err().code, "APP_DATA_DIR_UNAVAILABLE");
}

#[test]
fn log_lines_keep_one_entry_per_line() {
    assert_eq!(sanitize_message("line one\nline two\r\n"), "line one line two  ");
    assert_eq!(
        log_line(1725029869, "ERROR", "database", "line one\nline two"),
        "1725029869 [ERROR] database: line one line two\n"
    );
    assert_eq!(log_line(0, "INFO", "x", ""), "0 [INFO] x: \n");
}

#[test]
fn an_initialization_attempt_is_settled_into_the_state() {
    let opened = settle_initialization::<u8>(Ok(5));
    assert_eq!(opened.database, Some(5));
    assert!(opened.error.is_none());
    let error = AppError::new(
        "DATABASE_UNAVAILABLE",
        "La base de datos no está disponible.",
        "could not open",
    );
    let failed = settle_initialization::<u8>(Err(error.clone()));
    assert!(failed.database.is_none());
    assert_eq!(failed.error, Some(error.clone()));
    assert_eq!(current_status(false, failed.error, "1.0.0").unwrap_err(), error);
}
