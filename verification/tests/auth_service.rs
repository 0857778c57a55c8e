use remolino_inventario::auth::{hash_password, hash_session_secret, SessionSecret, UserRole};
use remolino_inventario::auth_service::{
    admin_access, admin_user_from_row, classify_write_error, credentials_accepted,
    ensure_not_self, guard_status_change, guard_user_update, identity, issue_temporary_password,
    login_key, login_lookup_name, needs_initial_admin, plan_session, prepare_password_change,
    prepare_user_creation, prepare_user_update, remembered_secret, startup_authenticated,
    startup_bootstrap, startup_login, startup_step, update_revokes_sessions, user_from_row,
    created_user_row, initial_admin_row, plan_status_change, plan_user_update, AuthService,
    StartupAction, StartupEvent, UserRecord,
};
use remolino_inventario::errors::AppError;

fn user(id: &str, username: &str, role: UserRole, active: bool, must_change: bool, hash: &str) -> UserRecord {
    UserRecord {
        id: id.to_owned(),
        username: username.to_owned(),
        display_name: "Nombre".to_owned(),
        password_hash: hash.to_owned(),
        role,
        active,
        must_change_password: must_change,
    }
}

#[test]
fn applies_progressive_delays_after_the_third_failure() {
    let mut service = AuthService::new();
    assert_eq!(service.record_failed_attempt("admin").unwrap(), None);
    assert_eq!(service.record_failed_attempt("admin").unwrap(), None);
    assert_eq!(service.record_failed_attempt("admin").unwrap(), None);
    assert_eq!(service.record_failed_attempt("admin").unwrap().unwrap(), 1);
    assert_eq!(service.record_failed_attempt("admin").unwrap().unwrap(), 2);
    assert_eq!(service.record_failed_attempt("admin").unwrap().unwrap(), 4);
    assert_eq!(service.record_failed_attempt("admin").unwrap().unwrap(), 8);
    assert_eq!(service.record_failed_attempt("admin").unwrap().unwrap(), 16);
}

#[test]
fn delays_stop_growing_and_reset_after_success() {
    let mut service = AuthService::new();
    for _ in 0..8 {
        service.record_failed_attempt("admin").unwrap();
    }
    assert_eq!(service.record_failed_attempt("admin").unwrap(), Some(16));
    assert_eq!(service.record_failed_attempt("admin").unwrap(), Some(16));
    // Another identifier is counted apart.
    assert_eq!(service.record_failed_attempt("manager").unwrap(), None);
    service.reset_failed_attempt("admin").unwrap();
    assert_eq!(service.record_failed_attempt("admin").unwrap(), None);
    for _ in 0..2 {
        service.record_failed_attempt("manager").unwrap();
    }
    assert_eq!(service.record_failed_attempt("manager").unwrap(), Some(1));
}

#[test]
fn refused_logins_share_one_error_and_count_failures() {
    let hash = hash_password("contraseña correcta").unwrap();
    let active = user("1", "admin", UserRole::Admin, true, false, &hash);
    let inactive = user("1", "admin", UserRole::Admin, false, false, &hash);
    let mut service = AuthService::new();

    let unknown = service.login_verdict(" ADMIN ", None, "contraseña correcta").unwrap_err();
    let wrong = service.login_verdict("admin", Some(&active), "contraseña errónea").unwrap_err();
    let disabled = service.login_verdict("Admin", Some(&inactive), "contraseña correcta").unwrap_err();
    for rejection in [&unknown, &wrong, &disabled] {
        assert_eq!(rejection.error.code, "AUTH_INVALID_CREDENTIALS");
        assert_eq!(rejection.error.message, "Las credenciales no son válidas.");
        assert_eq!(rejection.delay_secs, None);
    }
    let fourth = service.login_verdict("admin", None, "x").unwrap_err();
    assert_eq!(fourth.delay_secs, Some(1));
    assert!(service.login_verdict("admin", Some(&active), "contraseña correcta").is_ok());
    // The success cleared the count.
    let again = service.login_verdict("admin", None, "x").unwrap_err();
    assert_eq!(again.delay_secs, None);
}

#[test]
fn login_keys_and_lookups() {
    assert_eq!(login_key("  ADMIN  "), "admin");
    assert_eq!(login_key(" no valid! "), "no valid!");
    assert_eq!(login_lookup_name(" ADMIN "), Some("admin".to_owned()));
    assert_eq!(login_lookup_name("a"), None);
    let hash = hash_password("contraseña correcta").unwrap();
    let active = user("1", "admin", UserRole::Admin, true, false, &hash);
    assert!(credentials_accepted(Some(&active), "contraseña correcta"));
    assert!(!credentials_accepted(Some(&active), "short"));
    assert!(!credentials_accepted(None, "contraseña correcta"));
}

#[test]
fn administration_needs_a_final_password_and_the_admin_role() {
    assert!(admin_access(&user("1", "admin", UserRole::Admin, true, false, "h")).is_ok());
    let temporary = admin_access(&user("1", "admin", UserRole::Admin, true, true, "h")).unwrap_err();
    assert_eq!(temporary.code, "AUTH_PASSWORD_CHANGE_REQUIRED");
    let manager =
        admin_access(&user("2", "manager", UserRole::WarehouseManager, true, false, "h")).unwrap_err();
    assert_eq!(manager.code, "AUTH_FORBIDDEN");
}

#[test]
fn password_changes_check_the_current_password() {
    let hash = hash_password("contraseña actual 1").unwrap();
    let settled = user("1", "admin", UserRole::Admin, true, false, &hash);
    let temporary = user("1", "admin", UserRole::Admin, true, true, &hash);

    let missing = prepare_password_change(&settled, None, "contraseña nueva 2").unwrap_err();
    assert_eq!(missing.message, "La contraseña actual es obligatoria.");
    let wrong =
        prepare_password_change(&settled, Some("otra contraseña 3"), "contraseña nueva 2").unwrap_err();
    assert_eq!(wrong.message, "La contraseña actual no es válida.");
    let reused =
        prepare_password_change(&settled, Some("contraseña actual 1"), "contraseña actual 1")
            .unwrap_err();
    assert_eq!(reused.message, "La nueva contraseña debe ser diferente de la actual.");
    let ok = prepare_password_change(&settled, Some("contraseña actual 1"), "contraseña nueva 2")
        .unwrap();
    assert!(remolino_inventario::auth::verify_password("contraseña nueva 2", &ok).unwrap());
    let from_temporary = prepare_password_change(&temporary, None, "contraseña nueva 2").unwrap();
    assert!(from_temporary.starts_with("$argon2id$v=19$m=19456,t=2,p=1$"));
    assert_ne!(from_temporary, hash);
    assert_eq!(
        prepare_password_change(&temporary, None, "corta").unwrap_err().code,
        "PASSWORD_VALIDATION_FAILED"
    );
}

#[test]
fn temporary_passwords_are_issued_with_their_hash() {
    let (password, hash) = issue_temporary_password().unwrap();
    assert_eq!(password.expose_once().len(), 32);
    assert!(password.expose_once().chars().all(|c| c.is_ascii_alphanumeric()));
    assert!(hash.starts_with("$argon2id$v=19$m=19456,t=2,p=1$"));
    assert!(remolino_inventario::auth::verify_password(password.expose_once(), &hash).unwrap());
}

#[test]
fn administrators_cannot_change_themselves() {
    let admin = user("a-1", "admin", UserRole::Admin, true, false, "h");
    let (username, display) =
        prepare_user_update(&admin, "m-1", " Manager ", " Encargado ", UserRole::WarehouseManager)
            .unwrap();
    assert_eq!(username, "manager");
    assert_eq!(display, "Encargado");
    assert!(prepare_user_update(&admin, "a-1", "ADMIN", "Otro nombre", UserRole::Admin).is_ok());
    let renamed = prepare_user_update(&admin, "a-1", "root", "X", UserRole::Admin).unwrap_err();
    assert_eq!(renamed.code, "SELF_MANAGEMENT_NOT_ALLOWED");
    let demoted =
        prepare_user_update(&admin, "a-1", "admin", "X", UserRole::WarehouseManager).unwrap_err();
    assert_eq!(demoted.code, "SELF_MANAGEMENT_NOT_ALLOWED");
    let invalid = prepare_user_update(&admin, "m-1", "x", "X", UserRole::Admin).unwrap_err();
    assert_eq!(invalid.code, "USER_VALIDATION_FAILED");
    assert_eq!(ensure_not_self(&admin, "a-1").unwrap_err().code, "SELF_MANAGEMENT_NOT_ALLOWED");
    assert!(ensure_not_self(&admin, "m-1").is_ok());
    assert_eq!(
        prepare_user_creation("Manager", "Encargado").unwrap(),
        ("manager".to_owned(), "Encargado".to_owned())
    );
    assert!(prepare_user_creation("Manager", "  ").is_err());
}

#[test]
fn guards_protect_the_last_active_administrator() {
    let admin = user("a-1", "admin", UserRole::Admin, true, false, "h");
    let manager = user("m-1", "manager", UserRole::WarehouseManager, true, false, "h");
    assert_eq!(
        guard_user_update(1, &admin, UserRole::WarehouseManager).unwrap_err().code,
        "LAST_ACTIVE_ADMIN_REQUIRED"
    );
    assert!(guard_user_update(2, &admin, UserRole::WarehouseManager).is_ok());
    assert!(guard_user_update(1, &manager, UserRole::Admin).is_ok());
    assert!(guard_status_change(1, &admin, false).is_err());
    assert!(guard_status_change(1, &admin, true).is_ok());
    assert!(guard_status_change(1, &manager, false).is_ok());
}

#[test]
fn edits_revoke_sessions_on_role_or_name_changes() {
    let manager = user("m-1", "manager", UserRole::WarehouseManager, true, false, "h");
    assert!(!update_revokes_sessions(&manager, UserRole::WarehouseManager, "manager"));
    assert!(update_revokes_sessions(&manager, UserRole::Admin, "manager"));
    assert!(update_revokes_sessions(&manager, UserRole::WarehouseManager, "boss"));
}

#[test]
fn unique_violations_become_duplicate_names() {
    let unique = AppError::new(
        "DATABASE_UNAVAILABLE",
        "La base de datos no está disponible.",
        "database operation failed: UNIQUE constraint failed: users.username",
    );
    let duplicate = classify_write_error(unique);
    assert_eq!(duplicate.code, "USERNAME_ALREADY_EXISTS");
    assert_eq!(duplicate.message, "Ese nombre de usuario ya existe.");
    let other = AppError::new("DATABASE_UNAVAILABLE", "La base de datos no está disponible.", "disk I/O");
    assert_eq!(classify_write_error(other.clone()), other);
}

#[test]
fn rows_become_records() {
    let record = user_from_row(
        "1".to_owned(),
        "admin".to_owned(),
        "Administrador".to_owned(),
        "h".to_owned(),
        "ADMIN",
        1,
        0,
    )
    .unwrap();
    assert_eq!(record.role, UserRole::Admin);
    assert!(record.active);
    assert!(!record.must_change_password);
    assert!(user_from_row("1".into(), "a".into(), "b".into(), "h".into(), "ROOT", 1, 1).is_err());
    let listed = admin_user_from_row(
        "2".to_owned(),
        "manager".to_owned(),
        "Encargado".to_owned(),
        "WAREHOUSE_MANAGER",
        0,
        10,
        20,
    )
    .unwrap();
    assert_eq!(listed.role, UserRole::WarehouseManager);
    assert!(!listed.active);
    assert_eq!((listed.created_at, listed.updated_at), (10, 20));
    let id = identity(&record);
    assert_eq!(id.username, "admin");
    assert_eq!(id.role, UserRole::Admin);
}

#[test]
fn sessions_last_seven_days_and_store_only_a_hash() {
    let plan = plan_session(1_000).unwrap();
    assert_eq!(plan.created_at, 1_000);
    assert_eq!(plan.expires_at, 1_000 + 7 * 24 * 60 * 60 * 1000);
    assert_eq!(plan.token_hash, hash_session_secret(&plan.secret));
    assert_ne!(plan.token_hash, plan.secret.expose_to_secure_store());
    assert_eq!(plan.session_id.len(), 36);
    let secret = plan.secret.expose_to_secure_store();
    assert_eq!(secret.len(), 64);
    assert!(secret.chars().all(|c| c.is_ascii_digit() || ('a'..='f').contains(&c)));
    assert_eq!(plan_session(i64::MAX).unwrap_err().code, "INTERNAL_ERROR");
}

#[test]
fn the_process_session_follows_log_in_and_expiry() {
    let admin = user("a-1", "admin", UserRole::Admin, true, true, "h");
    let mut service = AuthService::new();
    assert_eq!(service.current_session().unwrap_err().code, "AUTH_SESSION_REQUIRED");
    let secret = SessionSecret::from_string("s".repeat(64));
    let result = service.finish_session("sess-1".to_owned(), secret.clone(), &admin, &Ok(()));
    assert!(!result.persistence_warning);
    assert!(result.identity.must_change_password);
    let current = service.current_session().unwrap();
    assert_eq!(current.id, "sess-1");
    assert_eq!(current.secret, secret);
    let warned = service.finish_session("sess-2".to_owned(), secret, &admin, &Err("no store".to_owned()));
    assert!(warned.persistence_warning);
    assert_eq!(service.current_session().unwrap().id, "sess-2");
    let valid = service.validate_session_row(Some(admin.clone())).unwrap();
    assert_eq!(valid.id, "a-1");
    let expired = service.validate_session_row(None).unwrap_err();
    assert_eq!(expired.code, "AUTH_SESSION_EXPIRED");
    assert!(service.current_session().is_err());
    assert!(service.take_active_session().unwrap().is_none());
}

#[test]
fn remembered_secrets_and_start_up_answers() {
    assert_eq!(remembered_secret(Ok(Some("abc".to_owned()))), (Some("abc".to_owned()), false));
    assert_eq!(remembered_secret(Ok(None)), (None, false));
    assert_eq!(remembered_secret(Err("locked".to_owned())), (None, true));
    assert!(needs_initial_admin(0));
    assert!(!needs_initial_admin(1));
    let admin = user("a-1", "admin", UserRole::Admin, true, true, "h");
    let (password, _) = issue_temporary_password().unwrap();
    let bootstrap = startup_bootstrap(&admin, &password);
    assert_eq!(bootstrap.state, "bootstrap");
    assert_eq!(bootstrap.temporary_password.as_deref(), Some(password.expose_once()));
    let authenticated = startup_authenticated(&admin, true);
    assert_eq!(authenticated.state, "authenticated");
    assert!(authenticated.persistence_warning);
    let login = startup_login(false);
    assert_eq!(login.state, "login");
    assert!(login.identity.is_none());
}

#[test]
fn start_up_creates_the_administrator_only_without_users() {
    assert!(matches!(startup_step(StartupEvent::Begin), StartupAction::CountUsers));
    assert!(matches!(
        startup_step(StartupEvent::UsersCounted(0)),
        StartupAction::CreateInitialAdmin
    ));
    assert!(matches!(
        startup_step(StartupEvent::UsersCounted(3)),
        StartupAction::RotatePendingBootstrap
    ));
    let admin = user("a-1", "admin", UserRole::Admin, true, true, "h");
    let (password, _) = issue_temporary_password().unwrap();
    match startup_step(StartupEvent::InitialAdminCreated(admin.clone(), password.clone())) {
        StartupAction::Answer(answer) => {
            assert_eq!(answer.state, "bootstrap");
            assert_eq!(answer.temporary_password.as_deref(), Some(password.expose_once()));
        }
        _ => panic!("a created administrator is answered"),
    }
    match startup_step(StartupEvent::PendingBootstrapChecked(Some((admin.clone(), password)))) {
        StartupAction::Answer(answer) => assert_eq!(answer.state, "bootstrap"),
        _ => panic!("a renewed bootstrap is answered"),
    }
    assert!(matches!(
        startup_step(StartupEvent::PendingBootstrapChecked(None)),
        StartupAction::RestoreRemembered
    ));
    match startup_step(StartupEvent::RememberedChecked(Some(admin), false)) {
        StartupAction::Answer(answer) => assert_eq!(answer.state, "authenticated"),
        _ => panic!("a restored session is answered"),
    }
    match startup_step(StartupEvent::RememberedChecked(None, true)) {
        StartupAction::Answer(answer) => {
            assert_eq!(answer.state, "login");
            assert!(answer.persistence_warning);
        }
        _ => panic!("a missing session asks for a log-in"),
    }
}

#[test]
fn administrative_edits_are_decided_after_reading_the_target() {
    let admin = user("a-1", "admin", UserRole::Admin, true, false, "h");
    let manager = user("m-1", "manager", UserRole::WarehouseManager, true, false, "h");
    assert_eq!(
        plan_user_update(None, 2, UserRole::Admin, "x").unwrap_err().code,
        "USER_NOT_FOUND"
    );
    assert_eq!(
        plan_user_update(Some(&admin), 1, UserRole::WarehouseManager, "admin")
            .unwrap_err()
            .code,
        "LAST_ACTIVE_ADMIN_REQUIRED"
    );
    assert_eq!(plan_user_update(Some(&manager), 1, UserRole::WarehouseManager, "manager").unwrap(), false);
    assert_eq!(plan_user_update(Some(&manager), 1, UserRole::WarehouseManager, "boss").unwrap(), true);
    assert_eq!(plan_user_update(Some(&admin), 2, UserRole::WarehouseManager, "admin").unwrap(), true);
    assert_eq!(plan_status_change(None, 2, false).unwrap_err().code, "USER_NOT_FOUND");
    assert_eq!(
        plan_status_change(Some(&admin), 1, false).unwrap_err().code,
        "LAST_ACTIVE_ADMIN_REQUIRED"
    );
    assert!(plan_status_change(Some(&admin), 2, false).is_ok());
    assert!(plan_status_change(Some(&manager), 1, false).is_ok());
}

#[test]
fn new_user_rows_carry_their_fixed_columns() {
    let first = initial_admin_row("id-1".to_owned(), "hash".to_owned(), 42);
    assert_eq!(first.id, "id-1");
    assert_eq!(first.username, "admin");
    assert_eq!(first.display_name, "Administrador");
    assert_eq!(first.password_hash, "hash");
    assert_eq!(first.role, UserRole::Admin);
    assert!(first.active && first.must_change_password && first.bootstrap_pending);
    assert_eq!((first.created_at, first.updated_at), (42, 42));
    let created = created_user_row(
        "id-2".to_owned(),
        "manager".to_owned(),
        "Encargado".to_owned(),
        "hash2".to_owned(),
        UserRole::WarehouseManager,
        7,
    );
    assert_eq!(created.username, "manager");
    assert_eq!(created.display_name, "Encargado");
    assert_eq!(created.role, UserRole::WarehouseManager);
    assert!(created.active && created.must_change_password && !created.bootstrap_pending);
    assert_eq!((created.created_at, created.updated_at), (7, 7));
}
