use remolino_inventario::auth::{
    ensure_active_admin_remains, ensure_active_admin_remains_for_rows, generate_session_secret,
    generate_temporary_password, hash_password, hash_stored_secret, hash_session_secret,
    hex_encode, new_uuid, normalize_display_name, normalize_username, now_unix_millis,
    session_expiry, temporary_password_from, unix_millis_from_clock, validate_new_password, validate_password,
    verify_password, SessionSecret, UserRole, SESSION_LIFETIME_MILLIS, SESSION_LIFETIME_SECS,
};

#[test]
fn normalizes_and_validates_usernames() {
    assert_eq!(normalize_username(" Manager_01 ").unwrap(), "manager_01");
    assert!(normalize_username("ab").is_err());
    assert!(normalize_username("no spaces").is_err());
    assert!(normalize_username("ábc").is_err());
}

#[test]
fn trims_and_validates_display_names() {
    assert_eq!(
        normalize_display_name("  Ana María  ").unwrap(),
        "Ana María"
    );
    assert!(normalize_display_name("   ").is_err());
}

#[test]
fn generates_cryptographically_random_secrets() {
    let first = generate_temporary_password();
    let second = generate_temporary_password();
    assert!(first.expose_once().chars().count() >= 20);
    assert_ne!(first, second);

    let session = generate_session_secret();
    assert_eq!(session.expose_to_secure_store().len(), 64);
    assert_eq!(hash_session_secret(&session).len(), 64);
}

#[test]
fn hashes_and_verifies_passwords_without_reusing_salts() {
    let first = hash_password("contraseña válida 1").unwrap();
    let second = hash_password("contraseña válida 1").unwrap();
    assert_ne!(first, second);
    assert!(verify_password("contraseña válida 1", &first).unwrap());
    assert!(!verify_password("contraseña válida 2", &first).unwrap());
    assert!(hash_password("short").is_err());
    assert!(hash_password(&"x".repeat(129)).is_err());
}

#[test]
fn protects_the_last_active_administrator() {
    assert!(ensure_active_admin_remains(1, true, UserRole::Admin, true).is_ok());
    assert!(ensure_active_admin_remains(1, true, UserRole::WarehouseManager, true).is_err());
    assert!(ensure_active_admin_remains(1, true, UserRole::Admin, false).is_err());
    assert!(ensure_active_admin_remains(2, true, UserRole::WarehouseManager, true).is_ok());
}

#[test]
fn computes_a_fixed_seven_day_session_lifetime() {
    // The Unix epoch, in milliseconds.
    let created: i64 = 0;
    assert_eq!(
        session_expiry(created).unwrap(),
        created + SESSION_LIFETIME_MILLIS
    );
    assert_eq!(SESSION_LIFETIME_MILLIS, (SESSION_LIFETIME_SECS * 1000) as i64);
    assert_eq!(SESSION_LIFETIME_SECS, 7 * 24 * 60 * 60);
}

#[test]
fn session_expiry_refuses_an_instant_that_does_not_fit() {
    let error = session_expiry(i64::MAX - 10).unwrap_err();
    assert_eq!(error.code, "INTERNAL_ERROR");
    assert_eq!(
        session_expiry(1_000).unwrap(),
        1_000 + 604_800_000
    );
}

#[test]
fn clock_readings_become_timestamps() {
    assert_eq!(unix_millis_from_clock(Some(1_725_029_869_000)).unwrap(), 1_725_029_869_000);
    assert_eq!(unix_millis_from_clock(None).unwrap_err().code, "INTERNAL_ERROR");
    assert_eq!(
        unix_millis_from_clock(Some(i64::MAX as u128 + 1)).unwrap_err().code,
        "INTERNAL_ERROR"
    );
    assert!(now_unix_millis().unwrap() > 1_600_000_000_000);
}

#[test]
fn roles_read_back_their_names() {
    assert_eq!(UserRole::Admin.as_str(), "ADMIN");
    assert_eq!(UserRole::WarehouseManager.as_str(), "WAREHOUSE_MANAGER");
    for role in [UserRole::Admin, UserRole::WarehouseManager] {
        assert_eq!(UserRole::parse(role.as_str()).unwrap(), role);
    }
    let error = UserRole::parse("admin").unwrap_err();
    assert_eq!(error.code, "USER_VALIDATION_FAILED");
    assert_eq!(error.message, "Los datos del usuario no son válidos.");
    assert!(UserRole::parse("").is_err());
}

#[test]
fn user_names_are_case_insensitive_and_trimmed_of_unicode_spaces() {
    let a = normalize_username("Manager").unwrap();
    let b = normalize_username("manager").unwrap();
    let c = normalize_username("MANAGER").unwrap();
    assert_eq!(a, b);
    assert_eq!(b, c);
    assert_eq!(normalize_username("\u{3000}\tAna.Lopez-2\u{a0}\n").unwrap(), "ana.lopez-2");
    assert_eq!(normalize_username(&normalize_username(" X_y.z ").unwrap()).unwrap(), "x_y.z");
    assert!(normalize_username("abc").is_ok());
    assert!(normalize_username(&"a".repeat(32)).is_ok());
    assert!(normalize_username(&"a".repeat(33)).is_err());
    assert!(normalize_username("ab!").is_err());
    assert_eq!(
        normalize_username("ab").unwrap_err().code,
        "USER_VALIDATION_FAILED"
    );
}

#[test]
fn display_names_are_limited_to_one_hundred_characters() {
    assert!(normalize_display_name(&"ñ".repeat(100)).is_ok());
    assert!(normalize_display_name(&"ñ".repeat(101)).is_err());
    assert_eq!(normalize_display_name(" x ").unwrap(), "x");
}

#[test]
fn password_length_counts_characters() {
    assert!(validate_password(&"ñ".repeat(12)).is_ok());
    assert!(validate_password(&"ñ".repeat(11)).is_err());
    assert!(validate_password(&"a".repeat(128)).is_ok());
    let error = validate_password(&"a".repeat(129)).unwrap_err();
    assert_eq!(error.code, "PASSWORD_VALIDATION_FAILED");
    assert_eq!(error.message, "La contraseña debe tener entre 12 y 128 caracteres.");
    // Spaces are kept: the password is not trimmed.
    assert!(validate_password("           a").is_ok());
}

#[test]
fn a_stored_hash_is_not_the_password_and_rejects_others() {
    let hash = hash_password("una contraseña definitiva").unwrap();
    assert!(!hash.contains("una contraseña definitiva"));
    assert!(hash.starts_with("$argon2id$v=19$m=19456,t=2,p=1$"));
    assert!(verify_password("una contraseña definitiva", &hash).unwrap());
    assert!(!verify_password("otra contraseña definitiva", &hash).unwrap());
    let invalid = verify_password("una contraseña definitiva", "not a hash").unwrap_err();
    assert_eq!(invalid.code, "INTERNAL_ERROR");
    assert_eq!(
        verify_password("short", &hash).unwrap_err().code,
        "PASSWORD_VALIDATION_FAILED"
    );
}

#[test]
fn a_new_password_must_differ_from_the_current_one() {
    let current = hash_password("contraseña actual 1").unwrap();
    let error = validate_new_password("contraseña actual 1", Some(&current)).unwrap_err();
    assert_eq!(error.code, "PASSWORD_VALIDATION_FAILED");
    assert_eq!(error.message, "La nueva contraseña debe ser diferente de la actual.");
    let new_hash = validate_new_password("contraseña nueva 2", Some(&current)).unwrap();
    assert!(verify_password("contraseña nueva 2", &new_hash).unwrap());
    assert!(validate_new_password("contraseña nueva 2", None).is_ok());
    assert!(validate_new_password("corta", None).is_err());
}

#[test]
fn the_admin_guard_reads_database_rows() {
    let admin_row = Some(("ADMIN".to_owned(), 1));
    assert!(ensure_active_admin_remains_for_rows(1, admin_row.clone(), UserRole::Admin, true).is_ok());
    let error =
        ensure_active_admin_remains_for_rows(1, admin_row.clone(), UserRole::Admin, false)
            .unwrap_err();
    assert_eq!(error.code, "LAST_ACTIVE_ADMIN_REQUIRED");
    assert_eq!(error.message, "Debe existir al menos un administrador activo.");
    assert!(ensure_active_admin_remains_for_rows(
        1,
        Some(("ADMIN".to_owned(), 0)),
        UserRole::WarehouseManager,
        false
    )
    .is_ok());
    assert!(ensure_active_admin_remains_for_rows(1, None, UserRole::Admin, false).is_ok());
    assert!(ensure_active_admin_remains_for_rows(-3, None, UserRole::Admin, true).is_err());
    assert!(ensure_active_admin_remains_for_rows(0, None, UserRole::Admin, true).is_err());
    assert!(ensure_active_admin_remains(3, true, UserRole::Admin, false).is_ok());
    assert!(ensure_active_admin_remains(1, false, UserRole::WarehouseManager, false).is_ok());
}

#[test]
fn secrets_hash_to_lower_case_sha256_hex() {
    assert_eq!(
        hash_stored_secret("abc"),
        "ba7816bf8f01cfea414140de5dae2223b00361a396177a9cb410ff61f20015ad"
    );
    let secret = SessionSecret::from_string("abc".to_owned());
    assert_eq!(hash_session_secret(&secret), hash_stored_secret("abc"));
    assert_eq!(hex_encode(&[0x00, 0x0f, 0xa5, 0xff]), "000fa5ff");
    assert_eq!(hex_encode(&[]), "");
}

#[test]
fn generated_secrets_have_their_shapes() {
    let password = generate_temporary_password();
    assert_eq!(password.expose_once().len(), 32);
    assert!(password.expose_once().chars().all(|c| c.is_ascii_alphanumeric()));
    let secret = generate_session_secret();
    assert!(secret
        .expose_to_secure_store()
        .chars()
        .all(|c| c.is_ascii_digit() || ('a'..='f').contains(&c)));
    assert_ne!(generate_session_secret(), secret);
    let id = new_uuid();
    assert_eq!(id.len(), 36);
    for (i, c) in id.chars().enumerate() {
        if [8, 13, 18, 23].contains(&i) {
            assert_eq!(c, '-');
        } else {
            assert!(c.is_ascii_digit() || ('a'..='f').contains(&c));
        }
    }
    assert_eq!(id.chars().nth(14), Some('4'));
    assert_ne!(new_uuid(), id);
}

#[test]
fn accepted_new_passwords_are_hashed_with_the_central_parameters() {
    let current = hash_password("contraseña vigente 1").unwrap();
    let fresh = validate_new_password("contraseña distinta 2", Some(&current)).unwrap();
    assert!(fresh.starts_with("$argon2id$v=19$m=19456,t=2,p=1$"));
    assert_ne!(fresh, current);
    let unbound = validate_new_password("contraseña distinta 2", None).unwrap();
    assert!(unbound.starts_with("$argon2id$v=19$m=19456,t=2,p=1$"));
    let broken = validate_new_password("contraseña distinta 2", Some("no es un hash")).unwrap_err();
    assert_eq!(broken.code, "INTERNAL_ERROR");
}

#[test]
fn every_acceptable_password_is_hashed() {
    let longest: String = std::iter::repeat('ñ').take(128).collect();
    let hash = hash_password(&longest).unwrap();
    assert!(verify_password(&longest, &hash).unwrap());
    let shortest = "abcdefghijkl";
    let hash = hash_password(shortest).unwrap();
    assert_eq!(verify_password("abcdefghijkm", &hash).unwrap(), false);
    let too_long: String = std::iter::repeat('a').take(129).collect();
    assert_eq!(hash_password(&too_long).unwrap_err().code, "PASSWORD_VALIDATION_FAILED");
}

#[test]
fn drawn_bytes_spell_the_temporary_password() {
    let password = temporary_password_from(b"Ab3xYz09");
    assert_eq!(password.expose_once(), "Ab3xYz09");
    assert_eq!(temporary_password_from(&[]).expose_once(), "");
}

#[test]
fn hashes_carry_a_sixteen_byte_salt_and_a_thirty_two_byte_output() {
    let hash = hash_password("contraseña con forma 1").unwrap();
    let prefix = "$argon2id$v=19$m=19456,t=2,p=1$";
    let rest = hash.strip_prefix(prefix).unwrap();
    let (salt, output) = rest.split_once('$').unwrap();
    let b64 = |c: char| c.is_ascii_alphanumeric() || c == '+' || c == '/';
    assert_eq!(salt.len(), 22);
    assert_eq!(output.len(), 43);
    assert!(salt.chars().all(b64));
    assert!(output.chars().all(b64));
}
