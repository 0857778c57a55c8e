//! The decisions of the authentication service: which error each request gets,
//! how failed log-ins slow down, what a new session consists of, which checks
//! an administrative change must pass and which sessions it revokes.
//!
//! The service's database queries, the secure credential store and the waiting
//! between failed attempts are outside work: the caller performs them and hands
//! their results to these functions.

use vstd::prelude::*;

use crate::auth::{
    admin_guard_allows, argon2_phc_check, argon2id_phc_prefix, ensure_active_admin_remains, generate_session_secret,
    generate_temporary_password, hash_password, hash_password_produced, hash_session_secret,
    is_hyphenated_v4_uuid, is_internal_error, is_last_admin_error, is_user_validation_error,
    is_valid_display_name, is_valid_username, new_uuid, normalize_display_name,
    internal_code, internal_message, normalize_username, normalized_username,
    password_length_message, password_length_ok,
    password_reuse_message, password_validation_code, role_name, session_expiry,
    session_secret_hash, validate_new_password, verify_password, SessionSecret, TemporaryPassword,
    UserIdentity, UserRole, ARGON2_MEMORY_KIB, ARGON2_PARALLELISM, ARGON2_TIME_COST,
    SESSION_LIFETIME_MILLIS, TEMPORARY_PASSWORD_LENGTH,
};
use crate::errors::{failed_with, AppError};
use crate::text::{
    ascii_lowercase, ascii_lowercase_chars, contains_chars, contains_infix, hex_lower,
    is_ascii_alphanumeric, str_chars, string_from_chars, trim, trim_chars,
};

verus! {

// ---------------------------------------------------------------------------
// Errors the service reports
// ---------------------------------------------------------------------------

pub open spec fn invalid_credentials_code() -> Seq<char> {
    "AUTH_INVALID_CREDENTIALS"@
}

pub open spec fn invalid_credentials_message() -> Seq<char> {
    "Las credenciales no son válidas."@
}

pub open spec fn username_exists_code() -> Seq<char> {
    "USERNAME_ALREADY_EXISTS"@
}

pub open spec fn username_exists_message() -> Seq<char> {
    "Ese nombre de usuario ya existe."@
}

pub open spec fn self_management_code() -> Seq<char> {
    "SELF_MANAGEMENT_NOT_ALLOWED"@
}

pub open spec fn self_management_message() -> Seq<char> {
    "No puedes modificar tu propio usuario, rol o estado desde esta pantalla."@
}

pub open spec fn current_password_required_message() -> Seq<char> {
    "La contraseña actual es obligatoria."@
}

pub open spec fn current_password_invalid_message() -> Seq<char> {
    "La contraseña actual no es válida."@
}

pub open spec fn database_code() -> Seq<char> {
    "DATABASE_UNAVAILABLE"@
}

pub open spec fn database_message() -> Seq<char> {
    "La base de datos no está disponible."@
}

pub open spec fn user_not_found_code() -> Seq<char> {
    "USER_NOT_FOUND"@
}

pub open spec fn user_not_found_message() -> Seq<char> {
    "El usuario no existe."@
}

pub open spec fn session_required_code() -> Seq<char> {
    "AUTH_SESSION_REQUIRED"@
}

pub open spec fn session_required_message() -> Seq<char> {
    "Necesitas iniciar sesión."@
}

pub open spec fn session_expired_code() -> Seq<char> {
    "AUTH_SESSION_EXPIRED"@
}

pub open spec fn session_expired_message() -> Seq<char> {
    "Tu sesión ya no es válida. Inicia sesión nuevamente."@
}

pub open spec fn password_change_required_code() -> Seq<char> {
    "AUTH_PASSWORD_CHANGE_REQUIRED"@
}

pub open spec fn password_change_required_message() -> Seq<char> {
    "Debes cambiar tu contraseña antes de continuar."@
}

pub open spec fn forbidden_code() -> Seq<char> {
    "AUTH_FORBIDDEN"@
}

pub open spec fn forbidden_message() -> Seq<char> {
    "No tienes permisos para realizar esta operación."@
}

pub fn invalid_credentials() -> (e: AppError)
    ensures
        e.is(invalid_credentials_code(), invalid_credentials_message()),
{
    AppError::new(
        "AUTH_INVALID_CREDENTIALS",
        "Las credenciales no son válidas.",
        "login credentials were not accepted",
    )
}

pub fn username_exists() -> (e: AppError)
    ensures
        e.is(username_exists_code(), username_exists_message()),
{
    AppError::new(
        "USERNAME_ALREADY_EXISTS",
        "Ese nombre de usuario ya existe.",
        "normalized username violates the unique constraint",
    )
}

pub fn self_management_error() -> (e: AppError)
    ensures
        e.is(self_management_code(), self_management_message()),
{
    AppError::new(
        "SELF_MANAGEMENT_NOT_ALLOWED",
        "No puedes modificar tu propio usuario, rol o estado desde esta pantalla.",
        "administrator attempted forbidden self-management",
    )
}

pub fn password_validation(message: &'static str) -> (e: AppError)
    ensures
        e.is(password_validation_code(), message@),
{
    AppError::new("PASSWORD_VALIDATION_FAILED", message, "password change validation failed")
}

pub fn database_error(technical: &str) -> (e: AppError)
    ensures
        e.is(database_code(), database_message()),
        e.technical_text() == technical@,
{
    AppError::new("DATABASE_UNAVAILABLE", "La base de datos no está disponible.", technical)
}

pub fn user_not_found() -> (e: AppError)
    ensures
        e.is(user_not_found_code(), user_not_found_message()),
{
    AppError::new("USER_NOT_FOUND", "El usuario no existe.", "user not found")
}

pub fn internal_error(technical: &str) -> (e: AppError)
    ensures
        is_internal_error(e),
        e.technical_text() == technical@,
{
    AppError::new("INTERNAL_ERROR", "Ocurrió un error interno. Inténtalo nuevamente.", technical)
}

pub fn session_required() -> (e: AppError)
    ensures
        e.is(session_required_code(), session_required_message()),
{
    AppError::new("AUTH_SESSION_REQUIRED", "Necesitas iniciar sesión.", "no active session")
}

pub fn session_expired() -> (e: AppError)
    ensures
        e.is(session_expired_code(), session_expired_message()),
{
    AppError::new(
        "AUTH_SESSION_EXPIRED",
        "Tu sesión ya no es válida. Inicia sesión nuevamente.",
        "session is expired, revoked, or inactive",
    )
}

// ---------------------------------------------------------------------------
// Records exchanged with the interface and the store
// ---------------------------------------------------------------------------

/// What the interface shows when the application starts: `bootstrap`,
/// `authenticated` or `login`.
#[derive(Clone, Debug)]
pub struct AuthStartup {
    pub state: &'static str,
    pub identity: Option<UserIdentity>,
    pub temporary_password: Option<String>,
    pub persistence_warning: bool,
}

/// The outcome of a log-in or a password change.
#[derive(Clone, Debug)]
pub struct AuthResult {
    pub identity: UserIdentity,
    pub persistence_warning: bool,
}

/// A user as the administration screen lists it: never a hash or a secret.
#[derive(Clone, Debug)]
pub struct AdminUser {
    pub id: String,
    pub username: String,
    pub display_name: String,
    pub role: UserRole,
    pub active: bool,
    pub created_at: i64,
    pub updated_at: i64,
}

/// The outcome of an administrative change, with the temporary password when
/// one was issued.
#[derive(Clone, Debug)]
pub struct AdminMutationResult {
    pub user: AdminUser,
    pub temporary_password: Option<String>,
}

/// A stored user, as the service reads it.
#[derive(Clone, Debug)]
pub struct UserRecord {
    pub id: String,
    pub username: String,
    pub display_name: String,
    pub password_hash: String,
    pub role: UserRole,
    pub active: bool,
    pub must_change_password: bool,
}

/// The session this process holds: its id and its secret.
#[derive(Clone, Debug)]
pub struct ActiveSession {
    pub id: String,
    pub secret: SessionSecret,
}

impl ActiveSession {
    pub fn duplicate(&self) -> (copy: ActiveSession)
        ensures
            copy.id@ == self.id@,
            copy.secret@ == self.secret@,
    {
        ActiveSession {
            id: self.id.clone(),
            secret: SessionSecret::from_string(self.secret.expose_to_secure_store().to_owned()),
        }
    }
}

/// Consecutive failed log-ins for one identifier.
#[derive(Clone, Copy, Debug)]
pub struct FailedLogins {
    pub consecutive: u32,
}

/// Where the remembered session secret is kept between runs. Implementations
/// belong to the embedding application (the operating system's credential
/// manager, or memory in tests).
pub trait CredentialStore: Send + Sync {
    fn load(&self) -> Result<Option<String>, String>;

    fn save(&self, secret: &str) -> Result<(), String>;

    fn delete(&self);
}

// ---------------------------------------------------------------------------
// Failed log-ins and the process session
// ---------------------------------------------------------------------------

pub open spec fn min_nat(a: nat, b: nat) -> nat {
    if a <= b {
        a
    } else {
        b
    }
}

pub open spec fn pow2_nat(e: nat) -> nat
    decreases e,
{
    if e == 0 {
        1
    } else {
        2 * pow2_nat((e - 1) as nat)
    }
}

/// The wait after the given number of consecutive failures: none for the
/// first three, then 2^(n-4) seconds with the exponent capped at 4, and never
/// more than 30 seconds.
pub open spec fn progressive_delay_secs(consecutive: u32) -> Option<u64> {
    if consecutive < 4 {
        None
    } else {
        Some(min_nat(pow2_nat(min_nat((consecutive - 4) as nat, 4)), 30) as u64)
    }
}

/// The first three consecutive failures are answered at once; from the fourth
/// on the wait doubles from one second and never exceeds thirty seconds (it
/// stops growing at sixteen).
pub proof fn law_progressive_delay(consecutive: u32)
    ensures
        progressive_delay_secs(consecutive) is None <==> consecutive < 4,
        progressive_delay_secs(consecutive) matches Some(d) ==> 1 <= d <= 16 && d <= 30,
        4 <= consecutive < 8 ==> progressive_delay_secs((consecutive + 1) as u32)
            == Some((2 * progressive_delay_secs(consecutive)->0) as u64),
        consecutive >= 8 ==> progressive_delay_secs(consecutive) == Some(16u64),
{
    reveal_with_fuel(pow2_nat, 5);
}

/// `u32::saturating_add(1)`.
pub open spec fn incremented(n: u32) -> u32 {
    if n == u32::MAX {
        n
    } else {
        (n + 1) as u32
    }
}

/// Consecutive failed log-ins per identifier, each identifier once.
#[derive(Debug)]
struct FailedLoginTable {
    keys: Vec<String>,
    counts: Vec<FailedLogins>,
}

impl FailedLoginTable {
    /// Keys and counts pair up, and no identifier occurs twice.
    spec fn wf(&self) -> bool {
        &&& self.keys@.len() == self.counts@.len()
        &&& forall|i: int, j: int|
            0 <= i < j < self.keys@.len() ==> #[trigger] self.keys@[i]@
                != #[trigger] self.keys@[j]@
    }

    /// Consecutive failed log-ins recorded for `key`, zero when none.
    spec fn count(&self, key: Seq<char>) -> u32 {
        if exists|i: int| 0 <= i < self.keys@.len() && #[trigger] self.keys@[i]@ == key {
            let i = choose|i: int| 0 <= i < self.keys@.len() && #[trigger] self.keys@[i]@ == key;
            self.counts@[i].consecutive
        } else {
            0
        }
    }

    fn empty() -> (table: Self)
        ensures
            table.wf(),
            forall|key: Seq<char>| table.count(key) == 0,
    {
        FailedLoginTable { keys: Vec::new(), counts: Vec::new() }
    }

    fn find(&self, key: &String) -> (index: Option<usize>)
        requires
            self.wf(),
        ensures
            match index {
                Some(i) => i < self.keys@.len() && self.keys@[i as int]@ == key@,
                None => forall|i: int|
                    0 <= i < self.keys@.len() ==> #[trigger] self.keys@[i]@ != key@,
            },
    {
        let mut i: usize = 0;
        while i < self.keys.len()
            invariant
                i <= self.keys@.len(),
                forall|j: int| 0 <= j < i ==> #[trigger] self.keys@[j]@ != key@,
            decreases self.keys.len() - i,
        {
            if self.keys[i] == *key {
                return Some(i);
            }
            i = i + 1;
        }
        None
    }

    proof fn lemma_count_at(&self, i: int)
        requires
            self.wf(),
            0 <= i < self.keys@.len(),
        ensures
            self.count(self.keys@[i]@) == self.counts@[i].consecutive,
    {
        let key = self.keys@[i]@;
        assert(self.keys@[i]@ == key);
        let k = choose|k: int| 0 <= k < self.keys@.len() && #[trigger] self.keys@[k]@ == key;
        if k != i {
            if k < i {
                assert(self.keys@[k]@ != self.keys@[i]@);
            } else {
                assert(self.keys@[i]@ != self.keys@[k]@);
            }
        }
    }

    /// Adds one failure for `key` and gives the new count.
    fn record(&mut self, key: &str) -> (consecutive: u32)
        requires
            old(self).wf(),
        ensures
            final(self).wf(),
            consecutive == final(self).count(key@),
            final(self).count(key@) == incremented(old(self).count(key@)),
            forall|other: Seq<char>|
                other != key@ ==> #[trigger] final(self).count(other) == old(self).count(other),
    {
        let key_text = key.to_owned();
        let consecutive: u32;
        match self.find(&key_text) {
            Some(i) => {
                proof {
                    self.lemma_count_at(i as int);
                }
                let current = self.counts[i].consecutive;
                consecutive = current.saturating_add(1);
                let ghost before = *self;
                self.counts.set(i, FailedLogins { consecutive });
                proof {
                    assert(self.wf());
                    self.lemma_count_at(i as int);
                    assert forall|other: Seq<char>| other != key@ implies #[trigger] self.count(
                        other,
                    ) == before.count(other) by {
                        if exists|k: int| 0 <= k < self.keys@.len() && #[trigger] self.keys@[k]@ == other {
                            let k = choose|k: int| 0 <= k < self.keys@.len() && #[trigger] self.keys@[k]@ == other;
                            self.lemma_count_at(k);
                            before.lemma_count_at(k);
                        }
                    }
                }
            },
            None => {
                consecutive = 1;
                let ghost before = *self;
                self.keys.push(key_text);
                self.counts.push(FailedLogins { consecutive });
                proof {
                    let n = before.keys@.len() as int;
                    assert(self.wf());
                    self.lemma_count_at(n);
                    assert forall|other: Seq<char>| other != key@ implies #[trigger] self.count(
                        other,
                    ) == before.count(other) by {
                        if exists|k: int| 0 <= k < self.keys@.len() && #[trigger] self.keys@[k]@ == other {
                            let k = choose|k: int| 0 <= k < self.keys@.len() && #[trigger] self.keys@[k]@ == other;
                            self.lemma_count_at(k);
                            assert(k < n);
                            assert(self.keys@[k] == before.keys@[k]);
                            before.lemma_count_at(k);
                        } else {
                            if exists|k: int| 0 <= k < before.keys@.len() && #[trigger] before.keys@[k]@ == other {
                                let k = choose|k: int| 0 <= k < before.keys@.len() && #[trigger] before.keys@[k]@ == other;
                                assert(self.keys@[k] == before.keys@[k]);
                            }
                        }
                    }
                }
            },
        }
        consecutive
    }

    /// Forgets the failures of `key`.
    fn reset(&mut self, key: &str)
        requires
            old(self).wf(),
        ensures
            final(self).wf(),
            final(self).count(key@) == 0,
            forall|other: Seq<char>|
                other != key@ ==> #[trigger] final(self).count(other) == old(self).count(other),
    {
        let key_text = key.to_owned();
        if let Some(i) = self.find(&key_text) {
            let ghost before = *self;
            self.keys.remove(i);
            self.counts.remove(i);
            proof {
                assert(self.wf()) by {
                    assert forall|a: int, b: int|
                        0 <= a < b < self.keys@.len() implies #[trigger] self.keys@[a]@
                        != #[trigger] self.keys@[b]@ by {
                        let a0 = if a < i { a } else { a + 1 };
                        let b0 = if b < i { b } else { b + 1 };
                        assert(self.keys@[a] == before.keys@[a0]);
                        assert(self.keys@[b] == before.keys@[b0]);
                    }
                }
                assert forall|k: int| 0 <= k < self.keys@.len() implies #[trigger] self.keys@[k]@ != key@ by {
                    let k0 = if k < i { k } else { k + 1 };
                    assert(self.keys@[k] == before.keys@[k0]);
                    if k0 < i {
                        assert(before.keys@[k0]@ != before.keys@[i as int]@);
                    } else {
                        assert(before.keys@[i as int]@ != before.keys@[k0]@);
                    }
                }
                assert forall|other: Seq<char>| other != key@ implies #[trigger] self.count(
                    other,
                ) == before.count(other) by {
                    if exists|k: int| 0 <= k < self.keys@.len() && #[trigger] self.keys@[k]@ == other {
                        let k = choose|k: int| 0 <= k < self.keys@.len() && #[trigger] self.keys@[k]@ == other;
                        let k0 = if k < i { k } else { k + 1 };
                        assert(self.keys@[k] == before.keys@[k0]);
                        assert(self.counts@[k] == before.counts@[k0]);
                        self.lemma_count_at(k);
                        before.lemma_count_at(k0);
                    } else {
                        if exists|k: int| 0 <= k < before.keys@.len() && #[trigger] before.keys@[k]@ == other {
                            let k0 = choose|k: int| 0 <= k < before.keys@.len() && #[trigger] before.keys@[k]@ == other;
                            if k0 != i {
                                let k = if k0 < i { k0 } else { k0 - 1 };
                                assert(self.keys@[k] == before.keys@[k0]);
                            }
                        }
                    }
                }
            }
        }
    }
}

/// The in-process state of the authentication service: the active session and
/// the consecutive failed log-ins per identifier.
#[derive(Debug)]
pub struct AuthService {
    active_session: Option<ActiveSession>,
    failed: FailedLoginTable,
}

impl AuthService {
    /// The table of failed log-ins holds each identifier once.
    #[verifier::type_invariant]
    spec fn failures_well_formed(self) -> bool {
        self.failed.wf()
    }

    /// Consecutive failed log-ins recorded for `key`, zero when none.
    pub closed spec fn failure_count(&self, key: Seq<char>) -> u32 {
        self.failed.count(key)
    }

    /// The id and secret of the active session, if any.
    pub closed spec fn session(&self) -> Option<(Seq<char>, Seq<char>)> {
        match self.active_session {
            Some(s) => Some((s.id@, s.secret@)),
            None => None,
        }
    }

    pub fn new() -> (service: Self)
        ensures
            service.session() is None,
            forall|key: Seq<char>| service.failure_count(key) == 0,
    {
        AuthService { active_session: None, failed: FailedLoginTable::empty() }
    }

    /// Records one more failed log-in for `key` and tells how long the caller
    /// must wait before answering, in seconds.
    pub fn record_failed_attempt(&mut self, key: &str) -> (delay: Result<Option<u64>, AppError>)
        ensures
            final(self).session() == old(self).session(),
            final(self).failure_count(key@) == incremented(old(self).failure_count(key@)),
            forall|other: Seq<char>|
                other != key@ ==> #[trigger] final(self).failure_count(other) == old(
                    self,
                ).failure_count(other),
            delay == Ok::<Option<u64>, AppError>(
                progressive_delay_secs(final(self).failure_count(key@)),
            ),
    {
        proof {
            use_type_invariant(&*self);
        }
        let mut table = FailedLoginTable::empty();
        std::mem::swap(&mut table, &mut self.failed);
        let consecutive = table.record(key);
        self.failed = table;
        if consecutive < 4 {
            return Ok(None);
        }
        let exponent = consecutive.saturating_sub(4);
        let exponent = if exponent < 4 {
            exponent
        } else {
            4
        };
        let power: u64 = if exponent == 0 {
            1
        } else if exponent == 1 {
            2
        } else if exponent == 2 {
            4
        } else if exponent == 3 {
            8
        } else {
            16
        };
        proof {
            reveal_with_fuel(pow2_nat, 5);
        }
        let seconds = if power < 30 {
            power
        } else {
            30
        };
        Ok(Some(seconds))
    }

    /// Forgets the failed log-ins of `key` after a successful log-in.
    pub fn reset_failed_attempt(&mut self, key: &str) -> (result: Result<(), AppError>)
        ensures
            final(self).session() == old(self).session(),
            final(self).failure_count(key@) == 0,
            forall|other: Seq<char>|
                other != key@ ==> #[trigger] final(self).failure_count(other) == old(
                    self,
                ).failure_count(other),
            result is Ok,
    {
        proof {
            use_type_invariant(&*self);
        }
        let mut table = FailedLoginTable::empty();
        std::mem::swap(&mut table, &mut self.failed);
        table.reset(key);
        self.failed = table;
        Ok(())
    }

    /// Makes `session` the active session of this process.
    pub fn set_active_session(&mut self, session: ActiveSession) -> (result: Result<(), AppError>)
        ensures
            final(self).session() == Some((session.id@, session.secret@)),
            forall|key: Seq<char>| #[trigger] final(self).failure_count(key) == old(self).failure_count(key),
            result is Ok,
    {
        proof {
            use_type_invariant(&*self);
        }
        self.active_session = Some(session);
        Ok(())
    }

    /// Removes the active session of this process and hands it back.
    pub fn take_active_session(&mut self) -> (taken: Result<Option<ActiveSession>, AppError>)
        ensures
            final(self).session() is None,
            forall|key: Seq<char>| #[trigger] final(self).failure_count(key) == old(self).failure_count(key),
            taken matches Ok(t) && match t {
                Some(s) => old(self).session() == Some((s.id@, s.secret@)),
                None => old(self).session() is None,
            },
    {
        proof {
            use_type_invariant(&*self);
        }
        let mut taken = None;
        std::mem::swap(&mut taken, &mut self.active_session);
        Ok(taken)
    }

    /// A copy of the active session, or the "session required" error.
    pub fn current_session(&self) -> (session: Result<ActiveSession, AppError>)
        ensures
            match session {
                Ok(s) => self.session() == Some((s.id@, s.secret@)),
                Err(e) => self.session() is None && e.is(
                    session_required_code(),
                    session_required_message(),
                ),
            },
    {
        match &self.active_session {
            Some(s) => Ok(s.duplicate()),
            None => Err(session_required()),
        }
    }
}

// ---------------------------------------------------------------------------
// Identities and log-in
// ---------------------------------------------------------------------------

/// The identity the interface may see of a stored user.
pub fn identity(user: &UserRecord) -> (id: UserIdentity)
    ensures
        id.id@ == user.id@,
        id.username@ == user.username@,
        id.display_name@ == user.display_name@,
        id.role == user.role,
        id.must_change_password == user.must_change_password,
{
    UserIdentity {
        id: user.id.clone(),
        username: user.username.clone(),
        display_name: user.display_name.clone(),
        role: user.role,
        must_change_password: user.must_change_password,
    }
}

/// The identifier under which failed log-ins are counted: the user name
/// trimmed and ASCII lower-cased, whether or not it is a valid user name.
pub fn login_key(username: &str) -> (key: String)
    ensures
        key@ == ascii_lowercase(trim(username@)),
{
    let chars = str_chars(username);
    let trimmed = trim_chars(&chars);
    let lowered = ascii_lowercase_chars(&trimmed);
    string_from_chars(lowered.as_slice())
}

/// The user name to look up for a log-in, or none when the given name cannot
/// be a valid user name (then no user matches).
pub fn login_lookup_name(username: &str) -> (name: Option<String>)
    ensures
        name is Some <==> is_valid_username(normalized_username(username@)),
        name matches Some(n) ==> n@ == normalized_username(username@),
{
    match normalize_username(username) {
        Ok(name) => Some(name),
        Err(_) => None,
    }
}

/// The stored user exists, is active, and the password matches its hash.
pub open spec fn credentials_match(user: Option<&UserRecord>, password: Seq<char>) -> bool {
    match user {
        Some(u) => u.active && password_length_ok(password) && argon2_phc_check(
            password,
            u.password_hash@,
        ) == Some(true),
        None => false,
    }
}

pub fn credentials_accepted(user: Option<&UserRecord>, password: &str) -> (accepted: bool)
    ensures
        accepted == credentials_match(user, password@),
{
    match user {
        Some(u) => {
            if u.active {
                match verify_password(password, u.password_hash.as_str()) {
                    Ok(matches) => matches,
                    Err(_) => false,
                }
            } else {
                false
            }
        },
        None => false,
    }
}

/// A refused log-in: how long to wait before answering, and the answer.
#[derive(Clone, Debug)]
pub struct LoginRejection {
    pub delay_secs: Option<u64>,
    pub error: AppError,
}

impl AuthService {
    /// Decides a log-in attempt for `username` with `password`, given the
    /// user that the look-up found. An accepted attempt clears the failure
    /// count of the identifier; a refused one adds to it and always gets the
    /// same error, whatever the reason.
    pub fn login_verdict(&mut self, username: &str, user: Option<&UserRecord>, password: &str) -> (verdict: Result<(), LoginRejection>)
        ensures
            final(self).session() == old(self).session(),
            verdict is Ok <==> credentials_match(user, password@),
            user matches Some(u) && u.active && password_length_ok(password@) && argon2_phc_check(
                password@,
                u.password_hash@,
            ) == Some(true) ==> verdict is Ok,
            ({
                let key = ascii_lowercase(trim(username@));
                &&& verdict is Ok ==> final(self).failure_count(key) == 0
                &&& verdict is Err ==> final(self).failure_count(key) == incremented(
                    old(self).failure_count(key),
                )
                &&& forall|other: Seq<char>|
                    other != key ==> #[trigger] final(self).failure_count(other) == old(
                        self,
                    ).failure_count(other)
            }),
            verdict matches Err(rejection) ==> {
                &&& rejection.error.is(invalid_credentials_code(), invalid_credentials_message())
                &&& rejection.delay_secs == progressive_delay_secs(
                    final(self).failure_count(ascii_lowercase(trim(username@))),
                )
            },
    {
        let key = login_key(username);
        if credentials_accepted(user, password) {
            let _ = self.reset_failed_attempt(key.as_str());
            Ok(())
        } else {
            let delay = self.record_failed_attempt(key.as_str());
            let delay_secs = match delay {
                Ok(d) => d,
                Err(_) => None,
            };
            Err(LoginRejection { delay_secs, error: invalid_credentials() })
        }
    }
}

/// An existing active user whose password has an acceptable length and
/// verifies against the stored hash is accepted, whatever the role and
/// whether a temporary password still has to be changed; together with the
/// next law, these three conditions are exactly what acceptance takes.
pub proof fn law_verified_active_users_are_accepted(user: &UserRecord, password: Seq<char>)
    requires
        user.active,
        password_length_ok(password),
        argon2_phc_check(password, user.password_hash@) == Some(true),
    ensures
        credentials_match(Some(user), password),
{
}

/// An unknown user, an inactive user and a wrong password are refused with
/// the same error.
pub proof fn law_refused_logins_look_alike(
    username: Seq<char>,
    user: Option<&UserRecord>,
    password: Seq<char>,
)
    ensures
        user is None ==> !credentials_match(user, password),
        user matches Some(u) && !u.active ==> !credentials_match(user, password),
        user matches Some(u) && argon2_phc_check(password, u.password_hash@) != Some(true)
            ==> !credentials_match(user, password),
{
}

// ---------------------------------------------------------------------------
// Authorization
// ---------------------------------------------------------------------------

/// Administration needs a final password and the `ADMIN` role.
pub fn admin_access(user: &UserRecord) -> (result: Result<(), AppError>)
    ensures
        result is Ok <==> !user.must_change_password && user.role == UserRole::Admin,
        user.must_change_password ==> failed_with(
            result,
            password_change_required_code(),
            password_change_required_message(),
        ),
        !user.must_change_password && user.role != UserRole::Admin ==> failed_with(
            result,
            forbidden_code(),
            forbidden_message(),
        ),
{
    if user.must_change_password {
        return Err(
            AppError::new(
                "AUTH_PASSWORD_CHANGE_REQUIRED",
                "Debes cambiar tu contraseña antes de continuar.",
                "temporary password session attempted an administrative operation",
            ),
        );
    }
    if user.role != UserRole::Admin {
        return Err(
            AppError::new(
                "AUTH_FORBIDDEN",
                "No tienes permisos para realizar esta operación.",
                "user role is not ADMIN",
            ),
        );
    }
    Ok(())
}

// ---------------------------------------------------------------------------
// Passwords
// ---------------------------------------------------------------------------

/// Checks a request to change `user`'s own password and hashes the new one.
/// A user who must change a temporary password needs no current password;
/// anyone else must give a current password that matches the stored hash. The
/// new password must be acceptable and differ from the current one.
pub fn prepare_password_change(
    user: &UserRecord,
    current_password: Option<&str>,
    new_password: &str,
) -> (new_hash: Result<String, AppError>)
    ensures
        new_hash matches Ok(h) ==> hash_password_produced(new_password@, h@),
        new_hash matches Ok(_) ==> argon2_phc_check(new_password@, user.password_hash@) == Some(
            false,
        ),
        !user.must_change_password && current_password is None ==> failed_with(
            new_hash,
            password_validation_code(),
            current_password_required_message(),
        ),
        !user.must_change_password && (current_password matches Some(c) && !(password_length_ok(
            c@,
        ) && argon2_phc_check(c@, user.password_hash@) == Some(true))) ==> failed_with(
            new_hash,
            password_validation_code(),
            current_password_invalid_message(),
        ),
        new_hash is Ok ==> (!user.must_change_password ==> (current_password matches Some(c)
            && password_length_ok(c@) && argon2_phc_check(c@, user.password_hash@) == Some(true))),
        (user.must_change_password || (current_password matches Some(c) && password_length_ok(
            c@,
        ) && argon2_phc_check(c@, user.password_hash@) == Some(true))) ==> {
            &&& !password_length_ok(new_password@) ==> failed_with(
                new_hash,
                password_validation_code(),
                password_length_message(),
            )
            &&& password_length_ok(new_password@) ==> match argon2_phc_check(
                new_password@,
                user.password_hash@,
            ) {
                None => failed_with(new_hash, internal_code(), internal_message()),
                Some(true) => failed_with(
                    new_hash,
                    password_validation_code(),
                    password_reuse_message(),
                ),
                Some(false) => new_hash is Ok,
            }
        },
        new_hash matches Ok(h) ==> argon2id_phc_prefix(
            ARGON2_MEMORY_KIB,
            ARGON2_TIME_COST,
            ARGON2_PARALLELISM,
        ).is_prefix_of(h@),
        new_hash matches Ok(h) ==> h@ != user.password_hash@,
{
    if !user.must_change_password {
        let current = match current_password {
            Some(c) => c,
            None => {
                return Err(password_validation("La contraseña actual es obligatoria."));
            },
        };
        let matches = match verify_password(current, user.password_hash.as_str()) {
            Ok(m) => m,
            Err(_) => false,
        };
        if !matches {
            return Err(password_validation("La contraseña actual no es válida."));
        }
    }
    validate_new_password(new_password, Some(user.password_hash.as_str()))
}

/// A fresh temporary password and the hash to store for it. A temporary
/// password always has an acceptable length, so issuing one always succeeds.
pub fn issue_temporary_password() -> (issued: Result<(TemporaryPassword, String), AppError>)
    ensures
        issued is Ok,
        issued matches Ok((password, hash)) ==> {
            &&& password@.len() == TEMPORARY_PASSWORD_LENGTH
            &&& forall|i: int|
                0 <= i < password@.len() ==> is_ascii_alphanumeric(#[trigger] password@[i])
            &&& hash_password_produced(password@, hash@)
            &&& argon2id_phc_prefix(ARGON2_MEMORY_KIB, ARGON2_TIME_COST, ARGON2_PARALLELISM).is_prefix_of(hash@)
        },
{
    let password = generate_temporary_password();
    let hash = hash_password(password.expose_once())?;
    Ok((password, hash))
}

// ---------------------------------------------------------------------------
// User administration
// ---------------------------------------------------------------------------

/// The normalized user name and display name for a new user.
pub fn prepare_user_creation(username: &str, display_name: &str) -> (names: Result<
    (String, String),
    AppError,
>)
    ensures
        names is Ok <==> is_valid_username(normalized_username(username@))
            && is_valid_display_name(trim(display_name@)),
        names matches Ok((u, d)) ==> u@ == normalized_username(username@) && d@ == trim(
            display_name@,
        ),
        names matches Err(e) ==> is_user_validation_error(e),
{
    let username = normalize_username(username)?;
    let display_name = normalize_display_name(display_name)?;
    Ok((username, display_name))
}

/// Checks an edit of user `user_id` by `admin`: the names must be valid, and
/// an administrator may not change their own user name or role.
pub fn prepare_user_update(
    admin: &UserRecord,
    user_id: &str,
    username: &str,
    display_name: &str,
    role: UserRole,
) -> (names: Result<(String, String), AppError>)
    ensures
        names is Ok <==> {
            &&& is_valid_username(normalized_username(username@))
            &&& is_valid_display_name(trim(display_name@))
            &&& !(admin.id@ == user_id@ && (admin.username@ != normalized_username(username@)
                || admin.role != role))
        },
        names matches Ok((u, d)) ==> u@ == normalized_username(username@) && d@ == trim(
            display_name@,
        ),
        names matches Err(e) ==> is_user_validation_error(e) || e.is(
            self_management_code(),
            self_management_message(),
        ),
        is_valid_username(normalized_username(username@)) && is_valid_display_name(
            trim(display_name@),
        ) && names is Err ==> failed_with(names, self_management_code(), self_management_message()),
{
    let username = normalize_username(username)?;
    let display_name = normalize_display_name(display_name)?;
    let same_user = admin.id.as_str().to_owned() == user_id.to_owned();
    if same_user && (admin.username != username || admin.role != role) {
        return Err(self_management_error());
    }
    Ok((username, display_name))
}

/// An administrator may not deactivate, reactivate or reset themselves.
pub fn ensure_not_self(admin: &UserRecord, user_id: &str) -> (result: Result<(), AppError>)
    ensures
        result is Ok <==> admin.id@ != user_id@,
        result matches Err(e) ==> e.is(self_management_code(), self_management_message()),
{
    if admin.id.as_str().to_owned() == user_id.to_owned() {
        return Err(self_management_error());
    }
    Ok(())
}

/// The administrator guard for an edit that gives `target` the role `role`
/// and keeps its active flag.
pub fn guard_user_update(active_admin_count: u64, target: &UserRecord, role: UserRole) -> (result:
    Result<(), AppError>)
    ensures
        result is Ok <==> admin_guard_allows(
            active_admin_count as int,
            target.active && target.role == UserRole::Admin,
            role,
            target.active,
        ),
        result matches Err(e) ==> is_last_admin_error(e),
{
    ensure_active_admin_remains(
        active_admin_count,
        target.active && target.role == UserRole::Admin,
        role,
        target.active,
    )
}

/// The administrator guard for activating or deactivating `target`, which
/// keeps its role.
pub fn guard_status_change(active_admin_count: u64, target: &UserRecord, active: bool) -> (result:
    Result<(), AppError>)
    ensures
        result is Ok <==> admin_guard_allows(
            active_admin_count as int,
            target.active && target.role == UserRole::Admin,
            target.role,
            active,
        ),
        result matches Err(e) ==> is_last_admin_error(e),
{
    ensure_active_admin_remains(
        active_admin_count,
        target.active && target.role == UserRole::Admin,
        target.role,
        active,
    )
}

/// An edit revokes the target's sessions when it changes the role or the
/// user name.
pub fn update_revokes_sessions(target: &UserRecord, role: UserRole, username: &str) -> (revoke:
    bool)
    ensures
        revoke == (target.role != role || target.username@ != username@),
{
    target.role != role || target.username.as_str().to_owned() != username.to_owned()
}

/// Decides an edit of a user once the transaction has read the target row
/// and the number of active administrators: a missing user is not found;
/// otherwise the last-administrator guard decides, and an allowed edit says
/// whether it also revokes the target's sessions.
pub fn plan_user_update(
    target: Option<&UserRecord>,
    active_admin_count: u64,
    role: UserRole,
    username: &str,
) -> (revoke: Result<bool, AppError>)
    ensures
        match target {
            None => failed_with(revoke, user_not_found_code(), user_not_found_message()),
            Some(t) => {
                &&& revoke is Ok <==> admin_guard_allows(
                    active_admin_count as int,
                    t.active && t.role == UserRole::Admin,
                    role,
                    t.active,
                )
                &&& revoke matches Err(e) ==> is_last_admin_error(e)
                &&& revoke matches Ok(r) ==> r == (t.role != role || t.username@ != username@)
            },
        },
{
    match target {
        None => Err(user_not_found()),
        Some(t) => {
            guard_user_update(active_admin_count, t, role)?;
            Ok(update_revokes_sessions(t, role, username))
        },
    }
}

/// Decides an activation or deactivation once the transaction has read the
/// target row and the number of active administrators: a missing user is not
/// found; otherwise the last-administrator guard decides.
pub fn plan_status_change(
    target: Option<&UserRecord>,
    active_admin_count: u64,
    active: bool,
) -> (allowed: Result<(), AppError>)
    ensures
        match target {
            None => failed_with(allowed, user_not_found_code(), user_not_found_message()),
            Some(t) => {
                &&& allowed is Ok <==> admin_guard_allows(
                    active_admin_count as int,
                    t.active && t.role == UserRole::Admin,
                    t.role,
                    active,
                )
                &&& allowed matches Err(e) ==> is_last_admin_error(e)
            },
        },
{
    match target {
        None => Err(user_not_found()),
        Some(t) => guard_status_change(active_admin_count, t, active),
    }
}

/// A failed insert or update whose technical text mentions a unique
/// constraint (in any letter case) is a duplicate user name; any other error
/// stays as it is.
pub fn classify_write_error(error: AppError) -> (classified: AppError)
    ensures
        contains_infix(ascii_lowercase(error.technical_text()), "unique"@) ==> classified.is(
            username_exists_code(),
            username_exists_message(),
        ),
        !contains_infix(ascii_lowercase(error.technical_text()), "unique"@) ==> classified
            == error,
{
    let technical = str_chars(error.technical());
    let lowered = ascii_lowercase_chars(&technical);
    let needle = str_chars("unique");
    if contains_chars(&lowered, &needle) {
        username_exists()
    } else {
        error
    }
}

// ---------------------------------------------------------------------------
// Stored rows
// ---------------------------------------------------------------------------

/// A stored user from its columns: the role must be a known role name, and a
/// non-zero flag is true.
pub fn user_from_row(
    id: String,
    username: String,
    display_name: String,
    password_hash: String,
    role: &str,
    active: i64,
    must_change_password: i64,
) -> (user: Result<UserRecord, AppError>)
    ensures
        user is Ok <==> (role@ == "ADMIN"@ || role@ == "WAREHOUSE_MANAGER"@),
        user matches Ok(u) ==> {
            &&& u.id@ == id@
            &&& u.username@ == username@
            &&& u.display_name@ == display_name@
            &&& u.password_hash@ == password_hash@
            &&& role_name(u.role) == role@
            &&& u.active == (active != 0)
            &&& u.must_change_password == (must_change_password != 0)
        },
        user matches Err(e) ==> is_user_validation_error(e),
{
    let role = UserRole::parse(role)?;
    Ok(
        UserRecord {
            id,
            username,
            display_name,
            password_hash,
            role,
            active: active != 0,
            must_change_password: must_change_password != 0,
        },
    )
}

/// A listed user from its columns.
pub fn admin_user_from_row(
    id: String,
    username: String,
    display_name: String,
    role: &str,
    active: i64,
    created_at: i64,
    updated_at: i64,
) -> (user: Result<AdminUser, AppError>)
    ensures
        user is Ok <==> (role@ == "ADMIN"@ || role@ == "WAREHOUSE_MANAGER"@),
        user matches Ok(u) ==> {
            &&& u.id@ == id@
            &&& u.username@ == username@
            &&& u.display_name@ == display_name@
            &&& role_name(u.role) == role@
            &&& u.active == (active != 0)
            &&& u.created_at == created_at
            &&& u.updated_at == updated_at
        },
        user matches Err(e) ==> is_user_validation_error(e),
{
    let role = UserRole::parse(role)?;
    Ok(AdminUser { id, username, display_name, role, active: active != 0, created_at, updated_at })
}

/// A user row to insert, column by column.
#[derive(Clone, Debug)]
pub struct NewUserRow {
    pub id: String,
    pub username: String,
    pub display_name: String,
    pub password_hash: String,
    pub role: UserRole,
    pub active: bool,
    pub must_change_password: bool,
    pub bootstrap_pending: bool,
    pub created_at: i64,
    pub updated_at: i64,
}

/// The first administrator of an installation: user name `admin`, display
/// name `Administrador`, an active administrator who must change the
/// temporary password, with the bootstrap still pending.
pub fn initial_admin_row(id: String, password_hash: String, now: i64) -> (row: NewUserRow)
    ensures
        row.id == id,
        row.username@ == "admin"@,
        row.display_name@ == "Administrador"@,
        row.password_hash == password_hash,
        row.role == UserRole::Admin,
        row.active,
        row.must_change_password,
        row.bootstrap_pending,
        row.created_at == now,
        row.updated_at == now,
{
    NewUserRow {
        id,
        username: "admin".to_owned(),
        display_name: "Administrador".to_owned(),
        password_hash,
        role: UserRole::Admin,
        active: true,
        must_change_password: true,
        bootstrap_pending: true,
        created_at: now,
        updated_at: now,
    }
}

/// A user that an administrator creates: active, with a temporary password to
/// change, and no bootstrap pending.
pub fn created_user_row(
    id: String,
    username: String,
    display_name: String,
    password_hash: String,
    role: UserRole,
    now: i64,
) -> (row: NewUserRow)
    ensures
        row.id == id,
        row.username == username,
        row.display_name == display_name,
        row.password_hash == password_hash,
        row.role == role,
        row.active,
        row.must_change_password,
        !row.bootstrap_pending,
        row.created_at == now,
        row.updated_at == now,
{
    NewUserRow {
        id,
        username,
        display_name,
        password_hash,
        role,
        active: true,
        must_change_password: true,
        bootstrap_pending: false,
        created_at: now,
        updated_at: now,
    }
}

// ---------------------------------------------------------------------------
// Sessions
// ---------------------------------------------------------------------------

/// Everything a new session consists of: its id, its secret (kept by the
/// process and the credential store), the hash stored in the database and its
/// validity window in Unix milliseconds.
#[derive(Clone, Debug)]
pub struct SessionPlan {
    pub session_id: String,
    pub secret: SessionSecret,
    pub token_hash: String,
    pub created_at: i64,
    pub expires_at: i64,
}

/// Prepares a session created at `now`. The database stores only the hash of
/// the secret; the session expires exactly seven days later.
pub fn plan_session(now: i64) -> (plan: Result<SessionPlan, AppError>)
    ensures
        plan is Ok <==> now + SESSION_LIFETIME_MILLIS <= i64::MAX,
        plan matches Ok(p) ==> {
            &&& is_hyphenated_v4_uuid(p.session_id@)
            &&& p.secret@.len() == 64
            &&& exists|bytes: Seq<u8>| bytes.len() == 32 && p.secret@ == hex_lower(bytes)
            &&& p.token_hash@ == session_secret_hash(p.secret@)
            &&& p.created_at == now
            &&& p.expires_at == now + SESSION_LIFETIME_MILLIS
        },
        plan matches Err(e) ==> is_internal_error(e),
{
    let secret = generate_session_secret();
    let session_id = new_uuid();
    let expires_at = session_expiry(now)?;
    let token_hash = hash_session_secret(&secret);
    Ok(SessionPlan { session_id, secret, token_hash, created_at: now, expires_at })
}

impl AuthService {
    /// Makes a freshly stored session the active one and reports whether the
    /// credential store kept its secret (a failure to keep it is a warning,
    /// never an insecure fallback).
    pub fn finish_session(
        &mut self,
        session_id: String,
        secret: SessionSecret,
        user: &UserRecord,
        saved: &Result<(), String>,
    ) -> (result: AuthResult)
        ensures
            final(self).session() == Some((session_id@, secret@)),
            forall|key: Seq<char>| #[trigger] final(self).failure_count(key) == old(self).failure_count(key),
            result.persistence_warning == saved is Err,
            result.identity.id@ == user.id@,
            result.identity.username@ == user.username@,
            result.identity.display_name@ == user.display_name@,
            result.identity.role == user.role,
            result.identity.must_change_password == user.must_change_password,
    {
        let persistence_warning = match saved {
            Ok(()) => false,
            Err(_) => true,
        };
        let _ = self.set_active_session(ActiveSession { id: session_id, secret });
        AuthResult { identity: identity(user), persistence_warning }
    }

    /// Judges the active session by the user row that the database returned
    /// for it (none when it is expired, revoked, or its user is inactive). A
    /// session that no longer holds is dropped; the caller then also deletes
    /// the remembered credential.
    pub fn validate_session_row(&mut self, row: Option<UserRecord>) -> (user: Result<
        UserRecord,
        AppError,
    >)
        ensures
            forall|key: Seq<char>| #[trigger] final(self).failure_count(key) == old(self).failure_count(key),
            user is Ok <==> row is Some,
            user is Ok ==> final(self).session() == old(self).session(),
            user is Err ==> final(self).session() is None,
            user matches Err(e) ==> e.is(session_expired_code(), session_expired_message()),
            user matches Ok(u) ==> row == Some(u),
    {
        match row {
            Some(u) => Ok(u),
            None => {
                let _ = self.take_active_session();
                Err(session_expired())
            },
        }
    }
}

/// What the credential store's `load` gives: the remembered secret, if any,
/// and whether the store failed (then nothing is remembered and the interface
/// is warned).
pub fn remembered_secret(load: Result<Option<String>, String>) -> (remembered: (
    Option<String>,
    bool,
))
    ensures
        remembered.1 == load is Err,
        match load {
            Ok(secret) => remembered.0 == secret,
            Err(_) => remembered.0 is None,
        },
{
    match load {
        Ok(secret) => (secret, false),
        Err(_) => (None, true),
    }
}

// ---------------------------------------------------------------------------
// Start-up
// ---------------------------------------------------------------------------

/// The first start of an installation creates the administrator.
pub fn needs_initial_admin(user_count: i64) -> (needed: bool)
    ensures
        needed == needs_initial_admin_spec(user_count),
{
    user_count == 0
}

/// `id` is the identity of `user`.
pub open spec fn is_identity_of(id: UserIdentity, user: UserRecord) -> bool {
    &&& id.id@ == user.id@
    &&& id.username@ == user.username@
    &&& id.display_name@ == user.display_name@
    &&& id.role == user.role
    &&& id.must_change_password == user.must_change_password
}

/// The answer shows `user` and, once, the temporary password `password`.
pub open spec fn is_bootstrap_answer(a: AuthStartup, user: UserRecord, password: Seq<char>) -> bool {
    &&& a.state@ == "bootstrap"@
    &&& a.identity matches Some(id) && is_identity_of(id, user)
    &&& a.temporary_password matches Some(p) && p@ == password
    &&& !a.persistence_warning
}

/// The answer restores `user`'s remembered session.
pub open spec fn is_authenticated_answer(a: AuthStartup, user: UserRecord, warning: bool) -> bool {
    &&& a.state@ == "authenticated"@
    &&& a.identity matches Some(id) && is_identity_of(id, user)
    &&& a.temporary_password is None
    &&& a.persistence_warning == warning
}

/// The answer asks for a log-in.
pub open spec fn is_login_answer(a: AuthStartup, warning: bool) -> bool {
    &&& a.state@ == "login"@
    &&& a.identity is None
    &&& a.temporary_password is None
    &&& a.persistence_warning == warning
}

/// The start-up answer that shows a temporary administrator password once.
pub fn startup_bootstrap(user: &UserRecord, temporary_password: &TemporaryPassword) -> (startup:
    AuthStartup)
    ensures
        is_bootstrap_answer(startup, *user, temporary_password@),
{
    AuthStartup {
        state: "bootstrap",
        identity: Some(identity(user)),
        temporary_password: Some(temporary_password.expose_once().to_owned()),
        persistence_warning: false,
    }
}

/// The start-up answer after a remembered session was restored.
pub fn startup_authenticated(user: &UserRecord, persistence_warning: bool) -> (startup:
    AuthStartup)
    ensures
        is_authenticated_answer(startup, *user, persistence_warning),
{
    AuthStartup {
        state: "authenticated",
        identity: Some(identity(user)),
        temporary_password: None,
        persistence_warning,
    }
}

/// The start-up answer when a log-in is needed.
pub fn startup_login(persistence_warning: bool) -> (startup: AuthStartup)
    ensures
        is_login_answer(startup, persistence_warning),
{
    AuthStartup { state: "login", identity: None, temporary_password: None, persistence_warning }
}

/// What the start-up sequence has just learned.
pub enum StartupEvent {
    /// The sequence begins.
    Begin,
    /// The number of stored users.
    UsersCounted(i64),
    /// The first administrator was created with this temporary password.
    InitialAdminCreated(UserRecord, TemporaryPassword),
    /// The first administrator whose bootstrap was left pending, with a new
    /// temporary password; or none is pending.
    PendingBootstrapChecked(Option<(UserRecord, TemporaryPassword)>),
    /// The remembered session's user, if that session still holds, and
    /// whether the credential store failed.
    RememberedChecked(Option<UserRecord>, bool),
}

/// What the start-up sequence must do next.
pub enum StartupAction {
    CountUsers,
    CreateInitialAdmin,
    RotatePendingBootstrap,
    RestoreRemembered,
    Answer(AuthStartup),
}

/// The step that follows an event of the start-up sequence.
pub open spec fn startup_transition(event: StartupEvent, action: StartupAction) -> bool {
    match event {
        StartupEvent::Begin => action is CountUsers,
        StartupEvent::UsersCounted(n) => if needs_initial_admin_spec(n) {
            action is CreateInitialAdmin
        } else {
            action is RotatePendingBootstrap
        },
        StartupEvent::InitialAdminCreated(user, password) => action matches StartupAction::Answer(
            a,
        ) && is_bootstrap_answer(a, user, password@),
        StartupEvent::PendingBootstrapChecked(pending) => match pending {
            Some((user, password)) => action matches StartupAction::Answer(a)
                && is_bootstrap_answer(a, user, password@),
            None => action is RestoreRemembered,
        },
        StartupEvent::RememberedChecked(restored, warning) => match restored {
            Some(user) => action matches StartupAction::Answer(a) && is_authenticated_answer(
                a,
                user,
                warning,
            ),
            None => action matches StartupAction::Answer(a) && is_login_answer(a, warning),
        },
    }
}

pub open spec fn needs_initial_admin_spec(user_count: i64) -> bool {
    user_count == 0
}

/// One step of the start-up sequence: count the users; create the first
/// administrator only in an installation without users; otherwise renew a
/// pending bootstrap password, or else try the remembered session; answer.
pub fn startup_step(event: StartupEvent) -> (action: StartupAction)
    ensures
        startup_transition(event, action),
        event matches StartupEvent::UsersCounted(n) && n != 0 ==> action is RotatePendingBootstrap,
        action is RestoreRemembered ==> event matches StartupEvent::PendingBootstrapChecked(None),
{
    match event {
        StartupEvent::Begin => StartupAction::CountUsers,
        StartupEvent::UsersCounted(n) => {
            if needs_initial_admin(n) {
                StartupAction::CreateInitialAdmin
            } else {
                StartupAction::RotatePendingBootstrap
            }
        },
        StartupEvent::InitialAdminCreated(user, password) => StartupAction::Answer(
            startup_bootstrap(&user, &password),
        ),
        StartupEvent::PendingBootstrapChecked(pending) => match pending {
            Some((user, password)) => StartupAction::Answer(startup_bootstrap(&user, &password)),
            None => StartupAction::RestoreRemembered,
        },
        StartupEvent::RememberedChecked(restored, warning) => match restored {
            Some(user) => StartupAction::Answer(startup_authenticated(&user, warning)),
            None => StartupAction::Answer(startup_login(warning)),
        },
    }
}

/// The bootstrap is idempotent: the first administrator is created only when
/// no user exists, and once any user exists start-up never creates another.
pub proof fn law_bootstrap_only_on_empty_installation(event: StartupEvent, action: StartupAction)
    requires
        startup_transition(event, action),
    ensures
        action is CreateInitialAdmin ==> (event matches StartupEvent::UsersCounted(n) && n == 0),
{
}

/// Once any user exists, start-up first renews a pending bootstrap password,
/// and it tries the remembered session only after finding none pending.
pub proof fn law_pending_bootstrap_is_renewed_first(event: StartupEvent, action: StartupAction)
    requires
        startup_transition(event, action),
    ensures
        event matches StartupEvent::UsersCounted(n) && n != 0 ==> action is RotatePendingBootstrap,
        event matches StartupEvent::UsersCounted(n) && n == 0 ==> action is CreateInitialAdmin,
        action is RotatePendingBootstrap ==> (event matches StartupEvent::UsersCounted(n) && n
            != 0),
        action is RestoreRemembered ==> event matches StartupEvent::PendingBootstrapChecked(None),
{
}

} // verus!
