//! Authentication domain primitives: roles, identities, secrets, user-name and
//! password rules, password hashing, session lifetimes and the rule that keeps
//! at least one active administrator.
//!
//! Secrets live in types that the interface layer never serializes. Only the
//! identity types are meant to cross that boundary.

use vstd::prelude::*;
use vstd::string::*;
use vstd::utf8::encode_utf8;

use crate::errors::{failed_with, AppError};
use crate::logging::decimal;
use crate::text::{
    ascii_lowercase, ascii_lowercase_chars, hex_digit, hex_lower, is_ascii_alphanumeric,
    is_ascii_digit, law_ascii_lowercase_idempotent, law_ascii_lowercase_lowers, law_trim_idempotent, lemma_lowercase_of_trimmed,
    lemma_trim_ends, lemma_trim_lower_commute, str_chars, string_from_chars, trim, trim_chars,
};

use argon2::PasswordHasher as _;
use argon2::PasswordVerifier as _;
use rand::Rng as _;
use rand::RngCore as _;
use sha2::Digest as _;

verus! {

/// Seven days, in seconds.
pub const SESSION_LIFETIME_SECS: u64 = 604800;

/// Seven days, in milliseconds.
pub const SESSION_LIFETIME_MILLIS: i64 = 604800000;

pub const TEMPORARY_PASSWORD_LENGTH: usize = 32;

pub const ARGON2_MEMORY_KIB: u32 = 19456;

pub const ARGON2_TIME_COST: u32 = 2;

pub const ARGON2_PARALLELISM: u32 = 1;

pub const ARGON2_OUTPUT_LENGTH: usize = 32;

pub const PASSWORD_MIN_CHARS: usize = 12;

pub const PASSWORD_MAX_CHARS: usize = 128;

// ---------------------------------------------------------------------------
// Error shapes
// ---------------------------------------------------------------------------

pub open spec fn user_validation_code() -> Seq<char> {
    "USER_VALIDATION_FAILED"@
}

pub open spec fn user_validation_message() -> Seq<char> {
    "Los datos del usuario no son válidos."@
}

pub open spec fn password_validation_code() -> Seq<char> {
    "PASSWORD_VALIDATION_FAILED"@
}

pub open spec fn password_length_message() -> Seq<char> {
    "La contraseña debe tener entre 12 y 128 caracteres."@
}

pub open spec fn password_reuse_message() -> Seq<char> {
    "La nueva contraseña debe ser diferente de la actual."@
}

pub open spec fn internal_code() -> Seq<char> {
    "INTERNAL_ERROR"@
}

pub open spec fn internal_message() -> Seq<char> {
    "Ocurrió un error interno. Inténtalo nuevamente."@
}

pub open spec fn last_admin_code() -> Seq<char> {
    "LAST_ACTIVE_ADMIN_REQUIRED"@
}

pub open spec fn last_admin_message() -> Seq<char> {
    "Debe existir al menos un administrador activo."@
}

pub open spec fn is_user_validation_error(e: AppError) -> bool {
    e.is(user_validation_code(), user_validation_message())
}

pub open spec fn is_password_length_error(e: AppError) -> bool {
    e.is(password_validation_code(), password_length_message())
}

pub open spec fn is_password_reuse_error(e: AppError) -> bool {
    e.is(password_validation_code(), password_reuse_message())
}

pub open spec fn is_internal_error(e: AppError) -> bool {
    e.is(internal_code(), internal_message())
}

pub open spec fn is_last_admin_error(e: AppError) -> bool {
    e.is(last_admin_code(), last_admin_message())
}

fn user_validation_error(technical: &str) -> (e: AppError)
    ensures
        is_user_validation_error(e),
{
    AppError::new("USER_VALIDATION_FAILED", "Los datos del usuario no son válidos.", technical)
}

fn internal_security_error(technical: &str) -> (e: AppError)
    ensures
        is_internal_error(e),
{
    AppError::new("INTERNAL_ERROR", "Ocurrió un error interno. Inténtalo nuevamente.", technical)
}

// ---------------------------------------------------------------------------
// Roles and identities
// ---------------------------------------------------------------------------

#[derive(Clone, Copy, Debug, PartialEq, Eq, Structural)]
pub enum UserRole {
    Admin,
    WarehouseManager,
}

/// The stored and transmitted name of a role.
pub open spec fn role_name(role: UserRole) -> Seq<char> {
    match role {
        UserRole::Admin => "ADMIN"@,
        UserRole::WarehouseManager => "WAREHOUSE_MANAGER"@,
    }
}

impl UserRole {
    pub fn as_str(self) -> (name: &'static str)
        ensures
            name@ == role_name(self),
    {
        match self {
            UserRole::Admin => "ADMIN",
            UserRole::WarehouseManager => "WAREHOUSE_MANAGER",
        }
    }

    /// Reads a role from its stored name; any other text is a validation error.
    pub fn parse(value: &str) -> (result: Result<Self, AppError>)
        ensures
            result is Ok <==> (value@ == "ADMIN"@ || value@ == "WAREHOUSE_MANAGER"@),
            result matches Ok(role) ==> role_name(role) == value@,
            result matches Err(e) ==> is_user_validation_error(e),
    {
        let text = value.to_owned();
        if text == "ADMIN".to_owned() {
            Ok(UserRole::Admin)
        } else if text == "WAREHOUSE_MANAGER".to_owned() {
            Ok(UserRole::WarehouseManager)
        } else {
            Err(user_validation_error("role must be ADMIN or WAREHOUSE_MANAGER"))
        }
    }
}

/// Reading back the name of a role gives the role.
pub proof fn law_role_name_round_trip(role: UserRole)
    ensures
        role_name(role) == "ADMIN"@ || role_name(role) == "WAREHOUSE_MANAGER"@,
        forall|other: UserRole| role_name(other) == role_name(role) ==> other == role,
{
    reveal_strlit("ADMIN");
    reveal_strlit("WAREHOUSE_MANAGER");
    assert("ADMIN"@[0] != "WAREHOUSE_MANAGER"@[0]);
}

/// The identity of a user as the interface sees it.
#[derive(Clone, Debug, PartialEq, Eq)]
pub struct UserIdentity {
    pub id: String,
    pub username: String,
    pub display_name: String,
    pub role: UserRole,
    pub must_change_password: bool,
}

// ---------------------------------------------------------------------------
// Secrets
// ---------------------------------------------------------------------------

/// A secret intended for one controlled hand-off to the interface. It is never
/// serialized, logged or stored in the database.
#[derive(Clone, Debug, PartialEq, Eq)]
pub struct TemporaryPassword(String);

impl View for TemporaryPassword {
    type V = Seq<char>;

    closed spec fn view(&self) -> Seq<char> {
        self.0@
    }
}

impl TemporaryPassword {
    pub fn expose_once(&self) -> (text: &str)
        ensures
            text@ == self@,
    {
        self.0.as_str()
    }
}

/// An opaque session credential. Only its hash is persisted.
#[derive(Clone, Debug, PartialEq, Eq)]
pub struct SessionSecret(String);

impl View for SessionSecret {
    type V = Seq<char>;

    closed spec fn view(&self) -> Seq<char> {
        self.0@
    }
}

impl SessionSecret {
    pub fn expose_to_secure_store(&self) -> (text: &str)
        ensures
            text@ == self@,
    {
        self.0.as_str()
    }

    pub fn from_string(value: String) -> (secret: Self)
        ensures
            secret@ == value@,
    {
        SessionSecret(value)
    }
}

/// `s` is the hyphenated lower-case text of a version 4 UUID.
pub open spec fn is_hyphenated_v4_uuid(s: Seq<char>) -> bool {
    &&& s.len() == 36
    &&& forall|i: int|
        0 <= i < 36 ==> if i == 8 || i == 13 || i == 18 || i == 23 {
            s[i] == '-'
        } else {
            is_ascii_digit(#[trigger] s[i]) || ('a' <= s[i] <= 'f')
        }
    &&& s[14] == '4'
}

/// `Uuid::new_v4().to_string()` of the `uuid` crate: a random version 4 UUID in
/// its hyphenated lower-case text form. What random value it holds is not
/// stated.
#[verifier::external_body]
pub fn new_uuid() -> (id: String)
    ensures
        is_hyphenated_v4_uuid(id@),
{
    uuid::Uuid::new_v4().to_string()
}

/// `rng.sample(Alphanumeric)` of `rand` with the operating-system generator
/// `OsRng`: one byte out of `A`-`Z`, `a`-`z` and `0`-`9`. Which one is chance.
/// The generator panics if the operating system cannot supply randomness.
#[verifier::external_body]
fn random_alphanumeric() -> (byte: u8)
    ensures
        is_ascii_alphanumeric(byte as char),
{
    rand::rngs::OsRng.sample(rand::distributions::Alphanumeric)
}

/// `OsRng.fill_bytes` of `rand`: 32 bytes from the operating-system generator.
/// Their values are chance. The generator panics if the operating system
/// cannot supply randomness.
#[verifier::external_body]
fn random_bytes_32() -> (bytes: [u8; 32]) {
    let mut bytes = [0u8; 32];
    rand::rngs::OsRng.fill_bytes(&mut bytes);
    bytes
}

/// The temporary password that the drawn bytes spell, one character per byte.
pub fn temporary_password_from(draws: &[u8]) -> (password: TemporaryPassword)
    ensures
        password@.len() == draws@.len(),
        forall|i: int| 0 <= i < draws@.len() ==> #[trigger] password@[i] == draws@[i] as char,
{
    let mut chars: Vec<char> = Vec::new();
    let mut i: usize = 0;
    while i < draws.len()
        invariant
            i <= draws@.len(),
            chars@.len() == i,
            forall|j: int| 0 <= j < i ==> #[trigger] chars@[j] == draws@[j] as char,
        decreases draws@.len() - i,
    {
        chars.push(draws[i] as char);
        i = i + 1;
    }
    TemporaryPassword(string_from_chars(chars.as_slice()))
}

/// A random temporary password: 32 ASCII letters and digits.
pub fn generate_temporary_password() -> (password: TemporaryPassword)
    ensures
        password@.len() == TEMPORARY_PASSWORD_LENGTH,
        forall|i: int| 0 <= i < password@.len() ==> is_ascii_alphanumeric(#[trigger] password@[i]),
{
    let mut draws: Vec<u8> = Vec::new();
    let mut i: usize = 0;
    while i < TEMPORARY_PASSWORD_LENGTH
        invariant
            i <= TEMPORARY_PASSWORD_LENGTH,
            draws@.len() == i,
            forall|j: int| 0 <= j < i ==> is_ascii_alphanumeric(#[trigger] draws@[j] as char),
        decreases TEMPORARY_PASSWORD_LENGTH - i,
    {
        let byte = random_alphanumeric();
        draws.push(byte);
        i = i + 1;
    }
    let password = temporary_password_from(draws.as_slice());
    proof {
        assert forall|k: int| 0 <= k < password@.len() implies is_ascii_alphanumeric(
            #[trigger] password@[k],
        ) by {
            assert(password@[k] == draws@[k] as char);
        }
    }
    password
}

fn hex_char(v: u8) -> (c: char)
    requires
        v < 16,
    ensures
        c == hex_digit(v),
{
    if v < 10 {
        (48u8 + v) as char
    } else {
        (97u8 + (v - 10)) as char
    }
}

pub proof fn lemma_hex_lower_len(bytes: Seq<u8>)
    ensures
        hex_lower(bytes).len() == 2 * bytes.len(),
    decreases bytes.len(),
{
    if bytes.len() > 0 {
        lemma_hex_lower_len(bytes.drop_last());
    }
}

/// Lower-case hexadecimal text of `bytes`, two digits per byte.
pub fn hex_encode(bytes: &[u8]) -> (text: String)
    ensures
        text@ == hex_lower(bytes@),
        text@.len() == 2 * bytes@.len(),
{
    let mut chars: Vec<char> = Vec::new();
    let mut i: usize = 0;
    while i < bytes.len()
        invariant
            i <= bytes@.len(),
            chars@ == hex_lower(bytes@.subrange(0, i as int)),
        decreases bytes.len() - i,
    {
        let b = bytes[i];
        chars.push(hex_char(b / 16));
        chars.push(hex_char(b % 16));
        proof {
            let prefix = bytes@.subrange(0, i + 1);
            assert(prefix.drop_last() =~= bytes@.subrange(0, i as int));
            assert(prefix.last() == b);
        }
        i = i + 1;
    }
    proof {
        assert(bytes@.subrange(0, bytes@.len() as int) =~= bytes@);
        lemma_hex_lower_len(bytes@);
    }
    string_from_chars(chars.as_slice())
}

/// A fresh session credential: the hexadecimal text of 32 random bytes.
pub fn generate_session_secret() -> (secret: SessionSecret)
    ensures
        secret@.len() == 64,
        exists|bytes: Seq<u8>| bytes.len() == 32 && secret@ == hex_lower(bytes),
{
    let bytes = random_bytes_32();
    let text = hex_encode(&bytes);
    SessionSecret(text)
}

/// The SHA-256 digest of `data`.
pub uninterp spec fn sha256(data: Seq<u8>) -> Seq<u8>;

/// `Sha256::digest` of the `sha2` crate. The digest is a function of the
/// input alone and is 32 bytes long.
#[verifier::external_body]
fn sha256_digest(data: &[u8]) -> (digest: Vec<u8>)
    ensures
        digest@ == sha256(data@),
        digest@.len() == 32,
{
    sha2::Sha256::digest(data).to_vec()
}

/// The stored form of a session credential: lower-case hexadecimal SHA-256
/// of its UTF-8 bytes.
pub open spec fn session_secret_hash(secret: Seq<char>) -> Seq<char> {
    hex_lower(sha256(encode_utf8(secret)))
}

pub fn hash_session_secret(secret: &SessionSecret) -> (hash: String)
    ensures
        hash@ == session_secret_hash(secret@),
        hash@.len() == 64,
{
    hash_stored_secret(secret.0.as_str())
}

/// The stored form of a credential given as text.
pub fn hash_stored_secret(secret: &str) -> (hash: String)
    ensures
        hash@ == session_secret_hash(secret@),
        hash@.len() == 64,
{
    let digest = sha256_digest(secret.as_bytes());
    hex_encode(digest.as_slice())
}

// ---------------------------------------------------------------------------
// Time
// ---------------------------------------------------------------------------

/// When a session created at `created_at` (Unix milliseconds) stops being
/// valid: seven days later, unless that instant does not fit.
pub fn session_expiry(created_at: i64) -> (expiry: Result<i64, AppError>)
    ensures
        expiry is Ok <==> created_at + SESSION_LIFETIME_MILLIS <= i64::MAX,
        expiry matches Ok(t) ==> t == created_at + SESSION_LIFETIME_MILLIS,
        expiry matches Err(e) ==> is_internal_error(e),
{
    match created_at.checked_add(SESSION_LIFETIME_MILLIS) {
        Some(t) => Ok(t),
        None => Err(internal_security_error("session expiry overflow")),
    }
}

#[verifier::external_type_specification]
#[verifier::external_body]
pub struct ExSystemTime(std::time::SystemTime);

/// `SystemTime::now()`: the current wall-clock time. Its value is the machine's.
#[verifier::external_body]
fn clock_now() -> std::time::SystemTime {
    std::time::SystemTime::now()
}

/// `SystemTime::duration_since(UNIX_EPOCH)`: the time elapsed since the Unix
/// epoch, or `None` when the time lies before it. Nothing is stated of the
/// value.
#[verifier::external_body]
fn since_unix_epoch(time: &std::time::SystemTime) -> Option<std::time::Duration> {
    time.duration_since(std::time::UNIX_EPOCH).ok()
}

/// `Duration::as_millis`: the duration in whole milliseconds. A duration is
/// opaque here, so nothing is stated of the value.
#[verifier::external_body]
fn whole_millis(duration: &std::time::Duration) -> u128 {
    duration.as_millis()
}

/// Turns a clock reading (milliseconds since the Unix epoch, or `None` before
/// the epoch) into a timestamp.
pub fn unix_millis_from_clock(reading: Option<u128>) -> (millis: Result<i64, AppError>)
    ensures
        millis is Ok <==> (reading matches Some(m) && m <= i64::MAX),
        millis matches Ok(t) ==> t >= 0 && reading == Some(t as u128),
        millis matches Err(e) ==> is_internal_error(e),
{
    match reading {
        None => Err(internal_security_error("system clock is before Unix epoch")),
        Some(m) => {
            if m <= 0x7fff_ffff_ffff_ffffu128 {
                Ok(m as i64)
            } else {
                Err(internal_security_error("system clock does not fit in timestamp"))
            }
        },
    }
}

/// The current time in Unix milliseconds. Whatever the clock reads, the
/// result is a non-negative timestamp or an internal error.
pub fn now_unix_millis() -> (millis: Result<i64, AppError>)
    ensures
        millis matches Ok(t) ==> t >= 0,
        millis matches Err(e) ==> is_internal_error(e),
{
    let now = clock_now();
    let reading = match since_unix_epoch(&now) {
        Some(elapsed) => Some(whole_millis(&elapsed)),
        None => None,
    };
    unix_millis_from_clock(reading)
}

// ---------------------------------------------------------------------------
// User names, display names, passwords
// ---------------------------------------------------------------------------

pub open spec fn is_username_char(c: char) -> bool {
    is_ascii_alphanumeric(c) || c == '.' || c == '-' || c == '_'
}

/// The normal form of a user name: trimmed and ASCII lower-cased.
pub open spec fn normalized_username(value: Seq<char>) -> Seq<char> {
    ascii_lowercase(trim(value))
}

/// A normalized user name is acceptable: 3 to 32 characters, each an ASCII
/// letter or digit, `.`, `-` or `_`.
pub open spec fn is_valid_username(name: Seq<char>) -> bool {
    &&& 3 <= name.len() <= 32
    &&& forall|i: int| 0 <= i < name.len() ==> is_username_char(#[trigger] name[i])
}

fn all_username_chars(chars: &Vec<char>) -> (ok: bool)
    ensures
        ok == forall|i: int| 0 <= i < chars@.len() ==> is_username_char(#[trigger] chars@[i]),
{
    let mut i: usize = 0;
    while i < chars.len()
        invariant
            i <= chars@.len(),
            forall|j: int| 0 <= j < i ==> is_username_char(#[trigger] chars@[j]),
        decreases chars.len() - i,
    {
        let c = chars[i];
        let allowed = ('a' <= c && c <= 'z') || ('A' <= c && c <= 'Z') || ('0' <= c && c <= '9')
            || c == '.' || c == '-' || c == '_';
        if !allowed {
            return false;
        }
        i = i + 1;
    }
    true
}

/// Normalizing a normalized user name changes nothing, and a name and its
/// lower-cased form normalize alike (user names are case-insensitive).
pub proof fn law_username_normalization(value: Seq<char>)
    ensures
        normalized_username(normalized_username(value)) == normalized_username(value),
        normalized_username(ascii_lowercase(value)) == normalized_username(value),
{
    lemma_trim_lower_commute(value);
    law_ascii_lowercase_idempotent(trim(value));
    lemma_trim_ends(value);
    lemma_lowercase_of_trimmed(trim(value));
    law_ascii_lowercase_idempotent(trim(value));
}

/// A normalized user name holds no ASCII capital letter: a capital in the
/// trimmed name becomes its lower-case partner and every other character is
/// kept, so names that differ only in letter case normalize alike.
pub proof fn law_normalized_username_is_lower_case(value: Seq<char>)
    ensures
        normalized_username(value).len() == trim(value).len(),
        forall|i: int|
            0 <= i < normalized_username(value).len() ==> !('A' <= #[trigger] normalized_username(
                value,
            )[i] <= 'Z'),
        forall|i: int|
            0 <= i < trim(value).len() && 'A' <= trim(value)[i] <= 'Z' ==> #[trigger] normalized_username(
                value,
            )[i] as u32 == trim(value)[i] as u32 + 32,
        forall|i: int|
            0 <= i < trim(value).len() && !('A' <= trim(value)[i] <= 'Z') ==> #[trigger] normalized_username(
                value,
            )[i] == trim(value)[i],
{
    law_ascii_lowercase_lowers(trim(value));
}

/// Normalizing a normalized display name changes nothing.
pub proof fn law_display_name_normalization(value: Seq<char>)
    ensures
        trim(trim(value)) == trim(value),
{
    law_trim_idempotent(value);
}

pub fn normalize_username(value: &str) -> (result: Result<String, AppError>)
    ensures
        result is Ok <==> is_valid_username(normalized_username(value@)),
        result matches Ok(name) ==> name@ == normalized_username(value@),
        result matches Ok(name) ==> forall|i: int|
            0 <= i < name@.len() ==> !('A' <= #[trigger] name@[i] <= 'Z'),
        result matches Err(e) ==> is_user_validation_error(e),
{
    proof {
        law_normalized_username_is_lower_case(value@);
    }
    let chars = str_chars(value);
    let trimmed = trim_chars(&chars);
    let lowered = ascii_lowercase_chars(&trimmed);
    let length = lowered.len();
    if !(3 <= length && length <= 32) || !all_username_chars(&lowered) {
        return Err(
            user_validation_error(
                "username must contain 3 to 32 ASCII letters, numbers, dots, dashes, or underscores",
            ),
        );
    }
    Ok(string_from_chars(lowered.as_slice()))
}

/// A display name is acceptable once trimmed: 1 to 100 characters.
pub open spec fn is_valid_display_name(name: Seq<char>) -> bool {
    1 <= name.len() <= 100
}

pub fn normalize_display_name(value: &str) -> (result: Result<String, AppError>)
    ensures
        result is Ok <==> is_valid_display_name(trim(value@)),
        result matches Ok(name) ==> name@ == trim(value@),
        result matches Err(e) ==> is_user_validation_error(e),
{
    let chars = str_chars(value);
    let trimmed = trim_chars(&chars);
    let length = trimmed.len();
    if !(1 <= length && length <= 100) {
        return Err(user_validation_error("display name must contain 1 to 100 characters"));
    }
    Ok(string_from_chars(trimmed.as_slice()))
}

/// A password has an acceptable length: 12 to 128 characters.
pub open spec fn password_length_ok(password: Seq<char>) -> bool {
    PASSWORD_MIN_CHARS <= password.len() <= PASSWORD_MAX_CHARS
}

pub fn validate_password(password: &str) -> (result: Result<(), AppError>)
    ensures
        result is Ok <==> password_length_ok(password@),
        result matches Err(e) ==> is_password_length_error(e),
{
    let length = password.unicode_len();
    if !(PASSWORD_MIN_CHARS <= length && length <= PASSWORD_MAX_CHARS) {
        return Err(
            AppError::new(
                "PASSWORD_VALIDATION_FAILED",
                "La contraseña debe tener entre 12 y 128 caracteres.",
                "password length is outside the permitted range",
            ),
        );
    }
    Ok(())
}


// ---------------------------------------------------------------------------
// Password hashing
// ---------------------------------------------------------------------------

#[verifier::external_type_specification]
#[verifier::external_body]
pub struct ExArgon2Params(argon2::Params);

#[verifier::external_type_specification]
#[verifier::external_body]
pub struct ExArgon2Error(argon2::Error);

#[verifier::external_type_specification]
#[verifier::external_body]
pub struct ExArgon2<'key>(argon2::Argon2<'key>);

#[verifier::external_type_specification]
#[verifier::external_body]
pub struct ExSaltString(argon2::password_hash::SaltString);

#[verifier::external_type_specification]
#[verifier::external_body]
pub struct ExPasswordHash<'a>(argon2::PasswordHash<'a>);

/// `Params::new` of `argon2`: it accepts exactly the memory cost of at least 8
/// KiB and at least 8 KiB per lane, a time cost of at least 1, between 1 and
/// 2^24 - 1 lanes, and an output length, if one is given, between 4 and
/// 2^32 - 1 bytes. Its check multiplies the lane count by 8 in `u32`, so a
/// lane count whose product overflows is left out.
pub assume_specification[ ::argon2::Params::new ](
    m_cost: u32,
    t_cost: u32,
    p_cost: u32,
    output_len: Option<usize>,
) -> (params: Result<argon2::Params, argon2::Error>)
    requires
        p_cost * 8 <= u32::MAX,
    ensures
        params is Ok <==> {
            &&& 8 <= m_cost
            &&& p_cost * 8 <= m_cost
            &&& 1 <= t_cost
            &&& 1 <= p_cost <= 0xff_ffff
            &&& output_len matches Some(len) ==> 4 <= len <= 0xffff_ffff
        },
;

/// An Argon2id (version 0x13) context built from parameters alone, without a
/// secret key, together with the parameters it was built from: memory in KiB,
/// iterations, lanes and output length in bytes. Only [`argon2_hasher`] makes
/// one, and it records the very values it builds the context from.
pub struct Argon2Context {
    context: argon2::Argon2<'static>,
    memory_kib: u32,
    time_cost: u32,
    parallelism: u32,
    output_len: usize,
}

impl Argon2Context {
    /// The parameters of the context: memory in KiB, iterations, lanes and
    /// output length in bytes.
    pub closed spec fn configuration(&self) -> (u32, u32, u32, usize) {
        (self.memory_kib, self.time_cost, self.parallelism, self.output_len)
    }
}

/// `Argon2::from(params)` of `argon2`, which is `Argon2::new` with the crate's
/// default algorithm, Argon2id, and default version, 0x13, and no secret key.
/// Nothing is stated of the context: it is opaque here.
#[verifier::external_body]
fn argon2id_context(params: argon2::Params) -> argon2::Argon2<'static> {
    argon2::Argon2::from(params)
}

/// The centrally configured Argon2id context: 19 MiB of memory, two
/// iterations, one lane and a 32-byte output.
pub fn argon2_hasher() -> (hasher: Argon2Context)
    ensures
        hasher.configuration() == (
            ARGON2_MEMORY_KIB,
            ARGON2_TIME_COST,
            ARGON2_PARALLELISM,
            ARGON2_OUTPUT_LENGTH,
        ),
{
    let params = argon2::Params::new(
        ARGON2_MEMORY_KIB,
        ARGON2_TIME_COST,
        ARGON2_PARALLELISM,
        Some(ARGON2_OUTPUT_LENGTH),
    );
    match params {
        Ok(params) => Argon2Context {
            context: argon2id_context(params),
            memory_kib: ARGON2_MEMORY_KIB,
            time_cost: ARGON2_TIME_COST,
            parallelism: ARGON2_PARALLELISM,
            output_len: ARGON2_OUTPUT_LENGTH,
        },
        Err(_) => vstd::pervasive::unreached(),
    }
}

/// How a PHC string of Argon2id, version 19, with the given memory,
/// iterations and lanes begins, up to its salt:
/// `$argon2id$v=19$m=<memory>,t=<iterations>,p=<lanes>$`.
pub open spec fn argon2id_phc_prefix(memory_kib: u32, time_cost: u32, parallelism: u32) -> Seq<
    char,
> {
    "$argon2id$v=19$m="@ + decimal(memory_kib as nat) + ",t="@ + decimal(time_cost as nat)
        + ",p="@ + decimal(parallelism as nat) + "$"@
}

/// A character of the unpadded standard Base64 alphabet of PHC strings.
pub open spec fn is_b64_char(c: char) -> bool {
    is_ascii_alphanumeric(c) || c == '+' || c == '/'
}

/// `text` is `n` characters of that alphabet.
pub open spec fn is_b64_text(text: Seq<char>, n: nat) -> bool {
    &&& text.len() == n
    &&& forall|i: int| 0 <= i < text.len() ==> is_b64_char(#[trigger] text[i])
}

/// How many characters unpadded Base64 writes for `bytes` bytes.
pub open spec fn b64_len(bytes: nat) -> nat {
    (4 * bytes + 2) / 3
}

/// `encoded` is the PHC string of an Argon2id hash with the given memory,
/// iterations and lanes: its prefix, a 16-byte salt, `$`, and an output of
/// `output_len` bytes, both in unpadded Base64.
pub open spec fn is_argon2id_phc(
    encoded: Seq<char>,
    memory_kib: u32,
    time_cost: u32,
    parallelism: u32,
    output_len: nat,
) -> bool {
    exists|salt: Seq<char>, output: Seq<char>|
        #![trigger is_b64_text(salt, b64_len(16)), is_b64_text(output, b64_len(output_len))]
        {
            &&& is_b64_text(salt, b64_len(16))
            &&& is_b64_text(output, b64_len(output_len))
            &&& encoded == argon2id_phc_prefix(memory_kib, time_cost, parallelism) + salt + "$"@
                + output
        }
}

/// A salt for one password hash. Only [`random_salt`] makes one, so every
/// value holds sixteen random bytes in B64 (`Salt::RECOMMENDED_LENGTH`).
struct GeneratedSalt {
    salt: argon2::password_hash::SaltString,
}

/// `SaltString::generate(&mut OsRng)` of `password-hash`: sixteen bytes from
/// the operating-system generator, B64-encoded. Their values are chance. The
/// generator panics if the operating system cannot supply randomness.
#[verifier::external_body]
fn random_salt() -> GeneratedSalt {
    GeneratedSalt { salt: argon2::password_hash::SaltString::generate(&mut rand::rngs::OsRng) }
}

/// Whether `PasswordHash::new` of `password-hash` accepts `encoded` as a PHC
/// string. It reads the text alone.
pub uninterp spec fn phc_parses(encoded: Seq<char>) -> bool;

/// Whether `verify_password` of `argon2`, on a context without a secret key,
/// accepts the UTF-8 bytes of `password` against the parsed PHC string
/// `encoded`. It takes the algorithm, version, parameters, salt and output from
/// the text, so the answer depends on the two texts alone.
pub uninterp spec fn argon2_accepts(password: Seq<char>, encoded: Seq<char>) -> bool;

/// What checking `password` against the stored text `encoded` answers: `None`
/// when the text is not a PHC string, else whether the password matches.
pub open spec fn argon2_phc_check(password: Seq<char>, encoded: Seq<char>) -> Option<bool> {
    if phc_parses(encoded) {
        Some(argon2_accepts(password, encoded))
    } else {
        None
    }
}

/// `hash_password` of `argon2` on the UTF-8 bytes of `password` with `salt`,
/// written out as a PHC string (`to_string`). The string carries a random salt,
/// so only this is stated: it parses again as a PHC string, it begins with the
/// algorithm, version and parameters of the context (as `PasswordHash`'s
/// `Display` writes them, with no key id or associated data), then come the
/// 16-byte salt and the output of the context's length, each in unpadded
/// Base64 (`Salt`'s and `Output`'s B64), and verifying the same password
/// against it succeeds. With the central parameters (32-byte
/// output) and a generated 16-byte salt, `hash_password` refuses only a
/// password of more than `u32::MAX` bytes (`Argon2::verify_inputs`); when
/// hashing fails the error's text comes back.
#[verifier::external_body]
fn argon2_hash(hasher: &Argon2Context, password: &str, salt: &GeneratedSalt) -> (encoded: Result<
    String,
    String,
>)
    ensures
        encoded matches Ok(text) ==> phc_parses(text@) && argon2_accepts(password@, text@),
        encoded matches Ok(text) ==> argon2id_phc_prefix(
            hasher.configuration().0,
            hasher.configuration().1,
            hasher.configuration().2,
        ).is_prefix_of(text@),
        encoded matches Ok(text) ==> is_argon2id_phc(
            text@,
            hasher.configuration().0,
            hasher.configuration().1,
            hasher.configuration().2,
            hasher.configuration().3 as nat,
        ),
        hasher.configuration() == (
            ARGON2_MEMORY_KIB,
            ARGON2_TIME_COST,
            ARGON2_PARALLELISM,
            ARGON2_OUTPUT_LENGTH,
        ) && encode_utf8(password@).len() <= 0xffff_ffff ==> encoded is Ok,
{
    match hasher.context.hash_password(password.as_bytes(), &salt.salt) {
        Ok(hash) => Ok(hash.to_string()),
        Err(error) => Err(error.to_string()),
    }
}

/// A PHC string that `PasswordHash::new` accepted, kept with the text it was
/// parsed from. Only [`parse_phc`] makes one.
struct ParsedPhc<'a> {
    hash: argon2::PasswordHash<'a>,
    text: &'a str,
}

/// `PasswordHash::new(encoded)` of `password-hash`: `Ok` exactly when the text
/// is a PHC string, else the parser's message.
#[verifier::external_body]
fn parse_phc<'a>(encoded: &'a str) -> (parsed: Result<ParsedPhc<'a>, String>)
    ensures
        parsed is Ok <==> phc_parses(encoded@),
        parsed matches Ok(p) ==> p.text@ == encoded@,
{
    match argon2::PasswordHash::new(encoded) {
        Ok(hash) => Ok(ParsedPhc { hash, text: encoded }),
        Err(error) => Err(error.to_string()),
    }
}

/// `verify_password` of `argon2` on the UTF-8 bytes of `password` against a
/// parsed PHC string: whether the password matches it.
#[verifier::external_body]
fn argon2_check(hasher: &Argon2Context, password: &str, parsed: &ParsedPhc) -> (matches: bool)
    ensures
        matches == argon2_accepts(password@, parsed.text@),
{
    hasher.context.verify_password(password.as_bytes(), &parsed.hash).is_ok()
}

fn prefixed(prefix: &str, detail: &str) -> (text: String)
    ensures
        text@ == prefix@ + detail@,
{
    let mut text = prefix.to_owned();
    text.append(detail);
    text
}

/// `hash_password` gave `encoded` for `password`: the password is acceptable,
/// and `encoded` is an Argon2id PHC string with the central parameters and a
/// 32-byte output that verifies it.
pub open spec fn hash_password_produced(password: Seq<char>, encoded: Seq<char>) -> bool {
    &&& password_length_ok(password)
    &&& argon2_phc_check(password, encoded) == Some(true)
    &&& argon2id_phc_prefix(ARGON2_MEMORY_KIB, ARGON2_TIME_COST, ARGON2_PARALLELISM).is_prefix_of(
        encoded,
    )
    &&& is_argon2id_phc(
        encoded,
        ARGON2_MEMORY_KIB,
        ARGON2_TIME_COST,
        ARGON2_PARALLELISM,
        ARGON2_OUTPUT_LENGTH as nat,
    )
}

/// `verify_password` answers `matches` for `password` against `encoded`.
pub open spec fn verify_password_answers(
    password: Seq<char>,
    encoded: Seq<char>,
    matches: bool,
) -> bool {
    password_length_ok(password) && argon2_phc_check(password, encoded) == Some(matches)
}

/// A password of `n` characters takes at most `4 * n` bytes in UTF-8.
proof fn lemma_utf8_length_bound(chars: Seq<char>)
    ensures
        encode_utf8(chars).len() <= 4 * chars.len(),
    decreases chars.len(),
{
    if chars.len() > 0 {
        lemma_utf8_length_bound(chars.drop_first());
    }
}

/// Hashes an acceptable password with Argon2id and a fresh random salt.
pub fn hash_password(password: &str) -> (result: Result<String, AppError>)
    ensures
        !password_length_ok(password@) ==> failed_with(result, password_validation_code(), password_length_message()),
        password_length_ok(password@) ==> result is Ok,
        result matches Ok(encoded) ==> hash_password_produced(password@, encoded@),
        result matches Ok(encoded) ==> argon2id_phc_prefix(
            ARGON2_MEMORY_KIB,
            ARGON2_TIME_COST,
            ARGON2_PARALLELISM,
        ).is_prefix_of(encoded@),
{
    validate_password(password)?;
    proof {
        lemma_utf8_length_bound(password@);
    }
    let salt = random_salt();
    let hasher = argon2_hasher();
    match argon2_hash(&hasher, password, &salt) {
        Ok(encoded) => Ok(encoded),
        Err(error) => Err(
            internal_security_error(prefixed("password hashing failed: ", error.as_str()).as_str()),
        ),
    }
}

/// Checks an acceptable password against a stored PHC string.
pub fn verify_password(password: &str, encoded_hash: &str) -> (result: Result<bool, AppError>)
    ensures
        !password_length_ok(password@) ==> failed_with(result, password_validation_code(), password_length_message()),
        password_length_ok(password@) ==> match argon2_phc_check(password@, encoded_hash@) {
            None => failed_with(result, internal_code(), internal_message()),
            Some(matches) => result == Ok::<bool, AppError>(matches),
        },
        result matches Ok(matches) ==> verify_password_answers(
            password@,
            encoded_hash@,
            matches,
        ),
{
    validate_password(password)?;
    let hasher = argon2_hasher();
    match parse_phc(encoded_hash) {
        Ok(parsed) => Ok(argon2_check(&hasher, password, &parsed)),
        Err(error) => Err(
            internal_security_error(
                prefixed("stored password hash is invalid: ", error.as_str()).as_str(),
            ),
        ),
    }
}

/// A password that was just hashed verifies against its own hash.
pub proof fn law_hashed_password_verifies(password: Seq<char>, encoded: Seq<char>)
    requires
        hash_password_produced(password, encoded),
    ensures
        verify_password_answers(password, encoded, true),
{
}

/// A hash that `hash_password` produced is a well-formed PHC string: checking
/// any acceptable password against it answers yes or no, never an error.
pub proof fn law_produced_hash_answers_every_password(
    password: Seq<char>,
    encoded: Seq<char>,
    other: Seq<char>,
)
    requires
        hash_password_produced(password, encoded),
        password_length_ok(other),
    ensures
        argon2_phc_check(other, encoded) is Some,
{
}

/// Checks a new password and hashes it. When the current hash is known the new
/// password must not match it.
pub fn validate_new_password(password: &str, current_hash: Option<&str>) -> (result: Result<
    String,
    AppError,
>)
    ensures
        !password_length_ok(password@) ==> failed_with(result, password_validation_code(), password_length_message()),
        password_length_ok(password@) ==> match current_hash {
            None => result is Ok,
            Some(current) => match argon2_phc_check(password@, current@) {
                None => failed_with(result, internal_code(), internal_message()),
                Some(true) => failed_with(result, password_validation_code(), password_reuse_message()),
                Some(false) => result is Ok,
            },
        },
        result matches Ok(encoded) ==> hash_password_produced(password@, encoded@),
        result matches Ok(encoded) ==> argon2id_phc_prefix(
            ARGON2_MEMORY_KIB,
            ARGON2_TIME_COST,
            ARGON2_PARALLELISM,
        ).is_prefix_of(encoded@),
        result matches Ok(encoded) ==> (current_hash matches Some(current) ==> encoded@ != current@),
{
    validate_password(password)?;
    if let Some(current_hash) = current_hash {
        let matches = verify_password(password, current_hash)?;
        if matches {
            return Err(
                AppError::new(
                    "PASSWORD_VALIDATION_FAILED",
                    "La nueva contraseña debe ser diferente de la actual.",
                    "new password matches current password",
                ),
            );
        }
    }
    hash_password(password)
}

// ---------------------------------------------------------------------------
// The last active administrator
// ---------------------------------------------------------------------------

/// The target stays an active administrator after the change.
pub open spec fn target_remains_admin(
    target_is_active_admin: bool,
    next_role: UserRole,
    next_active: bool,
) -> bool {
    target_is_active_admin && next_role == UserRole::Admin && next_active
}

/// The guard lets the change through.
pub open spec fn admin_guard_allows(
    active_admin_count: int,
    target_is_active_admin: bool,
    next_role: UserRole,
    next_active: bool,
) -> bool {
    !(active_admin_count == 0 || (target_is_active_admin && !target_remains_admin(
        target_is_active_admin,
        next_role,
        next_active,
    ) && active_admin_count <= 1))
}

/// How many active administrators there are once the change is made to a
/// target that is (or is not) an active administrator now.
pub open spec fn active_admins_after(
    active_admin_count: int,
    target_is_active_admin: bool,
    next_role: UserRole,
    next_active: bool,
) -> int {
    let becomes_admin = next_role == UserRole::Admin && next_active;
    if target_is_active_admin && !becomes_admin {
        active_admin_count - 1
    } else if !target_is_active_admin && becomes_admin {
        active_admin_count + 1
    } else {
        active_admin_count
    }
}

/// Refuses a change to a user that would leave the system without an active
/// administrator, or any change while none exists.
pub fn ensure_active_admin_remains(
    active_admin_count: u64,
    target_is_active_admin: bool,
    next_role: UserRole,
    next_active: bool,
) -> (result: Result<(), AppError>)
    ensures
        result is Ok <==> admin_guard_allows(
            active_admin_count as int,
            target_is_active_admin,
            next_role,
            next_active,
        ),
        result matches Err(e) ==> is_last_admin_error(e),
{
    let target_remains_admin = target_is_active_admin && next_role == UserRole::Admin
        && next_active;
    if active_admin_count == 0 || (target_is_active_admin && !target_remains_admin
        && active_admin_count <= 1) {
        return Err(
            AppError::new(
                "LAST_ACTIVE_ADMIN_REQUIRED",
                "Debe existir al menos un administrador activo.",
                "user operation would remove the last active administrator",
            ),
        );
    }
    Ok(())
}

/// The guard lets a change through exactly when at least one active
/// administrator exists now and at least one remains afterwards.
pub proof fn law_admin_guard_keeps_an_active_admin(
    active_admin_count: int,
    target_is_active_admin: bool,
    next_role: UserRole,
    next_active: bool,
)
    requires
        active_admin_count >= 0,
    ensures
        admin_guard_allows(active_admin_count, target_is_active_admin, next_role, next_active) <==> (
        active_admin_count >= 1 && active_admins_after(
            active_admin_count,
            target_is_active_admin,
            next_role,
            next_active,
        ) >= 1),
{
}

/// A stored user row's role and `active` column describe an active
/// administrator.
pub open spec fn row_is_active_admin(target_row: Option<(String, i64)>) -> bool {
    match target_row {
        Some((role, active)) => role@ == "ADMIN"@ && active == 1,
        None => false,
    }
}

/// The administrator guard on what the database returned: the number of
/// active administrators (a negative count counts as none) and the target's
/// stored role and `active` column, if the target exists.
pub fn ensure_active_admin_remains_for_rows(
    active_admin_count: i64,
    target_row: Option<(String, i64)>,
    next_role: UserRole,
    next_active: bool,
) -> (result: Result<(), AppError>)
    ensures
        result is Ok <==> admin_guard_allows(
            if active_admin_count >= 0 {
                active_admin_count as int
            } else {
                0
            },
            row_is_active_admin(target_row),
            next_role,
            next_active,
        ),
        result matches Err(e) ==> is_last_admin_error(e),
        active_admin_count >= 1 && (target_row matches Some((role, active)) && (role@ != "ADMIN"@
            || active != 1)) ==> result is Ok,
        active_admin_count >= 1 && target_row is None ==> result is Ok,
        active_admin_count == 1 && (target_row matches Some((role, active)) && role@ == "ADMIN"@
            && active == 1) && !(next_role == UserRole::Admin && next_active) ==> result is Err,
{
    let target_is_active_admin = match target_row {
        Some((role, active)) => role == "ADMIN".to_owned() && active == 1,
        None => false,
    };
    let count: u64 = if active_admin_count >= 0 {
        active_admin_count as u64
    } else {
        0
    };
    ensure_active_admin_remains(count, target_is_active_admin, next_role, next_active)
}

/// On the stored rows, only a target whose role column reads `ADMIN` and
/// whose `active` column is 1 counts as an active administrator: while one
/// exists, any change to another target is allowed, and the only active
/// administrator can be neither demoted nor deactivated.
pub proof fn law_row_guard_protects_only_stored_active_admins(
    active_admin_count: i64,
    target_row: Option<(String, i64)>,
    next_role: UserRole,
    next_active: bool,
)
    ensures
        active_admin_count >= 1 && !(target_row matches Some((role, active)) && role@ == "ADMIN"@
            && active == 1) ==> admin_guard_allows(
            active_admin_count as int,
            row_is_active_admin(target_row),
            next_role,
            next_active,
        ),
        active_admin_count == 1 && (target_row matches Some((role, active)) && role@ == "ADMIN"@
            && active == 1) ==> (admin_guard_allows(
            active_admin_count as int,
            row_is_active_admin(target_row),
            next_role,
            next_active,
        ) <==> next_role == UserRole::Admin && next_active),
{
}

} // verus!
