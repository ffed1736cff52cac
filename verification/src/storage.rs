//! Rules of the record store: which errors mean "nothing stored yet", the log
//! query, and the first administrator account.
use vstd::prelude::*;
use crate::password::{argon2_accepts, argon2_hash, phc_parse_error};
use crate::records::{LogRecord, Timestamp, User};
use crate::text::{append, contains, dec_digits, occurs_in, owned, push_decimal};

verus! {

/// A store error that only says the table or record does not exist yet.
pub open spec fn is_missing_error(message: Seq<char>) -> bool {
    occurs_in(message, "does not exist"@) || occurs_in(message, "not found"@)
}

/// Whether a store error only says that nothing is stored yet.
pub fn is_missing(message: &str) -> (b: bool)
    ensures
        b == is_missing_error(message@),
{
    contains(message, "does not exist") || contains(message, "not found")
}

/// A read whose "does not exist" or "not found" error means an empty answer.
pub fn recover_missing<T>(read: Result<T, String>, empty: T) -> (r: Result<T, String>)
    ensures
        match read {
            Ok(v) => r == Ok::<T, String>(v),
            Err(e) => if is_missing_error(e@) { r == Ok::<T, String>(empty) } else { r == Err::<T, String>(e) },
        },
{
    match read {
        Ok(v) => Ok(v),
        Err(e) => if is_missing(e.as_str()) {
            Ok(empty)
        } else {
            Err(e)
        },
    }
}

/// The query for the newest log lines, of one module (bound as `$mid`) or of all.
pub open spec fn logs_query_text(one_module: bool, limit: nat) -> Seq<char> {
    if one_module {
        "SELECT * FROM log WHERE module_id = $mid ORDER BY timestamp DESC LIMIT "@ + dec_digits(limit)
    } else {
        "SELECT * FROM log ORDER BY timestamp DESC LIMIT "@ + dec_digits(limit)
    }
}

/// The query for the newest `limit` log lines.
pub fn logs_query(one_module: bool, limit: usize) -> (q: String)
    ensures
        q@ == logs_query_text(one_module, limit as nat),
{
    let mut q = if one_module {
        owned("SELECT * FROM log WHERE module_id = $mid ORDER BY timestamp DESC LIMIT ")
    } else {
        owned("SELECT * FROM log ORDER BY timestamp DESC LIMIT ")
    };
    push_decimal(&mut q, limit as u64);
    q
}

/// The error when the stored backend configuration does not read back, with
/// the decoder's reason.
pub fn settings_read_failure(reason: &str) -> (r: String)
    ensures
        r@ == "Failed to deserialize settings: "@ + reason@,
{
    let mut m = owned("Failed to deserialize settings: ");
    append(&mut m, reason);
    m
}

/// The error when the backend configuration cannot be written out, with the
/// encoder's reason.
pub fn settings_write_failure(reason: &str) -> (r: String)
    ensures
        r@ == "Failed to serialize settings: "@ + reason@,
{
    let mut m = owned("Failed to serialize settings: ");
    append(&mut m, reason);
    m
}

/// A log line of module `module_id` written at `at`.
pub fn log_record(module_id: &str, at: Timestamp, level: &str, message: &str) -> (r: LogRecord)
    ensures
        r.module_id@ == module_id@,
        r.timestamp == at,
        r.level@ == level@,
        r.message@ == message@,
{
    LogRecord { module_id: owned(module_id), timestamp: at, level: owned(level), message: owned(message) }
}

/// Whether the first administrator must be created: there is no user yet.
pub fn needs_admin(user_count: usize) -> (b: bool)
    ensures
        b == (user_count == 0),
{
    user_count == 0
}

/// The first administrator, given the outcome of hashing its password:
/// user `admin` with role `admin`, or the hashing error.
pub fn admin_from_hash(hashed: Result<String, String>) -> (r: Result<User, String>)
    ensures
        match hashed {
            Ok(h) => r matches Ok(u) && u.username@ == "admin"@ && u.role@ == "admin"@ && u.password_hash == h,
            Err(e) => r matches Err(m) && m@ == "Password hashing failed: "@ + e@,
        },
{
    match hashed {
        Ok(hash) => Ok(User { username: owned("admin"), password_hash: hash, role: owned("admin") }),
        Err(e) => {
            let mut m = owned("Password hashing failed: ");
            append(&mut m, e.as_str());
            Err(m)
        },
    }
}

/// A message that reports a failed hashing, with the hasher's reason.
pub open spec fn is_hash_failure(m: Seq<char>) -> bool {
    exists|reason: Seq<char>| m == "Password hashing failed: "@ + reason
}

/// Whether a password is short enough for the hasher: at most `u32::MAX`
/// bytes of UTF-8.
pub open spec fn hashable(password: Seq<char>) -> bool {
    vstd::utf8::encode_utf8(password).len() <= 0xFFFF_FFFF
}

/// The first administrator, `admin`, with the given password hashed with a
/// fresh random salt; the stored hash accepts that password. Hashing succeeds
/// for any password the hasher takes.
pub fn default_admin(password: &str) -> (r: Result<User, String>)
    ensures
        hashable(password@) ==> r is Ok,
        r matches Ok(u) ==> {
            &&& u.username@ == "admin"@
            &&& u.role@ == "admin"@
            &&& phc_parse_error(u.password_hash@) is None
            &&& argon2_accepts(password@, u.password_hash@)
        },
        r matches Err(m) ==> is_hash_failure(m@),
{
    let hashed = argon2_hash(password);
    let ghost reason = if hashed is Err { hashed->Err_0@ } else { Seq::<char>::empty() };
    let r = admin_from_hash(hashed);
    proof {
        if r is Err {
            assert(r->Err_0@ == "Password hashing failed: "@ + reason);
        }
    }
    r
}

/// What start-up does about the first administrator, given how many users
/// exist: nothing when there is one, else create `admin` with the given
/// password (see `default_admin`), which succeeds for any password the hasher
/// takes.
pub fn first_admin(user_count: usize, password: &str) -> (r: Result<Option<User>, String>)
    ensures
        user_count > 0 ==> r matches Ok(None),
        user_count == 0 && hashable(password@) ==> r matches Ok(Some(_)),
        user_count == 0 ==> match r {
            Ok(Some(u)) => {
                &&& u.username@ == "admin"@
                &&& u.role@ == "admin"@
                &&& phc_parse_error(u.password_hash@) is None
                &&& argon2_accepts(password@, u.password_hash@)
            },
            Ok(None) => false,
            Err(m) => is_hash_failure(m@),
        },
{
    if !needs_admin(user_count) {
        return Ok(None);
    }
    match default_admin(password) {
        Ok(u) => Ok(Some(u)),
        Err(m) => Err(m),
    }
}

} // verus!
