//! The decisions behind the HTTP API: authentication, authorisation, and what
//! each request does to the stored records.
use vstd::prelude::*;
use crate::model::ModuleMetadata;
use crate::password::{argon2_accepts, argon2_verify, phc_error, phc_parse_error};
use crate::records::{ModuleRecord, User, same_identity};
use crate::split::{is_listed, is_word, lemma_words_of_spaced, spaced, views, words, split_words};
use crate::token::{hs256_claims, hs256_token, sign_session_token, token_claims};
use crate::text::{push_char, unicode_whitespace, append, has_prefix, owned, replace, replace_char, same_text, skip_chars, starts_with};

verus! {

/// An error answer: an HTTP status code and the text of its `error` field.
pub struct ApiError {
    pub status: u16,
    pub message: String,
}

impl View for ApiError {
    type V = (u16, Seq<char>);

    open spec fn view(&self) -> (u16, Seq<char>) {
        (self.status, self.message@)
    }
}

/// The error part of a result, by its view.
pub open spec fn err_of<T>(r: Result<T, ApiError>) -> Option<(u16, Seq<char>)> {
    match r {
        Ok(_) => None,
        Err(e) => Some(e@),
    }
}

fn api_error(status: u16, message: &str) -> (e: ApiError)
    ensures
        e@ == (status, message@),
{
    ApiError { status, message: owned(message) }
}

/// A failure of the record store: status 500 with the store's message.
pub fn store_failure(message: String) -> (e: ApiError)
    ensures
        e@ == (500u16, message@),
{
    ApiError { status: 500, message }
}

/// The claims inside a signed session token.
pub struct TokenClaims {
    pub sub: String,
    pub role: String,
    /// Expiry, in seconds since the epoch.
    pub exp: i64,
}

/// The identity of an authenticated caller.
pub struct Claims {
    pub username: String,
    pub role: String,
}

pub struct LoginPayload {
    pub username: String,
    pub password: String,
}

pub struct LoginResponse {
    pub token: String,
    pub role: String,
}

pub struct ModuleConfigPayload {
    pub config: String,
    pub interval_secs: u64,
}

pub struct TogglePayload {
    pub enabled: bool,
}

pub struct InstallPayload {
    pub id: String,
    pub git_url: Option<String>,
}

pub struct UninstallPayload {
    pub id: String,
}

/// An entry of the module store.
pub struct StoreModule {
    pub id: String,
    pub name: String,
    pub description: String,
    pub author: String,
    pub repo_url: String,
    pub is_installed: bool,
}

// ---------------------------------------------------------------------------
// Authentication.
// ---------------------------------------------------------------------------
/// The token carried by an `Authorization` header, or the error answer.
pub open spec fn bearer(header: Option<Seq<char>>) -> Result<Seq<char>, (u16, Seq<char>)> {
    match header {
        None => Err((401u16, "Missing Authorization header"@)),
        Some(h) => if has_prefix(h, "Bearer "@) {
            Ok(h.skip(7))
        } else {
            Err((401u16, "Invalid Authorization header format"@))
        },
    }
}

/// The token of an `Authorization: Bearer <token>` header. `header` is the
/// header's value, absent when the request has none that is visible ASCII.
pub fn bearer_token(header: Option<&str>) -> (r: Result<String, ApiError>)
    ensures
        match (r, bearer(match header { Some(h) => Some(h@), None => None })) {
            (Ok(t), Ok(u)) => t@ == u,
            (Err(e), Err(v)) => e@ == v,
            _ => false,
        },
{
    match header {
        None => Err(api_error(401, "Missing Authorization header")),
        Some(h) => {
            if starts_with(h, "Bearer ") {
                proof {
                    reveal_strlit("Bearer ");
                }
                Ok(skip_chars(h, 7))
            } else {
                Err(api_error(401, "Invalid Authorization header format"))
            }
        },
    }
}

/// The caller's identity from the claims of a token, `None` when the token
/// did not verify (bad signature, malformed, or expired).
pub fn claims_from_token(decoded: Option<TokenClaims>) -> (r: Result<Claims, ApiError>)
    ensures
        match decoded {
            None => err_of(r) == Some((401u16, "Invalid or expired token"@)),
            Some(c) => r matches Ok(cl) && cl.username == c.sub && cl.role == c.role,
        },
{
    match decoded {
        None => Err(api_error(401, "Invalid or expired token")),
        Some(c) => Ok(Claims { username: c.sub, role: c.role }),
    }
}

/// Only administrators may change anything.
pub fn require_admin(claims: &Claims) -> (r: Result<(), ApiError>)
    ensures
        r is Ok <==> claims.role@ == "admin"@,
        r is Err ==> err_of(r) == Some((403u16, "Admin role required"@)),
{
    if same_text(claims.role.as_str(), "admin") {
        Ok(())
    } else {
        Err(api_error(403, "Admin role required"))
    }
}

// ---------------------------------------------------------------------------
// Login.
// ---------------------------------------------------------------------------
/// The account a login names: a store failure is a 500, an unknown user is
/// refused like a wrong password.
pub fn login_account(lookup: Result<Option<User>, String>) -> (r: Result<User, ApiError>)
    ensures
        match lookup {
            Err(e) => err_of(r) == Some((500u16, e@)),
            Ok(None) => err_of(r) == Some((401u16, "Invalid credentials"@)),
            Ok(Some(u)) => r == Ok::<User, ApiError>(u),
        },
{
    match lookup {
        Err(e) => Err(store_failure(e)),
        Ok(None) => Err(api_error(401, "Invalid credentials")),
        Ok(Some(u)) => Ok(u),
    }
}

/// The answer to a password check, given why the stored hash does not parse
/// (if it does not) and whether the password matched it.
pub fn password_verdict(parse_error: Option<String>, accepted: bool) -> (r: Result<(), ApiError>)
    ensures
        match parse_error {
            Some(e) => err_of(r) == Some((500u16, "Invalid password hash format: "@ + e@)),
            None => if accepted { r is Ok } else { err_of(r) == Some((401u16, "Invalid credentials"@)) },
        },
{
    match parse_error {
        Some(e) => {
            let mut m = owned("Invalid password hash format: ");
            append(&mut m, e.as_str());
            Err(ApiError { status: 500, message: m })
        },
        None => if accepted {
            Ok(())
        } else {
            Err(api_error(401, "Invalid credentials"))
        },
    }
}

/// The answer to a password check against a stored PHC string.
pub open spec fn password_check(password: Seq<char>, phc: Seq<char>) -> Result<(), (u16, Seq<char>)> {
    match phc_parse_error(phc) {
        Some(e) => Err((500u16, "Invalid password hash format: "@ + e)),
        None => if argon2_accepts(password, phc) {
            Ok(())
        } else {
            Err((401u16, "Invalid credentials"@))
        },
    }
}

/// Checks a login password against the account's stored Argon2 hash.
pub fn check_password(user: &User, password: &str) -> (r: Result<(), ApiError>)
    ensures
        match password_check(password@, user.password_hash@) {
            Ok(_) => r is Ok,
            Err(e) => err_of(r) == Some(e),
        },
{
    let parse_error = phc_error(user.password_hash.as_str());
    let accepted = match &parse_error {
        Some(_) => false,
        None => argon2_verify(password, user.password_hash.as_str()),
    };
    password_verdict(parse_error, accepted)
}

/// Seconds that a session token stays valid.
pub open spec fn session_secs() -> int {
    86_400
}

/// The claims of the token issued to `user` at `now_secs`: valid for 24 hours.
pub fn session_claims(user: &User, now_secs: i64) -> (c: TokenClaims)
    requires
        now_secs <= i64::MAX - 86_400,
    ensures
        c.sub@ == user.username@,
        c.role@ == user.role@,
        c.exp == now_secs + session_secs(),
{
    TokenClaims { sub: user.username.clone(), role: user.role.clone(), exp: now_secs + 86_400 }
}

/// The answer to a successful login.
pub fn login_response(token: String, user: &User) -> (r: LoginResponse)
    ensures
        r.token == token,
        r.role@ == user.role@,
{
    LoginResponse { token, role: user.role.clone() }
}

/// The expiry of a session issued at `now_secs`.
pub open spec fn session_expiry(now_secs: i64) -> int {
    now_secs + session_secs()
}

/// `resp` is the answer that grants `user` a session issued at `now_secs`.
pub open spec fn grants_session(resp: LoginResponse, user: User, now_secs: i64, secret: Seq<u8>) -> bool {
    &&& resp.role@ == user.role@
    &&& resp.token@ == hs256_token(user.username@, user.role@, session_expiry(now_secs) as i64, secret)
    &&& session_expiry(now_secs) >= 0 ==> hs256_claims(resp.token@, secret)
        == Some((user.username@, user.role@, session_expiry(now_secs) as i64))
}

/// Issues the session token of `user` at `now_secs`, signed with `secret`.
/// An encoder failure would be a 500 with the encoder's message; signing an
/// HS256 token never fails, so the session is always granted.
pub fn issue_session(user: &User, now_secs: i64, secret: &[u8]) -> (r: Result<LoginResponse, ApiError>)
    requires
        now_secs <= i64::MAX - 86_400,
    ensures
        r matches Ok(resp) && grants_session(resp, *user, now_secs, secret@),
{
    let claims = session_claims(user, now_secs);
    match sign_session_token(&claims, secret) {
        Ok(token) => Ok(login_response(token, user)),
        Err(e) => Err(store_failure(e)),
    }
}

/// Why a login is refused, if it is: a store failure is a 500, an unknown
/// user and a wrong password are both a 401 "Invalid credentials", a stored
/// hash that does not parse is a 500; `None` when the login is granted.
pub open spec fn login_refusal(lookup: Result<Option<User>, String>, password: Seq<char>) -> Option<(u16, Seq<char>)> {
    match lookup {
        Err(e) => Some((500u16, e@)),
        Ok(None) => Some((401u16, "Invalid credentials"@)),
        Ok(Some(u)) => match password_check(password, u.password_hash@) {
            Err(e) => Some(e),
            Ok(_) => None,
        },
    }
}

/// A login: the named account, its password check, then a session token
/// issued at `now_secs`.
pub fn login(lookup: Result<Option<User>, String>, password: &str, now_secs: i64, secret: &[u8]) -> (r: Result<LoginResponse, ApiError>)
    requires
        now_secs <= i64::MAX - 86_400,
    ensures
        err_of(r) == login_refusal(lookup, password@),
        match lookup {
            Ok(Some(u)) => login_refusal(lookup, password@) is None
                ==> (r matches Ok(resp) && grants_session(resp, u, now_secs, secret@)),
            _ => true,
        },
{
    let user = match login_account(lookup) {
        Ok(u) => u,
        Err(e) => return Err(e),
    };
    match check_password(&user, password) {
        Ok(_) => {},
        Err(e) => return Err(e),
    }
    issue_session(&user, now_secs, secret)
}

/// Seconds of grace that the expiry check allows.
pub open spec fn expiry_leeway() -> int {
    60
}

/// The caller a request authenticates as at `now_secs`: the claims of its
/// bearer token, when the token verifies with `secret` and its expiry is not
/// more than the leeway in the past.
pub open spec fn session_of(header: Option<Seq<char>>, secret: Seq<u8>, now_secs: u64) -> Result<(Seq<char>, Seq<char>), (u16, Seq<char>)> {
    match bearer(header) {
        Err(e) => Err(e),
        Ok(t) => match hs256_claims(t, secret) {
            None => Err((401u16, "Invalid or expired token"@)),
            Some((sub, role, exp)) => if exp < now_secs - expiry_leeway() {
                Err((401u16, "Invalid or expired token"@))
            } else {
                Ok((sub, role))
            },
        },
    }
}

/// Authenticates a request from its `Authorization` header at `now_secs`.
pub fn authenticate(header: Option<&str>, secret: &[u8], now_secs: u64) -> (r: Result<Claims, ApiError>)
    requires
        now_secs >= 60,
    ensures
        match (r, session_of(match header { Some(h) => Some(h@), None => None }, secret@, now_secs)) {
            (Ok(c), Ok((sub, role))) => c.username@ == sub && c.role@ == role,
            (Err(e), Err(v)) => e@ == v,
            _ => false,
        },
{
    let token = match bearer_token(header) {
        Ok(t) => t,
        Err(e) => return Err(e),
    };
    let live = match token_claims(token.as_str(), secret) {
        Some(c) => if (c.exp as i128) < (now_secs as i128) - 60 { None } else { Some(c) },
        None => None,
    };
    claims_from_token(live)
}

// ---------------------------------------------------------------------------
// Modules.
// ---------------------------------------------------------------------------
/// The module a request names: a store failure is a 500, an unknown id a 404.
pub fn found_module(lookup: Result<Option<ModuleRecord>, String>) -> (r: Result<ModuleRecord, ApiError>)
    ensures
        match lookup {
            Err(e) => err_of(r) == Some((500u16, e@)),
            Ok(None) => err_of(r) == Some((404u16, "Module not found"@)),
            Ok(Some(m)) => r == Ok::<ModuleRecord, ApiError>(m),
        },
{
    match lookup {
        Err(e) => Err(store_failure(e)),
        Ok(None) => Err(api_error(404, "Module not found")),
        Ok(Some(m)) => Ok(m),
    }
}

/// The record after a configuration change: new configuration and interval,
/// everything else kept.
pub fn apply_module_config(module: ModuleRecord, payload: ModuleConfigPayload) -> (r: ModuleRecord)
    ensures
        r.config == payload.config,
        r.interval_secs == payload.interval_secs,
        same_identity(r, module),
        r.enabled == module.enabled,
        r.status == module.status,
        r.last_run == module.last_run,
        r.last_error == module.last_error,
{
    ModuleRecord { config: payload.config, interval_secs: payload.interval_secs, ..module }
}

/// The status that goes with an enabled flag.
pub open spec fn toggled_status(enabled: bool) -> Seq<char> {
    if enabled { "running"@ } else { "paused"@ }
}

/// The record after switching the module on or off: `running` when on,
/// `paused` when off, everything else kept.
pub fn apply_toggle(module: ModuleRecord, enabled: bool) -> (r: ModuleRecord)
    ensures
        r.enabled == enabled,
        r.status@ == toggled_status(enabled),
        same_identity(r, module),
        r.config == module.config,
        r.interval_secs == module.interval_secs,
        r.last_run == module.last_run,
        r.last_error == module.last_error,
{
    let status = if enabled { owned("running") } else { owned("paused") };
    ModuleRecord { enabled, status, ..module }
}

/// How many log lines the log view shows.
pub fn log_view_limit() -> (n: usize)
    ensures
        n == 50,
{
    50
}

// ---------------------------------------------------------------------------
// Store.
// ---------------------------------------------------------------------------
/// The store entry for a curated module.
pub open spec fn is_store_entry(
    e: StoreModule,
    id: Seq<char>,
    name: Seq<char>,
    description: Seq<char>,
    installed: Seq<Seq<char>>,
) -> bool {
    &&& e.id@ == id
    &&& e.name@ == name
    &&& e.description@ == description
    &&& e.author@ == "Metrics Core Team"@
    &&& e.repo_url@ == "curated://"@ + id
    &&& e.is_installed == installed.contains(id)
}

fn store_entry(id: &str, name: &str, description: &str, installed: &Vec<String>) -> (e: StoreModule)
    ensures
        is_store_entry(e, id@, name@, description@, views(installed@)),
{
    let mut repo_url = owned("curated://");
    append(&mut repo_url, id);
    StoreModule {
        id: owned(id),
        name: owned(name),
        description: owned(description),
        author: owned("Metrics Core Team"),
        repo_url,
        is_installed: is_listed(id, installed),
    }
}

/// The curated store: the system, ZFS and Immich modules, each marked as
/// installed when its id is among `installed`.
pub fn store_catalog(installed: &Vec<String>) -> (r: Vec<StoreModule>)
    ensures
        r@.len() == 3,
        is_store_entry(r@[0], "metrics-system"@, "System Resources"@,
            "Monitor CPU, RAM, and disk utilization"@, views(installed@)),
        is_store_entry(r@[1], "metrics-zfs"@, "ZFS Storage"@,
            "Check status and usage of local ZFS pools"@, views(installed@)),
        is_store_entry(r@[2], "metrics-immich"@, "Immich Statistics"@,
            "Collects total assets and user counts from Immich API"@, views(installed@)),
{
    let mut r: Vec<StoreModule> = Vec::new();
    r.push(store_entry("metrics-system", "System Resources", "Monitor CPU, RAM, and disk utilization", installed));
    r.push(store_entry("metrics-zfs", "ZFS Storage", "Check status and usage of local ZFS pools", installed));
    r.push(store_entry("metrics-immich", "Immich Statistics", "Collects total assets and user counts from Immich API", installed));
    r
}

// ---------------------------------------------------------------------------
// Installation.
// ---------------------------------------------------------------------------
/// The operating system the host runs on, which decides a library's file name.
pub enum TargetOs {
    Windows,
    MacOs,
    Other,
}

/// A module is curated when no repository is given or it is a `curated://` one.
pub open spec fn is_curated_source(git_url: Option<Seq<char>>) -> bool {
    match git_url {
        None => true,
        Some(u) => has_prefix(u, "curated://"@),
    }
}

/// Whether the module is built from the curated sources.
pub fn is_curated(payload: &InstallPayload) -> (b: bool)
    ensures
        b == is_curated_source(match payload.git_url { Some(u) => Some(u@), None => None }),
{
    match &payload.git_url {
        None => true,
        Some(u) => starts_with(u.as_str(), "curated://"),
    }
}

/// The file name of a module's compiled library.
pub open spec fn library_file(id: Seq<char>, os: TargetOs) -> Seq<char> {
    let stem = replace_char(id, '-', '_');
    match os {
        TargetOs::Windows => stem + ".dll"@,
        TargetOs::MacOs => "lib"@ + stem + ".dylib"@,
        TargetOs::Other => "lib"@ + stem + ".so"@,
    }
}

/// The file name of the compiled library of module `id`.
pub fn library_file_name(id: &str, os: TargetOs) -> (r: String)
    ensures
        r@ == library_file(id@, os),
{
    let stem = replace(id, '-', '_');
    match os {
        TargetOs::Windows => {
            let mut r = stem;
            append(&mut r, ".dll");
            r
        },
        TargetOs::MacOs => {
            let mut r = owned("lib");
            append(&mut r, stem.as_str());
            append(&mut r, ".dylib");
            r
        },
        TargetOs::Other => {
            let mut r = owned("lib");
            append(&mut r, stem.as_str());
            append(&mut r, ".so");
            r
        },
    }
}

/// The words that start the build command of a curated module.
pub open spec fn curated_build_prefix() -> Seq<Seq<char>> {
    seq![seq!['c', 'a', 'r', 'g', 'o'], seq!['b', 'u', 'i', 'l', 'd'],
        seq!['-', '-', 'r', 'e', 'l', 'e', 'a', 's', 'e'], seq!['-', 'p']]
}

/// The build command for a curated module:
/// `cargo build --release -p <id>`.
pub open spec fn curated_build_command(id: Seq<char>) -> Seq<char> {
    spaced(curated_build_prefix()) + id
}

/// The build command for a module cloned into `dir`.
pub open spec fn cloned_build_command(dir: Seq<char>) -> Seq<char> {
    "cargo build --release --manifest-path "@ + dir + "/Cargo.toml"@
}

/// The build command of a curated module, as a command line.
pub fn curated_build_line(id: &str) -> (r: String)
    ensures
        r@ == curated_build_command(id@),
{
    let mut r = String::new();
    push_char(&mut r, 'c');
    push_char(&mut r, 'a');
    push_char(&mut r, 'r');
    push_char(&mut r, 'g');
    push_char(&mut r, 'o');
    push_char(&mut r, ' ');
    push_char(&mut r, 'b');
    push_char(&mut r, 'u');
    push_char(&mut r, 'i');
    push_char(&mut r, 'l');
    push_char(&mut r, 'd');
    push_char(&mut r, ' ');
    push_char(&mut r, '-');
    push_char(&mut r, '-');
    push_char(&mut r, 'r');
    push_char(&mut r, 'e');
    push_char(&mut r, 'l');
    push_char(&mut r, 'e');
    push_char(&mut r, 'a');
    push_char(&mut r, 's');
    push_char(&mut r, 'e');
    push_char(&mut r, ' ');
    push_char(&mut r, '-');
    push_char(&mut r, 'p');
    push_char(&mut r, ' ');
    proof {
        reveal_with_fuel(spaced, 5);
        let p = curated_build_prefix();
        assert(p.drop_last().drop_last().drop_last().drop_last() =~= Seq::<Seq<char>>::empty());
        assert(p.drop_last().drop_last().drop_last() =~= seq![p[0]]);
        assert(p.drop_last().drop_last() =~= seq![p[0], p[1]]);
        assert(p.drop_last() =~= seq![p[0], p[1], p[2]]);
        assert(r@ =~= spaced(p));
    }
    append(&mut r, id);
    r
}

/// The build command of a module cloned into `dir`, as a command line.
pub fn cloned_build_line(dir: &str) -> (r: String)
    ensures
        r@ == cloned_build_command(dir@),
{
    let mut r = owned("cargo build --release --manifest-path ");
    append(&mut r, dir);
    append(&mut r, "/Cargo.toml");
    r
}

/// A command line split at whitespace into the program and its arguments;
/// `None` for a blank line.
pub fn command_parts(line: &str) -> (r: Option<(String, Vec<String>)>)
    ensures
        r is None <==> words(line@).len() == 0,
        r matches Some((p, args)) ==> p@ == words(line@)[0] && views(args@) == words(line@).drop_first(),
{
    let mut ws = split_words(line);
    if ws.len() == 0 {
        return None;
    }
    let ghost all = views(ws@);
    let program = ws.remove(0);
    assert(views(ws@) =~= all.drop_first());
    Some((program, ws))
}

/// The record of a freshly installed module: described by its metadata,
/// configured with its default configuration, every minute, not yet enabled.
pub fn installed_record(id: String, metadata: ModuleMetadata, lib_path: String) -> (r: ModuleRecord)
    ensures
        r.id == id,
        r.name == metadata.name,
        r.version == metadata.version,
        r.author == metadata.author,
        r.description == metadata.description,
        r.config@ == metadata.default_config@,
        r.default_config == metadata.default_config,
        r.interval_secs == 60,
        r.cron is None,
        !r.enabled,
        r.status@ == "installed"@,
        r.last_run is None,
        r.last_error is None,
        r.lib_path == lib_path,
{
    ModuleRecord {
        id,
        name: metadata.name,
        version: metadata.version,
        author: metadata.author,
        description: metadata.description,
        config: metadata.default_config.clone(),
        default_config: metadata.default_config,
        interval_secs: 60,
        cron: None,
        enabled: false,
        status: owned("installed"),
        last_run: None,
        last_error: None,
        lib_path,
    }
}

/// The steps of an installation, in the order they run.
#[derive(Clone, Copy, Debug, PartialEq, Eq, Structural)]
pub enum InstallStep {
    /// Clone the module's repository (only for modules that are not curated).
    Clone,
    /// Build the module's library.
    Build,
    /// Copy the built library into the modules directory.
    Place,
    /// Load the library once to read its metadata.
    Load,
    /// Store the module's record.
    Save,
    /// Add the installation to the module's log (its failure is ignored).
    Log,
}

/// The steps that install a module.
pub open spec fn install_plan(curated: bool) -> Seq<InstallStep> {
    let rest = seq![InstallStep::Build, InstallStep::Place, InstallStep::Load, InstallStep::Save, InstallStep::Log];
    if curated { rest } else { seq![InstallStep::Clone] + rest }
}

/// The steps that install the module of `payload`; the first failing step
/// ends the installation with its error.
pub fn install_steps(payload: &InstallPayload) -> (r: Vec<InstallStep>)
    ensures
        r@ == install_plan(is_curated_source(match payload.git_url { Some(u) => Some(u@), None => None })),
{
    let curated = is_curated(payload);
    let mut r: Vec<InstallStep> = Vec::new();
    if !curated {
        r.push(InstallStep::Clone);
    }
    r.push(InstallStep::Build);
    r.push(InstallStep::Place);
    r.push(InstallStep::Load);
    r.push(InstallStep::Save);
    r.push(InstallStep::Log);
    proof {
        let rest = seq![InstallStep::Build, InstallStep::Place, InstallStep::Load, InstallStep::Save, InstallStep::Log];
        if curated {
            assert(r@ =~= rest);
        } else {
            assert(r@ =~= seq![InstallStep::Clone] + rest);
        }
    }
    r
}

/// Why an installation failed.
pub enum InstallFailure {
    /// `git clone` could not run or failed; the reason.
    Clone(String),
    /// The build could not be started.
    BuildStart(String),
    /// The build failed; its standard error.
    Build(String),
    /// The built library could not be loaded.
    Load(String),
    /// A file or record operation failed; its message.
    Store(String),
}

impl InstallFailure {
    /// The error answer for the failure: status 500 and its message.
    pub fn to_error(&self) -> (e: ApiError)
        ensures
            e.status == 500,
            e.message@ == match self {
                InstallFailure::Clone(d) => "Git clone failed: "@ + d@,
                InstallFailure::BuildStart(d) => "Compilation failed to start: "@ + d@,
                InstallFailure::Build(d) => "Compilation failed: "@ + d@,
                InstallFailure::Load(d) => "Failed to load installed library: "@ + d@,
                InstallFailure::Store(d) => d@,
            },
    {
        let (prefix, detail) = match self {
            InstallFailure::Clone(d) => ("Git clone failed: ", d),
            InstallFailure::BuildStart(d) => ("Compilation failed to start: ", d),
            InstallFailure::Build(d) => ("Compilation failed: ", d),
            InstallFailure::Load(d) => ("Failed to load installed library: ", d),
            InstallFailure::Store(d) => ("", d),
        };
        let mut m = owned(prefix);
        append(&mut m, detail.as_str());
        proof {
            reveal_strlit("");
            assert(""@ + detail@ =~= detail@);
        }
        ApiError { status: 500, message: m }
    }
}

// ---------------------------------------------------------------------------
// Laws.
// ---------------------------------------------------------------------------
/// A `Bearer` header yields exactly the token that follows the scheme.
pub proof fn law_bearer_round_trip(token: Seq<char>)
    ensures
        bearer(Some("Bearer "@ + token)) == Ok::<Seq<char>, (u16, Seq<char>)>(token),
{
    reveal_strlit("Bearer ");
    let h = "Bearer "@ + token;
    assert(h.take(7) =~= "Bearer "@);
    assert(h.skip(7) =~= token);
}

/// A library file name never holds a `-`.
pub proof fn law_library_file_has_no_dash(id: Seq<char>, os: TargetOs)
    ensures
        !library_file(id, os).contains('-'),
{
    reveal_strlit("lib");
    reveal_strlit(".dll");
    reveal_strlit(".dylib");
    reveal_strlit(".so");
    let stem = replace_char(id, '-', '_');
    assert(!stem.contains('-')) by {
        if stem.contains('-') {
            let k = choose|k: int| 0 <= k < stem.len() && stem[k] == '-';
            assert(stem[k] == (if id[k] == '-' { '_' } else { id[k] }));
        }
    }
    let f = library_file(id, os);
    if f.contains('-') {
        let k = choose|k: int| 0 <= k < f.len() && f[k] == '-';
        match os {
            TargetOs::Windows => {
                if k < stem.len() { assert(f[k] == stem[k]); }
            },
            TargetOs::MacOs => {
                if 3 <= k < 3 + stem.len() { assert(f[k] == stem[k - 3]); }
            },
            TargetOs::Other => {
                if 3 <= k < 3 + stem.len() { assert(f[k] == stem[k - 3]); }
            },
        }
    }
}

/// A token issued at login authenticates its user for the session's lifetime
/// (24 hours, plus the leeway of the expiry check).
pub proof fn law_session_round_trip(
    username: Seq<char>,
    role: Seq<char>,
    issued_at: i64,
    now_secs: u64,
    secret: Seq<u8>,
    token: Seq<char>,
)
    requires
        hs256_claims(token, secret) == Some((username, role, session_expiry(issued_at) as i64)),
        session_expiry(issued_at) <= i64::MAX,
        now_secs <= session_expiry(issued_at) + expiry_leeway(),
    ensures
        session_of(Some("Bearer "@ + token), secret, now_secs) == Ok::<(Seq<char>, Seq<char>), (u16, Seq<char>)>((username, role)),
{
    law_bearer_round_trip(token);
}

/// The administrator created at first start with the configured password
/// (`ADMIN_PASSWORD`, else `admin123`) passes the login password check with
/// it, so a login with that password is granted.
pub proof fn law_first_admin_logs_in(admin: User, password: Seq<char>)
    requires
        phc_parse_error(admin.password_hash@) is None,
        argon2_accepts(password, admin.password_hash@),
    ensures
        password_check(password, admin.password_hash@) == Ok::<(), (u16, Seq<char>)>(()),
        login_refusal(Ok(Some(admin)), password) is None,
{
}

/// A login does not reveal whether the user exists: an unknown user and a
/// known user with a wrong password get the same answer, a 401
/// "Invalid credentials".
pub proof fn law_login_hides_unknown_users(known: User, password: Seq<char>)
    requires
        phc_parse_error(known.password_hash@) is None,
        !argon2_accepts(password, known.password_hash@),
    ensures
        login_refusal(Ok(Some(known)), password) == login_refusal(Ok(None), password),
        login_refusal(Ok(None), password) == Some((401u16, "Invalid credentials"@)),
{
}

/// The token of a login authenticates its user: a request that carries it as
/// a bearer token at any time from the login until the session's expiry (plus
/// the leeway) is the user with the user's role.
pub proof fn law_login_then_authenticate(resp: LoginResponse, user: User, issued_at: i64, now_secs: u64, secret: Seq<u8>)
    requires
        grants_session(resp, user, issued_at, secret),
        0 <= issued_at <= now_secs,
        issued_at <= i64::MAX - session_secs(),
        now_secs <= session_expiry(issued_at) + expiry_leeway(),
    ensures
        session_of(Some("Bearer "@ + resp.token@), secret, now_secs)
            == Ok::<(Seq<char>, Seq<char>), (u16, Seq<char>)>((user.username@, user.role@)),
{
    law_session_round_trip(user.username@, user.role@, issued_at, now_secs, secret, resp.token@);
}

/// The build command of a curated module runs `cargo` with the arguments
/// `build --release -p <id>`, for an id that is a single word.
pub proof fn law_curated_build_command(id: Seq<char>)
    requires
        is_word(id),
    ensures
        words(curated_build_command(id)) == curated_build_prefix().push(id),
{
    let parts = curated_build_prefix();
    assert forall|i: int| 0 <= i < parts.len() implies is_word(#[trigger] parts[i]) by {
        assert(unicode_whitespace(' '));
    }
    lemma_words_of_spaced(parts, id);
}


/// A store entry is marked installed exactly when its id is among the
/// installed ids, wherever it stands in them.
pub proof fn law_store_entry_installed_iff_listed(
    e: StoreModule,
    id: Seq<char>,
    name: Seq<char>,
    description: Seq<char>,
    installed: Seq<Seq<char>>,
    j: int,
)
    requires
        is_store_entry(e, id, name, description, installed),
    ensures
        0 <= j < installed.len() && installed[j] == id ==> e.is_installed,
        (forall|i: int| 0 <= i < installed.len() ==> installed[i] != id) ==> !e.is_installed,
{
}

} // verus!
