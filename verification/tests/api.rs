use metrics_core::api::{
    apply_module_config, apply_toggle, bearer_token, check_password, claims_from_token, cloned_build_line,
    command_parts, curated_build_line, found_module, installed_record, is_curated, library_file_name,
    log_view_limit, login_account, login_response, password_verdict, require_admin, session_claims,
    store_catalog, store_failure, Claims, InstallFailure, InstallPayload, ModuleConfigPayload, TargetOs,
    TokenClaims,
};
use metrics_core::model::ModuleMetadata;
use metrics_core::records::{ModuleRecord, Timestamp, User};
use metrics_core::storage::default_admin;

fn module() -> ModuleRecord {
    ModuleRecord {
        id: "metrics-zfs".to_string(),
        name: "ZFS Storage".to_string(),
        version: "0.1.0".to_string(),
        author: "A".to_string(),
        description: "D".to_string(),
        config: "{}".to_string(),
        default_config: "{\"mock\": true}".to_string(),
        interval_secs: 60,
        cron: None,
        enabled: false,
        status: "installed".to_string(),
        last_run: Some(Timestamp { secs: 1, nanos: 2 }),
        last_error: Some("e".to_string()),
        lib_path: "/x.so".to_string(),
    }
}

#[test]
fn bearer_header_parsing() {
    assert_eq!(bearer_token(Some("Bearer abc.def")).ok(), Some("abc.def".to_string()));
    assert_eq!(bearer_token(Some("Bearer ")).ok(), Some(String::new()));
    let e = bearer_token(None).unwrap_err();
    assert_eq!((e.status, e.message.as_str()), (401, "Missing Authorization header"));
    let e = bearer_token(Some("Basic abc")).unwrap_err();
    assert_eq!((e.status, e.message.as_str()), (401, "Invalid Authorization header format"));
    let e = bearer_token(Some("bearer abc")).unwrap_err();
    assert_eq!(e.status, 401);
}

#[test]
fn token_claims_to_identity() {
    let c = claims_from_token(Some(TokenClaims { sub: "bob".to_string(), role: "viewer".to_string(), exp: 9 }))
        .ok()
        .unwrap();
    assert_eq!((c.username.as_str(), c.role.as_str()), ("bob", "viewer"));
    let e = claims_from_token(None).err().unwrap();
    assert_eq!((e.status, e.message.as_str()), (401, "Invalid or expired token"));
}

#[test]
fn only_admins_change_things() {
    let admin = Claims { username: "a".to_string(), role: "admin".to_string() };
    let viewer = Claims { username: "v".to_string(), role: "viewer".to_string() };
    assert!(require_admin(&admin).is_ok());
    let e = require_admin(&viewer).unwrap_err();
    assert_eq!((e.status, e.message.as_str()), (403, "Admin role required"));
}

#[test]
fn login_account_lookup() {
    let e = login_account(Err("db down".to_string())).err().unwrap();
    assert_eq!((e.status, e.message.as_str()), (500, "db down"));
    let e = login_account(Ok(None)).err().unwrap();
    assert_eq!((e.status, e.message.as_str()), (401, "Invalid credentials"));
    let u = User { username: "u".to_string(), password_hash: "h".to_string(), role: "viewer".to_string() };
    assert_eq!(login_account(Ok(Some(u))).ok().unwrap().username, "u");
}

#[test]
fn password_checks_against_real_hash() {
    let admin = default_admin("s3cret").ok().unwrap();
    assert_eq!(admin.username, "admin");
    assert_eq!(admin.role, "admin");
    assert!(admin.password_hash.starts_with("$argon2id$"));
    assert!(check_password(&admin, "s3cret").is_ok());
    let e = check_password(&admin, "wrong").unwrap_err();
    assert_eq!((e.status, e.message.as_str()), (401, "Invalid credentials"));
}

#[test]
fn malformed_hash_is_server_error() {
    let u = User { username: "u".to_string(), password_hash: "not a phc string".to_string(), role: "admin".to_string() };
    let e = check_password(&u, "x").unwrap_err();
    assert_eq!(e.status, 500);
    assert!(e.message.starts_with("Invalid password hash format: "));
    assert!(e.message.len() > "Invalid password hash format: ".len());
}

#[test]
fn password_verdicts() {
    assert!(password_verdict(None, true).is_ok());
    let e = password_verdict(None, false).unwrap_err();
    assert_eq!((e.status, e.message.as_str()), (401, "Invalid credentials"));
    let e = password_verdict(Some("bad salt".to_string()), true).unwrap_err();
    assert_eq!((e.status, e.message.as_str()), (500, "Invalid password hash format: bad salt"));
}

#[test]
fn session_lasts_a_day() {
    let u = User { username: "u".to_string(), password_hash: "h".to_string(), role: "viewer".to_string() };
    let c = session_claims(&u, 1_700_000_000);
    assert_eq!((c.sub.as_str(), c.role.as_str(), c.exp), ("u", "viewer", 1_700_086_400));
    let r = login_response("tok".to_string(), &u);
    assert_eq!((r.token.as_str(), r.role.as_str()), ("tok", "viewer"));
}

#[test]
fn module_lookup() {
    let e = found_module(Ok(None)).err().unwrap();
    assert_eq!((e.status, e.message.as_str()), (404, "Module not found"));
    let e = found_module(Err("boom".to_string())).err().unwrap();
    assert_eq!((e.status, e.message.as_str()), (500, "boom"));
    assert_eq!(found_module(Ok(Some(module()))).ok().unwrap().id, "metrics-zfs");
    let e = store_failure("x".to_string());
    assert_eq!((e.status, e.message.as_str()), (500, "x"));
}

#[test]
fn config_change_keeps_the_rest() {
    let m = apply_module_config(module(), ModuleConfigPayload { config: "{\"pools\":[]}".to_string(), interval_secs: 5 });
    assert_eq!(m.config, "{\"pools\":[]}");
    assert_eq!(m.interval_secs, 5);
    assert_eq!(m.status, "installed");
    assert_eq!(m.last_error, Some("e".to_string()));
    assert_eq!(m.default_config, "{\"mock\": true}");
}

#[test]
fn toggling_sets_status() {
    let on = apply_toggle(module(), true);
    assert!(on.enabled);
    assert_eq!(on.status, "running");
    let off = apply_toggle(on, false);
    assert!(!off.enabled);
    assert_eq!(off.status, "paused");
    assert_eq!(off.config, "{}");
}

#[test]
fn logs_view_shows_fifty() {
    assert_eq!(log_view_limit(), 50);
}

#[test]
fn store_marks_installed_modules() {
    let installed = vec!["metrics-zfs".to_string(), "custom".to_string()];
    let s = store_catalog(&installed);
    assert_eq!(s.len(), 3);
    assert_eq!(s[0].id, "metrics-system");
    assert!(!s[0].is_installed);
    assert_eq!(s[1].id, "metrics-zfs");
    assert!(s[1].is_installed);
    assert_eq!(s[1].repo_url, "curated://metrics-zfs");
    assert_eq!(s[2].name, "Immich Statistics");
    assert_eq!(s[2].author, "Metrics Core Team");
    assert!(!s[2].is_installed);
}

#[test]
fn curated_sources() {
    assert!(is_curated(&InstallPayload { id: "x".to_string(), git_url: None }));
    assert!(is_curated(&InstallPayload { id: "x".to_string(), git_url: Some("curated://x".to_string()) }));
    assert!(!is_curated(&InstallPayload { id: "x".to_string(), git_url: Some("https://git/x".to_string()) }));
}

#[test]
fn library_names_per_platform() {
    assert_eq!(library_file_name("metrics-system", TargetOs::Other), "libmetrics_system.so");
    assert_eq!(library_file_name("metrics-system", TargetOs::MacOs), "libmetrics_system.dylib");
    assert_eq!(library_file_name("metrics-system", TargetOs::Windows), "metrics_system.dll");
}

#[test]
fn build_commands() {
    assert_eq!(curated_build_line("metrics-zfs"), "cargo build --release -p metrics-zfs");
    assert_eq!(cloned_build_line("/w/modules/custom/m"), "cargo build --release --manifest-path /w/modules/custom/m/Cargo.toml");
    let (p, args) = command_parts("cargo build --release -p metrics-zfs").unwrap();
    assert_eq!(p, "cargo");
    assert_eq!(args, vec!["build", "--release", "-p", "metrics-zfs"]);
    let (_, args) = command_parts(&cloned_build_line("/my dir")).unwrap();
    assert_eq!(args, vec!["build", "--release", "--manifest-path", "/my", "dir/Cargo.toml"]);
    assert!(command_parts("  \t ").is_none());
}

#[test]
fn fresh_install_record() {
    let md = ModuleMetadata {
        name: "N".to_string(),
        version: "1".to_string(),
        author: "A".to_string(),
        description: "D".to_string(),
        default_config: "{}".to_string(),
    };
    let r = installed_record("m".to_string(), md, "/bin/libm.so".to_string());
    assert_eq!(r.config, "{}");
    assert_eq!(r.interval_secs, 60);
    assert!(!r.enabled);
    assert_eq!(r.status, "installed");
    assert_eq!(r.last_run, None);
    assert_eq!(r.lib_path, "/bin/libm.so");
}

#[test]
fn install_failures() {
    let e = InstallFailure::Build("error[E0425]".to_string()).to_error();
    assert_eq!((e.status, e.message.as_str()), (500, "Compilation failed: error[E0425]"));
    let e = InstallFailure::Clone("no repo".to_string()).to_error();
    assert_eq!(e.message, "Git clone failed: no repo");
    let e = InstallFailure::BuildStart("no cargo".to_string()).to_error();
    assert_eq!(e.message, "Compilation failed to start: no cargo");
    let e = InstallFailure::Load("bad elf".to_string()).to_error();
    assert_eq!(e.message, "Failed to load installed library: bad elf");
}
