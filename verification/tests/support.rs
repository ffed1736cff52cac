use metrics_core::settings::{
    admin_password_setting, db_dir_setting, db_file_path, log_filter_setting, parse_u16, port_setting,
};
use metrics_core::split::{split_lines, split_words, trim};
use metrics_core::storage::{admin_from_hash, is_missing, log_record, logs_query, needs_admin, recover_missing};
use metrics_core::records::Timestamp;
use metrics_core::text::{contains, decimal, replace, same_text, skip_chars, starts_with, trim_end};

#[test]
fn port_parsing_matches_std() {
    for s in ["0", "3000", "+8080", "65535", "65536", "", "+", "-1", "-0", " 80", "80 ", "0080", "99999999999999999999", "８０"] {
        assert_eq!(parse_u16(s), s.parse::<u16>().ok(), "input {:?}", s);
    }
}

#[test]
fn settings_defaults() {
    assert_eq!(port_setting(None), 3000);
    assert_eq!(port_setting(Some("8080")), 8080);
    assert_eq!(port_setting(Some("eighty")), 3000);
    assert_eq!(admin_password_setting(None), "admin123");
    assert_eq!(admin_password_setting(Some("pw")), "pw");
    assert_eq!(db_dir_setting(None), "./data");
    assert_eq!(log_filter_setting(None), "info,metrics_core=debug");
    assert_eq!(db_file_path("/var/lib/m//"), "/var/lib/m/metrics.skv");
    assert_eq!(db_file_path("./data"), "./data/metrics.skv");
}

#[test]
fn missing_table_errors() {
    assert!(is_missing("The table 'user' does not exist"));
    assert!(is_missing("record not found"));
    assert!(!is_missing("connection reset"));
    assert_eq!(recover_missing(Err::<Vec<u8>, String>("table does not exist".to_string()), vec![]), Ok(vec![]));
    assert_eq!(recover_missing(Err::<Option<u8>, String>("io".to_string()), None), Err("io".to_string()));
    assert_eq!(recover_missing(Ok::<Option<u8>, String>(Some(3)), None), Ok(Some(3)));
}

#[test]
fn log_queries() {
    assert_eq!(logs_query(true, 50), "SELECT * FROM log WHERE module_id = $mid ORDER BY timestamp DESC LIMIT 50");
    assert_eq!(logs_query(false, 7), "SELECT * FROM log ORDER BY timestamp DESC LIMIT 7");
    let r = log_record("m", Timestamp { secs: 3, nanos: 4 }, "warn", "hi");
    assert_eq!((r.module_id.as_str(), r.level.as_str(), r.message.as_str()), ("m", "warn", "hi"));
    assert_eq!(r.timestamp, Timestamp { secs: 3, nanos: 4 });
}

#[test]
fn first_admin() {
    assert!(needs_admin(0));
    assert!(!needs_admin(2));
    let u = admin_from_hash(Ok("$argon2id$x".to_string())).ok().unwrap();
    assert_eq!((u.username.as_str(), u.role.as_str(), u.password_hash.as_str()), ("admin", "admin", "$argon2id$x"));
    assert_eq!(admin_from_hash(Err("too long".to_string())).err().unwrap(), "Password hashing failed: too long");
}

#[test]
fn splitting_matches_std() {
    for s in ["", " a  b\tc ", "x\u{a0}y", "one", "\n\n", "a\r\nb\n", "a\rb\n\nc", "tail\r", "é  ü"] {
        assert_eq!(split_words(s), s.split_whitespace().collect::<Vec<_>>(), "words of {:?}", s);
        assert_eq!(split_lines(s), s.lines().collect::<Vec<_>>(), "lines of {:?}", s);
        assert_eq!(trim(s), s.trim(), "trim of {:?}", s);
    }
}

#[test]
fn text_helpers() {
    assert_eq!(decimal(0), "0");
    assert_eq!(decimal(u64::MAX), u64::MAX.to_string());
    assert_eq!(replace("a-b-c", '-', '_'), "a_b_c");
    assert_eq!(trim_end("x///", '/'), "x");
    assert_eq!(trim_end("///", '/'), "");
    assert!(starts_with("curated://x", "curated://"));
    assert!(!starts_with("cur", "curated://"));
    assert!(contains("abcabd", "abd"));
    assert!(contains("abc", ""));
    assert!(!contains("ab", "abc"));
    assert!(same_text("é", "é"));
    assert_eq!(skip_chars("Bearer é", 7), "é");
}

#[test]
fn whitespace_matches_std_on_every_char() {
    for c in (0u32..=0x10FFFF).filter_map(char::from_u32) {
        let text = c.to_string();
        assert_eq!(split_words(&text).is_empty(), c.is_whitespace(), "char {:?}", c);
    }
}
