use gws::clasp_config::{
    load_clasp_config_from, resolve_dir, resolve_script_id, validate_clasp_config, ClaspConfig,
    ClaspFile,
};
use gws::GwsError;

const CWD: &str = "/home/dev/project";

fn config(script_id: &str, root_dir: Option<&str>) -> ClaspConfig {
    ClaspConfig {
        script_id: script_id.to_string(),
        root_dir: root_dir.map(|d| d.to_string()),
    }
}

#[test]
fn test_clasp_config_parse() {
    let config = validate_clasp_config(config("abc123", Some(".")), CWD).unwrap();
    assert_eq!(config.script_id, "abc123");
    assert_eq!(config.root_dir.as_deref(), Some("."));
}

#[test]
fn test_clasp_config_no_root_dir() {
    let config = validate_clasp_config(config("xyz789", None), CWD).unwrap();
    assert_eq!(config.script_id, "xyz789");
    assert!(config.root_dir.is_none());
}

#[test]
fn test_clasp_config_malicious_root_dir() {
    let result = validate_clasp_config(config("abc", Some("../../.ssh")), CWD);
    assert!(result.is_err());
    let msg = result.unwrap_err().message();
    assert!(msg.contains("rootDir"), "got: {msg}");
}

#[test]
fn test_clasp_config_malicious_script_id() {
    let result = validate_clasp_config(config("../../../etc/passwd", None), CWD);
    assert!(result.is_err());
    let msg = result.unwrap_err().message();
    assert!(msg.contains("scriptId"), "got: {msg}");
}

#[test]
fn test_resolve_script_id_explicit() {
    let id = resolve_script_id(Some(&"explicit123".to_string()), None).unwrap();
    assert_eq!(id, "explicit123");
}

#[test]
fn test_resolve_script_id_no_config() {
    let result = resolve_script_id(None, None);
    assert!(result.is_err());
    let msg = result.unwrap_err().message();
    assert!(msg.contains(".clasp.json"), "got: {msg}");
}

#[test]
fn resolve_script_id_flag_beats_config() {
    let id = resolve_script_id(Some(&"flag".to_string()), Some(config("file", None))).unwrap();
    assert_eq!(id, "flag");
}

#[test]
fn resolve_script_id_from_config() {
    let id = resolve_script_id(None, Some(config("fromfile", None))).unwrap();
    assert_eq!(id, "fromfile");
}

#[test]
fn clasp_config_empty_script_id() {
    let err = validate_clasp_config(config("", None), CWD).unwrap_err();
    assert_eq!(err.message(), ".clasp.json: scriptId must not be empty");
    assert!(matches!(err, GwsError::Validation(_)));
}

#[test]
fn clasp_config_script_id_messages() {
    let err = validate_clasp_config(config("../../../etc/passwd", None), CWD).unwrap_err();
    assert_eq!(
        err.message(),
        ".clasp.json: invalid scriptId: Resource name must not contain path traversal ('..') segments: ../../../etc/passwd"
    );
    let err = validate_clasp_config(config("abc?x=1", None), CWD).unwrap_err();
    assert_eq!(
        err.message(),
        ".clasp.json: invalid scriptId: Resource name must not contain '?', '#' or '%': abc?x=1"
    );
    let err = validate_clasp_config(config("ab\u{7}c", None), CWD).unwrap_err();
    assert_eq!(
        err.message(),
        ".clasp.json: invalid scriptId: Resource name must not contain control characters"
    );
    // ".." only counts as a whole piece
    assert!(validate_clasp_config(config("a..b", None), CWD).is_ok());
}

#[test]
fn clasp_config_root_dir_message() {
    let err = validate_clasp_config(config("abc", Some("../../.ssh")), CWD).unwrap_err();
    assert_eq!(
        err.message(),
        ".clasp.json: invalid rootDir: Directory '../../.ssh' resolves outside the current directory"
    );
    assert!(validate_clasp_config(config("abc", Some("src/../lib")), CWD).is_ok());
}

#[test]
fn resolve_dir_precedence() {
    let flag = "src".to_string();
    let cfg = Some(config("abc", Some("lib")));
    assert_eq!(resolve_dir(Some(&flag), cfg, CWD).unwrap(), "/home/dev/project/src");
    let cfg = Some(config("abc", Some("lib")));
    assert_eq!(resolve_dir(None, cfg, CWD).unwrap(), "/home/dev/project/lib");
    let cfg = Some(config("abc", None));
    assert_eq!(resolve_dir(None, cfg, CWD).unwrap(), CWD);
    assert_eq!(resolve_dir(None, None, CWD).unwrap(), CWD);
}

#[test]
fn resolve_dir_refuses_escape() {
    let flag = "../elsewhere".to_string();
    let err = resolve_dir(Some(&flag), None, CWD).unwrap_err();
    assert_eq!(
        err.message(),
        "Directory '../elsewhere' resolves outside the current directory"
    );
}

#[test]
fn test_clasp_config_missing() {
    let config = load_clasp_config_from(ClaspFile::Missing, CWD).unwrap();
    assert!(config.is_none());
}

#[test]
fn loading_outcomes() {
    let c = load_clasp_config_from(ClaspFile::Parsed(config("abc", Some("src"))), CWD)
        .unwrap()
        .unwrap();
    assert_eq!(c.script_id, "abc");
    let e = load_clasp_config_from(ClaspFile::Unreadable("denied".to_string()), CWD).unwrap_err();
    assert_eq!(e.message(), "Failed to read .clasp.json: denied");
    let e = load_clasp_config_from(ClaspFile::Malformed("missing field".to_string()), CWD)
        .unwrap_err();
    assert_eq!(e.message(), "Failed to parse .clasp.json: missing field");
    let e = load_clasp_config_from(ClaspFile::Parsed(config("", None)), CWD).unwrap_err();
    assert!(e.message().contains(".clasp.json"));
}
