use gws::path::{path_starts_with, resolve_within};
use gws::validate::{
    validate_resource_name, validate_safe_dir_path, validate_safe_output_dir,
    validate_script_filename,
};

const CWD: &str = "/home/dev/project";

#[test]
fn resource_names() {
    assert!(validate_resource_name("1AbC-def_ghi").is_ok());
    assert_eq!(
        validate_resource_name("").unwrap_err().message(),
        "Resource name must not be empty"
    );
    assert!(validate_resource_name("a/../b").is_err());
    assert!(validate_resource_name("..").is_err());
    assert!(validate_resource_name("a/..").is_err());
    assert!(validate_resource_name("a...b").is_ok());
    assert!(validate_resource_name("a#b").is_err());
    assert!(validate_resource_name("a%2e").is_err());
    assert!(validate_resource_name("a\nb").is_err());
    assert!(validate_resource_name("a\u{85}b").is_err());
}

#[test]
fn script_filenames() {
    assert!(validate_script_filename("Code").is_ok());
    assert!(validate_script_filename(".hidden").is_ok());
    assert_eq!(
        validate_script_filename("").unwrap_err().message(),
        "Script file name must not be empty"
    );
    assert_eq!(
        validate_script_filename("../x").unwrap_err().message(),
        "Script file name must not contain path separators: ../x"
    );
    assert!(validate_script_filename("a\\b").is_err());
    assert_eq!(
        validate_script_filename("..").unwrap_err().message(),
        "Script file name must not be '.' or '..'"
    );
    assert!(validate_script_filename(".").is_err());
    assert_eq!(
        validate_script_filename("a\tb").unwrap_err().message(),
        "Script file name must not contain control characters"
    );
}

#[test]
fn safe_dir_paths() {
    assert_eq!(validate_safe_dir_path(CWD, ".").unwrap(), CWD);
    assert_eq!(validate_safe_dir_path(CWD, "./src/").unwrap(), "/home/dev/project/src");
    assert_eq!(
        validate_safe_dir_path(CWD, "a/./b/../c").unwrap(),
        "/home/dev/project/a/c"
    );
    assert_eq!(
        validate_safe_dir_path(CWD, "/home/dev/project/x").unwrap(),
        "/home/dev/project/x"
    );
    assert!(validate_safe_dir_path(CWD, "/home/dev").is_err());
    assert!(validate_safe_dir_path(CWD, "..").is_err());
    assert!(validate_safe_dir_path(CWD, "src/../../other").is_err());
    assert!(validate_safe_dir_path(CWD, "src/../../project").is_ok());
    assert_eq!(
        validate_safe_dir_path(CWD, "a\u{0}b").unwrap_err().message(),
        "Directory must not contain control characters"
    );
    assert_eq!(validate_safe_dir_path("/", "..").unwrap(), "/");
}

#[test]
fn safe_output_dirs() {
    assert_eq!(
        validate_safe_output_dir(CWD, "out").unwrap(),
        "/home/dev/project/out"
    );
    assert_eq!(
        validate_safe_output_dir(CWD, "../out").unwrap_err().message(),
        "Output directory '../out' resolves outside the current directory"
    );
}

#[test]
fn accepted_dir_reads_back_inside() {
    for dir in [".", "src", "a/b/../c", "/home/dev/project/z/"] {
        let p = resolve_within(CWD, dir).unwrap();
        assert!(path_starts_with(&p, CWD));
        assert_eq!(resolve_within(CWD, &p).unwrap(), p);
    }
}

#[test]
fn path_prefix_is_by_component() {
    assert!(path_starts_with("/a/b/c", "/a/b"));
    assert!(path_starts_with("/a/b", "/a/b/"));
    assert!(!path_starts_with("/a/bc", "/a/b"));
    assert!(!path_starts_with("/a", "/a/b"));
}
