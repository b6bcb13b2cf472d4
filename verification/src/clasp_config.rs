//! Support for `.clasp.json` configuration: checking what was read, and
//! resolving the script ID and the working directory from flags or the file.
use vstd::prelude::*;

use crate::error::{validation_error, validation_error2, GwsError};
use crate::path::{absolute_text, resolve_path};
use crate::text::{contains_seq, occurs_at, str_eq};
use crate::validate::{
    dir_error,
    dir_label,
    fails_with,
    resource_name_error,
    validate_resource_name,
    validate_safe_dir_path,
};

verus! {

/// Represents a `.clasp.json` configuration file.
#[derive(Debug)]
pub struct ClaspConfig {
    pub script_id: String,
    pub root_dir: Option<String>,
}

/// The text of an optional string.
pub open spec fn opt_view(o: Option<String>) -> Option<Seq<char>> {
    match o {
        Some(s) => Some(s@),
        None => None,
    }
}

/// Why a `.clasp.json` with script ID `script_id` and root directory `root_dir`
/// is refused, read from the working directory `cwd`; `None` where it is accepted.
pub open spec fn clasp_config_error(
    script_id: Seq<char>,
    root_dir: Option<Seq<char>>,
    cwd: Seq<char>,
) -> Option<Seq<char>> {
    if script_id.len() == 0 {
        Some(".clasp.json: scriptId must not be empty"@)
    } else if resource_name_error(script_id) is Some {
        Some(".clasp.json: invalid scriptId: "@ + resource_name_error(script_id)->0)
    } else if root_dir matches Some(d) && d != "."@ && dir_error(dir_label(), cwd, d) is Some {
        Some(".clasp.json: invalid rootDir: "@ + dir_error(dir_label(), cwd, root_dir->0)->0)
    } else {
        None
    }
}

/// The message when neither `--script` nor `.clasp.json` gives a script ID.
pub open spec fn missing_script_id_message() -> Seq<char> {
    "No --script flag provided and no .clasp.json found in current directory. Either pass --script <ID> or create a .clasp.json with {\"scriptId\": \"...\"}."@
}

/// The message of a validation error, prefixed with `prefix`.
fn prefixed(prefix: &str, e: GwsError) -> (r: GwsError)
    ensures
        r is Validation,
        r.text() == prefix@ + e.text(),
{
    let m = e.message();
    validation_error2(prefix, m.as_str())
}

/// Checks a `.clasp.json` as read (the script ID against injection, the root
/// directory against path traversal from the working directory `cwd`), and
/// gives it back unchanged where it is accepted.
pub fn validate_clasp_config(config: ClaspConfig, cwd: &str) -> (r: Result<ClaspConfig, GwsError>)
    ensures
        clasp_config_error(config.script_id@, opt_view(config.root_dir), cwd@) is None ==> r
            == Ok::<ClaspConfig, GwsError>(config),
        clasp_config_error(config.script_id@, opt_view(config.root_dir), cwd@) matches Some(m)
            ==> fails_with(r, m),
{
    if config.script_id.as_str().unicode_len() == 0 {
        return Err(validation_error(".clasp.json: scriptId must not be empty"));
    }
    if let Err(e) = validate_resource_name(config.script_id.as_str()) {
        return Err(prefixed(".clasp.json: invalid scriptId: ", e));
    }
    if let Some(root_dir) = &config.root_dir {
        if !str_eq(root_dir.as_str(), ".") {
            if let Err(e) = validate_safe_dir_path(cwd, root_dir.as_str()) {
                return Err(prefixed(".clasp.json: invalid rootDir: ", e));
            }
        }
    }
    Ok(config)
}

/// What was found where `.clasp.json` is looked for.
#[derive(Debug)]
pub enum ClaspFile {
    /// There is no such file.
    Missing,
    /// The file exists but could not be read, for the reason given.
    Unreadable(String),
    /// The file was read but is not a configuration, for the parser's reason given.
    Malformed(String),
    /// The file was read and parsed.
    Parsed(ClaspConfig),
}

/// `m` mentions `.clasp.json`.
pub open spec fn names_config_file(m: Seq<char>) -> bool {
    contains_seq(m, ".clasp.json"@)
}

/// A text that starts with `lit` mentions `.clasp.json` where `lit` does at `i`.
proof fn lemma_mentions_file(lit: Seq<char>, x: Seq<char>, i: int)
    requires
        occurs_at(lit, ".clasp.json"@, i),
    ensures
        names_config_file(lit + x),
{
    let m = lit + x;
    assert(m.subrange(i, i + ".clasp.json"@.len()) =~= lit.subrange(i, i + ".clasp.json"@.len()));
    assert(occurs_at(m, ".clasp.json"@, i));
}

/// The outcome of loading `.clasp.json`: no configuration where there is no file,
/// an error where it cannot be read or parsed, and otherwise the configuration as
/// `validate_clasp_config` checks it from the working directory `cwd`. Every
/// error names `.clasp.json`.
pub fn load_clasp_config_from(file: ClaspFile, cwd: &str) -> (r: Result<Option<ClaspConfig>, GwsError>)
    ensures
        file is Missing ==> r == Ok::<Option<ClaspConfig>, GwsError>(None),
        file is Unreadable ==> fails_with(r, "Failed to read .clasp.json: "@ + file->Unreadable_0@),
        file is Malformed ==> fails_with(r, "Failed to parse .clasp.json: "@ + file->Malformed_0@),
        file is Parsed ==> match clasp_config_error(
            file->Parsed_0.script_id@,
            opt_view(file->Parsed_0.root_dir),
            cwd@,
        ) {
            None => r == Ok::<Option<ClaspConfig>, GwsError>(Some(file->Parsed_0)),
            Some(m) => fails_with(r, m),
        },
        r is Ok && r->Ok_0 is None ==> file is Missing,
        r is Err ==> names_config_file(r->Err_0.text()),
{
    proof {
        reveal_strlit(".clasp.json");
        reveal_strlit("Failed to read .clasp.json: ");
        reveal_strlit("Failed to parse .clasp.json: ");
        reveal_strlit(".clasp.json: scriptId must not be empty");
        reveal_strlit(".clasp.json: invalid scriptId: ");
        reveal_strlit(".clasp.json: invalid rootDir: ");
    }
    match file {
        ClaspFile::Missing => Ok(None),
        ClaspFile::Unreadable(reason) => {
            proof {
                assert("Failed to read .clasp.json: "@.subrange(15, 26) =~= ".clasp.json"@);
                lemma_mentions_file("Failed to read .clasp.json: "@, reason@, 15);
            }
            Err(validation_error2("Failed to read .clasp.json: ", reason.as_str()))
        },
        ClaspFile::Malformed(reason) => {
            proof {
                assert("Failed to parse .clasp.json: "@.subrange(16, 27) =~= ".clasp.json"@);
                lemma_mentions_file("Failed to parse .clasp.json: "@, reason@, 16);
            }
            Err(validation_error2("Failed to parse .clasp.json: ", reason.as_str()))
        },
        ClaspFile::Parsed(config) => {
            let ghost c = config;
            let r = validate_clasp_config(config, cwd);
            proof {
                let e = clasp_config_error(c.script_id@, opt_view(c.root_dir), cwd@);
                if e is Some {
                    assert(".clasp.json: scriptId must not be empty"@.subrange(0, 11)
                        =~= ".clasp.json"@);
                    assert(".clasp.json: invalid scriptId: "@.subrange(0, 11) =~= ".clasp.json"@);
                    assert(".clasp.json: invalid rootDir: "@.subrange(0, 11) =~= ".clasp.json"@);
                    if c.script_id@.len() == 0 {
                        assert(".clasp.json: scriptId must not be empty"@ =~= ".clasp.json: scriptId must not be empty"@
                            + Seq::<char>::empty());
                        lemma_mentions_file(
                            ".clasp.json: scriptId must not be empty"@,
                            Seq::<char>::empty(),
                            0,
                        );
                    } else if resource_name_error(c.script_id@) is Some {
                        lemma_mentions_file(
                            ".clasp.json: invalid scriptId: "@,
                            resource_name_error(c.script_id@)->0,
                            0,
                        );
                    } else {
                        lemma_mentions_file(
                            ".clasp.json: invalid rootDir: "@,
                            dir_error(dir_label(), cwd@, c.root_dir->0@)->0,
                            0,
                        );
                    }
                }
            }
            match r {
                Ok(config) => Ok(Some(config)),
                Err(e) => Err(e),
            }
        },
    }
}

/// Resolves the script ID from an explicit `--script` flag or, without one,
/// from the `.clasp.json` that was found (`None` where there is none).
pub fn resolve_script_id(explicit: Option<&String>, config: Option<ClaspConfig>) -> (r: Result<
    String,
    GwsError,
>)
    ensures
        explicit matches Some(id) ==> r == Ok::<String, GwsError>(*id),
        explicit is None && config is Some ==> r == Ok::<String, GwsError>(config->0.script_id),
        explicit is None && config is None ==> fails_with(r, missing_script_id_message()),
{
    if let Some(id) = explicit {
        return Ok(id.clone());
    }
    match config {
        Some(c) => Ok(c.script_id),
        None => Err(
            validation_error(
                "No --script flag provided and no .clasp.json found in current directory. Either pass --script <ID> or create a .clasp.json with {\"scriptId\": \"...\"}.",
            ),
        ),
    }
}

/// The text of an optional borrowed string.
pub open spec fn opt_ref_view(o: Option<&String>) -> Option<Seq<char>> {
    match o {
        Some(s) => Some(s@),
        None => None,
    }
}

/// `r` is what checking the directory `d` from `cwd` gives: the refusal message,
/// or the resolved absolute path.
pub open spec fn dir_outcome(r: Result<String, GwsError>, cwd: Seq<char>, d: Seq<char>) -> bool {
    match dir_error(dir_label(), cwd, d) {
        Some(m) => fails_with(r, m),
        None => r is Ok && r->Ok_0@ == absolute_text(resolve_path(cwd, d)),
    }
}

/// The directory that `resolve_dir` checks: the flag, else the configured root
/// directory, else none.
pub open spec fn chosen_dir(explicit_dir: Option<Seq<char>>, config: Option<ClaspConfig>) -> Option<
    Seq<char>,
> {
    match explicit_dir {
        Some(d) => Some(d),
        None => match config {
            Some(c) => opt_view(c.root_dir),
            None => None,
        },
    }
}

/// Resolves the working directory from `--dir`, the `.clasp.json` `rootDir`
/// (of the configuration that was found), or the current directory `cwd`.
pub fn resolve_dir(explicit_dir: Option<&String>, config: Option<ClaspConfig>, cwd: &str) -> (r:
    Result<String, GwsError>)
    ensures
        chosen_dir(opt_ref_view(explicit_dir), config) is None ==> (r is Ok && r->Ok_0@ == cwd@),
        chosen_dir(opt_ref_view(explicit_dir), config) is Some ==> dir_outcome(
            r,
            cwd@,
            chosen_dir(opt_ref_view(explicit_dir), config)->0,
        ),
{
    if let Some(dir) = explicit_dir {
        return validate_safe_dir_path(cwd, dir.as_str());
    }
    if let Some(c) = config {
        if let Some(root_dir) = &c.root_dir {
            return validate_safe_dir_path(cwd, root_dir.as_str());
        }
    }
    Ok(String::from_str(cwd))
}

} // verus!
