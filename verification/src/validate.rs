//! Checks on names and paths that come from flags, `.clasp.json` or the API.
use vstd::prelude::*;

use crate::error::{validation_error, validation_error2, GwsError};
use crate::path::{absolute_text, resolve_path, resolve_within, stays_within};
use crate::text::{chars_of, has_char};

verus! {

/// `r` is a validation error with the message `m`.
pub open spec fn fails_with<T>(r: Result<T, GwsError>, m: Seq<char>) -> bool {
    &&& r is Err
    &&& r->Err_0 is Validation
    &&& r->Err_0.text() == m
}

/// A control character (Unicode general category `Cc`, as `char::is_control`).
pub open spec fn is_control_char(c: char) -> bool {
    c <= '\u{1f}' || ('\u{7f}' <= c && c <= '\u{9f}')
}

/// `s` holds a control character.
pub open spec fn has_control_char(s: Seq<char>) -> bool {
    exists|i: int| 0 <= i < s.len() && is_control_char(#[trigger] s[i])
}

/// `s` holds a `..` piece between `/` separators (or the ends of `s`).
pub open spec fn has_parent_piece(s: Seq<char>) -> bool {
    exists|i: int| #[trigger] parent_piece_at(s, i)
}

/// A `..` piece starts at position `i` of `s`.
pub open spec fn parent_piece_at(s: Seq<char>, i: int) -> bool {
    &&& 0 <= i
    &&& i + 2 <= s.len()
    &&& s[i] == '.'
    &&& s[i + 1] == '.'
    &&& (i == 0 || s[i - 1] == '/')
    &&& (i + 2 == s.len() || s[i + 2] == '/')
}

/// Why the resource name `s` is refused, as the message given; `None` where it is accepted.
pub open spec fn resource_name_error(s: Seq<char>) -> Option<Seq<char>> {
    if s.len() == 0 {
        Some("Resource name must not be empty"@)
    } else if has_parent_piece(s) {
        Some("Resource name must not contain path traversal ('..') segments: "@ + s)
    } else if has_control_char(s) {
        Some("Resource name must not contain control characters"@)
    } else if has_char(s, '?') || has_char(s, '#') || has_char(s, '%') {
        Some("Resource name must not contain '?', '#' or '%': "@ + s)
    } else {
        None
    }
}

/// Why the script file name `s` is refused, as the message given; `None` where it is accepted.
pub open spec fn script_filename_error(s: Seq<char>) -> Option<Seq<char>> {
    if s.len() == 0 {
        Some("Script file name must not be empty"@)
    } else if has_char(s, '/') || has_char(s, '\\') {
        Some("Script file name must not contain path separators: "@ + s)
    } else if s == seq!['.'] || s == seq!['.', '.'] {
        Some("Script file name must not be '.' or '..'"@)
    } else if has_control_char(s) {
        Some("Script file name must not contain control characters"@)
    } else {
        None
    }
}

/// Why the directory `dir`, read from `cwd`, is refused (`label` names it in the
/// message); `None` where it is accepted.
pub open spec fn dir_error(label: Seq<char>, cwd: Seq<char>, dir: Seq<char>) -> Option<Seq<char>> {
    if has_control_char(dir) {
        Some(label + " must not contain control characters"@)
    } else if !stays_within(cwd, dir) {
        Some(label + " '"@ + dir + "' resolves outside the current directory"@)
    } else {
        None
    }
}

/// Whether `s` holds a control character.
pub fn contains_control_char(s: &str) -> (r: bool)
    ensures
        r == has_control_char(s@),
{
    let v = chars_of(s);
    let mut i: usize = 0;
    while i < v.len()
        invariant
            v@ == s@,
            i <= v@.len(),
            forall|j: int| 0 <= j < i ==> !is_control_char(#[trigger] s@[j]),
        decreases v@.len() - i,
    {
        let c = v[i];
        if c <= '\u{1f}' || ('\u{7f}' <= c && c <= '\u{9f}') {
            assert(is_control_char(s@[i as int]));
            return true;
        }
        i = i + 1;
    }
    false
}

/// Whether the character `c` occurs in `s`.
pub fn contains_char(s: &str, c: char) -> (r: bool)
    ensures
        r == has_char(s@, c),
{
    let v = chars_of(s);
    let mut i: usize = 0;
    while i < v.len()
        invariant
            v@ == s@,
            i <= v@.len(),
            forall|j: int| 0 <= j < i ==> #[trigger] s@[j] != c,
        decreases v@.len() - i,
    {
        if v[i] == c {
            assert(s@[i as int] == c);
            return true;
        }
        i = i + 1;
    }
    false
}

/// Whether `s` holds a `..` piece between `/` separators.
pub fn contains_parent_piece(s: &str) -> (r: bool)
    ensures
        r == has_parent_piece(s@),
{
    let v = chars_of(s);
    let n = v.len();
    if n < 2 {
        assert forall|i: int| !parent_piece_at(s@, i) by {}
        return false;
    }
    let mut i: usize = 0;
    while i < n - 1
        invariant
            v@ == s@,
            n == s@.len(),
            n >= 2,
            i <= n - 1,
            forall|j: int| 0 <= j < i ==> !#[trigger] parent_piece_at(s@, j),
        decreases n - 1 - i,
    {
        if v[i] == '.' && v[i + 1] == '.' && (i == 0 || v[i - 1] == '/') && (i + 2 == n || v[i + 2]
            == '/') {
            assert(parent_piece_at(s@, i as int));
            return true;
        }
        i = i + 1;
    }
    assert forall|j: int| !parent_piece_at(s@, j) by {
        if 0 <= j && j < i {
        }
    }
    false
}

/// Validates that `s` is safe to use as a resource name in a request path:
/// not empty, no `..` piece, no control character, no `?`, `#` or `%`.
pub fn validate_resource_name(s: &str) -> (r: Result<(), GwsError>)
    ensures
        resource_name_error(s@) is None ==> r is Ok,
        resource_name_error(s@) matches Some(m) ==> fails_with(r, m),
{
    if s.unicode_len() == 0 {
        return Err(validation_error("Resource name must not be empty"));
    }
    if contains_parent_piece(s) {
        return Err(
            validation_error2(
                "Resource name must not contain path traversal ('..') segments: ",
                s,
            ),
        );
    }
    if contains_control_char(s) {
        return Err(validation_error("Resource name must not contain control characters"));
    }
    if contains_char(s, '?') || contains_char(s, '#') || contains_char(s, '%') {
        return Err(validation_error2("Resource name must not contain '?', '#' or '%': ", s));
    }
    Ok(())
}

/// Validates a file name that the API reports for a project file: not empty,
/// no `/` or `\`, not `.` or `..`, no control character.
pub fn validate_script_filename(name: &str) -> (r: Result<(), GwsError>)
    ensures
        script_filename_error(name@) is None ==> r is Ok,
        script_filename_error(name@) matches Some(m) ==> fails_with(r, m),
{
    let v = chars_of(name);
    if v.len() == 0 {
        return Err(validation_error("Script file name must not be empty"));
    }
    if contains_char(name, '/') || contains_char(name, '\\') {
        return Err(validation_error2("Script file name must not contain path separators: ", name));
    }
    let is_dot = v.len() == 1 && v[0] == '.';
    let is_dot_dot = v.len() == 2 && v[0] == '.' && v[1] == '.';
    proof {
        if v.len() == 1 && v[0] == '.' {
            assert(name@ =~= seq!['.']);
        }
        if v.len() == 2 && v[0] == '.' && v[1] == '.' {
            assert(name@ =~= seq!['.', '.']);
        }
        if name@ == seq!['.'] {
            assert(name@[0] == '.');
        }
        if name@ == seq!['.', '.'] {
            assert(name@[0] == '.' && name@[1] == '.');
        }
    }
    if is_dot || is_dot_dot {
        return Err(validation_error("Script file name must not be '.' or '..'"));
    }
    if contains_control_char(name) {
        return Err(validation_error("Script file name must not contain control characters"));
    }
    Ok(())
}

/// Checks `dir`, read from `cwd`, and gives its absolute resolved text.
fn validate_dir_within(label: &str, cwd: &str, dir: &str) -> (r: Result<String, GwsError>)
    ensures
        dir_error(label@, cwd@, dir@) matches Some(m) ==> fails_with(r, m),
        dir_error(label@, cwd@, dir@) is None ==> (r matches Ok(p) && p@ == absolute_text(
            resolve_path(cwd@, dir@),
        )),
{
    if contains_control_char(dir) {
        return Err(validation_error2(label, " must not contain control characters"));
    }
    match resolve_within(cwd, dir) {
        Some(p) => Ok(p),
        None => {
            let mut m = String::from_str(label);
            m.append(" '");
            m.append(dir);
            m.append("' resolves outside the current directory");
            Err(GwsError::Validation(m))
        },
    }
}

/// The label of a working directory in messages.
pub open spec fn dir_label() -> Seq<char> {
    "Directory"@
}

/// The label of an output directory in messages.
pub open spec fn output_dir_label() -> Seq<char> {
    "Output directory"@
}

/// Validates a directory to read script files from: no control character, and,
/// read from the working directory `cwd`, it stays inside `cwd`. Gives the
/// resolved absolute path.
pub fn validate_safe_dir_path(cwd: &str, dir: &str) -> (r: Result<String, GwsError>)
    ensures
        dir_error(dir_label(), cwd@, dir@) matches Some(m) ==> fails_with(r, m),
        dir_error(dir_label(), cwd@, dir@) is None ==> (r matches Ok(p) && p@ == absolute_text(
            resolve_path(cwd@, dir@),
        )),
{
    validate_dir_within("Directory", cwd, dir)
}

/// Validates a directory to write pulled files to: no control character, and,
/// read from the working directory `cwd`, it stays inside `cwd`. Gives the
/// resolved absolute path.
pub fn validate_safe_output_dir(cwd: &str, dir: &str) -> (r: Result<String, GwsError>)
    ensures
        dir_error(output_dir_label(), cwd@, dir@) matches Some(m) ==> fails_with(r, m),
        dir_error(output_dir_label(), cwd@, dir@) is None ==> (r matches Ok(p) && p@
            == absolute_text(resolve_path(cwd@, dir@))),
{
    validate_dir_within("Output directory", cwd, dir)
}

} // verus!
