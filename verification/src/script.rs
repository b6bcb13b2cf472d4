//! The `script` helper commands: what is pushed, what is pulled, what is sent.
use vstd::prelude::*;

use crate::clasp_config::opt_view;
use crate::json::{json_quote, json_string_member, json_string_member_of, json_string_text};
use crate::path::{components_prefix, path_components, path_starts_with};
use crate::error::{validation_error, validation_error3, GwsError};
use crate::text::{chars_of, contains_seq, contains_str, str_eq, trim_end_matches, trim_suffix_all};
use crate::validate::{fails_with, script_filename_error, validate_script_filename};

verus! {

/// The helper that adds `+push`, `+pull`, `+open`, `+run` and `+logs`.
#[derive(Debug)]
pub struct ScriptHelper;

/// The kinds of file an Apps Script project holds.
#[derive(PartialEq, Eq, Structural, Clone, Copy, Debug)]
pub enum ScriptFileType {
    /// Server-side script code (`SERVER_JS`).
    ServerJs,
    /// An HTML file (`HTML`).
    Html,
    /// The project manifest (`JSON`).
    Json,
}

/// The API's name of a file type.
pub open spec fn api_type_name(t: ScriptFileType) -> Seq<char> {
    match t {
        ScriptFileType::ServerJs => "SERVER_JS"@,
        ScriptFileType::Html => "HTML"@,
        ScriptFileType::Json => "JSON"@,
    }
}

/// The local extension (with its dot) under which a file of API type `t` is
/// written; empty for a type the helper does not know.
pub open spec fn extension_for_type(t: Seq<char>) -> Seq<char> {
    if t == "SERVER_JS"@ {
        ".gs"@
    } else if t == "HTML"@ {
        ".html"@
    } else if t == "JSON"@ {
        ".json"@
    } else {
        ""@
    }
}

impl ScriptFileType {
    /// The API's name of this file type.
    pub fn as_str(&self) -> (r: &'static str)
        ensures
            r@ == api_type_name(*self),
    {
        match self {
            ScriptFileType::ServerJs => "SERVER_JS",
            ScriptFileType::Html => "HTML",
            ScriptFileType::Json => "JSON",
        }
    }
}

/// Maps Apps Script file type to local file extension.
pub fn file_type_to_extension(file_type: &str) -> (r: &str)
    ensures
        r@ == extension_for_type(file_type@),
{
    if str_eq(file_type, "SERVER_JS") {
        ".gs"
    } else if str_eq(file_type, "HTML") {
        ".html"
    } else if str_eq(file_type, "JSON") {
        ".json"
    } else {
        ""
    }
}

/// Position of the last `c` in `s`, or -1 where there is none.
pub open spec fn last_index_of(s: Seq<char>, c: char) -> int
    decreases s.len(),
{
    if s.len() == 0 {
        -1
    } else if s.last() == c {
        s.len() - 1
    } else {
        last_index_of(s.drop_last(), c)
    }
}

/// The extension of the file name `f`, as `Path::extension` gives it: the part
/// after the last `.`, where that `.` is not the first character; none for `..`.
pub open spec fn file_extension(f: Seq<char>) -> Option<Seq<char>> {
    if f == seq!['.', '.'] || last_index_of(f, '.') <= 0 {
        None
    } else {
        Some(f.skip(last_index_of(f, '.') + 1))
    }
}

/// The views of a sequence of strings.
pub open spec fn string_views(v: Seq<String>) -> Seq<Seq<char>> {
    v.map_values(|s: String| s@)
}

/// What `+push` uploads for a local file with path components `components`,
/// file name `file_name` and extension `ext` (each empty where the path has none
/// or it is not UTF-8): its type and project name, or nothing where the file is
/// hidden, lies under `node_modules`, or is not a script, HTML or manifest file.
pub open spec fn local_file_entry(
    components: Seq<Seq<char>>,
    file_name: Seq<char>,
    ext: Seq<char>,
) -> Option<(ScriptFileType, Seq<char>)> {
    if (file_name.len() > 0 && file_name[0] == '.') || components.contains("node_modules"@) {
        None
    } else {
        if ext == "gs"@ || ext == "js"@ {
            Some(
                (
                    ScriptFileType::ServerJs,
                    trim_suffix_all(trim_suffix_all(file_name, ".js"@), ".gs"@),
                ),
            )
        } else if ext == "html"@ {
            Some((ScriptFileType::Html, trim_suffix_all(file_name, ".html"@)))
        } else if ext == "json"@ && file_name == "appsscript.json"@ {
            Some((ScriptFileType::Json, "appsscript"@))
        } else {
            None
        }
    }
}

/// A local file selected for upload: its project name and type.
#[derive(Debug)]
pub struct LocalFile {
    pub name: String,
    pub file_type: ScriptFileType,
}

/// Whether one of `components` is `node_modules`.
fn has_node_modules(components: &Vec<String>) -> (r: bool)
    ensures
        r == string_views(components@).contains("node_modules"@),
{
    let mut k: usize = 0;
    while k < components.len()
        invariant
            k <= components@.len(),
            forall|j: int| 0 <= j < k ==> components@[j]@ != "node_modules"@,
        decreases components@.len() - k,
    {
        if str_eq(components[k].as_str(), "node_modules") {
            assert(string_views(components@)[k as int] == "node_modules"@);
            return true;
        }
        k = k + 1;
    }
    assert forall|j: int| 0 <= j < string_views(components@).len() implies string_views(
        components@,
    )[j] != "node_modules"@ by {}
    false
}

/// The text of an optional string slice, empty where it is missing.
pub open spec fn opt_str_text(o: Option<&str>) -> Seq<char> {
    match o {
        Some(s) => s@,
        None => Seq::empty(),
    }
}

/// The text of an optional string slice (`""` where it is missing).
fn str_or_empty(o: Option<&str>) -> (r: &str)
    ensures
        r@ == opt_str_text(o),
{
    match o {
        Some(s) => s,
        None => {
            proof {
                reveal_strlit("");
            }
            let e = "";
            assert(e@ =~= Seq::<char>::empty());
            e
        },
    }
}

/// Decides whether a local file is uploaded by `+push`, and under which name
/// and type, from its path components, file name and extension (as
/// `Path::file_name` and `Path::extension` give them; `None` where absent or not
/// UTF-8).
pub fn classify_local_file(
    components: &Vec<String>,
    file_name: Option<&str>,
    extension: Option<&str>,
) -> (r: Option<LocalFile>)
    ensures
        match local_file_entry(
            string_views(components@),
            opt_str_text(file_name),
            opt_str_text(extension),
        ) {
            None => r is None,
            Some(e) => r matches Some(l) && l.file_type == e.0 && l.name@ == e.1,
        },
{
    let name = str_or_empty(file_name);
    let ext = str_or_empty(extension);
    let v = chars_of(name);
    if (v.len() > 0 && v[0] == '.') || has_node_modules(components) {
        return None;
    }
    if str_eq(ext, "gs") || str_eq(ext, "js") {
        let trimmed = trim_end_matches(trim_end_matches(name, ".js"), ".gs");
        Some(LocalFile { name: String::from_str(trimmed), file_type: ScriptFileType::ServerJs })
    } else if str_eq(ext, "html") {
        let trimmed = trim_end_matches(name, ".html");
        Some(LocalFile { name: String::from_str(trimmed), file_type: ScriptFileType::Html })
    } else if str_eq(ext, "json") && str_eq(name, "appsscript.json") {
        Some(LocalFile { name: String::from_str("appsscript"), file_type: ScriptFileType::Json })
    } else {
        None
    }
}

/// A project file as the API's `getContent` reply lists it; a field is `None`
/// where the reply lacks it or holds something other than a string there.
#[derive(Debug)]
pub struct RemoteFile {
    pub name: Option<String>,
    pub file_type: Option<String>,
    pub source: Option<String>,
}

/// A file that `+pull` writes: its name inside the output directory and its contents.
#[derive(Debug)]
pub struct PullWrite {
    pub file_name: String,
    pub contents: String,
}

/// The text of an optional field, empty where it is missing.
pub open spec fn or_empty(o: Option<Seq<char>>) -> Seq<char> {
    match o {
        Some(s) => s,
        None => Seq::empty(),
    }
}

/// The local file name of a project file named `name` of API type `file_type`,
/// where the type is known.
pub open spec fn pulled_file_name(name: Seq<char>, file_type: Seq<char>) -> Option<Seq<char>> {
    if extension_for_type(file_type).len() == 0 {
        None
    } else {
        Some(name + extension_for_type(file_type))
    }
}

/// The text of a field of a reply.
fn field_text(o: &Option<String>) -> (r: &str)
    ensures
        r@ == or_empty(opt_view(*o)),
{
    match o {
        Some(s) => s.as_str(),
        None => {
            proof {
                reveal_strlit("");
            }
            let e = "";
            assert(e@ =~= Seq::<char>::empty());
            e
        },
    }
}

/// Decides what `+pull` does with one file of the reply: refuse an unsafe name,
/// skip a file of unknown type, or write `{name}{extension}` with its source.
pub fn plan_pull_file(file: &RemoteFile) -> (r: Result<Option<PullWrite>, GwsError>)
    ensures
        ({
            let name = or_empty(opt_view(file.name));
            let ft = or_empty(opt_view(file.file_type));
            match script_filename_error(name) {
                Some(m) => fails_with(r, m),
                None => match pulled_file_name(name, ft) {
                    None => r matches Ok(w) && w is None,
                    Some(f) => r matches Ok(w) && w matches Some(pw) && pw.file_name@ == f
                        && pw.contents@ == or_empty(opt_view(file.source)),
                },
            }
        }),
{
    let name = field_text(&file.name);
    let file_type = field_text(&file.file_type);
    let source = field_text(&file.source);
    validate_script_filename(name)?;
    let extension = file_type_to_extension(file_type);
    if extension.unicode_len() == 0 {
        return Ok(None);
    }
    let mut file_name = String::from_str(name);
    file_name.append(extension);
    Ok(Some(PullWrite { file_name, contents: String::from_str(source) }))
}

/// The message when `getContent` gives no reply.
pub open spec fn no_pull_response_message() -> Seq<char> {
    "No response from getContent"@
}

/// The message when the `getContent` reply has no `files` array.
pub open spec fn missing_files_message() -> Seq<char> {
    "Response missing 'files' array"@
}

/// The files of a `getContent` reply: `response` is `None` where there was no
/// reply, and holds `None` where the reply has no `files` array.
pub fn pull_response_files(response: Option<Option<Vec<RemoteFile>>>) -> (r: Result<
    Vec<RemoteFile>,
    GwsError,
>)
    ensures
        response is None ==> fails_with(r, no_pull_response_message()),
        response is Some && response->0 is None ==> fails_with(r, missing_files_message()),
        response is Some && response->0 is Some ==> r == Ok::<Vec<RemoteFile>, GwsError>(
            response->0->0,
        ),
{
    match response {
        None => Err(validation_error("No response from getContent")),
        Some(None) => Err(validation_error("Response missing 'files' array")),
        Some(Some(files)) => Ok(files),
    }
}

/// The message when a pulled file would land outside the output directory.
pub open spec fn outside_output_message(file_name: Seq<char>) -> Seq<char> {
    "File '"@ + file_name + "' would be written outside output directory \u{2014} refusing"@
}

/// Refuses to write the pulled file `file_name` at `target` unless `target` lies
/// inside the output directory `output_dir`.
pub fn check_inside_output(output_dir: &str, target: &str, file_name: &str) -> (r: Result<
    (),
    GwsError,
>)
    ensures
        components_prefix(path_components(output_dir@), path_components(target@)) ==> r is Ok,
        !components_prefix(path_components(output_dir@), path_components(target@)) ==> fails_with(
            r,
            outside_output_message(file_name@),
        ),
{
    if path_starts_with(target, output_dir) {
        Ok(())
    } else {
        Err(
            validation_error3(
                "File '",
                file_name,
                "' would be written outside output directory \u{2014} refusing",
            ),
        )
    }
}

/// The subcommands of the helper.
#[derive(PartialEq, Eq, Structural, Clone, Copy, Debug)]
pub enum ScriptCommand {
    Push,
    Pull,
    Open,
    Run,
    Logs,
}

/// The name under which a subcommand is invoked.
pub open spec fn command_name(c: ScriptCommand) -> Seq<char> {
    match c {
        ScriptCommand::Push => "+push"@,
        ScriptCommand::Pull => "+pull"@,
        ScriptCommand::Open => "+open"@,
        ScriptCommand::Run => "+run"@,
        ScriptCommand::Logs => "+logs"@,
    }
}

/// The discovery resource and method that a subcommand calls (`+open` calls none).
pub open spec fn command_api_method(c: ScriptCommand) -> Option<(Seq<char>, Seq<char>)> {
    match c {
        ScriptCommand::Push => Some(("projects"@, "updateContent"@)),
        ScriptCommand::Pull => Some(("projects"@, "getContent"@)),
        ScriptCommand::Open => None,
        ScriptCommand::Run => Some(("scripts"@, "run"@)),
        ScriptCommand::Logs => Some(("processes"@, "listScriptProcesses"@)),
    }
}

impl ScriptCommand {
    /// The name under which this subcommand is invoked.
    pub fn name(&self) -> (r: &'static str)
        ensures
            r@ == command_name(*self),
    {
        match self {
            ScriptCommand::Push => "+push",
            ScriptCommand::Pull => "+pull",
            ScriptCommand::Open => "+open",
            ScriptCommand::Run => "+run",
            ScriptCommand::Logs => "+logs",
        }
    }

    /// The discovery resource and method that this subcommand calls.
    pub fn api_method(&self) -> (r: Option<(&'static str, &'static str)>)
        ensures
            match command_api_method(*self) {
                None => r is None,
                Some(m) => r matches Some(p) && p.0@ == m.0 && p.1@ == m.1,
            },
    {
        match self {
            ScriptCommand::Push => Some(("projects", "updateContent")),
            ScriptCommand::Pull => Some(("projects", "getContent")),
            ScriptCommand::Open => None,
            ScriptCommand::Run => Some(("scripts", "run")),
            ScriptCommand::Logs => Some(("processes", "listScriptProcesses")),
        }
    }
}

impl ScriptHelper {
    /// The subcommand invoked under `name`, if it is one of this helper's.
    pub fn command_for(&self, name: &str) -> (r: Option<ScriptCommand>)
        ensures
            forall|c: ScriptCommand| #[trigger] command_name(c) == name@ <==> r == Some(c),
    {
        proof {
            reveal_strlit("+push");
            reveal_strlit("+pull");
            reveal_strlit("+open");
            reveal_strlit("+run");
            reveal_strlit("+logs");
            assert("+push"@[3] != "+pull"@[3]);
            assert("+push"@[1] != "+open"@[1]);
            assert("+pull"@[1] != "+open"@[1]);
            assert("+run"@.len() != "+push"@.len());
            assert("+run"@.len() != "+pull"@.len());
            assert("+run"@.len() != "+open"@.len());
            assert("+run"@.len() != "+logs"@.len());
            assert("+logs"@[1] != "+push"@[1]);
            assert("+logs"@[1] != "+pull"@[1]);
            assert("+logs"@[1] != "+open"@[1]);
        }
        if str_eq(name, "+push") {
            Some(ScriptCommand::Push)
        } else if str_eq(name, "+pull") {
            Some(ScriptCommand::Pull)
        } else if str_eq(name, "+open") {
            Some(ScriptCommand::Open)
        } else if str_eq(name, "+run") {
            Some(ScriptCommand::Run)
        } else if str_eq(name, "+logs") {
            Some(ScriptCommand::Logs)
        } else {
            None
        }
    }
}

/// A file uploaded by `+push`: its project name, type and source text.
#[derive(Debug)]
pub struct ScriptFile {
    pub name: String,
    pub file_type: ScriptFileType,
    pub source: String,
}

/// The JSON object of one uploaded file (keys in `serde_json`'s sorted order).
pub open spec fn file_json(f: ScriptFile) -> Seq<char> {
    "{\"name\":"@ + json_string_text(f.name@) + ",\"source\":"@ + json_string_text(f.source@)
        + ",\"type\":"@ + json_string_text(api_type_name(f.file_type)) + "}"@
}

/// The JSON objects of the uploaded files, separated by commas.
pub open spec fn files_json(fs: Seq<ScriptFile>) -> Seq<char>
    decreases fs.len(),
{
    if fs.len() == 0 {
        Seq::empty()
    } else if fs.len() == 1 {
        file_json(fs[0])
    } else {
        files_json(fs.drop_last()) + ","@ + file_json(fs.last())
    }
}

/// The body of the `updateContent` request for the files `fs`.
pub open spec fn push_body(fs: Seq<ScriptFile>) -> Seq<char> {
    "{\"files\":["@ + files_json(fs) + "]}"@
}

/// The request parameters that name the script `script_id`.
pub open spec fn script_params(script_id: Seq<char>) -> Seq<char> {
    "{\"scriptId\":"@ + json_string_text(script_id) + "}"@
}

/// The body of the `scripts.run` request.
pub open spec fn run_body(function_name: Seq<char>, dev_mode: bool) -> Seq<char> {
    if dev_mode {
        "{\"devMode\":true,\"function\":"@ + json_string_text(function_name) + "}"@
    } else {
        "{\"function\":"@ + json_string_text(function_name) + "}"@
    }
}

/// The message when `+push` finds nothing to upload in `dir`.
pub open spec fn no_files_message(dir: Seq<char>) -> Seq<char> {
    "No eligible files found in '"@ + dir + "'"@
}

/// The JSON object of one uploaded file.
fn file_object(f: &ScriptFile) -> (r: String)
    ensures
        r@ == file_json(*f),
{
    let name = json_quote(f.name.as_str());
    let source = json_quote(f.source.as_str());
    let ty = json_quote(f.file_type.as_str());
    let mut out = String::from_str("{\"name\":");
    out.append(name.as_str());
    out.append(",\"source\":");
    out.append(source.as_str());
    out.append(",\"type\":");
    out.append(ty.as_str());
    out.append("}");
    out
}

/// The body of the `updateContent` request that uploads `files`; an error where
/// there is no file to upload in `dir`.
pub fn push_request_body(files: &Vec<ScriptFile>, dir: &str) -> (r: Result<String, GwsError>)
    ensures
        files@.len() == 0 ==> fails_with(r, no_files_message(dir@)),
        files@.len() > 0 ==> (r matches Ok(b) && b@ == push_body(files@)),
{
    if files.len() == 0 {
        return Err(validation_error3("No eligible files found in '", dir, "'"));
    }
    let mut out = String::from_str("{\"files\":[");
    let mut k: usize = 0;
    while k < files.len()
        invariant
            k <= files@.len(),
            out@ == "{\"files\":["@ + files_json(files@.take(k as int)),
        decreases files@.len() - k,
    {
        let obj = file_object(&files[k]);
        if k > 0 {
            out.append(",");
        }
        out.append(obj.as_str());
        proof {
            let t = files@.take(k + 1);
            assert(t.drop_last() =~= files@.take(k as int));
            assert(t.last() == files@[k as int]);
            if k == 0 {
                assert(files@.take(0) =~= Seq::<ScriptFile>::empty());
                assert(t.len() == 1 && t[0] == files@[0]);
            }
        }
        k = k + 1;
    }
    assert(files@.take(files@.len() as int) =~= files@);
    out.append("]}");
    Ok(out)
}

/// The request parameters that name the script `script_id`.
pub fn script_id_params(script_id: &str) -> (r: String)
    ensures
        r@ == script_params(script_id@),
{
    let q = json_quote(script_id);
    let mut out = String::from_str("{\"scriptId\":");
    out.append(q.as_str());
    out.append("}");
    out
}

/// The body of the `scripts.run` request for `function_name`, asking for the
/// HEAD deployment where `dev_mode` is set.
pub fn run_request_body(function_name: &str, dev_mode: bool) -> (r: String)
    ensures
        r@ == run_body(function_name@, dev_mode),
{
    let q = json_quote(function_name);
    let mut out = if dev_mode {
        String::from_str("{\"devMode\":true,\"function\":")
    } else {
        String::from_str("{\"function\":")
    };
    out.append(q.as_str());
    out.append("}");
    out
}

/// A request that a subcommand sends: the method, its parameters and body,
/// whether it only shows what it would send, and whether its reply is captured.
#[derive(Debug)]
pub struct ApiRequest {
    pub resource: &'static str,
    pub method: &'static str,
    pub params: String,
    pub body: Option<String>,
    pub dry_run: bool,
    pub capture_output: bool,
}

/// `req` is the request of `c` for the script `script_id` with body `body`,
/// where the global `--dry-run` flag is `dry_run_flag`.
pub open spec fn is_request_of(
    req: ApiRequest,
    c: ScriptCommand,
    script_id: Seq<char>,
    body: Option<Seq<char>>,
    dry_run_flag: bool,
) -> bool {
    &&& command_api_method(c) is Some
    &&& req.resource@ == (command_api_method(c)->0).0
    &&& req.method@ == (command_api_method(c)->0).1
    &&& req.params@ == script_params(script_id)
    &&& opt_view(req.body) == body
    &&& req.dry_run == (honours_dry_run(c) && dry_run_flag)
    &&& req.capture_output == (c == ScriptCommand::Pull)
}

/// The request of `c` (not `+open`) for `script_id` with `body`.
fn api_request(c: ScriptCommand, script_id: &str, body: Option<String>, dry_run_flag: bool) -> (r:
    ApiRequest)
    requires
        c != ScriptCommand::Open,
    ensures
        is_request_of(r, c, script_id@, opt_view(body), dry_run_flag),
{
    let (resource, method) = match c.api_method() {
        Some(m) => m,
        None => {
            assert(false);
            ("", "")
        },
    };
    ApiRequest {
        resource,
        method,
        params: script_id_params(script_id),
        body,
        dry_run: uses_dry_run(c) && dry_run_flag,
        capture_output: captures_output(c),
    }
}

/// The `projects.updateContent` request of `+push`, which replaces all files of
/// the script with `files`; an error where there is no file to upload in `dir`.
pub fn push_request(script_id: &str, files: &Vec<ScriptFile>, dir: &str, dry_run_flag: bool) -> (r:
    Result<ApiRequest, GwsError>)
    ensures
        files@.len() == 0 ==> fails_with(r, no_files_message(dir@)),
        files@.len() > 0 ==> (r matches Ok(req) && is_request_of(
            req,
            ScriptCommand::Push,
            script_id@,
            Some(push_body(files@)),
            dry_run_flag,
        )),
{
    let body = push_request_body(files, dir)?;
    Ok(api_request(ScriptCommand::Push, script_id, Some(body), dry_run_flag))
}

/// The `projects.getContent` request of `+pull` (never a dry run, reply captured).
pub fn pull_request(script_id: &str) -> (r: ApiRequest)
    ensures
        is_request_of(r, ScriptCommand::Pull, script_id@, None, false),
{
    api_request(ScriptCommand::Pull, script_id, None, false)
}

/// The `scripts.run` request of `+run` for `function_name`.
pub fn run_request(script_id: &str, function_name: &str, dev_mode: bool, dry_run_flag: bool) -> (r:
    ApiRequest)
    ensures
        is_request_of(
            r,
            ScriptCommand::Run,
            script_id@,
            Some(run_body(function_name@, dev_mode)),
            dry_run_flag,
        ),
{
    let body = run_request_body(function_name, dev_mode);
    api_request(ScriptCommand::Run, script_id, Some(body), dry_run_flag)
}

/// The `processes.listScriptProcesses` request of `+logs`.
pub fn logs_request(script_id: &str, dry_run_flag: bool) -> (r: ApiRequest)
    ensures
        is_request_of(r, ScriptCommand::Logs, script_id@, None, dry_run_flag),
{
    api_request(ScriptCommand::Logs, script_id, None, dry_run_flag)
}

/// The address of the script editor for `script_id`.
pub open spec fn editor_url(script_id: Seq<char>) -> Seq<char> {
    "https://script.google.com/d/"@ + script_id + "/edit"@
}

/// The address of the script editor for `script_id`.
pub fn script_editor_url(script_id: &str) -> (r: String)
    ensures
        r@ == editor_url(script_id@),
{
    let mut out = String::from_str("https://script.google.com/d/");
    out.append(script_id);
    out.append("/edit");
    out
}

/// The scope that `scripts.run` is authorised with: the discovery document lists
/// the scopes of the services a script uses, and `cloud-platform` covers them all.
pub open spec fn run_scope() -> Seq<char> {
    "https://www.googleapis.com/auth/cloud-platform"@
}

/// The scopes that a subcommand's request asks for, given the scopes that the
/// discovery document lists for its method.
pub open spec fn scopes_for(c: ScriptCommand, method_scopes: Seq<Seq<char>>) -> Seq<Seq<char>> {
    if c == ScriptCommand::Run {
        seq![run_scope()]
    } else {
        method_scopes
    }
}

/// The scopes that the request of `c` asks for.
pub fn request_scopes(c: ScriptCommand, method_scopes: Vec<String>) -> (r: Vec<String>)
    ensures
        string_views(r@) == scopes_for(c, string_views(method_scopes@)),
{
    if c == ScriptCommand::Run {
        let v = vec![String::from_str("https://www.googleapis.com/auth/cloud-platform")];
        assert(string_views(v@) =~= seq![run_scope()]);
        v
    } else {
        method_scopes
    }
}

/// Whether the request of `c` honours the global `--dry-run` flag (`+pull` needs
/// the reply, so it always runs).
pub open spec fn honours_dry_run(c: ScriptCommand) -> bool {
    c != ScriptCommand::Pull
}

/// Whether the request of `c` honours the global `--dry-run` flag.
pub fn uses_dry_run(c: ScriptCommand) -> (r: bool)
    ensures
        r == honours_dry_run(c),
{
    c != ScriptCommand::Pull
}

/// Whether the reply of `c` is captured instead of printed (`+pull` only).
pub fn captures_output(c: ScriptCommand) -> (r: bool)
    ensures
        r == (c == ScriptCommand::Pull),
{
    c == ScriptCommand::Pull
}

/// The error when the discovery document lacks `resource`.
pub fn missing_resource_error(resource: &str) -> (e: GwsError)
    ensures
        e is Discovery,
        e.text() == "Resource '"@ + resource@ + "' not found"@,
{
    let mut m = String::from_str("Resource '");
    m.append(resource);
    m.append("' not found");
    GwsError::Discovery(m)
}

/// The error when `resource` lacks `method` in the discovery document.
pub fn missing_method_error(resource: &str, method: &str) -> (e: GwsError)
    ensures
        e is Discovery,
        e.text() == "Method '"@ + resource@ + "."@ + method@ + "' not found"@,
{
    let mut m = String::from_str("Method '");
    m.append(resource);
    m.append(".");
    m.append(method);
    m.append("' not found");
    GwsError::Discovery(m)
}

/// The scopes that the discovery document lists for `resource.method`, from
/// looking it up: `lookup` is `None` where the resource is missing, and holds
/// `None` where the method is missing; either is an error.
pub fn discovery_method_scopes(
    resource: &str,
    method: &str,
    lookup: Option<Option<Vec<String>>>,
) -> (r: Result<Vec<String>, GwsError>)
    ensures
        lookup is None ==> (r is Err && r->Err_0 is Discovery && r->Err_0.text() == "Resource '"@
            + resource@ + "' not found"@),
        lookup is Some && lookup->0 is None ==> (r is Err && r->Err_0 is Discovery
            && r->Err_0.text() == "Method '"@ + resource@ + "."@ + method@ + "' not found"@),
        lookup is Some && lookup->0 is Some ==> r == Ok::<Vec<String>, GwsError>(lookup->0->0),
{
    match lookup {
        None => Err(missing_resource_error(resource)),
        Some(None) => Err(missing_method_error(resource, method)),
        Some(Some(scopes)) => Ok(scopes),
    }
}

/// How a request is authorised.
#[derive(PartialEq, Eq, Structural, Clone, Copy, Debug)]
pub enum AuthMethod {
    /// With the OAuth token that was obtained.
    OAuth,
    /// Without credentials, where no token could be had.
    NoAuth,
}

/// The token and the way of authorising a request, from the token that could be
/// obtained (if any).
pub fn auth_for_token(token: Option<String>) -> (r: (Option<String>, AuthMethod))
    ensures
        r.0 == token,
        r.1 == (if token is Some {
            AuthMethod::OAuth
        } else {
            AuthMethod::NoAuth
        }),
{
    match token {
        Some(t) => (Some(t), AuthMethod::OAuth),
        None => (None, AuthMethod::NoAuth),
    }
}

/// The hint after a failed `scripts.run` whose error mentions authentication scopes.
pub open spec fn scopes_hint() -> Seq<char> {
    "\n\x1b[33mHint:\x1b[0m scripts.run requires scopes matching the services your script uses.\nRe-run \x1b[1mgws auth login\x1b[0m and include the \x1b[1mcloud-platform\x1b[0m scope."@
}

/// The start of the hint after a refused `scripts.run`.
pub open spec fn permission_hint_start() -> Seq<char> {
    "\n\x1b[33mHint:\x1b[0m The script must be linked to your OAuth client's GCP project."@
}

/// The end of the hint after a refused `scripts.run`.
pub open spec fn permission_hint_end() -> Seq<char> {
    "\n1. Open the script editor: \x1b[1mgws apps-script +open\x1b[0m\n2. Go to Project Settings (gear icon)\n3. Under 'Google Cloud Platform (GCP) Project', click 'Change project'\n4. Enter your GCP project number and click 'Set project'\n\nAlso ensure appsscript.json includes: \x1b[1m\"executionApi\": {\"access\": \"MYSELF\"}\x1b[0m"@
}

/// The start of the hint after a `scripts.run` that did not find the script.
pub open spec fn not_found_hint_start() -> Seq<char> {
    "\n\x1b[33mHint:\x1b[0m The script was not found. Possible causes:\n\u{2022} The script is not linked to a GCP project"@
}

/// The end of the hint after a `scripts.run` that did not find the script.
pub open spec fn not_found_hint_end() -> Seq<char> {
    "\n(see \x1b[1mgws apps-script +open\x1b[0m \u{2192} Project Settings)\n\u{2022} The script has no API-executable deployment (create one with:\n\x1b[1mgws apps-script projects versions create\x1b[0m then\n\x1b[1mgws apps-script projects deployments create\x1b[0m)\n\u{2022} Use \x1b[1m--dev-mode\x1b[0m to run the latest saved code without deploying"@
}

/// The hint printed after `scripts.run` failed with the message `msg`, where
/// `gcp` is the GCP project line (possibly empty); `None` where no hint applies.
pub open spec fn run_hint(msg: Seq<char>, gcp: Seq<char>) -> Option<Seq<char>> {
    if contains_seq(msg, "authentication scopes"@) {
        Some(scopes_hint())
    } else if contains_seq(msg, "does not have permission"@) || contains_seq(msg, "403"@) {
        Some(permission_hint_start() + gcp + permission_hint_end())
    } else if contains_seq(msg, "not found"@) || contains_seq(msg, "404"@) {
        Some(not_found_hint_start() + gcp + not_found_hint_end())
    } else {
        None
    }
}

/// The hint to print after `scripts.run` failed with `message`.
pub fn run_error_hint(message: &str, gcp_hint: &str) -> (r: Option<String>)
    ensures
        match run_hint(message@, gcp_hint@) {
            None => r is None,
            Some(h) => r matches Some(t) && t@ == h,
        },
{
    if contains_str(message, "authentication scopes") {
        Some(
            String::from_str(
                "\n\x1b[33mHint:\x1b[0m scripts.run requires scopes matching the services your script uses.\nRe-run \x1b[1mgws auth login\x1b[0m and include the \x1b[1mcloud-platform\x1b[0m scope.",
            ),
        )
    } else if contains_str(message, "does not have permission") || contains_str(message, "403") {
        let mut t = String::from_str(
            "\n\x1b[33mHint:\x1b[0m The script must be linked to your OAuth client's GCP project.",
        );
        t.append(gcp_hint);
        t.append(
            "\n1. Open the script editor: \x1b[1mgws apps-script +open\x1b[0m\n2. Go to Project Settings (gear icon)\n3. Under 'Google Cloud Platform (GCP) Project', click 'Change project'\n4. Enter your GCP project number and click 'Set project'\n\nAlso ensure appsscript.json includes: \x1b[1m\"executionApi\": {\"access\": \"MYSELF\"}\x1b[0m",
        );
        Some(t)
    } else if contains_str(message, "not found") || contains_str(message, "404") {
        let mut t = String::from_str(
            "\n\x1b[33mHint:\x1b[0m The script was not found. Possible causes:\n\u{2022} The script is not linked to a GCP project",
        );
        t.append(gcp_hint);
        t.append(
            "\n(see \x1b[1mgws apps-script +open\x1b[0m \u{2192} Project Settings)\n\u{2022} The script has no API-executable deployment (create one with:\n\x1b[1mgws apps-script projects versions create\x1b[0m then\n\x1b[1mgws apps-script projects deployments create\x1b[0m)\n\u{2022} Use \x1b[1m--dev-mode\x1b[0m to run the latest saved code without deploying",
        );
        Some(t)
    } else {
        None
    }
}

/// The part of `s` before the first `c` (all of `s` where there is none).
pub open spec fn prefix_before(s: Seq<char>, c: char) -> Seq<char>
    decreases s.len(),
{
    if s.len() == 0 {
        Seq::empty()
    } else if s[0] == c {
        Seq::empty()
    } else {
        seq![s[0]] + prefix_before(s.drop_first(), c)
    }
}

/// Every character of `s` is an ASCII digit.
pub open spec fn all_ascii_digits(s: Seq<char>) -> bool {
    forall|i: int| 0 <= i < s.len() ==> '0' <= #[trigger] s[i] && s[i] <= '9'
}

/// The project number in an OAuth client ID `{project_number}-{hash}...`: the part
/// before the first `-`, where it is a non-empty run of digits.
pub open spec fn client_project_number(client_id: Seq<char>) -> Option<Seq<char>> {
    let p = prefix_before(client_id, '-');
    if p.len() > 0 && all_ascii_digits(p) {
        Some(p)
    } else {
        None
    }
}

/// The line naming the GCP project of the OAuth client `client_id`, or nothing.
pub open spec fn gcp_project_line(client_id: Option<Seq<char>>) -> Seq<char> {
    match client_id {
        Some(id) => match client_project_number(id) {
            Some(n) => "\n   Your OAuth client's GCP project number: \x1b[1m"@ + n + "\x1b[0m"@,
            None => Seq::empty(),
        },
        None => Seq::empty(),
    }
}

/// The part of `s` before the first `c`.
fn str_prefix_before<'a>(s: &'a str, c: char) -> (r: &'a str)
    ensures
        r@ == prefix_before(s@, c),
{
    let v = chars_of(s);
    let mut k: usize = 0;
    assert(s@.skip(0) =~= s@);
    assert(s@.take(0) =~= Seq::<char>::empty());
    while k < v.len() && v[k] != c
        invariant
            v@ == s@,
            k <= v@.len(),
            prefix_before(s@, c) == s@.take(k as int) + prefix_before(s@.skip(k as int), c),
        decreases v@.len() - k,
    {
        proof {
            let rest = s@.skip(k as int);
            assert(rest.drop_first() =~= s@.skip(k + 1));
            assert(rest[0] == s@[k as int]);
            assert(s@.take(k + 1) =~= s@.take(k as int) + seq![s@[k as int]]);
        }
        k = k + 1;
    }
    proof {
        let rest = s@.skip(k as int);
        if k < v@.len() {
            assert(rest[0] == c);
        } else {
            assert(rest.len() == 0);
        }
        assert(prefix_before(rest, c) =~= Seq::<char>::empty());
    }
    s.substring_char(0, k)
}

/// Whether every character of `s` is an ASCII digit.
fn is_all_ascii_digits(s: &str) -> (r: bool)
    ensures
        r == all_ascii_digits(s@),
{
    let v = chars_of(s);
    let mut k: usize = 0;
    while k < v.len()
        invariant
            v@ == s@,
            k <= v@.len(),
            forall|i: int| 0 <= i < k ==> '0' <= #[trigger] s@[i] && s@[i] <= '9',
        decreases v@.len() - k,
    {
        if !('0' <= v[k] && v[k] <= '9') {
            return false;
        }
        k = k + 1;
    }
    true
}

/// The line naming the GCP project of the OAuth client `client_id`, or an empty
/// string where there is no client ID or it does not start with a project number.
pub fn gcp_project_hint(client_id: Option<&str>) -> (r: String)
    ensures
        r@ == gcp_project_line(
            match client_id {
                Some(id) => Some(id@),
                None => None,
            },
        ),
{
    match client_id {
        Some(id) => {
            let num = str_prefix_before(id, '-');
            if num.unicode_len() > 0 && is_all_ascii_digits(num) {
                let mut t = String::from_str("\n   Your OAuth client's GCP project number: \x1b[1m");
                t.append(num);
                t.append("\x1b[0m");
                t
            } else {
                String::new()
            }
        },
        None => String::new(),
    }
}

/// The GCP project line for the stored OAuth credentials `credentials_json`
/// (empty where they hold no usable `client_id`).
pub fn extract_gcp_project_number(credentials_json: &str) -> (r: String)
    ensures
        r@ == gcp_project_line(json_string_member(credentials_json@, "client_id"@)),
{
    let id = json_string_member_of(credentials_json, "client_id");
    match &id {
        Some(s) => gcp_project_hint(Some(s.as_str())),
        None => gcp_project_hint(None),
    }
}

/// A command-line argument of a subcommand.
#[derive(Debug)]
pub struct ArgSpec {
    /// Its id and long flag name.
    pub name: &'static str,
    pub help: &'static str,
    /// The placeholder of its value; `None` for a flag without value.
    pub value_name: Option<&'static str>,
    pub required: bool,
    /// A switch that is set by being present.
    pub flag: bool,
}

/// A subcommand that the helper adds.
#[derive(Debug)]
pub struct SubcommandSpec {
    pub name: &'static str,
    pub about: &'static str,
    pub args: Vec<ArgSpec>,
    pub after_help: &'static str,
}

/// The shape of an argument: name, help text, value placeholder, required, switch.
pub open spec fn arg_shape(a: ArgSpec) -> (Seq<char>, Seq<char>, Option<Seq<char>>, bool, bool) {
    (
        a.name@,
        a.help@,
        match a.value_name {
            Some(v) => Some(v@),
            None => None,
        },
        a.required,
        a.flag,
    )
}

/// `--script <ID>`, optional.
pub open spec fn script_arg_shape() -> (Seq<char>, Seq<char>, Option<Seq<char>>, bool, bool) {
    ("script"@, "Script Project ID (reads .clasp.json if omitted)"@, Some("ID"@), false, false)
}

/// `--dir <DIR>` with help text `help`, optional.
pub open spec fn dir_arg_shape(help: Seq<char>) -> (Seq<char>, Seq<char>, Option<Seq<char>>, bool, bool) {
    ("dir"@, help, Some("DIR"@), false, false)
}

/// The subcommands in the order they are added.
pub open spec fn subcommand_order() -> Seq<ScriptCommand> {
    seq![
        ScriptCommand::Push,
        ScriptCommand::Pull,
        ScriptCommand::Open,
        ScriptCommand::Run,
        ScriptCommand::Logs,
    ]
}

/// The one-line description of a subcommand.
pub open spec fn command_about(c: ScriptCommand) -> Seq<char> {
    match c {
        ScriptCommand::Push => "[Helper] Upload local files to an Apps Script project"@,
        ScriptCommand::Pull => "[Helper] Download project files to local directory"@,
        ScriptCommand::Open => "[Helper] Open the script editor in your browser"@,
        ScriptCommand::Run => "[Helper] Execute a function in the script"@,
        ScriptCommand::Logs => "[Helper] View execution logs for the script"@,
    }
}

/// The text shown after a subcommand's help: examples and tips.
pub open spec fn command_after_help(c: ScriptCommand) -> Seq<char> {
    match c {
        ScriptCommand::Push => "EXAMPLES:\n  gws script +push --script SCRIPT_ID\n  gws script +push --script SCRIPT_ID --dir ./src\n  gws script +push                        # uses .clasp.json\n\nTIPS:\n  Supports .gs, .js, .html, and appsscript.json files.\n  Skips hidden files and node_modules automatically.\n  This replaces ALL files in the project."@,
        ScriptCommand::Pull => "EXAMPLES:\n  gws script +pull --script SCRIPT_ID\n  gws script +pull --script SCRIPT_ID --dir ./src\n  gws script +pull                        # uses .clasp.json\n\nFILES CREATED:\n  SERVER_JS  \u{2192} {name}.gs\n  HTML       \u{2192} {name}.html\n  JSON       \u{2192} appsscript.json"@,
        ScriptCommand::Open => "EXAMPLES:\n  gws script +open --script SCRIPT_ID\n  gws script +open                        # uses .clasp.json"@,
        ScriptCommand::Run => "EXAMPLES:\n  gws script +run --script SCRIPT_ID --function main\n  gws script +run --function main         # uses .clasp.json\n  gws script +run --function main --dev-mode\n\nSETUP REQUIREMENTS:\n  1. Auth with cloud-platform scope: gws auth login\n  2. Link the script to your OAuth client's GCP project:\n     Open the script editor (gws apps-script +open) \u{2192} Project Settings \u{2192}\n     Change GCP project \u{2192} enter your project number.\n  3. Add to appsscript.json: \"executionApi\": {\"access\": \"MYSELF\"}"@,
        ScriptCommand::Logs => "EXAMPLES:\n  gws script +logs --script SCRIPT_ID\n  gws script +logs                        # uses .clasp.json\n\nTIPS:\n  Shows recent script executions and their status.\n  Use --format table for a readable summary."@,
    }
}

/// The arguments of a subcommand, by shape.
pub open spec fn command_args(c: ScriptCommand) -> Seq<(Seq<char>, Seq<char>, Option<Seq<char>>, bool, bool)> {
    match c {
        ScriptCommand::Push => seq![
            script_arg_shape(),
            dir_arg_shape("Directory containing script files (reads .clasp.json rootDir, or defaults to current dir)"@),
        ],
        ScriptCommand::Pull => seq![
            script_arg_shape(),
            dir_arg_shape("Output directory (reads .clasp.json rootDir, or defaults to current dir)"@),
        ],
        ScriptCommand::Open => seq![script_arg_shape()],
        ScriptCommand::Run => seq![
            script_arg_shape(),
            ("function"@, "Function name to execute"@, Some("NAME"@), true, false),
            ("dev-mode"@, "Run the script in dev mode (HEAD deployment)"@, None, false, true),
        ],
        ScriptCommand::Logs => seq![script_arg_shape()],
    }
}

/// `--script`.
fn script_arg() -> (a: ArgSpec)
    ensures
        arg_shape(a) == script_arg_shape(),
{
    ArgSpec {
        name: "script",
        help: "Script Project ID (reads .clasp.json if omitted)",
        value_name: Some("ID"),
        required: false,
        flag: false,
    }
}

/// `--dir` with its help text.
fn dir_arg(help: &'static str) -> (a: ArgSpec)
    ensures
        arg_shape(a) == dir_arg_shape(help@),
{
    ArgSpec { name: "dir", help, value_name: Some("DIR"), required: false, flag: false }
}

/// The subcommand `c` as it is added.
fn subcommand(c: ScriptCommand) -> (s: SubcommandSpec)
    ensures
        s.name@ == command_name(c),
        s.about@ == command_about(c),
        s.after_help@ == command_after_help(c),
        s.args@.map_values(|a: ArgSpec| arg_shape(a)) == command_args(c),
{
    let s = match c {
        ScriptCommand::Push => SubcommandSpec {
            name: "+push",
            about: "[Helper] Upload local files to an Apps Script project",
            args: vec![script_arg(), dir_arg("Directory containing script files (reads .clasp.json rootDir, or defaults to current dir)")],
            after_help: "EXAMPLES:\n  gws script +push --script SCRIPT_ID\n  gws script +push --script SCRIPT_ID --dir ./src\n  gws script +push                        # uses .clasp.json\n\nTIPS:\n  Supports .gs, .js, .html, and appsscript.json files.\n  Skips hidden files and node_modules automatically.\n  This replaces ALL files in the project.",
        },
        ScriptCommand::Pull => SubcommandSpec {
            name: "+pull",
            about: "[Helper] Download project files to local directory",
            args: vec![script_arg(), dir_arg("Output directory (reads .clasp.json rootDir, or defaults to current dir)")],
            after_help: "EXAMPLES:\n  gws script +pull --script SCRIPT_ID\n  gws script +pull --script SCRIPT_ID --dir ./src\n  gws script +pull                        # uses .clasp.json\n\nFILES CREATED:\n  SERVER_JS  \u{2192} {name}.gs\n  HTML       \u{2192} {name}.html\n  JSON       \u{2192} appsscript.json",
        },
        ScriptCommand::Open => SubcommandSpec {
            name: "+open",
            about: "[Helper] Open the script editor in your browser",
            args: vec![script_arg()],
            after_help: "EXAMPLES:\n  gws script +open --script SCRIPT_ID\n  gws script +open                        # uses .clasp.json",
        },
        ScriptCommand::Run => SubcommandSpec {
            name: "+run",
            about: "[Helper] Execute a function in the script",
            args: vec![
                script_arg(),
                ArgSpec {
                    name: "function",
                    help: "Function name to execute",
                    value_name: Some("NAME"),
                    required: true,
                    flag: false,
                },
                ArgSpec {
                    name: "dev-mode",
                    help: "Run the script in dev mode (HEAD deployment)",
                    value_name: None,
                    required: false,
                    flag: true,
                },
            ],
            after_help: "EXAMPLES:\n  gws script +run --script SCRIPT_ID --function main\n  gws script +run --function main         # uses .clasp.json\n  gws script +run --function main --dev-mode\n\nSETUP REQUIREMENTS:\n  1. Auth with cloud-platform scope: gws auth login\n  2. Link the script to your OAuth client's GCP project:\n     Open the script editor (gws apps-script +open) \u{2192} Project Settings \u{2192}\n     Change GCP project \u{2192} enter your project number.\n  3. Add to appsscript.json: \"executionApi\": {\"access\": \"MYSELF\"}",
        },
        ScriptCommand::Logs => SubcommandSpec {
            name: "+logs",
            about: "[Helper] View execution logs for the script",
            args: vec![script_arg()],
            after_help: "EXAMPLES:\n  gws script +logs --script SCRIPT_ID\n  gws script +logs                        # uses .clasp.json\n\nTIPS:\n  Shows recent script executions and their status.\n  Use --format table for a readable summary.",
        },
    };
    assert(s.args@.map_values(|a: ArgSpec| arg_shape(a)) =~= command_args(c));
    s
}

impl ScriptHelper {
    /// The subcommands that the helper adds: `+push`, `+pull`, `+open`, `+run`
    /// and `+logs`, in that order, with their descriptions, arguments (name, help,
    /// value placeholder, required, switch) and closing help texts.
    pub fn subcommands(&self) -> (r: Vec<SubcommandSpec>)
        ensures
            r@.len() == subcommand_order().len(),
            forall|i: int|
                0 <= i < r@.len() ==> {
                    &&& (#[trigger] r@[i]).name@ == command_name(subcommand_order()[i])
                    &&& r@[i].about@ == command_about(subcommand_order()[i])
                    &&& r@[i].after_help@ == command_after_help(subcommand_order()[i])
                    &&& r@[i].args@.map_values(|a: ArgSpec| arg_shape(a)) == command_args(
                        subcommand_order()[i],
                    )
                },
    {
        let r = vec![
            subcommand(ScriptCommand::Push),
            subcommand(ScriptCommand::Pull),
            subcommand(ScriptCommand::Open),
            subcommand(ScriptCommand::Run),
            subcommand(ScriptCommand::Logs),
        ];
        r
    }
}

} // verus!
