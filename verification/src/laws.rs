//! Properties that relate the helpers to each other.
use vstd::prelude::*;

use crate::clasp_config::{chosen_dir, clasp_config_error, dir_outcome, ClaspConfig};
use crate::error::GwsError;
use crate::json::{json_escape_char, json_escaped, json_string_text};
use crate::path::{
    is_absolute,
    lemma_split_pieces,
    lemma_split_single,
    normalize_from,
    parent_component,
    split_path,
    absolute_text,
    components_prefix,
    lemma_absolute_text_reads_back,
    lemma_resolved_clean,
    lemma_split_append,
    path_components,
    resolve_path,
    stays_within,
    step,
};
use crate::script::{
    command_args,
    command_name,
    run_body,
    script_params,
    subcommand_order,
    all_ascii_digits,
    gcp_project_line,
    not_found_hint_end,
    not_found_hint_start,
    permission_hint_end,
    permission_hint_start,
    prefix_before,
    run_hint,
    scopes_for,
    scopes_hint,
    file_json,
    files_json,
    honours_dry_run,
    is_request_of,
    push_body,
    ApiRequest,
    ScriptCommand,
    ScriptFile,
    api_type_name,
    extension_for_type,
    file_extension,
    last_index_of,
    local_file_entry,
    pulled_file_name,
    ScriptFileType,
};
use crate::text::{contains_seq, has_char, occurs_at, seq_ends_with, trim_suffix_all};
use crate::validate::{
    dir_error,
    dir_label,
    has_control_char,
    has_parent_piece,
    is_control_char,
    parent_piece_at,
    resource_name_error,
    script_filename_error,
};

verus! {

/// A directory that is accepted because it stays inside the working directory
/// `cwd` is given as a path that, read again, names the same components, and
/// those lie inside `cwd`.
pub proof fn law_accepted_dir_lies_inside(cwd: Seq<char>, dir: Seq<char>)
    requires
        stays_within(cwd, dir),
    ensures
        path_components(absolute_text(resolve_path(cwd, dir))) == resolve_path(cwd, dir),
        components_prefix(
            path_components(cwd),
            path_components(absolute_text(resolve_path(cwd, dir))),
        ),
{
    lemma_resolved_clean(cwd, dir);
    lemma_absolute_text_reads_back(resolve_path(cwd, dir));
}

/// The directory that `resolve_dir` gives (from `--dir`, `rootDir` or the
/// working directory `cwd` itself) lies at or below `cwd`.
pub proof fn law_resolved_dir_lies_inside(
    explicit_dir: Option<Seq<char>>,
    config: Option<ClaspConfig>,
    cwd: Seq<char>,
    r: Result<String, GwsError>,
)
    requires
        chosen_dir(explicit_dir, config) is None ==> (r is Ok && r->Ok_0@ == cwd),
        chosen_dir(explicit_dir, config) is Some ==> dir_outcome(
            r,
            cwd,
            chosen_dir(explicit_dir, config)->0,
        ),
        r is Ok,
    ensures
        components_prefix(path_components(cwd), path_components(r->Ok_0@)),
{
    match chosen_dir(explicit_dir, config) {
        None => {
            assert(path_components(cwd).take(path_components(cwd).len() as int) =~= path_components(
                cwd,
            ));
        },
        Some(d) => {
            law_accepted_dir_lies_inside(cwd, d);
        },
    }
}

/// The extension that a known file type is written with.
proof fn lemma_extension_shape(ft: Seq<char>)
    requires
        extension_for_type(ft).len() > 0,
    ensures
        extension_for_type(ft).len() >= 3,
        extension_for_type(ft)[0] == '.',
        !has_char(extension_for_type(ft), '/'),
{
    reveal_strlit(".gs");
    reveal_strlit(".html");
    reveal_strlit(".json");
    reveal_strlit("");
    let e = extension_for_type(ft);
    assert(!has_char(e, '/')) by {
        if has_char(e, '/') {
            let i = choose|i: int| 0 <= i < e.len() && #[trigger] e[i] == '/';
        }
    }
}

/// A file that `+pull` writes lands directly inside the output directory `out`:
/// the path `out/file` has the components of `out` and then the file's name.
pub proof fn law_pulled_file_lands_in_output_dir(out: Seq<char>, name: Seq<char>, ft: Seq<char>)
    requires
        script_filename_error(name) is None,
        pulled_file_name(name, ft) is Some,
    ensures
        ({
            let f = pulled_file_name(name, ft)->0;
            &&& path_components(out + seq!['/'] + f) == path_components(out).push(f)
            &&& components_prefix(path_components(out), path_components(out + seq!['/'] + f))
        }),
{
    let e = extension_for_type(ft);
    lemma_extension_shape(ft);
    let f = name + e;
    assert(!has_char(name, '/'));
    assert(!has_char(f, '/')) by {
        if has_char(f, '/') {
            let i = choose|i: int| 0 <= i < f.len() && #[trigger] f[i] == '/';
            if i < name.len() {
                assert(name[i] == '/');
            } else {
                assert(e[i - name.len()] == '/');
            }
        }
    }
    lemma_split_append(out, f);
    let segs = crate::path::split_path(out).push(f);
    assert(segs.drop_last() =~= crate::path::split_path(out));
    assert(f.len() >= 4);
    assert(f != crate::path::current_component());
    assert(f != crate::path::parent_component());
    assert(step(path_components(out), f) == path_components(out).push(f));
    assert(path_components(out).push(f).take(path_components(out).len() as int)
        =~= path_components(out));
}

/// `last_index_of` on a sequence extended by characters other than `c`.
proof fn lemma_last_index_extend(s: Seq<char>, t: Seq<char>, c: char)
    requires
        forall|i: int| 0 <= i < t.len() ==> #[trigger] t[i] != c,
    ensures
        last_index_of(s + t, c) == last_index_of(s, c),
    decreases t.len(),
{
    if t.len() > 0 {
        let t2 = t.drop_last();
        assert((s + t).drop_last() =~= s + t2);
        assert((s + t).last() == t[t.len() - 1]);
        assert forall|i: int| 0 <= i < t2.len() implies #[trigger] t2[i] != c by {
            assert(t2[i] == t[i]);
        }
        lemma_last_index_extend(s, t2, c);
    } else {
        assert(s + t =~= s);
    }
}

/// The extension of `name` followed by `.` and `rest` (with no `.` in `rest`) is `rest`.
proof fn lemma_extension_of_suffixed(name: Seq<char>, rest: Seq<char>)
    requires
        name.len() > 0,
        name[0] != '.',
        forall|i: int| 0 <= i < rest.len() ==> #[trigger] rest[i] != '.',
    ensures
        file_extension(name + seq!['.'] + rest) == Some(rest),
{
    let f = name + seq!['.'] + rest;
    let d = name + seq!['.'];
    assert(f =~= d + rest);
    lemma_last_index_extend(d, rest, '.');
    assert(d.last() == '.');
    assert(last_index_of(d, '.') == name.len());
    assert(f[0] == name[0]);
    assert(f != seq!['.', '.']) by {
        if f == seq!['.', '.'] {
            assert(f[0] == '.');
        }
    }
    assert(f.skip(name.len() + 1 as int) =~= rest);
}

/// `trim_suffix_all` removes one copy of `suffix` from `s + suffix` and stops
/// where `s` does not end with `suffix`.
proof fn lemma_trim_once(s: Seq<char>, suffix: Seq<char>)
    requires
        suffix.len() > 0,
        !seq_ends_with(s, suffix),
    ensures
        trim_suffix_all(s + suffix, suffix) == s,
{
    let x = s + suffix;
    assert(x.subrange(x.len() - suffix.len(), x.len() as int) =~= suffix);
    assert(x.take(x.len() - suffix.len()) =~= s);
    assert(seq_ends_with(x, suffix));
    assert(trim_suffix_all(x, suffix) == trim_suffix_all(s, suffix));
    assert(trim_suffix_all(s, suffix) == s);
}

/// Pulling a project file and pushing the directory again gives back the same
/// project file (name and type), reading the written file's extension as
/// `Path::extension` does (`file_extension`), for a file that `+pull` writes and that is not
/// hidden nor under `node_modules`: a script whose name does not end in `.gs`,
/// an HTML file whose name does not end in `.html`, or the manifest `appsscript`.
pub proof fn law_pull_then_push_round_trip(
    components: Seq<Seq<char>>,
    name: Seq<char>,
    t: ScriptFileType,
)
    requires
        !components.contains("node_modules"@),
        script_filename_error(name) is None,
        name[0] != '.',
        t == ScriptFileType::ServerJs ==> !seq_ends_with(name, ".gs"@),
        t == ScriptFileType::Html ==> !seq_ends_with(name, ".html"@),
        t == ScriptFileType::Json ==> name == "appsscript"@,
    ensures
        pulled_file_name(name, api_type_name(t)) is Some,
        ({
            let f = pulled_file_name(name, api_type_name(t))->0;
            local_file_entry(
                components,
                f,
                match file_extension(f) {
                    Some(e) => e,
                    None => Seq::empty(),
                },
            ) == Some((t, name))
        }),
{
    reveal_strlit("SERVER_JS");
    reveal_strlit("HTML");
    reveal_strlit("JSON");
    reveal_strlit(".gs");
    reveal_strlit(".js");
    reveal_strlit(".html");
    reveal_strlit(".json");
    reveal_strlit("gs");
    reveal_strlit("js");
    reveal_strlit("html");
    reveal_strlit("json");
    reveal_strlit("appsscript");
    reveal_strlit("appsscript.json");
    assert(name.len() > 0);
    match t {
        ScriptFileType::ServerJs => {
            assert(extension_for_type(api_type_name(t)) == ".gs"@);
            let f = name + ".gs"@;
            assert(f =~= name + seq!['.'] + "gs"@);
            lemma_extension_of_suffixed(name, "gs"@);
            assert(f[0] == name[0]);
            assert(!seq_ends_with(f, ".js"@)) by {
                assert(f[f.len() - 2] == 'g');
                assert(".js"@[1] == 'j');
                if seq_ends_with(f, ".js"@) {
                    assert(f.subrange(f.len() - 3, f.len() as int)[1] == f[f.len() - 2]);
                }
            }
            assert(trim_suffix_all(f, ".js"@) == f);
            lemma_trim_once(name, ".gs"@);
            assert("gs"@ != "js"@) by {
                assert("gs"@[0] != "js"@[0]);
            }
        },
        ScriptFileType::Html => {
            assert("HTML"@.len() != "SERVER_JS"@.len());
            assert(extension_for_type(api_type_name(t)) == ".html"@);
            let f = name + ".html"@;
            assert(f =~= name + seq!['.'] + "html"@);
            lemma_extension_of_suffixed(name, "html"@);
            assert(f[0] == name[0]);
            lemma_trim_once(name, ".html"@);
            assert("html"@ != "gs"@);
            assert("html"@ != "js"@);
        },
        ScriptFileType::Json => {
            assert("JSON"@.len() != "SERVER_JS"@.len());
            assert("JSON"@ != "HTML"@) by {
                assert("JSON"@[0] != "HTML"@[0]);
            }
            assert(extension_for_type(api_type_name(t)) == ".json"@);
            let f = name + ".json"@;
            assert(f =~= name + seq!['.'] + "json"@);
            lemma_extension_of_suffixed(name, "json"@);
            assert(f =~= "appsscript.json"@);
            assert(f[0] == name[0]);
            assert("json"@ != "gs"@);
            assert("json"@ != "js"@);
            assert("json"@ != "html"@);
        },
    }
}

/// `s` repeated `k` times.
pub open spec fn repeat_seq(s: Seq<char>, k: nat) -> Seq<char>
    decreases k,
{
    if k == 0 {
        Seq::empty()
    } else {
        repeat_seq(s, (k - 1) as nat) + s
    }
}

/// `n` is `f` with trailing copies of `suffix` removed, and no copy is left at its end.
pub open spec fn is_stripped_of(f: Seq<char>, n: Seq<char>, suffix: Seq<char>) -> bool {
    &&& exists|k: nat| f == n + #[trigger] repeat_seq(suffix, k)
    &&& !seq_ends_with(n, suffix)
}

/// Removing all trailing copies of `suffix` leaves a text that, followed by some
/// copies of `suffix`, gives back `s`, and that does not end with `suffix`.
proof fn lemma_trim_shape(s: Seq<char>, suffix: Seq<char>) -> (k: nat)
    requires
        suffix.len() > 0,
    ensures
        s == trim_suffix_all(s, suffix) + repeat_seq(suffix, k),
        !seq_ends_with(trim_suffix_all(s, suffix), suffix),
    decreases s.len(),
{
    if seq_ends_with(s, suffix) {
        let s2 = s.take(s.len() - suffix.len());
        let k2 = lemma_trim_shape(s2, suffix);
        let t = trim_suffix_all(s2, suffix);
        assert(s =~= s2 + suffix);
        assert(t + repeat_seq(suffix, k2 + 1) =~= t + repeat_seq(suffix, k2) + suffix);
        k2 + 1
    } else {
        assert(s + repeat_seq(suffix, 0) =~= s);
        0
    }
}

/// `trim_suffix_all` strips `f` of `suffix` in the sense of `is_stripped_of`.
proof fn lemma_trim_stripped(f: Seq<char>, suffix: Seq<char>)
    requires
        suffix.len() > 0,
    ensures
        is_stripped_of(f, trim_suffix_all(f, suffix), suffix),
{
    let k = lemma_trim_shape(f, suffix);
    assert(f == trim_suffix_all(f, suffix) + repeat_seq(suffix, k));
}

/// `+push` never uploads a hidden file nor a file with a `node_modules`
/// component anywhere in its path.
pub proof fn law_push_skips_hidden_and_node_modules(
    components: Seq<Seq<char>>,
    file_name: Seq<char>,
    ext: Seq<char>,
)
    ensures
        components.contains("node_modules"@) ==> local_file_entry(components, file_name, ext) is None,
        (file_name.len() > 0 && file_name[0] == '.') ==> local_file_entry(
            components,
            file_name,
            ext,
        ) is None,
{
}

/// Outside `node_modules`, where a file lies does not change whether or how it
/// is uploaded.
pub proof fn law_push_ignores_location_outside_node_modules(
    c1: Seq<Seq<char>>,
    c2: Seq<Seq<char>>,
    file_name: Seq<char>,
    ext: Seq<char>,
)
    requires
        !c1.contains("node_modules"@),
        !c2.contains("node_modules"@),
    ensures
        local_file_entry(c1, file_name, ext) == local_file_entry(c2, file_name, ext),
{
}

/// Which visible files outside `node_modules` `+push` uploads, and as what:
/// `.gs` and `.js` files as scripts named after the file without its trailing
/// `.js`, then `.gs`, extensions; `.html` files as HTML named without their
/// trailing `.html` extensions; `appsscript.json` alone as the manifest
/// `appsscript`; nothing else.
pub proof fn law_push_selects_script_files(
    components: Seq<Seq<char>>,
    file_name: Seq<char>,
    ext: Seq<char>,
)
    requires
        !components.contains("node_modules"@),
        !(file_name.len() > 0 && file_name[0] == '.'),
    ensures
        ({
            let e = local_file_entry(components, file_name, ext);
            &&& (ext == "gs"@ || ext == "js"@) ==> {
                &&& e is Some
                &&& (e->0).0 == ScriptFileType::ServerJs
                &&& exists|a: Seq<char>|
                    is_stripped_of(file_name, a, ".js"@) && #[trigger] is_stripped_of(
                        a,
                        (e->0).1,
                        ".gs"@,
                    )
            }
            &&& ext == "html"@ ==> {
                &&& e is Some
                &&& (e->0).0 == ScriptFileType::Html
                &&& is_stripped_of(file_name, (e->0).1, ".html"@)
            }
            &&& ext == "json"@ ==> (e is Some <==> file_name == "appsscript.json"@)
            &&& ext == "json"@ && e is Some ==> e == Some(
                (ScriptFileType::Json, "appsscript"@),
            )
            &&& !(ext == "gs"@ || ext == "js"@ || ext == "html"@ || ext == "json"@) ==> e is None
        }),
{
    reveal_strlit("gs");
    reveal_strlit("js");
    reveal_strlit("html");
    reveal_strlit("json");
    reveal_strlit(".gs");
    reveal_strlit(".js");
    reveal_strlit(".html");
    assert("html"@.len() != "gs"@.len());
    assert("html"@.len() != "js"@.len());
    assert("json"@.len() != "gs"@.len());
    assert("json"@.len() != "js"@.len());
    assert("json"@[1] != "html"@[1]);
    let e = local_file_entry(components, file_name, ext);
    if ext == "gs"@ || ext == "js"@ {
        let a = trim_suffix_all(file_name, ".js"@);
        lemma_trim_stripped(file_name, ".js"@);
        lemma_trim_stripped(a, ".gs"@);
        assert(e == Some((ScriptFileType::ServerJs, trim_suffix_all(a, ".gs"@))));
        assert((e->0).1 == trim_suffix_all(a, ".gs"@));
        assert(is_stripped_of(file_name, a, ".js"@) && is_stripped_of(a, (e->0).1, ".gs"@));
    } else if ext == "html"@ {
        lemma_trim_stripped(file_name, ".html"@);
        assert(e == Some((ScriptFileType::Html, trim_suffix_all(file_name, ".html"@))));
    } else if ext == "json"@ {
        assert(e is Some <==> file_name == "appsscript.json"@);
    } else {
        assert(e is None);
    }
}

/// `t` occurs in `a + b` where it occurs in `a`.
proof fn lemma_occurs_left(a: Seq<char>, b: Seq<char>, t: Seq<char>, i: int)
    requires
        occurs_at(a, t, i),
    ensures
        occurs_at(a + b, t, i),
{
    assert((a + b).subrange(i, i + t.len()) =~= a.subrange(i, i + t.len()));
}

/// `t` occurs in `a + b` where it occurs in `b`, shifted by the length of `a`.
proof fn lemma_occurs_right(a: Seq<char>, b: Seq<char>, t: Seq<char>, j: int)
    requires
        occurs_at(b, t, j),
    ensures
        occurs_at(a + b, t, a.len() + j),
{
    assert((a + b).subrange(a.len() + j, a.len() + j + t.len()) =~= b.subrange(j, j + t.len()));
}

/// The object of one file is the whole file list; adding a file to a non-empty
/// list adds a comma and its object after the objects of the others.
pub proof fn law_push_body_appends_each_file(fs: Seq<ScriptFile>, f: ScriptFile)
    ensures
        files_json(seq![f]) == file_json(f),
        fs.len() > 0 ==> files_json(fs.push(f)) == files_json(fs) + ","@ + file_json(f),
{
    assert(seq![f].len() == 1);
    if fs.len() > 0 {
        assert(fs.push(f).drop_last() =~= fs);
    }
}

/// The object of every file occurs in the file list.
proof fn lemma_files_json_holds_all(fs: Seq<ScriptFile>, i: int)
    requires
        0 <= i < fs.len(),
    ensures
        contains_seq(files_json(fs), file_json(fs[i])),
    decreases fs.len(),
{
    if fs.len() == 1 {
        assert(files_json(fs) == file_json(fs[0]));
        assert(occurs_at(files_json(fs), file_json(fs[i]), 0)) by {
            assert(files_json(fs).subrange(0, file_json(fs[0]).len() as int) =~= files_json(fs));
        }
    } else {
        let init = fs.drop_last();
        let pre = files_json(init) + ","@;
        assert(files_json(fs) == pre + file_json(fs.last()));
        if i == fs.len() - 1 {
            assert(occurs_at(file_json(fs.last()), file_json(fs[i]), 0)) by {
                assert(file_json(fs.last()).subrange(0, file_json(fs.last()).len() as int)
                    =~= file_json(fs.last()));
            }
            lemma_occurs_right(pre, file_json(fs.last()), file_json(fs[i]), 0);
        } else {
            assert(init[i] == fs[i]);
            lemma_files_json_holds_all(init, i);
            let j = choose|j: int| occurs_at(files_json(init), file_json(fs[i]), j);
            lemma_occurs_left(files_json(init), ","@, file_json(fs[i]), j);
            lemma_occurs_left(pre, file_json(fs.last()), file_json(fs[i]), j);
        }
    }
}

/// The `updateContent` body holds the object of every file that is uploaded.
pub proof fn law_push_body_holds_every_file(fs: Seq<ScriptFile>, i: int)
    requires
        0 <= i < fs.len(),
    ensures
        contains_seq(push_body(fs), file_json(fs[i])),
{
    lemma_files_json_holds_all(fs, i);
    let j = choose|j: int| occurs_at(files_json(fs), file_json(fs[i]), j);
    let head = "{\"files\":["@;
    lemma_occurs_right(head, files_json(fs), file_json(fs[i]), j);
    lemma_occurs_left(head + files_json(fs), "]}"@, file_json(fs[i]), head.len() + j);
}

/// Every subcommand but `+pull` honours `--dry-run`; `+pull` always runs,
/// because it needs the reply.
pub proof fn law_dry_run_honoured_except_pull(c: ScriptCommand)
    ensures
        c != ScriptCommand::Pull ==> honours_dry_run(c),
        !honours_dry_run(ScriptCommand::Pull),
{
}

/// A request of a subcommand other than `+pull` is a dry run exactly when
/// `--dry-run` is given; a `+pull` request never is.
pub proof fn law_request_dry_run_follows_flag(
    req: ApiRequest,
    c: ScriptCommand,
    script_id: Seq<char>,
    body: Option<Seq<char>>,
    flag: bool,
)
    requires
        is_request_of(req, c, script_id, body, flag),
    ensures
        c != ScriptCommand::Pull ==> req.dry_run == flag,
        c == ScriptCommand::Pull ==> !req.dry_run,
{
}

/// An explicit `--dir` decides the directory alone, whatever `.clasp.json` holds;
/// without it the configured `rootDir` does, and without either none is chosen
/// (the current directory is used).
pub proof fn law_dir_flag_beats_config(d: Seq<char>, config: Option<ClaspConfig>)
    ensures
        chosen_dir(Some(d), config) == Some(d),
        config is Some && config->0.root_dir is Some ==> chosen_dir(None, config) == Some(
            config->0.root_dir->0@,
        ),
        config is None ==> chosen_dir(None, config) is None,
        config is Some && config->0.root_dir is None ==> chosen_dir(None, config) is None,
{
}

/// A name made only of ASCII letters, digits, `-` and `_`, and not empty.
pub open spec fn plain_identifier(s: Seq<char>) -> bool {
    &&& s.len() > 0
    &&& forall|i: int|
        0 <= i < s.len() ==> {
            let c = #[trigger] s[i];
            ('a' <= c && c <= 'z') || ('A' <= c && c <= 'Z') || ('0' <= c && c <= '9') || c == '-'
                || c == '_'
        }
}

/// A plain identifier of any length (such as an Apps Script ID) is a valid
/// resource name.
pub proof fn law_plain_identifier_is_resource_name(s: Seq<char>)
    requires
        plain_identifier(s),
    ensures
        resource_name_error(s) is None,
{
    assert(!has_parent_piece(s)) by {
        if has_parent_piece(s) {
            let i = choose|i: int| #[trigger] parent_piece_at(s, i);
            assert(s[i] == '.');
        }
    }
    assert(!has_control_char(s)) by {
        if has_control_char(s) {
            let i = choose|i: int| 0 <= i < s.len() && is_control_char(#[trigger] s[i]);
            assert(s[i] == s[i]);
        }
    }
    assert(!has_char(s, '?') && !has_char(s, '#') && !has_char(s, '%')) by {
        if has_char(s, '?') {
            let i = choose|i: int| 0 <= i < s.len() && #[trigger] s[i] == '?';
        }
        if has_char(s, '#') {
            let i = choose|i: int| 0 <= i < s.len() && #[trigger] s[i] == '#';
        }
        if has_char(s, '%') {
            let i = choose|i: int| 0 <= i < s.len() && #[trigger] s[i] == '%';
        }
    }
}

/// A configuration is accepted when its script ID is a non-empty valid resource
/// name and its `rootDir` is absent, `.`, or an accepted directory; it is refused
/// exactly when one of these fails, for the first reason in that order.
pub proof fn law_config_accepted_when_valid(
    script_id: Seq<char>,
    root_dir: Option<Seq<char>>,
    cwd: Seq<char>,
)
    ensures
        (script_id.len() > 0 && resource_name_error(script_id) is None && (root_dir is None
            || root_dir == Some("."@) || dir_error(dir_label(), cwd, root_dir->0) is None))
            <==> clasp_config_error(script_id, root_dir, cwd) is None,
        script_id.len() == 0 ==> clasp_config_error(script_id, root_dir, cwd) == Some(
            ".clasp.json: scriptId must not be empty"@,
        ),
        script_id.len() > 0 && resource_name_error(script_id) is Some ==> clasp_config_error(
            script_id,
            root_dir,
            cwd,
        ) == Some(".clasp.json: invalid scriptId: "@ + resource_name_error(script_id)->0),
{
}

/// A configuration whose script ID is a plain identifier of any length and that
/// names no `rootDir` (or `.`) is accepted.
pub proof fn law_plain_script_id_config_accepted(
    script_id: Seq<char>,
    root_dir: Option<Seq<char>>,
    cwd: Seq<char>,
)
    requires
        plain_identifier(script_id),
        root_dir is None || root_dir == Some("."@),
    ensures
        clasp_config_error(script_id, root_dir, cwd) is None,
{
    law_plain_identifier_is_resource_name(script_id);
    law_config_accepted_when_valid(script_id, root_dir, cwd);
}

/// The pieces of a path without `c` hold no `c`.
proof fn lemma_split_pieces_lack(p: Seq<char>, c: char)
    requires
        !has_char(p, c),
    ensures
        forall|i: int| 0 <= i < split_path(p).len() ==> !has_char(#[trigger] split_path(p)[i], c),
    decreases p.len(),
{
    lemma_split_pieces(p);
    if p.len() > 0 {
        let q = p.drop_last();
        assert(!has_char(q, c)) by {
            if has_char(q, c) {
                let i = choose|i: int| 0 <= i < q.len() && #[trigger] q[i] == c;
                assert(p[i] == c);
            }
        }
        lemma_split_pieces_lack(q, c);
        lemma_split_pieces(q);
        let r = split_path(q);
        assert(p.last() != c) by {
            assert(p[p.len() - 1] == p.last());
        }
        if p.last() != '/' {
            let l = r.last().push(p.last());
            assert(!has_char(l, c)) by {
                if has_char(l, c) {
                    let i = choose|i: int| 0 <= i < l.len() && #[trigger] l[i] == c;
                    if i < l.len() - 1 {
                        assert(r.last()[i] == c);
                        assert(r[r.len() - 1] == r.last());
                    }
                }
            }
            assert forall|i: int| 0 <= i < split_path(p).len() implies !has_char(
                #[trigger] split_path(p)[i],
                c,
            ) by {
                if i < r.len() - 1 {
                    assert(split_path(p)[i] == r[i]);
                }
            }
        } else {
            assert forall|i: int| 0 <= i < split_path(p).len() implies !has_char(
                #[trigger] split_path(p)[i],
                c,
            ) by {
                if i < r.len() {
                    assert(split_path(p)[i] == r[i]);
                } else {
                    assert(split_path(p)[i] =~= Seq::<char>::empty());
                }
            }
        }
    }
}

/// Reading pieces none of which is `..` keeps the starting components in front.
proof fn lemma_no_parent_keeps_base(base: Seq<Seq<char>>, segs: Seq<Seq<char>>)
    requires
        forall|i: int| 0 <= i < segs.len() ==> #[trigger] segs[i] != parent_component(),
    ensures
        components_prefix(base, normalize_from(base, segs)),
    decreases segs.len(),
{
    if segs.len() == 0 {
        assert(base.take(base.len() as int) =~= base);
    } else {
        let init = segs.drop_last();
        assert forall|i: int| 0 <= i < init.len() implies #[trigger] init[i] != parent_component() by {
            assert(init[i] == segs[i]);
        }
        lemma_no_parent_keeps_base(base, init);
        let st = normalize_from(base, init);
        assert(segs[segs.len() - 1] == segs.last());
        let ns = step(st, segs.last());
        if ns != st {
            assert(ns == st.push(segs.last()));
            assert(ns.take(base.len() as int) =~= st.take(base.len() as int));
        }
    }
}

/// A relative directory whose name has no `.` stays inside the working directory.
pub proof fn law_dotless_relative_dir_stays_within(cwd: Seq<char>, dir: Seq<char>)
    requires
        !is_absolute(dir),
        !has_char(dir, '.'),
    ensures
        stays_within(cwd, dir),
{
    lemma_split_pieces_lack(dir, '.');
    let segs = split_path(dir);
    assert forall|i: int| 0 <= i < segs.len() implies #[trigger] segs[i] != parent_component() by {
        if segs[i] == parent_component() {
            assert(segs[i][0] == '.');
        }
    }
    lemma_no_parent_keeps_base(path_components(cwd), segs);
}

/// Going up from a working directory below the root leaves it.
pub proof fn law_parent_dir_refused(cwd: Seq<char>)
    requires
        path_components(cwd).len() > 0,
    ensures
        !stays_within(cwd, seq!['.', '.']),
{
    let d = seq!['.', '.'];
    assert(!has_char(d, '/')) by {
        if has_char(d, '/') {
            let i = choose|i: int| 0 <= i < d.len() && #[trigger] d[i] == '/';
        }
    }
    lemma_split_single(d);
    let base = path_components(cwd);
    assert(seq![d].drop_last() =~= Seq::<Seq<char>>::empty());
    assert(normalize_from(base, Seq::<Seq<char>>::empty()) == base);
    assert(seq![d].last() == d);
    assert(normalize_from(base, seq![d]) == step(base, d));
    assert(d == parent_component());
    assert(!is_absolute(d));
}

/// Resource names: empty names, names with a `/../` piece, and names with `?`,
/// `#` or `%` are refused.
pub proof fn law_resource_name_refusals(s: Seq<char>, i: int)
    ensures
        s.len() == 0 ==> resource_name_error(s) is Some,
        occurs_at(s, "/../"@, i) ==> resource_name_error(s) is Some,
        s == seq!['.', '.'] ==> resource_name_error(s) is Some,
        has_char(s, '?') || has_char(s, '#') || has_char(s, '%') ==> resource_name_error(s) is Some,
{
    reveal_strlit("/../");
    if occurs_at(s, "/../"@, i) {
        assert(s.subrange(i, i + 4)[1] == s[i + 1]);
        assert(s.subrange(i, i + 4)[2] == s[i + 2]);
        assert(s.subrange(i, i + 4)[3] == s[i + 3]);
        assert(s.subrange(i, i + 4)[0] == s[i]);
        assert(parent_piece_at(s, i + 1));
    }
    if s == seq!['.', '.'] {
        assert(parent_piece_at(s, 0));
    }
}

/// Script file names that `+pull` writes: plain identifiers are accepted; names
/// with `/` or `\`, and `.` and `..`, are refused.
pub proof fn law_script_filenames(s: Seq<char>)
    ensures
        plain_identifier(s) ==> script_filename_error(s) is None,
        has_char(s, '/') || has_char(s, '\\') ==> script_filename_error(s) is Some,
        s == seq!['.'] || s == seq!['.', '.'] ==> script_filename_error(s) is Some,
{
    if plain_identifier(s) {
        assert(!has_char(s, '/') && !has_char(s, '\\')) by {
            if has_char(s, '/') {
                let i = choose|i: int| 0 <= i < s.len() && #[trigger] s[i] == '/';
            }
            if has_char(s, '\\') {
                let i = choose|i: int| 0 <= i < s.len() && #[trigger] s[i] == '\\';
            }
        }
        assert(s != seq!['.']) by {
            if s == seq!['.'] {
                assert(s[0] == '.');
            }
        }
        assert(s != seq!['.', '.']) by {
            if s == seq!['.', '.'] {
                assert(s[0] == '.');
            }
        }
        assert(!has_control_char(s)) by {
            if has_control_char(s) {
                let i = choose|i: int| 0 <= i < s.len() && is_control_char(#[trigger] s[i]);
            }
        }
    }
}

/// The file types of a project and the extensions their files are written with:
/// `SERVER_JS` as `.gs`, `HTML` as `.html`, `JSON` as `.json`; any other type is
/// not written.
pub proof fn law_pulled_extensions(t: Seq<char>, name: Seq<char>)
    ensures
        t == "SERVER_JS"@ ==> pulled_file_name(name, t) == Some(name + ".gs"@),
        t == "HTML"@ ==> pulled_file_name(name, t) == Some(name + ".html"@),
        t == "JSON"@ ==> pulled_file_name(name, t) == Some(name + ".json"@),
        !(t == "SERVER_JS"@ || t == "HTML"@ || t == "JSON"@) ==> pulled_file_name(name, t) is None,
{
    reveal_strlit("SERVER_JS");
    reveal_strlit("HTML");
    reveal_strlit("JSON");
    reveal_strlit(".gs");
    reveal_strlit(".html");
    reveal_strlit(".json");
    reveal_strlit("");
    assert("HTML"@.len() != "SERVER_JS"@.len());
    assert("JSON"@.len() != "SERVER_JS"@.len());
    assert("JSON"@[0] != "HTML"@[0]);
}

/// The methods that the subcommands' requests go to: `+push` to
/// `projects.updateContent`, `+pull` to `projects.getContent`, `+run` to
/// `scripts.run`, `+logs` to `processes.listScriptProcesses`, each naming the
/// script in its parameters; `+run` asks for the `cloud-platform` scope alone.
pub proof fn law_request_methods(
    req: ApiRequest,
    c: ScriptCommand,
    script_id: Seq<char>,
    body: Option<Seq<char>>,
    flag: bool,
    method_scopes: Seq<Seq<char>>,
)
    requires
        is_request_of(req, c, script_id, body, flag),
    ensures
        c == ScriptCommand::Push ==> req.resource@ == "projects"@ && req.method@
            == "updateContent"@,
        c == ScriptCommand::Pull ==> req.resource@ == "projects"@ && req.method@ == "getContent"@,
        c == ScriptCommand::Run ==> req.resource@ == "scripts"@ && req.method@ == "run"@,
        c == ScriptCommand::Logs ==> req.resource@ == "processes"@ && req.method@
            == "listScriptProcesses"@,
        c != ScriptCommand::Open,
        req.params@ == "{\"scriptId\":"@ + json_string_text(script_id) + "}"@,
        scopes_for(ScriptCommand::Run, method_scopes) == seq![
            "https://www.googleapis.com/auth/cloud-platform"@,
        ],
        c != ScriptCommand::Run ==> scopes_for(c, method_scopes) == method_scopes,
{
}

/// A string with no character that JSON escapes is written between quotes as it is.
pub proof fn law_plain_string_quoted_verbatim(s: Seq<char>)
    requires
        forall|i: int|
            0 <= i < s.len() ==> (#[trigger] s[i] as int) >= 32 && s[i] != '"' && s[i] != '\\',
    ensures
        json_string_text(s) == seq!['"'] + s + seq!['"'],
    decreases s.len(),
{
    lemma_plain_escaped(s);
}

proof fn lemma_plain_escaped(s: Seq<char>)
    requires
        forall|i: int|
            0 <= i < s.len() ==> (#[trigger] s[i] as int) >= 32 && s[i] != '"' && s[i] != '\\',
    ensures
        json_escaped(s) == s,
    decreases s.len(),
{
    if s.len() > 0 {
        let q = s.drop_last();
        assert forall|i: int| 0 <= i < q.len() implies (#[trigger] q[i] as int) >= 32 && q[i] != '"'
            && q[i] != '\\' by {
            assert(q[i] == s[i]);
        }
        lemma_plain_escaped(q);
        let c = s.last();
        assert(s[s.len() - 1] == c);
        assert(c != '\u{8}' && c != '\u{c}' && c != '\n' && c != '\r' && c != '\t');
        assert(json_escape_char(c) == seq![c]);
        assert(q + seq![c] =~= s);
    } else {
        assert(s =~= Seq::<char>::empty());
    }
}

/// The hint after a failed `scripts.run`: one about scopes where the error
/// mentions authentication scopes; otherwise one about linking the GCP project
/// where it is a 403 or a missing permission, and one about a missing script
/// where it is a 404 or "not found" (both naming the GCP project line `gcp`);
/// none for any other error.
pub proof fn law_run_hints(msg: Seq<char>, gcp: Seq<char>)
    ensures
        contains_seq(msg, "authentication scopes"@) ==> run_hint(msg, gcp) == Some(scopes_hint()),
        !contains_seq(msg, "authentication scopes"@) && (contains_seq(msg, "403"@) || contains_seq(
            msg,
            "does not have permission"@,
        )) ==> run_hint(msg, gcp) == Some(permission_hint_start() + gcp + permission_hint_end()),
        !contains_seq(msg, "authentication scopes"@) && !contains_seq(msg, "403"@)
            && !contains_seq(msg, "does not have permission"@) && (contains_seq(msg, "404"@)
            || contains_seq(msg, "not found"@)) ==> run_hint(msg, gcp) == Some(
            not_found_hint_start() + gcp + not_found_hint_end(),
        ),
        !contains_seq(msg, "authentication scopes"@) && !contains_seq(msg, "403"@)
            && !contains_seq(msg, "does not have permission"@) && !contains_seq(msg, "404"@)
            && !contains_seq(msg, "not found"@) ==> run_hint(msg, gcp) is None,
        run_hint(msg, gcp) is Some && !contains_seq(msg, "authentication scopes"@) ==> contains_seq(
            run_hint(msg, gcp)->0,
            gcp,
        ),
{
    if run_hint(msg, gcp) is Some && !contains_seq(msg, "authentication scopes"@) {
        let h = run_hint(msg, gcp)->0;
        let (a, b) = if contains_seq(msg, "does not have permission"@) || contains_seq(msg, "403"@) {
            (permission_hint_start(), permission_hint_end())
        } else {
            (not_found_hint_start(), not_found_hint_end())
        };
        assert(h == a + gcp + b);
        assert(occurs_at(gcp, gcp, 0)) by {
            assert(gcp.subrange(0, gcp.len() as int) =~= gcp);
        }
        lemma_occurs_right(a, gcp, gcp, 0);
        lemma_occurs_left(a + gcp, b, gcp, a.len() as int);
    }
}

/// The part before the first `-` of a client ID that starts with `d` and then `-`.
proof fn lemma_prefix_before_dash(d: Seq<char>, rest: Seq<char>)
    requires
        !has_char(d, '-'),
    ensures
        prefix_before(d + seq!['-'] + rest, '-') == d,
    decreases d.len(),
{
    let s = d + seq!['-'] + rest;
    if d.len() == 0 {
        assert(s[0] == '-');
        assert(d =~= Seq::<char>::empty());
    } else {
        let d2 = d.drop_first();
        assert(!has_char(d2, '-')) by {
            if has_char(d2, '-') {
                let i = choose|i: int| 0 <= i < d2.len() && #[trigger] d2[i] == '-';
                assert(d[i + 1] == '-');
            }
        }
        lemma_prefix_before_dash(d2, rest);
        assert(s.drop_first() =~= d2 + seq!['-'] + rest);
        assert(s[0] == d[0]);
        assert(d[0] != '-') by {
            if d[0] == '-' {
                assert(has_char(d, '-'));
            }
        }
        assert(seq![d[0]] + d2 =~= d);
    }
}

/// The GCP project line of an OAuth client ID `{digits}-{rest}` names those digits;
/// a client ID that does not start with digits gives no line.
pub proof fn law_gcp_project_line(digits: Seq<char>, rest: Seq<char>)
    ensures
        digits.len() > 0 && all_ascii_digits(digits) ==> gcp_project_line(
            Some(digits + seq!['-'] + rest),
        ) == "\n   Your OAuth client's GCP project number: \x1b[1m"@ + digits + "\x1b[0m"@,
        rest.len() > 0 && !('0' <= rest[0] && rest[0] <= '9') ==> gcp_project_line(Some(rest))
            == Seq::<char>::empty(),
        gcp_project_line(None) == Seq::<char>::empty(),
{
    if digits.len() > 0 && all_ascii_digits(digits) {
        assert(!has_char(digits, '-')) by {
            if has_char(digits, '-') {
                let i = choose|i: int| 0 <= i < digits.len() && #[trigger] digits[i] == '-';
            }
        }
        lemma_prefix_before_dash(digits, rest);
    }
    if rest.len() > 0 && !('0' <= rest[0] && rest[0] <= '9') {
        let p = prefix_before(rest, '-');
        if rest[0] == '-' {
            assert(p.len() == 0);
        } else {
            assert(p[0] == rest[0]);
        }
    }
}

/// `x` occurs in `a + x + b`.
proof fn lemma_occurs_between(a: Seq<char>, x: Seq<char>, b: Seq<char>)
    ensures
        contains_seq(a + x + b, x),
{
    assert(occurs_at(x, x, 0)) by {
        assert(x.subrange(0, x.len() as int) =~= x);
    }
    lemma_occurs_right(a, x, x, 0);
    lemma_occurs_left(a + x, b, x, a.len() as int);
}

/// The object of an uploaded file holds its name, its source and its type, each
/// as a JSON string.
pub proof fn law_file_object_holds_fields(f: ScriptFile)
    ensures
        contains_seq(file_json(f), json_string_text(f.name@)),
        contains_seq(file_json(f), json_string_text(f.source@)),
        contains_seq(file_json(f), json_string_text(api_type_name(f.file_type))),
{
    let qn = json_string_text(f.name@);
    let qs = json_string_text(f.source@);
    let qt = json_string_text(api_type_name(f.file_type));
    let a = "{\"name\":"@;
    let b = ",\"source\":"@;
    let c = ",\"type\":"@;
    let d = "}"@;
    let j = file_json(f);
    assert(j =~= a + qn + (b + qs + c + qt + d));
    lemma_occurs_between(a, qn, b + qs + c + qt + d);
    assert(j =~= (a + qn + b) + qs + (c + qt + d));
    lemma_occurs_between(a + qn + b, qs, c + qt + d);
    assert(j =~= (a + qn + b + qs + c) + qt + d);
    lemma_occurs_between(a + qn + b + qs + c, qt, d);
}

/// The request parameters hold the script ID as a JSON string, and the run body
/// holds the function name as one, with `"devMode":true` where dev mode is asked for.
pub proof fn law_request_texts_hold_inputs(script_id: Seq<char>, function_name: Seq<char>, dev_mode: bool)
    ensures
        contains_seq(script_params(script_id), json_string_text(script_id)),
        contains_seq(run_body(function_name, dev_mode), json_string_text(function_name)),
        contains_seq(run_body(function_name, true), "\"devMode\":true"@),
{
    lemma_occurs_between("{\"scriptId\":"@, json_string_text(script_id), "}"@);
    if dev_mode {
        lemma_occurs_between(
            "{\"devMode\":true,\"function\":"@,
            json_string_text(function_name),
            "}"@,
        );
    } else {
        lemma_occurs_between("{\"function\":"@, json_string_text(function_name), "}"@);
    }
    reveal_strlit("{\"devMode\":true,\"function\":");
    reveal_strlit("\"devMode\":true");
    let t = "{\"devMode\":true,\"function\":"@;
    assert(t.subrange(1, 15) =~= "\"devMode\":true"@);
    assert(occurs_at(t, "\"devMode\":true"@, 1));
    lemma_occurs_left(t, json_string_text(function_name), "\"devMode\":true"@, 1);
    lemma_occurs_left(t + json_string_text(function_name), "}"@, "\"devMode\":true"@, 1);
}

/// A directory is refused when it holds a control character or leaves the
/// working directory, with a message that names it in the second case; it is
/// accepted otherwise.
pub proof fn law_dir_refusals(label: Seq<char>, cwd: Seq<char>, dir: Seq<char>)
    ensures
        has_control_char(dir) ==> dir_error(label, cwd, dir) is Some,
        !stays_within(cwd, dir) ==> dir_error(label, cwd, dir) is Some,
        !has_control_char(dir) && !stays_within(cwd, dir) ==> contains_seq(
            dir_error(label, cwd, dir)->0,
            dir,
        ),
        !has_control_char(dir) && stays_within(cwd, dir) ==> dir_error(label, cwd, dir) is None,
{
    if !has_control_char(dir) && !stays_within(cwd, dir) {
        lemma_occurs_between(label + " '"@, dir, "' resolves outside the current directory"@);
    }
}

/// The helper's subcommands are `+push`, `+pull`, `+open`, `+run` and `+logs`,
/// each taking `--script`; `+push` and `+pull` take `--dir`; `+run` requires
/// `--function` and has the switch `--dev-mode`.
pub proof fn law_subcommand_surface()
    ensures
        command_name(ScriptCommand::Push) == "+push"@,
        command_name(ScriptCommand::Pull) == "+pull"@,
        command_name(ScriptCommand::Open) == "+open"@,
        command_name(ScriptCommand::Run) == "+run"@,
        command_name(ScriptCommand::Logs) == "+logs"@,
        forall|c: ScriptCommand| (#[trigger] command_args(c))[0].0 == "script"@,
        command_args(ScriptCommand::Push).len() == 2 && command_args(ScriptCommand::Push)[1].0
            == "dir"@,
        command_args(ScriptCommand::Pull).len() == 2 && command_args(ScriptCommand::Pull)[1].0
            == "dir"@,
        command_args(ScriptCommand::Open).len() == 1,
        command_args(ScriptCommand::Logs).len() == 1,
        command_args(ScriptCommand::Run).len() == 3,
        command_args(ScriptCommand::Run)[1].0 == "function"@ && command_args(ScriptCommand::Run)[1].3,
        command_args(ScriptCommand::Run)[2].0 == "dev-mode"@ && command_args(ScriptCommand::Run)[2].4
            && command_args(ScriptCommand::Run)[2].2 is None,
        subcommand_order() == seq![
            ScriptCommand::Push,
            ScriptCommand::Pull,
            ScriptCommand::Open,
            ScriptCommand::Run,
            ScriptCommand::Logs,
        ],
{
}

} // verus!
