use gws::script::{
    auth_for_token, captures_output, check_inside_output, classify_local_file,
    discovery_method_scopes, extract_gcp_project_number, file_type_to_extension,
    gcp_project_hint, logs_request, missing_method_error, missing_resource_error,
    plan_pull_file, pull_request, pull_response_files, push_request, push_request_body,
    request_scopes, run_error_hint, run_request, run_request_body, script_editor_url,
    script_id_params, uses_dry_run, AuthMethod, RemoteFile, ScriptCommand, ScriptFile,
    ScriptFileType, ScriptHelper,
};
use std::path::Path;
use gws::GwsError;

fn classify(path: &str) -> Option<(String, ScriptFileType)> {
    let p = Path::new(path);
    let components: Vec<String> = path.split('/').map(|s| s.to_string()).collect();
    let file_name = p.file_name().and_then(|s| s.to_str());
    let extension = p.extension().and_then(|s| s.to_str());
    classify_local_file(&components, file_name, extension).map(|f| (f.name, f.file_type))
}

fn remote(name: Option<&str>, ty: Option<&str>, source: Option<&str>) -> RemoteFile {
    RemoteFile {
        name: name.map(|s| s.to_string()),
        file_type: ty.map(|s| s.to_string()),
        source: source.map(|s| s.to_string()),
    }
}

#[test]
fn test_file_type_to_extension() {
    assert_eq!(file_type_to_extension("SERVER_JS"), ".gs");
    assert_eq!(file_type_to_extension("HTML"), ".html");
    assert_eq!(file_type_to_extension("JSON"), ".json");
    assert_eq!(file_type_to_extension("UNKNOWN"), "");
    assert_eq!(file_type_to_extension(""), "");
}

#[test]
fn test_process_file_server_js() {
    let (name, ty) = classify("tmp/code.gs").unwrap();
    assert_eq!(name, "code");
    assert_eq!(ty.as_str(), "SERVER_JS");
}

#[test]
fn test_process_file_html() {
    let (name, ty) = classify("tmp/index.html").unwrap();
    assert_eq!(name, "index");
    assert_eq!(ty.as_str(), "HTML");
}

#[test]
fn test_process_file_appsscript_json() {
    let (name, ty) = classify("tmp/appsscript.json").unwrap();
    assert_eq!(name, "appsscript");
    assert_eq!(ty.as_str(), "JSON");
}

#[test]
fn test_process_file_ignored() {
    assert!(classify("tmp/other.json").is_none());
    assert!(classify("tmp/.hidden.gs").is_none());
    assert!(classify("tmp/node_modules/dep.gs").is_none());
}

#[test]
fn test_visit_dirs() {
    let found: Vec<String> = ["tmp/root.gs", "tmp/src/utils.js", "tmp/ignore.txt"]
        .iter()
        .filter_map(|p| classify(p))
        .map(|(n, _)| n)
        .collect();
    assert_eq!(found.len(), 2);
    assert!(found.contains(&"root".to_string()));
    assert!(found.contains(&"utils".to_string()));
}

#[test]
fn local_file_edge_cases() {
    // trailing repetitions are all trimmed
    assert_eq!(classify("d/a.gs.gs").unwrap().0, "a");
    assert_eq!(classify("d/a.js").unwrap().0, "a");
    assert_eq!(classify("d/lib.min.js").unwrap().0, "lib.min");
    assert!(classify("d/noext").is_none());
    assert!(classify("d/gs").is_none());
    assert!(classify("d/Page.HTML").is_none());
    assert!(classify_local_file(&vec!["x".to_string()], None, None).is_none());
    // a file name that is not UTF-8 but has a ".gs" extension is uploaded under an empty name
    let f = classify_local_file(&vec!["d".to_string()], None, Some("gs")).unwrap();
    assert_eq!(f.name, "");
    assert_eq!(f.file_type.as_str(), "SERVER_JS");
}

#[test]
fn pull_plans() {
    let w = plan_pull_file(&remote(Some("Code"), Some("SERVER_JS"), Some("function f() {}")))
        .unwrap()
        .unwrap();
    assert_eq!(w.file_name, "Code.gs");
    assert_eq!(w.contents, "function f() {}");
    let w = plan_pull_file(&remote(Some("Page"), Some("HTML"), None)).unwrap().unwrap();
    assert_eq!(w.file_name, "Page.html");
    assert_eq!(w.contents, "");
    let w = plan_pull_file(&remote(Some("appsscript"), Some("JSON"), Some("{}"))).unwrap().unwrap();
    assert_eq!(w.file_name, "appsscript.json");
    assert!(plan_pull_file(&remote(Some("x"), Some("OTHER"), None)).unwrap().is_none());
    assert!(plan_pull_file(&remote(Some("x"), None, None)).unwrap().is_none());
    let err = plan_pull_file(&remote(None, Some("SERVER_JS"), None)).unwrap_err();
    assert_eq!(err.message(), "Script file name must not be empty");
    let err = plan_pull_file(&remote(Some("../evil"), Some("SERVER_JS"), None)).unwrap_err();
    assert!(err.message().contains("path separators"));
}

#[test]
fn pull_then_push_round_trip() {
    for (name, ty) in [("Code", "SERVER_JS"), ("a.js", "SERVER_JS"), ("Page", "HTML"), ("appsscript", "JSON")] {
        let w = plan_pull_file(&remote(Some(name), Some(ty), Some(""))).unwrap().unwrap();
        let (back, back_ty) = classify(&format!("out/{}", w.file_name)).unwrap();
        assert_eq!(back, name);
        assert_eq!(back_ty.as_str(), ty);
    }
    // a script name ending in ".gs" does not come back unchanged
    let w = plan_pull_file(&remote(Some("a.gs"), Some("SERVER_JS"), Some(""))).unwrap().unwrap();
    assert_eq!(classify(&format!("out/{}", w.file_name)).unwrap().0, "a");
}

#[test]
fn pull_responses() {
    assert_eq!(
        pull_response_files(None).unwrap_err().message(),
        "No response from getContent"
    );
    assert_eq!(
        pull_response_files(Some(None)).unwrap_err().message(),
        "Response missing 'files' array"
    );
    let files = pull_response_files(Some(Some(vec![remote(Some("a"), None, None)]))).unwrap();
    assert_eq!(files.len(), 1);
}

#[test]
fn pulled_file_stays_inside() {
    assert!(check_inside_output("/work/out", "/work/out/Code.gs", "Code.gs").is_ok());
    let err = check_inside_output("/work/out", "/etc/passwd", "Code.gs").unwrap_err();
    assert_eq!(
        err.message(),
        "File 'Code.gs' would be written outside output directory \u{2014} refusing"
    );
}

#[test]
fn push_bodies() {
    let files = vec![
        ScriptFile {
            name: "Code".to_string(),
            file_type: ScriptFileType::ServerJs,
            source: "var s = \"x\";\n".to_string(),
        },
        ScriptFile {
            name: "appsscript".to_string(),
            file_type: ScriptFileType::Json,
            source: "{}".to_string(),
        },
    ];
    let body = push_request_body(&files, "/work").unwrap();
    assert_eq!(
        body,
        "{\"files\":[{\"name\":\"Code\",\"source\":\"var s = \\\"x\\\";\\n\",\"type\":\"SERVER_JS\"},{\"name\":\"appsscript\",\"source\":\"{}\",\"type\":\"JSON\"}]}"
    );
    let parsed: serde_json::Value = serde_json::from_str(&body).unwrap();
    assert_eq!(parsed["files"][0]["source"], "var s = \"x\";\n");
    let err = push_request_body(&vec![], "/work").unwrap_err();
    assert_eq!(err.message(), "No eligible files found in '/work'");
}

#[test]
fn request_texts() {
    assert_eq!(script_id_params("abc"), "{\"scriptId\":\"abc\"}");
    assert_eq!(script_id_params("a\"b"), "{\"scriptId\":\"a\\\"b\"}");
    assert_eq!(script_id_params("a\u{1}\u{7f}\\\t"), "{\"scriptId\":\"a\\u0001\u{7f}\\\\\\t\"}");
    assert_eq!(run_request_body("main", false), "{\"function\":\"main\"}");
    assert_eq!(
        run_request_body("main", true),
        "{\"devMode\":true,\"function\":\"main\"}"
    );
    assert_eq!(script_editor_url("abc"), "https://script.google.com/d/abc/edit");
}

#[test]
fn commands() {
    let helper = ScriptHelper;
    let subs = helper.subcommands();
    let names: Vec<&str> = subs.iter().map(|s| s.name).collect();
    assert_eq!(names, vec!["+push", "+pull", "+open", "+run", "+logs"]);
    let run = &subs[3];
    assert_eq!(run.args.len(), 3);
    assert!(run.args[1].required);
    assert!(run.args[2].flag);
    for (i, name) in names.iter().enumerate() {
        let c = helper.command_for(name).unwrap();
        assert_eq!(c.name(), *name);
        assert_eq!(subs[i].name, c.name());
    }
    assert!(helper.command_for("+other").is_none());
    assert_eq!(ScriptCommand::Pull.api_method(), Some(("projects", "getContent")));
    assert_eq!(ScriptCommand::Open.api_method(), None);
    assert!(!uses_dry_run(ScriptCommand::Pull));
    assert!(uses_dry_run(ScriptCommand::Push));
    assert!(captures_output(ScriptCommand::Pull));
    assert_eq!(
        request_scopes(ScriptCommand::Run, vec!["s1".to_string()]),
        vec!["https://www.googleapis.com/auth/cloud-platform".to_string()]
    );
    assert_eq!(
        request_scopes(ScriptCommand::Logs, vec!["s1".to_string()]),
        vec!["s1".to_string()]
    );
}

#[test]
fn discovery_errors() {
    let e = missing_resource_error("projects");
    assert_eq!(e.message(), "Resource 'projects' not found");
    assert!(matches!(e, GwsError::Discovery(_)));
    let e = missing_method_error("scripts", "run");
    assert_eq!(e.message(), "Method 'scripts.run' not found");
}

#[test]
fn run_hints() {
    let h = run_error_hint("Request had insufficient authentication scopes.", "").unwrap();
    assert!(h.contains("cloud-platform"));
    let h = run_error_hint("HTTP 403: forbidden", "\nGCP").unwrap();
    assert!(h.starts_with("\n\x1b[33mHint:\x1b[0m The script must be linked to your OAuth client's GCP project.\nGCP\n1."));
    let h = run_error_hint("Requested entity was not found", "").unwrap();
    assert!(h.contains("The script was not found"));
    assert!(run_error_hint("404", "").unwrap().contains("--dev-mode"));
    assert!(run_error_hint("timeout", "").is_none());
    // scopes take precedence over a 403 in the same message
    assert!(run_error_hint("403 authentication scopes", "").unwrap().contains("cloud-platform"));
}

#[test]
fn gcp_project_numbers() {
    assert_eq!(
        gcp_project_hint(Some("388781138000-abc.apps.googleusercontent.com")),
        "\n   Your OAuth client's GCP project number: \x1b[1m388781138000\x1b[0m"
    );
    assert_eq!(gcp_project_hint(Some("12a-abc")), "");
    assert_eq!(gcp_project_hint(Some("-abc")), "");
    assert_eq!(gcp_project_hint(Some("12345")), "\n   Your OAuth client's GCP project number: \x1b[1m12345\x1b[0m");
    assert_eq!(gcp_project_hint(None), "");
    assert_eq!(
        extract_gcp_project_number("{\"client_id\": \"42-x.apps.googleusercontent.com\", \"other\": 1}"),
        "\n   Your OAuth client's GCP project number: \x1b[1m42\x1b[0m"
    );
    assert_eq!(extract_gcp_project_number("{\"client_id\": 42}"), "");
    assert_eq!(extract_gcp_project_number("not json"), "");
}

#[test]
fn requests() {
    let files = vec![ScriptFile {
        name: "Code".to_string(),
        file_type: ScriptFileType::ServerJs,
        source: "x".to_string(),
    }];
    let r = push_request("abc", &files, "/w", true).unwrap();
    assert_eq!((r.resource, r.method), ("projects", "updateContent"));
    assert_eq!(r.params, "{\"scriptId\":\"abc\"}");
    assert_eq!(
        r.body.as_deref(),
        Some("{\"files\":[{\"name\":\"Code\",\"source\":\"x\",\"type\":\"SERVER_JS\"}]}")
    );
    assert!(r.dry_run && !r.capture_output);
    assert!(push_request("abc", &vec![], "/w", false).is_err());
    let r = pull_request("abc");
    assert_eq!((r.resource, r.method), ("projects", "getContent"));
    assert!(r.body.is_none() && !r.dry_run && r.capture_output);
    let r = run_request("abc", "main", true, false);
    assert_eq!((r.resource, r.method), ("scripts", "run"));
    assert_eq!(r.body.as_deref(), Some("{\"devMode\":true,\"function\":\"main\"}"));
    assert!(!r.dry_run && !r.capture_output);
    let r = logs_request("abc", true);
    assert_eq!((r.resource, r.method), ("processes", "listScriptProcesses"));
    assert!(r.body.is_none() && r.dry_run);
}

#[test]
fn discovery_lookups() {
    let e = discovery_method_scopes("projects", "getContent", None).unwrap_err();
    assert_eq!(e.message(), "Resource 'projects' not found");
    let e = discovery_method_scopes("projects", "getContent", Some(None)).unwrap_err();
    assert_eq!(e.message(), "Method 'projects.getContent' not found");
    assert!(matches!(e, GwsError::Discovery(_)));
    let s = discovery_method_scopes("projects", "getContent", Some(Some(vec!["s".to_string()])))
        .unwrap();
    assert_eq!(s, vec!["s".to_string()]);
}

#[test]
fn auth_choice() {
    let (t, m) = auth_for_token(Some("tok".to_string()));
    assert_eq!(t.as_deref(), Some("tok"));
    assert_eq!(m, AuthMethod::OAuth);
    let (t, m) = auth_for_token(None);
    assert!(t.is_none());
    assert_eq!(m, AuthMethod::NoAuth);
}

#[test]
fn subcommand_help_texts() {
    let subs = ScriptHelper.subcommands();
    assert_eq!(subs[0].args[1].help, "Directory containing script files (reads .clasp.json rootDir, or defaults to current dir)");
    assert_eq!(subs[1].args[1].help, "Output directory (reads .clasp.json rootDir, or defaults to current dir)");
    assert!(subs[0].after_help.contains("This replaces ALL files in the project."));
    assert!(subs[1].after_help.contains("SERVER_JS  \u{2192} {name}.gs"));
}
