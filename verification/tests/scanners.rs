use code_warden::json::{Json, Report};
use code_warden::models::{Persona, ScannerSource, Severity};
use code_warden::models::ScannerSource::{
    Actionlint, Checkov, Gitleaks, Modelscan, Semgrep, Sqlfluff, Trivy, Trufflehog,
};
use code_warden::scanners::{trufflehog_output_lines, ScanOutputs, ScannerEngine};

fn s(x: &str) -> Json {
    Json::Str(x.to_string())
}

fn n(x: u64) -> Json {
    Json::Num(Some(x))
}

fn obj(members: Vec<(&str, Json)>) -> Json {
    Json::Object(members.into_iter().map(|(k, v)| (k.to_string(), v)).collect())
}

fn is_uuid_v4(u: &str) -> bool {
    let b: Vec<char> = u.chars().collect();
    b.len() == 36
        && b.iter().enumerate().all(|(i, c)| {
            if i == 8 || i == 13 || i == 18 || i == 23 {
                *c == '-'
            } else {
                c.is_ascii_digit() || ('a'..='f').contains(c)
            }
        })
        && b[14] == '4'
        && matches!(b[19], '8' | '9' | 'a' | 'b')
}

fn assert_id(id: &str, prefix: &str) {
    assert!(id.starts_with(prefix), "{id}");
    assert_eq!(&id[prefix.len()..prefix.len() + 1], "-");
    assert!(is_uuid_v4(&id[prefix.len() + 1..]), "{id}");
}

fn bytes(text: &str) -> Option<Vec<u8>> {
    Some(text.as_bytes().to_vec())
}

fn empty_outputs() -> ScanOutputs {
    ScanOutputs {
        gitleaks: None,
        semgrep: None,
        trivy: None,
        actionlint: None,
        checkov: None,
        trufflehog: None,
        modelscan: None,
        sqlfluff: None,
    }
}

#[test]
fn gitleaks_reads_leaks_and_skips_env_files() {
    let report = Report::Parsed(Json::Array(vec![
        obj(vec![
            ("File", s("src/config.rs")),
            ("RuleID", s("aws-access-key")),
            ("Description", s("AWS key")),
            ("StartLine", n(12)),
            ("EndLine", n(13)),
            ("Match", s("AKIA****")),
        ]),
        obj(vec![("File", s("app/.env")), ("RuleID", s("x"))]),
        obj(vec![("File", s("prod.env"))]),
        obj(vec![]),
    ]));
    let f = ScannerEngine::scan_gitleaks(&report);
    assert_eq!(f.len(), 2);
    assert_id(&f[0].id, "GITLEAKS");
    assert_eq!(f[0].source, ScannerSource::Gitleaks);
    assert_eq!(f[0].rule_id, "aws-access-key");
    assert_eq!(f[0].severity, Severity::Critical);
    assert_eq!(f[0].message, "AWS key");
    assert_eq!(f[0].file_path, "src/config.rs");
    assert_eq!(f[0].line_start, 12);
    assert_eq!(f[0].line_end, Some(13));
    assert_eq!(f[0].matched_content.as_deref(), Some("AKIA****"));
    assert!(!f[0].fixable);
    assert_eq!(f[0].suggested_patch, None);
    // defaults of a leak with no fields
    assert_eq!(f[1].rule_id, "secret");
    assert_eq!(f[1].message, "Secret leak detected");
    assert_eq!(f[1].file_path, "unknown");
    assert_eq!(f[1].line_start, 1);
    assert_eq!(f[1].line_end, None);
    assert_eq!(f[1].matched_content, None);
    assert_ne!(f[0].id, f[1].id);
}

#[test]
fn gitleaks_without_a_usable_report_finds_nothing() {
    assert!(ScannerEngine::scan_gitleaks(&Report::Absent).is_empty());
    assert!(ScannerEngine::scan_gitleaks(&Report::Invalid).is_empty());
    assert!(ScannerEngine::scan_gitleaks(&Report::Parsed(obj(vec![("a", n(1))]))).is_empty());
}

#[test]
fn excluded_paths() {
    for p in [
        ".env",
        "a/.env",
        "a/.envrc",
        "docs/.environment.md",
        "x.env",
        "target/debug/build.rs",
        "crate/target/x",
        ".git/config",
        "repo/.git/HEAD",
        ".code-warden/memory/memory_state.json",
        "p/.code-warden/x",
    ] {
        assert!(ScannerEngine::is_excluded_path(p), "{p}");
    }
    for p in ["src/main.rs", "targets/x", "my.git/x", "env", "docs/environment.md", "target"] {
        assert!(!ScannerEngine::is_excluded_path(p), "{p}");
    }
}

#[test]
fn semgrep_reads_results() {
    let report = Report::Parsed(obj(vec![(
        "results",
        Json::Array(vec![
            obj(vec![
                ("check_id", s("python.lang.eval")),
                ("path", s("app.py")),
                ("start", obj(vec![("line", n(4))])),
                ("end", obj(vec![("line", n(5))])),
                (
                    "extra",
                    obj(vec![
                        ("message", s("eval is dangerous")),
                        ("lines", s("eval(x)")),
                        ("fix", s("ast.literal_eval(x)")),
                    ]),
                ),
            ]),
            obj(vec![("path", s("target/gen.py"))]),
            obj(vec![]),
        ]),
    )]));
    let f = ScannerEngine::scan_semgrep(&report);
    assert_eq!(f.len(), 2);
    assert_id(&f[0].id, "SEMGREP");
    assert_eq!(f[0].source, ScannerSource::Semgrep);
    assert_eq!(f[0].rule_id, "python.lang.eval");
    assert_eq!(f[0].severity, Severity::High);
    assert_eq!(f[0].message, "eval is dangerous");
    assert_eq!(f[0].file_path, "app.py");
    assert_eq!(f[0].line_start, 4);
    assert_eq!(f[0].line_end, Some(5));
    assert_eq!(f[0].matched_content.as_deref(), Some("eval(x)"));
    assert!(f[0].fixable);
    assert_eq!(f[0].suggested_patch.as_deref(), Some("ast.literal_eval(x)"));
    assert_eq!(f[1].rule_id, "sast");
    assert_eq!(f[1].message, "");
    assert_eq!(f[1].file_path, "");
    assert_eq!(f[1].line_start, 1);
    assert!(!f[1].fixable);
    assert!(ScannerEngine::scan_semgrep(&Report::Invalid).is_empty());
}

#[test]
fn trivy_reads_vulnerabilities_per_target() {
    let report = Report::Parsed(obj(vec![(
        "Results",
        Json::Array(vec![
            obj(vec![
                ("Target", s("Cargo.lock")),
                (
                    "Vulnerabilities",
                    Json::Array(vec![
                        obj(vec![
                            ("VulnerabilityID", s("CVE-2024-1")),
                            ("Title", s("bad crate")),
                            ("FixedVersion", s("1.2.3")),
                        ]),
                        obj(vec![]),
                    ]),
                ),
            ]),
            obj(vec![("Target", s("target/release/app")), ("Vulnerabilities", Json::Array(vec![obj(vec![])]))]),
            obj(vec![("Vulnerabilities", Json::Array(vec![obj(vec![])]))]),
            obj(vec![("Target", s("package-lock.json"))]),
        ]),
    )]));
    let f = ScannerEngine::scan_trivy(&report);
    assert_eq!(f.len(), 3);
    assert_id(&f[0].id, "TRIVY");
    assert_eq!(f[0].rule_id, "CVE-2024-1");
    assert_eq!(f[0].message, "bad crate");
    assert_eq!(f[0].file_path, "Cargo.lock");
    assert_eq!(f[0].line_start, 1);
    assert!(f[0].fixable);
    assert_eq!(f[0].suggested_patch.as_deref(), Some("Upgrade to 1.2.3"));
    assert_eq!(f[1].rule_id, "CVE");
    assert_eq!(f[1].message, "Dependency vulnerability");
    assert!(!f[1].fixable);
    assert_eq!(f[1].suggested_patch, None);
    assert_eq!(f[2].file_path, "dependencies");
    assert_eq!(f[2].severity, Severity::High);
}

#[test]
fn actionlint_reads_errors() {
    let report = Report::Parsed(Json::Array(vec![obj(vec![
        ("kind", s("expression")),
        ("message", s("undefined variable")),
        ("filepath", s(".github/workflows/ci.yml")),
        ("line", n(7)),
        ("snippet", s("${{ foo }}")),
    ])]));
    let f = ScannerEngine::scan_actionlint(&report);
    assert_eq!(f.len(), 1);
    assert_id(&f[0].id, "ACTIONLINT");
    assert_eq!(f[0].source, ScannerSource::Actionlint);
    assert_eq!(f[0].rule_id, "expression");
    assert_eq!(f[0].file_path, ".github/workflows/ci.yml");
    assert_eq!(f[0].line_start, 7);
    assert_eq!(f[0].line_end, None);
    assert_eq!(f[0].matched_content.as_deref(), Some("${{ foo }}"));
    let d = ScannerEngine::scan_actionlint(&Report::Parsed(Json::Array(vec![obj(vec![])])));
    assert_eq!(d[0].rule_id, "ci-error");
    assert!(ScannerEngine::scan_actionlint(&Report::Absent).is_empty());
}

#[test]
fn checkov_reads_both_report_shapes() {
    let check = || {
        obj(vec![
            ("check_id", s("CKV_DOCKER_3")),
            ("check_name", s("Ensure that a user is created")),
            ("file_path", s("/Dockerfile")),
            ("file_line_range", Json::Array(vec![n(1), n(9)])),
        ])
    };
    let a = ScannerEngine::scan_checkov(&Report::Parsed(Json::Array(vec![check()])));
    let b = ScannerEngine::scan_checkov(&Report::Parsed(obj(vec![(
        "results",
        obj(vec![("failed_checks", Json::Array(vec![check(), obj(vec![])]))]),
    )])));
    assert_eq!(a.len(), 1);
    assert_eq!(b.len(), 2);
    for f in [&a[0], &b[0]] {
        assert_id(&f.id, "CHECKOV");
        assert_eq!(f.rule_id, "CKV_DOCKER_3");
        assert_eq!(f.message, "Ensure that a user is created");
        assert_eq!(f.file_path, "/Dockerfile");
        assert_eq!(f.line_start, 1);
        assert_eq!(f.line_end, Some(9));
    }
    assert_eq!(b[1].rule_id, "CKV_IAC");
    assert_eq!(b[1].message, "IaC misconfiguration");
    assert_eq!(b[1].line_start, 1);
    assert_eq!(b[1].line_end, None);
    assert!(ScannerEngine::scan_checkov(&Report::Parsed(Json::Null)).is_empty());
}

#[test]
fn trufflehog_reads_json_lines() {
    let item = obj(vec![
        ("DetectorName", s("AWS")),
        (
            "SourceMetadata",
            obj(vec![(
                "Data",
                obj(vec![("Filesystem", obj(vec![("file", s("keys.txt")), ("line", n(3))]))]),
            )]),
        ),
    ]);
    let f = ScannerEngine::scan_trufflehog(&vec![Some(item), None, Some(n(5))]);
    assert_eq!(f.len(), 2);
    assert_id(&f[0].id, "TRUFFLEHOG");
    assert_eq!(f[0].rule_id, "AWS");
    assert_eq!(f[0].message, "Verified exposed credential: AWS");
    assert_eq!(f[0].file_path, "keys.txt");
    assert_eq!(f[0].line_start, 3);
    assert_eq!(f[0].severity, Severity::Critical);
    assert_eq!(f[1].rule_id, "verified-secret");
    assert_eq!(f[1].message, "Verified exposed credential: secret");
    assert_eq!(f[1].file_path, "unknown");
}

#[test]
fn modelscan_reads_issues() {
    let report = Report::Parsed(obj(vec![(
        "issues",
        Json::Array(vec![
            obj(vec![
                ("scanner", s("pickle")),
                ("description", s("os.system call")),
                ("source", s("model.pkl")),
            ]),
            obj(vec![]),
        ]),
    )]));
    let f = ScannerEngine::scan_modelscan(&report);
    assert_eq!(f.len(), 2);
    assert_id(&f[0].id, "MODELSCAN");
    assert_eq!(f[0].rule_id, "pickle");
    assert_eq!(f[0].file_path, "model.pkl");
    assert_eq!(f[1].rule_id, "unsafe-deserialization");
    assert_eq!(f[1].file_path, "model");
    assert_eq!(f[1].line_start, 1);
}

#[test]
fn sqlfluff_reads_violations_per_file() {
    let report = Report::Parsed(Json::Array(vec![
        obj(vec![
            ("filepath", s("db/q.sql")),
            (
                "violations",
                Json::Array(vec![
                    obj(vec![("code", s("L010")), ("description", s("caps")), ("line_no", n(2))]),
                    obj(vec![]),
                ]),
            ),
        ]),
        obj(vec![("filepath", s("db/ok.sql")), ("violations", Json::Array(vec![]))]),
    ]));
    let f = ScannerEngine::scan_sqlfluff(&report);
    assert_eq!(f.len(), 2);
    assert_id(&f[0].id, "SQLFLUFF");
    assert_eq!(f[0].severity, Severity::Medium);
    assert_eq!(f[0].rule_id, "L010");
    assert_eq!(f[0].file_path, "db/q.sql");
    assert_eq!(f[0].line_start, 2);
    assert_eq!(f[1].rule_id, "sql-anti-pattern");
    assert_eq!(f[1].file_path, "db/q.sql");
}

fn files(paths: &[&str]) -> Vec<String> {
    paths.iter().map(|p| p.to_string()).collect()
}

#[test]
fn personas_choose_their_scanners() {
    let base = vec![Gitleaks, Semgrep, Trivy];
    let with = |extra: Vec<ScannerSource>| {
        let mut v = base.clone();
        v.extend(extra);
        v
    };
    let all = files(&[
        ".github/workflows/ci.yml",
        "Dockerfile",
        "models/net.pkl",
        "db/schema.sql",
        "src/main.rs",
    ]);
    assert_eq!(ScannerEngine::scanners_for_persona(&Persona::DevOpsPlatform, &all), with(vec![Actionlint, Checkov]));
    assert_eq!(ScannerEngine::scanners_for_persona(&Persona::RedTeamCybersecurity, &all), with(vec![Trufflehog]));
    assert_eq!(ScannerEngine::scanners_for_persona(&Persona::AiMlEngineer, &all), with(vec![Modelscan]));
    assert_eq!(ScannerEngine::scanners_for_persona(&Persona::DatabaseEngineer, &all), with(vec![Sqlfluff]));
    assert_eq!(ScannerEngine::scanners_for_persona(&Persona::SoftwareEngineer, &all), base);
    assert_eq!(ScannerEngine::scanners_for_persona(&Persona::WebDeveloper, &all), base);
    assert_eq!(ScannerEngine::scanners_for_persona(&Persona::OssCompliance, &all), base);
}

#[test]
fn file_triggers_decide_targeted_scanners() {
    let plain = files(&["src/main.rs", "README.md"]);
    let base = vec![Gitleaks, Semgrep, Trivy];
    assert_eq!(ScannerEngine::scanners_for_persona(&Persona::DatabaseEngineer, &plain), base);
    assert_eq!(ScannerEngine::scanners_for_persona(&Persona::AiMlEngineer, &plain), base);
    assert_eq!(ScannerEngine::scanners_for_persona(&Persona::DevOpsPlatform, &plain), base);
    assert_eq!(
        ScannerEngine::scanners_for_persona(&Persona::RedTeamCybersecurity, &vec![]),
        vec![Gitleaks, Semgrep, Trivy, Trufflehog]
    );
    assert_eq!(
        ScannerEngine::scanners_for_persona(&Persona::DevOpsPlatform, &files(&["infra/main.tf"])),
        vec![Gitleaks, Semgrep, Trivy, Checkov]
    );
    assert_eq!(
        ScannerEngine::scanners_for_persona(&Persona::DatabaseEngineer, &files(&["db/migrations/001.rb"])),
        vec![Gitleaks, Semgrep, Trivy, Sqlfluff]
    );
    assert!(ScannerEngine::persona_is_triggered(&Persona::SoftwareEngineer, &files(&["a/b.go"])));
    assert!(!ScannerEngine::persona_is_triggered(&Persona::OssCompliance, &files(&["a/b.go"])));
    assert!(ScannerEngine::has_workflow_files(&files(&[".github/workflows/x.yml"])));
    assert!(!ScannerEngine::has_workflow_files(&files(&["a/.github/workflows/x.yml"])));
}

#[test]
fn scan_for_persona_orders_and_selects() {
    let mut o = empty_outputs();
    o.gitleaks = bytes(r#"[{"File": "a.rs"}]"#);
    o.semgrep = bytes(r#"{"results": [{"path": "b.py"}]}"#);
    o.trivy = bytes(r#"{"Results": [{"Target": "go.mod", "Vulnerabilities": [{}]}]}"#);
    o.actionlint = bytes("[{}]");
    o.checkov = bytes("[{}]");
    o.trufflehog = bytes("{}\n");
    o.modelscan = bytes(r#"{"issues": [{}]}"#);
    o.sqlfluff = bytes(r#"[{"violations": [{}]}]"#);
    let all = files(&[".github/workflows/ci.yml", "model.pt", "q.sql"]);
    let sources = |p: Persona, fs: &Vec<String>| -> Vec<ScannerSource> {
        ScannerEngine::scan_for_persona(&p, fs, &o).iter().map(|f| f.source).collect()
    };
    assert_eq!(sources(Persona::DevOpsPlatform, &all), vec![Gitleaks, Semgrep, Trivy, Actionlint, Checkov]);
    assert_eq!(sources(Persona::RedTeamCybersecurity, &all), vec![Gitleaks, Semgrep, Trivy, Trufflehog]);
    assert_eq!(sources(Persona::AiMlEngineer, &all), vec![Gitleaks, Semgrep, Trivy, Modelscan]);
    assert_eq!(sources(Persona::DatabaseEngineer, &all), vec![Gitleaks, Semgrep, Trivy, Sqlfluff]);
    assert_eq!(sources(Persona::WebDeveloper, &all), vec![Gitleaks, Semgrep, Trivy]);
    assert_eq!(sources(Persona::DatabaseEngineer, &files(&["main.rs"])), vec![Gitleaks, Semgrep, Trivy]);
    assert_eq!(sources(Persona::DevOpsPlatform, &files(&["x.yml"])), vec![Gitleaks, Semgrep, Trivy, Checkov]);
    for f in ScannerEngine::scan_for_persona(&Persona::DevOpsPlatform, &all, &o) {
        assert_eq!(f.fixable, f.suggested_patch.is_some());
    }
    assert!(ScannerEngine::scan_for_persona(&Persona::SoftwareEngineer, &all, &empty_outputs()).is_empty());
}

#[test]
fn tool_binaries_resolve_in_order() {
    let m = ScannerEngine::managed_tool_path("/home/u", "gitleaks", false);
    let v = ScannerEngine::venv_tool_path("/home/u/", "checkov", false);
    assert_eq!(m, "/home/u/.code-warden/bin/gitleaks");
    assert_eq!(v, "/home/u/.code-warden/engines/venv/bin/checkov");
    assert_eq!(
        ScannerEngine::venv_tool_path("C:\\Users\\u", "checkov", true),
        "C:\\Users\\u\\.code-warden\\engines\\venv\\Scripts\\checkov.exe"
    );
    assert_eq!(
        ScannerEngine::managed_tool_path("C:\\Users\\u", "trufflehog", true),
        "C:\\Users\\u\\.code-warden\\bin\\trufflehog.exe"
    );
    assert_eq!(ScannerEngine::resolve_tool_bin("gitleaks", &m, true, &v, true, false), m);
    assert_eq!(ScannerEngine::resolve_tool_bin("gitleaks", &m, false, &v, true, false), v);
    assert_eq!(ScannerEngine::resolve_tool_bin("gitleaks", &m, false, &v, false, false), "gitleaks");
    assert_eq!(ScannerEngine::resolve_tool_bin("gitleaks", &m, false, &v, false, true), "gitleaks.exe");
}

#[test]
fn raw_reports_are_parsed_before_reading() {
    let leaks = br#"[{"File": "src/a.rs", "RuleID": "aws", "StartLine": 4},
                     {"File": ".env", "RuleID": "aws"}]"#;
    let f = ScannerEngine::scan_gitleaks_output(Some(leaks));
    assert_eq!(f.len(), 1);
    assert_eq!(f[0].rule_id, "aws");
    assert_eq!(f[0].file_path, "src/a.rs");
    assert_eq!(f[0].line_start, 4);
    assert_id(&f[0].id, "GITLEAKS");
    assert!(ScannerEngine::scan_gitleaks_output(None).is_empty());
    assert!(ScannerEngine::scan_gitleaks_output(Some(b"not json")).is_empty());

    let sg = br#"{"results": [{"check_id": "py.eval", "path": "m.py", "start": {"line": 9},
                  "extra": {"message": "eval", "fix": "ast.literal_eval(x)"}}]}"#;
    let f = ScannerEngine::scan_semgrep_output(Some(sg));
    assert_eq!(f.len(), 1);
    assert_eq!(f[0].rule_id, "py.eval");
    assert_eq!(f[0].line_start, 9);
    assert!(f[0].fixable);
    assert_eq!(f[0].suggested_patch.as_deref(), Some("ast.literal_eval(x)"));
    assert!(ScannerEngine::scan_semgrep_output(Some(b"{\"results\": [")).is_empty());

    let tv = br#"{"Results": [{"Target": "Cargo.lock",
                  "Vulnerabilities": [{"VulnerabilityID": "CVE-1", "PkgName": "x"}]}]}"#;
    let f = ScannerEngine::scan_trivy_output(Some(tv));
    assert_eq!(f.len(), 1);
    assert_eq!(f[0].rule_id, "CVE-1");
    assert_eq!(f[0].file_path, "Cargo.lock");

    let al = br#"[{"kind": "syntax-check", "message": "bad", "filepath": "ci.yml", "line": 2}]"#;
    let f = ScannerEngine::scan_actionlint_output(Some(al));
    assert_eq!(f.len(), 1);
    assert_eq!(f[0].rule_id, "syntax-check");
    assert_eq!(f[0].line_start, 2);

    let ck = br#"{"results": {"failed_checks": [{"check_id": "CKV_1", "file_path": "/main.tf",
                  "file_line_range": [3, 5]}]}}"#;
    let f = ScannerEngine::scan_checkov_output(Some(ck));
    assert_eq!(f.len(), 1);
    assert_eq!(f[0].rule_id, "CKV_1");
    assert_eq!(f[0].line_start, 3);
    assert_eq!(f[0].line_end, Some(5));

    let ms = br#"{"issues": [{"scanner": "pickle", "description": "unsafe", "source": "m.pkl"}]}"#;
    let f = ScannerEngine::scan_modelscan_output(Some(ms));
    assert_eq!(f.len(), 1);
    assert_eq!(f[0].rule_id, "pickle");
    assert_eq!(f[0].file_path, "m.pkl");

    let sq = br#"[{"filepath": "q.sql", "violations": [{"code": "AM04", "line_no": 7}]}]"#;
    let f = ScannerEngine::scan_sqlfluff_output(Some(sq));
    assert_eq!(f.len(), 1);
    assert_eq!(f[0].rule_id, "AM04");
    assert_eq!(f[0].file_path, "q.sql");
    assert_eq!(f[0].line_start, 7);
}

#[test]
fn trufflehog_output_is_read_line_by_line() {
    let out = b"{\"DetectorName\": \"Slack\"}\r\nnot json\n\xff\xfe\n\n{\"DetectorName\": \"AWS\"}";
    let lines = trufflehog_output_lines(Some(out));
    assert_eq!(lines.len(), 5);
    assert!(lines[0].is_some());
    assert!(lines[1].is_none());
    assert!(lines[2].is_none());
    assert!(lines[3].is_none());
    assert!(lines[4].is_some());
    let f = ScannerEngine::scan_trufflehog_output(Some(out));
    assert_eq!(f.len(), 2);
    assert_eq!(f[0].rule_id, "Slack");
    assert_eq!(f[1].rule_id, "AWS");
    assert_eq!(f[1].message, "Verified exposed credential: AWS");
    assert!(trufflehog_output_lines(None).is_empty());
    assert!(ScannerEngine::scan_trufflehog_output(Some(b"")).is_empty());
}

#[test]
fn unusable_outputs_find_nothing() {
    for out in [None, Some(&b"oops"[..]), Some(&b"{\"results\": ["[..])] {
        assert!(ScannerEngine::scan_gitleaks_output(out).is_empty());
        assert!(ScannerEngine::scan_semgrep_output(out).is_empty());
        assert!(ScannerEngine::scan_trivy_output(out).is_empty());
        assert!(ScannerEngine::scan_actionlint_output(out).is_empty());
        assert!(ScannerEngine::scan_checkov_output(out).is_empty());
        assert!(ScannerEngine::scan_modelscan_output(out).is_empty());
        assert!(ScannerEngine::scan_sqlfluff_output(out).is_empty());
    }
    assert!(ScannerEngine::scan_trufflehog_output(None).is_empty());
}
