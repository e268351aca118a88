use code_warden::audit::{
    action_applies_fixes, build_diagnostics, findings_count_summary, finding_summary_line,
    render_audit_report, review_bypassed,
};
use code_warden::cli::{
    code_warden_home, confirms_uninstall, get_user_home, get_venv_bin_dir, global_config_path,
    key_setting_entry, load_active_api_key, mask_api_key, parse_persona, persona_from_alias,
    resolve_binary_name, set_key_setting,
};
use code_warden::json::Json;
use code_warden::llm::{
    build_gemini_generate_url, build_ollama_chat_url, check_gemini_key,
    gemini_model_needs_discovery, read_gemini_reply, read_gemini_reply_body, read_ollama_reply,
    read_ollama_reply_body, select_gemini_model, select_gemini_model_from, status_is_success, provider_uses_key, GeminiRetry, GeminiStep, Provider, ReviewFallback,
};
use code_warden::json::{report_of_output, Report};
use code_warden::memory::{MemoryManager, MemoryState};
use code_warden::models::{Persona, ScannerSource, Severity, UnifiedFinding};
use code_warden::prompts::{build_persona_system_prompt, build_remediation_prompt};
use code_warden::remediator::{fix_branch_ref, Remediator};
use code_warden::text::{decimal_string, join_strings, split_lines, str_is_blank, trim_str};

fn s(x: &str) -> Json {
    Json::Str(x.to_string())
}

fn obj(members: Vec<(&str, Json)>) -> Json {
    Json::Object(members.into_iter().map(|(k, v)| (k.to_string(), v)).collect())
}

fn finding(rule: &str, fixable: bool) -> UnifiedFinding {
    UnifiedFinding {
        id: "X-1".to_string(),
        source: ScannerSource::Semgrep,
        rule_id: rule.to_string(),
        severity: Severity::High,
        message: "msg".to_string(),
        file_path: "a.py".to_string(),
        line_start: 42,
        line_end: None,
        matched_content: None,
        fixable,
        suggested_patch: None,
    }
}

#[test]
fn all_lists_each_persona_once() {
    let all = Persona::all();
    assert_eq!(all.len(), 7);
    for (i, p) in all.iter().enumerate() {
        assert_eq!(all.iter().filter(|q| *q == p).count(), 1, "{i}");
    }
    assert_eq!(all[0], Persona::SoftwareEngineer);
    assert_eq!(all[6], Persona::DatabaseEngineer);
}

#[test]
fn persona_tables() {
    assert_eq!(Persona::SoftwareEngineer.tool_backends(), &["facebook/infer", "pmd/pmd", "clippy"]);
    assert_eq!(Persona::DevOpsPlatform.tool_backends(), &["rhysd/actionlint", "bridgecrewio/checkov", "trivy"]);
    assert_eq!(Persona::RedTeamCybersecurity.file_triggers(), &["*"]);
    assert_eq!(Persona::DatabaseEngineer.file_triggers(), &[".sql", "migrations", "schema.prisma", ".prisma"]);
    assert_eq!(Persona::AiMlEngineer.file_triggers().len(), 7);
    assert_eq!(Persona::OssCompliance.file_triggers()[0], "Cargo.toml");
    assert_eq!(Persona::WebDeveloper.tool_backends()[1], "semgrep/p/owasp-top-ten");
    assert_eq!(Persona::DevOpsPlatform.name(), "DevOpsPlatform");
    assert_eq!(Severity::Critical.name(), "Critical");
    assert_eq!(Severity::Info.name(), "Info");
}

#[test]
fn system_prompts() {
    assert!(build_persona_system_prompt(&Persona::RedTeamCybersecurity)
        .starts_with("You are an Offensive Security Consultant and Red Team Operator."));
    assert!(build_persona_system_prompt(&Persona::DatabaseEngineer).ends_with("transaction lock contention."));
}

#[test]
fn remediation_prompt_fills_placeholders() {
    let p = build_remediation_prompt("  \n", "", "\t");
    assert_eq!(
        p,
        "### Persistent Episodic Memory Context\nNone\n\n### Static Scanner Diagnostics\nNo static violations detected.\n\n### Target File Context\nNot provided\n\n### Remediation Task\n1. Filter out obvious false positives.\n2. Detail the exact logic or security risk.\n3. Output committable unified diff patches only if sufficient context exists; otherwise state INSUFFICIENT_CONTEXT.\n"
    );
    let q = build_remediation_prompt("[High] r: m", "fn main() {}", "mem");
    assert!(q.starts_with("### Persistent Episodic Memory Context\nmem\n\n### Static Scanner Diagnostics\n[High] r: m\n\n### Target File Context\nfn main() {}\n\n"));
}

#[test]
fn text_helpers_match_std() {
    for t in ["", "  a b  ", "\u{3000}x\u{85}", "\n\r\t", "abc", " \u{a0}y\u{2028}"] {
        assert_eq!(trim_str(t), t.trim(), "{t:?}");
        assert_eq!(str_is_blank(t), t.trim().is_empty(), "{t:?}");
    }
    for t in ["", "a", "a\n", "a\r\nb", "a\n\nb\r", "\n", "x\r\r\ny"] {
        let got: Vec<String> = split_lines(t);
        let want: Vec<String> = t.lines().map(|l| l.to_string()).collect();
        assert_eq!(got, want, "{t:?}");
    }
    for n in [0u64, 7, 10, 1234567890, u64::MAX] {
        assert_eq!(decimal_string(n), n.to_string());
    }
    assert_eq!(join_strings(&vec!["a".to_string(), "b".to_string(), "c".to_string()], ", "), "a, b, c");
    assert_eq!(join_strings(&vec![], ", "), "");
}

#[test]
fn json_accessors() {
    let j = obj(vec![("a", s("x")), ("a", s("y")), ("n", Json::Num(Some(3))), ("l", Json::Array(vec![s("q")]))]);
    assert_eq!(j.at("a").as_str(), Some("x"));
    assert!(matches!(j.at("missing"), Json::Null));
    assert_eq!(j.at("n").as_u64(), Some(3));
    assert_eq!(j.at("l").at_index(0).as_str(), Some("q"));
    assert!(matches!(j.at("l").at_index(1), Json::Null));
    assert!(j.get("l").unwrap().is_array());
    assert!(s("x").get("a").is_none());
    assert_eq!(Json::Num(None).as_u64(), None);
}

#[test]
fn memory_record_audit() {
    let mut st = MemoryState::new();
    assert_eq!(st.total_audits, 0);
    let fs = vec![finding("r1", true), finding("r2", false), finding("r1", true), finding("r3", true)];
    st.record_audit(&fs, false);
    assert_eq!(st.total_audits, 1);
    assert!(st.resolved_rule_ids.is_empty());
    st.record_audit(&fs, true);
    assert_eq!(st.total_audits, 2);
    assert_eq!(st.resolved_rule_ids, vec!["r1".to_string(), "r3".to_string()]);
    st.record_audit(&fs, true);
    assert_eq!(st.resolved_rule_ids, vec!["r1".to_string(), "r3".to_string()]);
    assert!(!st.insert_resolved("r3".to_string()));
    assert!(st.insert_resolved("r9".to_string()));
    assert!(st.is_resolved(&"r9".to_string()));
    assert!(MemoryState::default().ignored_rule_ids.is_empty());
}

#[test]
fn memory_context_text() {
    let mgr = MemoryManager::new("/proj", false);
    assert_eq!(mgr.memory_dir(), "/proj/.code-warden/memory");
    assert_eq!(mgr.history_file(), "/proj/.code-warden/memory/session_history.md");
    assert_eq!(mgr.state_file(), "/proj/.code-warden/memory/memory_state.json");
    let win = MemoryManager::new("C:\\proj\\", true);
    assert_eq!(win.state_file(), "C:\\proj\\.code-warden\\memory\\memory_state.json");
    let mut st = MemoryState::new();
    assert_eq!(mgr.build_memory_context(&st), "No previous audit memory available. This is a baseline scan.");
    st.total_audits = 3;
    assert_eq!(mgr.build_memory_context(&st), "Historical Audits Completed: 3");
    st.resolved_rule_ids = vec!["a".to_string(), "b".to_string()];
    st.ignored_rule_ids = vec!["z".to_string()];
    assert_eq!(
        mgr.build_memory_context(&st),
        "Historical Audits Completed: 3\nPreviously Resolved Issues: a, b\nKnown Ignored False Positives: z"
    );
    st.total_audits = 0;
    st.ignored_rule_ids.clear();
    assert_eq!(mgr.build_memory_context(&st), "Historical Audits Completed: 0\nPreviously Resolved Issues: a, b");
}

#[test]
fn session_entries() {
    assert_eq!(
        MemoryManager::session_entry("T", "RedTeamCybersecurity", "2 findings", &vec![]),
        "### Session: T\n- **Persona:** RedTeamCybersecurity\n- **Detected:** 2 findings\n- **Remediations:** None (Report Only)\n\n---\n\n"
    );
    assert_eq!(
        MemoryManager::session_entry("T", "P", "0 findings", &vec!["f1".to_string(), "f2".to_string()]),
        "### Session: T\n- **Persona:** P\n- **Detected:** 0 findings\n- **Remediations:**\n  - f1\n  - f2\n\n---\n\n"
    );
}

#[test]
fn provider_plans() {
    let view = |p: &Provider| match p {
        Provider::Gemini { api_key, model } => format!("gemini:{api_key}:{model}"),
        Provider::Ollama { endpoint, model } => format!("ollama:{endpoint}:{model}"),
    };
    let plan = |c: &str, k: &str| -> Vec<String> {
        Provider::review_plan(c, "auto".into(), "qwen2.5-coder:1.5b".into(), k.into()).iter().map(view).collect()
    };
    assert_eq!(plan("gemini", "K"), vec!["gemini:K:auto"]);
    assert_eq!(plan("gemini", ""), vec!["gemini::auto"]);
    assert_eq!(plan("hybrid", "K"), vec!["gemini:K:auto", "ollama:http://127.0.0.1:11434:qwen2.5-coder:1.5b"]);
    assert_eq!(plan("hybrid", "  "), vec!["ollama:http://127.0.0.1:11434:qwen2.5-coder:1.5b"]);
    assert_eq!(plan("ollama", "K"), vec!["ollama:http://127.0.0.1:11434:qwen2.5-coder:1.5b"]);
}

#[test]
fn endpoints_and_replies() {
    assert_eq!(build_ollama_chat_url("http://127.0.0.1:11434//"), "http://127.0.0.1:11434/api/chat");
    assert_eq!(build_ollama_chat_url("http://h"), "http://h/api/chat");
    assert_eq!(
        build_gemini_generate_url("gemini-2.5-flash-lite"),
        "https://generativelanguage.googleapis.com/v1beta/models/gemini-2.5-flash-lite:generateContent"
    );
    assert_eq!(read_ollama_reply(&obj(vec![("message", obj(vec![("content", s("hi"))]))])), "hi");
    assert_eq!(read_ollama_reply(&Json::Null), "No response content");
    let g = obj(vec![(
        "candidates",
        Json::Array(vec![obj(vec![("content", obj(vec![("parts", Json::Array(vec![obj(vec![("text", s("patch"))])]))]))])]),
    )]);
    assert_eq!(read_gemini_reply(&g), "patch");
    assert_eq!(read_gemini_reply(&obj(vec![])), "No content returned from Gemini.");
    assert_eq!(check_gemini_key("k"), Ok(()));
    assert_eq!(
        check_gemini_key(" \n"),
        Err("Gemini API key is required. Set GEMINI_API_KEY in .env, export it, or pass --api-key <KEY>".to_string())
    );
    for m in ["", "auto", "qwen2.5-coder:1.5b", "gemini-2.5-flash", "gemini-3.6-flash"] {
        assert!(gemini_model_needs_discovery(m));
    }
    assert!(!gemini_model_needs_discovery("gemini-2.5-pro"));
    assert!(status_is_success(200) && status_is_success(299));
    assert!(!status_is_success(199) && !status_is_success(300) && !status_is_success(429));
}

fn model(name: &str, methods: &[&str]) -> Json {
    obj(vec![
        ("name", s(name)),
        ("supportedGenerationMethods", Json::Array(methods.iter().map(|m| s(m)).collect())),
    ])
}

#[test]
fn gemini_model_selection() {
    let listing = Report::Parsed(obj(vec![(
        "models",
        Json::Array(vec![
            model("models/gemini-2.5-pro", &["generateContent"]),
            model("models/text-embedding-004", &["generateContent", "embedContent"]),
            model("models/gemini-2.5-flash", &["generateContent"]),
            model("models/aqa", &["generateContent"]),
            model("models/gemini-2.0-flash-lite", &["countTokens", "generateContent"]),
            model("models/gemini-1.5-flash-lite-8b", &["generateContent"]),
            model("models/gemini-nano", &["countTokens"]),
            obj(vec![("name", s("models/gemini-x"))]),
        ]),
    )]));
    assert_eq!(select_gemini_model(&listing), "gemini-2.0-flash-lite");
    let only_pro = Report::Parsed(obj(vec![(
        "models",
        Json::Array(vec![model("gemma-3", &["generateContent"]), model("models/models/gemini-pro", &["generateContent"])]),
    )]));
    assert_eq!(select_gemini_model(&only_pro), "gemini-pro");
    assert_eq!(select_gemini_model(&Report::Absent), "gemini-2.5-flash");
    assert_eq!(select_gemini_model(&Report::Invalid), "gemini-2.5-flash");
    assert_eq!(select_gemini_model(&Report::Parsed(obj(vec![("models", Json::Array(vec![]))]))), "gemini-2.5-flash");
}

#[test]
fn gemini_retries_busy_replies_three_times() {
    let mut r = GeminiRetry::new();
    let mut waits = Vec::new();
    while r.begin_attempt() {
        match r.on_failure(503, "503 Service Unavailable", "busy") {
            GeminiStep::Retry { wait_secs } => waits.push(wait_secs),
            GeminiStep::Fail(m) => panic!("{m}"),
        }
    }
    assert_eq!(waits, vec![2, 4, 6]);
    assert_eq!(r.attempts(), 3);
    assert_eq!(
        r.exhausted_error(),
        "Gemini API Error after 3 retries: (Attempt 3/3) API Busy (503 Service Unavailable): busy"
    );
    let mut r = GeminiRetry::new();
    assert!(r.begin_attempt());
    match r.on_failure(429, "429 Too Many Requests", "slow") {
        GeminiStep::Retry { wait_secs } => assert_eq!(wait_secs, 2),
        GeminiStep::Fail(m) => panic!("{m}"),
    }
    assert!(r.begin_attempt());
    match r.on_failure(400, "400 Bad Request", "nope") {
        GeminiStep::Fail(m) => assert_eq!(m, "Gemini API Error (400 Bad Request): nope"),
        GeminiStep::Retry { .. } => panic!("retried"),
    }
}

#[test]
fn cli_paths_and_names() {
    assert_eq!(resolve_binary_name("git", true), "git.exe");
    assert_eq!(resolve_binary_name("git.exe", true), "git.exe");
    assert_eq!(resolve_binary_name("git", false), "git");
    assert_eq!(get_user_home(true, Some("C:\\Users\\u".into()), Some("/h".into())), "C:\\Users\\u");
    assert_eq!(get_user_home(false, Some("C:\\Users\\u".into()), Some("/h".into())), "/h");
    assert_eq!(get_user_home(true, None, None), ".");
    assert_eq!(code_warden_home("/h", false), "/h/.code-warden");
    assert_eq!(global_config_path("/h", false), "/h/.code-warden/config.env");
    assert_eq!(global_config_path("", false), ".code-warden/config.env");
    assert_eq!(get_venv_bin_dir("/e/venv", false), "/e/venv/bin");
    assert_eq!(get_venv_bin_dir("C:\\e\\venv", true), "C:\\e\\venv\\Scripts");
}

#[test]
fn persona_aliases() {
    assert_eq!(parse_persona("SWE"), Persona::SoftwareEngineer);
    assert_eq!(parse_persona("Web-Dev"), Persona::WebDeveloper);
    assert_eq!(parse_persona("ML"), Persona::AiMlEngineer);
    assert_eq!(parse_persona("platform"), Persona::DevOpsPlatform);
    assert_eq!(parse_persona("Compliance"), Persona::OssCompliance);
    assert_eq!(parse_persona("DATABASE"), Persona::DatabaseEngineer);
    assert_eq!(parse_persona("red-team"), Persona::RedTeamCybersecurity);
    assert_eq!(parse_persona("anything"), Persona::RedTeamCybersecurity);
    assert_eq!(persona_from_alias("ai-ml"), Persona::AiMlEngineer);
    assert_eq!(persona_from_alias("DB"), Persona::RedTeamCybersecurity);
}

#[test]
fn active_key_precedence() {
    let cfg = Some("# settings\nOTHER=1\nGEMINI_API_KEY=  stored \nGEMINI_API_KEY=second\n".to_string());
    assert_eq!(load_active_api_key(Some(" k1 ".into()), Some("k2".into()), cfg.clone()), "k1");
    assert_eq!(load_active_api_key(Some("  ".into()), Some(" k2".into()), cfg.clone()), "k2");
    assert_eq!(load_active_api_key(None, Some("".into()), cfg.clone()), "stored");
    assert_eq!(load_active_api_key(None, None, Some("GEMINI_API_KEY=\n".into())), "");
    assert_eq!(load_active_api_key(None, None, Some("x=1\n".into())), "");
    assert_eq!(load_active_api_key(None, None, None), "");
}

#[test]
fn saved_key_reads_back() {
    for k in ["AIzaSy", "  spaced key \r", "", "x\ry"] {
        let settings = key_setting_entry(k);
        assert_eq!(load_active_api_key(None, None, Some(settings.clone())), k.trim());
        assert_eq!(load_active_api_key(None, Some("  ".into()), Some(settings)), k.trim());
    }
}

#[test]
fn path_joins_replace_on_absolute_segments() {
    assert_eq!(code_warden::text::join_path("/a", "/b", false), "/b");
    assert_eq!(code_warden::text::join_path("C:\\a", "D:\\b", true), "D:\\b");
    assert_eq!(code_warden::text::join_path("a", "b", false), "a/b");
    assert_eq!(code_warden::text::join_path("", "b", false), "b");
}

#[test]
fn review_fallback_walks_the_plan() {
    let mut w = ReviewFallback::new();
    assert_eq!(w.next_provider(2), Some(0));
    w.record_failure("busy".to_string());
    assert_eq!(w.next_provider(2), Some(1));
    w.record_failure("offline".to_string());
    assert_eq!(w.next_provider(2), None);
    assert_eq!(w.final_error(), "offline");
    let mut e = ReviewFallback::new();
    assert_eq!(e.next_provider(0), None);
    assert_eq!(e.final_error(), "no provider configured");
    assert!(provider_uses_key("gemini") && provider_uses_key("hybrid"));
    assert!(!provider_uses_key("ollama"));
}

#[test]
fn key_display_and_storage() {
    assert_eq!(mask_api_key("AIzaSy1234567890abcd"), "AIza...abcd");
    assert_eq!(mask_api_key("12345678"), "********");
    assert_eq!(mask_api_key(""), "********");
    assert_eq!(mask_api_key("123456789"), "1234...6789");
    assert_eq!(key_setting_entry("AIza"), "GEMINI_API_KEY=AIza\n");
    assert!(confirms_uninstall(" y\n"));
    assert!(confirms_uninstall("Y"));
    assert!(!confirms_uninstall("yes"));
    assert!(!confirms_uninstall(""));
}

#[test]
fn audit_text() {
    assert!(action_applies_fixes("fix") && action_applies_fixes("both"));
    assert!(!action_applies_fixes("report") && !action_applies_fixes("Fix"));
    assert_eq!(finding_summary_line(&finding("r1", false)), "[High] r1: msg (a.py:42)");
    assert_eq!(build_diagnostics(&vec![]), "No static violations detected by Tier 1 & 2 engines.");
    assert_eq!(
        build_diagnostics(&vec![finding("r1", false), finding("r2", true)]),
        "[High] r1: msg (a.py:42)\n[High] r2: msg (a.py:42)"
    );
    assert_eq!(findings_count_summary(12), "12 findings");
    assert_eq!(review_bypassed("offline"), "LLM review bypassed: offline");
    assert_eq!(
        render_audit_report("D", "DevOpsPlatform", "diag", "rev"),
        "# Code-Warden Audit Report\n\n- **Date:** D\n- **Persona:** DevOpsPlatform\n\n## Scanner Findings\ndiag\n\n## Grounded Persona Review\nrev\n"
    );
}

#[test]
fn remediation_plan() {
    let view = |has: bool| -> Vec<String> {
        Remediator::run_deterministic_fixes(has)
            .iter()
            .map(|c| format!("{} {}", c.program, c.args.join(" ")))
            .collect()
    };
    assert_eq!(
        view(true),
        vec!["cargo fix --allow-no-vcs --broken-code", "ruff check --fix .", "biome check --write ."]
    );
    assert_eq!(view(false), vec!["ruff check --fix .", "biome check --write ."]);
    assert_eq!(fix_branch_ref("cw-fix"), "refs/heads/cw-fix");
    assert_eq!(Remediator::applied_fixes_note(), "Applied deterministic linter auto-fixes (ruff, biome, cargo fix)");
}

#[test]
fn output_bytes_become_reports() {
    assert!(matches!(report_of_output(None), Report::Absent));
    assert!(matches!(report_of_output(Some(b"")), Report::Invalid));
    assert!(matches!(report_of_output(Some(b"{\"a\": ")), Report::Invalid));
    let r = report_of_output(Some(br#"{"a": [1, -2, "x", null, true, 1.5], "b": {}}"#));
    let j = match r {
        Report::Parsed(j) => j,
        _ => panic!("expected a document"),
    };
    let a = j.at("a").as_array().expect("array");
    assert_eq!(a.len(), 6);
    assert_eq!(a[0].as_u64(), Some(1));
    assert!(matches!(a[1], Json::Num(None)));
    assert_eq!(a[2].as_str(), Some("x"));
    assert!(matches!(a[3], Json::Null));
    assert!(matches!(a[4], Json::Bool(true)));
    assert!(matches!(a[5], Json::Num(None)));
    assert!(matches!(j.at("b"), Json::Object(m) if m.is_empty()));
    assert!(matches!(j.at("c"), Json::Null));
}

#[test]
fn reply_bodies_are_read() {
    let ollama = br#"{"message": {"role": "assistant", "content": "patched"}}"#;
    assert_eq!(read_ollama_reply_body(ollama).as_deref(), Some("patched"));
    assert_eq!(read_ollama_reply_body(b"{}").as_deref(), Some("No response content"));
    assert_eq!(read_ollama_reply_body(b"<html>"), None);
    let gemini = br#"{"candidates": [{"content": {"parts": [{"text": "diff"}]}}]}"#;
    assert_eq!(read_gemini_reply_body(gemini).as_deref(), Some("diff"));
    assert_eq!(
        read_gemini_reply_body(b"[]").as_deref(),
        Some("No content returned from Gemini.")
    );
    assert_eq!(read_gemini_reply_body(b""), None);
}

#[test]
fn gemini_model_selection_from_listing_bytes() {
    let listing = br#"{"models": [
        {"name": "models/gemini-pro", "supportedGenerationMethods": ["generateContent"]},
        {"name": "models/text-embedding-004", "supportedGenerationMethods": ["embedContent"]},
        {"name": "models/gemini-2.0-flash", "supportedGenerationMethods": ["generateContent"]},
        {"name": "models/gemini-1.5-flash", "supportedGenerationMethods": ["generateContent"]}
    ]}"#;
    assert_eq!(select_gemini_model_from(Some(listing)), "gemini-2.0-flash");
    assert_eq!(select_gemini_model_from(None), "gemini-2.5-flash");
    assert_eq!(select_gemini_model_from(Some(b"not json")), "gemini-2.5-flash");
    assert_eq!(select_gemini_model_from(Some(br#"{"models": []}"#)), "gemini-2.5-flash");
}

#[test]
fn set_key_refuses_an_empty_key() {
    assert_eq!(set_key_setting(""), None);
    assert_eq!(set_key_setting("AIza").as_deref(), Some("GEMINI_API_KEY=AIza\n"));
    assert_eq!(set_key_setting(" ").as_deref(), Some("GEMINI_API_KEY= \n"));
}

#[test]
fn persona_names_ignore_ascii_case() {
    for name in ["swe", "SWE", "Software-Engineer", "DevOps", "AI-ML", "Red-Team", "Ünknown"] {
        let lower = name.to_lowercase();
        assert_eq!(parse_persona(name), parse_persona(&lower), "{name}");
    }
    assert_eq!(parse_persona("DevOps"), Persona::DevOpsPlatform);
}
