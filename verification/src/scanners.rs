//! Readers of the scanners' JSON reports: each report item becomes a
//! unified finding, under the rules of the scanner it came from.
use vstd::prelude::*;
use crate::findings::{
    findings_match, is_finding_id, lemma_findings_match_concat, line_or, matches_template,
    new_finding_id, opt_line, opt_line_of, opt_text, text_or, u64_or, with_id,
};
use crate::json::{
    bytes_of, items_or_empty, json_at, json_get, json_idx, json_items, json_nth, json_str, json_u64,
    output_bytes, parse_json, parsed_json, report_of, report_of_output, str_or, vec_bytes, Json,
    Report,
};
use crate::models::{str_views, persona_file_triggers, FindingView, Persona, ScannerSource, Severity, UnifiedFinding};
use crate::cli::{binary_name, get_venv_bin_dir, resolve_binary_name, venv_bin_dir};
use crate::text::{
    has_infix, has_prefix, has_suffix, join_path, lines, lossy_utf8, path_join, split_lines,
    str_contains, str_ends_with, str_eq, str_starts_with, utf8_lossy, views,
};

verus! {

/// The scanner engine: reads each tool's report into unified findings.
pub struct ScannerEngine;

/// Adding a matching finding to matching findings keeps them matching.
proof fn lemma_findings_match_push(
    fs: Seq<UnifiedFinding>,
    ts: Seq<FindingView>,
    f: UnifiedFinding,
    t: FindingView,
)
    requires
        findings_match(fs, ts),
        matches_template(f@, t),
    ensures
        findings_match(fs.push(f), ts.push(t)),
{
    assert forall|k: int| 0 <= k < fs.push(f).len() implies matches_template(
        #[trigger] fs.push(f)[k]@,
        ts.push(t)[k],
    ) by {
        if k < fs.len() {
            assert(fs.push(f)[k] == fs[k]);
        }
    }
}

/// The document of a report. The readers take an output that is no JSON
/// as an empty array or as `null`, which hold no findings either way.
pub open spec fn report_doc(r: Report) -> Option<Json> {
    match r {
        Report::Parsed(j) => Some(j),
        _ => None,
    }
}

/// The elements of the array member `key` of `j` (`j.get(key)` then `as_array`).
pub open spec fn member_items(j: Json, key: Seq<char>) -> Seq<Json> {
    items_or_empty(json_get(j, key))
}

// ------------------------------------------------------------------
// Gitleaks
// ------------------------------------------------------------------

/// The file a Gitleaks leak was found in.
pub open spec fn gitleaks_file(item: Json) -> Seq<char> {
    str_or(json_at(item, "File"@), "unknown"@)
}

/// Whether the path `p` lies in the directory `dir` somewhere in the tree
/// (`dir/...` or `.../dir/...`).
pub open spec fn under_dir(p: Seq<char>, dir: Seq<char>) -> bool {
    has_prefix(p, dir + "/"@) || has_infix(p, "/"@ + dir + "/"@)
}

/// The foundation scanners leave out local secrets (`.env` files), build
/// output (`target/`), version control data (`.git/`) and the tool's own
/// state (`.code-warden/`).
pub open spec fn excluded_path(p: Seq<char>) -> bool {
    ||| has_suffix(p, ".env"@)
    ||| has_infix(p, "/.env"@)
    ||| under_dir(p, "target"@)
    ||| under_dir(p, ".git"@)
    ||| under_dir(p, ".code-warden"@)
}

/// Whether a Gitleaks leak is kept: its file is not excluded.
pub open spec fn gitleaks_keeps(item: Json) -> bool {
    !excluded_path(gitleaks_file(item))
}

/// The finding a Gitleaks leak becomes.
pub open spec fn gitleaks_template(item: Json) -> FindingView {
    FindingView {
        id: "GITLEAKS"@,
        source: ScannerSource::Gitleaks,
        rule_id: str_or(json_at(item, "RuleID"@), "secret"@),
        severity: Severity::Critical,
        message: str_or(json_at(item, "Description"@), "Secret leak detected"@),
        file_path: gitleaks_file(item),
        line_start: u64_or(json_at(item, "StartLine"@), 1) as usize,
        line_end: opt_line(json_at(item, "EndLine"@)),
        matched_content: json_str(json_at(item, "Match"@)),
        fixable: false,
        suggested_patch: None,
    }
}

/// The findings of the leaks `items`, in order, leaving out `.env` files.
pub open spec fn gitleaks_templates(items: Seq<Json>) -> Seq<FindingView>
    decreases items.len(),
{
    if items.len() == 0 {
        seq![]
    } else if gitleaks_keeps(items.last()) {
        gitleaks_templates(items.drop_last()).push(gitleaks_template(items.last()))
    } else {
        gitleaks_templates(items.drop_last())
    }
}

/// The findings a Gitleaks report holds; an unparsable report reads as `[]`.
pub open spec fn gitleaks_report_templates(r: Report) -> Seq<FindingView> {
    gitleaks_templates(items_or_empty(report_doc(r)))
}

// ------------------------------------------------------------------
// Semgrep
// ------------------------------------------------------------------

/// The finding a Semgrep result becomes.
pub open spec fn semgrep_template(item: Json) -> FindingView {
    let extra = json_at(item, "extra"@);
    FindingView {
        id: "SEMGREP"@,
        source: ScannerSource::Semgrep,
        rule_id: str_or(json_at(item, "check_id"@), "sast"@),
        severity: Severity::High,
        message: str_or(json_at(extra, "message"@), ""@),
        file_path: str_or(json_at(item, "path"@), ""@),
        line_start: u64_or(json_at(json_at(item, "start"@), "line"@), 1) as usize,
        line_end: opt_line(json_at(json_at(item, "end"@), "line"@)),
        matched_content: json_str(json_at(extra, "lines"@)),
        fixable: json_str(json_at(extra, "fix"@)) is Some,
        suggested_patch: json_str(json_at(extra, "fix"@)),
    }
}

/// The findings of the Semgrep results `items`, in order, leaving out
/// excluded files.
pub open spec fn semgrep_templates(items: Seq<Json>) -> Seq<FindingView>
    decreases items.len(),
{
    if items.len() == 0 {
        seq![]
    } else if !excluded_path(semgrep_template(items.last()).file_path) {
        semgrep_templates(items.drop_last()).push(semgrep_template(items.last()))
    } else {
        semgrep_templates(items.drop_last())
    }
}

/// The findings a Semgrep report holds: one per element of `results` on a
/// file that is not excluded.
pub open spec fn semgrep_report_templates(r: Report) -> Seq<FindingView> {
    match report_doc(r) {
        Some(j) => semgrep_templates(member_items(j, "results"@)),
        None => seq![],
    }
}

// ------------------------------------------------------------------
// Trivy
// ------------------------------------------------------------------

/// The target a Trivy result group is about.
pub open spec fn trivy_target(group: Json) -> Seq<char> {
    str_or(json_at(group, "Target"@), "dependencies"@)
}

/// The finding a Trivy vulnerability of a group's target becomes.
pub open spec fn trivy_template(target: Seq<char>, vuln: Json) -> FindingView {
    FindingView {
        id: "TRIVY"@,
        source: ScannerSource::Trivy,
        rule_id: str_or(json_at(vuln, "VulnerabilityID"@), "CVE"@),
        severity: Severity::High,
        message: str_or(json_at(vuln, "Title"@), "Dependency vulnerability"@),
        file_path: target,
        line_start: 1,
        line_end: None,
        matched_content: None,
        fixable: json_str(json_at(vuln, "FixedVersion"@)) is Some,
        suggested_patch: match json_str(json_at(vuln, "FixedVersion"@)) {
            Some(v) => Some("Upgrade to "@ + v),
            None => None,
        },
    }
}

/// The findings of one Trivy result group.
pub open spec fn trivy_group_templates(group: Json) -> Seq<FindingView> {
    member_items(group, "Vulnerabilities"@).map_values(
        |v: Json| trivy_template(trivy_target(group), v),
    )
}

/// The findings of the Trivy result groups `groups`, group after group,
/// leaving out groups whose target is excluded.
pub open spec fn trivy_templates(groups: Seq<Json>) -> Seq<FindingView>
    decreases groups.len(),
{
    if groups.len() == 0 {
        seq![]
    } else {
        trivy_templates(groups.drop_last()) + if excluded_path(trivy_target(groups.last())) {
            seq![]
        } else {
            trivy_group_templates(groups.last())
        }
    }
}

/// The findings a Trivy report holds.
pub open spec fn trivy_report_templates(r: Report) -> Seq<FindingView> {
    match report_doc(r) {
        Some(j) => trivy_templates(member_items(j, "Results"@)),
        None => seq![],
    }
}

// ------------------------------------------------------------------
// actionlint
// ------------------------------------------------------------------

/// The finding an actionlint error becomes.
pub open spec fn actionlint_template(item: Json) -> FindingView {
    FindingView {
        id: "ACTIONLINT"@,
        source: ScannerSource::Actionlint,
        rule_id: str_or(json_at(item, "kind"@), "ci-error"@),
        severity: Severity::High,
        message: str_or(json_at(item, "message"@), ""@),
        file_path: str_or(json_at(item, "filepath"@), ""@),
        line_start: u64_or(json_at(item, "line"@), 1) as usize,
        line_end: None,
        matched_content: json_str(json_at(item, "snippet"@)),
        fixable: false,
        suggested_patch: None,
    }
}

/// The findings an actionlint report holds; an unparsable one reads as `[]`.
pub open spec fn actionlint_report_templates(r: Report) -> Seq<FindingView> {
    items_or_empty(report_doc(r)).map_values(
        |i: Json| actionlint_template(i),
    )
}

// ------------------------------------------------------------------
// Checkov
// ------------------------------------------------------------------

/// The element `i` of `j` read as a non-negative integer.
pub open spec fn nth_u64(j: Json, i: int) -> Option<u64> {
    match json_nth(j, i) {
        Some(v) => json_u64(v),
        None => None,
    }
}

/// The failed checks of a Checkov report: the report itself when it is an
/// array, else its `results.failed_checks`.
pub open spec fn checkov_checks(j: Json) -> Seq<Json> {
    match json_items(j) {
        Some(items) => items,
        None => match json_get(j, "results"@) {
            Some(res) => member_items(res, "failed_checks"@),
            None => seq![],
        },
    }
}

/// The finding a failed Checkov check becomes.
pub open spec fn checkov_template(check: Json) -> FindingView {
    let range = json_at(check, "file_line_range"@);
    FindingView {
        id: "CHECKOV"@,
        source: ScannerSource::Checkov,
        rule_id: str_or(json_at(check, "check_id"@), "CKV_IAC"@),
        severity: Severity::High,
        message: str_or(json_at(check, "check_name"@), "IaC misconfiguration"@),
        file_path: str_or(json_at(check, "file_path"@), ""@),
        line_start: (match nth_u64(range, 0) {
            Some(n) => n,
            None => 1,
        }) as usize,
        line_end: match nth_u64(range, 1) {
            Some(n) => Some(n as usize),
            None => None,
        },
        matched_content: None,
        fixable: false,
        suggested_patch: None,
    }
}

/// The findings a Checkov report holds.
pub open spec fn checkov_report_templates(r: Report) -> Seq<FindingView> {
    match report_doc(r) {
        Some(j) => checkov_checks(j).map_values(|c: Json| checkov_template(c)),
        None => seq![],
    }
}

// ------------------------------------------------------------------
// TruffleHog
// ------------------------------------------------------------------

/// The filesystem metadata of a TruffleHog result.
pub open spec fn trufflehog_fs(item: Json) -> Json {
    json_at(json_at(json_at(item, "SourceMetadata"@), "Data"@), "Filesystem"@)
}

/// The finding a verified TruffleHog secret becomes.
pub open spec fn trufflehog_template(item: Json) -> FindingView {
    FindingView {
        id: "TRUFFLEHOG"@,
        source: ScannerSource::Trufflehog,
        rule_id: str_or(json_at(item, "DetectorName"@), "verified-secret"@),
        severity: Severity::Critical,
        message: "Verified exposed credential: "@ + str_or(json_at(item, "DetectorName"@), "secret"@),
        file_path: str_or(json_at(trufflehog_fs(item), "file"@), "unknown"@),
        line_start: u64_or(json_at(trufflehog_fs(item), "line"@), 1) as usize,
        line_end: None,
        matched_content: None,
        fixable: false,
        suggested_patch: None,
    }
}

/// The findings of TruffleHog's JSON lines; a line that is no JSON adds none.
pub open spec fn trufflehog_templates(lines: Seq<Option<Json>>) -> Seq<FindingView>
    decreases lines.len(),
{
    if lines.len() == 0 {
        seq![]
    } else {
        match lines.last() {
            Some(item) => trufflehog_templates(lines.drop_last()).push(trufflehog_template(item)),
            None => trufflehog_templates(lines.drop_last()),
        }
    }
}

/// The lines of TruffleHog's output, each with the JSON document it holds
/// (`None` for a line that is no JSON): the output is read as UTF-8, with
/// invalid sequences replaced, and split as `str::lines` splits. A tool
/// that left no output has no lines.
pub open spec fn trufflehog_lines(out: Option<Seq<u8>>) -> Seq<Option<Json>> {
    match out {
        None => seq![],
        Some(b) => lines(lossy_utf8(b)).map_values(
            |l: Seq<char>| parsed_json(vstd::utf8::encode_utf8(l)),
        ),
    }
}

// ------------------------------------------------------------------
// modelscan
// ------------------------------------------------------------------

/// The finding a modelscan issue becomes.
pub open spec fn modelscan_template(issue: Json) -> FindingView {
    FindingView {
        id: "MODELSCAN"@,
        source: ScannerSource::Modelscan,
        rule_id: str_or(json_at(issue, "scanner"@), "unsafe-deserialization"@),
        severity: Severity::Critical,
        message: str_or(json_at(issue, "description"@), ""@),
        file_path: str_or(json_at(issue, "source"@), "model"@),
        line_start: 1,
        line_end: None,
        matched_content: None,
        fixable: false,
        suggested_patch: None,
    }
}

/// The findings a modelscan report holds: one per element of `issues`.
pub open spec fn modelscan_report_templates(r: Report) -> Seq<FindingView> {
    match report_doc(r) {
        Some(j) => items_or_empty(Some(json_at(j, "issues"@))).map_values(
            |i: Json| modelscan_template(i),
        ),
        None => seq![],
    }
}

// ------------------------------------------------------------------
// sqlfluff
// ------------------------------------------------------------------

/// The file a sqlfluff entry is about.
pub open spec fn sqlfluff_path(entry: Json) -> Seq<char> {
    str_or(json_at(entry, "filepath"@), ""@)
}

/// The finding a sqlfluff violation in the file `path` becomes.
pub open spec fn sqlfluff_template(path: Seq<char>, v: Json) -> FindingView {
    FindingView {
        id: "SQLFLUFF"@,
        source: ScannerSource::Sqlfluff,
        rule_id: str_or(json_at(v, "code"@), "sql-anti-pattern"@),
        severity: Severity::Medium,
        message: str_or(json_at(v, "description"@), ""@),
        file_path: path,
        line_start: u64_or(json_at(v, "line_no"@), 1) as usize,
        line_end: None,
        matched_content: None,
        fixable: false,
        suggested_patch: None,
    }
}

/// The findings of one sqlfluff file entry.
pub open spec fn sqlfluff_entry_templates(entry: Json) -> Seq<FindingView> {
    items_or_empty(Some(json_at(entry, "violations"@))).map_values(
        |v: Json| sqlfluff_template(sqlfluff_path(entry), v),
    )
}

/// The findings of the sqlfluff file entries `entries`, entry after entry.
pub open spec fn sqlfluff_templates(entries: Seq<Json>) -> Seq<FindingView>
    decreases entries.len(),
{
    if entries.len() == 0 {
        seq![]
    } else {
        sqlfluff_templates(entries.drop_last()) + sqlfluff_entry_templates(entries.last())
    }
}

/// The findings a sqlfluff report holds; an unparsable one reads as `[]`.
pub open spec fn sqlfluff_report_templates(r: Report) -> Seq<FindingView> {
    sqlfluff_templates(items_or_empty(report_doc(r)))
}


// ------------------------------------------------------------------
// What each reader yields, stated over the report's own elements
// ------------------------------------------------------------------

/// Whether the foundation scanners report a finding on the path `p`: it
/// is no `.env` file (it neither ends in `.env` nor has a `/.env`
/// component) and lies under no `target/`, `.git/` or `.code-warden/`
/// directory.
pub open spec fn path_reported(p: Seq<char>) -> bool {
    &&& !has_suffix(p, ".env"@)
    &&& !has_infix(p, "/.env"@)
    &&& !has_prefix(p, "target/"@) && !has_infix(p, "/target/"@)
    &&& !has_prefix(p, ".git/"@) && !has_infix(p, "/.git/"@)
    &&& !has_prefix(p, ".code-warden/"@) && !has_infix(p, "/.code-warden/"@)
}

/// Whether a leak in `item`'s file is reported.
pub open spec fn leak_reported(item: Json) -> bool {
    path_reported(str_or(json_at(item, "File"@), "unknown"@))
}

/// `path_reported` is the complement of the exclusion the readers apply.
proof fn lemma_path_reported(p: Seq<char>)
    ensures
        path_reported(p) == !excluded_path(p),
{
    reveal_strlit("target/");
    reveal_strlit("target");
    reveal_strlit(".git/");
    reveal_strlit(".git");
    reveal_strlit(".code-warden/");
    reveal_strlit(".code-warden");
    reveal_strlit("/");
    reveal_strlit("/target/");
    reveal_strlit("/.git/");
    reveal_strlit("/.code-warden/");
    assert("target"@ + "/"@ =~= "target/"@);
    assert("/"@ + "target"@ + "/"@ =~= "/target/"@);
    assert(".git"@ + "/"@ =~= ".git/"@);
    assert("/"@ + ".git"@ + "/"@ =~= "/.git/"@);
    assert(".code-warden"@ + "/"@ =~= ".code-warden/"@);
    assert("/"@ + ".code-warden"@ + "/"@ =~= "/.code-warden/"@);
}

proof fn lemma_gitleaks_templates_are_reported_leaks(items: Seq<Json>)
    ensures
        gitleaks_templates(items).len() == items.filter(|i: Json| leak_reported(i)).len(),
        forall|k: int|
            0 <= k < gitleaks_templates(items).len() ==> {
                let leak = items.filter(|i: Json| leak_reported(i))[k];
                let t = #[trigger] gitleaks_templates(items)[k];
                &&& t.source == ScannerSource::Gitleaks
                &&& t.severity == Severity::Critical
                &&& t.file_path == str_or(json_at(leak, "File"@), "unknown"@)
                &&& t.rule_id == str_or(json_at(leak, "RuleID"@), "secret"@)
                &&& t.line_start == u64_or(json_at(leak, "StartLine"@), 1) as usize
            },
    decreases items.len(),
{
    let pred = |i: Json| leak_reported(i);
    if items.len() > 0 {
        let pre = items.drop_last();
        let last = items.last();
        lemma_gitleaks_templates_are_reported_leaks(pre);
        assert(pre.push(last) =~= items);
        pre.lemma_filter_push(last, pred);
        lemma_path_reported(gitleaks_file(last));
        assert(gitleaks_keeps(last) == pred(last));
        let ts = gitleaks_templates(items);
        assert forall|k: int| 0 <= k < ts.len() implies {
            let leak = items.filter(pred)[k];
            let t = #[trigger] ts[k];
            &&& t.source == ScannerSource::Gitleaks
            &&& t.severity == Severity::Critical
            &&& t.file_path == str_or(json_at(leak, "File"@), "unknown"@)
            &&& t.rule_id == str_or(json_at(leak, "RuleID"@), "secret"@)
            &&& t.line_start == u64_or(json_at(leak, "StartLine"@), 1) as usize
        } by {
            if k < gitleaks_templates(pre).len() {
                assert(ts[k] == gitleaks_templates(pre)[k]);
                assert(items.filter(pred)[k] == pre.filter(pred)[k]);
            }
        }
    }
}

/// Gitleaks: the findings are exactly the leaks whose file is reported, in
/// report order, one critical finding per such leak, carrying its file,
/// rule and line. Every leak outside `.env` files and the `target/`,
/// `.git/` and `.code-warden/` directories is reported.
pub proof fn lemma_gitleaks_reports_every_leak_outside_excluded_files(r: Report)
    ensures
        gitleaks_report_templates(r).len() == items_or_empty(report_doc(r)).filter(
            |i: Json| leak_reported(i),
        ).len(),
        forall|k: int|
            0 <= k < gitleaks_report_templates(r).len() ==> {
                let leak = items_or_empty(report_doc(r)).filter(|i: Json| leak_reported(i))[k];
                let t = #[trigger] gitleaks_report_templates(r)[k];
                &&& t.source == ScannerSource::Gitleaks
                &&& t.severity == Severity::Critical
                &&& t.file_path == str_or(json_at(leak, "File"@), "unknown"@)
                &&& t.rule_id == str_or(json_at(leak, "RuleID"@), "secret"@)
                &&& t.line_start == u64_or(json_at(leak, "StartLine"@), 1) as usize
            },
{
    lemma_gitleaks_templates_are_reported_leaks(items_or_empty(report_doc(r)));
}

/// actionlint: one finding per error of the report array, in order; the
/// `k`-th carries the `k`-th error's kind, message, file and line.
pub proof fn lemma_actionlint_one_finding_per_error(r: Report)
    ensures
        actionlint_report_templates(r).len() == items_or_empty(report_doc(r)).len(),
        forall|k: int|
            0 <= k < items_or_empty(report_doc(r)).len() ==> {
                let e = items_or_empty(report_doc(r))[k];
                let t = #[trigger] actionlint_report_templates(r)[k];
                &&& t.source == ScannerSource::Actionlint
                &&& t.severity == Severity::High
                &&& t.rule_id == str_or(json_at(e, "kind"@), "ci-error"@)
                &&& t.message == str_or(json_at(e, "message"@), ""@)
                &&& t.file_path == str_or(json_at(e, "filepath"@), ""@)
                &&& t.line_start == u64_or(json_at(e, "line"@), 1) as usize
            },
{
}

/// The violations a sqlfluff file entry lists.
pub open spec fn entry_violations(entry: Json) -> Seq<Json> {
    items_or_empty(Some(json_at(entry, "violations"@)))
}

/// The number of violations the sqlfluff file entries list altogether.
pub open spec fn total_violations(entries: Seq<Json>) -> nat
    decreases entries.len(),
{
    if entries.len() == 0 {
        0
    } else {
        total_violations(entries.drop_last()) + entry_violations(entries.last()).len()
    }
}

proof fn lemma_sqlfluff_templates_layout(entries: Seq<Json>)
    ensures
        sqlfluff_templates(entries).len() == total_violations(entries),
        forall|k: int, v: int|
            0 <= k < entries.len() && 0 <= v < entry_violations(entries[k]).len() ==> {
                let viol = #[trigger] entry_violations(entries[k])[v];
                let i = total_violations(entries.take(k)) + v;
                &&& i < total_violations(entries)
                &&& sqlfluff_templates(entries)[i].source == ScannerSource::Sqlfluff
                &&& sqlfluff_templates(entries)[i].severity == Severity::Medium
                &&& sqlfluff_templates(entries)[i].file_path == str_or(
                    json_at(entries[k], "filepath"@),
                    ""@,
                )
                &&& sqlfluff_templates(entries)[i].rule_id == str_or(
                    json_at(viol, "code"@),
                    "sql-anti-pattern"@,
                )
                &&& sqlfluff_templates(entries)[i].line_start == u64_or(
                    json_at(viol, "line_no"@),
                    1,
                ) as usize
            },
    decreases entries.len(),
{
    if entries.len() > 0 {
        let n = entries.len() - 1;
        let pre = entries.drop_last();
        let last = entries.last();
        lemma_sqlfluff_templates_layout(pre);
        let a = sqlfluff_templates(pre);
        let b = sqlfluff_entry_templates(last);
        let ts = sqlfluff_templates(entries);
        assert(ts == a + b);
        assert forall|k: int, v: int|
            0 <= k < entries.len() && 0 <= v < entry_violations(entries[k]).len() implies {
                let viol = #[trigger] entry_violations(entries[k])[v];
                let i = total_violations(entries.take(k)) + v;
                &&& i < total_violations(entries)
                &&& ts[i].source == ScannerSource::Sqlfluff
                &&& ts[i].severity == Severity::Medium
                &&& ts[i].file_path == str_or(json_at(entries[k], "filepath"@), ""@)
                &&& ts[i].rule_id == str_or(json_at(viol, "code"@), "sql-anti-pattern"@)
                &&& ts[i].line_start == u64_or(json_at(viol, "line_no"@), 1) as usize
            } by {
            if k < n {
                assert(entries.take(k) =~= pre.take(k));
                assert(entries[k] == pre[k]);
                let viol = entry_violations(pre[k])[v];
                let i = total_violations(pre.take(k)) + v;
                assert(i < total_violations(pre));
                assert(ts[i] == a[i]);
            } else {
                assert(entries.take(k) =~= pre);
                let i = total_violations(pre) + v;
                assert(ts[i] == b[v]);
            }
        }
    }
}

/// sqlfluff: one finding per violation of every linted file, file after
/// file; the findings number the violations of all entries together, and
/// the `v`-th violation of the `k`-th entry becomes the finding after those
/// of the entries before it, on that entry's file, with the violation's
/// code and line.
pub proof fn lemma_sqlfluff_one_finding_per_violation(r: Report)
    ensures
        sqlfluff_report_templates(r).len() == total_violations(items_or_empty(report_doc(r))),
        forall|k: int, v: int|
            0 <= k < items_or_empty(report_doc(r)).len() && 0 <= v < entry_violations(
                items_or_empty(report_doc(r))[k],
            ).len() ==> {
                let entry = items_or_empty(report_doc(r))[k];
                let viol = #[trigger] entry_violations(items_or_empty(report_doc(r))[k])[v];
                let t = sqlfluff_report_templates(r)[total_violations(
                    items_or_empty(report_doc(r)).take(k),
                ) + v];
                &&& t.source == ScannerSource::Sqlfluff
                &&& t.severity == Severity::Medium
                &&& t.file_path == str_or(json_at(entry, "filepath"@), ""@)
                &&& t.rule_id == str_or(json_at(viol, "code"@), "sql-anti-pattern"@)
                &&& t.line_start == u64_or(json_at(viol, "line_no"@), 1) as usize
            },
{
    lemma_sqlfluff_templates_layout(items_or_empty(report_doc(r)));
}

/// The elements of the array member `key` of a report's document; none
/// when the report is no document or the member no array.
pub open spec fn doc_member(r: Report, key: Seq<char>) -> Seq<Json> {
    match report_doc(r) {
        Some(j) => items_or_empty(json_get(j, key)),
        None => seq![],
    }
}

/// Whether a Semgrep result's file is reported.
pub open spec fn result_reported(item: Json) -> bool {
    path_reported(str_or(json_at(item, "path"@), ""@))
}

proof fn lemma_semgrep_templates_are_reported_results(items: Seq<Json>)
    ensures
        semgrep_templates(items).len() == items.filter(|i: Json| result_reported(i)).len(),
        forall|k: int|
            0 <= k < semgrep_templates(items).len() ==> {
                let res = items.filter(|i: Json| result_reported(i))[k];
                let t = #[trigger] semgrep_templates(items)[k];
                let fix = json_str(json_at(json_at(res, "extra"@), "fix"@));
                &&& t.source == ScannerSource::Semgrep
                &&& t.severity == Severity::High
                &&& t.rule_id == str_or(json_at(res, "check_id"@), "sast"@)
                &&& t.file_path == str_or(json_at(res, "path"@), ""@)
                &&& t.line_start == u64_or(json_at(json_at(res, "start"@), "line"@), 1) as usize
                &&& t.suggested_patch == fix
                &&& t.fixable == fix is Some
            },
    decreases items.len(),
{
    let pred = |i: Json| result_reported(i);
    if items.len() > 0 {
        let pre = items.drop_last();
        let last = items.last();
        lemma_semgrep_templates_are_reported_results(pre);
        assert(pre.push(last) =~= items);
        pre.lemma_filter_push(last, pred);
        lemma_path_reported(str_or(json_at(last, "path"@), ""@));
        let ts = semgrep_templates(items);
        assert forall|k: int| 0 <= k < ts.len() implies {
            let res = items.filter(pred)[k];
            let t = #[trigger] ts[k];
            let fix = json_str(json_at(json_at(res, "extra"@), "fix"@));
            &&& t.source == ScannerSource::Semgrep
            &&& t.severity == Severity::High
            &&& t.rule_id == str_or(json_at(res, "check_id"@), "sast"@)
            &&& t.file_path == str_or(json_at(res, "path"@), ""@)
            &&& t.line_start == u64_or(json_at(json_at(res, "start"@), "line"@), 1) as usize
            &&& t.suggested_patch == fix
            &&& t.fixable == fix is Some
        } by {
            if k < semgrep_templates(pre).len() {
                assert(ts[k] == semgrep_templates(pre)[k]);
                assert(items.filter(pred)[k] == pre.filter(pred)[k]);
            }
        }
    }
}

/// Semgrep: the findings are exactly the results in `results` whose file
/// is reported, in order, one high finding per such result, carrying its
/// rule, file and line, and fixable exactly when the result offers a fix,
/// which becomes the suggested patch.
pub proof fn lemma_semgrep_reports_every_result_outside_excluded_files(r: Report)
    ensures
        semgrep_report_templates(r).len() == doc_member(r, "results"@).filter(
            |i: Json| result_reported(i),
        ).len(),
        forall|k: int|
            0 <= k < semgrep_report_templates(r).len() ==> {
                let res = doc_member(r, "results"@).filter(|i: Json| result_reported(i))[k];
                let t = #[trigger] semgrep_report_templates(r)[k];
                let fix = json_str(json_at(json_at(res, "extra"@), "fix"@));
                &&& t.source == ScannerSource::Semgrep
                &&& t.severity == Severity::High
                &&& t.rule_id == str_or(json_at(res, "check_id"@), "sast"@)
                &&& t.file_path == str_or(json_at(res, "path"@), ""@)
                &&& t.line_start == u64_or(json_at(json_at(res, "start"@), "line"@), 1) as usize
                &&& t.suggested_patch == fix
                &&& t.fixable == fix is Some
            },
{
    lemma_semgrep_templates_are_reported_results(doc_member(r, "results"@));
    if report_doc(r) is None {
        assert(doc_member(r, "results"@).filter(|i: Json| result_reported(i)) =~= seq![]);
    }
}

/// The target of a Trivy result group.
pub open spec fn group_target(group: Json) -> Seq<char> {
    str_or(json_at(group, "Target"@), "dependencies"@)
}

/// Whether a Trivy result group's target is reported.
pub open spec fn group_reported(group: Json) -> bool {
    path_reported(group_target(group))
}

/// The vulnerabilities a Trivy result group lists.
pub open spec fn group_vulnerabilities(group: Json) -> Seq<Json> {
    items_or_empty(json_get(group, "Vulnerabilities"@))
}

/// The number of vulnerabilities the groups list altogether.
pub open spec fn total_vulnerabilities(groups: Seq<Json>) -> nat
    decreases groups.len(),
{
    if groups.len() == 0 {
        0
    } else {
        total_vulnerabilities(groups.drop_last()) + group_vulnerabilities(groups.last()).len()
    }
}

proof fn lemma_trivy_templates_layout(groups: Seq<Json>)
    ensures
        ({
            let kept = groups.filter(|g: Json| group_reported(g));
            &&& trivy_templates(groups).len() == total_vulnerabilities(kept)
            &&& forall|k: int, v: int|
                0 <= k < kept.len() && 0 <= v < group_vulnerabilities(kept[k]).len() ==> {
                    let vuln = #[trigger] group_vulnerabilities(kept[k])[v];
                    let i = total_vulnerabilities(kept.take(k)) + v;
                    let t = trivy_templates(groups)[i];
                    let fixed = json_str(json_at(vuln, "FixedVersion"@));
                    &&& i < total_vulnerabilities(kept)
                    &&& t.source == ScannerSource::Trivy
                    &&& t.severity == Severity::High
                    &&& t.file_path == group_target(kept[k])
                    &&& t.rule_id == str_or(json_at(vuln, "VulnerabilityID"@), "CVE"@)
                    &&& t.message == str_or(json_at(vuln, "Title"@), "Dependency vulnerability"@)
                    &&& t.fixable == fixed is Some
                }
        }),
    decreases groups.len(),
{
    let pred = |g: Json| group_reported(g);
    if groups.len() > 0 {
        let pre = groups.drop_last();
        let last = groups.last();
        lemma_trivy_templates_layout(pre);
        assert(pre.push(last) =~= groups);
        pre.lemma_filter_push(last, pred);
        lemma_path_reported(group_target(last));
        let kp = pre.filter(pred);
        let kept = groups.filter(pred);
        let a = trivy_templates(pre);
        let ts = trivy_templates(groups);
        if pred(last) {
            let b = trivy_group_templates(last);
            assert(ts == a + b);
            assert(kept.drop_last() =~= kp);
            assert(kept.last() == last);
            assert forall|k: int, v: int|
                0 <= k < kept.len() && 0 <= v < group_vulnerabilities(kept[k]).len() implies {
                    let vuln = #[trigger] group_vulnerabilities(kept[k])[v];
                    let i = total_vulnerabilities(kept.take(k)) + v;
                    let t = ts[i];
                    let fixed = json_str(json_at(vuln, "FixedVersion"@));
                    &&& i < total_vulnerabilities(kept)
                    &&& t.source == ScannerSource::Trivy
                    &&& t.severity == Severity::High
                    &&& t.file_path == group_target(kept[k])
                    &&& t.rule_id == str_or(json_at(vuln, "VulnerabilityID"@), "CVE"@)
                    &&& t.message == str_or(json_at(vuln, "Title"@), "Dependency vulnerability"@)
                    &&& t.fixable == fixed is Some
                } by {
                if k < kp.len() {
                    assert(kept.take(k) =~= kp.take(k));
                    assert(kept[k] == kp[k]);
                    let vuln = group_vulnerabilities(kp[k])[v];
                    let i = total_vulnerabilities(kp.take(k)) + v;
                    assert(i < total_vulnerabilities(kp));
                    assert(ts[i] == a[i]);
                } else {
                    assert(kept.take(k) =~= kp);
                    let i = total_vulnerabilities(kp) + v;
                    assert(ts[i] == b[v]);
                }
            }
        } else {
            assert(ts =~= a);
        }
    }
}

/// Trivy: one finding per vulnerability of every result group whose target
/// is reported, group after group; the findings number those groups'
/// vulnerabilities together, and the `v`-th vulnerability of the `k`-th
/// such group becomes the finding after those of the groups before it,
/// on that group's target, with the vulnerability's identifier and title,
/// fixable exactly when it names a fixed version.
pub proof fn lemma_trivy_one_finding_per_vulnerability(r: Report)
    ensures
        ({
            let kept = doc_member(r, "Results"@).filter(|g: Json| group_reported(g));
            &&& trivy_report_templates(r).len() == total_vulnerabilities(kept)
            &&& forall|k: int, v: int|
                0 <= k < kept.len() && 0 <= v < group_vulnerabilities(kept[k]).len() ==> {
                    let vuln = #[trigger] group_vulnerabilities(kept[k])[v];
                    let t = trivy_report_templates(r)[total_vulnerabilities(kept.take(k)) + v];
                    &&& t.source == ScannerSource::Trivy
                    &&& t.severity == Severity::High
                    &&& t.file_path == group_target(kept[k])
                    &&& t.rule_id == str_or(json_at(vuln, "VulnerabilityID"@), "CVE"@)
                    &&& t.message == str_or(json_at(vuln, "Title"@), "Dependency vulnerability"@)
                    &&& t.fixable == json_str(json_at(vuln, "FixedVersion"@)) is Some
                }
        }),
{
    lemma_trivy_templates_layout(doc_member(r, "Results"@));
    if report_doc(r) is None {
        assert(doc_member(r, "Results"@).filter(|g: Json| group_reported(g)) =~= seq![]);
    }
}

/// The failed checks of a Checkov document: the document itself when it is
/// an array, else the array `results.failed_checks`.
pub open spec fn failed_checks(doc: Json) -> Seq<Json> {
    match doc {
        Json::Array(items) => items@,
        _ => items_or_empty(json_get(json_at(doc, "results"@), "failed_checks"@)),
    }
}

/// Checkov: one finding per failed check, in order; the `k`-th carries the
/// `k`-th check's identifier, name, file and line range.
pub proof fn lemma_checkov_one_finding_per_failed_check(r: Report)
    ensures
        ({
            let checks = match report_doc(r) {
                Some(doc) => failed_checks(doc),
                None => seq![],
            };
            &&& checkov_report_templates(r).len() == checks.len()
            &&& forall|k: int|
                0 <= k < checks.len() ==> {
                    let c = checks[k];
                    let t = #[trigger] checkov_report_templates(r)[k];
                    &&& t.source == ScannerSource::Checkov
                    &&& t.severity == Severity::High
                    &&& t.rule_id == str_or(json_at(c, "check_id"@), "CKV_IAC"@)
                    &&& t.message == str_or(json_at(c, "check_name"@), "IaC misconfiguration"@)
                    &&& t.file_path == str_or(json_at(c, "file_path"@), ""@)
                    &&& t.line_start == u64_or(json_idx(json_at(c, "file_line_range"@), 0), 1) as usize
                }
        }),
{
    match report_doc(r) {
        Some(doc) => {
            assert(checkov_checks(doc) == failed_checks(doc));
        },
        None => {},
    }
}

/// modelscan: one critical finding per element of `issues`, in order; the
/// `k`-th carries the `k`-th issue's scanner, description and source.
pub proof fn lemma_modelscan_one_finding_per_issue(r: Report)
    ensures
        ({
            let issues = match report_doc(r) {
                Some(doc) => items_or_empty(Some(json_at(doc, "issues"@))),
                None => seq![],
            };
            &&& modelscan_report_templates(r).len() == issues.len()
            &&& forall|k: int|
                0 <= k < issues.len() ==> {
                    let i = issues[k];
                    let t = #[trigger] modelscan_report_templates(r)[k];
                    &&& t.source == ScannerSource::Modelscan
                    &&& t.severity == Severity::Critical
                    &&& t.rule_id == str_or(json_at(i, "scanner"@), "unsafe-deserialization"@)
                    &&& t.message == str_or(json_at(i, "description"@), ""@)
                    &&& t.file_path == str_or(json_at(i, "source"@), "model"@)
                }
        }),
{
}

proof fn lemma_trufflehog_templates_are_json_lines(lines: Seq<Option<Json>>)
    ensures
        trufflehog_templates(lines).len() == lines.filter(|l: Option<Json>| l is Some).len(),
        forall|k: int|
            0 <= k < trufflehog_templates(lines).len() ==> {
                let item = lines.filter(|l: Option<Json>| l is Some)[k]->0;
                let fs = json_at(json_at(json_at(item, "SourceMetadata"@), "Data"@), "Filesystem"@);
                let t = #[trigger] trufflehog_templates(lines)[k];
                &&& t.source == ScannerSource::Trufflehog
                &&& t.severity == Severity::Critical
                &&& t.rule_id == str_or(json_at(item, "DetectorName"@), "verified-secret"@)
                &&& t.file_path == str_or(json_at(fs, "file"@), "unknown"@)
                &&& t.line_start == u64_or(json_at(fs, "line"@), 1) as usize
            },
    decreases lines.len(),
{
    let pred = |l: Option<Json>| l is Some;
    if lines.len() > 0 {
        let pre = lines.drop_last();
        let last = lines.last();
        lemma_trufflehog_templates_are_json_lines(pre);
        assert(pre.push(last) =~= lines);
        pre.lemma_filter_push(last, pred);
        let ts = trufflehog_templates(lines);
        assert forall|k: int| 0 <= k < ts.len() implies {
            let item = lines.filter(pred)[k]->0;
            let fs = json_at(json_at(json_at(item, "SourceMetadata"@), "Data"@), "Filesystem"@);
            let t = #[trigger] ts[k];
            &&& t.source == ScannerSource::Trufflehog
            &&& t.severity == Severity::Critical
            &&& t.rule_id == str_or(json_at(item, "DetectorName"@), "verified-secret"@)
            &&& t.file_path == str_or(json_at(fs, "file"@), "unknown"@)
            &&& t.line_start == u64_or(json_at(fs, "line"@), 1) as usize
        } by {
            if k < trufflehog_templates(pre).len() {
                assert(ts[k] == trufflehog_templates(pre)[k]);
                assert(lines.filter(pred)[k] == pre.filter(pred)[k]);
            }
        }
    }
}

/// TruffleHog: one critical finding per output line that is JSON, in
/// order; the `k`-th carries the `k`-th such line's detector, file and line.
pub proof fn lemma_trufflehog_one_finding_per_json_line(out: Option<Seq<u8>>)
    ensures
        ({
            let docs = trufflehog_lines(out).filter(|l: Option<Json>| l is Some);
            &&& trufflehog_templates(trufflehog_lines(out)).len() == docs.len()
            &&& forall|k: int|
                0 <= k < docs.len() ==> {
                    let item = docs[k]->0;
                    let fs = json_at(
                        json_at(json_at(item, "SourceMetadata"@), "Data"@),
                        "Filesystem"@,
                    );
                    let t = #[trigger] trufflehog_templates(trufflehog_lines(out))[k];
                    &&& t.source == ScannerSource::Trufflehog
                    &&& t.severity == Severity::Critical
                    &&& t.rule_id == str_or(json_at(item, "DetectorName"@), "verified-secret"@)
                    &&& t.file_path == str_or(json_at(fs, "file"@), "unknown"@)
                    &&& t.line_start == u64_or(json_at(fs, "line"@), 1) as usize
                }
        }),
{
    lemma_trufflehog_templates_are_json_lines(trufflehog_lines(out));
}

/// The elements of `j` when it is an array.
fn items_of(j: &Json) -> (r: &[Json])
    ensures
        r@ == items_or_empty(Some(*j)),
{
    match j.as_array() {
        Some(v) => v.as_slice(),
        None => &[],
    }
}

/// The elements of the array member `key` of `j`.
fn member_items_of<'a>(j: &'a Json, key: &str) -> (r: &'a [Json])
    ensures
        r@ == member_items(*j, key@),
{
    match j.get(key) {
        Some(v) => match v.as_array() {
            Some(items) => items.as_slice(),
            None => &[],
        },
        None => &[],
    }
}

impl ScannerEngine {
    /// Whether a foundation scanner leaves out a finding on the path `p`.
    pub fn is_excluded_path(p: &str) -> (r: bool)
        ensures
            r == excluded_path(p@),
    {
        proof {
            reveal_strlit("/");
            reveal_strlit("target");
            reveal_strlit(".git");
            reveal_strlit(".code-warden");
            reveal_strlit("target/");
            reveal_strlit("/target/");
            reveal_strlit(".git/");
            reveal_strlit("/.git/");
            reveal_strlit(".code-warden/");
            reveal_strlit("/.code-warden/");
            assert("target"@ + "/"@ =~= "target/"@);
            assert("/"@ + "target"@ + "/"@ =~= "/target/"@);
            assert(".git"@ + "/"@ =~= ".git/"@);
            assert("/"@ + ".git"@ + "/"@ =~= "/.git/"@);
            assert(".code-warden"@ + "/"@ =~= ".code-warden/"@);
            assert("/"@ + ".code-warden"@ + "/"@ =~= "/.code-warden/"@);
        }
        str_ends_with(p, ".env") || str_contains(p, "/.env") || str_starts_with(p, "target/")
            || str_contains(p, "/target/") || str_starts_with(p, ".git/") || str_contains(
            p,
            "/.git/",
        ) || str_starts_with(p, ".code-warden/") || str_contains(p, "/.code-warden/")
    }

    /// Whether a Gitleaks leak is kept: leaks in excluded files are not.
    pub fn gitleaks_keeps_item(item: &Json) -> (r: bool)
        ensures
            r == gitleaks_keeps(*item),
    {
        let file = text_or(item.at("File"), "unknown");
        !Self::is_excluded_path(file.as_str())
    }

    /// The finding the Gitleaks leak `item` becomes, under the identifier `id`.
    pub fn gitleaks_finding(item: &Json, id: String) -> (f: UnifiedFinding)
        ensures
            f@ == with_id(gitleaks_template(*item), id@),
    {
        UnifiedFinding {
            id,
            source: ScannerSource::Gitleaks,
            rule_id: text_or(item.at("RuleID"), "secret"),
            severity: Severity::Critical,
            message: text_or(item.at("Description"), "Secret leak detected"),
            file_path: text_or(item.at("File"), "unknown"),
            line_start: line_or(item.at("StartLine"), 1),
            line_end: opt_line_of(item.at("EndLine")),
            matched_content: opt_text(item.at("Match")),
            fixable: false,
            suggested_patch: None,
        }
    }

    /// Gitleaks: every leak of the report outside excluded files, as a
    /// critical finding with a fresh `GITLEAKS-` identifier.
    pub fn scan_gitleaks(report: &Report) -> (r: Vec<UnifiedFinding>)
        ensures
            findings_match(r@, gitleaks_report_templates(*report)),
    {
        let mut out: Vec<UnifiedFinding> = Vec::new();
        let items: &[Json] = match report {
            Report::Parsed(j) => items_of(j),
            _ => &[],
        };
        let ghost all = items@;
        assert(all == items_or_empty(report_doc(*report)));
        let mut i: usize = 0;
        while i < items.len()
            invariant
                i <= items.len(),
                all == items@,
                findings_match(out@, gitleaks_templates(all.take(i as int))),
            decreases items.len() - i,
        {
            assert(all.take(i + 1).drop_last() =~= all.take(i as int));
            assert(all.take(i + 1).last() == all[i as int]);
            if Self::gitleaks_keeps_item(&items[i]) {
                let id = new_finding_id("GITLEAKS");
                let f = Self::gitleaks_finding(&items[i], id);
                proof {
                    reveal_strlit("GITLEAKS");
                    lemma_findings_match_push(
                        out@,
                        gitleaks_templates(all.take(i as int)),
                        f,
                        gitleaks_template(all[i as int]),
                    );
                }
                out.push(f);
            }
            i = i + 1;
        }
        assert(all.take(items.len() as int) =~= all);
        out
    }
}


/// The prefix `take(i + 1)` of a mapped sequence extends `take(i)` by one.
proof fn lemma_map_take_push<A, B>(s: Seq<A>, f: spec_fn(A) -> B, i: int)
    requires
        0 <= i < s.len(),
    ensures
        s.take(i + 1).map_values(f) == s.take(i).map_values(f).push(f(s[i])),
{
    assert(s.take(i + 1).map_values(f) =~= s.take(i).map_values(f).push(f(s[i])));
}

/// The element `i` of `j`, read as a line number or `default`.
fn nth_line_or(j: &Json, i: usize, default: u64) -> (r: usize)
    ensures
        r == (match nth_u64(*j, i as int) {
            Some(n) => n,
            None => default,
        }) as usize,
{
    match j.nth(i) {
        Some(v) => match v.as_u64() {
            Some(n) => n as usize,
            None => default as usize,
        },
        None => default as usize,
    }
}

/// The element `i` of `j`, read as an optional line number.
fn nth_opt_line(j: &Json, i: usize) -> (r: Option<usize>)
    ensures
        r == (match nth_u64(*j, i as int) {
            Some(n) => Some(n as usize),
            None => None,
        }),
{
    match j.nth(i) {
        Some(v) => match v.as_u64() {
            Some(n) => Some(n as usize),
            None => None,
        },
        None => None,
    }
}

/// The failed checks of a Checkov report.
fn checkov_checks_of(j: &Json) -> (r: &[Json])
    ensures
        r@ == checkov_checks(*j),
{
    if j.is_array() {
        items_of(j)
    } else {
        match j.get("results") {
            Some(res) => member_items_of(res, "failed_checks"),
            None => &[],
        }
    }
}

impl ScannerEngine {
    /// The finding the Semgrep result `item` becomes, under the identifier `id`.
    pub fn semgrep_finding(item: &Json, id: String) -> (f: UnifiedFinding)
        ensures
            f@ == with_id(semgrep_template(*item), id@),
    {
        let extra = item.at("extra");
        let fix = opt_text(extra.at("fix"));
        UnifiedFinding {
            id,
            source: ScannerSource::Semgrep,
            rule_id: text_or(item.at("check_id"), "sast"),
            severity: Severity::High,
            message: text_or(extra.at("message"), ""),
            file_path: text_or(item.at("path"), ""),
            line_start: line_or(item.at("start").at("line"), 1),
            line_end: opt_line_of(item.at("end").at("line")),
            matched_content: opt_text(extra.at("lines")),
            fixable: extra.at("fix").is_string(),
            suggested_patch: fix,
        }
    }

    /// Semgrep: every element of the report's `results` on a file that is
    /// not excluded, as a high-severity finding, fixable when it carries a
    /// `fix`.
    pub fn scan_semgrep(report: &Report) -> (r: Vec<UnifiedFinding>)
        ensures
            findings_match(r@, semgrep_report_templates(*report)),
    {
        let mut out: Vec<UnifiedFinding> = Vec::new();
        let items: &[Json] = match report {
            Report::Parsed(j) => member_items_of(j, "results"),
            _ => &[],
        };
        let ghost all = items@;
        assert(semgrep_report_templates(*report) == semgrep_templates(all));
        let mut i: usize = 0;
        while i < items.len()
            invariant
                i <= items.len(),
                all == items@,
                findings_match(out@, semgrep_templates(all.take(i as int))),
            decreases items.len() - i,
        {
            assert(all.take(i + 1).drop_last() =~= all.take(i as int));
            assert(all.take(i + 1).last() == all[i as int]);
            let path = text_or(items[i].at("path"), "");
            if !Self::is_excluded_path(path.as_str()) {
                let id = new_finding_id("SEMGREP");
                let x = Self::semgrep_finding(&items[i], id);
                proof {
                    reveal_strlit("SEMGREP");
                    lemma_findings_match_push(
                        out@,
                        semgrep_templates(all.take(i as int)),
                        x,
                        semgrep_template(all[i as int]),
                    );
                }
                out.push(x);
            }
            i = i + 1;
        }
        assert(all.take(items.len() as int) =~= all);
        out
    }

    /// The finding the Trivy vulnerability `vuln` of `target` becomes.
    pub fn trivy_finding(target: &str, vuln: &Json, id: String) -> (f: UnifiedFinding)
        ensures
            f@ == with_id(trivy_template(target@, *vuln), id@),
    {
        let patch = match vuln.at("FixedVersion").as_str() {
            Some(v) => {
                let mut p = String::from_str("Upgrade to ");
                p.append(v);
                Some(p)
            },
            None => None,
        };
        UnifiedFinding {
            id,
            source: ScannerSource::Trivy,
            rule_id: text_or(vuln.at("VulnerabilityID"), "CVE"),
            severity: Severity::High,
            message: text_or(vuln.at("Title"), "Dependency vulnerability"),
            file_path: String::from_str(target),
            line_start: 1,
            line_end: None,
            matched_content: None,
            fixable: vuln.at("FixedVersion").is_string(),
            suggested_patch: patch,
        }
    }

    /// Trivy: every vulnerability of every result group whose target is not
    /// excluded, as a high-severity finding on the group's target, fixable
    /// when a fixed version exists.
    pub fn scan_trivy(report: &Report) -> (r: Vec<UnifiedFinding>)
        ensures
            findings_match(r@, trivy_report_templates(*report)),
    {
        let mut out: Vec<UnifiedFinding> = Vec::new();
        let groups: &[Json] = match report {
            Report::Parsed(j) => member_items_of(j, "Results"),
            _ => &[],
        };
        let ghost all = groups@;
        let mut g: usize = 0;
        while g < groups.len()
            invariant
                g <= groups.len(),
                all == groups@,
                findings_match(out@, trivy_templates(all.take(g as int))),
            decreases groups.len() - g,
        {
            let grp = &groups[g];
            let target = text_or(grp.at("Target"), "dependencies");
            let vulns: &[Json] = if Self::is_excluded_path(target.as_str()) {
                &[]
            } else {
                member_items_of(grp, "Vulnerabilities")
            };
            let ghost before = trivy_templates(all.take(g as int));
            let ghost f = |v: Json| trivy_template(trivy_target(*grp), v);
            let mut k: usize = 0;
            while k < vulns.len()
                invariant
                    k <= vulns.len(),
                    target@ == trivy_target(*grp),
                    f == (|v: Json| trivy_template(trivy_target(*grp), v)),
                    findings_match(out@, before + vulns@.take(k as int).map_values(f)),
                decreases vulns.len() - k,
            {
                proof {
                    lemma_map_take_push(vulns@, f, k as int);
                    reveal_strlit("TRIVY");
                    assert(before + vulns@.take(k + 1).map_values(f) =~= (before + vulns@.take(
                        k as int,
                    ).map_values(f)).push(f(vulns@[k as int])));
                }
                let id = new_finding_id("TRIVY");
                let x = Self::trivy_finding(target.as_str(), &vulns[k], id);
                proof {
                    lemma_findings_match_push(
                        out@,
                        before + vulns@.take(k as int).map_values(f),
                        x,
                        f(vulns@[k as int]),
                    );
                }
                out.push(x);
                k = k + 1;
            }
            proof {
                assert(vulns@.take(vulns.len() as int) =~= vulns@);
                assert(all.take(g + 1).drop_last() =~= all.take(g as int));
                assert(all.take(g + 1).last() == *grp);
                if !excluded_path(trivy_target(*grp)) {
                    assert(trivy_group_templates(*grp) == vulns@.map_values(f));
                } else {
                    assert(vulns@.map_values(f) =~= seq![]);
                }
            }
            g = g + 1;
        }
        assert(all.take(groups.len() as int) =~= all);
        out
    }

    /// The finding the actionlint error `item` becomes, under the identifier `id`.
    pub fn actionlint_finding(item: &Json, id: String) -> (f: UnifiedFinding)
        ensures
            f@ == with_id(actionlint_template(*item), id@),
    {
        UnifiedFinding {
            id,
            source: ScannerSource::Actionlint,
            rule_id: text_or(item.at("kind"), "ci-error"),
            severity: Severity::High,
            message: text_or(item.at("message"), ""),
            file_path: text_or(item.at("filepath"), ""),
            line_start: line_or(item.at("line"), 1),
            line_end: None,
            matched_content: opt_text(item.at("snippet")),
            fixable: false,
            suggested_patch: None,
        }
    }

    /// actionlint: every error of the report as a high-severity finding. The
    /// report is absent when the target has no `.github/workflows`.
    pub fn scan_actionlint(report: &Report) -> (r: Vec<UnifiedFinding>)
        ensures
            findings_match(r@, actionlint_report_templates(*report)),
    {
        let mut out: Vec<UnifiedFinding> = Vec::new();
        let items: &[Json] = match report {
            Report::Parsed(j) => items_of(j),
            _ => &[],
        };
        let ghost all = items@;
        let ghost f = |i: Json| actionlint_template(i);
        assert(actionlint_report_templates(*report) == all.map_values(f));
        let mut i: usize = 0;
        while i < items.len()
            invariant
                i <= items.len(),
                all == items@,
                f == (|i: Json| actionlint_template(i)),
                findings_match(out@, all.take(i as int).map_values(f)),
            decreases items.len() - i,
        {
            proof {
                lemma_map_take_push(all, f, i as int);
                reveal_strlit("ACTIONLINT");
            }
            let id = new_finding_id("ACTIONLINT");
            let x = Self::actionlint_finding(&items[i], id);
            proof {
                lemma_findings_match_push(out@, all.take(i as int).map_values(f), x, f(all[i as int]));
            }
            out.push(x);
            i = i + 1;
        }
        assert(all.take(items.len() as int) =~= all);
        out
    }

    /// The finding the failed Checkov check `check` becomes.
    pub fn checkov_finding(check: &Json, id: String) -> (f: UnifiedFinding)
        ensures
            f@ == with_id(checkov_template(*check), id@),
    {
        let range = check.at("file_line_range");
        UnifiedFinding {
            id,
            source: ScannerSource::Checkov,
            rule_id: text_or(check.at("check_id"), "CKV_IAC"),
            severity: Severity::High,
            message: text_or(check.at("check_name"), "IaC misconfiguration"),
            file_path: text_or(check.at("file_path"), ""),
            line_start: nth_line_or(range, 0, 1),
            line_end: nth_opt_line(range, 1),
            matched_content: None,
            fixable: false,
            suggested_patch: None,
        }
    }

    /// Checkov: every failed check as a high-severity finding, the report
    /// being either the list of checks or an object with
    /// `results.failed_checks`.
    pub fn scan_checkov(report: &Report) -> (r: Vec<UnifiedFinding>)
        ensures
            findings_match(r@, checkov_report_templates(*report)),
    {
        let mut out: Vec<UnifiedFinding> = Vec::new();
        let items: &[Json] = match report {
            Report::Parsed(j) => checkov_checks_of(j),
            _ => &[],
        };
        let ghost all = items@;
        let ghost f = |c: Json| checkov_template(c);
        assert(checkov_report_templates(*report) == all.map_values(f));
        let mut i: usize = 0;
        while i < items.len()
            invariant
                i <= items.len(),
                all == items@,
                f == (|c: Json| checkov_template(c)),
                findings_match(out@, all.take(i as int).map_values(f)),
            decreases items.len() - i,
        {
            proof {
                lemma_map_take_push(all, f, i as int);
                reveal_strlit("CHECKOV");
            }
            let id = new_finding_id("CHECKOV");
            let x = Self::checkov_finding(&items[i], id);
            proof {
                lemma_findings_match_push(out@, all.take(i as int).map_values(f), x, f(all[i as int]));
            }
            out.push(x);
            i = i + 1;
        }
        assert(all.take(items.len() as int) =~= all);
        out
    }

    /// The finding the verified TruffleHog secret `item` becomes.
    pub fn trufflehog_finding(item: &Json, id: String) -> (f: UnifiedFinding)
        ensures
            f@ == with_id(trufflehog_template(*item), id@),
    {
        let fs = item.at("SourceMetadata").at("Data").at("Filesystem");
        let mut message = String::from_str("Verified exposed credential: ");
        let detector = text_or(item.at("DetectorName"), "secret");
        message.append(detector.as_str());
        UnifiedFinding {
            id,
            source: ScannerSource::Trufflehog,
            rule_id: text_or(item.at("DetectorName"), "verified-secret"),
            severity: Severity::Critical,
            message,
            file_path: text_or(fs.at("file"), "unknown"),
            line_start: line_or(fs.at("line"), 1),
            line_end: None,
            matched_content: None,
            fixable: false,
            suggested_patch: None,
        }
    }

    /// TruffleHog: every output line that is JSON, as a critical finding;
    /// `lines` holds one entry per output line, `None` for a line that is no
    /// JSON, and nothing when the tool did not run.
    pub fn scan_trufflehog(lines: &Vec<Option<Json>>) -> (r: Vec<UnifiedFinding>)
        ensures
            findings_match(r@, trufflehog_templates(lines@)),
    {
        let mut out: Vec<UnifiedFinding> = Vec::new();
        let ghost all = lines@;
        let mut i: usize = 0;
        while i < lines.len()
            invariant
                i <= lines.len(),
                all == lines@,
                findings_match(out@, trufflehog_templates(all.take(i as int))),
            decreases lines.len() - i,
        {
            assert(all.take(i + 1).drop_last() =~= all.take(i as int));
            assert(all.take(i + 1).last() == all[i as int]);
            match &lines[i] {
                Some(item) => {
                    let id = new_finding_id("TRUFFLEHOG");
                    let x = Self::trufflehog_finding(item, id);
                    proof {
                        reveal_strlit("TRUFFLEHOG");
                        lemma_findings_match_push(
                            out@,
                            trufflehog_templates(all.take(i as int)),
                            x,
                            trufflehog_template(*item),
                        );
                    }
                    out.push(x);
                },
                None => {},
            }
            i = i + 1;
        }
        assert(all.take(lines.len() as int) =~= all);
        out
    }

    /// The finding the modelscan issue `issue` becomes.
    pub fn modelscan_finding(issue: &Json, id: String) -> (f: UnifiedFinding)
        ensures
            f@ == with_id(modelscan_template(*issue), id@),
    {
        UnifiedFinding {
            id,
            source: ScannerSource::Modelscan,
            rule_id: text_or(issue.at("scanner"), "unsafe-deserialization"),
            severity: Severity::Critical,
            message: text_or(issue.at("description"), ""),
            file_path: text_or(issue.at("source"), "model"),
            line_start: 1,
            line_end: None,
            matched_content: None,
            fixable: false,
            suggested_patch: None,
        }
    }

    /// modelscan: every element of the report's `issues` as a critical finding.
    pub fn scan_modelscan(report: &Report) -> (r: Vec<UnifiedFinding>)
        ensures
            findings_match(r@, modelscan_report_templates(*report)),
    {
        let mut out: Vec<UnifiedFinding> = Vec::new();
        let items: &[Json] = match report {
            Report::Parsed(j) => items_of(j.at("issues")),
            _ => &[],
        };
        let ghost all = items@;
        let ghost f = |i: Json| modelscan_template(i);
        assert(modelscan_report_templates(*report) == all.map_values(f));
        let mut i: usize = 0;
        while i < items.len()
            invariant
                i <= items.len(),
                all == items@,
                f == (|i: Json| modelscan_template(i)),
                findings_match(out@, all.take(i as int).map_values(f)),
            decreases items.len() - i,
        {
            proof {
                lemma_map_take_push(all, f, i as int);
                reveal_strlit("MODELSCAN");
            }
            let id = new_finding_id("MODELSCAN");
            let x = Self::modelscan_finding(&items[i], id);
            proof {
                lemma_findings_match_push(out@, all.take(i as int).map_values(f), x, f(all[i as int]));
            }
            out.push(x);
            i = i + 1;
        }
        assert(all.take(items.len() as int) =~= all);
        out
    }

    /// The finding the sqlfluff violation `v` in the file `path` becomes.
    pub fn sqlfluff_finding(path: &str, v: &Json, id: String) -> (f: UnifiedFinding)
        ensures
            f@ == with_id(sqlfluff_template(path@, *v), id@),
    {
        UnifiedFinding {
            id,
            source: ScannerSource::Sqlfluff,
            rule_id: text_or(v.at("code"), "sql-anti-pattern"),
            severity: Severity::Medium,
            message: text_or(v.at("description"), ""),
            file_path: String::from_str(path),
            line_start: line_or(v.at("line_no"), 1),
            line_end: None,
            matched_content: None,
            fixable: false,
            suggested_patch: None,
        }
    }

    /// sqlfluff: every violation of every linted file as a medium-severity
    /// finding on that file.
    pub fn scan_sqlfluff(report: &Report) -> (r: Vec<UnifiedFinding>)
        ensures
            findings_match(r@, sqlfluff_report_templates(*report)),
    {
        let mut out: Vec<UnifiedFinding> = Vec::new();
        let entries: &[Json] = match report {
            Report::Parsed(j) => items_of(j),
            _ => &[],
        };
        let ghost all = entries@;
        let mut g: usize = 0;
        while g < entries.len()
            invariant
                g <= entries.len(),
                all == entries@,
                findings_match(out@, sqlfluff_templates(all.take(g as int))),
            decreases entries.len() - g,
        {
            let entry = &entries[g];
            let path = text_or(entry.at("filepath"), "");
            let violations = items_of(entry.at("violations"));
            let ghost before = sqlfluff_templates(all.take(g as int));
            let ghost f = |v: Json| sqlfluff_template(sqlfluff_path(*entry), v);
            let mut k: usize = 0;
            while k < violations.len()
                invariant
                    k <= violations.len(),
                    path@ == sqlfluff_path(*entry),
                    f == (|v: Json| sqlfluff_template(sqlfluff_path(*entry), v)),
                    findings_match(out@, before + violations@.take(k as int).map_values(f)),
                decreases violations.len() - k,
            {
                proof {
                    lemma_map_take_push(violations@, f, k as int);
                    reveal_strlit("SQLFLUFF");
                    assert(before + violations@.take(k + 1).map_values(f) =~= (before
                        + violations@.take(k as int).map_values(f)).push(f(violations@[k as int])));
                }
                let id = new_finding_id("SQLFLUFF");
                let x = Self::sqlfluff_finding(path.as_str(), &violations[k], id);
                proof {
                    lemma_findings_match_push(
                        out@,
                        before + violations@.take(k as int).map_values(f),
                        x,
                        f(violations@[k as int]),
                    );
                }
                out.push(x);
                k = k + 1;
            }
            proof {
                assert(violations@.take(violations.len() as int) =~= violations@);
                assert(all.take(g + 1).drop_last() =~= all.take(g as int));
                assert(all.take(g + 1).last() == *entry);
                assert(sqlfluff_entry_templates(*entry) == violations@.map_values(f));
            }
            g = g + 1;
        }
        assert(all.take(entries.len() as int) =~= all);
        out
    }
}


/// The lines of TruffleHog's standard output `stdout`, each with the JSON
/// document it holds.
pub fn trufflehog_output_lines(stdout: Option<&[u8]>) -> (r: Vec<Option<Json>>)
    ensures
        r@ == trufflehog_lines(bytes_of(stdout)),
{
    let mut out: Vec<Option<Json>> = Vec::new();
    match stdout {
        None => out,
        Some(b) => {
            let text = utf8_lossy(b);
            let ls = split_lines(text.as_str());
            let ghost all = lines(lossy_utf8(b@));
            let mut i: usize = 0;
            while i < ls.len()
                invariant
                    i <= ls.len(),
                    views(ls@) == all,
                    out@ == all.take(i as int).map_values(
                        |l: Seq<char>| parsed_json(vstd::utf8::encode_utf8(l)),
                    ),
                decreases ls.len() - i,
            {
                let line = parse_json(ls[i].as_str().as_bytes());
                proof {
                    assert(all[i as int] == ls@[i as int]@);
                    lemma_map_take_push(
                        all,
                        |l: Seq<char>| parsed_json(vstd::utf8::encode_utf8(l)),
                        i as int,
                    );
                }
                out.push(line);
                i = i + 1;
            }
            assert(all.take(ls.len() as int) =~= all);
            out
        },
    }
}

impl ScannerEngine {
    /// Gitleaks' report file, as read: the findings it holds.
    pub fn scan_gitleaks_output(report: Option<&[u8]>) -> (r: Vec<UnifiedFinding>)
        ensures
            findings_match(r@, gitleaks_report_templates(report_of(bytes_of(report)))),
    {
        Self::scan_gitleaks(&report_of_output(report))
    }

    /// Semgrep's standard output: the findings it holds.
    pub fn scan_semgrep_output(stdout: Option<&[u8]>) -> (r: Vec<UnifiedFinding>)
        ensures
            findings_match(r@, semgrep_report_templates(report_of(bytes_of(stdout)))),
    {
        Self::scan_semgrep(&report_of_output(stdout))
    }

    /// Trivy's standard output: the findings it holds.
    pub fn scan_trivy_output(stdout: Option<&[u8]>) -> (r: Vec<UnifiedFinding>)
        ensures
            findings_match(r@, trivy_report_templates(report_of(bytes_of(stdout)))),
    {
        Self::scan_trivy(&report_of_output(stdout))
    }

    /// actionlint's standard output: the findings it holds.
    pub fn scan_actionlint_output(stdout: Option<&[u8]>) -> (r: Vec<UnifiedFinding>)
        ensures
            findings_match(r@, actionlint_report_templates(report_of(bytes_of(stdout)))),
    {
        Self::scan_actionlint(&report_of_output(stdout))
    }

    /// Checkov's standard output: the findings it holds.
    pub fn scan_checkov_output(stdout: Option<&[u8]>) -> (r: Vec<UnifiedFinding>)
        ensures
            findings_match(r@, checkov_report_templates(report_of(bytes_of(stdout)))),
    {
        Self::scan_checkov(&report_of_output(stdout))
    }

    /// TruffleHog's standard output, JSON line by JSON line: the findings it
    /// holds.
    pub fn scan_trufflehog_output(stdout: Option<&[u8]>) -> (r: Vec<UnifiedFinding>)
        ensures
            findings_match(r@, trufflehog_templates(trufflehog_lines(bytes_of(stdout)))),
    {
        Self::scan_trufflehog(&trufflehog_output_lines(stdout))
    }

    /// modelscan's report file, as read: the findings it holds.
    pub fn scan_modelscan_output(report: Option<&[u8]>) -> (r: Vec<UnifiedFinding>)
        ensures
            findings_match(r@, modelscan_report_templates(report_of(bytes_of(report)))),
    {
        Self::scan_modelscan(&report_of_output(report))
    }

    /// sqlfluff's standard output: the findings it holds.
    pub fn scan_sqlfluff_output(stdout: Option<&[u8]>) -> (r: Vec<UnifiedFinding>)
        ensures
            findings_match(r@, sqlfluff_report_templates(report_of(bytes_of(stdout)))),
    {
        Self::scan_sqlfluff(&report_of_output(stdout))
    }
}

/// A tool that left no output, or whose output is no JSON document, adds
/// no finding to an audit; TruffleHog, read line by line, adds none when
/// it left no output.
pub proof fn lemma_unusable_output_finds_nothing(out: Option<Seq<u8>>)
    requires
        out is None || parsed_json(out->0) is None,
    ensures
        gitleaks_report_templates(report_of(out)).len() == 0,
        semgrep_report_templates(report_of(out)).len() == 0,
        trivy_report_templates(report_of(out)).len() == 0,
        actionlint_report_templates(report_of(out)).len() == 0,
        checkov_report_templates(report_of(out)).len() == 0,
        modelscan_report_templates(report_of(out)).len() == 0,
        sqlfluff_report_templates(report_of(out)).len() == 0,
        out is None ==> trufflehog_templates(trufflehog_lines(out)).len() == 0,
{
    assert(report_doc(report_of(out)) is None);
    assert(items_or_empty(report_doc(report_of(out))) =~= seq![]);
}

/// The raw bytes the scanners printed or wrote, as the caller collected
/// them: Gitleaks' and modelscan's report files, the other tools' standard
/// output. A tool that was not run, or left no report, has `None`.
#[derive(Debug)]
pub struct ScanOutputs {
    pub gitleaks: Option<Vec<u8>>,
    pub semgrep: Option<Vec<u8>>,
    pub trivy: Option<Vec<u8>>,
    pub actionlint: Option<Vec<u8>>,
    pub checkov: Option<Vec<u8>>,
    pub trufflehog: Option<Vec<u8>>,
    pub modelscan: Option<Vec<u8>>,
    pub sqlfluff: Option<Vec<u8>>,
}

/// The report a collected output makes.
pub open spec fn out_report(out: Option<Vec<u8>>) -> Report {
    report_of(vec_bytes(out))
}

/// Whether the trigger `t` fires for a target holding the files `files`
/// (paths relative to the target, `/`-separated): `*` always fires, any
/// other trigger fires when some file's path contains it.
pub open spec fn trigger_fires(t: Seq<char>, files: Seq<Seq<char>>) -> bool {
    t == "*"@ || exists|i: int| 0 <= i < files.len() && has_infix(#[trigger] files[i], t)
}

/// Whether one of the persona's file triggers fires for the target.
pub open spec fn persona_triggered(p: Persona, files: Seq<Seq<char>>) -> bool {
    exists|j: int|
        0 <= j < persona_file_triggers(p).len() && trigger_fires(
            #[trigger] persona_file_triggers(p)[j],
            files,
        )
}

/// Whether the target has GitHub Actions workflows.
pub open spec fn has_workflows(files: Seq<Seq<char>>) -> bool {
    exists|i: int| 0 <= i < files.len() && has_prefix(#[trigger] files[i], ".github/workflows/"@)
}

/// The persona's targeted scanners, run only when one of its file triggers
/// fires: actionlint (when there are workflows) and Checkov for DevOps,
/// TruffleHog for the red team, modelscan for AI/ML, sqlfluff for
/// databases.
pub open spec fn targeted_scanners(p: Persona, files: Seq<Seq<char>>) -> Seq<ScannerSource> {
    if !persona_triggered(p, files) {
        seq![]
    } else {
        match p {
            Persona::DevOpsPlatform => if has_workflows(files) {
                seq![ScannerSource::Actionlint, ScannerSource::Checkov]
            } else {
                seq![ScannerSource::Checkov]
            },
            Persona::RedTeamCybersecurity => seq![ScannerSource::Trufflehog],
            Persona::AiMlEngineer => seq![ScannerSource::Modelscan],
            Persona::DatabaseEngineer => seq![ScannerSource::Sqlfluff],
            _ => seq![],
        }
    }
}

/// The scanners an audit with persona `p` of a target holding `files`
/// runs: the foundation scanners Gitleaks, Semgrep and Trivy always, then
/// the persona's targeted ones.
pub open spec fn persona_scanners(p: Persona, files: Seq<Seq<char>>) -> Seq<ScannerSource> {
    seq![ScannerSource::Gitleaks, ScannerSource::Semgrep, ScannerSource::Trivy]
        + targeted_scanners(p, files)
}

/// The findings of the persona's targeted scanners.
pub open spec fn targeted_templates(p: Persona, o: ScanOutputs, files: Seq<Seq<char>>) -> Seq<
    FindingView,
> {
    if !persona_triggered(p, files) {
        seq![]
    } else {
        match p {
            Persona::DevOpsPlatform => if has_workflows(files) {
                actionlint_report_templates(out_report(o.actionlint)) + checkov_report_templates(out_report(o.checkov))
            } else {
                checkov_report_templates(out_report(o.checkov))
            },
            Persona::RedTeamCybersecurity => trufflehog_templates(trufflehog_lines(vec_bytes(o.trufflehog))),
            Persona::AiMlEngineer => modelscan_report_templates(out_report(o.modelscan)),
            Persona::DatabaseEngineer => sqlfluff_report_templates(out_report(o.sqlfluff)),
            _ => seq![],
        }
    }
}

/// The findings of an audit with persona `p` of a target holding `files`:
/// the foundation scanners' findings, then the targeted scanners', each
/// tool's in report order.
pub open spec fn persona_templates(p: Persona, o: ScanOutputs, files: Seq<Seq<char>>) -> Seq<
    FindingView,
> {
    gitleaks_report_templates(out_report(o.gitleaks)) + semgrep_report_templates(out_report(o.semgrep))
        + trivy_report_templates(out_report(o.trivy)) + targeted_templates(p, o, files)
}

/// Whether every template in `ts` is of the source `src`.
pub open spec fn all_from(ts: Seq<FindingView>, src: ScannerSource) -> bool {
    forall|k: int| 0 <= k < ts.len() ==> (#[trigger] ts[k]).source == src
}

proof fn lemma_gitleaks_source(items: Seq<Json>)
    ensures
        all_from(gitleaks_templates(items), ScannerSource::Gitleaks),
    decreases items.len(),
{
    if items.len() > 0 {
        lemma_gitleaks_source(items.drop_last());
    }
}

proof fn lemma_semgrep_source(items: Seq<Json>)
    ensures
        all_from(semgrep_templates(items), ScannerSource::Semgrep),
    decreases items.len(),
{
    if items.len() > 0 {
        lemma_semgrep_source(items.drop_last());
    }
}

proof fn lemma_trufflehog_source(lines: Seq<Option<Json>>)
    ensures
        all_from(trufflehog_templates(lines), ScannerSource::Trufflehog),
    decreases lines.len(),
{
    if lines.len() > 0 {
        lemma_trufflehog_source(lines.drop_last());
    }
}

proof fn lemma_concat_from(a: Seq<FindingView>, b: Seq<FindingView>, src: ScannerSource)
    requires
        all_from(a, src),
        all_from(b, src),
    ensures
        all_from(a + b, src),
{
    assert forall|k: int| 0 <= k < (a + b).len() implies (#[trigger] (a + b)[k]).source == src by {
        if k < a.len() {
            assert((a + b)[k] == a[k]);
        } else {
            assert((a + b)[k] == b[k - a.len()]);
        }
    }
}

proof fn lemma_trivy_source(groups: Seq<Json>)
    ensures
        all_from(trivy_templates(groups), ScannerSource::Trivy),
    decreases groups.len(),
{
    if groups.len() > 0 {
        lemma_trivy_source(groups.drop_last());
        let tail = if excluded_path(trivy_target(groups.last())) {
            seq![]
        } else {
            trivy_group_templates(groups.last())
        };
        lemma_concat_from(trivy_templates(groups.drop_last()), tail, ScannerSource::Trivy);
    }
}

proof fn lemma_sqlfluff_source(entries: Seq<Json>)
    ensures
        all_from(sqlfluff_templates(entries), ScannerSource::Sqlfluff),
    decreases entries.len(),
{
    if entries.len() > 0 {
        lemma_sqlfluff_source(entries.drop_last());
        lemma_concat_from(
            sqlfluff_templates(entries.drop_last()),
            sqlfluff_entry_templates(entries.last()),
            ScannerSource::Sqlfluff,
        );
    }
}

/// Whether no template in `ts` is on an excluded path.
pub open spec fn none_excluded(ts: Seq<FindingView>) -> bool {
    forall|k: int| 0 <= k < ts.len() ==> !excluded_path((#[trigger] ts[k]).file_path)
}

proof fn lemma_none_excluded_concat(a: Seq<FindingView>, b: Seq<FindingView>)
    requires
        none_excluded(a),
        none_excluded(b),
    ensures
        none_excluded(a + b),
{
    assert forall|k: int| 0 <= k < (a + b).len() implies !excluded_path(
        (#[trigger] (a + b)[k]).file_path,
    ) by {
        if k < a.len() {
            assert((a + b)[k] == a[k]);
        } else {
            assert((a + b)[k] == b[k - a.len()]);
        }
    }
}

proof fn lemma_gitleaks_not_excluded(items: Seq<Json>)
    ensures
        none_excluded(gitleaks_templates(items)),
    decreases items.len(),
{
    if items.len() > 0 {
        lemma_gitleaks_not_excluded(items.drop_last());
    }
}

proof fn lemma_semgrep_not_excluded(items: Seq<Json>)
    ensures
        none_excluded(semgrep_templates(items)),
    decreases items.len(),
{
    if items.len() > 0 {
        lemma_semgrep_not_excluded(items.drop_last());
    }
}

proof fn lemma_trivy_not_excluded(groups: Seq<Json>)
    ensures
        none_excluded(trivy_templates(groups)),
    decreases groups.len(),
{
    if groups.len() > 0 {
        lemma_trivy_not_excluded(groups.drop_last());
        let g = groups.last();
        if !excluded_path(trivy_target(g)) {
            assert(none_excluded(trivy_group_templates(g)));
            lemma_none_excluded_concat(trivy_templates(groups.drop_last()), trivy_group_templates(g));
        } else {
            assert(trivy_templates(groups) =~= trivy_templates(groups.drop_last()));
        }
    }
}

/// The foundation scanners (Gitleaks, Semgrep, Trivy) never report a
/// finding on a `.env` file or under `target/`, `.git/` or `.code-warden/`.
pub proof fn lemma_foundation_findings_skip_excluded_paths(o: ScanOutputs)
    ensures
        none_excluded(gitleaks_report_templates(out_report(o.gitleaks))),
        none_excluded(semgrep_report_templates(out_report(o.semgrep))),
        none_excluded(trivy_report_templates(out_report(o.trivy))),
{
    lemma_gitleaks_not_excluded(items_or_empty(report_doc(out_report(o.gitleaks))));
    match report_doc(out_report(o.semgrep)) {
        Some(j) => lemma_semgrep_not_excluded(member_items(j, "results"@)),
        None => {},
    }
    match report_doc(out_report(o.trivy)) {
        Some(j) => lemma_trivy_not_excluded(member_items(j, "Results"@)),
        None => {},
    }
}

/// Whether every template in `ts` is of a source in `srcs`.
pub open spec fn all_among(ts: Seq<FindingView>, srcs: Seq<ScannerSource>) -> bool {
    forall|k: int| 0 <= k < ts.len() ==> srcs.contains((#[trigger] ts[k]).source)
}

proof fn lemma_among_concat(a: Seq<FindingView>, b: Seq<FindingView>, srcs: Seq<ScannerSource>)
    requires
        all_among(a, srcs),
        all_among(b, srcs),
    ensures
        all_among(a + b, srcs),
{
    assert forall|k: int| 0 <= k < (a + b).len() implies srcs.contains(
        (#[trigger] (a + b)[k]).source,
    ) by {
        if k < a.len() {
            assert((a + b)[k] == a[k]);
        } else {
            assert((a + b)[k] == b[k - a.len()]);
        }
    }
}

proof fn lemma_from_among(ts: Seq<FindingView>, src: ScannerSource, srcs: Seq<ScannerSource>, i: int)
    requires
        all_from(ts, src),
        0 <= i < srcs.len(),
        srcs[i] == src,
    ensures
        all_among(ts, srcs),
{
    assert forall|k: int| 0 <= k < ts.len() implies srcs.contains((#[trigger] ts[k]).source) by {
        assert(ts[k].source == srcs[i]);
    }
}

/// Every finding of an audit comes from a scanner that the audit runs: a
/// foundation scanner, or one of the persona's targeted scanners whose
/// file triggers fired.
pub proof fn lemma_findings_come_from_persona_scanners(
    p: Persona,
    o: ScanOutputs,
    files: Seq<Seq<char>>,
)
    ensures
        all_among(persona_templates(p, o, files), persona_scanners(p, files)),
{
    let srcs = persona_scanners(p, files);
    let gl = gitleaks_report_templates(out_report(o.gitleaks));
    let sg = semgrep_report_templates(out_report(o.semgrep));
    let tv = trivy_report_templates(out_report(o.trivy));
    let tg = targeted_templates(p, o, files);
    lemma_gitleaks_source(items_or_empty(report_doc(out_report(o.gitleaks))));
    lemma_from_among(gl, ScannerSource::Gitleaks, srcs, 0);
    match report_doc(out_report(o.semgrep)) {
        Some(j) => lemma_semgrep_source(member_items(j, "results"@)),
        None => {},
    }
    lemma_from_among(sg, ScannerSource::Semgrep, srcs, 1);
    match report_doc(out_report(o.trivy)) {
        Some(j) => lemma_trivy_source(member_items(j, "Results"@)),
        None => {},
    }
    lemma_from_among(tv, ScannerSource::Trivy, srcs, 2);
    if persona_triggered(p, files) {
        match p {
            Persona::DevOpsPlatform => {
                let a = actionlint_report_templates(out_report(o.actionlint));
                let c = checkov_report_templates(out_report(o.checkov));
                assert(all_from(a, ScannerSource::Actionlint));
                assert(all_from(c, ScannerSource::Checkov));
                if has_workflows(files) {
                    lemma_from_among(a, ScannerSource::Actionlint, srcs, 3);
                    lemma_from_among(c, ScannerSource::Checkov, srcs, 4);
                    lemma_among_concat(a, c, srcs);
                } else {
                    lemma_from_among(c, ScannerSource::Checkov, srcs, 3);
                }
            },
            Persona::RedTeamCybersecurity => {
                lemma_trufflehog_source(trufflehog_lines(vec_bytes(o.trufflehog)));
                lemma_from_among(tg, ScannerSource::Trufflehog, srcs, 3);
            },
            Persona::AiMlEngineer => {
                assert(all_from(tg, ScannerSource::Modelscan));
                lemma_from_among(tg, ScannerSource::Modelscan, srcs, 3);
            },
            Persona::DatabaseEngineer => {
                lemma_sqlfluff_source(items_or_empty(report_doc(out_report(o.sqlfluff))));
                lemma_from_among(tg, ScannerSource::Sqlfluff, srcs, 3);
            },
            _ => {},
        }
    }
    lemma_among_concat(gl, sg, srcs);
    lemma_among_concat(gl + sg, tv, srcs);
    lemma_among_concat(gl + sg + tv, tg, srcs);
}

/// The severity each scanner gives its findings: secrets and unsafe
/// models are critical, SQL style is medium, the rest high.
pub open spec fn source_severity(src: ScannerSource) -> Severity {
    match src {
        ScannerSource::Gitleaks => Severity::Critical,
        ScannerSource::Trufflehog => Severity::Critical,
        ScannerSource::Modelscan => Severity::Critical,
        ScannerSource::Sqlfluff => Severity::Medium,
        _ => Severity::High,
    }
}

/// The identifier prefix each scanner gives its findings.
pub open spec fn source_prefix(src: ScannerSource) -> Seq<char> {
    match src {
        ScannerSource::Gitleaks => "GITLEAKS"@,
        ScannerSource::Semgrep => "SEMGREP"@,
        ScannerSource::Trivy => "TRIVY"@,
        ScannerSource::Actionlint => "ACTIONLINT"@,
        ScannerSource::Checkov => "CHECKOV"@,
        ScannerSource::Trufflehog => "TRUFFLEHOG"@,
        ScannerSource::Modelscan => "MODELSCAN"@,
        ScannerSource::Sqlfluff => "SQLFLUFF"@,
        _ => seq![],
    }
}

/// Whether a template follows its source: fixable exactly when it carries
/// a patch, with its source's severity and identifier prefix.
pub open spec fn follows_source(t: FindingView) -> bool {
    &&& t.fixable == (t.suggested_patch is Some)
    &&& t.severity == source_severity(t.source)
    &&& t.id == source_prefix(t.source)
}

/// Whether every template in `ts` follows its source.
pub open spec fn all_follow(ts: Seq<FindingView>) -> bool {
    forall|k: int| 0 <= k < ts.len() ==> follows_source(#[trigger] ts[k])
}

proof fn lemma_follow_concat(a: Seq<FindingView>, b: Seq<FindingView>)
    requires
        all_follow(a),
        all_follow(b),
    ensures
        all_follow(a + b),
{
    assert forall|k: int| 0 <= k < (a + b).len() implies follows_source(#[trigger] (a + b)[k]) by {
        if k < a.len() {
            assert((a + b)[k] == a[k]);
        } else {
            assert((a + b)[k] == b[k - a.len()]);
        }
    }
}

proof fn lemma_follow_push(a: Seq<FindingView>, t: FindingView)
    requires
        all_follow(a),
        follows_source(t),
    ensures
        all_follow(a.push(t)),
{
    assert forall|k: int| 0 <= k < a.push(t).len() implies follows_source(#[trigger] a.push(t)[k]) by {
        if k < a.len() {
            assert(a.push(t)[k] == a[k]);
        }
    }
}

proof fn lemma_gitleaks_follow(items: Seq<Json>)
    ensures
        all_follow(gitleaks_templates(items)),
    decreases items.len(),
{
    if items.len() > 0 {
        lemma_gitleaks_follow(items.drop_last());
        if gitleaks_keeps(items.last()) {
            lemma_follow_push(gitleaks_templates(items.drop_last()), gitleaks_template(items.last()));
        }
    }
}

proof fn lemma_semgrep_follow(items: Seq<Json>)
    ensures
        all_follow(semgrep_templates(items)),
    decreases items.len(),
{
    if items.len() > 0 {
        lemma_semgrep_follow(items.drop_last());
        if !excluded_path(semgrep_template(items.last()).file_path) {
            lemma_follow_push(semgrep_templates(items.drop_last()), semgrep_template(items.last()));
        }
    }
}

proof fn lemma_trivy_follow(groups: Seq<Json>)
    ensures
        all_follow(trivy_templates(groups)),
    decreases groups.len(),
{
    if groups.len() > 0 {
        lemma_trivy_follow(groups.drop_last());
        let g = groups.last();
        let tail = if excluded_path(trivy_target(g)) {
            seq![]
        } else {
            trivy_group_templates(g)
        };
        assert(all_follow(tail));
        lemma_follow_concat(trivy_templates(groups.drop_last()), tail);
    }
}

proof fn lemma_trufflehog_follow(lines: Seq<Option<Json>>)
    ensures
        all_follow(trufflehog_templates(lines)),
    decreases lines.len(),
{
    if lines.len() > 0 {
        lemma_trufflehog_follow(lines.drop_last());
        match lines.last() {
            Some(item) => lemma_follow_push(
                trufflehog_templates(lines.drop_last()),
                trufflehog_template(item),
            ),
            None => {},
        }
    }
}

proof fn lemma_sqlfluff_follow(entries: Seq<Json>)
    ensures
        all_follow(sqlfluff_templates(entries)),
    decreases entries.len(),
{
    if entries.len() > 0 {
        lemma_sqlfluff_follow(entries.drop_last());
        assert(all_follow(sqlfluff_entry_templates(entries.last())));
        lemma_follow_concat(
            sqlfluff_templates(entries.drop_last()),
            sqlfluff_entry_templates(entries.last()),
        );
    }
}

/// Every finding of an audit follows its source: it is fixable exactly
/// when it carries a suggested patch, and it has its scanner's severity
/// and identifier prefix.
pub proof fn lemma_findings_follow_source(p: Persona, o: ScanOutputs, files: Seq<Seq<char>>)
    ensures
        all_follow(persona_templates(p, o, files)),
{
    let gl = gitleaks_report_templates(out_report(o.gitleaks));
    let sg = semgrep_report_templates(out_report(o.semgrep));
    let tv = trivy_report_templates(out_report(o.trivy));
    let tg = targeted_templates(p, o, files);
    lemma_gitleaks_follow(items_or_empty(report_doc(out_report(o.gitleaks))));
    match report_doc(out_report(o.semgrep)) {
        Some(j) => lemma_semgrep_follow(member_items(j, "results"@)),
        None => {},
    }
    match report_doc(out_report(o.trivy)) {
        Some(j) => lemma_trivy_follow(member_items(j, "Results"@)),
        None => {},
    }
    if persona_triggered(p, files) {
        match p {
            Persona::DevOpsPlatform => {
                let a = actionlint_report_templates(out_report(o.actionlint));
                let c = checkov_report_templates(out_report(o.checkov));
                assert(all_follow(a));
                assert(all_follow(c));
                lemma_follow_concat(a, c);
            },
            Persona::RedTeamCybersecurity => lemma_trufflehog_follow(trufflehog_lines(vec_bytes(o.trufflehog))),
            Persona::AiMlEngineer => {
                assert(all_follow(tg));
            },
            Persona::DatabaseEngineer => lemma_sqlfluff_follow(items_or_empty(report_doc(out_report(o.sqlfluff)))),
            _ => {},
        }
    }
    lemma_follow_concat(gl, sg);
    lemma_follow_concat(gl + sg, tv);
    lemma_follow_concat(gl + sg + tv, tg);
}

impl ScannerEngine {
    /// Whether one of `persona`'s file triggers fires for a target holding
    /// the files `target_files` (relative, `/`-separated paths).
    pub fn persona_is_triggered(persona: &Persona, target_files: &Vec<String>) -> (r: bool)
        ensures
            r == persona_triggered(*persona, views(target_files@)),
    {
        let triggers = persona.file_triggers();
        let ghost trigs = persona_file_triggers(*persona);
        let ghost files = views(target_files@);
        let mut j: usize = 0;
        while j < triggers.len()
            invariant
                j <= triggers.len(),
                str_views(triggers@) == trigs,
                trigs == persona_file_triggers(*persona),
                files == views(target_files@),
                forall|k: int| 0 <= k < j ==> !trigger_fires(#[trigger] trigs[k], files),
            decreases triggers.len() - j,
        {
            let t = triggers[j];
            assert(trigs[j as int] == t@);
            if str_eq(t, "*") {
                assert(trigger_fires(trigs[j as int], files));
                return true;
            }
            let mut i: usize = 0;
            while i < target_files.len()
                invariant
                    i <= target_files.len(),
                    j < triggers.len(),
                    str_views(triggers@) == trigs,
                    trigs == persona_file_triggers(*persona),
                    trigs[j as int] == t@,
                    files == views(target_files@),
                    forall|k: int| 0 <= k < j ==> !trigger_fires(#[trigger] trigs[k], files),
                    forall|m: int| 0 <= m < i ==> !has_infix(#[trigger] files[m], t@),
                decreases target_files.len() - i,
            {
                if str_contains(target_files[i].as_str(), t) {
                    assert(has_infix(files[i as int], t@));
                    assert(trigger_fires(trigs[j as int], files));
                    return true;
                }
                i = i + 1;
            }
            assert(!trigger_fires(trigs[j as int], files));
            j = j + 1;
        }
        false
    }

    /// Whether the target holding `target_files` has GitHub Actions workflows.
    pub fn has_workflow_files(target_files: &Vec<String>) -> (r: bool)
        ensures
            r == has_workflows(views(target_files@)),
    {
        let ghost files = views(target_files@);
        let mut i: usize = 0;
        while i < target_files.len()
            invariant
                i <= target_files.len(),
                files == views(target_files@),
                forall|m: int| 0 <= m < i ==> !has_prefix(#[trigger] files[m], ".github/workflows/"@),
            decreases target_files.len() - i,
        {
            if str_starts_with(target_files[i].as_str(), ".github/workflows/") {
                assert(has_prefix(files[i as int], ".github/workflows/"@));
                return true;
            }
            i = i + 1;
        }
        false
    }

    /// The scanners an audit with `persona` of a target holding
    /// `target_files` runs, in the order it runs them.
    pub fn scanners_for_persona(persona: &Persona, target_files: &Vec<String>) -> (r: Vec<
        ScannerSource,
    >)
        ensures
            r@ == persona_scanners(*persona, views(target_files@)),
    {
        let mut r = vec![ScannerSource::Gitleaks, ScannerSource::Semgrep, ScannerSource::Trivy];
        if Self::persona_is_triggered(persona, target_files) {
            match persona {
                Persona::DevOpsPlatform => {
                    if Self::has_workflow_files(target_files) {
                        r.push(ScannerSource::Actionlint);
                    }
                    r.push(ScannerSource::Checkov);
                },
                Persona::RedTeamCybersecurity => r.push(ScannerSource::Trufflehog),
                Persona::AiMlEngineer => r.push(ScannerSource::Modelscan),
                Persona::DatabaseEngineer => r.push(ScannerSource::Sqlfluff),
                _ => {},
            }
        }
        assert(r@ =~= persona_scanners(*persona, views(target_files@)));
        r
    }

    /// Targeted runner coordinator: the foundation scanners' findings, then,
    /// when one of the persona's file triggers fires for the target, those
    /// of its targeted scanners (actionlint when there are workflows and
    /// Checkov for DevOps, TruffleHog for the red team, modelscan for AI/ML,
    /// sqlfluff for databases). Every finding comes from a scanner the
    /// audit runs.
    pub fn scan_for_persona(
        persona: &Persona,
        target_files: &Vec<String>,
        outputs: &ScanOutputs,
    ) -> (r: Vec<UnifiedFinding>)
        ensures
            findings_match(r@, persona_templates(*persona, *outputs, views(target_files@))),
            forall|k: int|
                0 <= k < r@.len() ==> persona_scanners(*persona, views(target_files@)).contains(
                    (#[trigger] r@[k])@.source,
                ),
            forall|k: int|
                0 <= k < r@.len() ==> {
                    let f = (#[trigger] r@[k])@;
                    &&& f.fixable == (f.suggested_patch is Some)
                    &&& f.severity == source_severity(f.source)
                    &&& is_finding_id(f.id, source_prefix(f.source))
                },
    {
        let ghost o = *outputs;
        let ghost files = views(target_files@);
        let mut results = Self::scan_gitleaks_output(output_bytes(&outputs.gitleaks));
        let mut more = Self::scan_semgrep_output(output_bytes(&outputs.semgrep));
        proof {
            lemma_findings_match_concat(
                results@,
                gitleaks_report_templates(out_report(o.gitleaks)),
                more@,
                semgrep_report_templates(out_report(o.semgrep)),
            );
        }
        results.append(&mut more);
        let mut more = Self::scan_trivy_output(output_bytes(&outputs.trivy));
        proof {
            lemma_findings_match_concat(
                results@,
                gitleaks_report_templates(out_report(o.gitleaks)) + semgrep_report_templates(out_report(o.semgrep)),
                more@,
                trivy_report_templates(out_report(o.trivy)),
            );
        }
        results.append(&mut more);
        let triggered = Self::persona_is_triggered(persona, target_files);
        let mut more: Vec<UnifiedFinding> = if !triggered {
            Vec::new()
        } else {
            match persona {
                Persona::DevOpsPlatform => {
                    let mut c = Self::scan_checkov_output(output_bytes(&outputs.checkov));
                    if Self::has_workflow_files(target_files) {
                        let mut a = Self::scan_actionlint_output(output_bytes(&outputs.actionlint));
                        proof {
                            lemma_findings_match_concat(
                                a@,
                                actionlint_report_templates(out_report(o.actionlint)),
                                c@,
                                checkov_report_templates(out_report(o.checkov)),
                            );
                        }
                        a.append(&mut c);
                        a
                    } else {
                        c
                    }
                },
                Persona::RedTeamCybersecurity => Self::scan_trufflehog_output(output_bytes(&outputs.trufflehog)),
                Persona::AiMlEngineer => Self::scan_modelscan_output(output_bytes(&outputs.modelscan)),
                Persona::DatabaseEngineer => Self::scan_sqlfluff_output(output_bytes(&outputs.sqlfluff)),
                _ => Vec::new(),
            }
        };
        proof {
            lemma_findings_match_concat(
                results@,
                gitleaks_report_templates(out_report(o.gitleaks)) + semgrep_report_templates(out_report(o.semgrep))
                    + trivy_report_templates(out_report(o.trivy)),
                more@,
                targeted_templates(*persona, o, files),
            );
        }
        results.append(&mut more);
        proof {
            let ts = persona_templates(*persona, o, files);
            lemma_findings_come_from_persona_scanners(*persona, o, files);
            lemma_findings_follow_source(*persona, o, files);
            assert forall|k: int| 0 <= k < results@.len() implies {
                let f = (#[trigger] results@[k])@;
                &&& f.fixable == (f.suggested_patch is Some)
                &&& f.severity == source_severity(f.source)
                &&& is_finding_id(f.id, source_prefix(f.source))
            } by {
                assert(matches_template(results@[k]@, ts[k]));
                assert(follows_source(ts[k]));
            }
            assert forall|k: int| 0 <= k < results@.len() implies persona_scanners(
                *persona,
                files,
            ).contains((#[trigger] results@[k])@.source) by {
                assert(matches_template(results@[k]@, ts[k]));
                assert(results@[k]@.source == ts[k].source);
            }
        }
        results
    }
}

/// Where the tool's own copy of `tool` lives: `~/.code-warden/bin/<tool>`,
/// with `.exe` on Windows.
pub open spec fn managed_tool(home: Seq<char>, tool: Seq<char>, windows: bool) -> Seq<char> {
    path_join(
        path_join(path_join(home, ".code-warden"@, windows), "bin"@, windows),
        binary_name(tool, windows),
        windows,
    )
}

/// The managed Python environment: `~/.code-warden/engines/venv`.
pub open spec fn managed_venv(home: Seq<char>, windows: bool) -> Seq<char> {
    path_join(
        path_join(path_join(home, ".code-warden"@, windows), "engines"@, windows),
        "venv"@,
        windows,
    )
}

/// Where the managed Python environment's copy of `tool` lives: in the
/// environment's executables directory (`Scripts` on Windows, `bin`
/// elsewhere), with `.exe` on Windows.
pub open spec fn venv_tool(home: Seq<char>, tool: Seq<char>, windows: bool) -> Seq<char> {
    path_join(venv_bin_dir(managed_venv(home, windows), windows), binary_name(tool, windows), windows)
}

/// The program run for `tool`: the managed copy when it exists, else the
/// managed environment's copy when that exists, else `tool` (with `.exe`
/// on Windows) as found on the search path.
pub open spec fn tool_bin(
    tool: Seq<char>,
    managed: Seq<char>,
    managed_exists: bool,
    venv: Seq<char>,
    venv_exists: bool,
    windows: bool,
) -> Seq<char> {
    if managed_exists {
        managed
    } else if venv_exists {
        venv
    } else {
        binary_name(tool, windows)
    }
}

impl ScannerEngine {
    /// The managed copy of `tool_name` under the home directory `home`.
    pub fn managed_tool_path(home: &str, tool_name: &str, windows: bool) -> (r: String)
        ensures
            r@ == managed_tool(home@, tool_name@, windows),
    {
        let a = join_path(home, ".code-warden", windows);
        let b = join_path(a.as_str(), "bin", windows);
        let exe = resolve_binary_name(tool_name, windows);
        join_path(b.as_str(), exe.as_str(), windows)
    }

    /// The managed environment's copy of `tool_name` under `home`.
    pub fn venv_tool_path(home: &str, tool_name: &str, windows: bool) -> (r: String)
        ensures
            r@ == venv_tool(home@, tool_name@, windows),
    {
        let a = join_path(home, ".code-warden", windows);
        let b = join_path(a.as_str(), "engines", windows);
        let c = join_path(b.as_str(), "venv", windows);
        let d = get_venv_bin_dir(c.as_str(), windows);
        let exe = resolve_binary_name(tool_name, windows);
        join_path(d.as_str(), exe.as_str(), windows)
    }

    /// The program to run for `tool_name`, given its managed and managed
    /// environment copies and whether each exists.
    pub fn resolve_tool_bin(
        tool_name: &str,
        managed: &str,
        managed_exists: bool,
        venv: &str,
        venv_exists: bool,
        windows: bool,
    ) -> (r: String)
        ensures
            r@ == tool_bin(tool_name@, managed@, managed_exists, venv@, venv_exists, windows),
    {
        if managed_exists {
            String::from_str(managed)
        } else if venv_exists {
            String::from_str(venv)
        } else {
            resolve_binary_name(tool_name, windows)
        }
    }
}

} // verus!
