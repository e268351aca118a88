//! The audit run's own text: the diagnostics handed to the model, the
//! session summary and the report written at the end.
use vstd::prelude::*;
use crate::models::{severity_name, UnifiedFinding};
use crate::text::{decimal, decimal_string, join, join_strings, str_eq, views};

verus! {

/// Whether the `--action` option applies fixes (`fix` or `both`).
pub open spec fn applies_fixes(action: Seq<char>) -> bool {
    action == "fix"@ || action == "both"@
}

/// Whether the audit action `action` applies fixes.
pub fn action_applies_fixes(action: &str) -> (r: bool)
    ensures
        r == applies_fixes(action@),
{
    str_eq(action, "fix") || str_eq(action, "both")
}

/// The diagnostics line of a finding: `[Severity] rule: message (file:line)`.
pub open spec fn summary_line(f: UnifiedFinding) -> Seq<char> {
    "["@ + severity_name(f.severity) + "] "@ + f.rule_id@ + ": "@ + f.message@ + " ("@
        + f.file_path@ + ":"@ + decimal(f.line_start as nat) + ")"@
}

/// The diagnostics line of the finding `f`.
pub fn finding_summary_line(f: &UnifiedFinding) -> (r: String)
    ensures
        r@ == summary_line(*f),
{
    let mut r = String::from_str("[");
    r.append(f.severity.name());
    r.append("] ");
    r.append(f.rule_id.as_str());
    r.append(": ");
    r.append(f.message.as_str());
    r.append(" (");
    r.append(f.file_path.as_str());
    r.append(":");
    let line = decimal_string(f.line_start as u64);
    r.append(line.as_str());
    r.append(")");
    r
}

/// The diagnostics of an audit: one summary line per finding, or a notice
/// that the engines found nothing.
pub open spec fn diagnostics_text(fs: Seq<UnifiedFinding>) -> Seq<char> {
    if fs.len() == 0 {
        "No static violations detected by Tier 1 & 2 engines."@
    } else {
        join(fs.map_values(|f: UnifiedFinding| summary_line(f)), "\n"@)
    }
}

/// The diagnostics of the findings `findings`.
pub fn build_diagnostics(findings: &Vec<UnifiedFinding>) -> (r: String)
    ensures
        r@ == diagnostics_text(findings@),
{
    if findings.len() == 0 {
        return String::from_str("No static violations detected by Tier 1 & 2 engines.");
    }
    let mut lines: Vec<String> = Vec::new();
    let mut i: usize = 0;
    let ghost g = |f: UnifiedFinding| summary_line(f);
    while i < findings.len()
        invariant
            i <= findings.len(),
            g == (|f: UnifiedFinding| summary_line(f)),
            views(lines@) == findings@.take(i as int).map_values(g),
        decreases findings.len() - i,
    {
        let line = finding_summary_line(&findings[i]);
        let ghost before = lines@;
        lines.push(line);
        assert(views(lines@) =~= views(before).push(line@));
        assert(findings@.take(i + 1).map_values(g) =~= findings@.take(i as int).map_values(g).push(
            g(findings@[i as int]),
        ));
        i = i + 1;
    }
    assert(findings@.take(findings.len() as int) =~= findings@);
    join_strings(&lines, "\n")
}

/// The detection summary of a session: the number of findings.
pub fn findings_count_summary(count: usize) -> (r: String)
    ensures
        r@ == decimal(count as nat) + " findings"@,
{
    let mut r = decimal_string(count as u64);
    r.append(" findings");
    r
}

/// What stands in for the review when the model could not be reached.
pub fn review_bypassed(error: &str) -> (r: String)
    ensures
        r@ == "LLM review bypassed: "@ + error@,
{
    let mut r = String::from_str("LLM review bypassed: ");
    r.append(error);
    r
}

/// The audit report: date, persona, scanner findings and the review.
pub open spec fn audit_report(
    timestamp: Seq<char>,
    persona: Seq<char>,
    diagnostics: Seq<char>,
    review: Seq<char>,
) -> Seq<char> {
    "# Code-Warden Audit Report\n\n- **Date:** "@ + timestamp + "\n- **Persona:** "@ + persona
        + "\n\n## Scanner Findings\n"@ + diagnostics + "\n\n## Grounded Persona Review\n"@ + review
        + "\n"@
}

/// The audit report for the given date, persona name, diagnostics and review.
pub fn render_audit_report(timestamp: &str, persona: &str, diagnostics: &str, review: &str) -> (r:
    String)
    ensures
        r@ == audit_report(timestamp@, persona@, diagnostics@, review@),
{
    let mut r = String::from_str("# Code-Warden Audit Report\n\n- **Date:** ");
    r.append(timestamp);
    r.append("\n- **Persona:** ");
    r.append(persona);
    r.append("\n\n## Scanner Findings\n");
    r.append(diagnostics);
    r.append("\n\n## Grounded Persona Review\n");
    r.append(review);
    r.append("\n");
    r
}

} // verus!
