//! Finding identifiers and the templates that scanner readers fill in:
//! a template is a finding whose `id` holds only the identifier's prefix.
use vstd::prelude::*;
use crate::json::{json_str, json_u64, str_or, Json};
use crate::models::{opt_view, FindingView, UnifiedFinding};

verus! {

/// Whether `c` is a lowercase hexadecimal digit.
pub open spec fn is_lower_hex(c: char) -> bool {
    ('0' <= c && c <= '9') || ('a' <= c && c <= 'f')
}

/// Whether `u` is the hyphenated lowercase text of a version 4 UUID, as
/// `8-4-4-4-12` hexadecimal digits with the version digit `4`.
pub open spec fn is_uuid_v4_text(u: Seq<char>) -> bool {
    &&& u.len() == 36
    &&& forall|i: int|
        0 <= i < 36 ==> if i == 8 || i == 13 || i == 18 || i == 23 {
            u[i] == '-'
        } else {
            is_lower_hex(#[trigger] u[i])
        }
    &&& u[14] == '4'
    &&& (u[19] == '8' || u[19] == '9' || u[19] == 'a' || u[19] == 'b')
}

/// `uuid::Uuid::new_v4().to_string()`: a fresh random version 4 UUID in
/// its hyphenated lowercase form. Which UUID comes back is chance; its
/// shape is what `Uuid`'s `Display` (via `format_hyphenated`) and
/// `new_v4`'s version and variant masks give.
#[verifier::external_body]
fn uuid_v4_text() -> (r: String)
    ensures
        is_uuid_v4_text(r@),
{
    uuid::Uuid::new_v4().to_string()
}

/// Whether `id` is `prefix`, a hyphen and a version 4 UUID.
pub open spec fn is_finding_id(id: Seq<char>, prefix: Seq<char>) -> bool {
    &&& id.len() == prefix.len() + 37
    &&& id.take(prefix.len() as int) == prefix
    &&& id[prefix.len() as int] == '-'
    &&& is_uuid_v4_text(id.skip(prefix.len() + 1int))
}

/// A fresh finding identifier `<prefix>-<uuid>`, as the scanners'
/// `format!("{PREFIX}-{}", Uuid::new_v4())` makes it.
pub fn new_finding_id(prefix: &str) -> (r: String)
    ensures
        is_finding_id(r@, prefix@),
{
    let u = uuid_v4_text();
    let mut r = String::from_str(prefix);
    r.append("-");
    proof {
        reveal_strlit("-");
    }
    r.append(u.as_str());
    assert(r@.take(prefix@.len() as int) =~= prefix@);
    assert(r@.skip(prefix@.len() + 1int) =~= u@);
    r
}

/// The template `t` with the identifier `id`.
pub open spec fn with_id(t: FindingView, id: Seq<char>) -> FindingView {
    FindingView {
        id,
        source: t.source,
        rule_id: t.rule_id,
        severity: t.severity,
        message: t.message,
        file_path: t.file_path,
        line_start: t.line_start,
        line_end: t.line_end,
        matched_content: t.matched_content,
        fixable: t.fixable,
        suggested_patch: t.suggested_patch,
    }
}

/// Whether `f` is the template `t` under a fresh identifier with `t`'s prefix.
pub open spec fn matches_template(f: FindingView, t: FindingView) -> bool {
    f == with_id(t, f.id) && is_finding_id(f.id, t.id)
}

/// Whether the findings `fs` are the templates `ts`, one for one and in order.
pub open spec fn findings_match(fs: Seq<UnifiedFinding>, ts: Seq<FindingView>) -> bool {
    fs.len() == ts.len() && forall|k: int| 0 <= k < fs.len() ==> matches_template(
        #[trigger] fs[k]@,
        ts[k],
    )
}

/// Matching findings can be put side by side.
pub proof fn lemma_findings_match_concat(
    a: Seq<UnifiedFinding>,
    ta: Seq<FindingView>,
    b: Seq<UnifiedFinding>,
    tb: Seq<FindingView>,
)
    requires
        findings_match(a, ta),
        findings_match(b, tb),
    ensures
        findings_match(a + b, ta + tb),
{
    assert forall|k: int| 0 <= k < (a + b).len() implies matches_template(
        #[trigger] (a + b)[k]@,
        (ta + tb)[k],
    ) by {
        if k < a.len() {
            assert((a + b)[k] == a[k]);
        } else {
            assert((a + b)[k] == b[k - a.len()]);
        }
    }
}

/// The text of a string value, or `default`.
pub fn text_or(j: &Json, default: &str) -> (r: String)
    ensures
        r@ == str_or(*j, default@),
{
    match j.as_str() {
        Some(s) => String::from_str(s),
        None => String::from_str(default),
    }
}

/// The text of a string value, owned.
pub fn opt_text(j: &Json) -> (r: Option<String>)
    ensures
        opt_view(r) == json_str(*j),
{
    match j.as_str() {
        Some(s) => Some(String::from_str(s)),
        None => None,
    }
}

/// The value of a non-negative integer, or `default`.
pub open spec fn u64_or(j: Json, default: u64) -> u64 {
    match json_u64(j) {
        Some(n) => n,
        None => default,
    }
}

/// A line number as `as_u64().map(|l| l as usize)` gives it.
pub open spec fn opt_line(j: Json) -> Option<usize> {
    match json_u64(j) {
        Some(n) => Some(n as usize),
        None => None,
    }
}

/// A line number read as `as_u64().unwrap_or(default) as usize`.
pub fn line_or(j: &Json, default: u64) -> (r: usize)
    ensures
        r == u64_or(*j, default) as usize,
{
    match j.as_u64() {
        Some(n) => n as usize,
        None => default as usize,
    }
}

/// A line number read as `as_u64().map(|l| l as usize)`.
pub fn opt_line_of(j: &Json) -> (r: Option<usize>)
    ensures
        r == opt_line(*j),
{
    match j.as_u64() {
        Some(n) => Some(n as usize),
        None => None,
    }
}

} // verus!
