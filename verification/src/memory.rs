//! Persistent audit memory: the state kept between audits, how an audit
//! updates it, the context it gives the model and the session history text.
use vstd::prelude::*;
use crate::models::UnifiedFinding;
use crate::text::{decimal, decimal_string, join, join_path, join_strings, path_join, views};

verus! {

/// The memory kept between audits: rule ids resolved by earlier fixes, rule
/// ids known to be false positives, and the number of audits run. Each list
/// is a set: no rule id occurs twice in it.
#[derive(Debug, Clone)]
pub struct MemoryState {
    pub resolved_rule_ids: Vec<String>,
    pub ignored_rule_ids: Vec<String>,
    pub total_audits: usize,
}

/// `s` with `x` added unless it is there already.
pub open spec fn insert_once(s: Seq<Seq<char>>, x: Seq<char>) -> Seq<Seq<char>> {
    if s.contains(x) {
        s
    } else {
        s.push(x)
    }
}

/// `s` with each of `xs` added in turn unless it is there already.
pub open spec fn insert_all(s: Seq<Seq<char>>, xs: Seq<Seq<char>>) -> Seq<Seq<char>>
    decreases xs.len(),
{
    if xs.len() == 0 {
        s
    } else {
        insert_once(insert_all(s, xs.drop_last()), xs.last())
    }
}

/// The rule ids of the fixable findings among `fs`, in order.
pub open spec fn fixable_rule_ids(fs: Seq<UnifiedFinding>) -> Seq<Seq<char>>
    decreases fs.len(),
{
    if fs.len() == 0 {
        seq![]
    } else if fs.last().fixable {
        fixable_rule_ids(fs.drop_last()).push(fs.last().rule_id@)
    } else {
        fixable_rule_ids(fs.drop_last())
    }
}

/// Adding each of `xs` keeps a list free of repeats and yields the union.
pub proof fn lemma_insert_all(s: Seq<Seq<char>>, xs: Seq<Seq<char>>)
    requires
        s.no_duplicates(),
    ensures
        insert_all(s, xs).no_duplicates(),
        insert_all(s, xs).to_set() == s.to_set().union(xs.to_set()),
        insert_all(s, xs).take(s.len() as int) == s,
        s.len() <= insert_all(s, xs).len(),
    decreases xs.len(),
{
    if xs.len() > 0 {
        let pre = insert_all(s, xs.drop_last());
        lemma_insert_all(s, xs.drop_last());
        let x = xs.last();
        if !pre.contains(x) {
            assert forall|i: int, j: int|
                0 <= i < pre.push(x).len() && 0 <= j < pre.push(x).len() && i != j implies
                pre.push(x)[i] != pre.push(x)[j] by {
                if i < pre.len() && j < pre.len() {
                    assert(pre.push(x)[i] == pre[i] && pre.push(x)[j] == pre[j]);
                } else if i < pre.len() {
                    assert(pre.push(x)[i] == pre[i]);
                } else if j < pre.len() {
                    assert(pre.push(x)[j] == pre[j]);
                }
            }
            assert(pre.push(x).to_set() =~= pre.to_set().insert(x)) by {
                assert forall|y| pre.push(x).to_set().contains(y) <==> pre.to_set().insert(
                    x,
                ).contains(y) by {
                    if pre.push(x).contains(y) && y != x {
                        let i = choose|i: int| 0 <= i < pre.push(x).len() && pre.push(x)[i] == y;
                        assert(i < pre.len());
                        assert(pre[i] == y);
                    }
                    if pre.contains(y) {
                        let i = choose|i: int| 0 <= i < pre.len() && pre[i] == y;
                        assert(pre.push(x)[i] == y);
                    }
                    if y == x {
                        assert(pre.push(x)[pre.len() as int] == x);
                    }
                }
            }
            assert(pre.push(x).take(s.len() as int) =~= pre.take(s.len() as int));
        } else {
            assert(pre.to_set().contains(x));
        }
        assert(xs.to_set() =~= xs.drop_last().to_set().insert(x)) by {
            assert forall|y| xs.to_set().contains(y) <==> xs.drop_last().to_set().insert(
                x,
            ).contains(y) by {
                if xs.contains(y) && y != x {
                    let i = choose|i: int| 0 <= i < xs.len() && xs[i] == y;
                    assert(i < xs.len() - 1);
                    assert(xs.drop_last()[i] == y);
                }
                if xs.drop_last().contains(y) {
                    let i = choose|i: int| 0 <= i < xs.drop_last().len() && xs.drop_last()[i] == y;
                    assert(xs[i] == y);
                }
                if y == x {
                    assert(xs[xs.len() - 1] == x);
                }
            }
        }
        assert(insert_all(s, xs).to_set() =~= s.to_set().union(xs.to_set()));
    }
}

impl MemoryState {
    /// No rule id occurs twice in either list.
    pub open spec fn wf(self) -> bool {
        views(self.resolved_rule_ids@).no_duplicates() && views(
            self.ignored_rule_ids@,
        ).no_duplicates()
    }

    /// The empty memory of a project never audited.
    pub fn new() -> (r: MemoryState)
        ensures
            r.resolved_rule_ids@.len() == 0,
            r.ignored_rule_ids@.len() == 0,
            r.total_audits == 0,
            r.wf(),
    {
        let r = MemoryState { resolved_rule_ids: Vec::new(), ignored_rule_ids: Vec::new(), total_audits: 0 };
        assert(views(r.resolved_rule_ids@) =~= seq![]);
        assert(views(r.ignored_rule_ids@) =~= seq![]);
        r
    }

    /// Whether `rule_id` is among the resolved rule ids.
    pub fn is_resolved(&self, rule_id: &String) -> (r: bool)
        ensures
            r == views(self.resolved_rule_ids@).contains(rule_id@),
    {
        let mut i: usize = 0;
        while i < self.resolved_rule_ids.len()
            invariant
                i <= self.resolved_rule_ids.len(),
                forall|j: int| 0 <= j < i ==> self.resolved_rule_ids@[j]@ != rule_id@,
            decreases self.resolved_rule_ids.len() - i,
        {
            if self.resolved_rule_ids[i].eq(rule_id) {
                assert(views(self.resolved_rule_ids@)[i as int] == rule_id@);
                return true;
            }
            i = i + 1;
        }
        assert forall|j: int| 0 <= j < views(self.resolved_rule_ids@).len() implies views(
            self.resolved_rule_ids@,
        )[j] != rule_id@ by {
            assert(views(self.resolved_rule_ids@)[j] == self.resolved_rule_ids@[j]@);
        }
        false
    }

    /// Adds `rule_id` to the resolved rule ids unless it is there already;
    /// returns whether it was added.
    pub fn insert_resolved(&mut self, rule_id: String) -> (added: bool)
        ensures
            views(final(self).resolved_rule_ids@) == insert_once(
                views(old(self).resolved_rule_ids@),
                rule_id@,
            ),
            added == !views(old(self).resolved_rule_ids@).contains(rule_id@),
            final(self).ignored_rule_ids@ == old(self).ignored_rule_ids@,
            final(self).total_audits == old(self).total_audits,
    {
        if self.is_resolved(&rule_id) {
            false
        } else {
            let ghost before = self.resolved_rule_ids@;
            self.resolved_rule_ids.push(rule_id);
            assert(views(self.resolved_rule_ids@) =~= views(before).push(rule_id@));
            true
        }
    }

    /// Records one completed audit of `findings`: the audit count goes up by
    /// one and, when fixes were applied, the rule ids of the fixable
    /// findings join the resolved ones. The false positives stay as they are.
    pub fn record_audit(&mut self, findings: &Vec<UnifiedFinding>, fixes_applied: bool)
        requires
            old(self).total_audits < usize::MAX,
        ensures
            final(self).total_audits == old(self).total_audits + 1,
            final(self).ignored_rule_ids@ == old(self).ignored_rule_ids@,
            views(final(self).resolved_rule_ids@) == if fixes_applied {
                insert_all(views(old(self).resolved_rule_ids@), fixable_rule_ids(findings@))
            } else {
                views(old(self).resolved_rule_ids@)
            },
            old(self).wf() ==> final(self).wf(),
            old(self).wf() ==> views(final(self).resolved_rule_ids@).to_set() == if fixes_applied {
                views(old(self).resolved_rule_ids@).to_set().union(
                    fixable_rule_ids(findings@).to_set(),
                )
            } else {
                views(old(self).resolved_rule_ids@).to_set()
            },
    {
        proof {
            if old(self).wf() {
                lemma_insert_all(views(old(self).resolved_rule_ids@), fixable_rule_ids(findings@));
            }
        }
        self.total_audits = self.total_audits + 1;
        if fixes_applied {
            let ghost start = views(self.resolved_rule_ids@);
            let mut i: usize = 0;
            while i < findings.len()
                invariant
                    i <= findings.len(),
                    views(self.resolved_rule_ids@) == insert_all(
                        start,
                        fixable_rule_ids(findings@.take(i as int)),
                    ),
                    self.ignored_rule_ids@ == old(self).ignored_rule_ids@,
                    self.total_audits == old(self).total_audits + 1,
                    start == views(old(self).resolved_rule_ids@),
                decreases findings.len() - i,
            {
                assert(findings@.take(i + 1).drop_last() =~= findings@.take(i as int));
                assert(findings@.take(i + 1).last() == findings@[i as int]);
                let ghost xs = fixable_rule_ids(findings@.take(i as int));
                if findings[i].fixable {
                    let id = findings[i].rule_id.clone();
                    assert(xs.push(id@).drop_last() =~= xs);
                    self.insert_resolved(id);
                }
                i = i + 1;
            }
            assert(findings@.take(findings.len() as int) =~= findings@);
        }
    }
}

impl Default for MemoryState {
    /// The empty memory of a project never audited.
    fn default() -> (r: MemoryState)
        ensures
            r.resolved_rule_ids@.len() == 0,
            r.ignored_rule_ids@.len() == 0,
            r.total_audits == 0,
            r.wf(),
    {
        MemoryState::new()
    }
}

/// The memory context that grounds the model: a baseline notice for a
/// project with no audits and nothing resolved; otherwise the number of
/// audits, then the resolved rule ids and the known false positives when
/// there are any, one item per line.
pub open spec fn memory_context(state: MemoryState) -> Seq<char> {
    if state.total_audits == 0 && state.resolved_rule_ids@.len() == 0 {
        "No previous audit memory available. This is a baseline scan."@
    } else {
        let first = seq!["Historical Audits Completed: "@ + decimal(state.total_audits as nat)];
        let with_resolved = if state.resolved_rule_ids@.len() > 0 {
            first.push(
                "Previously Resolved Issues: "@ + join(views(state.resolved_rule_ids@), ", "@),
            )
        } else {
            first
        };
        let all = if state.ignored_rule_ids@.len() > 0 {
            with_resolved.push(
                "Known Ignored False Positives: "@ + join(views(state.ignored_rule_ids@), ", "@),
            )
        } else {
            with_resolved
        };
        join(all, "\n"@)
    }
}

/// The history entry of one session: when, which persona, what was
/// detected and which remediations were applied (or that none were).
pub open spec fn session_entry(
    timestamp: Seq<char>,
    persona: Seq<char>,
    issues_summary: Seq<char>,
    fixes: Seq<Seq<char>>,
) -> Seq<char> {
    "### Session: "@ + timestamp + "\n- **Persona:** "@ + persona + "\n- **Detected:** "@
        + issues_summary + "\n"@ + if fixes.len() == 0 {
        "- **Remediations:** None (Report Only)\n"@
    } else {
        "- **Remediations:**\n"@ + fix_lines(fixes)
    } + "\n---\n\n"@
}

/// One `  - fix` line per applied remediation.
pub open spec fn fix_lines(fixes: Seq<Seq<char>>) -> Seq<char>
    decreases fixes.len(),
{
    if fixes.len() == 0 {
        seq![]
    } else {
        fix_lines(fixes.drop_last()) + "  - "@ + fixes.last() + "\n"@
    }
}

/// Where a project's memory lives: `.code-warden/memory` under the audited
/// directory, with the session history and the state beside each other.
#[derive(Debug)]
pub struct MemoryManager {
    memory_dir: String,
    history_file: String,
    state_file: String,
}

impl MemoryManager {
    /// The memory directory.
    pub closed spec fn spec_memory_dir(&self) -> Seq<char> {
        self.memory_dir@
    }

    /// The session history file.
    pub closed spec fn spec_history_file(&self) -> Seq<char> {
        self.history_file@
    }

    /// The memory state file.
    pub closed spec fn spec_state_file(&self) -> Seq<char> {
        self.state_file@
    }

    /// The memory layout of the audited directory `target`, with the path
    /// separators of Windows when `windows` holds.
    pub fn new(target: &str, windows: bool) -> (r: MemoryManager)
        ensures
            r.spec_memory_dir() == path_join(
                path_join(target@, ".code-warden"@, windows),
                "memory"@,
                windows,
            ),
            r.spec_history_file() == path_join(r.spec_memory_dir(), "session_history.md"@, windows),
            r.spec_state_file() == path_join(r.spec_memory_dir(), "memory_state.json"@, windows),
    {
        proof {
            reveal_strlit(".code-warden");
            reveal_strlit("memory");
            reveal_strlit("session_history.md");
            reveal_strlit("memory_state.json");
        }
        let base = join_path(target, ".code-warden", windows);
        let memory_dir = join_path(base.as_str(), "memory", windows);
        let history_file = join_path(memory_dir.as_str(), "session_history.md", windows);
        let state_file = join_path(memory_dir.as_str(), "memory_state.json", windows);
        MemoryManager { memory_dir, history_file, state_file }
    }

    /// The memory directory.
    pub fn memory_dir(&self) -> (r: &str)
        ensures
            r@ == self.spec_memory_dir(),
    {
        self.memory_dir.as_str()
    }

    /// The session history file.
    pub fn history_file(&self) -> (r: &str)
        ensures
            r@ == self.spec_history_file(),
    {
        self.history_file.as_str()
    }

    /// The memory state file.
    pub fn state_file(&self) -> (r: &str)
        ensures
            r@ == self.spec_state_file(),
    {
        self.state_file.as_str()
    }

    /// The context string of previous memory that grounds the model, for the
    /// state loaded from this project's memory.
    pub fn build_memory_context(&self, state: &MemoryState) -> (r: String)
        ensures
            r@ == memory_context(*state),
    {
        if state.total_audits == 0 && state.resolved_rule_ids.len() == 0 {
            return String::from_str("No previous audit memory available. This is a baseline scan.");
        }
        let mut lines: Vec<String> = Vec::new();
        let mut first = String::from_str("Historical Audits Completed: ");
        let count = decimal_string(state.total_audits as u64);
        first.append(count.as_str());
        lines.push(first);
        let ghost l1 = views(lines@);
        if state.resolved_rule_ids.len() > 0 {
            let mut line = String::from_str("Previously Resolved Issues: ");
            let ids = join_strings(&state.resolved_rule_ids, ", ");
            line.append(ids.as_str());
            lines.push(line);
        }
        let ghost l2 = views(lines@);
        if state.ignored_rule_ids.len() > 0 {
            let mut line = String::from_str("Known Ignored False Positives: ");
            let ids = join_strings(&state.ignored_rule_ids, ", ");
            line.append(ids.as_str());
            lines.push(line);
        }
        proof {
            let first = seq!["Historical Audits Completed: "@ + decimal(state.total_audits as nat)];
            assert(l1 =~= first);
            let with_resolved = if state.resolved_rule_ids@.len() > 0 {
                first.push(
                    "Previously Resolved Issues: "@ + join(views(state.resolved_rule_ids@), ", "@),
                )
            } else {
                first
            };
            assert(l2 =~= with_resolved);
            let all = if state.ignored_rule_ids@.len() > 0 {
                with_resolved.push(
                    "Known Ignored False Positives: "@ + join(views(state.ignored_rule_ids@), ", "@),
                )
            } else {
                with_resolved
            };
            assert(views(lines@) =~= all);
        }
        join_strings(&lines, "\n")
    }

    /// The history entry recorded for a completed session.
    pub fn session_entry(timestamp: &str, persona: &str, issues_summary: &str, fixes_applied: &Vec<
        String,
    >) -> (r: String)
        ensures
            r@ == session_entry(timestamp@, persona@, issues_summary@, views(fixes_applied@)),
    {
        let mut r = String::from_str("### Session: ");
        r.append(timestamp);
        r.append("\n- **Persona:** ");
        r.append(persona);
        r.append("\n- **Detected:** ");
        r.append(issues_summary);
        r.append("\n");
            if fixes_applied.len() == 0 {
            r.append("- **Remediations:** None (Report Only)\n");
            assert(views(fixes_applied@).len() == 0);
        } else {
            r.append("- **Remediations:**\n");
            let ghost mid = r@;
            let mut i: usize = 0;
            while i < fixes_applied.len()
                invariant
                    i <= fixes_applied.len(),
                    r@ == mid + fix_lines(views(fixes_applied@).take(i as int)),
                decreases fixes_applied.len() - i,
            {
                r.append("  - ");
                r.append(fixes_applied[i].as_str());
                r.append("\n");
                proof {
                    let t = views(fixes_applied@).take(i + 1);
                    assert(t.drop_last() =~= views(fixes_applied@).take(i as int));
                    assert(t.last() == fixes_applied@[i as int]@);
                }
                i = i + 1;
            }
            assert(views(fixes_applied@).take(fixes_applied.len() as int) =~= views(fixes_applied@));
        }
        r.append("\n---\n\n");
        r
    }
}

} // verus!
