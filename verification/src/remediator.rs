//! Deterministic remediation: which auto-fixers run over a target, and the
//! branch a fix is made on.
use vstd::prelude::*;
use crate::text::views;

verus! {

/// The deterministic fixer runner.
pub struct Remediator;

/// A program to run in the target directory, with its arguments.
#[derive(Debug)]
pub struct FixCommand {
    pub program: String,
    pub args: Vec<String>,
}

/// The program and arguments of a command.
pub open spec fn command_view(c: FixCommand) -> (Seq<char>, Seq<Seq<char>>) {
    (c.program@, views(c.args@))
}

/// The fixers run over a target: `cargo fix` for a Cargo project, then
/// `ruff` and `biome` always.
pub open spec fn fix_plan(has_cargo_manifest: bool) -> Seq<(Seq<char>, Seq<Seq<char>>)> {
    let cargo = seq![("cargo"@, seq!["fix"@, "--allow-no-vcs"@, "--broken-code"@])];
    let rest = seq![
        ("ruff"@, seq!["check"@, "--fix"@, "."@]),
        ("biome"@, seq!["check"@, "--write"@, "."@]),
    ];
    if has_cargo_manifest {
        cargo + rest
    } else {
        rest
    }
}

fn command(program: &str, a: &str, b: &str, c: &str) -> (r: FixCommand)
    ensures
        command_view(r) == (program@, seq![a@, b@, c@]),
{
    let r = FixCommand {
        program: String::from_str(program),
        args: vec![String::from_str(a), String::from_str(b), String::from_str(c)],
    };
    assert(views(r.args@) =~= seq![a@, b@, c@]);
    r
}

impl Remediator {
    /// The deterministic fixes for a target, given whether it holds a
    /// `Cargo.toml`; each runs in the target directory, in order.
    pub fn run_deterministic_fixes(has_cargo_manifest: bool) -> (r: Vec<FixCommand>)
        ensures
            r@.map_values(|c: FixCommand| command_view(c)) == fix_plan(has_cargo_manifest),
    {
        let mut r: Vec<FixCommand> = Vec::new();
        if has_cargo_manifest {
            r.push(command("cargo", "fix", "--allow-no-vcs", "--broken-code"));
        }
        r.push(command("ruff", "check", "--fix", "."));
        r.push(command("biome", "check", "--write", "."));
        assert(r@.map_values(|c: FixCommand| command_view(c)) =~= fix_plan(has_cargo_manifest));
        r
    }

    /// What the session history records once the fixers have run.
    pub fn applied_fixes_note() -> (r: String)
        ensures
            r@ == "Applied deterministic linter auto-fixes (ruff, biome, cargo fix)"@,
    {
        String::from_str("Applied deterministic linter auto-fixes (ruff, biome, cargo fix)")
    }
}

/// The reference of the local branch `name`.
pub open spec fn branch_ref(name: Seq<char>) -> Seq<char> {
    "refs/heads/"@ + name
}

/// The reference of the local branch a fix is made on.
pub fn fix_branch_ref(branch_name: &str) -> (r: String)
    ensures
        r@ == branch_ref(branch_name@),
{
    let mut r = String::from_str("refs/heads/");
    r.append(branch_name);
    r
}

} // verus!
