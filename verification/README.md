# code_warden

The verified core of Code-Warden, a static security auditor that runs
scanners (Gitleaks, Semgrep, Trivy, actionlint, Checkov, TruffleHog,
modelscan, sqlfluff) through persona lenses, grounds a model review in
their findings and keeps audit memory between runs.

- `src/` is the library, verified with Verus: the readers that turn each
  tool's raw output bytes into findings (`scanners`, parsing through
  serde_json behind one trusted wrapper), the data model (`models`,
  `json`, `findings`), prompts, memory, the model-service decisions
  (`llm`), the command line's decisions (`cli`, `audit`) and the
  remediation plan (`remediator`).
- `app/` is the `cwd` program: it runs the tools, talks to the model
  services, reads and writes files, and hands the raw bytes and other plain
  values to the library.
- `tests/` exercises the library on concrete reports and texts.
