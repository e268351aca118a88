//! Shared data model: severities, personas, scanner sources and the
//! unified finding that every scanner's output is turned into.
use vstd::prelude::*;

verus! {

/// How serious a finding is.
#[derive(Debug, Clone, Copy, PartialEq, Eq, Structural)]
pub enum Severity {
    Critical,
    High,
    Medium,
    Low,
    Info,
}

/// The operational lens through which an audit is run.
#[derive(Debug, Clone, Copy, PartialEq, Eq, Hash, Structural)]
pub enum Persona {
    SoftwareEngineer,
    WebDeveloper,
    AiMlEngineer,
    RedTeamCybersecurity,
    DevOpsPlatform,
    OssCompliance,
    DatabaseEngineer,
}

/// The personas in their declaration order.
pub open spec fn all_personas() -> Seq<Persona> {
    seq![
        Persona::SoftwareEngineer,
        Persona::WebDeveloper,
        Persona::AiMlEngineer,
        Persona::RedTeamCybersecurity,
        Persona::DevOpsPlatform,
        Persona::OssCompliance,
        Persona::DatabaseEngineer,
    ]
}

/// The views of a sequence of string slices.
pub open spec fn str_views(v: Seq<&str>) -> Seq<Seq<char>> {
    v.map_values(|s: &str| s@)
}

/// The engines and rule sets behind each persona.
pub open spec fn persona_tool_backends(p: Persona) -> Seq<Seq<char>> {
    match p {
        Persona::SoftwareEngineer => seq!["facebook/infer"@, "pmd/pmd"@, "clippy"@],
        Persona::WebDeveloper => seq![
            "RetireJS/retire.js"@,
            "semgrep/p/owasp-top-ten"@,
            "biome"@,
        ],
        Persona::AiMlEngineer => seq!["protectai/modelscan"@, "leondz/garak"@],
        Persona::RedTeamCybersecurity => seq![
            "trufflesecurity/trufflehog"@,
            "liamg/traitor"@,
            "gitleaks"@,
        ],
        Persona::DevOpsPlatform => seq!["rhysd/actionlint"@, "bridgecrewio/checkov"@, "trivy"@],
        Persona::OssCompliance => seq!["google/go-licenses"@, "nexB/scancode-toolkit"@],
        Persona::DatabaseEngineer => seq!["sqlfluff/sqlfluff"@, "schemacrawler/SchemaCrawler"@],
    }
}

/// The file patterns that make each persona run its targeted scanners.
pub open spec fn persona_file_triggers(p: Persona) -> Seq<Seq<char>> {
    match p {
        Persona::SoftwareEngineer => seq![".rs"@, ".java"@, ".c"@, ".cpp"@, ".go"@],
        Persona::WebDeveloper => seq![
            ".js"@,
            ".jsx"@,
            ".ts"@,
            ".tsx"@,
            ".html"@,
            ".vue"@,
            ".svelte"@,
        ],
        Persona::AiMlEngineer => seq![
            ".pkl"@,
            ".bin"@,
            ".pt"@,
            ".pth"@,
            ".onnx"@,
            ".safetensors"@,
            ".h5"@,
        ],
        Persona::RedTeamCybersecurity => seq!["*"@],
        Persona::DevOpsPlatform => seq![
            ".github/workflows"@,
            "Dockerfile"@,
            ".tf"@,
            ".yaml"@,
            ".yml"@,
            "k8s"@,
        ],
        Persona::OssCompliance => seq![
            "Cargo.toml"@,
            "package.json"@,
            "go.mod"@,
            "requirements.txt"@,
            "pom.xml"@,
        ],
        Persona::DatabaseEngineer => seq![".sql"@, "migrations"@, "schema.prisma"@, ".prisma"@],
    }
}

impl Persona {
    /// The list of all supported personas: each of them, once.
    pub fn all() -> (r: &'static [Persona])
        ensures
            r@ == all_personas(),
            forall|p: Persona| r@.contains(p),
            r@.no_duplicates(),
    {
        let r: &'static [Persona] = &[
            Persona::SoftwareEngineer,
            Persona::WebDeveloper,
            Persona::AiMlEngineer,
            Persona::RedTeamCybersecurity,
            Persona::DevOpsPlatform,
            Persona::OssCompliance,
            Persona::DatabaseEngineer,
        ];
        assert(r@ =~= all_personas());
        assert forall|p: Persona| r@.contains(p) by {
            match p {
                Persona::SoftwareEngineer => assert(r@[0] == p),
                Persona::WebDeveloper => assert(r@[1] == p),
                Persona::AiMlEngineer => assert(r@[2] == p),
                Persona::RedTeamCybersecurity => assert(r@[3] == p),
                Persona::DevOpsPlatform => assert(r@[4] == p),
                Persona::OssCompliance => assert(r@[5] == p),
                Persona::DatabaseEngineer => assert(r@[6] == p),
            }
        }
        r
    }

    /// Primary tools and GitHub-backed engines associated with this persona.
    pub fn tool_backends(&self) -> (r: &'static [&'static str])
        ensures
            str_views(r@) == persona_tool_backends(*self),
    {
        let r: &'static [&'static str] = match self {
            Persona::SoftwareEngineer => &["facebook/infer", "pmd/pmd", "clippy"],
            Persona::WebDeveloper => &["RetireJS/retire.js", "semgrep/p/owasp-top-ten", "biome"],
            Persona::AiMlEngineer => &["protectai/modelscan", "leondz/garak"],
            Persona::RedTeamCybersecurity => &[
                "trufflesecurity/trufflehog",
                "liamg/traitor",
                "gitleaks",
            ],
            Persona::DevOpsPlatform => &["rhysd/actionlint", "bridgecrewio/checkov", "trivy"],
            Persona::OssCompliance => &["google/go-licenses", "nexB/scancode-toolkit"],
            Persona::DatabaseEngineer => &["sqlfluff/sqlfluff", "schemacrawler/SchemaCrawler"],
        };
        assert(str_views(r@) =~= persona_tool_backends(*self));
        r
    }

    /// File triggers: when this persona activates its targeted scanners.
    /// The red team persona audits the full attack surface (`*`).
    pub fn file_triggers(&self) -> (r: &'static [&'static str])
        ensures
            str_views(r@) == persona_file_triggers(*self),
    {
        let r: &'static [&'static str] = match self {
            Persona::SoftwareEngineer => &[".rs", ".java", ".c", ".cpp", ".go"],
            Persona::WebDeveloper => &[".js", ".jsx", ".ts", ".tsx", ".html", ".vue", ".svelte"],
            Persona::AiMlEngineer => &[".pkl", ".bin", ".pt", ".pth", ".onnx", ".safetensors", ".h5"],
            Persona::RedTeamCybersecurity => &["*"],
            Persona::DevOpsPlatform => &[
                ".github/workflows",
                "Dockerfile",
                ".tf",
                ".yaml",
                ".yml",
                "k8s",
            ],
            Persona::OssCompliance => &[
                "Cargo.toml",
                "package.json",
                "go.mod",
                "requirements.txt",
                "pom.xml",
            ],
            Persona::DatabaseEngineer => &[".sql", "migrations", "schema.prisma", ".prisma"],
        };
        assert(str_views(r@) =~= persona_file_triggers(*self));
        r
    }
}


/// The name under which a severity is shown (its `Debug` form).
pub open spec fn severity_name(s: Severity) -> Seq<char> {
    match s {
        Severity::Critical => "Critical"@,
        Severity::High => "High"@,
        Severity::Medium => "Medium"@,
        Severity::Low => "Low"@,
        Severity::Info => "Info"@,
    }
}

impl Severity {
    /// The name under which this severity is shown, e.g. `Critical`.
    pub fn name(&self) -> (r: &'static str)
        ensures
            r@ == severity_name(*self),
    {
        match self {
            Severity::Critical => "Critical",
            Severity::High => "High",
            Severity::Medium => "Medium",
            Severity::Low => "Low",
            Severity::Info => "Info",
        }
    }
}

/// The name under which a persona is shown (its `Debug` form).
pub open spec fn persona_name(p: Persona) -> Seq<char> {
    match p {
        Persona::SoftwareEngineer => "SoftwareEngineer"@,
        Persona::WebDeveloper => "WebDeveloper"@,
        Persona::AiMlEngineer => "AiMlEngineer"@,
        Persona::RedTeamCybersecurity => "RedTeamCybersecurity"@,
        Persona::DevOpsPlatform => "DevOpsPlatform"@,
        Persona::OssCompliance => "OssCompliance"@,
        Persona::DatabaseEngineer => "DatabaseEngineer"@,
    }
}

impl Persona {
    /// The name under which this persona is shown, e.g. `DevOpsPlatform`.
    pub fn name(&self) -> (r: &'static str)
        ensures
            r@ == persona_name(*self),
    {
        match self {
            Persona::SoftwareEngineer => "SoftwareEngineer",
            Persona::WebDeveloper => "WebDeveloper",
            Persona::AiMlEngineer => "AiMlEngineer",
            Persona::RedTeamCybersecurity => "RedTeamCybersecurity",
            Persona::DevOpsPlatform => "DevOpsPlatform",
            Persona::OssCompliance => "OssCompliance",
            Persona::DatabaseEngineer => "DatabaseEngineer",
        }
    }
}

/// The engine a finding came from.
#[derive(Debug, Clone, Copy, PartialEq, Eq, Structural)]
pub enum ScannerSource {
    Gitleaks,
    Semgrep,
    Trivy,
    Clippy,
    Ruff,
    Biome,
    Actionlint,
    Checkov,
    Modelscan,
    Trufflehog,
    Sqlfluff,
    AiGenerated(Persona),
}

/// One diagnostic, whatever scanner produced it. `file_path` is the path
/// as the scanner reported it.
#[derive(Debug, Clone)]
pub struct UnifiedFinding {
    pub id: String,
    pub source: ScannerSource,
    pub rule_id: String,
    pub severity: Severity,
    pub message: String,
    pub file_path: String,
    pub line_start: usize,
    pub line_end: Option<usize>,
    pub matched_content: Option<String>,
    pub fixable: bool,
    pub suggested_patch: Option<String>,
}

/// The mathematical value of a finding: its strings as character sequences.
pub struct FindingView {
    pub id: Seq<char>,
    pub source: ScannerSource,
    pub rule_id: Seq<char>,
    pub severity: Severity,
    pub message: Seq<char>,
    pub file_path: Seq<char>,
    pub line_start: usize,
    pub line_end: Option<usize>,
    pub matched_content: Option<Seq<char>>,
    pub fixable: bool,
    pub suggested_patch: Option<Seq<char>>,
}

/// The view of an optional string.
pub open spec fn opt_view(o: Option<String>) -> Option<Seq<char>> {
    match o {
        Some(s) => Some(s@),
        None => None,
    }
}

impl View for UnifiedFinding {
    type V = FindingView;

    open spec fn view(&self) -> FindingView {
        FindingView {
            id: self.id@,
            source: self.source,
            rule_id: self.rule_id@,
            severity: self.severity,
            message: self.message@,
            file_path: self.file_path@,
            line_start: self.line_start,
            line_end: self.line_end,
            matched_content: opt_view(self.matched_content),
            fixable: self.fixable,
            suggested_patch: opt_view(self.suggested_patch),
        }
    }
}

} // verus!
