//! The command line's own decisions: platform paths, persona aliases, which
//! Gemini key is active, how it is shown and stored, and the uninstall
//! confirmation. Reading the environment and files is the caller's part.
use vstd::prelude::*;
use vstd::string::StringSliceAdditionalSpecFns;
use vstd::utf8::{decode_utf8, encode_utf8};
use crate::models::Persona;
use crate::text::{
    has_prefix, has_suffix, is_blank, join_path, lemma_index_of_is, lemma_trim_ignores_trailing_ws, strip_cr, lines, path_join, split_lines,
    str_eq, str_is_blank, str_starts_with, trim, trim_str, views,
};

verus! {

/// The program file name of `name` on the platform: Windows wants `.exe`.
pub open spec fn binary_name(name: Seq<char>, windows: bool) -> Seq<char> {
    if windows && !has_suffix(name, ".exe"@) {
        name + ".exe"@
    } else {
        name
    }
}

/// The program file name of `name`, on Windows when `windows` holds.
pub fn resolve_binary_name(name: &str, windows: bool) -> (r: String)
    ensures
        r@ == binary_name(name@, windows),
{
    let mut r = String::from_str(name);
    if windows && !crate::text::str_ends_with(name, ".exe") {
        r.append(".exe");
    }
    r
}

/// The user's home: `USERPROFILE` on Windows when it is set, else `HOME`,
/// else the current directory.
pub open spec fn user_home(windows: bool, userprofile: Option<Seq<char>>, home: Option<Seq<char>>) -> Seq<
    char,
> {
    if windows && userprofile is Some {
        userprofile->0
    } else {
        match home {
            Some(h) => h,
            None => "."@,
        }
    }
}

/// The view of an optional string.
pub open spec fn opt_string_view(o: Option<String>) -> Option<Seq<char>> {
    match o {
        Some(s) => Some(s@),
        None => None,
    }
}

/// The user's home from the values of `USERPROFILE` and `HOME`.
pub fn get_user_home(windows: bool, userprofile: Option<String>, home: Option<String>) -> (r: String)
    ensures
        r@ == user_home(windows, opt_string_view(userprofile), opt_string_view(home)),
{
    if windows {
        if let Some(p) = userprofile {
            return p;
        }
    }
    match home {
        Some(h) => h,
        None => String::from_str("."),
    }
}

/// `~/.code-warden`, where the tool keeps its engines and settings.
pub fn code_warden_home(home: &str, windows: bool) -> (r: String)
    ensures
        r@ == path_join(home@, ".code-warden"@, windows),
{
    proof {
        reveal_strlit(".code-warden");
    }
    join_path(home, ".code-warden", windows)
}

/// `~/.code-warden/config.env`, the global settings file.
pub fn global_config_path(home: &str, windows: bool) -> (r: String)
    ensures
        r@ == path_join(path_join(home@, ".code-warden"@, windows), "config.env"@, windows),
{
    proof {
        reveal_strlit("config.env");
    }
    let base = code_warden_home(home, windows);
    join_path(base.as_str(), "config.env", windows)
}

/// The executables directory of a Python virtual environment: `Scripts` on
/// Windows, `bin` elsewhere.
pub open spec fn venv_bin_dir(venv_root: Seq<char>, windows: bool) -> Seq<char> {
    path_join(venv_root, if windows { "Scripts"@ } else { "bin"@ }, windows)
}

/// The executables directory of the virtual environment at `venv_root`.
pub fn get_venv_bin_dir(venv_root: &str, windows: bool) -> (r: String)
    ensures
        r@ == venv_bin_dir(venv_root@, windows),
{
    proof {
        reveal_strlit("Scripts");
        reveal_strlit("bin");
    }
    if windows {
        join_path(venv_root, "Scripts", windows)
    } else {
        join_path(venv_root, "bin", windows)
    }
}

/// The Unicode lowercase form of `s`, as `str::to_lowercase` gives it.
pub uninterp spec fn lowercase(s: Seq<char>) -> Seq<char>;

/// A character lowercased as ASCII: `A` to `Z` become `a` to `z`, every
/// other character stays.
pub open spec fn ascii_lower_char(c: char) -> char {
    if 'A' <= c <= 'Z' {
        ((c as u32) + 32) as char
    } else {
        c
    }
}

/// A text lowercased as ASCII, character by character.
pub open spec fn ascii_lower(s: Seq<char>) -> Seq<char> {
    s.map_values(|c: char| ascii_lower_char(c))
}

/// `str::to_lowercase`: the text lowercased by the Unicode rules; what it
/// gives is named, not spelled out, except on ASCII text, where the
/// Unicode lowercase mapping takes `A` to `Z` to `a` to `z` and leaves every
/// other character as it is.
#[verifier::external_body]
fn to_lowercase(s: &str) -> (r: String)
    ensures
        r@ == lowercase(s@),
        vstd::utf8::is_ascii_chars(s@) ==> r@ == ascii_lower(s@),
{
    s.to_lowercase()
}

/// The persona a lowercase alias names; any other name is the red team.
pub open spec fn persona_for_alias(a: Seq<char>) -> Persona {
    if a == "swe"@ || a == "software-engineer"@ {
        Persona::SoftwareEngineer
    } else if a == "web"@ || a == "web-dev"@ {
        Persona::WebDeveloper
    } else if a == "ai"@ || a == "ml"@ || a == "ai-ml"@ {
        Persona::AiMlEngineer
    } else if a == "devops"@ || a == "platform"@ {
        Persona::DevOpsPlatform
    } else if a == "oss"@ || a == "compliance"@ {
        Persona::OssCompliance
    } else if a == "db"@ || a == "database"@ {
        Persona::DatabaseEngineer
    } else {
        Persona::RedTeamCybersecurity
    }
}

/// Each documented alias selects its persona: `swe` and
/// `software-engineer` the software engineer, `web` and `web-dev` the web
/// developer, `ai`, `ml` and `ai-ml` the AI/ML engineer, `devops` and
/// `platform` DevOps, `oss` and `compliance` open-source compliance, `db`
/// and `database` the database engineer.
pub proof fn lemma_documented_aliases()
    ensures
        persona_for_alias("swe"@) == Persona::SoftwareEngineer,
        persona_for_alias("software-engineer"@) == Persona::SoftwareEngineer,
        persona_for_alias("web"@) == Persona::WebDeveloper,
        persona_for_alias("web-dev"@) == Persona::WebDeveloper,
        persona_for_alias("ai"@) == Persona::AiMlEngineer,
        persona_for_alias("ml"@) == Persona::AiMlEngineer,
        persona_for_alias("ai-ml"@) == Persona::AiMlEngineer,
        persona_for_alias("devops"@) == Persona::DevOpsPlatform,
        persona_for_alias("platform"@) == Persona::DevOpsPlatform,
        persona_for_alias("oss"@) == Persona::OssCompliance,
        persona_for_alias("compliance"@) == Persona::OssCompliance,
        persona_for_alias("db"@) == Persona::DatabaseEngineer,
        persona_for_alias("database"@) == Persona::DatabaseEngineer,
{
    reveal_strlit("swe");
    reveal_strlit("software-engineer");
    reveal_strlit("web");
    reveal_strlit("web-dev");
    reveal_strlit("ai");
    reveal_strlit("ml");
    reveal_strlit("ai-ml");
    reveal_strlit("devops");
    reveal_strlit("platform");
    reveal_strlit("oss");
    reveal_strlit("compliance");
    reveal_strlit("db");
    reveal_strlit("database");
    // Each alias differs from every alias of the branches tested before it.
    assert("web"@[0] != "swe"@[0]);
    assert("web"@.len() != "software-engineer"@.len());
    assert("web-dev"@.len() != "swe"@.len());
    assert("web-dev"@.len() != "software-engineer"@.len());
    assert("ai"@.len() != "swe"@.len());
    assert("ai"@.len() != "software-engineer"@.len());
    assert("ai"@.len() != "web"@.len());
    assert("ai"@.len() != "web-dev"@.len());
    assert("ml"@.len() != "swe"@.len());
    assert("ml"@.len() != "software-engineer"@.len());
    assert("ml"@.len() != "web"@.len());
    assert("ml"@.len() != "web-dev"@.len());
    assert("ai-ml"@.len() != "swe"@.len());
    assert("ai-ml"@.len() != "software-engineer"@.len());
    assert("ai-ml"@.len() != "web"@.len());
    assert("ai-ml"@.len() != "web-dev"@.len());
    assert("devops"@.len() != "swe"@.len());
    assert("devops"@.len() != "software-engineer"@.len());
    assert("devops"@.len() != "web"@.len());
    assert("devops"@.len() != "web-dev"@.len());
    assert("devops"@.len() != "ai"@.len());
    assert("devops"@.len() != "ml"@.len());
    assert("devops"@.len() != "ai-ml"@.len());
    assert("platform"@.len() != "swe"@.len());
    assert("platform"@.len() != "software-engineer"@.len());
    assert("platform"@.len() != "web"@.len());
    assert("platform"@.len() != "web-dev"@.len());
    assert("platform"@.len() != "ai"@.len());
    assert("platform"@.len() != "ml"@.len());
    assert("platform"@.len() != "ai-ml"@.len());
    assert("oss"@[0] != "swe"@[0]);
    assert("oss"@.len() != "software-engineer"@.len());
    assert("oss"@[0] != "web"@[0]);
    assert("oss"@.len() != "web-dev"@.len());
    assert("oss"@.len() != "ai"@.len());
    assert("oss"@.len() != "ml"@.len());
    assert("oss"@.len() != "ai-ml"@.len());
    assert("oss"@.len() != "devops"@.len());
    assert("oss"@.len() != "platform"@.len());
    assert("compliance"@.len() != "swe"@.len());
    assert("compliance"@.len() != "software-engineer"@.len());
    assert("compliance"@.len() != "web"@.len());
    assert("compliance"@.len() != "web-dev"@.len());
    assert("compliance"@.len() != "ai"@.len());
    assert("compliance"@.len() != "ml"@.len());
    assert("compliance"@.len() != "ai-ml"@.len());
    assert("compliance"@.len() != "devops"@.len());
    assert("compliance"@.len() != "platform"@.len());
    assert("db"@.len() != "swe"@.len());
    assert("db"@.len() != "software-engineer"@.len());
    assert("db"@.len() != "web"@.len());
    assert("db"@.len() != "web-dev"@.len());
    assert("db"@[0] != "ai"@[0]);
    assert("db"@[0] != "ml"@[0]);
    assert("db"@.len() != "ai-ml"@.len());
    assert("db"@.len() != "devops"@.len());
    assert("db"@.len() != "platform"@.len());
    assert("db"@.len() != "oss"@.len());
    assert("db"@.len() != "compliance"@.len());
    assert("database"@.len() != "swe"@.len());
    assert("database"@.len() != "software-engineer"@.len());
    assert("database"@.len() != "web"@.len());
    assert("database"@.len() != "web-dev"@.len());
    assert("database"@.len() != "ai"@.len());
    assert("database"@.len() != "ml"@.len());
    assert("database"@.len() != "ai-ml"@.len());
    assert("database"@.len() != "devops"@.len());
    assert("database"@[0] != "platform"@[0]);
    assert("database"@.len() != "oss"@.len());
    assert("database"@.len() != "compliance"@.len());
}

/// The persona the lowercase alias `alias` names.
pub fn persona_from_alias(alias: &str) -> (r: Persona)
    ensures
        r == persona_for_alias(alias@),
        alias@ == "swe"@ || alias@ == "software-engineer"@ ==> r == Persona::SoftwareEngineer,
        alias@ == "web"@ || alias@ == "web-dev"@ ==> r == Persona::WebDeveloper,
        alias@ == "ai"@ || alias@ == "ml"@ || alias@ == "ai-ml"@ ==> r == Persona::AiMlEngineer,
        alias@ == "devops"@ || alias@ == "platform"@ ==> r == Persona::DevOpsPlatform,
        alias@ == "oss"@ || alias@ == "compliance"@ ==> r == Persona::OssCompliance,
        alias@ == "db"@ || alias@ == "database"@ ==> r == Persona::DatabaseEngineer,
{
    proof {
        lemma_documented_aliases();
    }
    if str_eq(alias, "swe") || str_eq(alias, "software-engineer") {
        Persona::SoftwareEngineer
    } else if str_eq(alias, "web") || str_eq(alias, "web-dev") {
        Persona::WebDeveloper
    } else if str_eq(alias, "ai") || str_eq(alias, "ml") || str_eq(alias, "ai-ml") {
        Persona::AiMlEngineer
    } else if str_eq(alias, "devops") || str_eq(alias, "platform") {
        Persona::DevOpsPlatform
    } else if str_eq(alias, "oss") || str_eq(alias, "compliance") {
        Persona::OssCompliance
    } else if str_eq(alias, "db") || str_eq(alias, "database") {
        Persona::DatabaseEngineer
    } else {
        Persona::RedTeamCybersecurity
    }
}

/// A name that, lowercased, is none of the aliases selects the red team,
/// the default persona.
pub proof fn lemma_unknown_alias_is_red_team(a: Seq<char>)
    requires
        a != "swe"@ && a != "software-engineer"@ && a != "web"@ && a != "web-dev"@ && a != "ai"@
            && a != "ml"@ && a != "ai-ml"@ && a != "devops"@ && a != "platform"@ && a != "oss"@
            && a != "compliance"@ && a != "db"@ && a != "database"@,
    ensures
        persona_for_alias(a) == Persona::RedTeamCybersecurity,
{
}

/// Lowercasing ASCII text once is as good as lowercasing it twice: the
/// lowercased text is ASCII and lowercases to itself, so an ASCII persona
/// name and its lowercased form select the same persona.
pub proof fn lemma_ascii_lowercase_is_idempotent(s: Seq<char>)
    requires
        vstd::utf8::is_ascii_chars(s),
    ensures
        vstd::utf8::is_ascii_chars(ascii_lower(s)),
        ascii_lower(ascii_lower(s)) == ascii_lower(s),
        persona_for_alias(ascii_lower(ascii_lower(s))) == persona_for_alias(ascii_lower(s)),
{
    let l = ascii_lower(s);
    assert forall|i: int| 0 <= i < l.len() implies '\0' <= #[trigger] l[i] <= '\u{7f}' by {
        assert(l[i] == ascii_lower_char(s[i]));
        assert('\0' <= s[i] <= '\u{7f}');
    }
    assert forall|i: int| 0 <= i < l.len() implies #[trigger] ascii_lower(l)[i] == l[i] by {
        assert(l[i] == ascii_lower_char(s[i]));
    }
    assert(ascii_lower(l) =~= l);
}

/// Text of lowercase letters and hyphens is ASCII and lowercases to itself.
proof fn lemma_plain_lowercase(a: Seq<char>)
    requires
        forall|i: int| 0 <= i < a.len() ==> ('a' <= #[trigger] a[i] <= 'z' || a[i] == '-'),
    ensures
        vstd::utf8::is_ascii_chars(a),
        ascii_lower(a) == a,
{
    assert(ascii_lower(a) =~= a);
}

/// The persona the `--persona` option names, in any letter case.
pub fn parse_persona(name: &str) -> (r: Persona)
    ensures
        r == persona_for_alias(lowercase(name@)),
        vstd::utf8::is_ascii_chars(name@) ==> r == persona_for_alias(ascii_lower(name@)),
        name@ == "swe"@ || name@ == "software-engineer"@ ==> r == Persona::SoftwareEngineer,
        name@ == "web"@ || name@ == "web-dev"@ ==> r == Persona::WebDeveloper,
        name@ == "ai"@ || name@ == "ml"@ || name@ == "ai-ml"@ ==> r == Persona::AiMlEngineer,
        name@ == "devops"@ || name@ == "platform"@ ==> r == Persona::DevOpsPlatform,
        name@ == "oss"@ || name@ == "compliance"@ ==> r == Persona::OssCompliance,
        name@ == "db"@ || name@ == "database"@ ==> r == Persona::DatabaseEngineer,
{
    let lower = to_lowercase(name);
    proof {
        lemma_documented_aliases();
        reveal_strlit("swe");
        reveal_strlit("software-engineer");
        reveal_strlit("web");
        reveal_strlit("web-dev");
        reveal_strlit("ai");
        reveal_strlit("ml");
        reveal_strlit("ai-ml");
        reveal_strlit("devops");
        reveal_strlit("platform");
        reveal_strlit("oss");
        reveal_strlit("compliance");
        reveal_strlit("db");
        reveal_strlit("database");
        lemma_plain_lowercase("swe"@);
        lemma_plain_lowercase("software-engineer"@);
        lemma_plain_lowercase("web"@);
        lemma_plain_lowercase("web-dev"@);
        lemma_plain_lowercase("ai"@);
        lemma_plain_lowercase("ml"@);
        lemma_plain_lowercase("ai-ml"@);
        lemma_plain_lowercase("devops"@);
        lemma_plain_lowercase("platform"@);
        lemma_plain_lowercase("oss"@);
        lemma_plain_lowercase("compliance"@);
        lemma_plain_lowercase("db"@);
        lemma_plain_lowercase("database"@);
    }
    persona_from_alias(lower.as_str())
}

/// The settings line that stores a Gemini key.
pub open spec fn key_setting_prefix() -> Seq<char> {
    "GEMINI_API_KEY="@
}

/// The key stored in the settings text `content`: the rest of its first
/// line that begins with `GEMINI_API_KEY=`, trimmed.
pub open spec fn stored_key(ls: Seq<Seq<char>>) -> Option<Seq<char>>
    decreases ls.len(),
{
    if ls.len() == 0 {
        None
    } else if has_prefix(ls[0], key_setting_prefix()) {
        Some(trim(ls[0].skip(key_setting_prefix().len() as int)))
    } else {
        stored_key(ls.drop_first())
    }
}

/// The active Gemini key: the explicit key, else the `GEMINI_API_KEY`
/// environment value, each only when not blank and then trimmed; else the
/// key stored in the global settings; else none (empty).
pub open spec fn active_key(
    explicit: Option<Seq<char>>,
    env_value: Option<Seq<char>>,
    settings: Option<Seq<char>>,
) -> Seq<char> {
    if explicit is Some && !is_blank(explicit->0) {
        trim(explicit->0)
    } else if env_value is Some && !is_blank(env_value->0) {
        trim(env_value->0)
    } else {
        match settings {
            Some(c) => match stored_key(lines(c)) {
                Some(k) => k,
                None => seq![],
            },
            None => seq![],
        }
    }
}

/// The active Gemini key from the explicit key, the environment value and
/// the text of the global settings file (when it could be read).
pub fn load_active_api_key(
    explicit_key: Option<String>,
    env_value: Option<String>,
    settings: Option<String>,
) -> (r: String)
    ensures
        r@ == active_key(
            opt_string_view(explicit_key),
            opt_string_view(env_value),
            opt_string_view(settings),
        ),
{
    if let Some(k) = &explicit_key {
        if !str_is_blank(k.as_str()) {
            return trim_str(k.as_str());
        }
    }
    if let Some(k) = &env_value {
        if !str_is_blank(k.as_str()) {
            return trim_str(k.as_str());
        }
    }
    if let Some(content) = &settings {
        let ls = split_lines(content.as_str());
        let mut i: usize = 0;
        assert(views(ls@).skip(0) =~= views(ls@));
        proof {
            reveal_strlit("GEMINI_API_KEY=");
        }
        while i < ls.len()
            invariant
                i <= ls.len(),
                active_key(
                    opt_string_view(explicit_key),
                    opt_string_view(env_value),
                    opt_string_view(settings),
                ) == match stored_key(lines(content@)) {
                    Some(k) => k,
                    None => seq![],
                },
                stored_key(lines(content@)) == stored_key(views(ls@).skip(i as int)),
            decreases ls.len() - i,
        {
            let line = ls[i].as_str();
            proof {
                assert(views(ls@).skip(i as int)[0] == line@);
                assert(views(ls@).skip(i as int).drop_first() =~= views(ls@).skip(i + 1));
                reveal_strlit("GEMINI_API_KEY=");
            }
            if str_starts_with(line, "GEMINI_API_KEY=") {
                let cs = crate::text::chars_of(line);
                let prefix_len = "GEMINI_API_KEY=".unicode_len();
                let rest = crate::text::string_of_range(&cs, prefix_len, cs.len());
                assert(rest@ =~= line@.skip(prefix_len as int));
                return trim_str(rest.as_str());
            }
            i = i + 1;
        }
    }
    String::new()
}

/// How a key is shown: its first and last four bytes around `...` when it
/// is longer than eight bytes, else eight stars.
pub open spec fn masked_key(bytes: Seq<u8>) -> Seq<char> {
    if bytes.len() > 8 {
        decode_utf8(bytes.take(4)) + "..."@ + decode_utf8(bytes.skip(bytes.len() - 4))
    } else {
        "********"@
    }
}

/// The key as shown by `config show`. The key is cut at its fourth byte
/// and four bytes before its end, which must fall between characters.
pub fn mask_api_key(key: &str) -> (r: String)
    requires
        key.spec_bytes().len() <= usize::MAX,
        key.spec_bytes().len() > 8 ==> vstd::utf8::is_char_boundary(key.spec_bytes(), 4)
            && vstd::utf8::is_char_boundary(key.spec_bytes(), key.spec_bytes().len() - 4),
    ensures
        r@ == masked_key(key.spec_bytes()),
{
    broadcast use vstd::utf8::group_utf8_lib;

    let n = key.len();
    if n > 8 {
        let (head, _) = key.split_at(4);
        let (_, tail) = key.split_at(n - 4);
        let mut r = String::from_str(head);
        r.append("...");
        r.append(tail);
        proof {
            assert(head@ == decode_utf8(encode_utf8(head@)));
            assert(tail@ == decode_utf8(encode_utf8(tail@)));
            assert(key.spec_bytes().subrange(0, 4) =~= key.spec_bytes().take(4));
            assert(key.spec_bytes().subrange(n - 4, n as int) =~= key.spec_bytes().skip(n - 4));
        }
        r
    } else {
        String::from_str("********")
    }
}

/// The global settings text that stores the key `key`.
pub open spec fn key_setting(key: Seq<char>) -> Seq<char> {
    key_setting_prefix() + key + "\n"@
}

/// A key saved with `config set-key` is read back, trimmed, when no
/// non-blank key is given on the command line or in the environment and
/// the key holds no line break.
pub proof fn lemma_saved_key_reads_back(key: Seq<char>, env_value: Option<Seq<char>>)
    requires
        !key.contains('\n'),
        env_value is None || is_blank(env_value->0),
    ensures
        active_key(None, env_value, Some(key_setting(key))) == trim(key),
{
    reveal_strlit("GEMINI_API_KEY=");
    reveal_strlit("\n");
    let p = key_setting_prefix();
    let c = key_setting(key);
    let i: int = (p.len() + key.len()) as int;
    assert(c.len() == i + 1);
    assert forall|j: int| 0 <= j < i implies c[j] != '\n' by {
        if j >= p.len() {
            assert(c[j] == key[j - p.len()]);
            if key[j - p.len()] == '\n' {
                assert(key.contains('\n'));
            }
        } else {
            assert(c[j] == p[j]);
        }
    }
    assert(c[i] == '\n');
    lemma_index_of_is(c, '\n', i);
    assert(c.skip(i + 1).len() == 0);
    assert(lines(c.skip(i + 1)) =~= seq![]);
    let whole = c.take(i);
    assert(whole =~= p + key);
    let line = strip_cr(whole);
    assert(lines(c) =~= seq![line]);
    if key.len() > 0 && key.last() == '\r' {
        assert(line =~= p + key.drop_last());
        assert(line.take(p.len() as int) =~= p);
        assert(line.skip(p.len() as int) =~= key.drop_last());
        lemma_trim_ignores_trailing_ws(key);
    } else {
        if key.len() == 0 {
            assert(whole.last() == '=');
        }
        assert(line == whole);
        assert(line.take(p.len() as int) =~= p);
        assert(line.skip(p.len() as int) =~= key);
    }
    assert(stored_key(lines(c)) == Some(trim(line.skip(p.len() as int))));
}

/// The global settings text for `config set-key`.
pub fn key_setting_entry(key: &str) -> (r: String)
    ensures
        r@ == key_setting(key@),
{
    let mut r = String::from_str("GEMINI_API_KEY=");
    r.append(key);
    r.append("\n");
    r
}

/// The global settings text for `config set-key` with the key `key`; an
/// empty key is refused (`None`) and nothing is to be stored.
pub fn set_key_setting(key: &str) -> (r: Option<String>)
    ensures
        key@.len() == 0 <==> r is None,
        r is Some ==> r->0@ == key_setting(key@),
{
    if key.is_empty() {
        None
    } else {
        Some(key_setting_entry(key))
    }
}

/// Whether the answer to the uninstall question is yes: `y` in either case,
/// around whitespace.
pub fn confirms_uninstall(response: &str) -> (r: bool)
    ensures
        r == (trim(response@) == "y"@ || trim(response@) == "Y"@),
{
    let t = trim_str(response);
    str_eq(t.as_str(), "y") || str_eq(t.as_str(), "Y")
}

} // verus!
