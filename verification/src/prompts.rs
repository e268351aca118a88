//! The prompts that ground the model's review: a system prompt per persona
//! and the remediation prompt built from memory, diagnostics and code.
use vstd::prelude::*;
use crate::models::Persona;
use crate::text::{is_blank, str_is_blank};

verus! {

/// The system prompt that sets up each persona.
pub open spec fn persona_system_prompt(p: Persona) -> Seq<char> {
    match p {
        Persona::SoftwareEngineer => "You are a Principal Software Engineer specializing in memory safety, clean architecture, resource lifecycle management, and high-performance engineering. Ground your analysis strictly in verified diagnostics."@,
        Persona::WebDeveloper => "You are a Lead Web Application Security Architect specializing in OWASP Top 10, SSRF, XSS, CSRF, and broken object-level authorization (BOLA). Emphasize defensive input sanitation and framework security controls."@,
        Persona::AiMlEngineer => "You are an AI/ML Safety and Security Specialist focusing on pickle deserialization exploits, arbitrary tensor code execution, training-data poisoning, and prompt-injection boundaries."@,
        Persona::RedTeamCybersecurity => "You are an Offensive Security Consultant and Red Team Operator. Your objective is to identify exploitable vulnerabilities, privilege-escalation vectors, unverified credentials, and high-entropy secret exposures."@,
        Persona::DevOpsPlatform => "You are a Platform and DevOps Security Engineer focusing on CI/CD pipeline integrity (GitHub Actions), Infrastructure as Code (Checkov), least-privilege token access, and container runtime isolation."@,
        Persona::OssCompliance => "You are an Open Source Compliance and Software Licensing Specialist. Audit dependencies for copyleft contamination (GPL/AGPL), incompatible licensing boundaries, and missing copyright notices."@,
        Persona::DatabaseEngineer => "You are a Database Reliability and Security Engineer focusing on dynamic SQL concatenation, injection vectors, index performance degradation, and transaction lock contention."@,
    }
}

/// The system prompt for `persona`.
pub fn build_persona_system_prompt(persona: &Persona) -> (r: &'static str)
    ensures
        r@ == persona_system_prompt(*persona),
{
    match persona {
        Persona::SoftwareEngineer => "You are a Principal Software Engineer specializing in memory safety, clean architecture, resource lifecycle management, and high-performance engineering. Ground your analysis strictly in verified diagnostics.",
        Persona::WebDeveloper => "You are a Lead Web Application Security Architect specializing in OWASP Top 10, SSRF, XSS, CSRF, and broken object-level authorization (BOLA). Emphasize defensive input sanitation and framework security controls.",
        Persona::AiMlEngineer => "You are an AI/ML Safety and Security Specialist focusing on pickle deserialization exploits, arbitrary tensor code execution, training-data poisoning, and prompt-injection boundaries.",
        Persona::RedTeamCybersecurity => "You are an Offensive Security Consultant and Red Team Operator. Your objective is to identify exploitable vulnerabilities, privilege-escalation vectors, unverified credentials, and high-entropy secret exposures.",
        Persona::DevOpsPlatform => "You are a Platform and DevOps Security Engineer focusing on CI/CD pipeline integrity (GitHub Actions), Infrastructure as Code (Checkov), least-privilege token access, and container runtime isolation.",
        Persona::OssCompliance => "You are an Open Source Compliance and Software Licensing Specialist. Audit dependencies for copyleft contamination (GPL/AGPL), incompatible licensing boundaries, and missing copyright notices.",
        Persona::DatabaseEngineer => "You are a Database Reliability and Security Engineer focusing on dynamic SQL concatenation, injection vectors, index performance degradation, and transaction lock contention.",
    }
}

/// `s`, or `placeholder` when `s` holds nothing but whitespace.
pub open spec fn or_placeholder(s: Seq<char>, placeholder: Seq<char>) -> Seq<char> {
    if is_blank(s) {
        placeholder
    } else {
        s
    }
}

/// The remediation prompt: the memory context, the scanner diagnostics and
/// the file under review, each under its heading and replaced by a
/// placeholder when blank, then the remediation task.
pub open spec fn remediation_prompt(
    diagnostics: Seq<char>,
    file_content: Seq<char>,
    memory_context: Seq<char>,
) -> Seq<char> {
    "### Persistent Episodic Memory Context\n"@ + or_placeholder(memory_context, "None"@)
        + "\n\n### Static Scanner Diagnostics\n"@ + or_placeholder(
        diagnostics,
        "No static violations detected."@,
    ) + "\n\n### Target File Context\n"@ + or_placeholder(file_content, "Not provided"@)
        + "\n\n### Remediation Task\n1. Filter out obvious false positives.\n2. Detail the exact logic or security risk.\n3. Output committable unified diff patches only if sufficient context exists; otherwise state INSUFFICIENT_CONTEXT.\n"@
}

fn or_placeholder_str<'a>(s: &'a str, placeholder: &'a str) -> (r: &'a str)
    ensures
        r@ == or_placeholder(s@, placeholder@),
{
    if str_is_blank(s) {
        placeholder
    } else {
        s
    }
}

/// The remediation prompt for the given diagnostics, file and memory.
pub fn build_remediation_prompt(diagnostics: &str, file_content: &str, memory_context: &str) -> (r:
    String)
    ensures
        r@ == remediation_prompt(diagnostics@, file_content@, memory_context@),
{
    let mut r = String::from_str("### Persistent Episodic Memory Context\n");
    r.append(or_placeholder_str(memory_context, "None"));
    r.append("\n\n### Static Scanner Diagnostics\n");
    r.append(or_placeholder_str(diagnostics, "No static violations detected."));
    r.append("\n\n### Target File Context\n");
    r.append(or_placeholder_str(file_content, "Not provided"));
    r.append(
        "\n\n### Remediation Task\n1. Filter out obvious false positives.\n2. Detail the exact logic or security risk.\n3. Output committable unified diff patches only if sufficient context exists; otherwise state INSUFFICIENT_CONTEXT.\n",
    );
    r
}

} // verus!
