//! Code-Warden: the verified core of a static security auditor. Scanner
//! reports are turned into unified findings, personas select the scanners
//! and prompts, and persistent audit memory is kept and summarised.
pub mod text;
pub mod models;
pub mod json;
pub mod findings;
pub mod scanners;
pub mod prompts;
pub mod memory;
pub mod llm;
pub mod cli;
pub mod remediator;
pub mod audit;
