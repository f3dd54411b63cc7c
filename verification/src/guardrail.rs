//! Guardrails: checks that may let content pass, block it or replace it.

use vstd::prelude::*;
use crate::error::AgentError;

verus! {

/// The handle under which the host knows a registered guardrail.
#[derive(Clone, Copy, Debug, PartialEq, Eq, Structural)]
pub struct GuardrailId(pub u64);

/// What a guardrail decided.
#[derive(Debug)]
pub enum GuardrailResult {
    /// The content may pass.
    Allow,
    /// The content is blocked, for the given reason.
    Block { reason: String },
    /// The content is replaced.
    Modify { new_content: String },
}

/// A check on what a user sends to an agent.
pub trait InputGuardrail {
    /// Checks the input.
    fn check(&self, input: &str) -> Result<GuardrailResult, AgentError>;
}

/// A check on what an agent answers.
pub trait OutputGuardrail {
    /// Checks the output.
    fn check(&self, output: &str) -> Result<GuardrailResult, AgentError>;
}

} // verus!
