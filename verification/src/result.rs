//! What a run ends with.

use vstd::prelude::*;
use vstd::string::*;
use crate::error::{AgentError, AgentErrorView};
use crate::json::JsonValue;

verus! {

/// The outcome of a run that reached a final answer.
#[derive(Debug)]
pub struct RunResult {
    final_output: String,
    structured_output: Option<JsonValue>,
}

/// A [`RunResult`] with its texts as sequences of characters.
pub struct RunResultView {
    /// The final answer's text.
    pub final_output: Seq<char>,
    /// The final answer as JSON, where the agent asked for a structured
    /// answer.
    pub structured_output: Option<Seq<char>>,
}

impl RunResultView {
    /// The JSON text from which a typed answer is decoded: the structured
    /// answer where there is one, else the answer's text.
    pub open spec fn decoding_source(self) -> Seq<char> {
        match self.structured_output {
            Some(structured) => structured,
            None => self.final_output,
        }
    }
}

impl View for RunResult {
    type V = RunResultView;

    closed spec fn view(&self) -> RunResultView {
        RunResultView {
            final_output: self.final_output@,
            structured_output: self.structured_output.deep_view(),
        }
    }
}

impl DeepView for RunResult {
    type V = RunResultView;

    open spec fn deep_view(&self) -> RunResultView {
        self@
    }
}

impl Clone for RunResult {
    fn clone(&self) -> (copy: RunResult)
        ensures
            copy@ == self@,
    {
        let structured_output = match &self.structured_output {
            Some(structured) => Some(structured.clone()),
            None => None,
        };
        RunResult { final_output: self.final_output.clone(), structured_output }
    }
}

impl RunResult {
    /// The result with the given final answer and no structured answer.
    pub fn new(final_output: &str) -> (result: RunResult)
        ensures
            result@ == (RunResultView { final_output: final_output@, structured_output: None }),
    {
        RunResult { final_output: String::from_str(final_output), structured_output: None }
    }

    /// The result with the given final answer and its structured form.
    pub fn with_structured(final_output: &str, structured: JsonValue) -> (result: RunResult)
        ensures
            result@ == (RunResultView {
                final_output: final_output@,
                structured_output: Some(structured@),
            }),
    {
        RunResult {
            final_output: String::from_str(final_output),
            structured_output: Some(structured),
        }
    }

    /// The final answer's text.
    pub fn final_output(&self) -> (text: &str)
        ensures
            text@ == self@.final_output,
    {
        self.final_output.as_str()
    }

    /// The structured answer, if there is one.
    pub fn structured_output(&self) -> (structured: Option<&JsonValue>)
        ensures
            structured.deep_view() == self@.structured_output,
    {
        self.structured_output.as_ref()
    }

    /// The JSON text from which a typed answer is decoded.
    pub fn decoding_source(&self) -> (text: &str)
        ensures
            text@ == self@.decoding_source(),
    {
        match &self.structured_output {
            Some(structured) => structured.as_str(),
            None => self.final_output.as_str(),
        }
    }

    /// The final answer as a value of type `T`. `decode` reads a `T` from
    /// JSON text or says why it cannot; it is handed the structured answer
    /// where there is one, else the answer's text. What it cannot read is
    /// reported as unexpected behaviour of the model.
    pub fn final_output_as<T, F: FnOnce(&str) -> Result<T, String>>(&self, decode: F) -> (decoded:
        Result<T, AgentError>)
        requires
            forall|text: &str| call_requires(decode, (text,)),
        ensures
            exists|text: &str, outcome: Result<T, String>|
                text@ == self@.decoding_source() && call_ensures(decode, (text,), outcome)
                    && match outcome {
                    Ok(value) => decoded == Ok::<T, AgentError>(value),
                    Err(reason) => decoded is Err && decoded->Err_0@
                        == AgentErrorView::ModelBehaviorError(reason@),
                },
    {
        let text = self.decoding_source();
        match decode(text) {
            Ok(value) => Ok(value),
            Err(reason) => Err(AgentError::ModelBehaviorError(reason)),
        }
    }
}

} // verus!
