//! The consumer's end of a streamed run.
//!
//! The producer of a streamed run sends events in order and, when the run
//! is over, sets the final result, once. The consumer takes the events
//! that wait for it. The final result is read only after the events were
//! drained.

use vstd::prelude::*;
use vstd::string::*;
use crate::error::{AgentError, AgentErrorView};
use crate::result::{RunResult, RunResultView};
use crate::run_model::outcome_view;
use crate::stream_events::{StreamEvent, StreamEventView};

verus! {

/// The message of the error for a result that was asked for before the run
/// was over.
pub open spec fn no_result_message() -> Seq<char> {
    "No final result available"@
}

/// What a [`StreamedRunResult`] holds.
pub struct StreamedRunView {
    /// The events that have been sent and not yet taken, oldest first.
    pub pending: Seq<StreamEventView>,
    /// The final result, once the run is over.
    pub result: Option<Result<RunResultView, AgentErrorView>>,
}

/// The events and the final result of a streamed run.
pub struct StreamedRunResult {
    pending: Vec<StreamEvent>,
    result: Option<Result<RunResult, AgentError>>,
}

impl View for StreamedRunResult {
    type V = StreamedRunView;

    closed spec fn view(&self) -> StreamedRunView {
        StreamedRunView {
            pending: self.pending.deep_view(),
            result: match self.result {
                Some(outcome) => Some(outcome_view(outcome)),
                None => None,
            },
        }
    }
}

/// Another name for [`StreamedRunResult`].
pub type RunResultStreaming = StreamedRunResult;

fn copy_outcome(outcome: &Result<RunResult, AgentError>) -> (copy: Result<RunResult, AgentError>)
    ensures
        outcome_view(copy) == outcome_view(*outcome),
{
    match outcome {
        Ok(result) => Ok(result.clone()),
        Err(error) => Err(error.clone()),
    }
}

impl StreamedRunResult {
    /// The result of a run that has sent nothing yet and is not over.
    pub fn new() -> (stream: StreamedRunResult)
        ensures
            stream@ == (StreamedRunView { pending: Seq::empty(), result: None }),
    {
        let stream = StreamedRunResult { pending: Vec::new(), result: None };
        assert(stream.pending.deep_view() =~= Seq::empty());
        stream
    }

    /// The producer sends an event. Nothing is sent once the run is over.
    pub fn send(&mut self, event: StreamEvent)
        ensures
            final(self)@ == if old(self)@.result is Some {
                old(self)@
            } else {
                StreamedRunView { pending: old(self)@.pending.push(event@), ..old(self)@ }
            },
    {
        let ghost before = self.pending.deep_view();
        if self.result.is_none() {
            self.pending.push(event);
            assert(self.pending.deep_view() =~= before.push(event@));
        }
    }

    /// The producer ends the run with its final result. The first result
    /// stands; a later one is dropped.
    pub fn complete(&mut self, result: Result<RunResult, AgentError>)
        ensures
            final(self)@ == if old(self)@.result is Some {
                old(self)@
            } else {
                StreamedRunView { result: Some(outcome_view(result)), ..old(self)@ }
            },
    {
        if self.result.is_none() {
            self.result = Some(result);
        }
    }

    /// Takes the events that wait, oldest first. Each event is handed out
    /// once: none of them waits afterwards.
    pub fn stream_events(&mut self) -> (events: Vec<StreamEvent>)
        ensures
            events.deep_view() == old(self)@.pending,
            final(self)@ == (StreamedRunView { pending: Seq::empty(), ..old(self)@ }),
    {
        let mut events: Vec<StreamEvent> = Vec::new();
        assert(events.deep_view() =~= Seq::empty());
        let ghost before = self.pending.deep_view();
        events.append(&mut self.pending);
        assert(events.deep_view() =~= before);
        assert(self.pending.deep_view() =~= Seq::empty());
        events
    }

    /// The final result. Events that still wait are dropped first. Before
    /// the run is over the result is a configuration error.
    pub fn final_result(&mut self) -> (result: Result<RunResult, AgentError>)
        ensures
            final(self)@ == (StreamedRunView { pending: Seq::empty(), ..old(self)@ }),
            outcome_view(result) == match old(self)@.result {
                Some(outcome) => outcome,
                None => Err(AgentErrorView::ConfigError(no_result_message())),
            },
    {
        self.pending.clear();
        assert(self.pending.deep_view() =~= Seq::empty());
        match &self.result {
            Some(outcome) => copy_outcome(outcome),
            None => Err(AgentError::ConfigError(String::from_str("No final result available"))),
        }
    }

    /// The text of the final answer.
    pub fn final_output(&mut self) -> (output: Result<String, AgentError>)
        ensures
            final(self)@ == (StreamedRunView { pending: Seq::empty(), ..old(self)@ }),
            outcome_view(output) == match old(self)@.result {
                Some(Ok(result)) => Ok(result.final_output),
                Some(Err(error)) => Err(error),
                None => Err(AgentErrorView::ConfigError(no_result_message())),
            },
    {
        match self.final_result() {
            Ok(result) => Ok(String::from_str(result.final_output())),
            Err(error) => Err(error),
        }
    }
}

} // verus!
