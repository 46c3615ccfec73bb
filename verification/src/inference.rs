//! What a run of the runtime process amounts to: the text it produced, or a
//! diagnostic saying at which step it failed.

use crate::text::{decode_lossy, utf8_lossy};
use vstd::prelude::*;

verus! {

/// The command that starts the runtime.
pub const RUNTIME_COMMAND: &'static str = "ollama";

/// The argument that asks the runtime to answer a prompt with a model.
pub const RUN_ARGUMENT: &'static str = "run";

/// The argument that asks the runtime which models it holds.
pub const LIST_ARGUMENT: &'static str = "list";

/// The model that generation runs on.
pub const MODEL: &'static str = "gemma3:4b";

pub const SPAWN_FAILED: &'static str = "Failed to start Ollama: ";

pub const WRITE_FAILED: &'static str = "Failed to write to Ollama: ";

pub const WAIT_FAILED: &'static str = "Ollama process failed: ";

pub const EXIT_FAILED: &'static str = "Ollama error: ";

/// How one run of the runtime process went, as the shell observed it. The
/// three early failures carry the operating system's description of the
/// error; a run that ended carries its exit status and both streams in full.
pub enum RunReport {
    SpawnFailed(String),
    WriteFailed(String),
    WaitFailed(String),
    Exited { success: bool, stdout: Vec<u8>, stderr: Vec<u8> },
}

/// The result of an inference: the raw text, or a diagnostic.
pub enum InferenceOutcome {
    Success(String),
    Failure(String),
}

/// An `InferenceOutcome` as plain text.
pub enum OutcomeText {
    Success(Seq<char>),
    Failure(Seq<char>),
}

impl View for InferenceOutcome {
    type V = OutcomeText;

    open spec fn view(&self) -> OutcomeText {
        match self {
            InferenceOutcome::Success(text) => OutcomeText::Success(text@),
            InferenceOutcome::Failure(diagnostic) => OutcomeText::Failure(diagnostic@),
        }
    }
}

/// The outcome of a run that ended, given the decoded text of the stream
/// that counts: standard output after success, standard error otherwise.
pub open spec fn exit_outcome(success: bool, decoded: Seq<char>) -> OutcomeText {
    if success {
        OutcomeText::Success(decoded)
    } else {
        OutcomeText::Failure(EXIT_FAILED@ + decoded)
    }
}

/// The outcome of a run. Output is decoded lossily; only a run that ended
/// with success is a success, and its text is standard output untouched.
pub open spec fn outcome_of(report: RunReport) -> OutcomeText {
    match report {
        RunReport::SpawnFailed(error) => OutcomeText::Failure(SPAWN_FAILED@ + error@),
        RunReport::WriteFailed(error) => OutcomeText::Failure(WRITE_FAILED@ + error@),
        RunReport::WaitFailed(error) => OutcomeText::Failure(WAIT_FAILED@ + error@),
        RunReport::Exited { success, stdout, stderr } => exit_outcome(
            success,
            utf8_lossy(
                if success {
                    stdout@
                } else {
                    stderr@
                },
            ),
        ),
    }
}

fn failure(prefix: &str, detail: &str) -> (outcome: InferenceOutcome)
    ensures
        outcome@ == OutcomeText::Failure(prefix@ + detail@),
{
    let mut diagnostic = String::from_str(prefix);
    diagnostic.append(detail);
    InferenceOutcome::Failure(diagnostic)
}

impl InferenceOutcome {
    /// The outcome of a run that ended, from the decoded text of the stream
    /// that counts.
    pub fn from_exit(success: bool, decoded: String) -> (outcome: InferenceOutcome)
        ensures
            outcome@ == exit_outcome(success, decoded@),
    {
        if success {
            InferenceOutcome::Success(decoded)
        } else {
            failure(EXIT_FAILED, decoded.as_str())
        }
    }

    /// The outcome of a run.
    pub fn from_run(report: &RunReport) -> (outcome: InferenceOutcome)
        ensures
            outcome@ == outcome_of(*report),
            outcome@ is Success <==> report matches RunReport::Exited { success: true, .. },
    {
        match report {
            RunReport::SpawnFailed(error) => failure(SPAWN_FAILED, error.as_str()),
            RunReport::WriteFailed(error) => failure(WRITE_FAILED, error.as_str()),
            RunReport::WaitFailed(error) => failure(WAIT_FAILED, error.as_str()),
            RunReport::Exited { success, stdout, stderr } => {
                if *success {
                    InferenceOutcome::from_exit(true, decode_lossy(stdout))
                } else {
                    InferenceOutcome::from_exit(false, decode_lossy(stderr))
                }
            },
        }
    }

    /// Whether the runtime answered.
    pub fn is_success(&self) -> (answered: bool)
        ensures
            answered == self@ is Success,
    {
        match self {
            InferenceOutcome::Success(_) => true,
            InferenceOutcome::Failure(_) => false,
        }
    }
}

} // verus!
