//! One generation attempt, in two steps around the run of the runtime: the
//! readiness test and the prompt before it, the artifact and its event after it. The
//! shell runs the runtime between the two and delivers the event.
//!
//! Attempts keep nothing from one another: what a later attempt knows of an
//! earlier one is the attempt number it is given.

use crate::fallback::{fallback, fallback_text};
use crate::inference::{InferenceOutcome, OutcomeText};
use crate::prompts::{fix_annotation, prompt_text, PromptContext};
use crate::readiness::AppState;
use crate::text::lowercase;
use vstd::prelude::*;

verus! {

/// The name of the event that carries an artifact to the shell's listeners.
pub const TOKEN_EVENT: &'static str = "vibe-token";

pub const NOT_INITIALIZED: &'static str = "Model not initialized";

pub const STOPPED: &'static str = "Generation stopped";

/// Why an attempt was refused.
#[derive(Clone, Copy, Debug, PartialEq, Eq, Structural)]
pub enum SessionError {
    /// Generation was asked for before the environment was probed.
    NotInitialized,
}

impl SessionError {
    /// The error as shown to the caller.
    pub fn message(&self) -> (message: String)
        ensures
            message@ == NOT_INITIALIZED@,
    {
        String::from_str(NOT_INITIALIZED)
    }
}

/// A notification for the shell's listeners.
pub struct StreamEvent {
    pub name: String,
    pub payload: String,
}

/// What a finished attempt hands back: the artifact for the caller and the
/// one event for the listeners.
pub struct Completion {
    pub artifact: String,
    pub event: StreamEvent,
}

/// An attempt that was admitted and waits for the runtime.
pub struct Pending {
    context: PromptContext,
    prompt: String,
}

/// The artifact of an attempt: the runtime's text as it came, or else the
/// stand-in for the request.
pub open spec fn artifact_text(
    outcome: OutcomeText,
    lowered: Seq<char>,
    request: Seq<char>,
    is_fix_attempt: bool,
) -> Seq<char> {
    match outcome {
        OutcomeText::Success(text) => text,
        OutcomeText::Failure(_) => fallback_text(lowered, request, is_fix_attempt),
    }
}

impl Completion {
    /// Whether this is the completion that carries `artifact`: the caller
    /// gets it, and the one event holds the same text under the event's name.
    pub open spec fn carries(&self, artifact: Seq<char>) -> bool {
        &&& self.artifact@ == artifact
        &&& self.event.name@ == TOKEN_EVENT@
        &&& self.event.payload@ == artifact
    }

    /// Wraps an artifact with its event.
    pub fn of(artifact: String) -> (completion: Completion)
        ensures
            completion.carries(artifact@),
    {
        let payload = artifact.clone();
        Completion { artifact, event: StreamEvent { name: String::from_str(TOKEN_EVENT), payload } }
    }
}

impl Pending {
    /// The request of this attempt.
    pub closed spec fn request(&self) -> Seq<char> {
        self.context.user_text@
    }

    /// The attempt number, if this attempt is a correction.
    pub closed spec fn fix_attempt(&self) -> Option<u32> {
        self.context.fix_attempt
    }

    /// The prompt that the runtime is to answer.
    pub closed spec fn prompt_model(&self) -> Seq<char> {
        self.prompt@
    }

    /// The prompt that the runtime is to answer.
    pub fn prompt(&self) -> (prompt: &str)
        ensures
            prompt@ == self.prompt_model(),
    {
        self.prompt.as_str()
    }

    /// Ends the attempt with what the runtime gave. It cannot fail: where
    /// the runtime did, the stand-in artifact is given, and that one is
    /// never empty.
    pub fn complete(self, outcome: InferenceOutcome) -> (completion: Completion)
        ensures
            completion.carries(
                artifact_text(
                    outcome@,
                    lowercase(self.request()),
                    self.request(),
                    self.fix_attempt() is Some,
                ),
            ),
            outcome@ is Failure ==> completion.artifact@.len() > 0,
    {
        match outcome {
            InferenceOutcome::Success(text) => Completion::of(text),
            InferenceOutcome::Failure(_) => {
                let artifact = fallback(
                    self.context.user_text.as_str(),
                    self.context.is_fix_attempt(),
                );
                Completion::of(artifact)
            },
        }
    }
}

/// Starts an attempt. It is refused exactly if no probe has run yet, and then
/// nothing is built or emitted; otherwise the attempt waits with its prompt.
pub fn begin(state: &AppState, context: PromptContext) -> (started: Result<Pending, SessionError>)
    ensures
        started is Ok <==> state.ready(),
        started is Err ==> started == Err::<Pending, SessionError>(SessionError::NotInitialized),
        started is Ok ==> {
            let pending = started->Ok_0;
            &&& pending.request() == context.user_text@
            &&& pending.fix_attempt() == context.fix_attempt
            &&& pending.prompt_model() == prompt_text(context.user_text@, context.fix_attempt)
        },
{
    if !state.is_initialized() {
        return Err(SessionError::NotInitialized);
    }
    let prompt = context.build_prompt();
    Ok(Pending { context, prompt })
}

/// Starts a first attempt at `prompt`. The conversation so far is accepted
/// and takes no part in what is asked of the runtime.
pub fn generate_vibe_stream(state: &AppState, prompt: String, history: Vec<String>) -> (started:
    Result<Pending, SessionError>)
    ensures
        started is Ok <==> state.ready(),
        started is Err ==> started == Err::<Pending, SessionError>(SessionError::NotInitialized),
        started is Ok ==> {
            let pending = started->Ok_0;
            &&& pending.request() == prompt@
            &&& pending.fix_attempt() is None
            &&& pending.prompt_model() == prompt_text(prompt@, None)
        },
{
    begin(state, PromptContext::plain(prompt, history))
}

/// Starts an attempt at `prompt` that is a correction exactly if
/// `is_fix_attempt` is set; the attempt number is written into the prompt
/// only then.
pub fn generate_vibe_with_healing(
    state: &AppState,
    prompt: String,
    is_fix_attempt: bool,
    attempt_number: u32,
) -> (started: Result<Pending, SessionError>)
    ensures
        started is Ok <==> state.ready(),
        started is Err ==> started == Err::<Pending, SessionError>(SessionError::NotInitialized),
        started is Ok ==> {
            let pending = started->Ok_0;
            &&& pending.request() == prompt@
            &&& pending.fix_attempt() == fix_annotation(is_fix_attempt, attempt_number)
            &&& pending.prompt_model() == prompt_text(
                prompt@,
                fix_annotation(is_fix_attempt, attempt_number),
            )
        },
{
    begin(state, PromptContext::healing(prompt, is_fix_attempt, attempt_number))
}

/// Acknowledges a request to stop. Nothing is interrupted.
pub fn stop_generation() -> (acknowledgement: String)
    ensures
        acknowledgement@ == STOPPED@,
{
    String::from_str(STOPPED)
}

} // verus!
