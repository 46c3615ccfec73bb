//! Readiness: one probe of the environment, after which generation may
//! proceed whatever the probe found.

use crate::inference::MODEL;
use crate::text::{contains, decode_lossy, occurs_in, utf8_lossy};
use vstd::prelude::*;

verus! {

pub const MESSAGE_READY: &'static str = "Gemma 3 4B model ready! 🍒";

pub const MESSAGE_MODEL_MISSING: &'static str =
    "Ollama found, but Gemma 3 4B model not installed. Using mock mode. Run 'ollama pull gemma3:4b' to install the model. 🍒";

pub const MESSAGE_UNHEALTHY: &'static str = "Ollama not responding properly. Using mock mode. 🍒";

pub const MESSAGE_ABSENT: &'static str =
    "Ollama not found. Using mock mode. Install Ollama and run 'ollama pull gemma3:4b' for real AI generation. 🍒";

/// How the listing of installed models went, as the shell observed it.
pub enum ProbeReport {
    /// The listing command could not be run at all.
    NotLaunched,
    /// The command ran; `stdout` is all it printed.
    Exited { success: bool, stdout: Vec<u8> },
}

/// What the probe found. None of the four blocks generation.
#[derive(Clone, Copy, Debug, PartialEq, Eq, Structural)]
pub enum Readiness {
    /// The runtime is not installed.
    RuntimeAbsent,
    /// The runtime ran and reported failure.
    RuntimeUnhealthy,
    /// The runtime works and lacks the model.
    ModelMissing,
    /// The runtime works and holds the model.
    ModelReady,
}

/// What a successful listing says: the model is there exactly if its
/// identifier occurs in the listing.
pub open spec fn readiness_of_listing(listing: Seq<char>) -> Readiness {
    if occurs_in(listing, MODEL@) {
        Readiness::ModelReady
    } else {
        Readiness::ModelMissing
    }
}

/// What a probe says. A listing is decoded lossily before it is searched.
pub open spec fn readiness_of(report: ProbeReport) -> Readiness {
    match report {
        ProbeReport::NotLaunched => Readiness::RuntimeAbsent,
        ProbeReport::Exited { success, stdout } => if success {
            readiness_of_listing(utf8_lossy(stdout@))
        } else {
            Readiness::RuntimeUnhealthy
        },
    }
}

impl Readiness {
    /// The message shown for this finding.
    pub open spec fn message_text(self) -> Seq<char> {
        match self {
            Readiness::RuntimeAbsent => MESSAGE_ABSENT@,
            Readiness::RuntimeUnhealthy => MESSAGE_UNHEALTHY@,
            Readiness::ModelMissing => MESSAGE_MODEL_MISSING@,
            Readiness::ModelReady => MESSAGE_READY@,
        }
    }

    /// Reads a successful listing.
    pub fn from_listing(listing: &str) -> (found: Readiness)
        ensures
            found == readiness_of_listing(listing@),
    {
        if contains(listing, MODEL) {
            Readiness::ModelReady
        } else {
            Readiness::ModelMissing
        }
    }

    /// Reads a probe.
    pub fn from_probe(report: &ProbeReport) -> (found: Readiness)
        ensures
            found == readiness_of(*report),
    {
        match report {
            ProbeReport::NotLaunched => Readiness::RuntimeAbsent,
            ProbeReport::Exited { success, stdout } => {
                if *success {
                    let listing = decode_lossy(stdout);
                    Readiness::from_listing(listing.as_str())
                } else {
                    Readiness::RuntimeUnhealthy
                }
            },
        }
    }

    /// The message shown for this finding.
    pub fn message(&self) -> (message: &'static str)
        ensures
            message@ == self.message_text(),
    {
        match self {
            Readiness::RuntimeAbsent => MESSAGE_ABSENT,
            Readiness::RuntimeUnhealthy => MESSAGE_UNHEALTHY,
            Readiness::ModelMissing => MESSAGE_MODEL_MISSING,
            Readiness::ModelReady => MESSAGE_READY,
        }
    }

    /// Whether generation will run on the model rather than on stand-ins.
    pub fn real_inference(&self) -> (on_model: bool)
        ensures
            on_model == (*self == Readiness::ModelReady),
    {
        match self {
            Readiness::ModelReady => true,
            _ => false,
        }
    }
}

/// Whether the environment has been probed. Generation waits for that.
pub struct AppState {
    is_initialized: bool,
}

impl AppState {
    /// Whether the probe has run.
    pub closed spec fn ready(&self) -> bool {
        self.is_initialized
    }

    /// The state before any probe.
    pub fn new() -> (state: AppState)
        ensures
            !state.ready(),
    {
        AppState { is_initialized: false }
    }

    /// Whether the probe has run.
    pub fn is_initialized(&self) -> (ready: bool)
        ensures
            ready == self.ready(),
    {
        self.is_initialized
    }
}

/// Records a probe: from now on generation may proceed, whatever was found.
/// Gives the message for the finding.
pub fn initialize_model(state: &mut AppState, report: &ProbeReport) -> (message: String)
    ensures
        final(state).ready(),
        message@ == readiness_of(*report).message_text(),
{
    let found = Readiness::from_probe(report);
    state.is_initialized = true;
    String::from_str(found.message())
}

} // verus!
