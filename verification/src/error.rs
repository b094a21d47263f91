//! What can go wrong, and how the process ends.
//!
//! Nothing is retried and nothing is swallowed: every failure is fatal, and
//! each kind of failure ends the process with a status of its own.

use vstd::prelude::*;

verus! {

/// A failure while the renderer is set up.
#[derive(Clone, Copy, Debug, PartialEq, Eq, Structural)]
pub enum InitError {
    /// No adapter matches the request.
    NoAdapter,
    /// The adapter gave no device.
    NoDevice,
    /// A shader blob is not a shader binary.
    ShaderModule,
    /// The device refused the pipeline.
    Pipeline,
}

/// A failure while frames are drawn.
#[derive(Clone, Copy, Debug, PartialEq, Eq, Structural)]
pub enum FrameError {
    /// The next image of the swap-surface could not be acquired.
    SurfaceLost,
    /// The swap-surface could not be rebuilt after a resize.
    ResizeFailed,
}

/// Why the process ends.
#[derive(Clone, Copy, Debug, PartialEq, Eq, Structural)]
pub enum Outcome {
    /// The user asked to quit.
    Quit,
    Init(InitError),
    Frame(FrameError),
}

/// The exit status that goes with each way of ending.
pub open spec fn spec_exit_status(outcome: Outcome) -> i32 {
    match outcome {
        Outcome::Quit => 0,
        Outcome::Init(InitError::NoAdapter) => 10,
        Outcome::Init(InitError::NoDevice) => 11,
        Outcome::Init(InitError::ShaderModule) => 12,
        Outcome::Init(InitError::Pipeline) => 13,
        Outcome::Frame(FrameError::SurfaceLost) => 20,
        Outcome::Frame(FrameError::ResizeFailed) => 21,
    }
}

/// The exit status of the process: 0 after a quit, and a non-zero status that
/// names the failure otherwise.
#[verifier::when_used_as_spec(spec_exit_status)]
pub fn exit_status(outcome: Outcome) -> (status: i32)
    ensures
        status == spec_exit_status(outcome),
        status == 0 <==> outcome == Outcome::Quit,
{
    match outcome {
        Outcome::Quit => 0,
        Outcome::Init(InitError::NoAdapter) => 10,
        Outcome::Init(InitError::NoDevice) => 11,
        Outcome::Init(InitError::ShaderModule) => 12,
        Outcome::Init(InitError::Pipeline) => 13,
        Outcome::Frame(FrameError::SurfaceLost) => 20,
        Outcome::Frame(FrameError::ResizeFailed) => 21,
    }
}

/// Two ways of ending that differ have different exit statuses, and only a
/// quit has status 0.
pub proof fn lemma_exit_status_tells_outcomes_apart(a: Outcome, b: Outcome)
    ensures
        exit_status(a) == exit_status(b) ==> a == b,
        exit_status(a) == 0 <==> a == Outcome::Quit,
{
}

} // verus!
