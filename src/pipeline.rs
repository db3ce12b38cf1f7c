//! The processing graph from a captured stream to the sink device, and the
//! decisions taken while it is brought to the playing state.
use vstd::prelude::*;

use crate::text::{decimal, decimal_of};

verus! {

/// The state of a pipeline, as the engine reports it.
#[derive(Debug, Clone, Copy, PartialEq, Eq, Structural)]
pub enum PipelineState {
    VoidPending,
    Null,
    Ready,
    Paused,
    Playing,
}

/// What the engine answers to a request for a state change.
#[derive(Debug, Clone, Copy, PartialEq, Eq, Structural)]
pub enum StateChange {
    /// The change is done.
    Success,
    /// The change goes on in the background.
    Async,
    /// The change is done, and a live source produces no preroll.
    NoPreroll,
    /// The change failed.
    Failure,
}

/// Why the pipeline did not reach the playing state.
#[derive(Debug, Clone, Copy, PartialEq, Eq, Structural)]
pub enum StartError {
    /// The engine refused the change at once.
    Refused,
    /// The change ended in another state than playing.
    Failed(PipelineState),
    /// The change did not complete within the timeout.
    Timeout,
}

/// How long a pending start is awaited, in seconds.
pub const START_TIMEOUT_SECS: u64 = 10;

/// The textual description of the graph: the capture node, conversion,
/// scaling, a fixed raw format, a tee, and the device sink.
pub open spec fn pipeline_text(node_id: u32, device: Seq<char>) -> Seq<char> {
    "pipewiresrc path="@ + decimal_of(node_id as nat)
        + " ! videoconvert ! videoscale ! video/x-raw,format=YUY2,width=850,height=480 ! tee ! v4l2sink device="@
        + device
}

/// The description of the graph that carries stream `node_id` to `device`.
pub fn pipeline_description(node_id: u32, device: &str) -> (r: String)
    ensures
        r@ == pipeline_text(node_id, device@),
{
    let s = String::from_str("pipewiresrc path=");
    let id = decimal(node_id);
    let s = s.concat(id.as_str());
    let s = s.concat(
        " ! videoconvert ! videoscale ! video/x-raw,format=YUY2,width=850,height=480 ! tee ! v4l2sink device=",
    );
    s.concat(device)
}

/// What follows a request to play.
#[derive(Debug, Clone, Copy, PartialEq, Eq, Structural)]
pub enum PlayStep {
    /// The pipeline plays: go on without waiting.
    Playing,
    /// The change is pending: await it, up to the timeout.
    Await,
    /// The pipeline cannot start.
    Fail(StartError),
}

/// The step after the engine answered a request to play. A change done at
/// once is not waited for; a pending one is awaited.
pub fn on_play_requested(change: StateChange) -> (r: PlayStep)
    ensures
        change == StateChange::Success ==> r == PlayStep::Playing,
        change == StateChange::NoPreroll ==> r == PlayStep::Playing,
        change == StateChange::Async ==> r == PlayStep::Await,
        change == StateChange::Failure ==> r == PlayStep::Fail(StartError::Refused),
{
    match change {
        StateChange::Success => PlayStep::Playing,
        StateChange::NoPreroll => PlayStep::Playing,
        StateChange::Async => PlayStep::Await,
        StateChange::Failure => PlayStep::Fail(StartError::Refused),
    }
}

/// The outcome of awaiting a pending start: the engine's answer after the
/// timeout, and the state it reports then.
pub fn on_play_resolved(change: StateChange, state: PipelineState) -> (r: Result<
    PipelineState,
    StartError,
>)
    ensures
        change == StateChange::Async ==> r == Err::<PipelineState, StartError>(
            StartError::Timeout,
        ),
        change != StateChange::Async && state == PipelineState::Playing && change
            != StateChange::Failure ==> r == Ok::<PipelineState, StartError>(
            PipelineState::Playing,
        ),
        change != StateChange::Async && (state != PipelineState::Playing || change
            == StateChange::Failure) ==> r == Err::<PipelineState, StartError>(
            StartError::Failed(state),
        ),
{
    match change {
        StateChange::Async => Err(StartError::Timeout),
        StateChange::Failure => Err(StartError::Failed(state)),
        _ => {
            if state == PipelineState::Playing {
                Ok(PipelineState::Playing)
            } else {
                Err(StartError::Failed(state))
            }
        },
    }
}

} // verus!
