use screencast::pipeline::{
    on_play_requested, on_play_resolved, pipeline_description, PipelineState, PlayStep,
    StartError, StateChange,
};
use screencast::screencast::{first_stream_node, source_policy, CursorMode, NegotiationError, PersistMode};

#[test]
fn description_of_the_graph() {
    assert_eq!(
        pipeline_description(42, "/dev/video9"),
        "pipewiresrc path=42 ! videoconvert ! videoscale ! video/x-raw,format=YUY2,width=850,height=480 ! tee ! v4l2sink device=/dev/video9"
    );
}

#[test]
fn immediate_start_does_not_wait() {
    assert_eq!(on_play_requested(StateChange::Success), PlayStep::Playing);
    assert_eq!(on_play_requested(StateChange::NoPreroll), PlayStep::Playing);
    assert_eq!(on_play_requested(StateChange::Async), PlayStep::Await);
    assert_eq!(on_play_requested(StateChange::Failure), PlayStep::Fail(StartError::Refused));
}

#[test]
fn pending_start_resolution() {
    assert_eq!(on_play_resolved(StateChange::Success, PipelineState::Playing), Ok(PipelineState::Playing));
    assert_eq!(on_play_resolved(StateChange::Async, PipelineState::Paused), Err(StartError::Timeout));
    assert_eq!(
        on_play_resolved(StateChange::Success, PipelineState::Paused),
        Err(StartError::Failed(PipelineState::Paused))
    );
    assert_eq!(
        on_play_resolved(StateChange::Failure, PipelineState::Playing),
        Err(StartError::Failed(PipelineState::Playing))
    );
}

#[test]
fn negotiation_takes_first_stream() {
    assert_eq!(first_stream_node(&vec![42, 7]), Ok(42));
    assert_eq!(first_stream_node(&vec![]), Err(NegotiationError::NoStream));
}

#[test]
fn negotiation_policy() {
    let p = source_policy();
    assert_eq!(p.cursor, CursorMode::Hidden);
    assert!(p.monitor && p.window && !p.multiple);
    assert_eq!(p.persist, PersistMode::DoNot);
}
