//! The course of a run, as a state machine. The caller performs each action
//! it is given (querying devices, negotiating the capture, driving the
//! pipeline, waiting) and hands back what came of it as an event. The
//! pipeline reaches playing before the device is checked and before the wait;
//! once it is built, every end of the run passes through its stop.
use vstd::prelude::*;

use crate::device::{
    check_device_capabilities, default_video_dev, first_sink, is_sink_candidate, DeviceError,
    VideoDevice, VIDEO_CAPTURE,
};
use crate::pipeline::{
    on_play_requested, on_play_resolved, pipeline_description, pipeline_text, PipelineState,
    PlayStep, StartError, StateChange, START_TIMEOUT_SECS,
};
use crate::screencast::{first_stream_node, NegotiationError};
use crate::text::{first_line_holding, line_holds};
use crate::wait::android::{webcam_for_device, webcam_of, LaunchError};
use crate::wait::Wait;

verus! {

/// Why a run failed.
#[derive(Debug, Clone, Copy, PartialEq, Eq, Structural)]
pub enum RunError {
    Device(DeviceError),
    Negotiation(NegotiationError),
    /// The pipeline could not be built from its description.
    Build,
    Start(StartError),
    /// The pipeline could not be brought back to the null state.
    Stop,
    Launch(LaunchError),
    /// Reading input, querying the device or running the emulator failed.
    Io,
}

/// Where a run stands.
#[derive(Debug, Clone, Copy, PartialEq, Eq, Structural)]
pub enum Stage {
    Resolving,
    Negotiating,
    Building,
    Starting,
    AwaitingStart,
    Checking,
    Waiting,
    ListingWebcams,
    Emulating,
    Stopping,
    Done,
}

/// What the caller is asked to do next.
#[derive(Debug, Clone, PartialEq, Eq)]
pub enum Action {
    /// Query every video device.
    ListDevices,
    /// Negotiate a capture session with the policy of `source_policy`.
    Negotiate,
    /// Build the pipeline from this description.
    Build(String),
    /// Ask the pipeline to play.
    SetPlaying,
    /// Await the pending state change, up to this many seconds.
    AwaitPlaying(u64),
    /// Query the capabilities of this device.
    QueryCapabilities(String),
    /// Read one line of input.
    ReadLine,
    /// Sleep this many seconds and nanoseconds.
    Sleep(u64, u32),
    /// Run this program with these arguments and collect its output.
    ListWebcams(String, Vec<String>),
    /// Run this program with these arguments until it exits.
    RunEmulator(String, Vec<String>),
    /// Bring the pipeline to the null state.
    SetNull,
    /// The run is over, with this failure or none.
    Exit(Option<RunError>),
}

/// What came of an action.
#[derive(Debug)]
pub enum Event {
    /// The devices found, in the order the system gives them.
    Devices(Vec<VideoDevice>),
    /// The node ids of the started session's streams, in order.
    Streams(Result<Vec<u32>, NegotiationError>),
    /// Whether the pipeline was built.
    Built(bool),
    /// The engine's answer to the request to play.
    PlayRequested(StateChange),
    /// The engine's answer after the wait, and the state it reports.
    PlayResolved(StateChange, PipelineState),
    /// The device's capabilities; none where it could not be queried.
    Capabilities(Option<u32>),
    /// Whether the input or the delay was waited for without failure.
    Waited(bool),
    /// Whether the listing succeeded, and what it printed.
    WebcamsListed(bool, String),
    /// Whether the emulator ran and exited.
    EmulatorExited(bool),
    /// Whether the pipeline reached the null state.
    Stopped(bool),
}

/// A run in progress.
pub struct Run {
    pub stage: Stage,
    /// The sink device, once known.
    pub device: String,
    /// How the run ends.
    pub waiter: Wait,
    /// The failure that the pending stop precedes.
    pub failure: Option<RunError>,
}

impl Run {
    /// A pipeline exists in this stage.
    pub open spec fn pipeline_built(&self) -> bool {
        match self.stage {
            Stage::Starting | Stage::AwaitingStart | Stage::Checking | Stage::Waiting
            | Stage::ListingWebcams | Stage::Emulating | Stage::Stopping => true,
            _ => false,
        }
    }

    pub open spec fn wf(&self) -> bool {
        &&& self.waiter.wf()
        &&& self.failure is Some ==> self.stage == Stage::Stopping
        &&& self.stage == Stage::ListingWebcams ==> self.waiter is Emulator
    }

    /// The event is an answer to the action of the current stage.
    pub open spec fn accepts(&self, event: &Event) -> bool {
        match (self.stage, event) {
            (Stage::Resolving, Event::Devices(_)) => true,
            (Stage::Negotiating, Event::Streams(_)) => true,
            (Stage::Building, Event::Built(_)) => true,
            (Stage::Starting, Event::PlayRequested(_)) => true,
            (Stage::AwaitingStart, Event::PlayResolved(_, _)) => true,
            (Stage::Checking, Event::Capabilities(_)) => true,
            (Stage::Waiting, Event::Waited(_)) => true,
            (Stage::ListingWebcams, Event::WebcamsListed(_, _)) => true,
            (Stage::Emulating, Event::EmulatorExited(_)) => true,
            (Stage::Stopping, Event::Stopped(_)) => true,
            _ => false,
        }
    }

    /// Whether `event` answers the action of the current stage.
    pub fn accepts_event(&self, event: &Event) -> (r: bool)
        ensures
            r == self.accepts(event),
    {
        match (self.stage, event) {
            (Stage::Resolving, Event::Devices(_)) => true,
            (Stage::Negotiating, Event::Streams(_)) => true,
            (Stage::Building, Event::Built(_)) => true,
            (Stage::Starting, Event::PlayRequested(_)) => true,
            (Stage::AwaitingStart, Event::PlayResolved(_, _)) => true,
            (Stage::Checking, Event::Capabilities(_)) => true,
            (Stage::Waiting, Event::Waited(_)) => true,
            (Stage::ListingWebcams, Event::WebcamsListed(_, _)) => true,
            (Stage::Emulating, Event::EmulatorExited(_)) => true,
            (Stage::Stopping, Event::Stopped(_)) => true,
            _ => false,
        }
    }

    /// `next` and `action` fail `self` with `err`: through the stop where a
    /// pipeline exists, else at once.
    pub open spec fn fails_to(&self, next: Run, action: Action, err: RunError) -> bool {
        &&& next.device == self.device
        &&& next.waiter == self.waiter
        &&& if self.pipeline_built() {
            &&& next.stage == Stage::Stopping
            &&& next.failure == Some(err)
            &&& action is SetNull
        } else {
            &&& next.stage == Stage::Done
            &&& next.failure is None
            &&& action == Action::Exit(Some(err))
        }
    }

    /// `next` and `action` move `self` on to `stage` with `action`, all else kept.
    pub open spec fn moves_to(&self, next: Run, stage: Stage) -> bool {
        &&& next.device == self.device
        &&& next.waiter == self.waiter
        &&& next.failure is None
        &&& next.stage == stage
    }

    /// The stage and action that begin the wait of `self`.
    pub open spec fn begins_wait(&self, next: Run, action: Action) -> bool {
        match self.waiter {
            Wait::Input(_) => self.moves_to(next, Stage::Waiting) && action is ReadLine,
            Wait::Delay(d) => self.moves_to(next, Stage::Waiting) && action == Action::Sleep(
                d.secs,
                d.nanos,
            ),
            Wait::Emulator(e) => self.moves_to(next, Stage::ListingWebcams) && match action {
                Action::ListWebcams(program, args) => program@ == e.emulator_path@ && args@.len()
                    == 1 && args@[0]@ == "-webcam-list"@,
                _ => false,
            },
        }
    }

    /// A run on `device`, or on the first loopback output device where none is
    /// given, ended by `waiter`; with its first action.
    pub fn new(device: Option<String>, waiter: Wait) -> (r: (Run, Action))
        requires
            waiter.wf(),
        ensures
            r.0.wf(),
            r.0.waiter == waiter,
            r.0.failure is None,
            device is Some ==> r.0.stage == Stage::Negotiating && r.0.device@ == device->Some_0@
                && r.1 is Negotiate,
            device is None ==> r.0.stage == Stage::Resolving && r.1 is ListDevices,
    {
        match device {
            Some(d) => (Run { stage: Stage::Negotiating, device: d, waiter, failure: None }, Action::Negotiate),
            None => (
                Run { stage: Stage::Resolving, device: String::new(), waiter, failure: None },
                Action::ListDevices,
            ),
        }
    }

    fn fail(&mut self, err: RunError) -> (action: Action)
        requires
            old(self).wf(),
            old(self).failure is None,
            old(self).stage != Stage::Done,
        ensures
            final(self).wf(),
            old(self).fails_to(*final(self), action, err),
    {
        if self.stage == Stage::Resolving || self.stage == Stage::Negotiating || self.stage
            == Stage::Building {
            self.stage = Stage::Done;
            Action::Exit(Some(err))
        } else {
            self.stage = Stage::Stopping;
            self.failure = Some(err);
            Action::SetNull
        }
    }

    fn begin_wait(&mut self) -> (action: Action)
        requires
            old(self).wf(),
            old(self).failure is None,
        ensures
            final(self).wf(),
            old(self).begins_wait(*final(self), action),
    {
        match &self.waiter {
            Wait::Input(_) => {
                self.stage = Stage::Waiting;
                Action::ReadLine
            },
            Wait::Delay(d) => {
                let (secs, nanos) = (d.secs, d.nanos);
                self.stage = Stage::Waiting;
                Action::Sleep(secs, nanos)
            },
            Wait::Emulator(e) => {
                let program = e.emulator_path.clone();
                let args = e.list_args();
                self.stage = Stage::ListingWebcams;
                Action::ListWebcams(program, args)
            },
        }
    }

    /// Moves the run on by what came of its last action, and gives the next
    /// action.
    pub fn step(&mut self, event: Event) -> (action: Action)
        requires
            old(self).wf(),
            old(self).accepts(&event),
        ensures
            final(self).wf(),
            match event {
                Event::Devices(devices) => {
                    &&& (forall|j: int| 0 <= j < devices@.len() ==> !is_sink_candidate(#[trigger] devices@[j]))
                        ==> old(self).fails_to(*final(self), action, RunError::Device(DeviceError::NotFound))
                    &&& (exists|j: int| 0 <= j < devices@.len() && is_sink_candidate(#[trigger] devices@[j]))
                        ==> final(self).stage == Stage::Negotiating && action is Negotiate
                        && first_sink(devices@, Ok::<String, DeviceError>(final(self).device))
                        && final(self).waiter == old(self).waiter && final(self).failure is None
                },
                Event::Streams(Err(e)) => old(self).fails_to(*final(self), action, RunError::Negotiation(e)),
                Event::Streams(Ok(nodes)) => {
                    &&& nodes@.len() == 0 ==> old(self).fails_to(*final(self), action, RunError::Negotiation(NegotiationError::NoStream))
                    &&& nodes@.len() > 0 ==> old(self).moves_to(*final(self), Stage::Building) && match action {
                        Action::Build(text) => text@ == pipeline_text(nodes@[0], old(self).device@),
                        _ => false,
                    }
                },
                Event::Built(ok) => {
                    &&& ok ==> old(self).moves_to(*final(self), Stage::Starting) && action is SetPlaying
                    &&& !ok ==> old(self).fails_to(*final(self), action, RunError::Build)
                },
                Event::PlayRequested(change) => match change {
                    StateChange::Success | StateChange::NoPreroll => old(self).moves_to(*final(self), Stage::Checking)
                        && action == Action::QueryCapabilities(old(self).device),
                    StateChange::Async => old(self).moves_to(*final(self), Stage::AwaitingStart)
                        && action == Action::AwaitPlaying(START_TIMEOUT_SECS),
                    StateChange::Failure => old(self).fails_to(*final(self), action, RunError::Start(StartError::Refused)),
                },
                Event::PlayResolved(change, state) => {
                    &&& change == StateChange::Async ==> old(self).fails_to(*final(self), action, RunError::Start(StartError::Timeout))
                    &&& change != StateChange::Async && change != StateChange::Failure && state == PipelineState::Playing
                        ==> old(self).moves_to(*final(self), Stage::Checking)
                        && action == Action::QueryCapabilities(old(self).device)
                    &&& change != StateChange::Async && (change == StateChange::Failure || state != PipelineState::Playing)
                        ==> old(self).fails_to(*final(self), action, RunError::Start(StartError::Failed(state)))
                },
                Event::Capabilities(None) => old(self).fails_to(*final(self), action, RunError::Io),
                Event::Capabilities(Some(caps)) => {
                    &&& caps & VIDEO_CAPTURE != 0 ==> old(self).begins_wait(*final(self), action)
                    &&& caps & VIDEO_CAPTURE == 0 ==> old(self).fails_to(*final(self), action, RunError::Device(DeviceError::IncapableDevice))
                },
                Event::Waited(ok) | Event::EmulatorExited(ok) => {
                    &&& ok ==> old(self).moves_to(*final(self), Stage::Stopping) && action is SetNull
                    &&& !ok ==> old(self).fails_to(*final(self), action, RunError::Io)
                },
                Event::WebcamsListed(listed, listing) => {
                    &&& !listed ==> old(self).fails_to(*final(self), action, RunError::Launch(LaunchError::ListFailed))
                    &&& listed && (forall|k: int| !line_holds(listing@, old(self).device@, k))
                        ==> old(self).fails_to(*final(self), action, RunError::Launch(LaunchError::NoWebcam))
                    &&& forall|k: int| listed && first_line_holding(listing@, old(self).device@, k) ==>
                        match webcam_of(listing@, old(self).device@, k) {
                            None => old(self).fails_to(*final(self), action, RunError::Launch(LaunchError::NoWebcam)),
                            Some(name) => old(self).moves_to(*final(self), Stage::Emulating) && match (old(self).waiter, action) {
                                (Wait::Emulator(e), Action::RunEmulator(program, args)) => program@ == e.emulator_path@
                                    && args@.len() == 4 && args@[0]@ == "-avd"@ && args@[1]@ == e.avd@
                                    && args@[2]@ == "-camera-back"@ && args@[3]@ == name,
                                _ => false,
                            },
                        }
                },
                Event::Stopped(ok) => {
                    &&& final(self).stage == Stage::Done
                    &&& final(self).failure is None
                    &&& old(self).failure is Some ==> action == Action::Exit(old(self).failure)
                    &&& old(self).failure is None && ok ==> action == Action::Exit(None)
                    &&& old(self).failure is None && !ok ==> action == Action::Exit(Some(RunError::Stop))
                },
            },
    {
        match event {
            Event::Devices(devices) => {
                match default_video_dev(&devices) {
                    Ok(path) => {
                        self.device = path;
                        self.stage = Stage::Negotiating;
                        Action::Negotiate
                    },
                    Err(e) => self.fail(RunError::Device(e)),
                }
            },
            Event::Streams(Err(e)) => self.fail(RunError::Negotiation(e)),
            Event::Streams(Ok(nodes)) => {
                match first_stream_node(&nodes) {
                    Ok(node) => {
                        let text = pipeline_description(node, self.device.as_str());
                        self.stage = Stage::Building;
                        Action::Build(text)
                    },
                    Err(e) => self.fail(RunError::Negotiation(e)),
                }
            },
            Event::Built(ok) => {
                if ok {
                    self.stage = Stage::Starting;
                    Action::SetPlaying
                } else {
                    self.fail(RunError::Build)
                }
            },
            Event::PlayRequested(change) => {
                match on_play_requested(change) {
                    PlayStep::Playing => {
                        self.stage = Stage::Checking;
                        Action::QueryCapabilities(self.device.clone())
                    },
                    PlayStep::Await => {
                        self.stage = Stage::AwaitingStart;
                        Action::AwaitPlaying(START_TIMEOUT_SECS)
                    },
                    PlayStep::Fail(e) => self.fail(RunError::Start(e)),
                }
            },
            Event::PlayResolved(change, state) => {
                match on_play_resolved(change, state) {
                    Ok(_) => {
                        self.stage = Stage::Checking;
                        Action::QueryCapabilities(self.device.clone())
                    },
                    Err(e) => self.fail(RunError::Start(e)),
                }
            },
            Event::Capabilities(None) => self.fail(RunError::Io),
            Event::Capabilities(Some(caps)) => {
                match check_device_capabilities(caps) {
                    Ok(()) => self.begin_wait(),
                    Err(e) => self.fail(RunError::Device(e)),
                }
            },
            Event::Waited(ok) | Event::EmulatorExited(ok) => {
                if ok {
                    self.stage = Stage::Stopping;
                    Action::SetNull
                } else {
                    self.fail(RunError::Io)
                }
            },
            Event::WebcamsListed(listed, listing) => {
                let found = webcam_for_device(listed, listing.as_str(), self.device.as_str());
                match found {
                    Ok(name) => {
                        match &self.waiter {
                            Wait::Emulator(e) => {
                                let program = e.emulator_path.clone();
                                let args = e.launch_args(name.as_str());
                                self.stage = Stage::Emulating;
                                Action::RunEmulator(program, args)
                            },
                            _ => {
                                // Only an emulator lists webcams.
                                proof {
                                    assert(false);
                                }
                                Action::SetNull
                            },
                        }
                    },
                    Err(e) => self.fail(RunError::Launch(e)),
                }
            },
            Event::Stopped(ok) => {
                let failure = self.failure;
                self.stage = Stage::Done;
                self.failure = None;
                match failure {
                    Some(e) => Action::Exit(Some(e)),
                    None => if ok {
                        Action::Exit(None)
                    } else {
                        Action::Exit(Some(RunError::Stop))
                    },
                }
            },
        }
    }
}

} // verus!
