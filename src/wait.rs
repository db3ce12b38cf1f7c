//! When a run ends: on a line of input, after a delay, or when an emulator
//! session closes.
use vstd::prelude::*;

use crate::wait::android::Emulator;

pub mod android;

verus! {

/// Waits for a line of input.
#[derive(Debug, Clone, Copy, PartialEq, Eq, Structural)]
pub struct WaitInput;

/// Waits for a fixed time.
#[derive(Debug, Clone, Copy, PartialEq, Eq, Structural)]
pub struct WaitDelay {
    pub secs: u64,
    pub nanos: u32,
}

/// Nanoseconds in a second.
pub const NANOS_PER_SEC: u32 = 1_000_000_000;

impl WaitDelay {
    /// The delay is a time: its nanoseconds make less than a second.
    pub open spec fn wf(&self) -> bool {
        self.nanos < NANOS_PER_SEC
    }

    /// The delay in nanoseconds.
    pub open spec fn total_nanos(&self) -> int {
        self.secs * NANOS_PER_SEC + self.nanos
    }

    /// A delay of `secs` seconds and `nanos` nanoseconds.
    pub fn new(secs: u64, nanos: u32) -> (r: Self)
        requires
            nanos < NANOS_PER_SEC,
        ensures
            r.wf(),
            r.secs == secs,
            r.nanos == nanos,
    {
        WaitDelay { secs, nanos }
    }

    /// A delay of `secs` whole seconds.
    pub fn from_secs(secs: u64) -> (r: Self)
        ensures
            r.wf(),
            r.secs == secs,
            r.nanos == 0,
            r.total_nanos() == secs * NANOS_PER_SEC,
    {
        WaitDelay { secs, nanos: 0 }
    }
}

/// The ways a run can end.
#[derive(Debug, Clone, PartialEq, Eq)]
pub enum Wait {
    Input(WaitInput),
    Delay(WaitDelay),
    Emulator(Emulator),
}

impl Wait {
    pub open spec fn wf(&self) -> bool {
        match self {
            Wait::Delay(d) => d.wf(),
            _ => true,
        }
    }
}

/// The choice of an end made on the command line.
#[derive(Debug, Clone, PartialEq, Eq)]
pub enum Command {
    WaitInput,
    WaitDelay { seconds: u64 },
    Android { emulator_path: Option<String>, avd: Option<String> },
}

/// The end of a run that `command` chooses: input where none is chosen.
pub fn get_waiter(command: Option<Command>) -> (r: Wait)
    ensures
        r.wf(),
        match command {
            None => r is Input,
            Some(Command::WaitInput) => r is Input,
            Some(Command::WaitDelay { seconds }) => r == Wait::Delay(
                WaitDelay { secs: seconds, nanos: 0 },
            ),
            Some(Command::Android { emulator_path, avd }) => match r {
                Wait::Emulator(e) => e.made_from(emulator_path, avd),
                _ => false,
            },
        },
{
    match command {
        Some(Command::WaitDelay { seconds }) => Wait::Delay(WaitDelay::from_secs(seconds)),
        Some(Command::Android { emulator_path, avd }) => Wait::Emulator(
            Emulator::new(emulator_path, avd),
        ),
        _ => Wait::Input(WaitInput),
    }
}

} // verus!
