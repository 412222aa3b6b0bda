use vstd::prelude::*;

use crate::args::Args;
use crate::device::DeviceEntry;
use crate::device::Observation;
use crate::error::Error;
use crate::evaluate::Verdict;
use crate::evaluate::evaluate;
use crate::evaluate::verdict_of;
use crate::listing::ListEntry;
use crate::listing::list_entries;
use crate::listing::spec_list;
use crate::select::select;
use crate::select::spec_select;

verus! {

/// Where the polling state machine stands: before any cycle has run, or
/// inside the repeat-until-pass loop.
#[derive(Clone, Copy, PartialEq, Eq, Structural, Debug)]
pub enum RunState {
    FirstAttempt,
    Waiting,
}

/// The terminal result of a whole run.
#[derive(Debug)]
pub enum Outcome {
    /// Conditions passed, or the listing succeeded.
    Pass,
    /// Conditions were evaluated and at least one failed.
    Fail,
    /// A cycle failed before a verdict could be reached.
    Error(Error),
}

/// What the driver must do after one cycle: stop with a terminal outcome,
/// or sleep for the given delay and run another cycle in the `Waiting`
/// state.
#[derive(Debug)]
pub enum Step {
    Done(Outcome),
    Wait { delay_ms: u64 },
}

/// What one full cycle produced for the driving loop, besides any printing:
/// either the computed listing, or the observation that was examined
/// together with its verdict.
#[derive(Debug)]
pub enum RunOutput {
    Listing(Vec<ListEntry>),
    Checked { observation: Observation, verdict: Verdict },
}

/// One full cycle: in list mode the listing is computed and the selector is
/// bypassed; otherwise one battery is selected and the predicates are
/// evaluated against its observation.
pub fn run(a: &Args, devices: Vec<DeviceEntry>) -> (r: Result<RunOutput, Error>)
    ensures
        a.list ==> (r matches Ok(RunOutput::Listing(es)) && es@.map_values(|e: ListEntry| e@)
            == spec_list(devices@)),
        !a.list ==> match spec_select(devices@, a.id) {
            Ok(o) => r matches Ok(RunOutput::Checked { observation, verdict }) && observation == o
                && verdict_of(*a, o, verdict),
            Err(e) => r == Err::<RunOutput, Error>(e),
        },
{
    if a.list {
        return Ok(RunOutput::Listing(list_entries(&devices)));
    }
    match select(devices, a.id) {
        Ok(o) => {
            let verdict = evaluate(a, o);
            Ok(RunOutput::Checked { observation: o, verdict })
        },
        Err(e) => Err(e),
    }
}

/// The boolean a cycle's output contributes to the state machine: a listing
/// always counts as success; a checked battery counts as its verdict.
pub open spec fn spec_output_flag(out: RunOutput) -> bool {
    match out {
        RunOutput::Listing(_) => true,
        RunOutput::Checked { verdict, .. } => verdict.pass,
    }
}

/// Reduce a cycle's output to the boolean the state machine consumes.
pub fn output_flag(out: &RunOutput) -> (b: bool)
    ensures
        b == spec_output_flag(*out),
{
    match out {
        RunOutput::Listing(_) => true,
        RunOutput::Checked { verdict, .. } => verdict.pass,
    }
}

/// The polling transition rule.
///
/// On the first attempt, success ends the run at once, an error ends it at
/// once (an error is taken as non-transient, so waiting cannot help), and a
/// false verdict either ends the run or, under `wait`, enters the loop. Once
/// waiting, only success ends the run: a false verdict and an error alike
/// keep the unbounded poll going.
pub open spec fn spec_advance(
    state: RunState,
    wait: bool,
    interval: u64,
    cycle: Result<bool, Error>,
) -> Step {
    match state {
        RunState::FirstAttempt => match cycle {
            Ok(true) => Step::Done(Outcome::Pass),
            Ok(false) => if wait {
                Step::Wait { delay_ms: interval }
            } else {
                Step::Done(Outcome::Fail)
            },
            Err(e) => Step::Done(Outcome::Error(e)),
        },
        RunState::Waiting => match cycle {
            Ok(true) => Step::Done(Outcome::Pass),
            _ => Step::Wait { delay_ms: interval },
        },
    }
}

/// Advance the polling state machine by one observed cycle result.
pub fn advance(state: RunState, wait: bool, interval: u64, cycle: Result<bool, Error>) -> (r: Step)
    ensures
        r == spec_advance(state, wait, interval, cycle),
        cycle == Ok::<bool, Error>(true) ==> r == Step::Done(Outcome::Pass),
        state is FirstAttempt ==> (cycle matches Err(e) ==> r == Step::Done(Outcome::Error(e))),
        state is Waiting && cycle != Ok::<bool, Error>(true) ==> r == (Step::Wait {
            delay_ms: interval,
        }),
{
    match state {
        RunState::FirstAttempt => match cycle {
            Ok(true) => Step::Done(Outcome::Pass),
            Ok(false) => if wait {
                Step::Wait { delay_ms: interval }
            } else {
                Step::Done(Outcome::Fail)
            },
            Err(e) => Step::Done(Outcome::Error(e)),
        },
        RunState::Waiting => match cycle {
            Ok(true) => Step::Done(Outcome::Pass),
            Ok(false) => Step::Wait { delay_ms: interval },
            Err(_) => Step::Wait { delay_ms: interval },
        },
    }
}

/// The process exit code each terminal outcome maps to.
pub open spec fn spec_exit_code(outcome: Outcome) -> u8 {
    match outcome {
        Outcome::Pass => 0,
        Outcome::Fail => 1,
        Outcome::Error(e) => match e {
            Error::NoBatteries => 2,
            Error::TooManyBatteries => 3,
            Error::UnknownBatteryId => 4,
            Error::Unknown => 5,
            Error::Battery(_) => 6,
        },
    }
}

/// Map a terminal outcome to its process exit code.
pub fn exit_code(outcome: &Outcome) -> (r: u8)
    ensures
        r == spec_exit_code(*outcome),
{
    match outcome {
        Outcome::Pass => 0,
        Outcome::Fail => 1,
        Outcome::Error(e) => match e {
            Error::NoBatteries => 2,
            Error::TooManyBatteries => 3,
            Error::UnknownBatteryId => 4,
            Error::Unknown => 5,
            Error::Battery(_) => 6,
        },
    }
}

} // verus!
