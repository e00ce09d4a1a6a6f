//! The index synchronisation cycle as a machine of decisions.
//!
//! The machine does none of the work itself. It names the next action, the
//! caller performs it and hands back what happened, and the machine decides
//! from that what comes next. A cycle checks the root, scans it, writes the
//! listing document and sleeps; a failure is reported and ends the cycle,
//! never the loop.

use vstd::prelude::*;
use crate::error::{io_error, ErrorView};
use crate::listing::{index_spec, render_index};
use crate::scan::{file_list_spec, generate_file_list, DirListing};

verus! {

/// The seconds that pass between two cycles.
pub const CYCLE_DELAY_SECS: u64 = 1;

/// What the machine waits for.
#[derive(Clone, Copy, Debug, PartialEq, Eq, Structural)]
pub enum Phase {
    /// The answer to whether the root exists.
    Root,
    /// The result of reading the root directory.
    Scan,
    /// The result of writing the listing document.
    Write,
    /// The word that a notice or a failure has been reported.
    Report,
    /// The end of the delay between two cycles.
    Sleep,
}

/// What happened when the caller performed an action.
#[derive(Debug, PartialEq, Eq)]
pub enum Event {
    /// The root was looked for; holds whether it exists.
    RootChecked(bool),
    /// The root directory was read; holds what the read has shown, or the
    /// description of the failure to start it.
    Scanned(Result<DirListing, String>),
    /// The listing document was written; holds the description of the
    /// failure where it was not.
    Written(Result<(), String>),
    /// A notice or a failure was reported.
    Reported,
    /// The delay is over.
    Slept,
}

/// What the caller is to do next.
#[derive(Debug, PartialEq, Eq)]
pub enum Action {
    /// Look whether the root exists.
    CheckRoot,
    /// Read the root directory.
    Scan,
    /// Replace the content of the document slot by this document.
    Write(String),
    /// Give notice that the cycle is skipped; holds the notice.
    Warn(String),
    /// Report that the cycle has failed; holds the report.
    Report(String),
    /// Wait for this many seconds.
    Sleep(u64),
}

/// The mathematical content of an [`Action`].
pub enum ActionView {
    CheckRoot,
    Scan,
    Write(Seq<char>),
    Warn(Seq<char>),
    Report(Seq<char>),
    Sleep(u64),
}

impl View for Action {
    type V = ActionView;

    open spec fn view(&self) -> ActionView {
        match self {
            Action::CheckRoot => ActionView::CheckRoot,
            Action::Scan => ActionView::Scan,
            Action::Write(document) => ActionView::Write(document@),
            Action::Warn(notice) => ActionView::Warn(notice@),
            Action::Report(report) => ActionView::Report(report@),
            Action::Sleep(seconds) => ActionView::Sleep(*seconds),
        }
    }
}

/// The notice that the root at `root` is gone.
pub open spec fn missing_root_notice(root: Seq<char>) -> Seq<char> {
    "Root no longer exists at "@ + root
}

/// The report of a cycle that failed for the reason `reason`.
pub open spec fn failure_report(reason: Seq<char>) -> Seq<char> {
    "Error in index generation: "@ + reason
}

/// The next phase and action of the machine for the root `root`, from the
/// phase it is in and the event that came.
///
/// A missing root skips the cycle with a notice. A scan that failed and a
/// write that failed are reported. An event that the phase does not wait
/// for abandons the cycle: the machine goes to sleep.
pub open spec fn step_spec(root: Seq<char>, phase: Phase, event: Event) -> (Phase, ActionView) {
    match (phase, event) {
        (Phase::Root, Event::RootChecked(true)) => (Phase::Scan, ActionView::Scan),
        (Phase::Root, Event::RootChecked(false)) => (
            Phase::Report,
            ActionView::Warn(missing_root_notice(root)),
        ),
        (Phase::Scan, Event::Scanned(read)) => match file_list_spec(root, read) {
            Ok(files) => (Phase::Write, ActionView::Write(index_spec(files))),
            Err(error) => (Phase::Report, ActionView::Report(failure_report(error.message()))),
        },
        (Phase::Write, Event::Written(Ok(_))) => (
            Phase::Sleep,
            ActionView::Sleep(CYCLE_DELAY_SECS),
        ),
        (Phase::Write, Event::Written(Err(cause))) => (
            Phase::Report,
            ActionView::Report(failure_report(ErrorView::Io(cause@).message())),
        ),
        (Phase::Report, Event::Reported) => (Phase::Sleep, ActionView::Sleep(CYCLE_DELAY_SECS)),
        (Phase::Sleep, Event::Slept) => (Phase::Root, ActionView::CheckRoot),
        _ => (Phase::Sleep, ActionView::Sleep(CYCLE_DELAY_SECS)),
    }
}

/// The number of events that can still come before the machine sleeps.
pub open spec fn steps_to_sleep(phase: Phase) -> nat {
    match phase {
        Phase::Root => 4,
        Phase::Scan => 3,
        Phase::Write => 2,
        Phase::Report => 1,
        Phase::Sleep => 0,
    }
}

/// The machine that keeps the listing document in step with one root.
#[derive(Debug, PartialEq, Eq)]
pub struct Synchronizer {
    root: String,
    phase: Phase,
}

impl Synchronizer {
    /// The root that the machine keeps the listing of.
    pub closed spec fn root_spec(&self) -> Seq<char> {
        self.root@
    }

    /// The phase the machine is in.
    pub closed spec fn phase_spec(&self) -> Phase {
        self.phase
    }

    /// Starts a machine for `root` and returns it with the action that
    /// begins its first cycle.
    pub fn new(root: String) -> (started: (Synchronizer, Action))
        ensures
            started.0.root_spec() == root@,
            started.0.phase_spec() == Phase::Root,
            started.1@ == ActionView::CheckRoot,
    {
        (Synchronizer { root, phase: Phase::Root }, Action::CheckRoot)
    }

    /// Returns the phase the machine is in.
    pub fn phase(&self) -> (phase: Phase)
        ensures
            phase == self.phase_spec(),
    {
        self.phase
    }

    /// Returns the root that the machine keeps the listing of.
    pub fn root(&self) -> (root: &str)
        ensures
            root@ == self.root_spec(),
    {
        self.root.as_str()
    }

    /// Takes in `event` and returns the action to perform next.
    pub fn step(&mut self, event: Event) -> (action: Action)
        ensures
            final(self).root_spec() == old(self).root_spec(),
            (final(self).phase_spec(), action@) == step_spec(
                old(self).root_spec(),
                old(self).phase_spec(),
                event,
            ),
    {
        match (self.phase, event) {
            (Phase::Root, Event::RootChecked(true)) => {
                self.phase = Phase::Scan;
                Action::Scan
            },
            (Phase::Root, Event::RootChecked(false)) => {
                self.phase = Phase::Report;
                let mut notice = String::from_str("Root no longer exists at ");
                notice.append(self.root.as_str());
                Action::Warn(notice)
            },
            (Phase::Scan, Event::Scanned(read)) => {
                match generate_file_list(self.root.as_str(), &read) {
                    Ok(files) => {
                        self.phase = Phase::Write;
                        Action::Write(render_index(&files))
                    },
                    Err(error) => {
                        self.phase = Phase::Report;
                        Action::Report(report_of(error.message().as_str()))
                    },
                }
            },
            (Phase::Write, Event::Written(Ok(_))) => {
                self.phase = Phase::Sleep;
                Action::Sleep(CYCLE_DELAY_SECS)
            },
            (Phase::Write, Event::Written(Err(cause))) => {
                self.phase = Phase::Report;
                let error = io_error(cause.as_str());
                Action::Report(report_of(error.message().as_str()))
            },
            (Phase::Report, Event::Reported) => {
                self.phase = Phase::Sleep;
                Action::Sleep(CYCLE_DELAY_SECS)
            },
            (Phase::Sleep, Event::Slept) => {
                self.phase = Phase::Root;
                Action::CheckRoot
            },
            _ => {
                self.phase = Phase::Sleep;
                Action::Sleep(CYCLE_DELAY_SECS)
            },
        }
    }
}

/// `action` is the one whose outcome `phase` waits for.
pub open spec fn awaits(phase: Phase, action: ActionView) -> bool {
    match phase {
        Phase::Root => action is CheckRoot,
        Phase::Scan => action is Scan,
        Phase::Write => action is Write,
        Phase::Report => action is Warn || action is Report,
        Phase::Sleep => action is Sleep,
    }
}

/// The machine always waits for the outcome of the action it has just
/// asked for.
pub proof fn law_phase_awaits_action(root: Seq<char>, phase: Phase, event: Event)
    ensures
        awaits(step_spec(root, phase, event).0, step_spec(root, phase, event).1),
{
}

/// A missing root skips the cycle without a failure: the machine gives
/// notice and, once the notice is out, sleeps. It asks for no scan and no
/// write, so the document slot keeps what it held.
pub proof fn law_missing_root_skips_cycle(root: Seq<char>, answer: Event)
    ensures
        step_spec(root, Phase::Root, Event::RootChecked(false)) == (
            Phase::Report,
            ActionView::Warn(missing_root_notice(root)),
        ),
        step_spec(root, Phase::Report, answer) == (
            Phase::Sleep,
            ActionView::Sleep(CYCLE_DELAY_SECS),
        ),
{
}

/// The machine asks for a write only when a scan has succeeded, and then
/// with the document that lists exactly the files the scan has selected.
pub proof fn law_write_follows_scan(
    root: Seq<char>,
    phase: Phase,
    event: Event,
    document: Seq<char>,
)
    requires
        step_spec(root, phase, event).1 == ActionView::Write(document),
    ensures
        phase == Phase::Scan,
        event matches Event::Scanned(read) && file_list_spec(root, read) matches Ok(files)
            && document == index_spec(files),
{
}

/// A scan or a write that failed is reported and ends the cycle: the
/// machine asks for the report and then sleeps.
pub proof fn law_failure_is_reported(
    root: Seq<char>,
    read: Result<DirListing, String>,
    cause: String,
)
    ensures
        file_list_spec(root, read) matches Err(error) ==> step_spec(
            root,
            Phase::Scan,
            Event::Scanned(read),
        ) == (Phase::Report, ActionView::Report(failure_report(error.message()))),
        step_spec(root, Phase::Write, Event::Written(Err(cause))) == (
            Phase::Report,
            ActionView::Report(failure_report(cause@)),
        ),
        step_spec(root, Phase::Report, Event::Reported) == (
            Phase::Sleep,
            ActionView::Sleep(CYCLE_DELAY_SECS),
        ),
{
}

/// Whatever the event holds, it brings a machine that is not asleep closer
/// to its sleep: a cycle takes four events at most.
pub proof fn law_cycle_reaches_sleep(root: Seq<char>, phase: Phase, event: Event)
    requires
        phase != Phase::Sleep,
    ensures
        steps_to_sleep(step_spec(root, phase, event).0) < steps_to_sleep(phase),
{
}

/// The loop never ends: the end of the delay starts the next cycle, and
/// any other event lets the machine sleep on.
pub proof fn law_sleep_starts_next_cycle(root: Seq<char>, event: Event)
    ensures
        step_spec(root, Phase::Sleep, Event::Slept) == (Phase::Root, ActionView::CheckRoot),
        !(event is Slept) ==> step_spec(root, Phase::Sleep, event) == (
            Phase::Sleep,
            ActionView::Sleep(CYCLE_DELAY_SECS),
        ),
{
}

/// Builds the report of a cycle that failed for the reason `reason`.
pub fn report_of(reason: &str) -> (report: String)
    ensures
        report@ == failure_report(reason@),
{
    let mut report = String::from_str("Error in index generation: ");
    report.append(reason);
    report
}

} // verus!
