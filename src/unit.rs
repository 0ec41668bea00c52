use vstd::prelude::*;

use crate::options::{CompileOptions, ExportError};
use crate::report::{passes, printed_indices, report_errors, Severity};

verus! {

/// Where one package stands in its export compilation.
#[derive(Clone, Copy, Debug, PartialEq, Eq, Structural)]
pub enum UnitState {
    /// Waiting for semantic checking of the package.
    Checking,
    /// Checking passed; waiting for the list of exported entry points.
    Discovering,
    /// Waiting for entry point `entry` (of `total`, in discovery order) to compile.
    Compiling { entry: usize, total: usize },
    /// Waiting for the artifact of entry point `entry` to be written.
    Writing { entry: usize, total: usize },
    /// Every entry point was compiled and written.
    Succeeded,
    /// The package stopped on this error.
    Failed { error: ExportError },
}

/// What the caller reports back after performing an action.
#[derive(Clone, Debug)]
pub enum UnitEvent {
    /// Semantic checking ended; `succeeded` is false when the checker failed.
    Checked { succeeded: bool, severities: Vec<Severity> },
    /// Discovery found this many exported entry points.
    Discovered { count: usize },
    /// The pending entry point was compiled; `succeeded` is false when the
    /// compiler failed, its failure then standing among `severities`.
    Compiled { succeeded: bool, severities: Vec<Severity> },
    /// The pending artifact was written.
    Written,
}

/// What the caller is asked to do next.
#[derive(Clone, Copy, Debug, PartialEq, Eq, Structural)]
pub enum UnitAction {
    /// Run semantic checking on the package under the unit's options.
    Check,
    /// List the package's exported entry points.
    Discover,
    /// Compile the entry point with this index.
    Compile { entry: usize },
    /// Write the artifact of the entry point with this index.
    Write { entry: usize },
    /// The package is done, successfully.
    Succeed,
    /// The package is done, with this error.
    Fail { error: ExportError },
}

/// An event with its diagnostics reduced to the verdict of the warnings policy.
#[derive(Clone, Copy, Debug, PartialEq, Eq, Structural)]
pub enum Signal {
    Checked { passed: bool },
    Discovered { count: usize },
    Compiled { passed: bool },
    Written,
}

pub open spec fn signal(e: UnitEvent, o: CompileOptions) -> Signal {
    match e {
        UnitEvent::Checked { succeeded, severities } => Signal::Checked {
            passed: passes(succeeded, severities@, o),
        },
        UnitEvent::Discovered { count } => Signal::Discovered { count },
        UnitEvent::Compiled { succeeded, severities } => Signal::Compiled {
            passed: passes(succeeded, severities@, o),
        },
        UnitEvent::Written => Signal::Written,
    }
}

/// The diagnostics (by index) that an event has printed.
pub open spec fn event_printed(e: UnitEvent, o: CompileOptions) -> Seq<usize> {
    match e {
        UnitEvent::Checked { severities, .. } => printed_indices(severities@, o),
        UnitEvent::Compiled { severities, .. } => printed_indices(severities@, o),
        _ => Seq::empty(),
    }
}

/// The signal is the one that the state waits for.
pub open spec fn accepts(s: UnitState, g: Signal) -> bool {
    ||| s is Checking && g is Checked
    ||| s is Discovering && g is Discovered
    ||| s is Compiling && g is Compiled
    ||| s is Writing && g is Written
}

/// The state that follows an accepted signal, and the action asked for.
pub open spec fn transition(s: UnitState, g: Signal) -> (UnitState, UnitAction) {
    match s {
        UnitState::Checking => if g->Checked_passed {
            (UnitState::Discovering, UnitAction::Discover)
        } else {
            (
                UnitState::Failed { error: ExportError::CheckFailed },
                UnitAction::Fail { error: ExportError::CheckFailed },
            )
        },
        UnitState::Discovering => if g->Discovered_count == 0 {
            (UnitState::Succeeded, UnitAction::Succeed)
        } else {
            (
                UnitState::Compiling { entry: 0, total: g->Discovered_count },
                UnitAction::Compile { entry: 0 },
            )
        },
        UnitState::Compiling { entry, total } => if g->Compiled_passed {
            (UnitState::Writing { entry, total }, UnitAction::Write { entry })
        } else {
            (
                UnitState::Failed { error: ExportError::CompileFailed { entry } },
                UnitAction::Fail { error: ExportError::CompileFailed { entry } },
            )
        },
        UnitState::Writing { entry, total } => if entry + 1 < total {
            (
                UnitState::Compiling { entry: (entry + 1) as usize, total },
                UnitAction::Compile { entry: (entry + 1) as usize },
            )
        } else {
            (UnitState::Succeeded, UnitAction::Succeed)
        },
        _ => (s, UnitAction::Succeed),
    }
}

/// What one reaction of a unit holds: the action to perform next and the
/// diagnostics (by index into the event's list) to print.
pub struct Reaction {
    pub action: UnitAction,
    pub printed: Vec<usize>,
}

/// The export compilation of one library package.
///
/// Semantic checking runs once; then the exported entry points are compiled
/// one by one in discovery order, and the artifact of each is written as soon
/// as it compiles. The first failure stops the package: later entry points are
/// never attempted, artifacts already written stay.
pub struct PackageUnit {
    pub options: CompileOptions,
    pub state: UnitState,
}

impl PackageUnit {
    /// A unit that waits for checking; the first action is always `Check`.
    pub fn new(options: CompileOptions) -> (r: (PackageUnit, UnitAction))
        ensures
            r.0.options == options,
            r.0.state == UnitState::Checking,
            r.1 == UnitAction::Check,
    {
        (PackageUnit { options, state: UnitState::Checking }, UnitAction::Check)
    }

    /// Feeds one event to the unit.
    ///
    /// An event that the current state does not wait for is refused with
    /// `None` and changes nothing.
    pub fn handle(&mut self, event: &UnitEvent) -> (r: Option<Reaction>)
        ensures
            final(self).options == old(self).options,
            r is Some <==> accepts(old(self).state, signal(*event, old(self).options)),
            r is None ==> final(self).state == old(self).state,
            r is Some ==> ({
                let (s, a) = transition(old(self).state, signal(*event, old(self).options));
                &&& final(self).state == s
                &&& r->Some_0.action == a
                &&& r->Some_0.printed@ == event_printed(*event, old(self).options)
            }),
    {
        let options = self.options;
        match (self.state, event) {
            (UnitState::Checking, UnitEvent::Checked { succeeded, severities }) => {
                let report = report_errors(*succeeded, severities, options);
                let action = if report.passed {
                    self.state = UnitState::Discovering;
                    UnitAction::Discover
                } else {
                    self.state = UnitState::Failed { error: ExportError::CheckFailed };
                    UnitAction::Fail { error: ExportError::CheckFailed }
                };
                Some(Reaction { action, printed: report.printed })
            },
            (UnitState::Discovering, UnitEvent::Discovered { count }) => {
                let action = if *count == 0 {
                    self.state = UnitState::Succeeded;
                    UnitAction::Succeed
                } else {
                    self.state = UnitState::Compiling { entry: 0, total: *count };
                    UnitAction::Compile { entry: 0 }
                };
                Some(Reaction { action, printed: Vec::new() })
            },
            (UnitState::Compiling { entry, total }, UnitEvent::Compiled { succeeded, severities }) => {
                let report = report_errors(*succeeded, severities, options);
                let action = if report.passed {
                    self.state = UnitState::Writing { entry, total };
                    UnitAction::Write { entry }
                } else {
                    self.state = UnitState::Failed { error: ExportError::CompileFailed { entry } };
                    UnitAction::Fail { error: ExportError::CompileFailed { entry } }
                };
                Some(Reaction { action, printed: report.printed })
            },
            (UnitState::Writing { entry, total }, UnitEvent::Written) => {
                let action = if entry < total && total - entry > 1 {
                    self.state = UnitState::Compiling { entry: entry + 1, total };
                    UnitAction::Compile { entry: entry + 1 }
                } else {
                    self.state = UnitState::Succeeded;
                    UnitAction::Succeed
                };
                Some(Reaction { action, printed: Vec::new() })
            },
            _ => None,
        }
    }
}

} // verus!
