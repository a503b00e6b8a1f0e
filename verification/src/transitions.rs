//! The transition rules of the adapter state machine, as mathematics.
//!
//! Every rule maps the machine before an event to an [`Outcome`]: the machine
//! after it, what the caller is told, and the commands that are to be
//! performed by the process manager and the hardware reset.
use crate::adapter::{
    AdapterChangeAction, AdapterState, CommandTimeoutAction, ProcessAction, ProcessState,
    StateMachineTimeoutActions, RESET_ON_RESTART_COUNT,
};
use vstd::prelude::*;

verus! {

/// The state machine as a value: the global switches and one record per known hci.
#[verifier::ext_equal]
pub struct MachineView {
    /// Whether this stack is the one in use on the host.
    pub floss_enabled: bool,
    /// The hci that is advertised as the default adapter.
    pub default_adapter: i32,
    /// The hci that was last asked for as the default adapter.
    pub desired_adapter: i32,
    /// The adapters that were mentioned so far, by hci.
    pub adapters: Map<i32, AdapterState>,
}

/// What a transition leads to.
#[verifier::ext_equal]
pub struct Outcome<R> {
    /// The machine after the transition.
    pub next: MachineView,
    /// What the transition returns to its caller.
    pub result: R,
    /// The commands that the transition gives out, in the order it gives them.
    pub issued: Seq<ProcessAction>,
}

/// Whether a daemon in `state` is on its way up or down.
pub open spec fn in_transit(state: ProcessState) -> bool {
    state == ProcessState::TurningOn || state == ProcessState::TurningOff
}

/// Whether `hci` is present and no present adapter has a lower index.
pub open spec fn is_lowest_present(adapters: Map<i32, AdapterState>, hci: i32) -> bool {
    &&& adapters.contains_key(hci)
    &&& adapters[hci].present
    &&& forall|k: i32| adapters.contains_key(k) && adapters[k].present ==> hci <= k
}

/// The present adapter with the lowest index, if any adapter is present.
pub open spec fn lowest_present(adapters: Map<i32, AdapterState>) -> Option<i32> {
    if exists|hci: i32| is_lowest_present(adapters, hci) {
        Some(choose|hci: i32| is_lowest_present(adapters, hci))
    } else {
        None
    }
}

/// Whether every record sits under its own hci, with a restart count that is
/// not negative and not beyond the number of restarts tried before a reset.
pub open spec fn adapters_in_order(adapters: Map<i32, AdapterState>) -> bool {
    forall|hci: i32| #[trigger]
        adapters.contains_key(hci) ==> {
            &&& adapters[hci].hci == hci
            &&& 0 <= adapters[hci].restart_count <= RESET_ON_RESTART_COUNT
        }
}

impl MachineView {
    /// A machine that knows no adapter yet. The desired adapter is the default one.
    pub open spec fn initial(floss_enabled: bool, desired_adapter: i32) -> MachineView {
        MachineView {
            floss_enabled,
            default_adapter: desired_adapter,
            desired_adapter,
            adapters: Map::empty(),
        }
    }

    /// The table is in order: see [`adapters_in_order`].
    pub open spec fn wf(self) -> bool {
        adapters_in_order(self.adapters)
    }

    /// The record of `hci`. An hci that was never mentioned is off and absent.
    pub open spec fn adapter(self, hci: i32) -> AdapterState {
        if self.adapters.contains_key(hci) {
            self.adapters[hci]
        } else {
            AdapterState::fresh(hci)
        }
    }

    /// The machine with `adapter` as the record of `hci`.
    pub open spec fn put(self, hci: i32, adapter: AdapterState) -> MachineView {
        MachineView { adapters: self.adapters.insert(hci, adapter), ..self }
    }

    /// The desired adapter is the default one whenever it is present.
    pub open spec fn default_follows_desired(self) -> bool {
        self.adapter(self.desired_adapter).present ==> self.default_adapter == self.desired_adapter
    }

    /// The transition that changes nothing and gives out nothing.
    pub open spec fn stay<R>(self, result: R) -> Outcome<R> {
        Outcome { next: self, result, issued: Seq::empty() }
    }
}

/// A request to start the daemon of `hci`.
///
/// An adapter that is off or already turning on is started if it is present and
/// the stack is enabled; a repeated request gives the start out again and asks
/// for a fresh deadline. Any other request is ignored.
pub open spec fn start_adapter(m: MachineView, hci: i32) -> Outcome<CommandTimeoutAction> {
    let a = m.adapter(hci);
    if (a.state == ProcessState::Off || a.state == ProcessState::TurningOn) && a.present
        && m.floss_enabled {
        Outcome {
            next: m.put(hci, AdapterState { state: ProcessState::TurningOn, ..a }),
            result: CommandTimeoutAction::ResetTimer,
            issued: seq![ProcessAction::Start(hci)],
        }
    } else {
        m.stay(CommandTimeoutAction::DoNothing)
    }
}

/// A request to stop the daemon of `hci`.
///
/// A running daemon is told to stop and is given a deadline. One that is still
/// turning on is told to stop as well, and counts as off at once. An unknown
/// hci, and one that is off or turning off, is left alone.
pub open spec fn stop_adapter(m: MachineView, hci: i32) -> Outcome<CommandTimeoutAction> {
    let a = m.adapter(hci);
    if !m.adapters.contains_key(hci) {
        m.stay(CommandTimeoutAction::DoNothing)
    } else if a.state == ProcessState::On {
        Outcome {
            next: m.put(hci, AdapterState { state: ProcessState::TurningOff, ..a }),
            result: CommandTimeoutAction::ResetTimer,
            issued: seq![ProcessAction::Stop(hci)],
        }
    } else if a.state == ProcessState::TurningOn {
        Outcome {
            next: m.put(hci, AdapterState { state: ProcessState::Off, ..a }),
            result: CommandTimeoutAction::CancelTimer,
            issued: seq![ProcessAction::Stop(hci)],
        }
    } else {
        m.stay(CommandTimeoutAction::DoNothing)
    }
}

/// The report that the daemon of `hci` came up with this `pid`.
///
/// Whatever was known before, the adapter is on now, its restarts are
/// forgotten and its deadline is no longer needed.
pub open spec fn on_daemon_started(m: MachineView, pid: i32, hci: i32) -> Outcome<
    CommandTimeoutAction,
> {
    let a = m.adapter(hci);
    Outcome {
        next: m.put(hci, AdapterState { state: ProcessState::On, restart_count: 0, pid, ..a }),
        result: CommandTimeoutAction::CancelTimer,
        issued: Seq::empty(),
    }
}

/// Whether an adapter has used up its restarts, so that the next failure resets it.
pub open spec fn restarts_used_up(a: AdapterState) -> bool {
    a.restart_count >= RESET_ON_RESTART_COUNT
}

/// The report that the daemon of `hci` went away.
///
/// While turning off that was expected. A running daemon that should run has
/// crashed: it is started again, or, once the restarts are used up, the adapter
/// is reset and counts as off. In every other case the adapter counts as off.
pub open spec fn on_daemon_stopped(m: MachineView, hci: i32) -> Outcome<CommandTimeoutAction> {
    let a = m.adapter(hci);
    if a.state == ProcessState::On && m.floss_enabled && a.config_enabled {
        if restarts_used_up(a) {
            Outcome {
                next: m.put(hci, AdapterState { state: ProcessState::Off, restart_count: 0, ..a }),
                result: CommandTimeoutAction::CancelTimer,
                issued: seq![ProcessAction::Reset(hci)],
            }
        } else {
            Outcome {
                next: m.put(
                    hci,
                    AdapterState {
                        state: ProcessState::TurningOn,
                        restart_count: (a.restart_count + 1) as i32,
                        ..a
                    },
                ),
                result: CommandTimeoutAction::ResetTimer,
                issued: seq![ProcessAction::Start(hci)],
            }
        }
    } else {
        Outcome {
            next: m.put(hci, AdapterState { state: ProcessState::Off, ..a }),
            result: CommandTimeoutAction::CancelTimer,
            issued: Seq::empty(),
        }
    }
}

/// The deadline of `hci` has passed.
///
/// A start that timed out is given up when the stack is disabled. When the
/// adapter should run it is tried again, stop first and then start, or, once
/// the restarts are used up, the adapter is reset and counts as off. A stop
/// that timed out is given out again. Nothing else has a deadline to miss.
pub open spec fn on_timeout(m: MachineView, hci: i32) -> Outcome<StateMachineTimeoutActions> {
    let a = m.adapter(hci);
    if a.state == ProcessState::TurningOn && !m.floss_enabled {
        Outcome {
            next: m.put(hci, AdapterState { state: ProcessState::Off, ..a }),
            result: StateMachineTimeoutActions::Noop,
            issued: seq![ProcessAction::Stop(hci)],
        }
    } else if a.state == ProcessState::TurningOn && a.config_enabled {
        if restarts_used_up(a) {
            Outcome {
                next: m.put(hci, AdapterState { state: ProcessState::Off, restart_count: 0, ..a }),
                result: StateMachineTimeoutActions::Noop,
                issued: seq![ProcessAction::Reset(hci)],
            }
        } else {
            Outcome {
                next: m.put(
                    hci,
                    AdapterState {
                        state: ProcessState::TurningOn,
                        restart_count: (a.restart_count + 1) as i32,
                        ..a
                    },
                ),
                result: StateMachineTimeoutActions::RetryStart,
                issued: seq![ProcessAction::Stop(hci), ProcessAction::Start(hci)],
            }
        }
    } else if a.state == ProcessState::TurningOff {
        Outcome {
            next: m,
            result: StateMachineTimeoutActions::RetryStop,
            issued: seq![ProcessAction::Stop(hci)],
        }
    } else {
        m.stay(StateMachineTimeoutActions::Noop)
    }
}

/// Whether the report that `hci` is now `present` starts its daemon: the
/// adapter appears, is off, should run, and the stack is enabled.
pub open spec fn presence_starts(m: MachineView, hci: i32, present: bool) -> bool {
    let a = m.adapter(hci);
    &&& present
    &&& !a.present
    &&& a.state == ProcessState::Off
    &&& a.config_enabled
    &&& m.floss_enabled
}

/// What the report that `hci` is now `present` means for the default adapter,
/// told from the machine `after` the presence was noted.
///
/// The desired adapter takes over as soon as it appears. When the default
/// adapter disappears, the lowest adapter that is still present takes over, if
/// there is one.
pub open spec fn default_after_presence(
    after: MachineView,
    hci: i32,
    present: bool,
) -> AdapterChangeAction {
    if present && hci == after.desired_adapter && hci != after.default_adapter {
        AdapterChangeAction::NewDefaultAdapter(after.desired_adapter)
    } else if !present && hci == after.default_adapter {
        match lowest_present(after.adapters) {
            Some(lowest) => AdapterChangeAction::NewDefaultAdapter(lowest),
            None => AdapterChangeAction::DoNothing,
        }
    } else {
        AdapterChangeAction::DoNothing
    }
}

/// The report that the kernel lists `hci` as present, or no longer does.
///
/// A report that brings nothing new changes nothing. Otherwise the presence is
/// noted, and an adapter that appears and should run is started with its
/// restarts forgotten. The result is the state the adapter has after that,
/// the word on the default adapter, which the machine itself leaves as it is,
/// and what to do with the timer: an adapter that was started gets a deadline.
pub open spec fn on_presence_changed(m: MachineView, hci: i32, present: bool) -> Outcome<
    (ProcessState, AdapterChangeAction, CommandTimeoutAction),
> {
    let a = m.adapter(hci);
    if a.present == present {
        m.stay((a.state, AdapterChangeAction::DoNothing, CommandTimeoutAction::DoNothing))
    } else if presence_starts(m, hci, present) {
        let next = m.put(
            hci,
            AdapterState { present, restart_count: 0, state: ProcessState::TurningOn, ..a },
        );
        Outcome {
            next,
            result: (
                ProcessState::TurningOn,
                default_after_presence(next, hci, present),
                CommandTimeoutAction::ResetTimer,
            ),
            issued: seq![ProcessAction::Start(hci)],
        }
    } else {
        let next = m.put(hci, AdapterState { present, ..a });
        Outcome {
            next,
            result: (
                a.state,
                default_after_presence(next, hci, present),
                CommandTimeoutAction::DoNothing,
            ),
            issued: Seq::empty(),
        }
    }
}

/// The wish that `hci` be the default adapter.
///
/// The wish is recorded. It comes true at once if the adapter is present and is
/// not the default one already.
pub open spec fn set_desired_default_adapter(m: MachineView, hci: i32) -> Outcome<
    AdapterChangeAction,
> {
    let wished = MachineView { desired_adapter: hci, ..m };
    if m.default_adapter != hci && m.adapter(hci).present {
        Outcome {
            next: MachineView { default_adapter: hci, ..wished },
            result: AdapterChangeAction::NewDefaultAdapter(hci),
            issued: Seq::empty(),
        }
    } else {
        wished.stay(AdapterChangeAction::DoNothing)
    }
}

} // verus!
