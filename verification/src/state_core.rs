//! The state machine of the adapters: the table, the global switches and the
//! transitions. A transition changes the machine and returns, next to its
//! answer, the commands that are to be performed outside.
use crate::adapter::{
    carry, AdapterChangeAction, AdapterState, CommandTimeoutAction, ProcessAction, ProcessCommand,
    ProcessState, StateMachineTimeoutActions, RESET_ON_RESTART_COUNT,
};
use crate::decimal::integer_to_string;
use crate::table::{lists_present, AdapterTable};
use crate::transitions::{
    lowest_present, on_daemon_started, on_daemon_stopped, on_presence_changed, on_timeout,
    set_desired_default_adapter, start_adapter, stop_adapter, MachineView, Outcome,
};
use vstd::prelude::*;

verus! {

/// What a transition hands back.
pub struct Step<T> {
    /// What the transition answers.
    pub result: T,
    /// What is to be performed outside, in this order.
    pub commands: Vec<ProcessCommand>,
}

impl<T> Step<T> {
    /// Whether this is what `outcome` hands back: its answer, and its commands
    /// made ready.
    pub open spec fn gives(&self, outcome: Outcome<T>) -> bool {
        &&& self.result == outcome.result
        &&& carry(self.commands@, outcome.issued)
    }
}

/// The state machine of all adapters.
pub struct StateCore {
    /// Whether this stack is the one in use.
    floss_enabled: bool,
    /// Current default adapter.
    default_adapter: i32,
    /// Desired default adapter.
    desired_adapter: i32,
    /// State per hci.
    state: AdapterTable,
}

impl View for StateCore {
    type V = MachineView;

    closed spec fn view(&self) -> MachineView {
        MachineView {
            floss_enabled: self.floss_enabled,
            default_adapter: self.default_adapter,
            desired_adapter: self.desired_adapter,
            adapters: self.state@,
        }
    }
}

/// No commands.
fn nothing() -> (commands: Vec<ProcessCommand>)
    ensures
        carry(commands@, Seq::<ProcessAction>::empty()),
{
    Vec::new()
}

/// The start of the daemon of `hci`.
fn start_of(hci: i32) -> (commands: Vec<ProcessCommand>)
    ensures
        carry(commands@, seq![ProcessAction::Start(hci)]),
{
    let mut commands: Vec<ProcessCommand> = Vec::new();
    commands.push(ProcessCommand::Start(integer_to_string(hci)));
    commands
}

/// The stop of the daemon of `hci`.
fn stop_of(hci: i32) -> (commands: Vec<ProcessCommand>)
    ensures
        carry(commands@, seq![ProcessAction::Stop(hci)]),
{
    let mut commands: Vec<ProcessCommand> = Vec::new();
    commands.push(ProcessCommand::Stop(integer_to_string(hci)));
    commands
}

/// The stop of the daemon of `hci`, and then its start.
fn restart_of(hci: i32) -> (commands: Vec<ProcessCommand>)
    ensures
        carry(commands@, seq![ProcessAction::Stop(hci), ProcessAction::Start(hci)]),
{
    let mut commands: Vec<ProcessCommand> = Vec::new();
    commands.push(ProcessCommand::Stop(integer_to_string(hci)));
    commands.push(ProcessCommand::Start(integer_to_string(hci)));
    commands
}

/// The reset of the device of `hci`.
fn reset_of(hci: i32) -> (commands: Vec<ProcessCommand>)
    ensures
        carry(commands@, seq![ProcessAction::Reset(hci)]),
{
    let mut commands: Vec<ProcessCommand> = Vec::new();
    commands.push(ProcessCommand::Reset(hci));
    commands
}

impl StateCore {
    /// The table is in order: see [`MachineView::wf`].
    pub open spec fn wf(&self) -> bool {
        self@.wf()
    }

    /// The table of a machine is in order at all times: every record sits
    /// under its own hci, and every restart count lies between zero and the
    /// number of restarts that are tried before a reset.
    pub fn in_order(&self)
        ensures
            self.wf(),
    {
        self.state.in_order();
    }

    /// A machine that knows no adapter. The desired adapter is the default one
    /// until another one takes over.
    pub fn new(floss_enabled: bool, desired_adapter: i32) -> (machine: StateCore)
        ensures
            machine@ == MachineView::initial(floss_enabled, desired_adapter),
    {
        StateCore {
            floss_enabled,
            default_adapter: desired_adapter,
            desired_adapter,
            state: AdapterTable::new(),
        }
    }

    /// Whether `hci` was mentioned before.
    pub fn is_known(&self, hci: i32) -> (known: bool)
        ensures
            known == self@.adapters.contains_key(hci),
    {
        self.state.contains(hci)
    }

    /// Whether this stack is the one in use.
    pub fn get_floss_enabled(&self) -> (enabled: bool)
        ensures
            enabled == self@.floss_enabled,
    {
        self.floss_enabled
    }

    /// Switches the stack on or off and returns what the switch said before.
    pub fn set_floss_enabled(&mut self, enabled: bool) -> (previous: bool)
        ensures
            previous == old(self)@.floss_enabled,
            final(self)@ == (MachineView { floss_enabled: enabled, ..old(self)@ }),
    {
        let previous = self.floss_enabled;
        self.floss_enabled = enabled;
        previous
    }

    /// The adapter that is advertised as the default one.
    pub fn get_default_adapter(&self) -> (hci: i32)
        ensures
            hci == self@.default_adapter,
    {
        self.default_adapter
    }

    /// Makes `hci` the adapter that is advertised as the default one.
    pub fn set_default_adapter(&mut self, hci: i32)
        ensures
            final(self)@ == (MachineView { default_adapter: hci, ..old(self)@ }),
    {
        self.default_adapter = hci;
    }

    /// The adapter that was last asked for as the default one.
    pub fn get_desired_adapter(&self) -> (hci: i32)
        ensures
            hci == self@.desired_adapter,
    {
        self.desired_adapter
    }

    /// The record of `hci`, if it was mentioned before.
    pub fn get_state(&self, hci: i32) -> (adapter: Option<AdapterState>)
        ensures
            adapter == if self@.adapters.contains_key(hci) {
                Some(self@.adapters[hci])
            } else {
                None::<AdapterState>
            },
    {
        self.state.get(hci)
    }

    /// The state of the daemon of `hci`. An hci that was never mentioned is off.
    pub fn get_process_state(&self, hci: i32) -> (state: ProcessState)
        ensures
            state == self@.adapter(hci).state,
    {
        match self.get_state(hci) {
            Some(a) => a.state,
            None => ProcessState::Off,
        }
    }

    /// The adapters that are present, lowest hci first.
    pub fn get_valid_adapters(&self) -> (adapters: Vec<AdapterState>)
        ensures
            lists_present(self@.adapters, adapters@),
    {
        self.state.present()
    }

    /// The lowest hci that is present, if any is.
    pub fn get_lowest_available_adapter(&self) -> (lowest: Option<i32>)
        ensures
            lowest == lowest_present(self@.adapters),
    {
        self.state.lowest_present()
    }

    /// Notes whether the configuration wants the adapter `hci` to run. The
    /// adapter is known from then on.
    pub fn set_config_enabled(&mut self, hci: i32, enabled: bool)
        ensures
            final(self)@ == old(self)@.put(
                hci,
                AdapterState { config_enabled: enabled, ..old(self)@.adapter(hci) },
            ),
    {
        let a = self.adapter(hci);
        self.put(hci, AdapterState { config_enabled: enabled, ..a });
    }

    /// Makes `adapter` the record of `hci`, if it can be one: it has to name
    /// `hci`, with a restart count between zero and the number of restarts
    /// that are tried before a reset. The answer says whether it was taken;
    /// a record that was not leaves the machine as it is.
    pub fn modify_state(&mut self, hci: i32, adapter: AdapterState) -> (taken: bool)
        ensures
            taken == (adapter.hci == hci && 0 <= adapter.restart_count
                <= RESET_ON_RESTART_COUNT),
            final(self)@ == if taken {
                old(self)@.put(hci, adapter)
            } else {
                old(self)@
            },
    {
        if adapter.hci == hci && 0 <= adapter.restart_count && adapter.restart_count
            <= RESET_ON_RESTART_COUNT {
            self.put(hci, adapter);
            true
        } else {
            false
        }
    }

    /// The record of `hci`, or a fresh one if it was never mentioned.
    fn adapter(&self, hci: i32) -> (a: AdapterState)
        ensures
            a == self@.adapter(hci),
            a.hci == hci,
            0 <= a.restart_count <= RESET_ON_RESTART_COUNT,
    {
        self.state.in_order();
        match self.get_state(hci) {
            Some(a) => a,
            None => AdapterState::new(hci),
        }
    }

    /// Makes `a` the record of `hci`.
    fn put(&mut self, hci: i32, a: AdapterState)
        requires
            a.hci == hci,
            0 <= a.restart_count <= RESET_ON_RESTART_COUNT,
        ensures
            final(self)@ == old(self)@.put(hci, a),
    {
        self.state.put(a);
    }

    /// Records the wish that `adapter` be the default adapter, and makes it so
    /// at once if it is present and another one is the default.
    pub fn set_desired_default_adapter(&mut self, adapter: i32) -> (action: AdapterChangeAction)
        ensures
            final(self)@ == set_desired_default_adapter(old(self)@, adapter).next,
            action == set_desired_default_adapter(old(self)@, adapter).result,
    {
        self.desired_adapter = adapter;
        let present = match self.get_state(adapter) {
            Some(a) => a.present,
            None => false,
        };
        if self.default_adapter != adapter && present {
            self.default_adapter = adapter;
            return AdapterChangeAction::NewDefaultAdapter(adapter);
        }
        AdapterChangeAction::DoNothing
    }

    /// A request to start the daemon of `hci`: see
    /// [`start_adapter`](crate::transitions::start_adapter).
    pub fn start_adapter(&mut self, hci: i32) -> (step: Step<CommandTimeoutAction>)
        ensures
            final(self)@ == start_adapter(old(self)@, hci).next,
            step.gives(start_adapter(old(self)@, hci)),
    {
        let a = self.adapter(hci);
        if (a.state == ProcessState::Off || a.state == ProcessState::TurningOn) && a.present
            && self.floss_enabled {
            self.put(hci, AdapterState { state: ProcessState::TurningOn, ..a });
            Step { result: CommandTimeoutAction::ResetTimer, commands: start_of(hci) }
        } else {
            Step { result: CommandTimeoutAction::DoNothing, commands: nothing() }
        }
    }

    /// A request to stop the daemon of `hci`: see
    /// [`stop_adapter`](crate::transitions::stop_adapter).
    pub fn stop_adapter(&mut self, hci: i32) -> (step: Step<CommandTimeoutAction>)
        ensures
            final(self)@ == stop_adapter(old(self)@, hci).next,
            step.gives(stop_adapter(old(self)@, hci)),
    {
        if !self.is_known(hci) {
            return Step { result: CommandTimeoutAction::DoNothing, commands: nothing() };
        }
        let a = self.adapter(hci);
        match a.state {
            ProcessState::On => {
                self.put(hci, AdapterState { state: ProcessState::TurningOff, ..a });
                Step { result: CommandTimeoutAction::ResetTimer, commands: stop_of(hci) }
            },
            ProcessState::TurningOn => {
                self.put(hci, AdapterState { state: ProcessState::Off, ..a });
                Step { result: CommandTimeoutAction::CancelTimer, commands: stop_of(hci) }
            },
            _ => Step { result: CommandTimeoutAction::DoNothing, commands: nothing() },
        }
    }

    /// The report that the daemon of `hci` came up with this `pid`: see
    /// [`on_daemon_started`](crate::transitions::on_daemon_started).
    pub fn on_daemon_started(&mut self, pid: i32, hci: i32) -> (step: Step<CommandTimeoutAction>)
        ensures
            final(self)@ == on_daemon_started(old(self)@, pid, hci).next,
            step.gives(on_daemon_started(old(self)@, pid, hci)),
            final(self)@.adapter(hci).state == ProcessState::On,
            final(self)@.adapter(hci).restart_count == 0,
    {
        let a = self.adapter(hci);
        self.put(hci, AdapterState { state: ProcessState::On, restart_count: 0, pid, ..a });
        Step { result: CommandTimeoutAction::CancelTimer, commands: nothing() }
    }

    /// The report that the daemon of `hci` went away: see
    /// [`on_daemon_stopped`](crate::transitions::on_daemon_stopped).
    pub fn on_daemon_stopped(&mut self, hci: i32) -> (step: Step<CommandTimeoutAction>)
        ensures
            final(self)@ == on_daemon_stopped(old(self)@, hci).next,
            step.gives(on_daemon_stopped(old(self)@, hci)),
    {
        let a = self.adapter(hci);
        if a.state == ProcessState::On && self.floss_enabled && a.config_enabled {
            // A running daemon stopped that should run. After a number of
            // restarts, try the reset instead of another start.
            if a.restart_count >= RESET_ON_RESTART_COUNT {
                self.put(hci, AdapterState { state: ProcessState::Off, restart_count: 0, ..a });
                Step { result: CommandTimeoutAction::CancelTimer, commands: reset_of(hci) }
            } else {
                self.put(
                    hci,
                    AdapterState {
                        state: ProcessState::TurningOn,
                        restart_count: a.restart_count + 1,
                        ..a
                    },
                );
                Step { result: CommandTimeoutAction::ResetTimer, commands: start_of(hci) }
            }
        } else {
            // Either the expected end of a stop, or a daemon that is gone and
            // that nothing brings back.
            self.put(hci, AdapterState { state: ProcessState::Off, ..a });
            Step { result: CommandTimeoutAction::CancelTimer, commands: nothing() }
        }
    }

    /// The deadline of `hci` has passed: see
    /// [`on_timeout`](crate::transitions::on_timeout). The answer tells the
    /// caller whether to keep the timer running.
    pub fn on_timeout(&mut self, hci: i32) -> (step: Step<StateMachineTimeoutActions>)
        ensures
            final(self)@ == on_timeout(old(self)@, hci).next,
            step.gives(on_timeout(old(self)@, hci)),
    {
        let a = self.adapter(hci);
        if a.state == ProcessState::TurningOn && !self.floss_enabled {
            // The stack was disabled meanwhile: stop the daemon and leave it at that.
            self.put(hci, AdapterState { state: ProcessState::Off, ..a });
            Step { result: StateMachineTimeoutActions::Noop, commands: stop_of(hci) }
        } else if a.state == ProcessState::TurningOn && a.config_enabled {
            if a.restart_count >= RESET_ON_RESTART_COUNT {
                self.put(hci, AdapterState { state: ProcessState::Off, restart_count: 0, ..a });
                Step { result: StateMachineTimeoutActions::Noop, commands: reset_of(hci) }
            } else {
                self.put(
                    hci,
                    AdapterState {
                        state: ProcessState::TurningOn,
                        restart_count: a.restart_count + 1,
                        ..a
                    },
                );
                Step { result: StateMachineTimeoutActions::RetryStart, commands: restart_of(hci) }
            }
        } else if a.state == ProcessState::TurningOff {
            Step { result: StateMachineTimeoutActions::RetryStop, commands: stop_of(hci) }
        } else {
            Step { result: StateMachineTimeoutActions::Noop, commands: nothing() }
        }
    }

    /// The report that the kernel lists `hci` as present, or no longer does:
    /// see [`on_presence_changed`](crate::transitions::on_presence_changed).
    /// An adapter that appears and is configured to run is started. The
    /// answer is the state the adapter has then, the word on the default
    /// adapter, and what to do with the adapter's timer; the caller is the one
    /// to make a new default adapter known and to set the deadline.
    pub fn on_presence_changed(&mut self, hci: i32, present: bool) -> (step: Step<
        (ProcessState, AdapterChangeAction, CommandTimeoutAction),
    >)
        ensures
            final(self)@ == on_presence_changed(old(self)@, hci, present).next,
            step.gives(on_presence_changed(old(self)@, hci, present)),
    {
        let a = self.adapter(hci);

        // Nothing to do if the presence is what it was.
        if a.present == present {
            return Step {
                result: (a.state, AdapterChangeAction::DoNothing, CommandTimeoutAction::DoNothing),
                commands: nothing(),
            };
        }
        let starts = a.state == ProcessState::Off && a.config_enabled && self.floss_enabled
            && present;
        let commands = if starts {
            // From off to turning on is either the recovery of an adapter that
            // could not be started, or a fresh device. Both start from zero.
            self.put(
                hci,
                AdapterState { present, restart_count: 0, state: ProcessState::TurningOn, ..a },
            );
            start_of(hci)
        } else {
            self.put(hci, AdapterState { present, ..a });
            nothing()
        };
        let (next_state, timer) = if starts {
            (ProcessState::TurningOn, CommandTimeoutAction::ResetTimer)
        } else {
            (a.state, CommandTimeoutAction::DoNothing)
        };

        // The desired adapter takes over as soon as it appears. When the
        // default adapter is gone, the lowest one that is left takes over.
        let change = if present && hci == self.desired_adapter && hci != self.default_adapter {
            AdapterChangeAction::NewDefaultAdapter(self.desired_adapter)
        } else if !present && hci == self.default_adapter {
            match self.get_lowest_available_adapter() {
                Some(lowest) => AdapterChangeAction::NewDefaultAdapter(lowest),
                None => AdapterChangeAction::DoNothing,
            }
        } else {
            AdapterChangeAction::DoNothing
        };
        Step { result: (next_state, change, timer), commands }
    }
}

} // verus!
