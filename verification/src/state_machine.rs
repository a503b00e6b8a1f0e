//! The state machine together with those who perform its commands: a process
//! manager for starts and stops, and the hardware reset.
use crate::adapter::{
    AdapterChangeAction, AdapterState, CommandTimeoutAction, ProcessCommand, ProcessState,
    StateMachineTimeoutActions, RESET_ON_RESTART_COUNT,
};
use crate::state_core::StateCore;
use crate::table::lists_present;
use crate::transitions::{
    lowest_present, on_daemon_started, on_daemon_stopped, on_presence_changed, on_timeout,
    set_desired_default_adapter, start_adapter, stop_adapter, MachineView,
};
use vstd::prelude::*;

verus! {

/// Starts and stops the daemon of an adapter. The adapter is named by its hci
/// index, written as a decimal number.
///
/// Nothing is assumed about what an implementation does: whether a daemon came
/// up or went away is learnt from its pid file, never from these calls.
pub trait ProcessManager {
    /// Start the daemon of the adapter with this hci index.
    fn start(&mut self, hci: String);

    /// Stop the daemon of the adapter with this hci index.
    fn stop(&mut self, hci: String);
}

/// Resets an hci device in the kernel.
pub trait HciReset {
    /// Reset the device with this hci index. The answer says whether the reset
    /// could be issued; the state machine goes on in the same way either way.
    fn reset_hci_device(&mut self, hci: i32) -> bool;
}

/// Performs `commands` in their order: every start and every stop is one call
/// of the process manager with the text that the command holds, every reset
/// one call of the hardware reset. This is the one place where commands are
/// performed; which commands a transition gives is said where it returns them.
pub fn perform<P: ProcessManager, R: HciReset>(
    commands: &Vec<ProcessCommand>,
    process_manager: &mut P,
    hci_reset: &mut R,
) {
    let mut i: usize = 0;
    while i < commands.len()
        invariant
            i <= commands.len(),
        decreases commands.len() - i,
    {
        match &commands[i] {
            ProcessCommand::Start(hci) => process_manager.start(hci.clone()),
            ProcessCommand::Stop(hci) => process_manager.stop(hci.clone()),
            ProcessCommand::Reset(hci) => {
                // The device is expected to disappear and to come back, so
                // nothing depends on the answer.
                let _ = hci_reset.reset_hci_device(*hci);
            },
        }
        i = i + 1;
    }
}

/// The state machine of all adapters, with its process manager and its
/// hardware reset at hand.
pub struct StateMachineInternal<P: ProcessManager, R: HciReset> {
    /// The state machine itself.
    core: StateCore,
    /// Where starts and stops go.
    process_manager: P,
    /// Where resets go.
    hci_reset: R,
}

impl<P: ProcessManager, R: HciReset> View for StateMachineInternal<P, R> {
    type V = MachineView;

    /// The state machine as a value. The process manager and the hardware
    /// reset are no part of it: nothing is known of them.
    closed spec fn view(&self) -> MachineView {
        self.core@
    }
}

impl<P: ProcessManager, R: HciReset> StateMachineInternal<P, R> {
    /// The table is in order: see [`MachineView::wf`].
    pub open spec fn wf(&self) -> bool {
        self@.wf()
    }

    /// The table of a machine is in order at all times: see [`StateCore::in_order`].
    pub fn in_order(&self)
        ensures
            self.wf(),
    {
        self.core.in_order();
    }

    /// A machine that knows no adapter. The desired adapter is the default one
    /// until another one takes over.
    pub fn new(
        process_manager: P,
        hci_reset: R,
        floss_enabled: bool,
        desired_adapter: i32,
    ) -> (machine: Self)
        ensures
            machine@ == MachineView::initial(floss_enabled, desired_adapter),
    {
        StateMachineInternal {
            core: StateCore::new(floss_enabled, desired_adapter),
            process_manager,
            hci_reset,
        }
    }

    /// Whether `hci` was mentioned before.
    pub fn is_known(&self, hci: i32) -> (known: bool)
        ensures
            known == self@.adapters.contains_key(hci),
    {
        self.core.is_known(hci)
    }

    /// Whether this stack is the one in use.
    pub fn get_floss_enabled(&self) -> (enabled: bool)
        ensures
            enabled == self@.floss_enabled,
    {
        self.core.get_floss_enabled()
    }

    /// Switches the stack on or off and returns what the switch said before.
    pub fn set_floss_enabled(&mut self, enabled: bool) -> (previous: bool)
        ensures
            previous == old(self)@.floss_enabled,
            final(self)@ == (MachineView { floss_enabled: enabled, ..old(self)@ }),
    {
        self.core.set_floss_enabled(enabled)
    }

    /// The adapter that is advertised as the default one.
    pub fn get_default_adapter(&self) -> (hci: i32)
        ensures
            hci == self@.default_adapter,
    {
        self.core.get_default_adapter()
    }

    /// Makes `hci` the adapter that is advertised as the default one.
    pub fn set_default_adapter(&mut self, hci: i32)
        ensures
            final(self)@ == (MachineView { default_adapter: hci, ..old(self)@ }),
    {
        self.core.set_default_adapter(hci);
    }

    /// The adapter that was last asked for as the default one.
    pub fn get_desired_adapter(&self) -> (hci: i32)
        ensures
            hci == self@.desired_adapter,
    {
        self.core.get_desired_adapter()
    }

    /// The record of `hci`, if it was mentioned before.
    pub fn get_state(&self, hci: i32) -> (adapter: Option<AdapterState>)
        ensures
            adapter == if self@.adapters.contains_key(hci) {
                Some(self@.adapters[hci])
            } else {
                None::<AdapterState>
            },
    {
        self.core.get_state(hci)
    }

    /// The state of the daemon of `hci`. An hci that was never mentioned is off.
    pub fn get_process_state(&self, hci: i32) -> (state: ProcessState)
        ensures
            state == self@.adapter(hci).state,
    {
        self.core.get_process_state(hci)
    }

    /// The adapters that are present, lowest hci first.
    pub fn get_valid_adapters(&self) -> (adapters: Vec<AdapterState>)
        ensures
            lists_present(self@.adapters, adapters@),
    {
        self.core.get_valid_adapters()
    }

    /// The lowest hci that is present, if any is.
    pub fn get_lowest_available_adapter(&self) -> (lowest: Option<i32>)
        ensures
            lowest == lowest_present(self@.adapters),
    {
        self.core.get_lowest_available_adapter()
    }

    /// Notes whether the configuration wants the adapter `hci` to run. The
    /// adapter is known from then on.
    pub fn set_config_enabled(&mut self, hci: i32, enabled: bool)
        ensures
            final(self)@ == old(self)@.put(
                hci,
                AdapterState { config_enabled: enabled, ..old(self)@.adapter(hci) },
            ),
    {
        self.core.set_config_enabled(hci, enabled);
    }

    /// Makes `adapter` the record of `hci`, if it can be one: see
    /// [`StateCore::modify_state`].
    pub fn modify_state(&mut self, hci: i32, adapter: AdapterState) -> (taken: bool)
        ensures
            taken == (adapter.hci == hci && 0 <= adapter.restart_count
                <= RESET_ON_RESTART_COUNT),
            final(self)@ == if taken {
                old(self)@.put(hci, adapter)
            } else {
                old(self)@
            },
    {
        self.core.modify_state(hci, adapter)
    }

    /// Records the wish that `adapter` be the default adapter, and makes it so
    /// at once if it is present and another one is the default.
    pub fn set_desired_default_adapter(&mut self, adapter: i32) -> (action: AdapterChangeAction)
        ensures
            final(self)@ == set_desired_default_adapter(old(self)@, adapter).next,
            action == set_desired_default_adapter(old(self)@, adapter).result,
    {
        self.core.set_desired_default_adapter(adapter)
    }

    /// Handles a request to start the daemon of `hci`, and performs the
    /// commands that [`StateCore::start_adapter`] gives.
    pub fn action_start_bluetooth(&mut self, hci: i32) -> (action: CommandTimeoutAction)
        ensures
            final(self)@ == start_adapter(old(self)@, hci).next,
            action == start_adapter(old(self)@, hci).result,
    {
        let step = self.core.start_adapter(hci);
        perform(&step.commands, &mut self.process_manager, &mut self.hci_reset);
        step.result
    }

    /// Handles a request to stop the daemon of `hci`, and performs the
    /// commands that [`StateCore::stop_adapter`] gives.
    pub fn action_stop_bluetooth(&mut self, hci: i32) -> (action: CommandTimeoutAction)
        ensures
            final(self)@ == stop_adapter(old(self)@, hci).next,
            action == stop_adapter(old(self)@, hci).result,
    {
        let step = self.core.stop_adapter(hci);
        perform(&step.commands, &mut self.process_manager, &mut self.hci_reset);
        step.result
    }

    /// Handles the report that the daemon of `hci` came up with this `pid`:
    /// see [`StateCore::on_daemon_started`].
    pub fn action_on_bluetooth_started(&mut self, pid: i32, hci: i32) -> (action:
        CommandTimeoutAction)
        ensures
            final(self)@ == on_daemon_started(old(self)@, pid, hci).next,
            action == on_daemon_started(old(self)@, pid, hci).result,
            final(self)@.adapter(hci).state == ProcessState::On,
            final(self)@.adapter(hci).restart_count == 0,
    {
        let step = self.core.on_daemon_started(pid, hci);
        perform(&step.commands, &mut self.process_manager, &mut self.hci_reset);
        step.result
    }

    /// Handles the report that the daemon of `hci` went away, and performs
    /// the commands that [`StateCore::on_daemon_stopped`] gives.
    pub fn action_on_bluetooth_stopped(&mut self, hci: i32) -> (action: CommandTimeoutAction)
        ensures
            final(self)@ == on_daemon_stopped(old(self)@, hci).next,
            action == on_daemon_stopped(old(self)@, hci).result,
    {
        let step = self.core.on_daemon_stopped(hci);
        perform(&step.commands, &mut self.process_manager, &mut self.hci_reset);
        step.result
    }

    /// Handles the passing of the deadline of `hci`, and performs the commands
    /// that [`StateCore::on_timeout`] gives. The answer tells the caller
    /// whether to keep the timer running.
    pub fn action_on_command_timeout(&mut self, hci: i32) -> (action: StateMachineTimeoutActions)
        ensures
            final(self)@ == on_timeout(old(self)@, hci).next,
            action == on_timeout(old(self)@, hci).result,
    {
        let step = self.core.on_timeout(hci);
        perform(&step.commands, &mut self.process_manager, &mut self.hci_reset);
        step.result
    }

    /// Handles the report that the kernel lists `hci` as present, or no longer
    /// does, and performs the commands that [`StateCore::on_presence_changed`]
    /// gives. The answer is the state the adapter has then, the word on the
    /// default adapter, and what to do with the adapter's timer; the caller is
    /// the one to make a new default adapter known and to set the deadline.
    pub fn action_on_hci_presence_changed(&mut self, hci: i32, present: bool) -> (result: (
        ProcessState,
        AdapterChangeAction,
        CommandTimeoutAction,
    ))
        ensures
            final(self)@ == on_presence_changed(old(self)@, hci, present).next,
            result == on_presence_changed(old(self)@, hci, present).result,
    {
        let step = self.core.on_presence_changed(hci, present);
        perform(&step.commands, &mut self.process_manager, &mut self.hci_reset);
        step.result
    }
}

} // verus!
