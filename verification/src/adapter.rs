//! The data the manager keeps for each adapter, and the values that the
//! transitions hand back to whoever drives them.
use crate::decimal::integer_text;
use vstd::prelude::*;

verus! {

/// Directory in which every adapter daemon leaves its pid file.
pub const PID_DIR: &'static str = "/var/run/bluetooth";

/// Number of restarts that are tried in a row before the adapter is reset instead.
pub const RESET_ON_RESTART_COUNT: i32 = 2;

/// Milliseconds between the kernel's report that an index went away and the
/// check whether the device is really gone. Userspace needs that long to
/// close its socket when it only took exclusive access.
pub const INDEX_REMOVED_DEBOUNCE_MS: u64 = 150;

/// Milliseconds a start or a stop may take before it counts as timed out.
/// Some adapters load firmware first, so this is generous.
pub const COMMAND_TIMEOUT_MS: u64 = 7000;

/// Lifecycle state of the daemon that serves one adapter.
#[derive(Debug, PartialEq, Eq, Structural, Copy, Clone)]
pub enum ProcessState {
    /// The daemon is not running, or the adapter is not available.
    Off,
    /// A start was issued and the daemon has not reported in yet.
    TurningOn,
    /// The daemon is running.
    On,
    /// A stop was issued and the daemon has not gone away yet.
    TurningOff,
}

/// Whether an adapter in `state` counts as enabled: only a running daemon does.
pub fn state_to_enabled(state: ProcessState) -> (enabled: bool)
    ensures
        enabled == (state == ProcessState::On),
{
    match state {
        ProcessState::On => true,
        _ => false,
    }
}

/// A change that is asked of, or reported about, one adapter.
#[derive(Debug, PartialEq, Eq, Structural, Copy, Clone)]
pub enum AdapterStateActions {
    /// Request: start the daemon of this hci.
    StartBluetooth(i32),
    /// Request: stop the daemon of this hci.
    StopBluetooth(i32),
    /// Report: a daemon came up. The pid first, then the hci.
    BluetoothStarted(i32, i32),
    /// Report: the daemon of this hci went away.
    BluetoothStopped(i32),
    /// Report: the kernel lists this hci as present, or no longer does.
    HciDevicePresence(i32, bool),
}

impl AdapterStateActions {
    /// The hci that the request or the report is about.
    pub open spec fn hci(self) -> i32 {
        match self {
            AdapterStateActions::StartBluetooth(hci) => hci,
            AdapterStateActions::StopBluetooth(hci) => hci,
            AdapterStateActions::BluetoothStarted(_, hci) => hci,
            AdapterStateActions::BluetoothStopped(hci) => hci,
            AdapterStateActions::HciDevicePresence(hci, _) => hci,
        }
    }
}

/// What is known about one adapter.
#[derive(Debug, PartialEq, Eq, Structural, Copy, Clone)]
pub struct AdapterState {
    /// Current state of the adapter's daemon.
    pub state: ProcessState,
    /// Hci index of this adapter.
    pub hci: i32,
    /// Pid of the daemon that uses this adapter; 0 while unknown.
    pub pid: i32,
    /// Whether the kernel lists this hci device as present.
    pub present: bool,
    /// Whether the configuration says that this adapter should run.
    pub config_enabled: bool,
    /// How many starts in a row have not succeeded.
    pub restart_count: i32,
}

impl AdapterState {
    /// The record of an adapter nothing is known about yet.
    pub open spec fn fresh(hci: i32) -> AdapterState {
        AdapterState {
            state: ProcessState::Off,
            hci,
            pid: 0,
            present: false,
            config_enabled: false,
            restart_count: 0,
        }
    }

    /// An adapter that is off, absent, not configured and was never restarted.
    pub fn new(hci: i32) -> (adapter: AdapterState)
        ensures
            adapter == AdapterState::fresh(hci),
    {
        AdapterState {
            state: ProcessState::Off,
            hci,
            present: false,
            config_enabled: false,
            pid: 0,
            restart_count: 0,
        }
    }
}

/// What a command timeout asks the caller to do next.
#[derive(Debug, PartialEq, Eq, Structural, Copy, Clone)]
pub enum StateMachineTimeoutActions {
    /// The start was issued again: keep the timer running.
    RetryStart,
    /// The stop was issued again: keep the timer running.
    RetryStop,
    /// Nothing is pending any more.
    Noop,
}

/// What a transition asks to be done with the adapter's timer.
#[derive(Debug, PartialEq, Eq, Structural, Copy, Clone)]
pub enum CommandTimeoutAction {
    /// Remove the adapter's deadline.
    CancelTimer,
    /// Leave the timers as they are.
    DoNothing,
    /// Give the adapter a new deadline, one timeout from now.
    ResetTimer,
}

/// What a transition says about the default adapter.
#[derive(Debug, PartialEq, Eq, Structural, Copy, Clone)]
pub enum AdapterChangeAction {
    /// The default adapter stays.
    DoNothing,
    /// This hci is the default adapter from now on.
    NewDefaultAdapter(i32),
}

/// What a transition wants done outside the state machine.
#[derive(Debug, PartialEq, Eq, Structural, Copy, Clone)]
pub enum ProcessAction {
    /// The process manager is to start the daemon of this hci.
    Start(i32),
    /// The process manager is to stop the daemon of this hci.
    Stop(i32),
    /// The device of this hci is to be reset.
    Reset(i32),
}

/// A [`ProcessAction`] made ready for whoever performs it: the process
/// manager is told the adapter by its hci index written in decimal.
#[derive(Debug, PartialEq, Eq)]
pub enum ProcessCommand {
    /// Call the process manager's start with this text.
    Start(String),
    /// Call the process manager's stop with this text.
    Stop(String),
    /// Hand this hci to the hardware reset.
    Reset(i32),
}

/// Whether `command` is `action` made ready: the same kind of command for the
/// same hci, which a start and a stop carry as decimal text.
pub open spec fn carries(command: ProcessCommand, action: ProcessAction) -> bool {
    match (command, action) {
        (ProcessCommand::Start(text), ProcessAction::Start(hci)) => text@ == integer_text(
            hci as int,
        ),
        (ProcessCommand::Stop(text), ProcessAction::Stop(hci)) => text@ == integer_text(hci as int),
        (ProcessCommand::Reset(device), ProcessAction::Reset(hci)) => device == hci,
        _ => false,
    }
}

/// Whether `commands` are `actions` made ready, one for one and in their order.
pub open spec fn carry(commands: Seq<ProcessCommand>, actions: Seq<ProcessAction>) -> bool {
    &&& commands.len() == actions.len()
    &&& forall|i: int| 0 <= i < commands.len() ==> carries(#[trigger] commands[i], actions[i])
}

} // verus!
