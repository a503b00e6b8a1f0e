//! One turn of the event loop: a message comes in, the state machine and the
//! timers move, and what is left to do outside is handed back.
//!
//! The loop itself, its queue and its tasks belong to the caller. What is
//! decided here is what a message changes, which commands are to be performed,
//! whom to notify and in which order, whether the wakeup has to be armed, and
//! what to put on the queue next.
use crate::adapter::{
    carry, AdapterChangeAction, AdapterState, AdapterStateActions, CommandTimeoutAction,
    ProcessAction, ProcessCommand, ProcessState, StateMachineTimeoutActions, COMMAND_TIMEOUT_MS,
    RESET_ON_RESTART_COUNT,
};
use crate::command_timeout::{CommandTimeout, TimerView};
use crate::pid_file::{get_hci_index_from_pid_path, hci_index_of, parse_pid, pid_of_contents};
use crate::state_core::{StateCore, Step};
use crate::transitions::{
    on_daemon_started, on_daemon_stopped, on_presence_changed, on_timeout,
    set_desired_default_adapter, start_adapter, stop_adapter, MachineView, Outcome,
};
use vstd::prelude::*;

verus! {

/// What was seen happening to a file in the pid directory.
#[derive(Debug, PartialEq, Eq, Structural, Copy, Clone)]
pub enum PidEvent {
    /// A file was created, or was there when the watch began.
    Created,
    /// A file was deleted.
    Deleted,
    /// Anything else.
    Other,
}

/// The messages that the event loop handles.
#[derive(Debug)]
pub enum Message {
    /// A request for, or a report about, one adapter.
    AdapterStateChange(AdapterStateActions),
    /// Something happened to the file of this name in the pid directory.
    PidChange(PidEvent, Option<String>),
    /// The client with this callback id is gone.
    CallbackDisconnected(u32),
    /// The deadline of this hci has passed.
    CommandTimeout(i32),
    /// This hci is wished for as the default adapter.
    SetDesiredDefaultAdapter(i32),
}

/// What the manager's clients are told.
#[derive(Debug, PartialEq, Eq, Structural, Copy, Clone)]
pub enum Notification {
    /// This hci is the default adapter now.
    DefaultAdapterChange(i32),
    /// This hci is present, or is not.
    HciDeviceChange(i32, bool),
    /// The adapter of this hci is enabled, or is not.
    HciEnabledChange(i32, bool),
    /// The client with this callback id is gone.
    CallbackDisconnected(u32),
}

/// What a turn leaves to be put on the queue.
#[derive(Debug, PartialEq, Eq, Structural, Copy, Clone)]
pub enum FollowUp {
    /// Nothing.
    Nothing,
    /// The pid file of this hci appeared: read it, and report the daemon as
    /// started with the pid it holds, as [`started_from_pid_file`] says.
    ReadPidFile(i32),
    /// This report, as it is.
    Send(AdapterStateActions),
}

/// What a turn hands back to the loop.
pub struct Reaction {
    /// What to have done by the process manager and the hardware reset, in
    /// this order and before anything else: see
    /// [`perform`](crate::state_machine::perform).
    pub commands: Vec<ProcessCommand>,
    /// Whom to notify, in this order.
    pub notifications: Vec<Notification>,
    /// The time in milliseconds after which the wakeup has to fire, if it has to be armed.
    pub wake: Option<u64>,
    /// What to put on the queue.
    pub follow_up: FollowUp,
}

/// A [`Reaction`] as a value.
#[verifier::ext_equal]
pub struct ReactionView {
    /// What to have done by the process manager and the hardware reset, in this order.
    pub commands: Seq<ProcessAction>,
    /// Whom to notify, in this order.
    pub notifications: Seq<Notification>,
    /// The time after which the wakeup has to fire, if it has to be armed.
    pub wake: Option<u64>,
    /// What to put on the queue.
    pub follow_up: FollowUp,
}

impl Reaction {
    /// Whether this is the reaction `view`, with its commands made ready.
    pub open spec fn shows(&self, view: ReactionView) -> bool {
        &&& carry(self.commands@, view.commands)
        &&& self.notifications@ == view.notifications
        &&& self.wake == view.wake
        &&& self.follow_up == view.follow_up
    }
}

/// The state machine and the timers as one value.
#[verifier::ext_equal]
pub struct LoopView {
    /// The state machine.
    pub machine: MachineView,
    /// The timers.
    pub timers: TimerView,
}

/// What a message leads to.
#[verifier::ext_equal]
pub struct Turn {
    /// The state machine and the timers after the turn.
    pub next: LoopView,
    /// What is handed back to the loop.
    pub reaction: ReactionView,
}

/// Whom to tell when the state of the adapter `hci` was `prev` before a turn
/// and is `next` after it: the clients hear of it when the adapter comes to
/// be on, or ceases to be.
pub open spec fn enabled_change(hci: i32, prev: ProcessState, next: ProcessState) -> Seq<
    Notification,
> {
    if next != prev && (next == ProcessState::On || prev == ProcessState::On) {
        seq![Notification::HciEnabledChange(hci, next == ProcessState::On)]
    } else {
        Seq::empty()
    }
}

/// Whom to tell of the word on the default adapter.
pub open spec fn default_change(change: AdapterChangeAction) -> Seq<Notification> {
    match change {
        AdapterChangeAction::NewDefaultAdapter(hci) => seq![
            Notification::DefaultAdapterChange(hci),
        ],
        AdapterChangeAction::DoNothing => Seq::empty(),
    }
}

/// The machine with the word on the default adapter taken in.
pub open spec fn with_default(machine: MachineView, change: AdapterChangeAction) -> MachineView {
    match change {
        AdapterChangeAction::NewDefaultAdapter(hci) => MachineView {
            default_adapter: hci,
            ..machine
        },
        AdapterChangeAction::DoNothing => machine,
    }
}

/// What the event on the file `name` in the pid directory asks for: a file
/// that appears and names an adapter is to be read, one that disappears tells
/// that the adapter's daemon is gone. Other events, and names that belong to
/// no adapter, ask for nothing.
pub open spec fn pid_follow_up(event: PidEvent, name: Option<String>) -> FollowUp {
    match (event, name) {
        (PidEvent::Created, Some(name)) => match hci_index_of(name@) {
            Some(hci) => FollowUp::ReadPidFile(hci),
            None => FollowUp::Nothing,
        },
        (PidEvent::Deleted, Some(name)) => match hci_index_of(name@) {
            Some(hci) => FollowUp::Send(AdapterStateActions::BluetoothStopped(hci)),
            None => FollowUp::Nothing,
        },
        _ => FollowUp::Nothing,
    }
}

/// The turn for a request or a report whose transition says what to do with
/// the timer.
pub open spec fn timed_turn(
    l: LoopView,
    hci: i32,
    outcome: Outcome<CommandTimeoutAction>,
    now: u64,
) -> Turn {
    Turn {
        next: LoopView { machine: outcome.next, timers: l.timers.apply(hci, outcome.result, now) },
        reaction: ReactionView {
            commands: outcome.issued,
            notifications: enabled_change(
                hci,
                l.machine.adapter(hci).state,
                outcome.next.adapter(hci).state,
            ),
            wake: l.timers.wake_on(outcome.result),
            follow_up: FollowUp::Nothing,
        },
    }
}

/// The turn that changes nothing and hands back `notifications` and `follow_up`.
pub open spec fn idle_turn(
    l: LoopView,
    notifications: Seq<Notification>,
    follow_up: FollowUp,
) -> Turn {
    Turn {
        next: l,
        reaction: ReactionView { commands: Seq::empty(), notifications, wake: None, follow_up },
    }
}

/// The turn that a message leads to at the time `now`.
///
/// - A start, a stop, and the report of a daemon that started or stopped go
///   through the state machine, and the timer of the adapter follows what the
///   transition says.
/// - A report on presence goes through the state machine, and the timer of
///   the adapter follows what the transition says: an adapter that is started
///   gets a deadline. The new default adapter, if there is one, is taken in
///   and announced, and the presence is announced in any case.
/// - Whenever one of these leaves the adapter on where it was not, or not on
///   where it was, the clients are told last.
/// - A deadline that passed goes through the state machine, and the adapter
///   gets a new deadline unless nothing is pending any more.
/// - A wish for a default adapter goes through the state machine, and is
///   announced if it came true.
/// - A client that is gone is announced.
/// - An event in the pid directory leaves something for the queue: see
///   [`pid_follow_up`].
pub open spec fn handle(l: LoopView, message: Message, now: u64) -> Turn {
    match message {
        Message::AdapterStateChange(AdapterStateActions::StartBluetooth(hci)) => timed_turn(
            l,
            hci,
            start_adapter(l.machine, hci),
            now,
        ),
        Message::AdapterStateChange(AdapterStateActions::StopBluetooth(hci)) => timed_turn(
            l,
            hci,
            stop_adapter(l.machine, hci),
            now,
        ),
        Message::AdapterStateChange(AdapterStateActions::BluetoothStarted(pid, hci)) => timed_turn(
            l,
            hci,
            on_daemon_started(l.machine, pid, hci),
            now,
        ),
        Message::AdapterStateChange(AdapterStateActions::BluetoothStopped(hci)) => timed_turn(
            l,
            hci,
            on_daemon_stopped(l.machine, hci),
            now,
        ),
        Message::AdapterStateChange(AdapterStateActions::HciDevicePresence(hci, present)) => {
            let outcome = on_presence_changed(l.machine, hci, present);
            Turn {
                next: LoopView {
                    machine: with_default(outcome.next, outcome.result.1),
                    timers: l.timers.apply(hci, outcome.result.2, now),
                },
                reaction: ReactionView {
                    commands: outcome.issued,
                    notifications: default_change(outcome.result.1) + seq![
                        Notification::HciDeviceChange(hci, present),
                    ] + enabled_change(
                        hci,
                        l.machine.adapter(hci).state,
                        outcome.next.adapter(hci).state,
                    ),
                    wake: l.timers.wake_on(outcome.result.2),
                    follow_up: FollowUp::Nothing,
                },
            }
        },
        Message::PidChange(event, name) => idle_turn(l, Seq::empty(), pid_follow_up(event, name)),
        Message::CallbackDisconnected(id) => idle_turn(
            l,
            seq![Notification::CallbackDisconnected(id)],
            FollowUp::Nothing,
        ),
        Message::CommandTimeout(hci) => {
            let outcome = on_timeout(l.machine, hci);
            let again = outcome.result != StateMachineTimeoutActions::Noop;
            Turn {
                next: LoopView {
                    machine: outcome.next,
                    timers: if again {
                        l.timers.set_next(hci, now)
                    } else {
                        l.timers
                    },
                },
                reaction: ReactionView {
                    commands: outcome.issued,
                    notifications: Seq::empty(),
                    wake: if again {
                        l.timers.wake_on(CommandTimeoutAction::ResetTimer)
                    } else {
                        None
                    },
                    follow_up: FollowUp::Nothing,
                },
            }
        },
        Message::SetDesiredDefaultAdapter(hci) => {
            let outcome = set_desired_default_adapter(l.machine, hci);
            Turn {
                next: LoopView { machine: outcome.next, ..l },
                reaction: ReactionView {
                    commands: Seq::empty(),
                    notifications: default_change(outcome.result),
                    wake: None,
                    follow_up: FollowUp::Nothing,
                },
            }
        },
    }
}

/// The report to put on the queue once the pid file of `hci` was read: the
/// daemon of `hci` started, with the pid that the file holds. Nothing where
/// the file could not be read.
pub fn started_from_pid_file(hci: i32, contents: Option<&Vec<u8>>) -> (report: Option<
    AdapterStateActions,
>)
    ensures
        report == match contents {
            Some(bytes) => Some(
                AdapterStateActions::BluetoothStarted(pid_of_contents(bytes@), hci),
            ),
            None => None::<AdapterStateActions>,
        },
{
    match contents {
        Some(bytes) => Some(AdapterStateActions::BluetoothStarted(parse_pid(bytes), hci)),
        None => None,
    }
}

/// The state machine together with the timers of its adapters.
pub struct EventLoop {
    /// The state machine.
    state_core: StateCore,
    /// The deadlines of the starts and stops that are under way.
    cmd_timeout: CommandTimeout,
}

impl View for EventLoop {
    type V = LoopView;

    closed spec fn view(&self) -> LoopView {
        LoopView { machine: self.state_core@, timers: self.cmd_timeout@ }
    }
}

/// No commands.
fn no_commands() -> (commands: Vec<ProcessCommand>)
    ensures
        carry(commands@, Seq::<ProcessAction>::empty()),
{
    Vec::new()
}

impl EventLoop {
    /// The state machine is in order: see [`MachineView::wf`].
    pub open spec fn wf(&self) -> bool {
        self@.machine.wf()
    }

    /// The table of the state machine is in order at all times: see
    /// [`StateCore::in_order`].
    pub fn in_order(&self)
        ensures
            self.wf(),
    {
        self.state_core.in_order();
    }

    /// An event loop around `state_core`, with no deadline set.
    pub fn new(state_core: StateCore) -> (event_loop: Self)
        ensures
            event_loop@.machine == state_core@,
            event_loop@.timers == TimerView::initial(),
    {
        EventLoop { state_core, cmd_timeout: CommandTimeout::new() }
    }

    /// The state machine, to look at.
    pub fn state_core(&self) -> (machine: &StateCore)
        ensures
            machine@ == self@.machine,
    {
        &self.state_core
    }

    /// The timers, to look at.
    pub fn timeouts(&self) -> (timers: &CommandTimeout)
        ensures
            timers@ == self@.timers,
    {
        &self.cmd_timeout
    }

    /// Notes whether the configuration wants the adapter `hci` to run.
    pub fn set_config_enabled(&mut self, hci: i32, enabled: bool)
        ensures
            final(self)@.timers == old(self)@.timers,
            final(self)@.machine == old(self)@.machine.put(
                hci,
                AdapterState { config_enabled: enabled, ..old(self)@.machine.adapter(hci) },
            ),
    {
        self.state_core.set_config_enabled(hci, enabled);
    }

    /// Makes `adapter` the record of `hci`, if it can be one: see
    /// [`StateCore::modify_state`]. The timers stay as they are.
    pub fn modify_state(&mut self, hci: i32, adapter: AdapterState) -> (taken: bool)
        ensures
            taken == (adapter.hci == hci && 0 <= adapter.restart_count
                <= RESET_ON_RESTART_COUNT),
            final(self)@.timers == old(self)@.timers,
            final(self)@.machine == if taken {
                old(self)@.machine.put(hci, adapter)
            } else {
                old(self)@.machine
            },
    {
        self.state_core.modify_state(hci, adapter)
    }

    /// Switches the stack on or off and returns what the switch said before.
    pub fn set_floss_enabled(&mut self, enabled: bool) -> (previous: bool)
        ensures
            previous == old(self)@.machine.floss_enabled,
            final(self)@.timers == old(self)@.timers,
            final(self)@.machine == (MachineView { floss_enabled: enabled, ..old(self)@.machine }),
    {
        self.state_core.set_floss_enabled(enabled)
    }

    /// The wakeup fired at `now`: takes away the deadlines that have passed.
    /// For each hci in the first answer, a [`Message::CommandTimeout`] is to be
    /// put on the queue. The second answer is as that of
    /// [`CommandTimeout::expire`].
    pub fn expire(&mut self, now: u64) -> (result: (Vec<i32>, Option<u64>))
        ensures
            final(self)@.machine == old(self)@.machine,
            final(self)@.timers == old(self)@.timers.expire(now),
            result.0@.no_duplicates(),
            forall|hci: i32| result.0@.contains(hci) <==> old(self)@.timers.is_due(hci, now),
            match result.1 {
                Some(wake) => !final(self)@.timers.expired && final(self)@.timers.wakes_after(
                    now,
                    wake,
                ),
                None => final(self)@.timers.expired,
            },
    {
        self.cmd_timeout.expire(now)
    }

    /// Finishes the turn of a request or a report whose transition said what
    /// to do with the timer.
    fn finish_timed(
        &mut self,
        hci: i32,
        prev_state: ProcessState,
        step: Step<CommandTimeoutAction>,
        now: u64,
        Ghost(outcome): Ghost<Outcome<CommandTimeoutAction>>,
    ) -> (reaction: Reaction)
        requires
            now + COMMAND_TIMEOUT_MS <= u64::MAX,
            step.gives(outcome),
        ensures
            final(self)@.machine == old(self)@.machine,
            final(self)@.timers == old(self)@.timers.apply(hci, outcome.result, now),
            reaction.shows(
                ReactionView {
                    commands: outcome.issued,
                    notifications: enabled_change(
                        hci,
                        prev_state,
                        old(self)@.machine.adapter(hci).state,
                    ),
                    wake: old(self)@.timers.wake_on(outcome.result),
                    follow_up: FollowUp::Nothing,
                },
            ),
    {
        let wake = self.cmd_timeout.handle_timeout_action(hci, step.result, now);
        let next_state = self.state_core.get_process_state(hci);
        let mut notifications: Vec<Notification> = Vec::new();
        // Only some transitions are worth telling the clients about.
        if next_state != prev_state && (next_state == ProcessState::On || prev_state
            == ProcessState::On) {
            notifications.push(Notification::HciEnabledChange(hci, next_state == ProcessState::On));
        }
        Reaction { commands: step.commands, notifications, wake, follow_up: FollowUp::Nothing }
    }

    /// Handles one message at the time `now`: see [`handle`].
    pub fn handle_message(&mut self, message: Message, now: u64) -> (reaction: Reaction)
        requires
            now + COMMAND_TIMEOUT_MS <= u64::MAX,
        ensures
            final(self)@ == handle(old(self)@, message, now).next,
            reaction.shows(handle(old(self)@, message, now).reaction),
    {
        match message {
            Message::AdapterStateChange(action) => {
                match action {
                    AdapterStateActions::StartBluetooth(hci) => {
                        let prev_state = self.state_core.get_process_state(hci);
                        let step = self.state_core.start_adapter(hci);
                        self.finish_timed(
                            hci,
                            prev_state,
                            step,
                            now,
                            Ghost(start_adapter(old(self)@.machine, hci)),
                        )
                    },
                    AdapterStateActions::StopBluetooth(hci) => {
                        let prev_state = self.state_core.get_process_state(hci);
                        let step = self.state_core.stop_adapter(hci);
                        self.finish_timed(
                            hci,
                            prev_state,
                            step,
                            now,
                            Ghost(stop_adapter(old(self)@.machine, hci)),
                        )
                    },
                    AdapterStateActions::BluetoothStarted(pid, hci) => {
                        let prev_state = self.state_core.get_process_state(hci);
                        let step = self.state_core.on_daemon_started(pid, hci);
                        self.finish_timed(
                            hci,
                            prev_state,
                            step,
                            now,
                            Ghost(on_daemon_started(old(self)@.machine, pid, hci)),
                        )
                    },
                    AdapterStateActions::BluetoothStopped(hci) => {
                        let prev_state = self.state_core.get_process_state(hci);
                        let step = self.state_core.on_daemon_stopped(hci);
                        self.finish_timed(
                            hci,
                            prev_state,
                            step,
                            now,
                            Ghost(on_daemon_stopped(old(self)@.machine, hci)),
                        )
                    },
                    AdapterStateActions::HciDevicePresence(hci, present) => {
                        let prev_state = self.state_core.get_process_state(hci);
                        let step = self.state_core.on_presence_changed(hci, present);
                        let next_state = self.state_core.get_process_state(hci);
                        let wake = self.cmd_timeout.handle_timeout_action(hci, step.result.2, now);
                        let mut notifications: Vec<Notification> = Vec::new();
                        match step.result.1 {
                            AdapterChangeAction::NewDefaultAdapter(new_hci) => {
                                self.state_core.set_default_adapter(new_hci);
                                notifications.push(Notification::DefaultAdapterChange(new_hci));
                            },
                            AdapterChangeAction::DoNothing => {},
                        }
                        notifications.push(Notification::HciDeviceChange(hci, present));
                        // Only some transitions are worth telling the clients about.
                        if next_state != prev_state && (next_state == ProcessState::On || prev_state
                            == ProcessState::On) {
                            notifications.push(
                                Notification::HciEnabledChange(hci, next_state == ProcessState::On),
                            );
                        }
                        assert(notifications@ =~= handle(
                            old(self)@,
                            message,
                            now,
                        ).reaction.notifications);
                        Reaction {
                            commands: step.commands,
                            notifications,
                            wake,
                            follow_up: FollowUp::Nothing,
                        }
                    },
                }
            },
            Message::PidChange(event, name) => {
                let follow_up = match (event, &name) {
                    (PidEvent::Created, Some(name)) => match get_hci_index_from_pid_path(
                        name.as_str(),
                    ) {
                        Some(hci) => FollowUp::ReadPidFile(hci),
                        None => FollowUp::Nothing,
                    },
                    (PidEvent::Deleted, Some(name)) => match get_hci_index_from_pid_path(
                        name.as_str(),
                    ) {
                        Some(hci) => FollowUp::Send(AdapterStateActions::BluetoothStopped(hci)),
                        None => FollowUp::Nothing,
                    },
                    _ => FollowUp::Nothing,
                };
                Reaction {
                    commands: no_commands(),
                    notifications: Vec::new(),
                    wake: None,
                    follow_up,
                }
            },
            Message::CallbackDisconnected(id) => {
                let mut notifications: Vec<Notification> = Vec::new();
                notifications.push(Notification::CallbackDisconnected(id));
                Reaction {
                    commands: no_commands(),
                    notifications,
                    wake: None,
                    follow_up: FollowUp::Nothing,
                }
            },
            Message::CommandTimeout(hci) => {
                let step = self.state_core.on_timeout(hci);
                let wake = match step.result {
                    StateMachineTimeoutActions::Noop => None,
                    _ => self.cmd_timeout.set_next(hci, now),
                };
                Reaction {
                    commands: step.commands,
                    notifications: Vec::new(),
                    wake,
                    follow_up: FollowUp::Nothing,
                }
            },
            Message::SetDesiredDefaultAdapter(hci) => {
                let mut notifications: Vec<Notification> = Vec::new();
                match self.state_core.set_desired_default_adapter(hci) {
                    AdapterChangeAction::NewDefaultAdapter(new_hci) => {
                        self.state_core.set_default_adapter(new_hci);
                        notifications.push(Notification::DefaultAdapterChange(new_hci));
                    },
                    AdapterChangeAction::DoNothing => {},
                }
                Reaction {
                    commands: no_commands(),
                    notifications,
                    wake: None,
                    follow_up: FollowUp::Nothing,
                }
            },
        }
    }
}

} // verus!
