//! What holds of the state machine and of the event loop whatever happens.
use crate::adapter::{
    AdapterChangeAction, AdapterStateActions, CommandTimeoutAction, ProcessAction, ProcessState,
    RESET_ON_RESTART_COUNT,
};
use crate::event_loop::{default_change, handle, LoopView, Message, Notification};
use crate::transitions::{
    in_transit, on_daemon_started, on_daemon_stopped, on_presence_changed, on_timeout,
    presence_starts, restarts_used_up, start_adapter, stop_adapter, MachineView,
};
use vstd::prelude::*;

verus! {

/// Whether the timers follow the states: an adapter has a deadline exactly
/// while its daemon is on its way up or down. The adapters in `pending` are
/// those whose deadline has passed and was taken away, and whose timeout has
/// not been handled yet: they have no deadline, whatever their state.
pub open spec fn timers_follow_states(l: LoopView, pending: Set<i32>) -> bool {
    forall|hci: i32|
        #![trigger l.timers.deadlines.contains_key(hci)]
        #![trigger l.machine.adapter(hci)]
        if pending.contains(hci) {
            !l.timers.deadlines.contains_key(hci)
        } else {
            l.timers.deadlines.contains_key(hci) <==> in_transit(l.machine.adapter(hci).state)
        }
}

/// Whether a timeout leaves the adapter `hci` turning on with nothing that
/// would turn it on: the stack is in use, but the adapter is not meant to run.
pub open spec fn timeout_strands(m: MachineView, hci: i32) -> bool {
    let a = m.adapter(hci);
    a.state == ProcessState::TurningOn && m.floss_enabled && !a.config_enabled
}

/// Whether `message` is a report on presence that starts a daemon.
pub open spec fn starts_by_presence(m: MachineView, message: Message) -> bool {
    message matches Message::AdapterStateChange(
        AdapterStateActions::HciDevicePresence(hci, present),
    ) && presence_starts(m, hci, present)
}

/// Whether `message` touches the timer of an adapter in `pending`: it is a
/// request for its daemon, a report about its daemon, or a report on presence
/// that starts its daemon.
pub open spec fn concerns(m: MachineView, message: Message, pending: Set<i32>) -> bool {
    message matches Message::AdapterStateChange(action) && pending.contains(action.hci()) && (!(
    action is HciDevicePresence) || starts_by_presence(m, message))
}

/// The state machine stays in order through every turn, and with it every
/// restart count stays between zero and the number of restarts that are tried
/// before a reset.
pub proof fn lemma_turn_keeps_order(l: LoopView, message: Message, now: u64)
    requires
        l.machine.wf(),
    ensures
        handle(l, message, now).next.machine.wf(),
{
}

/// The timers follow the states through every turn but these: a timeout,
/// which [`lemma_timeout_restores_timers`] is about, and a message that
/// touches the timer of an adapter whose timeout waits to be handled.
pub proof fn lemma_turn_keeps_timers(l: LoopView, pending: Set<i32>, message: Message, now: u64)
    requires
        timers_follow_states(l, pending),
        !(message is CommandTimeout),
        !concerns(l.machine, message, pending),
    ensures
        timers_follow_states(handle(l, message, now).next, pending),
{
}

/// When the wakeup fires, the adapters whose deadline has passed join those
/// whose timeout waits to be handled, and the timers follow the states of the others.
pub proof fn lemma_expire_sets_pending(l: LoopView, pending: Set<i32>, now: u64)
    requires
        timers_follow_states(l, pending),
    ensures
        timers_follow_states(
            LoopView { timers: l.timers.expire(now), ..l },
            pending.union(Set::new(|hci: i32| l.timers.is_due(hci, now))),
        ),
{
}

/// Handling the timeout of an adapter makes its timer follow its state again,
/// unless the timeout strands it: see [`timeout_strands`].
pub proof fn lemma_timeout_restores_timers(l: LoopView, pending: Set<i32>, hci: i32, now: u64)
    requires
        timers_follow_states(l, pending),
        pending.contains(hci),
        !timeout_strands(l.machine, hci),
    ensures
        timers_follow_states(
            handle(l, Message::CommandTimeout(hci), now).next,
            pending.remove(hci),
        ),
{
}

/// While no timeout waits to be handled, an adapter has a deadline exactly
/// while its daemon is on its way up or down, through every turn that is no
/// timeout.
pub proof fn lemma_turn_keeps_timers_plainly(l: LoopView, message: Message, now: u64)
    requires
        timers_follow_states(l, Set::empty()),
        !(message is CommandTimeout),
    ensures
        timers_follow_states(handle(l, message, now).next, Set::empty()),
{
    lemma_turn_keeps_timers(l, Set::empty(), message, now);
}

/// An adapter that appears, is off, should run and finds the stack in use is
/// started and given a deadline: the clients hear of its presence, and of a
/// new default adapter before that if there is one, but not that it is
/// enabled. When its daemon then reports in, the adapter is on, the deadline
/// is gone, and the clients hear that it is enabled, and nothing else.
pub proof fn lemma_cold_start(l: LoopView, hci: i32, pid: i32, t1: u64, t2: u64)
    requires
        presence_starts(l.machine, hci, true),
    ensures
        ({
            let arrived = handle(l, about(AdapterStateActions::HciDevicePresence(hci, true)), t1);
            let started = handle(
                arrived.next,
                about(AdapterStateActions::BluetoothStarted(pid, hci)),
                t2,
            );
            let change = on_presence_changed(l.machine, hci, true).result.1;
            &&& arrived.reaction.commands == seq![ProcessAction::Start(hci)]
            &&& arrived.reaction.notifications == default_change(change) + seq![
                Notification::HciDeviceChange(hci, true),
            ]
            &&& arrived.next.machine.adapter(hci).state == ProcessState::TurningOn
            &&& arrived.next.timers.deadlines.contains_key(hci)
            &&& arrived.reaction.wake == l.timers.wake_on(CommandTimeoutAction::ResetTimer)
            &&& started.reaction.commands == Seq::<ProcessAction>::empty()
            &&& started.reaction.notifications == seq![Notification::HciEnabledChange(hci, true)]
            &&& started.next.machine.adapter(hci).state == ProcessState::On
            &&& started.next.machine.adapter(hci).pid == pid
            &&& !started.next.timers.deadlines.contains_key(hci)
        }),
{
    let arrived = handle(l, about(AdapterStateActions::HciDevicePresence(hci, true)), t1);
    let change = on_presence_changed(l.machine, hci, true).result.1;
    assert(arrived.reaction.notifications =~= default_change(change) + seq![
        Notification::HciDeviceChange(hci, true),
    ]);
}

/// The desired adapter takes over as the default one the moment it appears:
/// the clients hear first of the new default adapter and then of the
/// presence, once each, and of nothing else.
pub proof fn lemma_desired_adapter_takes_over(l: LoopView, hci: i32, now: u64)
    requires
        l.machine.desired_adapter == hci,
        l.machine.default_adapter != hci,
        !l.machine.adapter(hci).present,
    ensures
        ({
            let arrived = handle(l, about(AdapterStateActions::HciDevicePresence(hci, true)), now);
            &&& arrived.next.machine.default_adapter == hci
            &&& arrived.next.machine.adapter(hci).present
            &&& arrived.reaction.notifications == seq![
                Notification::DefaultAdapterChange(hci),
                Notification::HciDeviceChange(hci, true),
            ]
        }),
{
    let arrived = handle(l, about(AdapterStateActions::HciDevicePresence(hci, true)), now);
    assert(arrived.reaction.notifications =~= seq![
        Notification::DefaultAdapterChange(hci),
        Notification::HciDeviceChange(hci, true),
    ]);
}

/// A machine that was just made has its desired adapter as the default one.
pub proof fn lemma_default_follows_desired_at_first(floss_enabled: bool, desired_adapter: i32)
    ensures
        MachineView::initial(floss_enabled, desired_adapter).default_follows_desired(),
{
}

/// Through every turn, the desired adapter is the default one whenever it is present.
pub proof fn lemma_turn_keeps_default(l: LoopView, message: Message, now: u64)
    requires
        l.machine.default_follows_desired(),
    ensures
        handle(l, message, now).next.machine.default_follows_desired(),
{
}

/// A daemon that is reported as started is on, whatever was asked before.
pub proof fn lemma_start_then_started_is_on(m: MachineView, pid: i32, hci: i32)
    ensures
        on_daemon_started(start_adapter(m, hci).next, pid, hci).next.adapter(hci).state
            == ProcessState::On,
        on_daemon_started(start_adapter(m, hci).next, pid, hci).next.adapter(hci).restart_count
            == 0,
{
}

/// The message that asks or reports `action`.
pub open spec fn about(action: AdapterStateActions) -> Message {
    Message::AdapterStateChange(action)
}

/// A start, the report of the start, a stop and the report of the stop leave
/// the adapter off, and with no deadline.
pub proof fn lemma_full_cycle_ends_off(
    l: LoopView,
    pid: i32,
    hci: i32,
    t1: u64,
    t2: u64,
    t3: u64,
    t4: u64,
)
    ensures
        ({
            let started = handle(
                handle(l, about(AdapterStateActions::StartBluetooth(hci)), t1).next,
                about(AdapterStateActions::BluetoothStarted(pid, hci)),
                t2,
            ).next;
            let stopped = handle(
                handle(started, about(AdapterStateActions::StopBluetooth(hci)), t3).next,
                about(AdapterStateActions::BluetoothStopped(hci)),
                t4,
            ).next;
            &&& stopped.machine.adapter(hci).state == ProcessState::Off
            &&& !stopped.timers.deadlines.contains_key(hci)
        }),
{
}

/// A second report that an adapter is present changes nothing, and says
/// nothing about the default adapter.
pub proof fn lemma_presence_twice_is_once(m: MachineView, hci: i32)
    ensures
        ({
            let first = on_presence_changed(m, hci, true);
            let second = on_presence_changed(first.next, hci, true);
            &&& second.next == first.next
            &&& second.result == (
                first.next.adapter(hci).state,
                AdapterChangeAction::DoNothing,
                CommandTimeoutAction::DoNothing,
            )
            &&& second.issued == Seq::<ProcessAction>::empty()
        }),
{
}

/// In the event loop, a second report that an adapter is present changes
/// nothing and announces the presence alone.
pub proof fn lemma_presence_twice_notifies_once(l: LoopView, hci: i32, t1: u64, t2: u64)
    ensures
        ({
            let report = about(AdapterStateActions::HciDevicePresence(hci, true));
            let first = handle(l, report, t1);
            let second = handle(first.next, report, t2);
            &&& second.next == first.next
            &&& second.reaction.notifications == seq![Notification::HciDeviceChange(hci, true)]
        }),
{
}

/// A start that is asked for again while the adapter is turning on, present
/// and wanted by an enabled stack leaves the machine as it is, gives the
/// start out again and asks for a fresh deadline.
pub proof fn lemma_start_again_resets_timer(m: MachineView, hci: i32)
    requires
        m.adapters.contains_key(hci),
        m.adapters[hci].state == ProcessState::TurningOn,
        m.adapters[hci].present,
        m.floss_enabled,
    ensures
        start_adapter(m, hci).next == m,
        start_adapter(m, hci).result == CommandTimeoutAction::ResetTimer,
        start_adapter(m, hci).issued == seq![ProcessAction::Start(hci)],
{
}

/// A start for an adapter that is not present changes nothing. An adapter
/// that was never heard of is off before and after.
pub proof fn lemma_start_without_presence(m: MachineView, hci: i32)
    requires
        !m.adapter(hci).present,
    ensures
        start_adapter(m, hci) == m.stay(CommandTimeoutAction::DoNothing),
        !m.adapters.contains_key(hci) ==> start_adapter(m, hci).next.adapter(hci).state
            == ProcessState::Off,
{
}

/// A start while the stack is disabled changes nothing.
pub proof fn lemma_start_without_floss(m: MachineView, hci: i32)
    requires
        !m.floss_enabled,
    ensures
        start_adapter(m, hci) == m.stay(CommandTimeoutAction::DoNothing),
{
}

/// Whether the daemon of `hci` fails the moment it stops: it runs, and it should.
pub open spec fn stop_is_failure(m: MachineView, hci: i32) -> bool {
    let a = m.adapter(hci);
    a.state == ProcessState::On && m.floss_enabled && a.config_enabled
}

/// Whether the daemon of `hci` fails the moment its deadline passes: it is
/// turning on, and it should run.
pub open spec fn timeout_is_failure(m: MachineView, hci: i32) -> bool {
    let a = m.adapter(hci);
    a.state == ProcessState::TurningOn && m.floss_enabled && a.config_enabled
}

/// A failure with restarts left is answered by a restart, and counted.
pub proof fn lemma_failure_restarts(m: MachineView, hci: i32)
    requires
        m.wf(),
        !restarts_used_up(m.adapter(hci)),
    ensures
        stop_is_failure(m, hci) ==> {
            let o = on_daemon_stopped(m, hci);
            &&& o.issued == seq![ProcessAction::Start(hci)]
            &&& o.result == CommandTimeoutAction::ResetTimer
            &&& o.next.adapter(hci).state == ProcessState::TurningOn
            &&& o.next.adapter(hci).restart_count == m.adapter(hci).restart_count + 1
        },
        timeout_is_failure(m, hci) ==> {
            let o = on_timeout(m, hci);
            &&& o.issued == seq![ProcessAction::Stop(hci), ProcessAction::Start(hci)]
            &&& o.next.adapter(hci).state == ProcessState::TurningOn
            &&& o.next.adapter(hci).restart_count == m.adapter(hci).restart_count + 1
        },
{
}

/// A failure after all restarts were used up is answered by a reset: the
/// adapter counts as off, and its restarts are forgotten.
pub proof fn lemma_failure_after_restarts_resets(m: MachineView, hci: i32)
    requires
        restarts_used_up(m.adapter(hci)),
    ensures
        stop_is_failure(m, hci) ==> {
            let o = on_daemon_stopped(m, hci);
            &&& o.issued == seq![ProcessAction::Reset(hci)]
            &&& o.next.adapter(hci).state == ProcessState::Off
            &&& o.next.adapter(hci).restart_count == 0
        },
        timeout_is_failure(m, hci) ==> {
            let o = on_timeout(m, hci);
            &&& o.issued == seq![ProcessAction::Reset(hci)]
            &&& o.next.adapter(hci).state == ProcessState::Off
            &&& o.next.adapter(hci).restart_count == 0
        },
{
}

/// Starts that time out one after the other are tried again as often as
/// restarts are allowed, and the timeout after that resets the adapter.
pub proof fn lemma_timeouts_escalate_to_reset(m: MachineView, hci: i32)
    requires
        m.wf(),
        timeout_is_failure(m, hci),
        m.adapter(hci).restart_count == 0,
    ensures
        ({
            let first = on_timeout(m, hci);
            let second = on_timeout(first.next, hci);
            let third = on_timeout(second.next, hci);
            &&& first.issued == seq![ProcessAction::Stop(hci), ProcessAction::Start(hci)]
            &&& second.issued == seq![ProcessAction::Stop(hci), ProcessAction::Start(hci)]
            &&& third.issued == seq![ProcessAction::Reset(hci)]
            &&& third.next.adapter(hci).state == ProcessState::Off
            &&& third.next.adapter(hci).restart_count == 0
        }),
{
}

} // verus!
