use adapter_manager::adapter::{
    state_to_enabled, AdapterChangeAction, AdapterState, AdapterStateActions, CommandTimeoutAction,
    ProcessCommand, ProcessState, StateMachineTimeoutActions, PID_DIR, RESET_ON_RESTART_COUNT,
};
use adapter_manager::event_loop::{EventLoop, Message};
use adapter_manager::state_core::StateCore;
use adapter_manager::state_machine::{HciReset, ProcessManager, StateMachineInternal};
use adapter_manager::table::AdapterTable;
use std::cell::RefCell;
use std::rc::Rc;

#[derive(Debug, PartialEq, Clone, Copy)]
enum Command {
    Start,
    Stop,
    Reset(i32),
}

#[derive(Clone)]
struct Recorder {
    log: Rc<RefCell<Vec<Command>>>,
}

impl Recorder {
    fn new() -> Recorder {
        Recorder { log: Rc::new(RefCell::new(Vec::new())) }
    }

    fn take(&self) -> Vec<Command> {
        self.log.borrow_mut().drain(..).collect()
    }
}

impl ProcessManager for Recorder {
    fn start(&mut self, _: String) {
        self.log.borrow_mut().push(Command::Start);
    }

    fn stop(&mut self, _: String) {
        self.log.borrow_mut().push(Command::Stop);
    }
}

impl HciReset for Recorder {
    fn reset_hci_device(&mut self, hci: i32) -> bool {
        self.log.borrow_mut().push(Command::Reset(hci));
        false
    }
}

type Machine = StateMachineInternal<Recorder, Recorder>;

fn make_machine(floss_enabled: bool) -> (Machine, Recorder) {
    let recorder = Recorder::new();
    (StateMachineInternal::new(recorder.clone(), recorder.clone(), floss_enabled, 0), recorder)
}

fn in_transit(state: ProcessState) -> bool {
    state == ProcessState::TurningOn || state == ProcessState::TurningOff
}

fn timers_follow_states(event_loop: &EventLoop, hcis: &[i32]) -> bool {
    hcis.iter().all(|hci| {
        event_loop.timeouts().deadline(*hci).is_some()
            == in_transit(event_loop.state_core().get_process_state(*hci))
    })
}

fn restart_counts_in_range(machine: &StateCore, hcis: &[i32]) -> bool {
    hcis.iter().all(|hci| match machine.get_state(*hci) {
        Some(a) => 0 <= a.restart_count && a.restart_count <= RESET_ON_RESTART_COUNT && a.hci == *hci,
        None => true,
    })
}

fn default_follows_desired(machine: &StateCore) -> bool {
    let desired = machine.get_desired_adapter();
    match machine.get_state(desired) {
        Some(a) if a.present => machine.get_default_adapter() == desired,
        _ => true,
    }
}

/// A small deterministic generator of test inputs.
struct Lcg(u64);

impl Lcg {
    fn next(&mut self, bound: u64) -> u64 {
        self.0 = self.0.wrapping_mul(6364136223846793005).wrapping_add(1442695040888963407);
        (self.0 >> 33) % bound
    }
}

#[test]
fn constants() {
    assert_eq!(PID_DIR, "/var/run/bluetooth");
    assert_eq!(RESET_ON_RESTART_COUNT, 2);
}

#[test]
fn only_on_is_enabled() {
    assert!(state_to_enabled(ProcessState::On));
    assert!(!state_to_enabled(ProcessState::Off));
    assert!(!state_to_enabled(ProcessState::TurningOn));
    assert!(!state_to_enabled(ProcessState::TurningOff));
}

#[test]
fn new_adapter_state() {
    let adapter = AdapterState::new(3);
    assert_eq!(
        adapter,
        AdapterState {
            state: ProcessState::Off,
            hci: 3,
            pid: 0,
            present: false,
            config_enabled: false,
            restart_count: 0,
        }
    );
}

#[test]
fn invariants_hold_through_many_turns() {
    // Requests and reports for two adapters in an arbitrary order. Both are
    // configured to run, so that reports on presence start daemons and no
    // timeout strands an adapter. Every timeout is handled as soon as the
    // deadline was taken away.
    let hcis = [0, 1];
    let mut event_loop = EventLoop::new(StateCore::new(true, 0));
    let mut lcg = Lcg(0xb10e);
    let mut now: u64 = 0;
    for hci in hcis {
        event_loop.set_config_enabled(hci, true);
        event_loop
            .handle_message(Message::AdapterStateChange(AdapterStateActions::HciDevicePresence(hci, true)), now);
        assert!(timers_follow_states(&event_loop, &hcis));
    }
    for _ in 0..5000 {
        now += lcg.next(3000);
        let hci = lcg.next(2) as i32;
        let message = match lcg.next(9) {
            7 => Message::AdapterStateChange(AdapterStateActions::HciDevicePresence(hci, false)),
            8 => Message::AdapterStateChange(AdapterStateActions::HciDevicePresence(hci, true)),
            0 => Message::AdapterStateChange(AdapterStateActions::StartBluetooth(hci)),
            1 => Message::AdapterStateChange(AdapterStateActions::StopBluetooth(hci)),
            2 => Message::AdapterStateChange(AdapterStateActions::BluetoothStarted(100 + hci, hci)),
            3 => Message::AdapterStateChange(AdapterStateActions::BluetoothStopped(hci)),
            4 => Message::SetDesiredDefaultAdapter(hci),
            5 => Message::CallbackDisconnected(1),
            _ => {
                let (due, _) = event_loop.expire(now);
                for expired in due {
                    event_loop.handle_message(Message::CommandTimeout(expired), now);
                }
                Message::AdapterStateChange(AdapterStateActions::HciDevicePresence(hci, true))
            }
        };
        event_loop.handle_message(message, now);
        assert!(timers_follow_states(&event_loop, &hcis));
        assert!(restart_counts_in_range(event_loop.state_core(), &hcis));
        assert!(default_follows_desired(event_loop.state_core()));
    }
}

#[test]
fn default_follows_desired_through_presence_changes() {
    let mut event_loop = EventLoop::new(StateCore::new(true, 2));
    let mut lcg = Lcg(7);
    for _ in 0..3000 {
        let hci = lcg.next(4) as i32;
        let message = match lcg.next(3) {
            0 => Message::SetDesiredDefaultAdapter(hci),
            1 => Message::AdapterStateChange(AdapterStateActions::HciDevicePresence(hci, true)),
            _ => Message::AdapterStateChange(AdapterStateActions::HciDevicePresence(hci, false)),
        };
        event_loop.handle_message(message, 0);
        assert!(default_follows_desired(event_loop.state_core()));
    }
}

#[test]
fn presence_that_starts_a_daemon_sets_a_deadline() {
    let mut event_loop = EventLoop::new(StateCore::new(true, 0));
    event_loop.set_config_enabled(0, true);
    let arrived = event_loop
        .handle_message(Message::AdapterStateChange(AdapterStateActions::HciDevicePresence(0, true)), 40);
    assert_eq!(event_loop.state_core().get_process_state(0), ProcessState::TurningOn);
    assert_eq!(event_loop.timeouts().deadline(0), Some(7040));
    assert_eq!(arrived.wake, Some(7000));
    // A daemon that never reports in is tried again when the deadline has passed.
    assert_eq!(event_loop.expire(7040), (vec![0], None));
    let timed_out = event_loop.handle_message(Message::CommandTimeout(0), 7040);
    assert_eq!(
        timed_out.commands,
        vec![ProcessCommand::Stop("0".to_string()), ProcessCommand::Start("0".to_string())]
    );
    assert_eq!(event_loop.timeouts().deadline(0), Some(14040));
}

#[test]
fn presence_that_starts_nothing_sets_no_deadline() {
    let mut event_loop = EventLoop::new(StateCore::new(true, 0));
    let arrived = event_loop
        .handle_message(Message::AdapterStateChange(AdapterStateActions::HciDevicePresence(0, true)), 40);
    assert_eq!(event_loop.state_core().get_process_state(0), ProcessState::Off);
    assert_eq!(event_loop.timeouts().deadline(0), None);
    assert_eq!(arrived.wake, None);
}

#[test]
fn timeout_can_strand_an_adapter_that_is_not_configured() {
    let mut event_loop = EventLoop::new(StateCore::new(true, 0));
    event_loop
        .handle_message(Message::AdapterStateChange(AdapterStateActions::HciDevicePresence(0, true)), 0);
    event_loop.handle_message(Message::AdapterStateChange(AdapterStateActions::StartBluetooth(0)), 0);
    assert_eq!(event_loop.expire(7000).0, vec![0]);
    event_loop.handle_message(Message::CommandTimeout(0), 7000);
    assert_eq!(event_loop.state_core().get_process_state(0), ProcessState::TurningOn);
    assert_eq!(event_loop.timeouts().deadline(0), None);
}

#[test]
fn after_daemon_started_the_adapter_is_on_with_no_restarts() {
    let (mut machine, _recorder) = make_machine(true);
    // Unknown adapter.
    assert_eq!(machine.action_on_bluetooth_started(55, 4), CommandTimeoutAction::CancelTimer);
    let a = machine.get_state(4).unwrap();
    assert_eq!((a.state, a.restart_count, a.pid, a.hci), (ProcessState::On, 0, 55, 4));
    // An adapter with restarts behind it.
    machine.action_on_hci_presence_changed(0, true);
    machine.set_config_enabled(0, true);
    machine.action_start_bluetooth(0);
    machine.action_on_command_timeout(0);
    machine.action_on_command_timeout(0);
    assert_eq!(machine.get_state(0).unwrap().restart_count, 2);
    machine.action_on_bluetooth_started(9, 0);
    let a = machine.get_state(0).unwrap();
    assert_eq!((a.state, a.restart_count, a.pid), (ProcessState::On, 0, 9));
}

#[test]
fn start_then_started_is_on() {
    for (present, floss) in [(true, true), (true, false), (false, true), (false, false)] {
        let (mut machine, _recorder) = make_machine(floss);
        if present {
            machine.action_on_hci_presence_changed(0, true);
        }
        machine.action_start_bluetooth(0);
        machine.action_on_bluetooth_started(1, 0);
        assert_eq!(machine.get_process_state(0), ProcessState::On);
    }
}

#[test]
fn full_cycle_ends_off_with_no_deadline() {
    let mut event_loop = EventLoop::new(StateCore::new(true, 0));
    event_loop
        .handle_message(Message::AdapterStateChange(AdapterStateActions::HciDevicePresence(0, true)), 0);
    let mut commands = Vec::new();
    for action in [
        AdapterStateActions::StartBluetooth(0),
        AdapterStateActions::BluetoothStarted(1, 0),
        AdapterStateActions::StopBluetooth(0),
        AdapterStateActions::BluetoothStopped(0),
    ] {
        commands.extend(event_loop.handle_message(Message::AdapterStateChange(action), 0).commands);
    }
    assert_eq!(event_loop.state_core().get_process_state(0), ProcessState::Off);
    assert_eq!(event_loop.timeouts().deadline(0), None);
    assert_eq!(
        commands,
        vec![ProcessCommand::Start("0".to_string()), ProcessCommand::Stop("0".to_string())]
    );
}

#[test]
fn the_machine_performs_what_the_core_returns() {
    // The same events through the core, which returns its commands, and through
    // the machine, which hands them to its process manager and its reset.
    #[derive(Debug, PartialEq)]
    enum Performed {
        Start(String),
        Stop(String),
        Reset(i32),
    }
    struct Log(Rc<RefCell<Vec<Performed>>>);
    impl ProcessManager for Log {
        fn start(&mut self, hci: String) {
            self.0.borrow_mut().push(Performed::Start(hci));
        }
        fn stop(&mut self, hci: String) {
            self.0.borrow_mut().push(Performed::Stop(hci));
        }
    }
    impl HciReset for Log {
        fn reset_hci_device(&mut self, hci: i32) -> bool {
            self.0.borrow_mut().push(Performed::Reset(hci));
            true
        }
    }
    let log = Rc::new(RefCell::new(Vec::new()));
    let mut machine = StateMachineInternal::new(Log(log.clone()), Log(log.clone()), true, 0);
    let mut core = StateCore::new(true, 0);
    let mut returned = Vec::new();

    machine.set_config_enabled(12, true);
    core.set_config_enabled(12, true);
    machine.action_on_hci_presence_changed(12, true);
    returned.extend(core.on_presence_changed(12, true).commands);
    for _ in 0..3 {
        machine.action_on_command_timeout(12);
        returned.extend(core.on_timeout(12).commands);
    }
    machine.action_on_bluetooth_started(5, 12);
    returned.extend(core.on_daemon_started(5, 12).commands);
    machine.action_on_bluetooth_stopped(12);
    returned.extend(core.on_daemon_stopped(12).commands);
    machine.action_stop_bluetooth(12);
    returned.extend(core.stop_adapter(12).commands);
    machine.action_start_bluetooth(12);
    returned.extend(core.start_adapter(12).commands);

    let twelve = || "12".to_string();
    assert_eq!(
        returned,
        vec![
            ProcessCommand::Start(twelve()),
            ProcessCommand::Stop(twelve()),
            ProcessCommand::Start(twelve()),
            ProcessCommand::Stop(twelve()),
            ProcessCommand::Start(twelve()),
            ProcessCommand::Reset(12),
            ProcessCommand::Start(twelve()),
            ProcessCommand::Stop(twelve()),
            ProcessCommand::Start(twelve()),
        ]
    );
    let performed: Vec<Performed> = returned
        .into_iter()
        .map(|command| match command {
            ProcessCommand::Start(hci) => Performed::Start(hci),
            ProcessCommand::Stop(hci) => Performed::Stop(hci),
            ProcessCommand::Reset(hci) => Performed::Reset(hci),
        })
        .collect();
    assert_eq!(*log.borrow(), performed);
    assert_eq!(machine.get_state(12), core.get_state(12));
}

#[test]
fn presence_twice_is_once() {
    let (mut machine, recorder) = make_machine(true);
    machine.set_config_enabled(3, true);
    machine.set_desired_default_adapter(3);
    machine.set_default_adapter(1);
    let first = machine.action_on_hci_presence_changed(3, true);
    assert_eq!(
        first,
        (
            ProcessState::TurningOn,
            AdapterChangeAction::NewDefaultAdapter(3),
            CommandTimeoutAction::ResetTimer
        )
    );
    machine.set_default_adapter(3);
    let before = machine.get_state(3);
    assert_eq!(recorder.take(), vec![Command::Start]);
    let second = machine.action_on_hci_presence_changed(3, true);
    assert_eq!(
        second,
        (ProcessState::TurningOn, AdapterChangeAction::DoNothing, CommandTimeoutAction::DoNothing)
    );
    assert_eq!(machine.get_state(3), before);
    assert_eq!(recorder.take(), vec![]);
}

#[test]
fn start_again_while_turning_on() {
    let (mut machine, recorder) = make_machine(true);
    machine.action_on_hci_presence_changed(0, true);
    assert_eq!(machine.action_start_bluetooth(0), CommandTimeoutAction::ResetTimer);
    let before = machine.get_state(0);
    for _ in 0..3 {
        assert_eq!(machine.action_start_bluetooth(0), CommandTimeoutAction::ResetTimer);
        assert_eq!(machine.get_state(0), before);
    }
    assert_eq!(recorder.take(), vec![Command::Start; 4]);
    // Once the adapter is gone, a repeated start no longer resets the timer.
    machine.action_on_hci_presence_changed(0, false);
    assert_eq!(machine.action_start_bluetooth(0), CommandTimeoutAction::DoNothing);
    assert_eq!(machine.get_process_state(0), ProcessState::TurningOn);
    assert_eq!(recorder.take(), vec![]);
}

#[test]
fn start_without_presence_changes_nothing() {
    let (mut machine, recorder) = make_machine(true);
    assert_eq!(machine.action_start_bluetooth(0), CommandTimeoutAction::DoNothing);
    assert_eq!(machine.get_process_state(0), ProcessState::Off);
    assert!(!machine.is_known(0));
    machine.set_config_enabled(1, true);
    let before = machine.get_state(1);
    assert_eq!(machine.action_start_bluetooth(1), CommandTimeoutAction::DoNothing);
    assert_eq!(machine.get_state(1), before);
    assert_eq!(recorder.take(), vec![]);
}

#[test]
fn start_without_floss_changes_nothing() {
    let (mut machine, recorder) = make_machine(false);
    machine.action_on_hci_presence_changed(0, true);
    machine.set_config_enabled(0, true);
    let before = machine.get_state(0);
    assert_eq!(machine.action_start_bluetooth(0), CommandTimeoutAction::DoNothing);
    assert_eq!(machine.get_state(0), before);
    assert_eq!(machine.get_process_state(0), ProcessState::Off);
    assert_eq!(recorder.take(), vec![]);
}

#[test]
fn third_failure_in_a_row_resets() {
    let (mut machine, recorder) = make_machine(true);
    machine.set_config_enabled(0, true);
    machine.action_on_hci_presence_changed(0, true);
    assert_eq!(recorder.take(), vec![Command::Start]);
    assert_eq!(machine.action_on_command_timeout(0), StateMachineTimeoutActions::RetryStart);
    assert_eq!(machine.get_state(0).unwrap().restart_count, 1);
    assert_eq!(machine.action_on_command_timeout(0), StateMachineTimeoutActions::RetryStart);
    assert_eq!(machine.get_state(0).unwrap().restart_count, 2);
    assert_eq!(recorder.take(), vec![Command::Stop, Command::Start, Command::Stop, Command::Start]);
    assert_eq!(machine.action_on_command_timeout(0), StateMachineTimeoutActions::Noop);
    assert_eq!(recorder.take(), vec![Command::Reset(0)]);
    let a = machine.get_state(0).unwrap();
    assert_eq!((a.state, a.restart_count), (ProcessState::Off, 0));
}

#[test]
fn adapter_that_comes_back_starts_from_zero() {
    let (mut machine, recorder) = make_machine(true);
    machine.set_config_enabled(0, true);
    machine.action_on_hci_presence_changed(0, true);
    machine.action_on_command_timeout(0);
    machine.action_stop_bluetooth(0);
    assert_eq!(machine.get_state(0).unwrap().restart_count, 1);
    assert_eq!(machine.get_process_state(0), ProcessState::Off);
    machine.action_on_hci_presence_changed(0, false);
    recorder.take();
    let back = machine.action_on_hci_presence_changed(0, true);
    assert_eq!(back.0, ProcessState::TurningOn);
    assert_eq!(machine.get_state(0).unwrap().restart_count, 0);
    assert_eq!(recorder.take(), vec![Command::Start]);
}

#[test]
fn stop_requests() {
    let (mut machine, recorder) = make_machine(true);
    // Unknown.
    assert_eq!(machine.action_stop_bluetooth(0), CommandTimeoutAction::DoNothing);
    assert!(!machine.is_known(0));
    // Off.
    machine.action_on_hci_presence_changed(0, true);
    assert_eq!(machine.action_stop_bluetooth(0), CommandTimeoutAction::DoNothing);
    // Turning on.
    machine.action_start_bluetooth(0);
    assert_eq!(machine.action_stop_bluetooth(0), CommandTimeoutAction::CancelTimer);
    assert_eq!(machine.get_process_state(0), ProcessState::Off);
    // On.
    machine.action_on_bluetooth_started(1, 0);
    assert_eq!(machine.action_stop_bluetooth(0), CommandTimeoutAction::ResetTimer);
    assert_eq!(machine.get_process_state(0), ProcessState::TurningOff);
    // Turning off.
    assert_eq!(machine.action_stop_bluetooth(0), CommandTimeoutAction::DoNothing);
    assert_eq!(machine.get_process_state(0), ProcessState::TurningOff);
    assert_eq!(recorder.take(), vec![Command::Start, Command::Stop, Command::Stop]);
}

#[test]
fn daemon_stopped_for_an_unknown_adapter() {
    let (mut machine, recorder) = make_machine(true);
    assert_eq!(machine.action_on_bluetooth_stopped(6), CommandTimeoutAction::CancelTimer);
    assert_eq!(machine.get_state(6), Some(AdapterState::new(6)));
    assert_eq!(recorder.take(), vec![]);
}

#[test]
fn valid_adapters_are_the_present_ones_in_order() {
    let (mut machine, _recorder) = make_machine(true);
    assert_eq!(machine.get_valid_adapters(), vec![]);
    assert_eq!(machine.get_lowest_available_adapter(), None);
    for hci in [5, 1, 9, 3] {
        machine.action_on_hci_presence_changed(hci, true);
    }
    machine.set_config_enabled(0, true);
    machine.action_on_bluetooth_started(7, 2);
    machine.action_on_hci_presence_changed(3, false);
    let adapters = machine.get_valid_adapters();
    assert_eq!(adapters.iter().map(|a| a.hci).collect::<Vec<i32>>(), vec![1, 5, 9]);
    assert!(adapters.iter().all(|a| a.present));
    assert_eq!(adapters[1], machine.get_state(5).unwrap());
    assert_eq!(machine.get_lowest_available_adapter(), Some(1));
    machine.action_on_hci_presence_changed(1, false);
    assert_eq!(machine.get_lowest_available_adapter(), Some(5));
    machine.action_on_hci_presence_changed(-4, true);
    assert_eq!(machine.get_lowest_available_adapter(), Some(-4));
}

#[test]
fn empty_adapter_table() {
    let table = AdapterTable::new();
    assert!(!table.contains(1));
    assert_eq!(table.get(1), None);
    assert_eq!(table.lowest_present(), None);
    assert_eq!(table.present(), vec![]);
}

#[test]
fn desired_default_adapter_on_the_machine() {
    let (mut machine, _recorder) = make_machine(true);
    assert_eq!(machine.get_default_adapter(), 0);
    assert_eq!(machine.get_desired_adapter(), 0);
    // Not present: only the wish is recorded.
    assert_eq!(machine.set_desired_default_adapter(2), AdapterChangeAction::DoNothing);
    assert_eq!((machine.get_default_adapter(), machine.get_desired_adapter()), (0, 2));
    machine.action_on_hci_presence_changed(1, true);
    assert_eq!(
        machine.set_desired_default_adapter(1),
        AdapterChangeAction::NewDefaultAdapter(1)
    );
    assert_eq!((machine.get_default_adapter(), machine.get_desired_adapter()), (1, 1));
    // Already the default.
    assert_eq!(machine.set_desired_default_adapter(1), AdapterChangeAction::DoNothing);
}
