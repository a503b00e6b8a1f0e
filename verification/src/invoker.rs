//! The ways in which a daemon is started and stopped on a host, as command
//! lines. Running them is up to the caller.
use vstd::prelude::*;
use vstd::string::StringExecFns;

verus! {

/// Which way of starting and stopping daemons to use.
#[derive(Debug, PartialEq, Eq, Structural, Copy, Clone)]
pub enum Invoker {
    /// The manager spawns the daemon itself.
    #[allow(dead_code)]
    NativeInvoker,
    /// The daemon is a unit of the unit manager.
    SystemdInvoker,
    /// The daemon is a job of the init system.
    UpstartInvoker,
}

/// The words of a command line, as text.
pub open spec fn words(command: Seq<String>) -> Seq<Seq<char>> {
    command.map_values(|word: String| word@)
}

/// The command line of the init system for `verb`, which is `start` or `stop`.
pub open spec fn initctl_command(verb: Seq<char>, hci: Seq<char>) -> Seq<Seq<char>> {
    seq!["initctl"@, verb, "btadapterd"@, "HCI="@ + hci]
}

/// The command line of the unit manager for `verb`, which is `restart` or `stop`.
pub open spec fn systemctl_command(verb: Seq<char>, hci: Seq<char>) -> Seq<Seq<char>> {
    seq!["systemctl"@, verb, "btadapterd@"@ + hci + ".service"@]
}

/// The command line that runs the daemon itself.
pub open spec fn native_command(hci: Seq<char>) -> Seq<Seq<char>> {
    seq!["/usr/bin/btadapterd"@, "HCI="@ + hci]
}

/// The argument that tells a daemon its hci.
fn hci_argument(hci: &str) -> (argument: String)
    ensures
        argument@ == "HCI="@ + hci@,
{
    String::from_str("HCI=").concat(hci)
}

/// Daemons as jobs of the init system.
pub struct UpstartInvoker {}

impl UpstartInvoker {
    pub fn new() -> UpstartInvoker {
        UpstartInvoker {  }
    }

    /// The command that starts the daemon of `hci`.
    pub fn start_command(&self, hci: &str) -> (command: Vec<String>)
        ensures
            words(command@) == initctl_command("start"@, hci@),
    {
        let mut command: Vec<String> = Vec::new();
        command.push(String::from_str("initctl"));
        command.push(String::from_str("start"));
        command.push(String::from_str("btadapterd"));
        command.push(hci_argument(hci));
        command
    }

    /// The command that stops the daemon of `hci`.
    pub fn stop_command(&self, hci: &str) -> (command: Vec<String>)
        ensures
            words(command@) == initctl_command("stop"@, hci@),
    {
        let mut command: Vec<String> = Vec::new();
        command.push(String::from_str("initctl"));
        command.push(String::from_str("stop"));
        command.push(String::from_str("btadapterd"));
        command.push(hci_argument(hci));
        command
    }
}

/// Daemons as units of the unit manager.
pub struct SystemdInvoker {}

impl SystemdInvoker {
    pub fn new() -> SystemdInvoker {
        SystemdInvoker {  }
    }

    /// The name of the unit that runs the daemon of `hci`.
    fn unit(hci: &str) -> (unit: String)
        ensures
            unit@ == "btadapterd@"@ + hci@ + ".service"@,
    {
        String::from_str("btadapterd@").concat(hci).concat(".service")
    }

    /// The command that starts the daemon of `hci`, anew if it is running.
    pub fn start_command(&self, hci: &str) -> (command: Vec<String>)
        ensures
            words(command@) == systemctl_command("restart"@, hci@),
    {
        let mut command: Vec<String> = Vec::new();
        command.push(String::from_str("systemctl"));
        command.push(String::from_str("restart"));
        command.push(Self::unit(hci));
        command
    }

    /// The command that stops the daemon of `hci`.
    pub fn stop_command(&self, hci: &str) -> (command: Vec<String>)
        ensures
            words(command@) == systemctl_command("stop"@, hci@),
    {
        let mut command: Vec<String> = Vec::new();
        command.push(String::from_str("systemctl"));
        command.push(String::from_str("stop"));
        command.push(Self::unit(hci));
        command
    }
}

/// A daemon that the manager spawns itself, and the pid to end it by.
pub struct NativeInvoker {
    /// Whether a daemon was spawned and has not been told to end.
    running: bool,
    /// The pid of the daemon that was spawned last; 0 before the first.
    bluetooth_pid: u32,
}

impl NativeInvoker {
    /// Whether a daemon was spawned and has not been told to end.
    pub closed spec fn running(&self) -> bool {
        self.running
    }

    /// The pid of the daemon that was spawned last; 0 before the first.
    pub closed spec fn pid(&self) -> u32 {
        self.bluetooth_pid
    }

    pub fn new() -> (invoker: NativeInvoker)
        ensures
            !invoker.running(),
            invoker.pid() == 0,
    {
        NativeInvoker { running: false, bluetooth_pid: 0 }
    }

    /// The command that runs the daemon of `hci`.
    pub fn start_command(&self, hci: &str) -> (command: Vec<String>)
        ensures
            words(command@) == native_command(hci@),
    {
        let mut command: Vec<String> = Vec::new();
        command.push(String::from_str("/usr/bin/btadapterd"));
        command.push(hci_argument(hci));
        command
    }

    /// Notes that the daemon was spawned and has this `pid`.
    pub fn started(&mut self, pid: u32)
        ensures
            final(self).running(),
            final(self).pid() == pid,
    {
        self.bluetooth_pid = pid;
        self.running = true;
    }

    /// The pid to send the request to terminate to, if a daemon is running.
    /// The daemon counts as gone from then on.
    pub fn stop(&mut self) -> (target: Option<u32>)
        ensures
            target == if old(self).running() {
                Some(old(self).pid())
            } else {
                None::<u32>
            },
            !final(self).running(),
            final(self).pid() == old(self).pid(),
    {
        if self.running {
            self.running = false;
            Some(self.bluetooth_pid)
        } else {
            None
        }
    }
}

} // verus!
