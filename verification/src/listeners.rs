//! What the two listeners make of what they hear: the one on the kernel's
//! management socket, which learns of hci indices that come and go, and the one
//! on the pid directory, which learns of daemons that come and go.
//!
//! The sockets, the waiting and the questions to the configuration are the
//! caller's. What is decided here is which reports and requests follow.
use crate::adapter::{AdapterStateActions, INDEX_REMOVED_DEBOUNCE_MS};
use crate::event_loop::{Message, PidEvent};
use crate::mgmt::{MgmtEvent, MgmtEventView};
use vstd::prelude::*;

verus! {

/// One thing for the listener on the management socket to do.
#[derive(Debug, PartialEq, Eq, Structural, Copy, Clone)]
pub enum ListenerStep {
    /// Put this on the queue.
    Send(AdapterStateActions),
    /// Ask the configuration whether this hci is enabled, and put on the queue
    /// what [`start_hci_if_floss_enabled`] makes of the answer.
    StartIfEnabled(u16),
    /// Wait for these milliseconds, second in the pair, then ask whether the
    /// device of this hci still exists and put on the queue what
    /// [`presence_after_removal`] makes of the answer.
    RecheckAfter(u16, u64),
}

/// What follows for one index on the list of indices: it is present, and
/// where the stack is enabled it is started if the configuration wants it.
pub open spec fn announce(hci: u16, floss_enabled: bool) -> Seq<ListenerStep> {
    let present = ListenerStep::Send(AdapterStateActions::HciDevicePresence(hci as i32, true));
    if floss_enabled {
        seq![present, ListenerStep::StartIfEnabled(hci)]
    } else {
        seq![present]
    }
}

/// What follows for a list of indices: what follows for each, one after the other.
pub open spec fn announce_all(interfaces: Seq<u16>, floss_enabled: bool) -> Seq<ListenerStep>
    decreases interfaces.len(),
{
    if interfaces.len() == 0 {
        Seq::empty()
    } else {
        announce_all(interfaces.drop_last(), floss_enabled) + announce(
            interfaces.last(),
            floss_enabled,
        )
    }
}

/// What follows from a report of the management socket.
///
/// Every index on the list is present. An index that was added is present. An
/// index that was removed may only have been taken by a program that wants it
/// for itself: whether it is gone is asked again a little later.
pub open spec fn steps_for(event: MgmtEventView, floss_enabled: bool) -> Seq<ListenerStep> {
    match event {
        MgmtEventView::IndexList(interfaces) => announce_all(interfaces, floss_enabled),
        MgmtEventView::CommandComplete => Seq::empty(),
        MgmtEventView::IndexAdded(hci) => seq![
            ListenerStep::Send(AdapterStateActions::HciDevicePresence(hci as i32, true)),
        ],
        MgmtEventView::IndexRemoved(hci) => seq![
            ListenerStep::RecheckAfter(hci, INDEX_REMOVED_DEBOUNCE_MS),
        ],
    }
}

/// What the listener has to do on a report of the management socket, in this order.
pub fn on_mgmt_event(event: &MgmtEvent, floss_enabled: bool) -> (steps: Vec<ListenerStep>)
    ensures
        steps@ == steps_for(event@, floss_enabled),
{
    let mut steps: Vec<ListenerStep> = Vec::new();
    match event {
        MgmtEvent::IndexList(interfaces) => {
            let mut i: usize = 0;
            while i < interfaces.len()
                invariant
                    i <= interfaces.len(),
                    steps@ == announce_all(interfaces@.take(i as int), floss_enabled),
                decreases interfaces.len() - i,
            {
                let hci: u16 = interfaces[i];
                steps.push(
                    ListenerStep::Send(AdapterStateActions::HciDevicePresence(hci as i32, true)),
                );
                // With the list of devices at hand, those that were enabled
                // before are enabled again if this stack is in use.
                if floss_enabled {
                    steps.push(ListenerStep::StartIfEnabled(hci));
                }
                assert(interfaces@.take(i + 1).drop_last() =~= interfaces@.take(i as int));
                i = i + 1;
            }
            assert(interfaces@.take(interfaces.len() as int) =~= interfaces@);
        },
        MgmtEvent::CommandComplete => {},
        MgmtEvent::IndexAdded(hci) => {
            steps.push(
                ListenerStep::Send(AdapterStateActions::HciDevicePresence(*hci as i32, true)),
            );
        },
        MgmtEvent::IndexRemoved(hci) => {
            steps.push(ListenerStep::RecheckAfter(*hci, INDEX_REMOVED_DEBOUNCE_MS));
        },
    }
    steps
}

/// The request that follows for an index on the list once the configuration
/// has said whether it `is_enabled`: a start, if the stack is in use and the
/// adapter is enabled.
pub fn start_hci_if_floss_enabled(hci: u16, floss_enabled: bool, is_enabled: bool) -> (request:
    Option<AdapterStateActions>)
    ensures
        request == if floss_enabled && is_enabled {
            Some(AdapterStateActions::StartBluetooth(hci as i32))
        } else {
            None::<AdapterStateActions>
        },
{
    if floss_enabled && is_enabled {
        Some(AdapterStateActions::StartBluetooth(hci as i32))
    } else {
        None
    }
}

/// The report that follows for an index that was removed, once the wait is
/// over and it is known whether the device `still_exists`: it is absent only
/// if it is really gone.
pub fn presence_after_removal(hci: u16, still_exists: bool) -> (report: Option<
    AdapterStateActions,
>)
    ensures
        report == if still_exists {
            None::<AdapterStateActions>
        } else {
            Some(AdapterStateActions::HciDevicePresence(hci as i32, false))
        },
{
    if !still_exists {
        Some(AdapterStateActions::HciDevicePresence(hci as i32, false))
    } else {
        None
    }
}

/// Whether `messages` tells of each of `files` in turn as of a pid file that appeared.
pub open spec fn tells_of_files(files: Seq<String>, messages: Seq<Message>) -> bool {
    &&& messages.len() == files.len()
    &&& forall|i: int|
        0 <= i < files.len() ==> (#[trigger] messages[i] matches Message::PidChange(
            PidEvent::Created,
            Some(name),
        ) && name@ == files[i]@)
}

/// The messages that the listener on the pid directory begins with: the pid
/// files that are there already count as having just appeared.
pub fn initial_pid_messages(files: Vec<String>) -> (messages: Vec<Message>)
    ensures
        tells_of_files(files@, messages@),
{
    let mut messages: Vec<Message> = Vec::new();
    let mut i: usize = 0;
    while i < files.len()
        invariant
            i <= files.len(),
            tells_of_files(files@.take(i as int), messages@),
        decreases files.len() - i,
    {
        let name: String = files[i].clone();
        messages.push(Message::PidChange(PidEvent::Created, Some(name)));
        i = i + 1;
    }
    messages
}

} // verus!
