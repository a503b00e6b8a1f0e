//! The packets of the kernel's Bluetooth management channel, as far as the
//! manager reads and writes them.
//!
//! A packet is a code, a controller index and the length of its parameters,
//! two bytes each with the low byte first, and then the parameters. The
//! manager sends one command, the request for the list of controller indices,
//! and listens to three events: a command completed, an index was added, an
//! index was removed.
use vstd::prelude::*;

verus! {

/// The code of the command that asks for the list of controller indices.
pub const MGMT_OP_READ_INDEX_LIST: u16 = 0x0003;

/// The code of the event that a command completed.
pub const MGMT_EV_COMMAND_COMPLETE: u16 = 0x0001;

/// The code of the event that a controller index was added.
pub const MGMT_EV_INDEX_ADDED: u16 = 0x0004;

/// The code of the event that a controller index was removed.
pub const MGMT_EV_INDEX_REMOVED: u16 = 0x0005;

/// The controller index that stands for no controller.
pub const HCI_DEV_NONE: u16 = 0xFFFF;

/// The number of bytes before the parameters of a packet.
pub const MGMT_HEADER_SIZE: usize = 6;

/// What the management channel reports, as far as the manager listens to it.
#[derive(Debug, PartialEq, Eq)]
pub enum MgmtEvent {
    /// The answer to the question which indices there are.
    IndexList(Vec<u16>),
    /// Another command completed.
    CommandComplete,
    /// This index was added.
    IndexAdded(u16),
    /// This index was removed.
    IndexRemoved(u16),
}

/// A [`MgmtEvent`] as a value.
pub enum MgmtEventView {
    /// The answer to the question which indices there are.
    IndexList(Seq<u16>),
    /// Another command completed.
    CommandComplete,
    /// This index was added.
    IndexAdded(u16),
    /// This index was removed.
    IndexRemoved(u16),
}

impl View for MgmtEvent {
    type V = MgmtEventView;

    open spec fn view(&self) -> MgmtEventView {
        match *self {
            MgmtEvent::IndexList(interfaces) => MgmtEventView::IndexList(interfaces@),
            MgmtEvent::CommandComplete => MgmtEventView::CommandComplete,
            MgmtEvent::IndexAdded(hci) => MgmtEventView::IndexAdded(hci),
            MgmtEvent::IndexRemoved(hci) => MgmtEventView::IndexRemoved(hci),
        }
    }
}

/// The number that the two bytes at `at` stand for, the low byte first.
pub open spec fn le16(bytes: Seq<u8>, at: int) -> u16 {
    (bytes[at] as int + 256 * (bytes[at + 1] as int)) as u16
}

/// The packet that asks for the list of controller indices: the command, no
/// controller, no parameters.
pub open spec fn read_index_list_packet() -> Seq<u8> {
    seq![0x03u8, 0x00u8, 0xFFu8, 0xFFu8, 0x00u8, 0x00u8]
}

/// The list of indices in the parameters of a completed request for it, which
/// begin at `at` with the code of the command and its status: the number of
/// indices, then the indices. `None` where the parameters end too early.
pub open spec fn index_list_of(packet: Seq<u8>, at: int, end: int) -> Option<Seq<u16>> {
    if at + 5 <= end && at + 5 + 2 * le16(packet, at + 3) <= end {
        Some(Seq::new(le16(packet, at + 3) as nat, |i: int| le16(packet, at + 5 + 2 * i)))
    } else {
        None
    }
}

/// The event that `packet` reports. `None` for a packet that is cut short, for
/// events that the manager does not listen to, and for an answer to the
/// request for the list of indices that does not hold the list it announces.
/// What follows the parameters of a packet is not looked at.
pub open spec fn event_of(packet: Seq<u8>) -> Option<MgmtEventView> {
    if packet.len() < 6 || packet.len() < 6 + le16(packet, 4) {
        None
    } else if le16(packet, 0) == MGMT_EV_INDEX_ADDED {
        Some(MgmtEventView::IndexAdded(le16(packet, 2)))
    } else if le16(packet, 0) == MGMT_EV_INDEX_REMOVED {
        Some(MgmtEventView::IndexRemoved(le16(packet, 2)))
    } else if le16(packet, 0) == MGMT_EV_COMMAND_COMPLETE {
        if le16(packet, 4) < 3 {
            None
        } else if le16(packet, 6) == MGMT_OP_READ_INDEX_LIST {
            match index_list_of(packet, 6, 6 + le16(packet, 4)) {
                Some(interfaces) => Some(MgmtEventView::IndexList(interfaces)),
                None => None,
            }
        } else {
            Some(MgmtEventView::CommandComplete)
        }
    } else {
        None
    }
}

/// The view of what was read, if anything.
pub open spec fn event_view(event: Option<MgmtEvent>) -> Option<MgmtEventView> {
    match event {
        Some(event) => Some(event@),
        None => None,
    }
}

/// The two bytes at `at` as a number, the low byte first.
fn read_le16(bytes: &[u8], at: usize) -> (n: u16)
    requires
        at + 2 <= bytes.len(),
    ensures
        n == le16(bytes@, at as int),
{
    bytes[at] as u16 + 256 * (bytes[at + 1] as u16)
}

/// The packet to send for the list of controller indices.
pub fn read_index_list_command() -> (packet: Vec<u8>)
    ensures
        packet@ == read_index_list_packet(),
{
    let mut packet: Vec<u8> = Vec::new();
    packet.push(0x03);
    packet.push(0x00);
    packet.push(0xFF);
    packet.push(0xFF);
    packet.push(0x00);
    packet.push(0x00);
    packet
}

/// Reads the event that `packet` reports: see [`event_of`].
pub fn parse_mgmt_event(packet: &[u8]) -> (event: Option<MgmtEvent>)
    ensures
        event_view(event) == event_of(packet@),
{
    if packet.len() < MGMT_HEADER_SIZE {
        return None;
    }
    let code: u16 = read_le16(packet, 0);
    let index: u16 = read_le16(packet, 2);
    let length: usize = read_le16(packet, 4) as usize;
    if packet.len() - MGMT_HEADER_SIZE < length {
        return None;
    }
    let end: usize = MGMT_HEADER_SIZE + length;
    if code == MGMT_EV_INDEX_ADDED {
        Some(MgmtEvent::IndexAdded(index))
    } else if code == MGMT_EV_INDEX_REMOVED {
        Some(MgmtEvent::IndexRemoved(index))
    } else if code == MGMT_EV_COMMAND_COMPLETE {
        // The code of the command and its status come first.
        if length < 3 {
            return None;
        }
        if read_le16(packet, MGMT_HEADER_SIZE) != MGMT_OP_READ_INDEX_LIST {
            return Some(MgmtEvent::CommandComplete);
        }
        if length < 5 {
            return None;
        }
        let count: usize = read_le16(packet, MGMT_HEADER_SIZE + 3) as usize;
        let first: usize = MGMT_HEADER_SIZE + 5;
        if (end - first) / 2 < count {
            return None;
        }
        let mut interfaces: Vec<u16> = Vec::new();
        let mut i: usize = 0;
        while i < count
            invariant
                i <= count,
                first + 2 * count <= end <= packet.len(),
                interfaces.len() == i,
                forall|j: int| 0 <= j < i ==> interfaces[j] == le16(packet@, first + 2 * j),
            decreases count - i,
        {
            interfaces.push(read_le16(packet, first + 2 * i));
            i = i + 1;
        }
        assert(interfaces@ =~= index_list_of(packet@, 6, end as int)->0);
        Some(MgmtEvent::IndexList(interfaces))
    } else {
        None
    }
}

} // verus!
