//! The decisions of the Bluetooth front end: the echo service that the agent
//! runs on its GATT characteristic, and the discovery with which the proxy
//! finds the agent and delivers a request to it.

use vstd::prelude::*;

use crate::consts::{APP_BT_CHARACTERISTIC_ID, APP_BT_SERVICE_ID};

verus! {

pub struct BluetoothDevice {
    pub address: String,
    pub name: Option<String>,
}

/// What the agent's echo service holds: whether a client is writing to the
/// characteristic, whether a client listens to its notifications, and the
/// size of the buffer that writes are read into.
#[derive(Debug, PartialEq, Eq, Structural, Clone, Copy)]
pub struct EchoService {
    pub reading: bool,
    pub notifying: bool,
    pub buffer_size: usize,
}

/// What happens around the echo service.
#[derive(Debug, PartialEq, Eq, Structural, Clone, Copy)]
pub enum EchoEvent {
    /// A line was typed on the terminal.
    Input,
    /// A client asks to write, with this MTU.
    WriteRequest(usize),
    /// A client asks to be notified.
    NotifyRequest,
    /// The characteristic will send no more requests.
    ControlEnded,
    /// This many bytes were read from the writing client.
    Read(usize),
    /// Reading from the writing client failed.
    ReadFailed,
    /// Sending the echo to the notified client failed.
    EchoFailed,
}

/// What the echo service does next.
#[derive(Debug, PartialEq, Eq, Structural, Clone, Copy)]
pub enum EchoAction {
    /// Stop serving, then remove the service and the advertisement.
    Stop,
    /// Accept the write request, into a buffer of this size.
    AcceptWrite(usize),
    /// Keep the notifier to send echoes to.
    KeepNotifier,
    /// Send this many bytes of the buffer back to the notified client.
    Echo(usize),
    /// Wait for the next event.
    Wait,
}

/// The service after `event`, and what it does.
pub open spec fn echo_transition(s: EchoService, event: EchoEvent) -> (EchoService, EchoAction) {
    match event {
        EchoEvent::Input => (s, EchoAction::Stop),
        EchoEvent::ControlEnded => (s, EchoAction::Stop),
        EchoEvent::WriteRequest(mtu) => (
            EchoService { reading: true, buffer_size: mtu, ..s },
            EchoAction::AcceptWrite(mtu),
        ),
        EchoEvent::NotifyRequest => (EchoService { notifying: true, ..s }, EchoAction::KeepNotifier),
        EchoEvent::Read(n) => if !s.awaits_data() {
            (s, EchoAction::Wait)
        } else if n == 0 {
            (EchoService { reading: false, ..s }, EchoAction::Stop)
        } else {
            (s, EchoAction::Echo(n))
        },
        EchoEvent::ReadFailed => if s.awaits_data() {
            (EchoService { reading: false, ..s }, EchoAction::Wait)
        } else {
            (s, EchoAction::Wait)
        },
        EchoEvent::EchoFailed => (EchoService { notifying: false, ..s }, EchoAction::Wait),
    }
}

impl EchoService {
    /// Whether the service reads from a client: only while it holds both a
    /// writing and a notified client.
    pub open spec fn awaits_data(self) -> bool {
        self.reading && self.notifying
    }

    /// A service that holds no client yet.
    pub fn new() -> (s: Self)
        ensures
            !s.reading,
            !s.notifying,
            s.buffer_size == 0,
    {
        EchoService { reading: false, notifying: false, buffer_size: 0 }
    }

    /// Whether the service reads from a client.
    pub fn awaits(&self) -> (res: bool)
        ensures
            res == self.awaits_data(),
    {
        self.reading && self.notifying
    }

    /// Takes one event and says what to do: the service and the action are
    /// those of `echo_transition`. Read outcomes count only while the service
    /// awaits data, and what was read fits in the buffer.
    pub fn step(&mut self, event: EchoEvent) -> (action: EchoAction)
        requires
            event matches EchoEvent::Read(n) ==> n <= old(self).buffer_size,
        ensures
            (*final(self), action) == echo_transition(*old(self), event),
            action matches EchoAction::Echo(n) ==> 0 < n <= final(self).buffer_size
                && final(self).awaits_data(),
    {
        match event {
            EchoEvent::Input => EchoAction::Stop,
            EchoEvent::WriteRequest(mtu) => {
                self.buffer_size = mtu;
                self.reading = true;
                EchoAction::AcceptWrite(mtu)
            },
            EchoEvent::NotifyRequest => {
                self.notifying = true;
                EchoAction::KeepNotifier
            },
            EchoEvent::ControlEnded => EchoAction::Stop,
            EchoEvent::Read(n) => {
                if !self.awaits() {
                    EchoAction::Wait
                } else if n == 0 {
                    self.reading = false;
                    EchoAction::Stop
                } else {
                    EchoAction::Echo(n)
                }
            },
            EchoEvent::ReadFailed => {
                if self.awaits() {
                    self.reading = false;
                }
                EchoAction::Wait
            },
            EchoEvent::EchoFailed => {
                self.notifying = false;
                EchoAction::Wait
            },
        }
    }
}

/// While the service holds a writing and a notified client, every read of
/// some bytes (up to the size of the buffer) is echoed back whole, and the
/// service stays as it was; a read of nothing ends the service.
pub proof fn every_read_is_echoed(s: EchoService, n: usize)
    requires
        n <= s.buffer_size,
        s.awaits_data(),
    ensures
        0 < n ==> echo_transition(s, EchoEvent::Read(n)) == (s, EchoAction::Echo(n)),
        n == 0 ==> echo_transition(s, EchoEvent::Read(n)).1 == EchoAction::Stop,
{
}

/// Nothing is echoed while the service lacks a writing or a notified
/// client, and events other than reads never echo.
pub proof fn echoes_only_reads_while_awaiting(s: EchoService, event: EchoEvent)
    ensures
        echo_transition(s, event).1 matches EchoAction::Echo(n) ==> s.awaits_data()
            && event == EchoEvent::Read(n) && n > 0,
{
}

/// The number of times that the proxy tries again to connect to a device.
pub const CONNECT_RETRIES: u32 = 5;

/// What the proxy does after an attempt to connect to a device.
#[derive(Debug, PartialEq, Eq, Structural, Clone, Copy)]
pub enum ConnectStep {
    /// The device is connected.
    Connected,
    /// Try again, with this many retries left after it.
    Retry(u32),
    /// Report the error of the last attempt.
    GiveUp,
}

/// Decides after an attempt to connect, with `retries_left` retries left:
/// done where it connected, another try while retries are left (one fewer
/// after it), and giving up otherwise. So at most `CONNECT_RETRIES + 1`
/// attempts are made.
pub fn after_connect_attempt(retries_left: u32, connected: bool) -> (step: ConnectStep)
    ensures
        step == if connected {
            ConnectStep::Connected
        } else if retries_left > 0 {
            ConnectStep::Retry((retries_left - 1) as u32)
        } else {
            ConnectStep::GiveUp
        },
{
    if connected {
        ConnectStep::Connected
    } else if retries_left > 0 {
        ConnectStep::Retry(retries_left - 1)
    } else {
        ConnectStep::GiveUp
    }
}

/// Whether `uuid` is the UUID of the agent's service.
pub fn is_app_service(uuid: u128) -> (res: bool)
    ensures
        res == (uuid == APP_BT_SERVICE_ID),
{
    uuid == APP_BT_SERVICE_ID
}

/// Whether the UUIDs that a device advertises hold the agent's service.
pub fn advertises_app_service(uuids: &[u128]) -> (res: bool)
    ensures
        res == uuids@.contains(APP_BT_SERVICE_ID),
{
    let mut i: usize = 0;
    while i < uuids.len()
        invariant
            i <= uuids@.len(),
            forall|j: int| 0 <= j < i ==> uuids@[j] != APP_BT_SERVICE_ID,
        decreases uuids@.len() - i,
    {
        if uuids[i] == APP_BT_SERVICE_ID {
            assert(uuids@[i as int] == APP_BT_SERVICE_ID);
            return true;
        }
        i = i + 1;
    }
    false
}

/// Whether `uuid` is the UUID of the agent's characteristic.
pub fn is_app_characteristic(uuid: u128) -> (res: bool)
    ensures
        res == (uuid == APP_BT_CHARACTERISTIC_ID),
{
    uuid == APP_BT_CHARACTERISTIC_ID
}

/// How probing a discovered device went.
#[derive(Debug, PartialEq, Eq, Structural, Clone, Copy)]
pub enum ProbeOutcome {
    /// The device does not offer the agent's service.
    NoService,
    /// Looking for the characteristic failed.
    Failed,
    /// The request was delivered and echoed back.
    Delivered,
    /// The characteristic was found but sending the request failed.
    NotDelivered,
}

/// What the proxy does after probing a device (it always disconnects).
pub struct ProbeFollowUp {
    /// Remove the device from the adapter.
    pub remove_device: bool,
    /// Stop discovering.
    pub finished: bool,
}

/// A device that failed is removed, and discovery ends once the request was
/// delivered.
pub fn after_probe(outcome: ProbeOutcome) -> (next: ProbeFollowUp)
    ensures
        next.remove_device == (outcome == ProbeOutcome::Failed),
        next.finished == (outcome == ProbeOutcome::Delivered),
{
    match outcome {
        ProbeOutcome::Failed => ProbeFollowUp { remove_device: true, finished: false },
        ProbeOutcome::Delivered => ProbeFollowUp { remove_device: false, finished: true },
        _ => ProbeFollowUp { remove_device: false, finished: false },
    }
}

/// Whether the echo that came back is the data that was sent.
pub fn echo_matches(sent: &[u8], received: &[u8]) -> (res: bool)
    ensures
        res == (sent@ == received@),
{
    if sent.len() != received.len() {
        return false;
    }
    let mut i: usize = 0;
    while i < sent.len()
        invariant
            sent@.len() == received@.len(),
            i <= sent@.len(),
            forall|j: int| 0 <= j < i ==> sent@[j] == received@[j],
        decreases sent@.len() - i,
    {
        if sent[i] != received[i] {
            return false;
        }
        i = i + 1;
    }
    assert(sent@ =~= received@);
    true
}

/// The size of the blocks in which a mismatched echo is reported.
pub const REPORT_BLOCK_SIZE: usize = 512;

/// The number of blocks (the last one possibly shorter) that `n` bytes make.
pub open spec fn block_count(n: nat) -> nat {
    (n + 511) / 512
}

/// Block `i` of `data`.
pub open spec fn block(data: Seq<u8>, i: int) -> Seq<u8> {
    let end = if 512 * (i + 1) < data.len() {
        512 * (i + 1)
    } else {
        data.len() as int
    };
    data.subrange(512 * i, end)
}

/// The first (at most) four bytes of `b`.
pub open spec fn head(b: Seq<u8>) -> Seq<u8> {
    if b.len() < 4 {
        b
    } else {
        b.take(4)
    }
}

/// The last (at most) four bytes of `b`.
pub open spec fn tail(b: Seq<u8>) -> Seq<u8> {
    if b.len() < 4 {
        b
    } else {
        b.skip(b.len() - 4)
    }
}

/// The edges of one block of a mismatched echo: the first and last four
/// bytes of what was sent and of what came back.
pub struct BlockEdges {
    pub sent_head: Vec<u8>,
    pub sent_tail: Vec<u8>,
    pub received_head: Vec<u8>,
    pub received_tail: Vec<u8>,
}

/// `data[from..to]`.
fn copy_range(data: &[u8], from: usize, to: usize) -> (res: Vec<u8>)
    requires
        from <= to <= data@.len(),
    ensures
        res@ == data@.subrange(from as int, to as int),
{
    let mut res: Vec<u8> = Vec::new();
    let mut i = from;
    while i < to
        invariant
            from <= i <= to <= data@.len(),
            res@ == data@.subrange(from as int, i as int),
        decreases to - i,
    {
        res.push(data[i]);
        i = i + 1;
        assert(res@ =~= data@.subrange(from as int, i as int));
    }
    res
}

/// The first and last four bytes of `data[from..to]`.
fn block_edges(data: &[u8], from: usize, to: usize) -> (res: (Vec<u8>, Vec<u8>))
    requires
        from <= to <= data@.len(),
    ensures
        res.0@ == head(data@.subrange(from as int, to as int)),
        res.1@ == tail(data@.subrange(from as int, to as int)),
{
    let len = to - from;
    let head_end = if len < 4 {
        to
    } else {
        from + 4
    };
    let tail_start = if len < 4 {
        from
    } else {
        to - 4
    };
    let h = copy_range(data, from, head_end);
    let t = copy_range(data, tail_start, to);
    let ghost b = data@.subrange(from as int, to as int);
    assert(h@ =~= head(b));
    assert(t@ =~= tail(b));
    (h, t)
}

/// The end of block `i` of `n` bytes.
fn block_end(n: usize, i: usize) -> (end: usize)
    requires
        i < block_count(n as nat),
    ensures
        end as int == if 512 * (i + 1) < n {
            512 * (i + 1)
        } else {
            n as int
        },
        512 * i < end,
{
    if i < n / 512 {
        512 * (i + 1)
    } else {
        n
    }
}

/// The report of a mismatched echo: for each pair of blocks of what was sent
/// and of what came back (as many as the shorter of the two has), their
/// first and last four bytes.
pub fn mismatch_report(sent: &[u8], received: &[u8]) -> (report: Vec<BlockEdges>)
    ensures
        report@.len() == if block_count(sent@.len()) < block_count(received@.len()) {
            block_count(sent@.len())
        } else {
            block_count(received@.len())
        },
        forall|i: int|
            0 <= i < report@.len() ==> {
                &&& (#[trigger] report@[i]).sent_head@ == head(block(sent@, i))
                &&& report@[i].sent_tail@ == tail(block(sent@, i))
                &&& report@[i].received_head@ == head(block(received@, i))
                &&& report@[i].received_tail@ == tail(block(received@, i))
            },
{
    let sent_blocks = sent.len() / 512 + if sent.len() % 512 == 0 {
        0
    } else {
        1
    };
    let received_blocks = received.len() / 512 + if received.len() % 512 == 0 {
        0
    } else {
        1
    };
    let count = if sent_blocks < received_blocks {
        sent_blocks
    } else {
        received_blocks
    };
    assert(sent_blocks == block_count(sent@.len()));
    assert(received_blocks == block_count(received@.len()));
    let mut report: Vec<BlockEdges> = Vec::new();
    let mut i: usize = 0;
    while i < count
        invariant
            i <= count,
            count <= block_count(sent@.len()),
            count <= block_count(received@.len()),
            report@.len() == i,
            forall|k: int|
                0 <= k < i ==> {
                    &&& (#[trigger] report@[k]).sent_head@ == head(block(sent@, k))
                    &&& report@[k].sent_tail@ == tail(block(sent@, k))
                    &&& report@[k].received_head@ == head(block(received@, k))
                    &&& report@[k].received_tail@ == tail(block(received@, k))
                },
        decreases count - i,
    {
        let sent_end = block_end(sent.len(), i);
        let start = 512 * i;
        let received_end = block_end(received.len(), i);
        let (sent_head, sent_tail) = block_edges(sent, start, sent_end);
        let (received_head, received_tail) = block_edges(received, start, received_end);
        report.push(BlockEdges { sent_head, sent_tail, received_head, received_tail });
        i = i + 1;
    }
    report
}

} // verus!
