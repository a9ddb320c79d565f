//! What the I2C server decides about a request before it touches the bus,
//! and how it lays out a message it received as a target.

use vstd::prelude::*;

verus! {

/// The longest transfer, in bytes, in either direction.
pub const MAX_TRANSFER: usize = 255;

/// Interval between two polls for messages to the target, in milliseconds.
pub const TIMER_INTERVAL_MS: u32 = 100;

/// Whether the buffers of a write-read request come in pairs: at least
/// one pair, and nothing left over.
pub fn lease_count_ok(lease_count: usize) -> (ok: bool)
    ensures
        ok == (lease_count >= 2 && lease_count % 2 == 0),
{
    !(lease_count < 2 || lease_count % 2 != 0)
}

/// Whether one pair of a write-read request can be carried out: something
/// is written or read, and neither is longer than a transfer may be.
pub fn transfer_ok(write_len: usize, read_len: usize) -> (ok: bool)
    ensures
        ok == ((write_len != 0 || read_len != 0) && write_len <= MAX_TRANSFER && read_len
            <= MAX_TRANSFER),
{
    if write_len == 0 && read_len == 0 {
        return false;
    }
    if write_len > MAX_TRANSFER || read_len > MAX_TRANSFER {
        return false;
    }
    true
}

/// The shortest request message: the four bytes that name the device.
pub const REQUEST_LEN: usize = 4;

/// What the kernel tells of a buffer that a client lent.
#[derive(Copy, Clone, Debug, PartialEq, Eq, Structural)]
pub struct LeaseInfo {
    pub len: usize,
    /// Whether the server may read the buffer.
    pub readable: bool,
}

/// Whether a write-read request is well formed as a whole: its buffers
/// come in pairs, and its message names the device.
pub fn write_read_request_ok(lease_count: usize, message_len: usize) -> (ok: bool)
    ensures
        ok == (lease_count >= 2 && lease_count % 2 == 0 && message_len >= REQUEST_LEN),
{
    lease_count_ok(lease_count) && message_len >= REQUEST_LEN
}

/// Whether one pair of buffers of a write-read request can be carried out:
/// both buffers are there, the one to write from can be read, something is
/// written or read, and neither is longer than a transfer may be.
pub fn write_read_pair_ok(write: Option<LeaseInfo>, read: Option<LeaseInfo>) -> (ok: bool)
    ensures
        ok == (write is Some && read is Some && write->Some_0.readable && (write->Some_0.len != 0
            || read->Some_0.len != 0) && write->Some_0.len <= MAX_TRANSFER && read->Some_0.len
            <= MAX_TRANSFER),
{
    let winfo = match write {
        Some(info) => info,
        None => {
            return false;
        },
    };
    if !winfo.readable {
        return false;
    }
    let rinfo = match read {
        Some(info) => info,
        None => {
            return false;
        },
    };
    transfer_ok(winfo.len, rinfo.len)
}

/// What polling for one message to the target came to.
#[derive(Copy, Clone, Debug, PartialEq, Eq, Structural)]
pub enum SlavePoll {
    /// One message is there.
    Message,
    /// No message is there.
    NoSlaveMessage,
    /// The driver reported more messages than it was asked for.
    BadResponse,
}

/// Reads the number of messages that the driver reports when it was asked
/// for at most one.
pub fn classify_poll(count: usize) -> (poll: SlavePoll)
    ensures
        poll == (if count == 1 {
            SlavePoll::Message
        } else if count == 0 {
            SlavePoll::NoSlaveMessage
        } else {
            SlavePoll::BadResponse
        }),
{
    if count == 1 {
        SlavePoll::Message
    } else if count == 0 {
        SlavePoll::NoSlaveMessage
    } else {
        SlavePoll::BadResponse
    }
}

/// A message received as a target, as it is handed to the client: the
/// address of the sender, the length of the data, then the data.
pub open spec fn slave_message_frame(source_address: u8, data: Seq<u8>) -> Seq<u8> {
    seq![source_address, data.len() as u8] + data
}

/// Lays a received message out for the client.
pub fn frame_slave_message(source_address: u8, data: &[u8]) -> (frame: Vec<u8>)
    requires
        data@.len() <= MAX_TRANSFER,
    ensures
        frame@ == slave_message_frame(source_address, data@),
        frame@.len() == 2 + data@.len(),
{
    let mut frame: Vec<u8> = Vec::new();
    frame.push(source_address);
    frame.push(data.len() as u8);
    let mut i: usize = 0;
    while i < data.len()
        invariant
            i <= data@.len(),
            frame@ == slave_message_frame(source_address, data@).take(2 + i),
        decreases data@.len() - i,
    {
        frame.push(data[i]);
        assert(slave_message_frame(source_address, data@).take(2 + i).push(data@[i as int])
            =~= slave_message_frame(source_address, data@).take(2 + i + 1));
        i += 1;
    }
    assert(slave_message_frame(source_address, data@).take(2 + data@.len() as int)
        =~= slave_message_frame(source_address, data@));
    frame
}

/// Who is told of messages to the target, and whether the poll timer runs.
#[derive(Copy, Clone, Debug)]
pub struct SlaveNotification {
    /// The client to notify, with its notification mask.
    pub client: Option<(u16, u32)>,
    /// Whether the timer is to be armed again when it fires.
    pub timer_armed: bool,
}

impl SlaveNotification {
    /// Nobody is notified, the timer does not run.
    pub fn new() -> (state: Self)
        ensures
            state.client is None,
            !state.timer_armed,
    {
        SlaveNotification { client: None, timer_armed: false }
    }

    /// From now on `task` is notified with `mask`, and the timer runs.
    pub fn enable(&mut self, task: u16, mask: u32)
        ensures
            final(self).client == Some((task, mask)),
            final(self).timer_armed,
    {
        self.client = Some((task, mask));
        self.timer_armed = true;
    }

    /// From now on nobody is notified, and the timer stops.
    pub fn disable(&mut self)
        ensures
            final(self).client is None,
            !final(self).timer_armed,
    {
        self.client = None;
        self.timer_armed = false;
    }

    /// What to do when the timer fires: whom to notify if a message could
    /// be fetched, and whether to arm the timer again. Without a client
    /// nothing is done.
    pub fn on_timer(&self, message_fetched: bool) -> (action: (Option<(u16, u32)>, bool))
        ensures
            action.0 == (if message_fetched {
                self.client
            } else {
                None
            }),
            action.1 == (self.client is Some && self.timer_armed),
    {
        match self.client {
            Some(client) => (
                if message_fetched {
                    Some(client)
                } else {
                    None
                },
                self.timer_armed,
            ),
            None => (None, false),
        }
    }
}

} // verus!
