use vstd::prelude::*;

verus! {

/// Number of bytes in one report written to the device.
pub const FRAME_LEN: usize = 33;

/// An event produced by one poller tick.
#[derive(Clone, Copy, Debug, PartialEq, Eq, Structural)]
pub enum Event {
    Send { command_id: u8, command_data: u8 },
}

/// What a sink is asked to deliver: one command and its data byte.
#[derive(Clone, Copy, Debug, PartialEq, Eq, Structural)]
pub struct SendData {
    pub command_id: u8,
    pub data: u8,
}

impl Event {
    pub open spec fn spec_command_id(self) -> u8 {
        match self {
            Event::Send { command_id, .. } => command_id,
        }
    }

    pub open spec fn spec_command_data(self) -> u8 {
        match self {
            Event::Send { command_data, .. } => command_data,
        }
    }
}

impl SendData {
    /// The payload that forwards `event` to a sink.
    pub fn from_event(event: &Event) -> (r: SendData)
        ensures
            r.command_id == event.spec_command_id(),
            r.data == event.spec_command_data(),
    {
        match event {
            Event::Send { command_id, command_data } => SendData {
                command_id: *command_id,
                data: *command_data,
            },
        }
    }
}

/// The report for `data`: byte 0 is the report id (always 0), byte 1 the
/// command id, byte 2 the data, and every other byte is 0.
pub open spec fn frame_of(data: SendData) -> Seq<u8> {
    Seq::new(
        FRAME_LEN as nat,
        |i: int|
            if i == 1 {
                data.command_id
            } else if i == 2 {
                data.data
            } else {
                0u8
            },
    )
}

/// Builds the device report for `data`.
pub fn encode_frame(data: &SendData) -> (r: Vec<u8>)
    ensures
        r@ == frame_of(*data),
        r@.len() == FRAME_LEN,
        r@[0] == 0,
        r@[1] == data.command_id,
        r@[2] == data.data,
        forall|i: int| 3 <= i < FRAME_LEN ==> r@[i] == 0,
{
    let mut buf: Vec<u8> = Vec::new();
    let mut i: usize = 0;
    while i < FRAME_LEN
        invariant
            i <= FRAME_LEN,
            buf@.len() == i,
            forall|k: int| 0 <= k < i ==> buf@[k] == frame_of(*data)[k],
        decreases FRAME_LEN - i,
    {
        let b: u8 = if i == 1 {
            data.command_id
        } else if i == 2 {
            data.data
        } else {
            0
        };
        buf.push(b);
        i = i + 1;
    }
    assert(buf@ =~= frame_of(*data));
    buf
}

} // verus!
