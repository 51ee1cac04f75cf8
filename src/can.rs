//! The CAN peripheral: bus configuration, state, and frames with extended
//! ids, FD, bit-rate switching and remote requests.
use vstd::prelude::*;
use crate::device::Device;
use crate::envelope::{ack_reply, flag, flag_byte, is_request, request};
use crate::error::Error;
use crate::frame::{InterfaceRequest, le32, push_all, push_u32, read_u32, tail_of, zeros, u32_at};
use crate::interface::Interface;
use crate::metadata::InstID;

verus! {

/// The longest data field of a CAN FD frame.
pub const CAN_DATA_MAX_LEN: usize = 64;

/// The largest standard (11-bit) identifier.
pub const CAN_STD_ID_MAX: u32 = 0x7FF;

pub const FN_SET_FILTER: u16 = 0;
pub const FN_SET_RATE: u16 = 1;
pub const FN_SET_MODE: u16 = 2;
pub const FN_STATE: u16 = 3;
pub const FN_WRITE: u16 = 4;
pub const FN_READ: u16 = 5;

#[derive(Debug, Clone, Copy, PartialEq, Eq, Structural)]
pub enum CANMode {
    Normal,
    Loopback,
    ListenOnly,
}

impl CANMode {
    pub open spec fn spec_code(self) -> u8 {
        match self {
            CANMode::Normal => 0,
            CANMode::Loopback => 1,
            CANMode::ListenOnly => 2,
        }
    }

    pub fn code(&self) -> (r: u8)
        ensures
            r == self.spec_code(),
    {
        match self {
            CANMode::Normal => 0,
            CANMode::Loopback => 1,
            CANMode::ListenOnly => 2,
        }
    }
}

/// The controller's bus state and its transmit and receive error counters.
#[derive(Debug, Clone, Copy, PartialEq, Eq, Structural)]
pub struct CANState {
    pub state: u8,
    pub tx_err: u8,
    pub rx_err: u8,
}

/// One CAN frame. For a remote request `data` only gives the requested length.
pub struct CANMessage {
    pub id: u32,
    pub ext: bool,
    pub fd: bool,
    pub brs: bool,
    pub rtr: bool,
    pub data: Vec<u8>,
}

impl CANMessage {
    /// A data frame; the id is extended exactly when it does not fit 11 bits,
    /// and `fd_brs` sets both FD and bit-rate switching.
    pub fn new(id: u32, data: Vec<u8>, fd_brs: bool) -> (r: CANMessage)
        ensures
            r.id == id,
            r.ext == (id > CAN_STD_ID_MAX),
            r.fd == fd_brs,
            r.brs == fd_brs,
            !r.rtr,
            r.data@ == data@,
    {
        CANMessage { id, ext: id > CAN_STD_ID_MAX, fd: fd_brs, brs: fd_brs, rtr: false, data }
    }

    /// A remote request for `len` bytes; its data is `len` zeros.
    pub fn new_rtr(id: u32, len: usize, fd_brs: bool) -> (r: CANMessage)
        ensures
            r.id == id,
            r.ext == (id > CAN_STD_ID_MAX),
            r.fd == fd_brs,
            r.brs == fd_brs,
            r.rtr,
            r.data@ == Seq::new(len as nat, |i: int| 0u8),
    {
        let data = zeros(len);
        CANMessage { id, ext: id > CAN_STD_ID_MAX, fd: fd_brs, brs: fd_brs, rtr: true, data }
    }
}

/// The sub-payload of a frame write: id, the four flags, the data length, and
/// the data itself unless the frame is a remote request.
pub open spec fn can_write_bytes(m: CANMessage) -> Seq<u8> {
    le32(m.id) + seq![flag(m.ext), flag(m.fd), flag(m.brs), flag(m.rtr), m.data@.len() as u8] + (
    if m.rtr {
        Seq::empty()
    } else {
        m.data@
    })
}

/// Encodes a frame write; `InvalidArgs` when the data is longer than a CAN FD
/// frame carries.
pub fn can_write_payload(msg: &CANMessage) -> (r: Result<Vec<u8>, Error>)
    ensures
        msg.data@.len() > CAN_DATA_MAX_LEN ==> r == Err::<Vec<u8>, Error>(Error::InvalidArgs),
        msg.data@.len() <= CAN_DATA_MAX_LEN ==> (r matches Ok(p) && p@ == can_write_bytes(*msg)),
{
    if msg.data.len() > CAN_DATA_MAX_LEN {
        return Err(Error::InvalidArgs);
    }
    let mut p: Vec<u8> = Vec::new();
    push_u32(&mut p, msg.id);
    p.push(flag_byte(msg.ext));
    p.push(flag_byte(msg.fd));
    p.push(flag_byte(msg.brs));
    p.push(flag_byte(msg.rtr));
    p.push(msg.data.len() as u8);
    if !msg.rtr {
        push_all(&mut p, msg.data.as_slice());
    }
    assert(p@ =~= can_write_bytes(*msg));
    Ok(p)
}

/// The length of the fixed part of a frame read reply: frames still queued
/// (16 bits), id (32 bits), four flags and the data length.
pub const CAN_READ_HEADER_LEN: usize = 11;

/// Whether `m` is the frame that a non-empty read reply `b` describes: a data
/// frame carries exactly its announced data after the fixed part, a remote
/// request carries nothing after it and stands for that many zeros.
pub open spec fn can_frame_of(b: Seq<u8>, m: CANMessage) -> bool {
    &&& m.id == u32_at(b, 2)
    &&& m.ext == (b[6] != 0)
    &&& m.fd == (b[7] != 0)
    &&& m.brs == (b[8] != 0)
    &&& m.rtr == (b[9] != 0)
    &&& if b[9] != 0 {
        m.data@ == Seq::new(b[10] as nat, |i: int| 0u8)
    } else {
        m.data@ == b.subrange(11, b.len() as int)
    }
}

/// Whether a non-empty read reply has the length its fixed part announces.
pub open spec fn can_reply_well_formed(b: Seq<u8>) -> bool {
    &&& b.len() >= CAN_READ_HEADER_LEN
    &&& if b[9] != 0 {
        b.len() == CAN_READ_HEADER_LEN
    } else {
        b.len() == CAN_READ_HEADER_LEN + b[10]
    }
}

/// Decodes a frame read reply: empty means no frame was pending.
pub fn can_read_decode(resp: &[u8]) -> (r: Result<Option<CANMessage>, Error>)
    ensures
        resp@.len() == 0 ==> r matches Ok(None),
        resp@.len() != 0 && !can_reply_well_formed(resp@) ==> r == Err::<Option<CANMessage>, Error>(
            Error::PacketFormat,
        ),
        resp@.len() != 0 && can_reply_well_formed(resp@) ==> (r matches Ok(Some(m))
            && can_frame_of(resp@, m)),
{
    if resp.len() == 0 {
        return Ok(None);
    }
    if resp.len() < CAN_READ_HEADER_LEN {
        return Err(Error::PacketFormat);
    }
    let rtr = resp[9] != 0;
    let data_len = resp[10] as usize;
    let rest = resp.len() - CAN_READ_HEADER_LEN;
    if (rtr && rest != 0) || (!rtr && rest != data_len) {
        return Err(Error::PacketFormat);
    }
    let data = if rtr {
        zeros(data_len)
    } else {
        tail_of(resp, CAN_READ_HEADER_LEN)
    };
    Ok(
        Some(
            CANMessage {
                id: read_u32(resp, 2),
                ext: resp[6] != 0,
                fd: resp[7] != 0,
                brs: resp[8] != 0,
                rtr,
                data,
            },
        ),
    )
}

/// What the reply to this request means: an error from the send comes
/// back unchanged; a payload is decoded by `can_read_decode`.
pub fn can_read_reply(reply: Result<Vec<u8>, Error>) -> (r: Result<Option<CANMessage>, Error>)
    ensures
        reply matches Err(e) ==> (r matches Err(x) && x == e),
        reply matches Ok(b) ==> (b@.len() == 0 ==> r matches Ok(None)),
        reply matches Ok(b) ==> (b@.len() != 0 && !can_reply_well_formed(b@) ==> r == Err::<Option<CANMessage>, Error>( Error::PacketFormat, )),
        reply matches Ok(b) ==> (b@.len() != 0 && can_reply_well_formed(b@) ==> (r matches Ok(Some(m)) && can_frame_of(b@, m))),
{
    let b = reply?;
    can_read_decode(b.as_slice())
}

/// Decodes a state reply: exactly three bytes.
pub fn can_state_decode(resp: &[u8]) -> (r: Result<CANState, Error>)
    ensures
        resp@.len() == 3 ==> r == Ok::<CANState, Error>(
            CANState { state: resp@[0], tx_err: resp@[1], rx_err: resp@[2] },
        ),
        resp@.len() != 3 ==> r == Err::<CANState, Error>(Error::PacketFormat),
{
    if resp.len() != 3 {
        return Err(Error::PacketFormat);
    }
    Ok(CANState { state: resp[0], tx_err: resp[1], rx_err: resp[2] })
}

/// What the reply to this request means: an error from the send comes
/// back unchanged; a payload is decoded by `can_state_decode`.
pub fn can_state_reply(reply: Result<Vec<u8>, Error>) -> (r: Result<CANState, Error>)
    ensures
        reply matches Err(e) ==> (r matches Err(x) && x == e),
        reply matches Ok(b) ==> (b@.len() == 3 ==> r == Ok::<CANState, Error>( CANState { state: b@[0], tx_err: b@[1], rx_err: b@[2] }, )),
        reply matches Ok(b) ==> (b@.len() != 3 ==> r == Err::<CANState, Error>(Error::PacketFormat)),
{
    let b = reply?;
    can_state_decode(b.as_slice())
}

pub fn can_set_filter_request(idx: usize, id: u32, id_mask: u32) -> (q: InterfaceRequest)
    ensures
        is_request(q, InstID::CAN, idx, FN_SET_FILTER, le32(id) + le32(id_mask)),
{
    let mut p: Vec<u8> = Vec::new();
    push_u32(&mut p, id);
    push_u32(&mut p, id_mask);
    request(InstID::CAN, idx, FN_SET_FILTER, p)
}

pub fn can_set_rate_request(idx: usize, bitrate: u32, bitrate_data: u32) -> (q: InterfaceRequest)
    ensures
        is_request(q, InstID::CAN, idx, FN_SET_RATE, le32(bitrate) + le32(bitrate_data)),
{
    let mut p: Vec<u8> = Vec::new();
    push_u32(&mut p, bitrate);
    push_u32(&mut p, bitrate_data);
    request(InstID::CAN, idx, FN_SET_RATE, p)
}

pub fn can_set_mode_request(idx: usize, mode: CANMode) -> (q: InterfaceRequest)
    ensures
        is_request(q, InstID::CAN, idx, FN_SET_MODE, seq![mode.spec_code()]),
{
    let p = vec![mode.code()];
    assert(p@ =~= seq![mode.spec_code()]);
    request(InstID::CAN, idx, FN_SET_MODE, p)
}

pub fn can_state_request(idx: usize) -> (q: InterfaceRequest)
    ensures
        is_request(q, InstID::CAN, idx, FN_STATE, Seq::empty()),
{
    request(InstID::CAN, idx, FN_STATE, Vec::new())
}

/// The frame write request; `InvalidArgs` when the data is too long.
pub fn can_write_request(idx: usize, msg: &CANMessage) -> (r: Result<InterfaceRequest, Error>)
    ensures
        msg.data@.len() > CAN_DATA_MAX_LEN ==> r matches Err(Error::InvalidArgs),
        msg.data@.len() <= CAN_DATA_MAX_LEN ==> (r matches Ok(q) && is_request(q, InstID::CAN, idx, FN_WRITE, can_write_bytes(*msg))),
{
    let p = can_write_payload(msg)?;
    Ok(request(InstID::CAN, idx, FN_WRITE, p))
}

pub fn can_read_request(idx: usize) -> (q: InterfaceRequest)
    ensures
        is_request(q, InstID::CAN, idx, FN_READ, Seq::empty()),
{
    request(InstID::CAN, idx, FN_READ, Vec::new())
}

impl<I: Interface> Device<I> {
    /// Accepts only frames whose id matches `id` on the bits set in
    /// `id_mask`: sends `can_set_filter_request`, expects an empty reply.
    pub fn can_set_filter(&self, idx: usize, id: u32, id_mask: u32) -> (r: Result<(), Error>)
        ensures
            r matches Err(e) ==> e != Error::NoError,
    {
        ack_reply(self.send(&can_set_filter_request(idx, id, id_mask)))
    }

    /// Sets the nominal and data-phase bit rates: sends
    /// `can_set_rate_request`, expects an empty reply.
    pub fn can_set_rate(&self, idx: usize, bitrate: u32, bitrate_data: u32) -> (r: Result<(), Error>)
        ensures
            r matches Err(e) ==> e != Error::NoError,
    {
        ack_reply(self.send(&can_set_rate_request(idx, bitrate, bitrate_data)))
    }

    /// Sends `can_set_mode_request`, expects an empty reply.
    pub fn can_set_mode(&self, idx: usize, mode: CANMode) -> (r: Result<(), Error>)
        ensures
            r matches Err(e) ==> e != Error::NoError,
    {
        ack_reply(self.send(&can_set_mode_request(idx, mode)))
    }

    /// Sends `can_state_request`; the reply is decoded by `can_state_decode`.
    pub fn can_state(&self, idx: usize) -> (r: Result<CANState, Error>)
        ensures
            r matches Err(e) ==> e != Error::NoError,
    {
        can_state_reply(self.send(&can_state_request(idx)))
    }

    /// Queues a frame: sends `can_write_request`, expects an empty reply;
    /// `InvalidArgs`, with nothing sent, when its data is too long.
    pub fn can_write(&self, idx: usize, msg: &CANMessage) -> (r: Result<(), Error>)
        ensures
            msg.data@.len() > CAN_DATA_MAX_LEN ==> r == Err::<(), Error>(Error::InvalidArgs),
            r matches Err(e) ==> e != Error::NoError,
    {
        let q = can_write_request(idx, msg)?;
        ack_reply(self.send(&q))
    }

    /// The next received frame, or `None` when none is pending: sends
    /// `can_read_request`; the reply is decoded by `can_read_decode`.
    pub fn can_read(&self, idx: usize) -> (r: Result<Option<CANMessage>, Error>)
        ensures
            r matches Err(e) ==> e != Error::NoError,
    {
        can_read_reply(self.send(&can_read_request(idx)))
    }
}

} // verus!
