//! The LIN peripheral: commander/responder mode, bit rate, per-id filters,
//! transfer status, and frames with classic or enhanced checksums.
use vstd::prelude::*;
use crate::device::Device;
use crate::envelope::{ack_reply, exact_u8, is_request, request};
use crate::error::Error;
use crate::frame::{InterfaceRequest, le32, push_all, push_u32, read_u16, tail_of, u16_at};
use crate::interface::Interface;
use crate::metadata::InstID;

verus! {

/// The longest data field of a LIN frame.
pub const LIN_DATA_MAX_LEN: usize = 8;

pub const FN_SET_MODE: u16 = 0;
pub const FN_SET_RATE: u16 = 1;
pub const FN_SET_FILTER: u16 = 2;
pub const FN_MODE: u16 = 3;
pub const FN_STATUS: u16 = 4;
pub const FN_WRITE: u16 = 5;
pub const FN_READ: u16 = 6;

#[derive(Debug, Clone, Copy, PartialEq, Eq, Structural)]
pub enum LINMode {
    Commander,
    Responder,
}

impl LINMode {
    pub open spec fn spec_code(self) -> u8 {
        match self {
            LINMode::Commander => 0,
            LINMode::Responder => 1,
        }
    }

    pub fn code(&self) -> (r: u8)
        ensures
            r == self.spec_code(),
    {
        match self {
            LINMode::Commander => 0,
            LINMode::Responder => 1,
        }
    }
}

/// Which checksum a frame uses; `Auto` lets a filter accept either.
#[derive(Debug, Clone, Copy, PartialEq, Eq, Structural)]
pub enum LINChecksum {
    Classic,
    Enhanced,
    Auto,
}

impl LINChecksum {
    pub open spec fn spec_code(self) -> u8 {
        match self {
            LINChecksum::Classic => 0,
            LINChecksum::Enhanced => 1,
            LINChecksum::Auto => 2,
        }
    }

    pub fn code(&self) -> (r: u8)
        ensures
            r == self.spec_code(),
    {
        match self {
            LINChecksum::Classic => 0,
            LINChecksum::Enhanced => 1,
            LINChecksum::Auto => 2,
        }
    }
}

/// The id of the last transfer and whether it succeeded.
#[derive(Debug, Clone, Copy, PartialEq, Eq, Structural)]
pub struct LINStatus {
    pub id: u8,
    pub success: bool,
}

/// One LIN frame.
pub struct LINMessage {
    pub id: u8,
    pub checksum_type: LINChecksum,
    pub data: Vec<u8>,
}

impl LINMessage {
    pub fn new(id: u8, data: Vec<u8>, checksum_type: LINChecksum) -> (r: LINMessage)
        ensures
            r.id == id,
            r.checksum_type == checksum_type,
            r.data@ == data@,
    {
        LINMessage { id, checksum_type, data }
    }
}

/// Decodes a mode reply: one byte, 0 or 1.
pub fn lin_mode_decode(resp: &[u8]) -> (r: Result<LINMode, Error>)
    ensures
        resp@ == seq![0u8] ==> r == Ok::<LINMode, Error>(LINMode::Commander),
        resp@ == seq![1u8] ==> r == Ok::<LINMode, Error>(LINMode::Responder),
        !(resp@ == seq![0u8] || resp@ == seq![1u8]) ==> r == Err::<LINMode, Error>(
            Error::PacketFormat,
        ),
{
    let b = exact_u8(resp)?;
    if b == 0 {
        assert(resp@ =~= seq![0u8]);
        Ok(LINMode::Commander)
    } else if b == 1 {
        assert(resp@ =~= seq![1u8]);
        Ok(LINMode::Responder)
    } else {
        Err(Error::PacketFormat)
    }
}

/// What the reply to this request means: an error from the send comes
/// back unchanged; a payload is decoded by `lin_mode_decode`.
pub fn lin_mode_reply(reply: Result<Vec<u8>, Error>) -> (r: Result<LINMode, Error>)
    ensures
        reply matches Err(e) ==> (r matches Err(x) && x == e),
        reply matches Ok(b) ==> (b@ == seq![0u8] ==> r == Ok::<LINMode, Error>(LINMode::Commander)),
        reply matches Ok(b) ==> (b@ == seq![1u8] ==> r == Ok::<LINMode, Error>(LINMode::Responder)),
        reply matches Ok(b) ==> (!(b@ == seq![0u8] || b@ == seq![1u8]) ==> r == Err::<LINMode, Error>( Error::PacketFormat, )),
{
    let b = reply?;
    lin_mode_decode(b.as_slice())
}

/// Decodes a status reply: the id, then a 16-bit retcode that is 0 on
/// success; exactly three bytes.
pub fn lin_status_decode(resp: &[u8]) -> (r: Result<LINStatus, Error>)
    ensures
        resp@.len() == 3 ==> r == Ok::<LINStatus, Error>(
            LINStatus { id: resp@[0], success: u16_at(resp@, 1) == 0 },
        ),
        resp@.len() != 3 ==> r == Err::<LINStatus, Error>(Error::PacketFormat),
{
    if resp.len() != 3 {
        return Err(Error::PacketFormat);
    }
    Ok(LINStatus { id: resp[0], success: read_u16(resp, 1) == 0 })
}

/// What the reply to this request means: an error from the send comes
/// back unchanged; a payload is decoded by `lin_status_decode`.
pub fn lin_status_reply(reply: Result<Vec<u8>, Error>) -> (r: Result<LINStatus, Error>)
    ensures
        reply matches Err(e) ==> (r matches Err(x) && x == e),
        reply matches Ok(b) ==> (b@.len() == 3 ==> r == Ok::<LINStatus, Error>( LINStatus { id: b@[0], success: u16_at(b@, 1) == 0 }, )),
        reply matches Ok(b) ==> (b@.len() != 3 ==> r == Err::<LINStatus, Error>(Error::PacketFormat)),
{
    let b = reply?;
    lin_status_decode(b.as_slice())
}

/// The checksum kind that a frame on the wire names, if any: a received frame
/// is classic or enhanced.
pub open spec fn checksum_of(b: u8) -> Option<LINChecksum> {
    if b == 0 {
        Some(LINChecksum::Classic)
    } else if b == 1 {
        Some(LINChecksum::Enhanced)
    } else {
        None
    }
}

/// The length of the fixed part of a frame read reply: frames still queued
/// (16 bits), the id and the checksum kind.
pub const LIN_READ_HEADER_LEN: usize = 4;

/// Decodes a frame read reply: empty means no frame was pending; otherwise
/// the data is everything after the fixed part.
pub fn lin_read_decode(resp: &[u8]) -> (r: Result<Option<LINMessage>, Error>)
    ensures
        resp@.len() == 0 ==> r matches Ok(None),
        0 < resp@.len() < LIN_READ_HEADER_LEN ==> r == Err::<Option<LINMessage>, Error>(
            Error::PacketFormat,
        ),
        resp@.len() >= LIN_READ_HEADER_LEN ==> (match checksum_of(resp@[3]) {
            None => r == Err::<Option<LINMessage>, Error>(Error::PacketFormat),
            Some(c) => r matches Ok(Some(m)) && m.id == resp@[2] && m.checksum_type == c
                && m.data@ == resp@.subrange(4, resp@.len() as int),
        }),
{
    if resp.len() == 0 {
        return Ok(None);
    }
    if resp.len() < LIN_READ_HEADER_LEN {
        return Err(Error::PacketFormat);
    }
    let checksum_type = if resp[3] == 0 {
        LINChecksum::Classic
    } else if resp[3] == 1 {
        LINChecksum::Enhanced
    } else {
        return Err(Error::PacketFormat);
    };
    Ok(Some(LINMessage { id: resp[2], checksum_type, data: tail_of(resp, LIN_READ_HEADER_LEN) }))
}

/// What the reply to this request means: an error from the send comes
/// back unchanged; a payload is decoded by `lin_read_decode`.
pub fn lin_read_reply(reply: Result<Vec<u8>, Error>) -> (r: Result<Option<LINMessage>, Error>)
    ensures
        reply matches Err(e) ==> (r matches Err(x) && x == e),
        reply matches Ok(b) ==> (b@.len() == 0 ==> r matches Ok(None)),
        reply matches Ok(b) ==> (0 < b@.len() < LIN_READ_HEADER_LEN ==> r == Err::<Option<LINMessage>, Error>( Error::PacketFormat, )),
        reply matches Ok(b) ==> (b@.len() >= LIN_READ_HEADER_LEN ==> (match checksum_of(b@[3]) { None => r == Err::<Option<LINMessage>, Error>(Error::PacketFormat), Some(c) => r matches Ok(Some(m)) && m.id == b@[2] && m.checksum_type == c && m.data@ == b@.subrange(4, b@.len() as int), })),
{
    let b = reply?;
    lin_read_decode(b.as_slice())
}

pub fn lin_set_mode_request(idx: usize, mode: LINMode) -> (q: InterfaceRequest)
    ensures
        is_request(q, InstID::LIN, idx, FN_SET_MODE, seq![mode.spec_code()]),
{
    let p = vec![mode.code()];
    assert(p@ =~= seq![mode.spec_code()]);
    request(InstID::LIN, idx, FN_SET_MODE, p)
}

pub fn lin_set_rate_request(idx: usize, bitrate: u32) -> (q: InterfaceRequest)
    ensures
        is_request(q, InstID::LIN, idx, FN_SET_RATE, le32(bitrate)),
{
    let mut p: Vec<u8> = Vec::new();
    push_u32(&mut p, bitrate);
    request(InstID::LIN, idx, FN_SET_RATE, p)
}

/// The filter request; `InvalidArgs` when `len` is over a LIN frame's.
pub fn lin_set_filter_request(idx: usize, id: u8, len: usize, checksum_type: LINChecksum) -> (r: Result<InterfaceRequest, Error>)
    ensures
        len > LIN_DATA_MAX_LEN ==> r matches Err(Error::InvalidArgs),
        len <= LIN_DATA_MAX_LEN ==> (r matches Ok(q) && is_request(q, InstID::LIN, idx, FN_SET_FILTER, seq![id, checksum_type.spec_code(), len as u8])),
{
    if len > LIN_DATA_MAX_LEN {
        return Err(Error::InvalidArgs);
    }
    let p = vec![id, checksum_type.code(), len as u8];
    assert(p@ =~= seq![id, checksum_type.spec_code(), len as u8]);
    Ok(request(InstID::LIN, idx, FN_SET_FILTER, p))
}

pub fn lin_mode_request(idx: usize) -> (q: InterfaceRequest)
    ensures
        is_request(q, InstID::LIN, idx, FN_MODE, Seq::empty()),
{
    let p: Vec<u8> = Vec::new();
    request(InstID::LIN, idx, FN_MODE, p)
}

pub fn lin_status_request(idx: usize) -> (q: InterfaceRequest)
    ensures
        is_request(q, InstID::LIN, idx, FN_STATUS, Seq::empty()),
{
    let p: Vec<u8> = Vec::new();
    request(InstID::LIN, idx, FN_STATUS, p)
}

/// The frame write request; `InvalidArgs` when the data is too long.
pub fn lin_write_request(idx: usize, msg: &LINMessage) -> (r: Result<InterfaceRequest, Error>)
    ensures
        msg.data@.len() > LIN_DATA_MAX_LEN ==> r matches Err(Error::InvalidArgs),
        msg.data@.len() <= LIN_DATA_MAX_LEN ==> (r matches Ok(q) && is_request(q, InstID::LIN, idx, FN_WRITE, seq![msg.id, msg.checksum_type.spec_code()] + msg.data@)),
{
    if msg.data.len() > LIN_DATA_MAX_LEN {
        return Err(Error::InvalidArgs);
    }
    let mut p: Vec<u8> = vec![msg.id, msg.checksum_type.code()];
    push_all(&mut p, msg.data.as_slice());
    assert(p@ =~= seq![msg.id, msg.checksum_type.spec_code()] + msg.data@);
    Ok(request(InstID::LIN, idx, FN_WRITE, p))
}

pub fn lin_read_request(idx: usize, id: u8) -> (q: InterfaceRequest)
    ensures
        is_request(q, InstID::LIN, idx, FN_READ, seq![id]),
{
    let p = vec![id];
    assert(p@ =~= seq![id]);
    request(InstID::LIN, idx, FN_READ, p)
}

impl<I: Interface> Device<I> {
    /// Sends `lin_set_mode_request`, expects an empty reply.
    pub fn lin_set_mode(&self, idx: usize, mode: LINMode) -> (r: Result<(), Error>)
        ensures
            r matches Err(e) ==> e != Error::NoError,
    {
        ack_reply(self.send(&lin_set_mode_request(idx, mode)))
    }

    /// Sends `lin_set_rate_request`, expects an empty reply.
    pub fn lin_set_rate(&self, idx: usize, bitrate: u32) -> (r: Result<(), Error>)
        ensures
            r matches Err(e) ==> e != Error::NoError,
    {
        ack_reply(self.send(&lin_set_rate_request(idx, bitrate)))
    }

    /// Sets how frames with id `id` are checked and how long they are: sends
    /// `lin_set_filter_request`, expects an empty reply; `InvalidArgs`, with
    /// nothing sent, when `len` is over a LIN frame's.
    pub fn lin_set_filter(&self, idx: usize, id: u8, len: usize, checksum_type: LINChecksum) -> (r: Result<(), Error>)
        ensures
            len > LIN_DATA_MAX_LEN ==> r == Err::<(), Error>(Error::InvalidArgs),
            r matches Err(e) ==> e != Error::NoError,
    {
        let q = lin_set_filter_request(idx, id, len, checksum_type)?;
        ack_reply(self.send(&q))
    }

    /// Sends `lin_mode_request`; the reply is decoded by `lin_mode_decode`.
    pub fn lin_mode(&self, idx: usize) -> (r: Result<LINMode, Error>)
        ensures
            r matches Err(e) ==> e != Error::NoError,
    {
        lin_mode_reply(self.send(&lin_mode_request(idx)))
    }

    /// Sends `lin_status_request`; the reply is decoded by
    /// `lin_status_decode`.
    pub fn lin_status(&self, idx: usize) -> (r: Result<LINStatus, Error>)
        ensures
            r matches Err(e) ==> e != Error::NoError,
    {
        lin_status_reply(self.send(&lin_status_request(idx)))
    }

    /// Sends (as commander) or queues (as responder) a frame: sends
    /// `lin_write_request`, expects an empty reply; `InvalidArgs`, with nothing
    /// sent, when its data is too long.
    pub fn lin_write(&self, idx: usize, msg: &LINMessage) -> (r: Result<(), Error>)
        ensures
            msg.data@.len() > LIN_DATA_MAX_LEN ==> r == Err::<(), Error>(Error::InvalidArgs),
            r matches Err(e) ==> e != Error::NoError,
    {
        let q = lin_write_request(idx, msg)?;
        ack_reply(self.send(&q))
    }

    /// The next frame received with id `id`, or `None` when none is pending:
    /// sends `lin_read_request`; the reply is decoded by `lin_read_decode`.
    pub fn lin_read(&self, idx: usize, id: u8) -> (r: Result<Option<LINMessage>, Error>)
        ensures
            r matches Err(e) ==> e != Error::NoError,
    {
        lin_read_reply(self.send(&lin_read_request(idx, id)))
    }
}

} // verus!
