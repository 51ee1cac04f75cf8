//! The generic envelope every peripheral command travels in: the addressing
//! triple stamped on a sub-payload, and the checks applied to what comes back.
use vstd::prelude::*;
use crate::error::Error;
use crate::frame::{InterfaceRequest, MAX_PAYLOAD_LEN, read_u16, read_u32, u16_at, u32_at};
use crate::metadata::InstID;

verus! {

/// The request that addresses function `func` of instance `idx` of
/// peripheral kind `periph`; `PacketFormat` when the sub-payload is too long.
/// The instance index is carried in 16 bits.
pub fn gen_req(periph: InstID, idx: usize, func: u16, payload: Vec<u8>) -> (r: Result<
    InterfaceRequest,
    Error,
>)
    ensures
        payload@.len() > MAX_PAYLOAD_LEN ==> r == Err::<InterfaceRequest, Error>(
            Error::PacketFormat,
        ),
        payload@.len() <= MAX_PAYLOAD_LEN ==> (r matches Ok(q) && is_request(q, periph, idx, func, payload@)),
{
    InterfaceRequest::new(periph.id(), idx as u16, func, payload)
}

/// Whether `q` addresses function `func` of instance `idx` (carried in 16
/// bits) of peripheral kind `periph`, with exactly `payload`.
pub open spec fn is_request(q: InterfaceRequest, periph: InstID, idx: usize, func: u16, payload: Seq<u8>) -> bool {
    &&& q.periph_id == periph.spec_id()
    &&& q.periph_idx == idx as u16
    &&& q.periph_fn == func
    &&& q.payload@ == payload
    &&& q.payload_len == payload.len()
}

/// The request for a sub-payload known to fit a frame.
pub fn request(periph: InstID, idx: usize, func: u16, payload: Vec<u8>) -> (q: InterfaceRequest)
    requires
        payload@.len() <= MAX_PAYLOAD_LEN,
    ensures
        is_request(q, periph, idx, func, payload@),
{
    let payload_len = payload.len() as u16;
    InterfaceRequest { periph_id: periph.id(), periph_idx: idx as u16, periph_fn: func, payload_len, payload }
}

/// A boolean as it travels on the wire.
pub open spec fn flag(b: bool) -> u8 {
    if b {
        1
    } else {
        0
    }
}

pub fn flag_byte(b: bool) -> (r: u8)
    ensures
        r == flag(b),
{
    if b {
        1
    } else {
        0
    }
}

/// The outcome of a set-style command: accepted only with an empty reply.
pub fn ack(resp: &Vec<u8>) -> (r: Result<(), Error>)
    ensures
        resp@.len() == 0 ==> r == Ok::<(), Error>(()),
        resp@.len() != 0 ==> r == Err::<(), Error>(Error::PacketFormat),
{
    if resp.len() == 0 {
        Ok(())
    } else {
        Err(Error::PacketFormat)
    }
}

/// What the reply to this request means: an error from the send comes
/// back unchanged; a payload is decoded by `ack`.
pub fn ack_reply(reply: Result<Vec<u8>, Error>) -> (r: Result<(), Error>)
    ensures
        reply matches Err(e) ==> (r matches Err(x) && x == e),
        reply matches Ok(b) ==> (b@.len() == 0 ==> r == Ok::<(), Error>(())),
        reply matches Ok(b) ==> (b@.len() != 0 ==> r == Err::<(), Error>(Error::PacketFormat)),
{
    let b = reply?;
    ack(&b)
}

/// A reply that holds exactly one byte.
pub fn exact_u8(resp: &[u8]) -> (r: Result<u8, Error>)
    ensures
        resp@.len() == 1 ==> r == Ok::<u8, Error>(resp@[0]),
        resp@.len() != 1 ==> r == Err::<u8, Error>(Error::PacketFormat),
{
    if resp.len() != 1 {
        return Err(Error::PacketFormat);
    }
    Ok(resp[0])
}

/// A reply that holds exactly one little-endian 16-bit value.
pub fn exact_u16(resp: &[u8]) -> (r: Result<u16, Error>)
    ensures
        resp@.len() == 2 ==> r == Ok::<u16, Error>(u16_at(resp@, 0)),
        resp@.len() != 2 ==> r == Err::<u16, Error>(Error::PacketFormat),
{
    if resp.len() != 2 {
        return Err(Error::PacketFormat);
    }
    Ok(read_u16(resp, 0))
}

/// What the reply to this request means: an error from the send comes
/// back unchanged; a payload is decoded by `exact_u16`.
pub fn u16_reply(reply: Result<Vec<u8>, Error>) -> (r: Result<u16, Error>)
    ensures
        reply matches Err(e) ==> (r matches Err(x) && x == e),
        reply matches Ok(b) ==> (b@.len() == 2 ==> r == Ok::<u16, Error>(u16_at(b@, 0))),
        reply matches Ok(b) ==> (b@.len() != 2 ==> r == Err::<u16, Error>(Error::PacketFormat)),
{
    let b = reply?;
    exact_u16(b.as_slice())
}

/// A reply that holds exactly one little-endian 32-bit value.
pub fn exact_u32(resp: &[u8]) -> (r: Result<u32, Error>)
    ensures
        resp@.len() == 4 ==> r == Ok::<u32, Error>(u32_at(resp@, 0)),
        resp@.len() != 4 ==> r == Err::<u32, Error>(Error::PacketFormat),
{
    if resp.len() != 4 {
        return Err(Error::PacketFormat);
    }
    Ok(read_u32(resp, 0))
}

} // verus!
