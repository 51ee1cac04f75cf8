//! The GPIO peripheral: pin direction, pull resistors, output and input level.
use vstd::prelude::*;
use crate::device::Device;
use crate::envelope::{ack_reply, exact_u8, flag, flag_byte, is_request, request};
use crate::error::Error;
use crate::frame::InterfaceRequest;
use crate::interface::Interface;
use crate::metadata::InstID;

verus! {

pub const FN_SET_MODE: u16 = 0;
pub const FN_WRITE: u16 = 1;
pub const FN_READ: u16 = 2;

#[derive(Debug, Clone, Copy, PartialEq, Eq, Structural)]
pub enum GPIODir {
    Input,
    Output,
    OpenDrain,
    OpenSource,
}

impl GPIODir {
    pub open spec fn spec_code(self) -> u8 {
        match self {
            GPIODir::Input => 0,
            GPIODir::Output => 1,
            GPIODir::OpenDrain => 2,
            GPIODir::OpenSource => 3,
        }
    }

    pub fn code(&self) -> (r: u8)
        ensures
            r == self.spec_code(),
    {
        match self {
            GPIODir::Input => 0,
            GPIODir::Output => 1,
            GPIODir::OpenDrain => 2,
            GPIODir::OpenSource => 3,
        }
    }
}

#[derive(Debug, Clone, Copy, PartialEq, Eq, Structural)]
pub enum GPIOPull {
    NoPull,
    Up,
    Down,
    Both,
}

impl GPIOPull {
    pub open spec fn spec_code(self) -> u8 {
        match self {
            GPIOPull::NoPull => 0,
            GPIOPull::Up => 1,
            GPIOPull::Down => 2,
            GPIOPull::Both => 3,
        }
    }

    pub fn code(&self) -> (r: u8)
        ensures
            r == self.spec_code(),
    {
        match self {
            GPIOPull::NoPull => 0,
            GPIOPull::Up => 1,
            GPIOPull::Down => 2,
            GPIOPull::Both => 3,
        }
    }
}

/// Decodes a level reply: one byte, any nonzero value is high.
pub fn gpio_level_decode(resp: &[u8]) -> (r: Result<bool, Error>)
    ensures
        resp@.len() == 1 ==> r == Ok::<bool, Error>(resp@[0] != 0),
        resp@.len() != 1 ==> r == Err::<bool, Error>(Error::PacketFormat),
{
    let b = exact_u8(resp)?;
    Ok(b != 0)
}

/// What the reply to this request means: an error from the send comes
/// back unchanged; a payload is decoded by `gpio_level_decode`.
pub fn gpio_level_reply(reply: Result<Vec<u8>, Error>) -> (r: Result<bool, Error>)
    ensures
        reply matches Err(e) ==> (r matches Err(x) && x == e),
        reply matches Ok(b) ==> (b@.len() == 1 ==> r == Ok::<bool, Error>(b@[0] != 0)),
        reply matches Ok(b) ==> (b@.len() != 1 ==> r == Err::<bool, Error>(Error::PacketFormat)),
{
    let b = reply?;
    gpio_level_decode(b.as_slice())
}

pub fn gpio_set_mode_request(idx: usize, dir: GPIODir, pull: GPIOPull, init_val: bool) -> (q: InterfaceRequest)
    ensures
        is_request(q, InstID::GPIO, idx, FN_SET_MODE, seq![dir.spec_code(), pull.spec_code(), flag(init_val)]),
{
    let p = vec![dir.code(), pull.code(), flag_byte(init_val)];
    assert(p@ =~= seq![dir.spec_code(), pull.spec_code(), flag(init_val)]);
    request(InstID::GPIO, idx, FN_SET_MODE, p)
}

pub fn gpio_write_request(idx: usize, val: bool) -> (q: InterfaceRequest)
    ensures
        is_request(q, InstID::GPIO, idx, FN_WRITE, seq![flag(val)]),
{
    let p = vec![flag_byte(val)];
    assert(p@ =~= seq![flag(val)]);
    request(InstID::GPIO, idx, FN_WRITE, p)
}

pub fn gpio_read_request(idx: usize) -> (q: InterfaceRequest)
    ensures
        is_request(q, InstID::GPIO, idx, FN_READ, Seq::empty()),
{
    let p: Vec<u8> = Vec::new();
    request(InstID::GPIO, idx, FN_READ, p)
}

impl<I: Interface> Device<I> {
    /// Sends `gpio_set_mode_request`, expects an empty reply.
    pub fn gpio_set_mode(&self, idx: usize, dir: GPIODir, pull: GPIOPull, init_val: bool) -> (r: Result<(), Error>)
        ensures
            r matches Err(e) ==> e != Error::NoError,
    {
        ack_reply(self.send(&gpio_set_mode_request(idx, dir, pull, init_val)))
    }

    /// Sends `gpio_write_request`, expects an empty reply.
    pub fn gpio_write(&self, idx: usize, val: bool) -> (r: Result<(), Error>)
        ensures
            r matches Err(e) ==> e != Error::NoError,
    {
        ack_reply(self.send(&gpio_write_request(idx, val)))
    }

    /// Sends `gpio_read_request`; the reply is decoded by
    /// `gpio_level_decode`.
    pub fn gpio_read(&self, idx: usize) -> (r: Result<bool, Error>)
        ensures
            r matches Err(e) ==> e != Error::NoError,
    {
        gpio_level_reply(self.send(&gpio_read_request(idx)))
    }
}

} // verus!
