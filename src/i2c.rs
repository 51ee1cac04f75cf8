//! The I2C peripheral: bus speed presets and addressed writes, reads and
//! combined write-then-read transfers.
use vstd::prelude::*;
use crate::device::Device;
use crate::envelope::{ack_reply, gen_req, is_request, request};
use crate::error::Error;
use crate::frame::{InterfaceRequest, MAX_PAYLOAD_LEN, le16, push_all, push_u16};
use crate::interface::Interface;
use crate::metadata::InstID;

verus! {

pub const FN_SET_FREQ: u16 = 0;
pub const FN_WRITE: u16 = 1;
pub const FN_READ: u16 = 2;
pub const FN_TRANSCEIVE: u16 = 3;

/// Bus speed presets: 100 kHz, 400 kHz, 1 MHz, 3.4 MHz and 5 MHz.
#[derive(Debug, Clone, Copy, PartialEq, Eq, Structural)]
pub enum I2CFreq {
    Standard,
    Fast,
    FastPlus,
    High,
    Ultra,
}

impl I2CFreq {
    pub open spec fn spec_code(self) -> u8 {
        match self {
            I2CFreq::Standard => 0,
            I2CFreq::Fast => 1,
            I2CFreq::FastPlus => 2,
            I2CFreq::High => 3,
            I2CFreq::Ultra => 4,
        }
    }

    pub fn code(&self) -> (r: u8)
        ensures
            r == self.spec_code(),
    {
        match self {
            I2CFreq::Standard => 0,
            I2CFreq::Fast => 1,
            I2CFreq::FastPlus => 2,
            I2CFreq::High => 3,
            I2CFreq::Ultra => 4,
        }
    }
}

pub fn i2c_set_freq_request(idx: usize, preset: I2CFreq) -> (q: InterfaceRequest)
    ensures
        is_request(q, InstID::I2C, idx, FN_SET_FREQ, seq![preset.spec_code()]),
{
    let p = vec![preset.code()];
    assert(p@ =~= seq![preset.spec_code()]);
    request(InstID::I2C, idx, FN_SET_FREQ, p)
}

pub fn i2c_write_request(idx: usize, addr: u16, data: &[u8]) -> (r: Result<InterfaceRequest, Error>)
    ensures
        data@.len() + 2 > MAX_PAYLOAD_LEN ==> r matches Err(Error::PacketFormat),
        data@.len() + 2 <= MAX_PAYLOAD_LEN ==> (r matches Ok(q) && is_request(q, InstID::I2C, idx, FN_WRITE, le16(addr) + data@)),
{
    let mut p: Vec<u8> = Vec::new();
    push_u16(&mut p, addr);
    push_all(&mut p, data);
    gen_req(InstID::I2C, idx, FN_WRITE, p)
}

pub fn i2c_read_request(idx: usize, addr: u16, len: usize) -> (q: InterfaceRequest)
    ensures
        is_request(q, InstID::I2C, idx, FN_READ, le16(addr) + le16(len as u16)),
{
    let mut p: Vec<u8> = Vec::new();
    push_u16(&mut p, addr);
    push_u16(&mut p, len as u16);
    request(InstID::I2C, idx, FN_READ, p)
}

pub fn i2c_transceive_request(idx: usize, addr: u16, data: &[u8], read_len: usize) -> (r: Result<InterfaceRequest, Error>)
    ensures
        data@.len() + 4 > MAX_PAYLOAD_LEN ==> r matches Err(Error::PacketFormat),
        data@.len() + 4 <= MAX_PAYLOAD_LEN ==> (r matches Ok(q) && is_request(q, InstID::I2C, idx, FN_TRANSCEIVE, le16(addr) + le16(read_len as u16) + data@)),
{
    let mut p: Vec<u8> = Vec::new();
    push_u16(&mut p, addr);
    push_u16(&mut p, read_len as u16);
    push_all(&mut p, data);
    gen_req(InstID::I2C, idx, FN_TRANSCEIVE, p)
}

impl<I: Interface> Device<I> {
    /// Sends `i2c_set_freq_request`, expects an empty reply.
    pub fn i2c_set_freq(&self, idx: usize, preset: I2CFreq) -> (r: Result<(), Error>)
        ensures
            r matches Err(e) ==> e != Error::NoError,
    {
        ack_reply(self.send(&i2c_set_freq_request(idx, preset)))
    }

    /// Writes `data` to the target at `addr`: sends `i2c_write_request`,
    /// expects an empty reply.
    pub fn i2c_write(&self, idx: usize, addr: u16, data: &[u8]) -> (r: Result<(), Error>)
        ensures
            r matches Err(e) ==> e != Error::NoError,
            data@.len() + 2 > MAX_PAYLOAD_LEN ==> r == Err::<(), Error>(Error::PacketFormat),
    {
        let q = i2c_write_request(idx, addr, data)?;
        ack_reply(self.send(&q))
    }

    /// Reads `len` bytes (carried in 16 bits) from the target at `addr`:
    /// sends `i2c_read_request` and returns the reply.
    pub fn i2c_read(&self, idx: usize, addr: u16, len: usize) -> (r: Result<Vec<u8>, Error>)
        ensures
            r matches Err(e) ==> e != Error::NoError,
            r matches Ok(v) ==> v@.len() <= MAX_PAYLOAD_LEN,
    {
        self.send(&i2c_read_request(idx, addr, len))
    }

    /// Writes `data` to the target at `addr`, then reads `read_len` bytes
    /// (carried in 16 bits) back: sends `i2c_transceive_request` and returns
    /// the reply.
    pub fn i2c_transceive(&self, idx: usize, addr: u16, data: &[u8], read_len: usize) -> (r: Result<Vec<u8>, Error>)
        ensures
            r matches Err(e) ==> e != Error::NoError,
            r matches Ok(v) ==> v@.len() <= MAX_PAYLOAD_LEN,
            data@.len() + 4 > MAX_PAYLOAD_LEN ==> r == Err::<Vec<u8>, Error>(Error::PacketFormat),
    {
        let q = i2c_transceive_request(idx, addr, data, read_len)?;
        self.send(&q)
    }
}

} // verus!
