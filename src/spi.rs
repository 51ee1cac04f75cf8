//! The SPI peripheral: clock frequency, mode, bit order and transfers.
use vstd::prelude::*;
use crate::device::Device;
use crate::envelope::{ack_reply, flag, flag_byte, gen_req, is_request, request};
use crate::error::Error;
use crate::frame::{InterfaceRequest, MAX_PAYLOAD_LEN, le16, le32, push_all, push_u16, push_u32};
use crate::interface::Interface;
use crate::metadata::InstID;

verus! {

pub const FN_SET_FREQ: u16 = 0;
pub const FN_SET_MODE: u16 = 1;
pub const FN_SET_BITORDER: u16 = 2;
pub const FN_WRITE: u16 = 3;
pub const FN_READ: u16 = 4;
pub const FN_TRANSCEIVE: u16 = 5;

pub fn spi_set_freq_request(idx: usize, freq: u32) -> (q: InterfaceRequest)
    ensures
        is_request(q, InstID::SPI, idx, FN_SET_FREQ, le32(freq)),
{
    let mut p: Vec<u8> = Vec::new();
    push_u32(&mut p, freq);
    request(InstID::SPI, idx, FN_SET_FREQ, p)
}

pub fn spi_set_mode_request(idx: usize, mode: u8) -> (q: InterfaceRequest)
    ensures
        is_request(q, InstID::SPI, idx, FN_SET_MODE, seq![mode]),
{
    let p = vec![mode];
    assert(p@ =~= seq![mode]);
    request(InstID::SPI, idx, FN_SET_MODE, p)
}

pub fn spi_set_bitorder_request(idx: usize, msb: bool) -> (q: InterfaceRequest)
    ensures
        is_request(q, InstID::SPI, idx, FN_SET_BITORDER, seq![flag(msb)]),
{
    let p = vec![flag_byte(msb)];
    assert(p@ =~= seq![flag(msb)]);
    request(InstID::SPI, idx, FN_SET_BITORDER, p)
}

pub fn spi_write_request(idx: usize, data: &[u8]) -> (r: Result<InterfaceRequest, Error>)
    ensures
        data@.len() > MAX_PAYLOAD_LEN ==> r matches Err(Error::PacketFormat),
        data@.len() <= MAX_PAYLOAD_LEN ==> (r matches Ok(q) && is_request(q, InstID::SPI, idx, FN_WRITE, data@)),
{
    let mut p: Vec<u8> = Vec::new();
    push_all(&mut p, data);
    gen_req(InstID::SPI, idx, FN_WRITE, p)
}

pub fn spi_read_request(idx: usize, len: usize) -> (q: InterfaceRequest)
    ensures
        is_request(q, InstID::SPI, idx, FN_READ, le16(len as u16)),
{
    let mut p: Vec<u8> = Vec::new();
    push_u16(&mut p, len as u16);
    request(InstID::SPI, idx, FN_READ, p)
}

pub fn spi_transceive_request(idx: usize, data: &[u8]) -> (r: Result<InterfaceRequest, Error>)
    ensures
        data@.len() > MAX_PAYLOAD_LEN ==> r matches Err(Error::PacketFormat),
        data@.len() <= MAX_PAYLOAD_LEN ==> (r matches Ok(q) && is_request(q, InstID::SPI, idx, FN_TRANSCEIVE, data@)),
{
    let mut p: Vec<u8> = Vec::new();
    push_all(&mut p, data);
    gen_req(InstID::SPI, idx, FN_TRANSCEIVE, p)
}

impl<I: Interface> Device<I> {
    /// Sends `spi_set_freq_request`, expects an empty reply.
    pub fn spi_set_freq(&self, idx: usize, freq: u32) -> (r: Result<(), Error>)
        ensures
            r matches Err(e) ==> e != Error::NoError,
    {
        ack_reply(self.send(&spi_set_freq_request(idx, freq)))
    }

    /// Sends `spi_set_mode_request`, expects an empty reply.
    pub fn spi_set_mode(&self, idx: usize, mode: u8) -> (r: Result<(), Error>)
        ensures
            r matches Err(e) ==> e != Error::NoError,
    {
        ack_reply(self.send(&spi_set_mode_request(idx, mode)))
    }

    /// Sets most-significant-bit first when `msb`, else least: sends
    /// `spi_set_bitorder_request`, expects an empty reply.
    pub fn spi_set_bitorder(&self, idx: usize, msb: bool) -> (r: Result<(), Error>)
        ensures
            r matches Err(e) ==> e != Error::NoError,
    {
        ack_reply(self.send(&spi_set_bitorder_request(idx, msb)))
    }

    /// Sends `spi_write_request`, expects an empty reply.
    pub fn spi_write(&self, idx: usize, data: &[u8]) -> (r: Result<(), Error>)
        ensures
            r matches Err(e) ==> e != Error::NoError,
            data@.len() > MAX_PAYLOAD_LEN ==> r == Err::<(), Error>(Error::PacketFormat),
    {
        let q = spi_write_request(idx, data)?;
        ack_reply(self.send(&q))
    }

    /// Reads `len` bytes (carried in 16 bits): sends `spi_read_request` and
    /// returns the reply.
    pub fn spi_read(&self, idx: usize, len: usize) -> (r: Result<Vec<u8>, Error>)
        ensures
            r matches Err(e) ==> e != Error::NoError,
            r matches Ok(v) ==> v@.len() <= MAX_PAYLOAD_LEN,
    {
        self.send(&spi_read_request(idx, len))
    }

    /// Clocks `data` out and returns what was clocked in meanwhile: sends
    /// `spi_transceive_request` and returns the reply.
    pub fn spi_transceive(&self, idx: usize, data: &[u8]) -> (r: Result<Vec<u8>, Error>)
        ensures
            r matches Err(e) ==> e != Error::NoError,
            r matches Ok(v) ==> v@.len() <= MAX_PAYLOAD_LEN,
            data@.len() > MAX_PAYLOAD_LEN ==> r == Err::<Vec<u8>, Error>(Error::PacketFormat),
    {
        let q = spi_transceive_request(idx, data)?;
        self.send(&q)
    }
}

} // verus!
