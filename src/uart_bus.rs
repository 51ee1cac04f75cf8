//! The UART peripheral of the device: line settings and data transfer.
use vstd::prelude::*;
use crate::device::Device;
use crate::envelope::{ack_reply, gen_req, is_request, request};
use crate::error::Error;
use crate::frame::{InterfaceRequest, MAX_PAYLOAD_LEN, le16, le32, push_all, push_u16, push_u32};
use crate::interface::Interface;
use crate::metadata::InstID;

verus! {

pub const FN_SET_CONFIG: u16 = 0;
pub const FN_WRITE: u16 = 1;
pub const FN_READ: u16 = 2;

#[derive(Debug, Clone, Copy, PartialEq, Eq, Structural)]
pub enum UARTParity {
    NoParity,
    Odd,
    Even,
    Mark,
    Space,
}

impl UARTParity {
    pub open spec fn spec_code(self) -> u8 {
        match self {
            UARTParity::NoParity => 0,
            UARTParity::Odd => 1,
            UARTParity::Even => 2,
            UARTParity::Mark => 3,
            UARTParity::Space => 4,
        }
    }

    pub fn code(&self) -> (r: u8)
        ensures
            r == self.spec_code(),
    {
        match self {
            UARTParity::NoParity => 0,
            UARTParity::Odd => 1,
            UARTParity::Even => 2,
            UARTParity::Mark => 3,
            UARTParity::Space => 4,
        }
    }
}

/// Stop bits: one half, one, one and a half, two.
#[derive(Debug, Clone, Copy, PartialEq, Eq, Structural)]
pub enum UARTStop {
    B0_5,
    B1,
    B1_5,
    B2,
}

impl UARTStop {
    pub open spec fn spec_code(self) -> u8 {
        match self {
            UARTStop::B0_5 => 0,
            UARTStop::B1 => 1,
            UARTStop::B1_5 => 2,
            UARTStop::B2 => 3,
        }
    }

    pub fn code(&self) -> (r: u8)
        ensures
            r == self.spec_code(),
    {
        match self {
            UARTStop::B0_5 => 0,
            UARTStop::B1 => 1,
            UARTStop::B1_5 => 2,
            UARTStop::B2 => 3,
        }
    }
}

/// The line settings request: baud rate, then data bits, parity and stop
/// bits as one byte each.
pub fn uart_set_config_request(idx: usize, baud: u32, data_bits: u8, parity: UARTParity, stop: UARTStop) -> (q: InterfaceRequest)
    ensures
        is_request(q, InstID::UART, idx, FN_SET_CONFIG, le32(baud) + seq![data_bits, parity.spec_code(), stop.spec_code()]),
{
    let mut p: Vec<u8> = Vec::new();
    push_u32(&mut p, baud);
    p.push(data_bits);
    p.push(parity.code());
    p.push(stop.code());
    assert(p@ =~= le32(baud) + seq![data_bits, parity.spec_code(), stop.spec_code()]);
    request(InstID::UART, idx, FN_SET_CONFIG, p)
}

pub fn uart_write_request(idx: usize, data: &[u8]) -> (r: Result<InterfaceRequest, Error>)
    ensures
        data@.len() > MAX_PAYLOAD_LEN ==> r matches Err(Error::PacketFormat),
        data@.len() <= MAX_PAYLOAD_LEN ==> (r matches Ok(q) && is_request(q, InstID::UART, idx, FN_WRITE, data@)),
{
    let mut p: Vec<u8> = Vec::new();
    push_all(&mut p, data);
    gen_req(InstID::UART, idx, FN_WRITE, p)
}

pub fn uart_read_request(idx: usize, len: usize) -> (q: InterfaceRequest)
    ensures
        is_request(q, InstID::UART, idx, FN_READ, le16(len as u16)),
{
    let mut p: Vec<u8> = Vec::new();
    push_u16(&mut p, len as u16);
    request(InstID::UART, idx, FN_READ, p)
}

impl<I: Interface> Device<I> {
    /// Sets the line: sends `uart_set_config_request`, expects an empty
    /// reply.
    pub fn uart_set_config(
        &self,
        idx: usize,
        baud: u32,
        data_bits: u8,
        parity: UARTParity,
        stop: UARTStop,
    ) -> (r: Result<(), Error>)
        ensures
            r matches Err(e) ==> e != Error::NoError,
    {
        ack_reply(self.send(&uart_set_config_request(idx, baud, data_bits, parity, stop)))
    }

    /// Sends `uart_write_request`, expects an empty reply.
    pub fn uart_write(&self, idx: usize, data: &[u8]) -> (r: Result<(), Error>)
        ensures
            r matches Err(e) ==> e != Error::NoError,
            data@.len() > MAX_PAYLOAD_LEN ==> r == Err::<(), Error>(Error::PacketFormat),
    {
        let q = uart_write_request(idx, data)?;
        ack_reply(self.send(&q))
    }

    /// Reads `len` bytes (carried in 16 bits): sends `uart_read_request` and
    /// returns the reply.
    pub fn uart_read(&self, idx: usize, len: usize) -> (r: Result<Vec<u8>, Error>)
        ensures
            r matches Err(e) ==> e != Error::NoError,
            r matches Ok(v) ==> v@.len() <= MAX_PAYLOAD_LEN,
    {
        self.send(&uart_read_request(idx, len))
    }
}

} // verus!
