//! The metadata peripheral: serial number, instance counts, echo and the
//! request/response size limits used when a device is opened.
use vstd::prelude::*;
use vstd::utf8::{decode_utf8, valid_utf8};
use crate::device::Device;
use crate::envelope::{gen_req, is_request, request, u16_reply};
use crate::error::Error;
use crate::frame::{InterfaceRequest, MAX_PAYLOAD_LEN, le16, push_u16};
use crate::interface::Interface;

verus! {

/// The peripheral kinds, each with its fixed identity on the wire.
#[derive(Debug, Clone, Copy, PartialEq, Eq, Structural)]
pub enum InstID {
    Metadata,
    CAN,
    GPIO,
    I2C,
    SPI,
    UART,
    PWM,
    DAC,
    ADC,
    LIN,
}

impl InstID {
    /// The wire identity: consecutive from 0 in declaration order.
    pub open spec fn spec_id(self) -> u16 {
        match self {
            InstID::Metadata => 0,
            InstID::CAN => 1,
            InstID::GPIO => 2,
            InstID::I2C => 3,
            InstID::SPI => 4,
            InstID::UART => 5,
            InstID::PWM => 6,
            InstID::DAC => 7,
            InstID::ADC => 8,
            InstID::LIN => 9,
        }
    }

    pub fn id(&self) -> (r: u16)
        ensures
            r == self.spec_id(),
    {
        match self {
            InstID::Metadata => 0,
            InstID::CAN => 1,
            InstID::GPIO => 2,
            InstID::I2C => 3,
            InstID::SPI => 4,
            InstID::UART => 5,
            InstID::PWM => 6,
            InstID::DAC => 7,
            InstID::ADC => 8,
            InstID::LIN => 9,
        }
    }
}

pub const FN_SERIAL: u16 = 0;
pub const FN_NUM_INST: u16 = 1;
pub const FN_ECHO: u16 = 2;
pub const FN_REQ_MAX_SIZE: u16 = 3;
pub const FN_RESP_MAX_SIZE: u16 = 4;

/// Relies on String::from_utf8: the string whose UTF-8 bytes are `b`, or
/// `None` when they are not valid UTF-8.
#[verifier::external_body]
fn utf8_string(b: Vec<u8>) -> (r: Option<String>)
    ensures
        r is Some <==> valid_utf8(b@),
        r matches Some(s) ==> s@ == decode_utf8(b@),
{
    String::from_utf8(b).ok()
}

/// The serial number a reply carries; `Unknown` when it is not UTF-8.
pub fn serial_decode(resp: Vec<u8>) -> (r: Result<String, Error>)
    ensures
        valid_utf8(resp@) ==> (r matches Ok(s) && s@ == decode_utf8(resp@)),
        !valid_utf8(resp@) ==> r == Err::<String, Error>(Error::Unknown),
{
    match utf8_string(resp) {
        Some(s) => Ok(s),
        None => Err(Error::Unknown),
    }
}

/// What the reply to this request means: an error from the send comes
/// back unchanged; a payload is decoded by `serial_decode`.
pub fn serial_reply(reply: Result<Vec<u8>, Error>) -> (r: Result<String, Error>)
    ensures
        reply matches Err(e) ==> (r matches Err(x) && x == e),
        reply matches Ok(b) ==> (valid_utf8(b@) ==> (r matches Ok(s) && s@ == decode_utf8(b@))),
        reply matches Ok(b) ==> (!valid_utf8(b@) ==> r == Err::<String, Error>(Error::Unknown)),
{
    let b = reply?;
    serial_decode(b)
}

/// The request for the serial number.
pub fn serial_request() -> (q: InterfaceRequest)
    ensures
        is_request(q, InstID::Metadata, 0, FN_SERIAL, Seq::empty()),
{
    request(InstID::Metadata, 0, FN_SERIAL, Vec::new())
}

/// The request for the instance count of kind `id`.
pub fn num_inst_request(id: InstID) -> (q: InterfaceRequest)
    ensures
        is_request(q, InstID::Metadata, 0, FN_NUM_INST, le16(id.spec_id())),
{
    let mut p: Vec<u8> = Vec::new();
    push_u16(&mut p, id.id());
    request(InstID::Metadata, 0, FN_NUM_INST, p)
}

/// The echo request for `s`; `PacketFormat` when `s` is too long.
pub fn echo_request(s: Vec<u8>) -> (r: Result<InterfaceRequest, Error>)
    ensures
        s@.len() > MAX_PAYLOAD_LEN ==> r matches Err(Error::PacketFormat),
        s@.len() <= MAX_PAYLOAD_LEN ==> (r matches Ok(q) && is_request(q, InstID::Metadata, 0, FN_ECHO, s@)),
{
    gen_req(InstID::Metadata, 0, FN_ECHO, s)
}

/// The request for the request limit.
pub fn req_max_size_request() -> (q: InterfaceRequest)
    ensures
        is_request(q, InstID::Metadata, 0, FN_REQ_MAX_SIZE, Seq::empty()),
{
    request(InstID::Metadata, 0, FN_REQ_MAX_SIZE, Vec::new())
}

/// The request for the response limit.
pub fn resp_max_size_request() -> (q: InterfaceRequest)
    ensures
        is_request(q, InstID::Metadata, 0, FN_RESP_MAX_SIZE, Seq::empty()),
{
    request(InstID::Metadata, 0, FN_RESP_MAX_SIZE, Vec::new())
}

impl<I: Interface> Device<I> {
    /// The device's serial number: sends `serial_request()`.
    pub fn serial(&self) -> (r: Result<String, Error>)
        ensures
            r matches Err(e) ==> e != Error::NoError,
    {
        serial_reply(self.send(&serial_request()))
    }

    /// How many instances of kind `id` the device has: sends
    /// `num_inst_request(id)`; the reply must be one 16-bit value.
    pub fn num_inst(&self, id: InstID) -> (r: Result<usize, Error>)
        ensures
            r matches Ok(n) ==> n <= u16::MAX,
            r matches Err(e) ==> e != Error::NoError,
    {
        let n = u16_reply(self.send(&num_inst_request(id)))?;
        Ok(n as usize)
    }

    /// Sends `echo_request(s)` and returns what the device echoes back.
    pub fn echo(&self, s: Vec<u8>) -> (r: Result<Vec<u8>, Error>)
        ensures
            s@.len() > MAX_PAYLOAD_LEN ==> r == Err::<Vec<u8>, Error>(Error::PacketFormat),
            r matches Err(e) ==> e != Error::NoError,
            r matches Ok(v) ==> v@.len() <= MAX_PAYLOAD_LEN,
    {
        let q = echo_request(s)?;
        self.send(&q)
    }

    /// The largest request payload the device accepts: sends
    /// `req_max_size_request()`; the reply must be one 16-bit value.
    pub fn req_max_size(&self) -> (r: Result<usize, Error>)
        ensures
            r matches Ok(n) ==> n <= u16::MAX,
            r matches Err(e) ==> e != Error::NoError,
    {
        let n = u16_reply(self.send(&req_max_size_request()))?;
        Ok(n as usize)
    }

    /// The largest response payload the device sends: sends
    /// `resp_max_size_request()`; the reply must be one 16-bit value.
    pub fn resp_max_size(&self) -> (r: Result<usize, Error>)
        ensures
            r matches Ok(n) ==> n <= u16::MAX,
            r matches Err(e) ==> e != Error::NoError,
    {
        let n = u16_reply(self.send(&resp_max_size_request()))?;
        Ok(n as usize)
    }
}

} // verus!
