//! The PWM, DAC and ADC peripherals, in integer units: nanoseconds and
//! millivolts.
use vstd::prelude::*;
use crate::device::Device;
use crate::envelope::{ack_reply, exact_u32, is_request, request};
use crate::error::Error;
use crate::frame::{InterfaceRequest, le32, push_u32, u32_at};
use crate::interface::Interface;
use crate::metadata::InstID;

verus! {

pub const FN_PWM_WRITE: u16 = 0;
pub const FN_DAC_WRITE: u16 = 0;
pub const FN_ADC_READ: u16 = 0;

/// Encodes a PWM setting, both times in nanoseconds as 32-bit values;
/// `InvalidArgs` when either does not fit.
pub fn pwm_payload(pulsewidth_ns: u128, period_ns: u128) -> (r: Result<Vec<u8>, Error>)
    ensures
        pulsewidth_ns > u32::MAX || period_ns > u32::MAX ==> r == Err::<Vec<u8>, Error>(
            Error::InvalidArgs,
        ),
        pulsewidth_ns <= u32::MAX && period_ns <= u32::MAX ==> (r matches Ok(p) && p@ == le32(
            pulsewidth_ns as u32,
        ) + le32(period_ns as u32)),
{
    if pulsewidth_ns > u32::MAX as u128 || period_ns > u32::MAX as u128 {
        return Err(Error::InvalidArgs);
    }
    let mut p: Vec<u8> = Vec::new();
    push_u32(&mut p, pulsewidth_ns as u32);
    push_u32(&mut p, period_ns as u32);
    Ok(p)
}

/// Decodes an ADC reply: exactly one signed 32-bit millivolt reading.
pub fn adc_decode(resp: &[u8]) -> (r: Result<i32, Error>)
    ensures
        resp@.len() == 4 ==> r == Ok::<i32, Error>(u32_at(resp@, 0) as i32),
        resp@.len() != 4 ==> r == Err::<i32, Error>(Error::PacketFormat),
{
    let v = exact_u32(resp)?;
    Ok(v as i32)
}

/// What the reply to this request means: an error from the send comes
/// back unchanged; a payload is decoded by `adc_decode`.
pub fn adc_reply(reply: Result<Vec<u8>, Error>) -> (r: Result<i32, Error>)
    ensures
        reply matches Err(e) ==> (r matches Err(x) && x == e),
        reply matches Ok(b) ==> (b@.len() == 4 ==> r == Ok::<i32, Error>(u32_at(b@, 0) as i32)),
        reply matches Ok(b) ==> (b@.len() != 4 ==> r == Err::<i32, Error>(Error::PacketFormat)),
{
    let b = reply?;
    adc_decode(b.as_slice())
}

/// The PWM request; `InvalidArgs` when either time does not fit 32 bits.
pub fn pwm_write_request(idx: usize, pulsewidth_ns: u128, period_ns: u128) -> (r: Result<InterfaceRequest, Error>)
    ensures
        pulsewidth_ns > u32::MAX || period_ns > u32::MAX ==> r matches Err(Error::InvalidArgs),
        pulsewidth_ns <= u32::MAX && period_ns <= u32::MAX ==> (r matches Ok(q) && is_request(q, InstID::PWM, idx, FN_PWM_WRITE, le32(pulsewidth_ns as u32) + le32(period_ns as u32))),
{
    let p = pwm_payload(pulsewidth_ns, period_ns)?;
    Ok(request(InstID::PWM, idx, FN_PWM_WRITE, p))
}

pub fn dac_write_request(idx: usize, mv: i32) -> (q: InterfaceRequest)
    ensures
        is_request(q, InstID::DAC, idx, FN_DAC_WRITE, le32(mv as u32)),
{
    let mut p: Vec<u8> = Vec::new();
    push_u32(&mut p, mv as u32);
    request(InstID::DAC, idx, FN_DAC_WRITE, p)
}

pub fn adc_read_request(idx: usize) -> (q: InterfaceRequest)
    ensures
        is_request(q, InstID::ADC, idx, FN_ADC_READ, Seq::empty()),
{
    let p: Vec<u8> = Vec::new();
    request(InstID::ADC, idx, FN_ADC_READ, p)
}

impl<I: Interface> Device<I> {
    /// Drives a PWM output with the given pulse width and period, in
    /// nanoseconds: sends `pwm_write_request`, expects an empty reply;
    /// `InvalidArgs`, with nothing sent, when either does not fit 32 bits.
    pub fn pwm_write(&self, idx: usize, pulsewidth_ns: u128, period_ns: u128) -> (r: Result<(), Error>)
        ensures
            pulsewidth_ns > u32::MAX || period_ns > u32::MAX ==> r == Err::<(), Error>(
                Error::InvalidArgs,
            ),
            r matches Err(e) ==> e != Error::NoError,
    {
        let q = pwm_write_request(idx, pulsewidth_ns, period_ns)?;
        ack_reply(self.send(&q))
    }

    /// Sets a DAC output, in millivolts: sends `dac_write_request`, expects an
    /// empty reply.
    pub fn dac_write_mv(&self, idx: usize, mv: i32) -> (r: Result<(), Error>)
        ensures
            r matches Err(e) ==> e != Error::NoError,
    {
        ack_reply(self.send(&dac_write_request(idx, mv)))
    }

    /// Reads an ADC input, in millivolts: sends `adc_read_request`; the reply
    /// is decoded by `adc_decode`.
    pub fn adc_read_mv(&self, idx: usize) -> (r: Result<i32, Error>)
        ensures
            r matches Err(e) ==> e != Error::NoError,
    {
        adc_reply(self.send(&adc_read_request(idx)))
    }
}

} // verus!
