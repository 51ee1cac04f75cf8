//! The UART byte-stream transport: a request frame is written whole, then the
//! 4-byte response header and exactly as many payload bytes as it announces
//! are read back.
use vstd::prelude::*;
use crate::error::{Error, error_of};
use crate::device::{Device, Handshake, Transport};
use crate::frame::{
    InterfaceRequest, MAX_PAYLOAD_LEN, encode_request, le16, lemma_round_trip, lemma_u16_round_trip,
    read_u16, response_bytes, u16_at,
};
use crate::interface::{Interface, link_step, reply_of, reply_view, same_outcome, sent_outcome};

verus! {

#[verifier::external_type_specification]
#[verifier::external_body]
pub struct ExSystemPort(serial::SystemPort);

/// How long the port waits for bytes, in milliseconds.
pub const UART_TIMEOUT_MS: u64 = 2000;

/// Relies on std::io::Write::write_all, as serial's port implements it:
/// writes all of `buf`; `false` when it could not.
#[verifier::external_body]
fn port_write_all(port: &mut serial::SystemPort, buf: &[u8]) -> (r: bool) {
    std::io::Write::write_all(port, buf).is_ok()
}

/// Relies on std::io::Read::read_exact, as serial's port implements it: fills
/// `buf` from the port; `false` when it could not. The buffer keeps its length.
#[verifier::external_body]
fn port_read_exact(port: &mut serial::SystemPort, buf: &mut Vec<u8>) -> (r: bool)
    ensures
        final(buf)@.len() == old(buf)@.len(),
{
    std::io::Read::read_exact(port, buf.as_mut_slice()).is_ok()
}

/// What a response read off the stream means to the caller, given its
/// 4-byte header and the payload bytes that followed: a retcode of 0 gives the
/// payload, any other the kind it names.
pub open spec fn stream_outcome(h: Seq<u8>, body: Seq<u8>) -> Result<Seq<u8>, Error> {
    if (u16_at(h, 0) as i16) == 0 {
        Ok(body)
    } else {
        Err(error_of(u16_at(h, 0) as i16))
    }
}

/// Reads the payload length a response header announces.
pub fn header_len(hdr: &[u8]) -> (r: usize)
    requires
        hdr@.len() == 4,
    ensures
        r == u16_at(hdr@, 2),
{
    read_u16(hdr, 2) as usize
}

/// What the caller gets once the header and the announced payload have been
/// read: a broken payload read is a `PacketTimeout`; otherwise the header's
/// retcode decides, and a payload given back is the bytes read, as many as
/// the header announced.
pub fn stream_reply(hdr: &[u8], body_read: bool, body: Vec<u8>) -> (r: Result<Vec<u8>, Error>)
    requires
        hdr@.len() == 4,
        body@.len() == u16_at(hdr@, 2),
    ensures
        !body_read ==> r == Err::<Vec<u8>, Error>(Error::PacketTimeout),
        body_read ==> same_outcome(r, stream_outcome(hdr@, body@)),
        r matches Ok(p) ==> p@ == body@ && p@.len() == u16_at(hdr@, 2),
{
    if !body_read {
        return Err(Error::PacketTimeout);
    }
    let e = Error::from(read_u16(hdr, 0) as i16);
    match e {
        Error::NoError => Ok(body),
        _ => Err(e),
    }
}

/// Read off a stream or from one bulk buffer, a response frame means the same:
/// its first four bytes announce exactly the payload that follows, and the
/// stream's outcome is what the whole frame decodes to.
pub proof fn lemma_stream_agrees(retcode: i16, payload: Seq<u8>)
    requires
        payload.len() <= MAX_PAYLOAD_LEN,
    ensures
        ({
            let b = response_bytes(retcode, payload);
            &&& u16_at(b.subrange(0, 4), 2) == payload.len()
            &&& b.subrange(4, b.len() as int) == payload
            &&& stream_outcome(b.subrange(0, 4), payload) == reply_of(b)
        }),
{
    let b = response_bytes(retcode, payload);
    lemma_round_trip(0, 0, 0, payload, retcode);
    let h = b.subrange(0, 4);
    assert(h[0] == b[0] && h[1] == b[1] && h[2] == b[2] && h[3] == b[3]);
    lemma_u16_round_trip(retcode as u16, seq![], le16_tail(payload));
    lemma_u16_round_trip(payload.len() as u16, le16(retcode as u16), payload);
    assert(b == seq![] + le16(retcode as u16) + le16_tail(payload));
    assert(b.subrange(4, b.len() as int) =~= payload);
}

spec fn le16_tail(payload: Seq<u8>) -> Seq<u8> {
    le16(payload.len() as u16) + payload
}

/// One round trip on the stream: the whole frame is written, then the 4-byte
/// header and exactly the payload bytes it announces are read, whatever its
/// retcode, so that the next response starts clean.
fn uart_exchange(port: &mut serial::SystemPort, max_req_size: usize, req: &InterfaceRequest) -> (r:
    Result<Vec<u8>, Error>)
    ensures
        sent_outcome(req.payload@, r),
        req.payload@.len() > max_req_size ==> r == Err::<Vec<u8>, Error>(Error::PacketFormat),
{
    if req.payload.len() > max_req_size {
        return Err(Error::PacketFormat);
    }
    let breq = match encode_request(req) {
        Ok(v) => v,
        Err(_) => return Err(Error::PacketFormat),
    };
    link_step(port_write_all(port, breq.as_slice()))?;
    let mut hdr = vec![0u8; 4];
    link_step(port_read_exact(port, &mut hdr))?;
    let mut body = vec![0u8; header_len(hdr.as_slice())];
    let body_read = port_read_exact(port, &mut body);
    stream_reply(hdr.as_slice(), body_read, body)
}

/// An open serial port running the JABI protocol, and the negotiated request
/// limit.
pub struct UartInterface {
    port: serial::SystemPort,
    max_req_size: usize,
    sends: Ghost<nat>,
    resets: Ghost<nat>,
    last_reply: Ghost<Option<Result<Seq<u8>, Error>>>,
}

impl UartInterface {
    pub closed spec fn spec_max_req_size(self) -> usize {
        self.max_req_size
    }

    /// A transport over a configured port; the request limit starts at the
    /// largest payload a frame can carry.
    pub fn new(port: serial::SystemPort) -> (r: UartInterface)
        ensures
            r.spec_max_req_size() == MAX_PAYLOAD_LEN,
    {
        UartInterface {
            port,
            max_req_size: MAX_PAYLOAD_LEN,
            sends: Ghost(0),
            resets: Ghost(0),
            last_reply: Ghost(None),
        }
    }
}

impl Interface for UartInterface {
    closed spec fn sends(&self) -> nat {
        self.sends@
    }

    closed spec fn resets(&self) -> nat {
        self.resets@
    }

    closed spec fn last_reply(&self) -> Option<Result<Seq<u8>, Error>> {
        self.last_reply@
    }

    closed spec fn max_req(&self) -> nat {
        self.max_req_size as nat
    }

    fn send(&mut self, req: &InterfaceRequest) -> (r: Result<Vec<u8>, Error>) {
        let r = uart_exchange(&mut self.port, self.max_req_size, req);
        self.last_reply = Ghost(Some(reply_view(r)));
        self.sends = Ghost(self.sends@ + 1);
        r
    }

    fn set_max_req_size(&mut self, size: usize) {
        self.max_req_size = size;
    }

    /// The stream needs no response limit: each response announces its length.
    fn set_max_resp_size(&mut self, size: usize) {
    }

    /// The stream keeps no state to clear.
    fn reset(&mut self) {
        self.resets = Ghost(self.resets@ + 1);
    }
}

/// Opens a JABI device on a configured port: the device must answer one
/// request-size query, with no retry, whose answer then limits requests.
/// `Err` with the handshake's end when it does not answer: the port holds no
/// JABI device.
pub fn open_uart(port: serial::SystemPort) -> (r: Result<(Device, usize), Handshake>)
    ensures
        r matches Err(h) ==> h == (Handshake::Failed { at_resp: false }),
        r matches Ok((_, k)) ==> k <= u16::MAX,
{
    let dev = Device::new(Transport::Uart(UartInterface::new(port)));
    match dev.handshake(false, false) {
        Handshake::Done { req_size, .. } => Ok((dev, req_size)),
        h => Err(h),
    }
}

} // verus!
