//! The wire frames: a request is a 6-byte little-endian header
//! (`periph_id`, `periph_idx`, `periph_fn`) and the payload length, followed
//! by the payload; a response is a signed retcode and the payload length,
//! followed by exactly that many payload bytes.
use vstd::prelude::*;
use crate::error::Error;

verus! {

/// The longest payload whose length fits the 16-bit length field.
pub const MAX_PAYLOAD_LEN: usize = 65535;

/// Little-endian bytes of a 16-bit value.
pub open spec fn le16(v: u16) -> Seq<u8> {
    seq![(v % 256) as u8, (v / 256) as u8]
}

/// Little-endian bytes of a 32-bit value.
pub open spec fn le32(v: u32) -> Seq<u8> {
    seq![(v % 256) as u8, (v / 256 % 256) as u8, (v / 65536 % 256) as u8, (v / 16777216) as u8]
}

/// The 16-bit value whose little-endian bytes start at `i`.
pub open spec fn u16_at(b: Seq<u8>, i: int) -> u16 {
    (b[i] + 256 * b[i + 1]) as u16
}

/// The 32-bit value whose little-endian bytes start at `i`.
pub open spec fn u32_at(b: Seq<u8>, i: int) -> u32 {
    (b[i] + 256 * b[i + 1] + 65536 * b[i + 2] + 16777216 * b[i + 3]) as u32
}

pub proof fn lemma_u16_round_trip(v: u16, prefix: Seq<u8>, suffix: Seq<u8>)
    ensures
        u16_at(prefix + le16(v) + suffix, prefix.len() as int) == v,
{
    let b = prefix + le16(v) + suffix;
    let i = prefix.len() as int;
    assert(b[i] == (v % 256) as u8);
    assert(b[i + 1] == (v / 256) as u8);
}

/// Appends the little-endian bytes of `v`.
pub fn push_u16(out: &mut Vec<u8>, v: u16)
    ensures
        final(out)@ == old(out)@ + le16(v),
{
    out.push((v % 256) as u8);
    out.push((v / 256) as u8);
    assert(final(out)@ =~= old(out)@ + le16(v));
}

/// Appends the little-endian bytes of `v`.
pub fn push_u32(out: &mut Vec<u8>, v: u32)
    ensures
        final(out)@ == old(out)@ + le32(v),
{
    out.push((v % 256) as u8);
    out.push((v / 256 % 256) as u8);
    out.push((v / 65536 % 256) as u8);
    out.push((v / 16777216) as u8);
    assert(final(out)@ =~= old(out)@ + le32(v));
}

/// Appends all of `data`.
pub fn push_all(out: &mut Vec<u8>, data: &[u8])
    ensures
        final(out)@ == old(out)@ + data@,
{
    let mut i: usize = 0;
    while i < data.len()
        invariant
            i <= data@.len(),
            out@ == old(out)@ + data@.subrange(0, i as int),
        decreases data@.len() - i,
    {
        out.push(data[i]);
        i = i + 1;
        assert(out@ =~= old(out)@ + data@.subrange(0, i as int));
    }
    assert(data@.subrange(0, i as int) =~= data@);
}

/// Reads the 16-bit little-endian value at `i`.
pub fn read_u16(b: &[u8], i: usize) -> (r: u16)
    requires
        i + 2 <= b@.len(),
    ensures
        r == u16_at(b@, i as int),
{
    (b[i] as u16) + 256 * (b[i + 1] as u16)
}

/// Reads the 32-bit little-endian value at `i`.
pub fn read_u32(b: &[u8], i: usize) -> (r: u32)
    requires
        i + 4 <= b@.len(),
    ensures
        r == u32_at(b@, i as int),
{
    (b[i] as u32) + 256 * (b[i + 1] as u32) + 65536 * (b[i + 2] as u32) + 16777216 * (b[i
        + 3] as u32)
}

/// `n` zero bytes.
pub fn zeros(n: usize) -> (r: Vec<u8>)
    ensures
        r@ == Seq::new(n as nat, |i: int| 0u8),
{
    let mut r: Vec<u8> = Vec::new();
    let mut i: usize = 0;
    while i < n
        invariant
            i <= n,
            r@ == Seq::new(i as nat, |j: int| 0u8),
        decreases n - i,
    {
        r.push(0u8);
        i = i + 1;
        assert(r@ =~= Seq::new(i as nat, |j: int| 0u8));
    }
    r
}

/// Copies `b[from..]`.
pub fn tail_of(b: &[u8], from: usize) -> (r: Vec<u8>)
    requires
        from <= b@.len(),
    ensures
        r@ == b@.subrange(from as int, b@.len() as int),
{
    let mut r: Vec<u8> = Vec::new();
    let mut i: usize = from;
    while i < b.len()
        invariant
            from <= i <= b@.len(),
            r@ == b@.subrange(from as int, i as int),
        decreases b@.len() - i,
    {
        r.push(b[i]);
        i = i + 1;
        assert(r@ =~= b@.subrange(from as int, i as int));
    }
    r
}

/// One request to one peripheral instance. `payload_len` mirrors the length of
/// `payload`; the encoder always writes the payload's actual length.
pub struct InterfaceRequest {
    pub periph_id: u16,
    pub periph_idx: u16,
    pub periph_fn: u16,
    pub payload_len: u16,
    pub payload: Vec<u8>,
}

/// One response: `retcode` 0 is success, any other value a device-reported
/// failure; `payload` holds exactly `payload_len` bytes.
pub struct InterfaceResponse {
    pub retcode: i16,
    pub payload_len: u16,
    pub payload: Vec<u8>,
}

/// The bytes of a request frame.
pub open spec fn request_bytes(periph_id: u16, periph_idx: u16, periph_fn: u16, payload: Seq<
    u8,
>) -> Seq<u8> {
    le16(periph_id) + le16(periph_idx) + le16(periph_fn) + le16(payload.len() as u16) + payload
}

/// The header fields and payload that a request frame holds, if it is one.
pub open spec fn request_of(b: Seq<u8>) -> Option<(u16, u16, u16, Seq<u8>)> {
    if b.len() >= 8 && b.len() - 8 == u16_at(b, 6) {
        Some((u16_at(b, 0), u16_at(b, 2), u16_at(b, 4), b.subrange(8, b.len() as int)))
    } else {
        None
    }
}

/// The bytes of a response frame.
pub open spec fn response_bytes(retcode: i16, payload: Seq<u8>) -> Seq<u8> {
    le16(retcode as u16) + le16(payload.len() as u16) + payload
}

/// The retcode and payload that a response frame holds, if it is one: the
/// payload must be exactly as long as the length field says.
pub open spec fn response_of(b: Seq<u8>) -> Option<(i16, Seq<u8>)> {
    if b.len() >= 4 && b.len() - 4 == u16_at(b, 2) {
        Some((u16_at(b, 0) as i16, b.subrange(4, b.len() as int)))
    } else {
        None
    }
}

impl InterfaceRequest {
    /// A request whose length field matches its payload; `PacketFormat` when
    /// the payload is longer than the length field can say.
    pub fn new(periph_id: u16, periph_idx: u16, periph_fn: u16, payload: Vec<u8>) -> (r: Result<
        InterfaceRequest,
        Error,
    >)
        ensures
            payload@.len() > MAX_PAYLOAD_LEN ==> r == Err::<InterfaceRequest, Error>(
                Error::PacketFormat,
            ),
            payload@.len() <= MAX_PAYLOAD_LEN ==> (r matches Ok(q) && q.periph_id == periph_id
                && q.periph_idx == periph_idx && q.periph_fn == periph_fn && q.payload@
                == payload@ && q.payload_len == payload@.len()),
    {
        if payload.len() > MAX_PAYLOAD_LEN {
            return Err(Error::PacketFormat);
        }
        let payload_len = payload.len() as u16;
        Ok(InterfaceRequest { periph_id, periph_idx, periph_fn, payload_len, payload })
    }
}

/// Serialises a request; its length field is taken from the payload itself.
/// Fails with `PacketFormat`, and only then, when the payload is too long.
pub fn encode_request(req: &InterfaceRequest) -> (r: Result<Vec<u8>, Error>)
    ensures
        req.payload@.len() > MAX_PAYLOAD_LEN ==> r == Err::<Vec<u8>, Error>(Error::PacketFormat),
        req.payload@.len() <= MAX_PAYLOAD_LEN ==> (r matches Ok(b) && b@ == request_bytes(
            req.periph_id,
            req.periph_idx,
            req.periph_fn,
            req.payload@,
        )),
{
    if req.payload.len() > MAX_PAYLOAD_LEN {
        return Err(Error::PacketFormat);
    }
    let mut out: Vec<u8> = Vec::new();
    push_u16(&mut out, req.periph_id);
    push_u16(&mut out, req.periph_idx);
    push_u16(&mut out, req.periph_fn);
    push_u16(&mut out, req.payload.len() as u16);
    push_all(&mut out, req.payload.as_slice());
    Ok(out)
}

/// Parses one complete response frame; `PacketFormat` when the bytes after the
/// header are fewer or more than the length field says.
pub fn decode_response(b: &[u8]) -> (r: Result<InterfaceResponse, Error>)
    ensures
        response_of(b@) is None ==> r == Err::<InterfaceResponse, Error>(Error::PacketFormat),
        response_of(b@) matches Some((rc, p)) ==> (r matches Ok(resp) && resp.retcode == rc
            && resp.payload@ == p && resp.payload_len == p.len()),
{
    if b.len() < 4 {
        return Err(Error::PacketFormat);
    }
    let len = read_u16(b, 2);
    if b.len() - 4 != len as usize {
        return Err(Error::PacketFormat);
    }
    let retcode = read_u16(b, 0) as i16;
    let payload = tail_of(b, 4);
    Ok(InterfaceResponse { retcode, payload_len: len, payload })
}

/// Decoding the bytes of an encoded request gives back its header fields and
/// payload, field by field; the same holds of response frames.
pub proof fn lemma_round_trip(
    periph_id: u16,
    periph_idx: u16,
    periph_fn: u16,
    payload: Seq<u8>,
    retcode: i16,
)
    requires
        payload.len() <= MAX_PAYLOAD_LEN,
    ensures
        request_of(request_bytes(periph_id, periph_idx, periph_fn, payload)) == Some(
            (periph_id, periph_idx, periph_fn, payload),
        ),
        response_of(response_bytes(retcode, payload)) == Some((retcode, payload)),
{
    let b = request_bytes(periph_id, periph_idx, periph_fn, payload);
    let n = payload.len() as u16;
    lemma_u16_round_trip(periph_id, seq![], le16(periph_idx) + le16(periph_fn) + le16(n) + payload);
    assert(b == seq![] + le16(periph_id) + (le16(periph_idx) + le16(periph_fn) + le16(n) + payload));
    lemma_u16_round_trip(periph_idx, le16(periph_id), le16(periph_fn) + le16(n) + payload);
    assert(b == le16(periph_id) + le16(periph_idx) + (le16(periph_fn) + le16(n) + payload));
    lemma_u16_round_trip(periph_fn, le16(periph_id) + le16(periph_idx), le16(n) + payload);
    assert(b == (le16(periph_id) + le16(periph_idx)) + le16(periph_fn) + (le16(n) + payload));
    lemma_u16_round_trip(n, le16(periph_id) + le16(periph_idx) + le16(periph_fn), payload);
    assert(b.subrange(8, b.len() as int) =~= payload);

    let c = response_bytes(retcode, payload);
    let rc = retcode as u16;
    lemma_u16_round_trip(rc, seq![], le16(n) + payload);
    assert(c == seq![] + le16(rc) + (le16(n) + payload));
    lemma_u16_round_trip(n, le16(rc), payload);
    assert(c.subrange(4, c.len() as int) =~= payload);
    assert(((retcode as u16) as i16) == retcode) by (bit_vector);
}

/// A response decodes only when exactly the announced number of payload bytes
/// follows the header: one byte short, or one byte extra, is rejected.
pub proof fn lemma_exact_length(retcode: i16, payload: Seq<u8>, extra: u8)
    requires
        payload.len() <= MAX_PAYLOAD_LEN,
    ensures
        response_of(response_bytes(retcode, payload)) is Some,
        response_of(response_bytes(retcode, payload).push(extra)) is None,
        payload.len() > 0 ==> response_of(response_bytes(retcode, payload).drop_last()) is None,
{
    lemma_round_trip(0, 0, 0, payload, retcode);
    let c = response_bytes(retcode, payload);
    let n = payload.len() as u16;
    lemma_u16_round_trip(n, le16(retcode as u16), payload);
    assert(c == le16(retcode as u16) + le16(n) + payload);
    assert(c.push(extra)[2] == c[2] && c.push(extra)[3] == c[3]);
    if payload.len() > 0 {
        assert(c.drop_last()[2] == c[2] && c.drop_last()[3] == c[3]);
    }
}

} // verus!
