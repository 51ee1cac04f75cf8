//! The transport capability shared by the USB and UART links, and the
//! reset-after-timeout policy applied on top of any of them.
use vstd::prelude::*;
use crate::error::{Error, error_of};
use crate::frame::{InterfaceRequest, InterfaceResponse, MAX_PAYLOAD_LEN, response_of};

verus! {

/// A link that carries one request and brings back its response payload.
///
/// Its model: how many requests it has sent, how many resets it has gone
/// through, the last reply it gave, and the largest request payload it lets
/// through. The default model is constant: it is what an unverified stand-in
/// (a test double) has. A verified link must define its own, since `send`'s
/// contract cannot hold of a constant model.
pub trait Interface {
    open spec fn sends(&self) -> nat {
        0
    }

    open spec fn resets(&self) -> nat {
        0
    }

    open spec fn last_reply(&self) -> Option<Result<Seq<u8>, Error>> {
        None
    }

    open spec fn max_req(&self) -> nat {
        0
    }

    /// Sends one request and blocks for its response; the payload on success,
    /// the failure kind otherwise. A payload over the request limit, or too
    /// long for a frame, is refused with `PacketFormat`.
    fn send(&mut self, req: &InterfaceRequest) -> (r: Result<Vec<u8>, Error>)
        ensures
            sent_outcome(req.payload@, r),
            req.payload@.len() > old(self).max_req() ==> r == Err::<Vec<u8>, Error>(
                Error::PacketFormat,
            ),
            final(self).last_reply() == Some(reply_view(r)),
            final(self).sends() == old(self).sends() + 1,
            final(self).resets() == old(self).resets(),
            final(self).max_req() == old(self).max_req(),
    ;

    /// Sets the largest request payload the far end accepts.
    fn set_max_req_size(&mut self, size: usize)
        ensures
            final(self).max_req() == size,
            final(self).sends() == old(self).sends(),
            final(self).resets() == old(self).resets(),
            final(self).last_reply() == old(self).last_reply(),
    ;

    /// Sets the largest response payload the far end sends.
    fn set_max_resp_size(&mut self, size: usize)
        ensures
            final(self).max_req() == old(self).max_req(),
            final(self).sends() == old(self).sends(),
            final(self).resets() == old(self).resets(),
            final(self).last_reply() == old(self).last_reply(),
    ;

    /// Brings the link back to a clean state after a timeout.
    fn reset(&mut self)
        ensures
            final(self).resets() == old(self).resets() + 1,
            final(self).sends() == old(self).sends(),
            final(self).max_req() == old(self).max_req(),
            final(self).last_reply() == old(self).last_reply(),
    ;
}

/// A send result as plain values.
pub open spec fn reply_view(r: Result<Vec<u8>, Error>) -> Result<Seq<u8>, Error> {
    match r {
        Ok(v) => Ok(v@),
        Err(e) => Err(e),
    }
}

/// What every send guarantees, whatever the link did: a payload too long for
/// a frame is refused with `PacketFormat`, a payload received fits a frame,
/// and a failure never claims success.
pub open spec fn sent_outcome(payload: Seq<u8>, r: Result<Vec<u8>, Error>) -> bool {
    &&& payload.len() > MAX_PAYLOAD_LEN ==> r == Err::<Vec<u8>, Error>(Error::PacketFormat)
    &&& r matches Ok(p) ==> p@.len() <= MAX_PAYLOAD_LEN
    &&& r matches Err(e) ==> e != Error::NoError
}

/// What a response with this retcode and payload means to the caller.
pub open spec fn outcome_of(retcode: i16, payload: Seq<u8>) -> Result<Seq<u8>, Error> {
    if retcode == 0 {
        Ok(payload)
    } else {
        Err(error_of(retcode))
    }
}

/// What a received frame means to the caller: a frame that does not parse is
/// a `PacketFormat` failure.
pub open spec fn reply_of(b: Seq<u8>) -> Result<Seq<u8>, Error> {
    match response_of(b) {
        Some((rc, p)) => outcome_of(rc, p),
        None => Err(Error::PacketFormat),
    }
}

/// Whether a result, seen as a spec-level outcome, matches `o`.
pub open spec fn same_outcome(r: Result<Vec<u8>, Error>, o: Result<Seq<u8>, Error>) -> bool {
    match (r, o) {
        (Ok(v), Ok(p)) => v@ == p,
        (Err(e), Err(f)) => e == f,
        _ => false,
    }
}

/// Maps a parsed response to the payload, or to the kind its retcode names.
pub fn response_result(resp: InterfaceResponse) -> (r: Result<Vec<u8>, Error>)
    ensures
        same_outcome(r, outcome_of(resp.retcode, resp.payload@)),
{
    let e = Error::from(resp.retcode);
    match e {
        Error::NoError => Ok(resp.payload),
        _ => Err(e),
    }
}

/// The reset policy between a link's state before a send and after it: the
/// request was sent once, with no retry; the result is the link's reply; and
/// the link went through one reset exactly when that reply was a timeout.
pub open spec fn reset_policy<I: Interface>(before: I, after: I, r: Result<Vec<u8>, Error>) -> bool {
    &&& after.sends() == before.sends() + 1
    &&& after.last_reply() == Some(reply_view(r))
    &&& after.resets() == before.resets() + (if r == Err::<Vec<u8>, Error>(Error::PacketTimeout) {
        1nat
    } else {
        0nat
    })
}

/// What one write or read on the link means to the caller: a transfer that
/// did not complete is a `PacketTimeout`, on either transport.
pub fn link_step(done: bool) -> (r: Result<(), Error>)
    ensures
        done ==> r == Ok::<(), Error>(()),
        !done ==> r == Err::<(), Error>(Error::PacketTimeout),
{
    if done {
        Ok(())
    } else {
        Err(Error::PacketTimeout)
    }
}

/// Whether a send result calls for a reset of the link: a timeout, and
/// nothing else, does.
pub fn wants_reset(r: &Result<Vec<u8>, Error>) -> (b: bool)
    ensures
        b == (*r matches Err(Error::PacketTimeout)),
{
    match r {
        Err(Error::PacketTimeout) => true,
        _ => false,
    }
}

/// Sends on `iface`; after a timeout the link is reset once, its own outcome
/// ignored, and the timeout is still reported. Any other result is returned
/// as it came, with no reset.
pub fn send_with_reset<I: Interface>(iface: &mut I, req: &InterfaceRequest) -> (r: Result<
    Vec<u8>,
    Error,
>)
    ensures
        sent_outcome(req.payload@, r),
        reset_policy(*old(iface), *final(iface), r),
        final(iface).last_reply() == Some(reply_view(r)),
        final(iface).resets() == old(iface).resets() + (if r == Err::<Vec<u8>, Error>(
            Error::PacketTimeout,
        ) {
            1nat
        } else {
            0nat
        }),
        final(iface).max_req() == old(iface).max_req(),
{
    let r = iface.send(req);
    if wants_reset(&r) {
        iface.reset();
        return Err(Error::PacketTimeout);
    }
    r
}

} // verus!
