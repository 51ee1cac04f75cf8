//! The device handle: one transport behind a lock, shared by every clone of
//! the handle, so that one request at a time is in flight.
use vstd::prelude::*;
use vstd::rwlock::{RwLock, RwLockPredicate};
use std::sync::Arc;
use crate::error::Error;
use crate::frame::InterfaceRequest;
use crate::interface::{Interface, send_with_reset, sent_outcome};
use crate::uart::UartInterface;
use crate::usb::UsbInterface;

verus! {

/// The link a device is reached over, chosen when it is found.
pub enum Transport {
    Usb(UsbInterface),
    Uart(UartInterface),
}

impl Interface for Transport {
    open spec fn sends(&self) -> nat {
        match self {
            Transport::Usb(u) => u.sends(),
            Transport::Uart(u) => u.sends(),
        }
    }

    open spec fn resets(&self) -> nat {
        match self {
            Transport::Usb(u) => u.resets(),
            Transport::Uart(u) => u.resets(),
        }
    }

    open spec fn last_reply(&self) -> Option<Result<Seq<u8>, Error>> {
        match self {
            Transport::Usb(u) => u.last_reply(),
            Transport::Uart(u) => u.last_reply(),
        }
    }

    open spec fn max_req(&self) -> nat {
        match self {
            Transport::Usb(u) => u.max_req(),
            Transport::Uart(u) => u.max_req(),
        }
    }

    fn send(&mut self, req: &InterfaceRequest) -> (r: Result<Vec<u8>, Error>) {
        match self {
            Transport::Usb(u) => u.send(req),
            Transport::Uart(u) => u.send(req),
        }
    }

    fn set_max_req_size(&mut self, size: usize) {
        match self {
            Transport::Usb(u) => u.set_max_req_size(size),
            Transport::Uart(u) => u.set_max_req_size(size),
        }
    }

    fn set_max_resp_size(&mut self, size: usize) {
        match self {
            Transport::Usb(u) => u.set_max_resp_size(size),
            Transport::Uart(u) => u.set_max_resp_size(size),
        }
    }

    fn reset(&mut self) {
        match self {
            Transport::Usb(u) => u.reset(),
            Transport::Uart(u) => u.reset(),
        }
    }
}

/// Where the size handshake stands.
#[derive(Debug, Clone, Copy, PartialEq, Eq, Structural)]
pub enum Handshake {
    /// Asking for the request limit; `retry` while one more try after a
    /// timeout is allowed.
    AskReqSize { retry: bool },
    /// The request limit is known; asking for the response limit.
    AskRespSize { req_size: usize },
    /// Finished: the limits learnt.
    Done { req_size: usize, resp_size: Option<usize> },
    /// Given up; `at_resp` when the response-limit query failed.
    Failed { at_resp: bool },
}

impl Handshake {
    /// Whether a query is still to be made.
    pub fn is_asking(&self) -> (b: bool)
        ensures
            b == (*self is AskReqSize || *self is AskRespSize),
    {
        match self {
            Handshake::AskReqSize { .. } | Handshake::AskRespSize { .. } => true,
            _ => false,
        }
    }
}

/// The next step of the handshake after `reply` to the current query: a
/// request limit moves on to the response limit when one is wanted; a
/// timeout on the request limit asks once more when a retry is left; any
/// other failure gives up.
pub open spec fn handshake_next_spec(st: Handshake, reply: Result<usize, Error>, with_resp_size: bool) -> Handshake {
    match st {
        Handshake::AskReqSize { retry } => match reply {
            Ok(k) => if with_resp_size {
                Handshake::AskRespSize { req_size: k }
            } else {
                Handshake::Done { req_size: k, resp_size: None }
            },
            Err(e) => if retry && e == Error::PacketTimeout {
                Handshake::AskReqSize { retry: false }
            } else {
                Handshake::Failed { at_resp: false }
            },
        },
        Handshake::AskRespSize { req_size } => match reply {
            Ok(k) => Handshake::Done { req_size, resp_size: Some(k) },
            Err(_) => Handshake::Failed { at_resp: true },
        },
        _ => st,
    }
}

pub fn handshake_next(st: Handshake, reply: &Result<usize, Error>, with_resp_size: bool) -> (r: Handshake)
    ensures
        r == handshake_next_spec(st, *reply, with_resp_size),
{
    match st {
        Handshake::AskReqSize { retry } => match reply {
            Ok(k) => if with_resp_size {
                Handshake::AskRespSize { req_size: *k }
            } else {
                Handshake::Done { req_size: *k, resp_size: None }
            },
            Err(e) => if retry && *e == Error::PacketTimeout {
                Handshake::AskReqSize { retry: false }
            } else {
                Handshake::Failed { at_resp: false }
            },
        },
        Handshake::AskRespSize { req_size } => match reply {
            Ok(k) => Handshake::Done { req_size, resp_size: Some(*k) },
            Err(_) => Handshake::Failed { at_resp: true },
        },
        _ => st,
    }
}

/// How many queries the handshake may still make.
pub open spec fn handshake_rank(st: Handshake) -> nat {
    match st {
        Handshake::AskReqSize { retry } => if retry {
            3
        } else {
            2
        },
        Handshake::AskRespSize { .. } => 1,
        _ => 0,
    }
}

/// What the lock holds of its transport: any transport will do.
pub struct AnyTransport;

impl<I> RwLockPredicate<I> for AnyTransport {
    open spec fn inv(self, v: I) -> bool {
        true
    }
}

/// A handle on one JABI device. Clones share the same transport and lock.
pub struct Device<I = Transport> {
    iface: Arc<RwLock<I, AnyTransport>>,
}

impl<I> Clone for Device<I> {
    fn clone(&self) -> (r: Device<I>) {
        Device { iface: Arc::clone(&self.iface) }
    }
}

impl<I: Interface> Device<I> {
    /// A handle that owns `iface`.
    pub fn new(iface: I) -> (r: Device<I>) {
        Device { iface: Arc::new(RwLock::new(iface, Ghost(AnyTransport))) }
    }

    /// Sends one request while holding the lock for the whole round trip, by
    /// `send_with_reset`, whose contract states the reset policy on the
    /// transport: one send, one reset exactly after a timeout, the reply
    /// returned as it came. The transport's model stays behind the lock, so
    /// this contract keeps only what holds of the reply.
    pub fn send(&self, req: &InterfaceRequest) -> (r: Result<Vec<u8>, Error>)
        ensures
            sent_outcome(req.payload@, r),
    {
        let (mut t, handle) = self.iface.acquire_write();
        let r = send_with_reset(&mut t, req);
        handle.release_write(t);
        r
    }

    /// Learns the device's size limits and sets them on the transport, step
    /// by step as `handshake_next` says: the request limit, asked once more
    /// after a timeout only when `retry_on_timeout`, is set as soon as it is
    /// known; the response limit, asked only when `with_resp_size` and only
    /// after the request limit, is set once known. Returns where it ended.
    pub fn handshake(&self, retry_on_timeout: bool, with_resp_size: bool) -> (r: Handshake)
        ensures
            r is Done || r is Failed,
            r matches Handshake::Done { resp_size, .. } ==> (resp_size is Some <==> with_resp_size),
            r matches Handshake::Done { req_size, resp_size } ==> req_size <= u16::MAX && (
            resp_size matches Some(k) ==> k <= u16::MAX),
            r matches Handshake::Failed { at_resp } ==> (at_resp ==> with_resp_size),
    {
        let mut st = Handshake::AskReqSize { retry: retry_on_timeout };
        while st.is_asking()
            invariant
                st matches Handshake::AskRespSize { req_size } ==> with_resp_size && req_size
                    <= u16::MAX,
                st matches Handshake::Done { resp_size, .. } ==> (resp_size is Some
                    <==> with_resp_size),
                st matches Handshake::Done { req_size, resp_size } ==> req_size <= u16::MAX && (
                resp_size matches Some(k) ==> k <= u16::MAX),
                st matches Handshake::Failed { at_resp } ==> (at_resp ==> with_resp_size),
            decreases handshake_rank(st),
        {
            let reply = match st {
                Handshake::AskRespSize { .. } => self.resp_max_size(),
                _ => self.req_max_size(),
            };
            let next = handshake_next(st, &reply, with_resp_size);
            match next {
                Handshake::AskRespSize { req_size } => self.set_max_req_size(req_size),
                Handshake::Done { req_size, resp_size } => match resp_size {
                    Some(k) => self.set_max_resp_size(k),
                    None => self.set_max_req_size(req_size),
                },
                _ => {},
            }
            st = next;
        }
        st
    }

    /// Sets the transport's request limit.
    pub fn set_max_req_size(&self, size: usize) {
        let (mut t, handle) = self.iface.acquire_write();
        t.set_max_req_size(size);
        handle.release_write(t);
    }

    /// Sets the transport's response limit.
    pub fn set_max_resp_size(&self, size: usize) {
        let (mut t, handle) = self.iface.acquire_write();
        t.set_max_resp_size(size);
        handle.release_write(t);
    }
}

} // verus!
