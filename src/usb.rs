//! The USB bulk transport and the descriptor rules by which a JABI interface
//! is recognised among arbitrary USB devices.
use vstd::prelude::*;
use crate::error::Error;
use crate::frame::{InterfaceRequest, MAX_PAYLOAD_LEN, decode_response, encode_request};
use crate::device::{Device, Handshake, Transport};
use crate::interface::{Interface, link_step, reply_of, reply_view, response_result, same_outcome, sent_outcome};

verus! {

/// An open USB device: the handle through which its interface is claimed
/// and its bulk endpoints are used. Its contents are opaque to proofs.
#[verifier::external_body]
pub struct UsbHandle {
    pub handle: rusb::DeviceHandle<rusb::GlobalContext>,
}

/// A USB device found on the bus, not yet opened. Its contents are opaque to
/// proofs.
#[verifier::external_body]
pub struct UsbDevice {
    pub device: rusb::Device<rusb::GlobalContext>,
}

/// Relies on rusb::Device::open: opens the device; `None` when it cannot be
/// opened.
#[verifier::external_body]
fn open_device(d: &UsbDevice) -> (r: Option<UsbHandle>) {
    match d.device.open() {
        Ok(handle) => Some(UsbHandle { handle }),
        Err(_) => None,
    }
}

/// Relies on rusb::DeviceHandle::read_string_descriptor_ascii: the string
/// descriptor at `index`; `None` when it cannot be read.
#[verifier::external_body]
fn read_string(h: &UsbHandle, index: u8) -> (r: Option<String>) {
    h.handle.read_string_descriptor_ascii(index).ok()
}

/// Relies on rusb::DeviceHandle::claim_interface: claims interface `number`
/// for this process; `false` when it could not.
#[verifier::external_body]
fn claim_interface(h: &UsbHandle, number: u8) -> (r: bool) {
    h.handle.claim_interface(number).is_ok()
}

/// How long one bulk transfer may take, in milliseconds.
pub const USB_TIMEOUT_MS: u64 = 2000;

/// Relies on rusb::DeviceHandle::write_bulk: one bulk OUT transfer of `buf`
/// to `endpoint` within `timeout_ms` milliseconds, giving the count of bytes
/// written, or `None` on failure.
#[verifier::external_body]
fn write_bulk(dev: &UsbHandle, endpoint: u8, buf: &[u8], timeout_ms: u64) -> (r: Option<usize>) {
    dev.handle.write_bulk(endpoint, buf, std::time::Duration::from_millis(timeout_ms)).ok()
}

/// Relies on rusb::DeviceHandle::read_bulk: one bulk IN transfer from
/// `endpoint` into `buf` within `timeout_ms` milliseconds, giving the count
/// of bytes read, or `None` on failure. The buffer keeps its length.
#[verifier::external_body]
fn read_bulk(dev: &UsbHandle, endpoint: u8, buf: &mut Vec<u8>, timeout_ms: u64) -> (r: Option<usize>)
    ensures
        final(buf)@.len() == old(buf)@.len(),
{
    let timeout = std::time::Duration::from_millis(timeout_ms);
    dev.handle.read_bulk(endpoint, buf.as_mut_slice(), timeout).ok()
}

/// Relies on rusb::DeviceHandle::reset: a USB port reset of the device;
/// `false` when it failed.
#[verifier::external_body]
fn reset_device(dev: &UsbHandle) -> (r: bool) {
    dev.handle.reset().is_ok()
}

/// Whether a frame of `len` bytes must be followed by a zero-length packet:
/// exactly when it fills whole packets, since only a short packet tells the
/// device that the transfer is over.
pub fn needs_zlp(len: usize, packet_size: usize) -> (b: bool)
    requires
        packet_size > 0,
    ensures
        b == (len % packet_size == 0),
{
    len % packet_size == 0
}

/// What a bulk write means to the caller: anything but the whole frame
/// written is a `PacketTimeout`.
pub fn write_outcome(written: Option<usize>, frame_len: usize) -> (r: Result<(), Error>)
    ensures
        written == Some(frame_len) ==> r == Ok::<(), Error>(()),
        written != Some(frame_len) ==> r == Err::<(), Error>(Error::PacketTimeout),
{
    match written {
        Some(n) => {
            if n == frame_len {
                Ok(())
            } else {
                Err(Error::PacketTimeout)
            }
        },
        None => Err(Error::PacketTimeout),
    }
}

/// What a bulk read into `buf` means to the caller: a failed read is a
/// `PacketTimeout`; a count over the buffer's length, or a frame that does
/// not parse, is a `PacketFormat` failure; otherwise the frame read decides.
pub fn bulk_reply(buf: Vec<u8>, read: Option<usize>) -> (r: Result<Vec<u8>, Error>)
    ensures
        read is None ==> r == Err::<Vec<u8>, Error>(Error::PacketTimeout),
        read matches Some(n) ==> (n > buf@.len() ==> r == Err::<Vec<u8>, Error>(
            Error::PacketFormat,
        )),
        read matches Some(n) ==> (n <= buf@.len() ==> same_outcome(
            r,
            reply_of(buf@.subrange(0, n as int)),
        )),
{
    let n = match read {
        Some(n) => n,
        None => return Err(Error::PacketTimeout),
    };
    if n > buf.len() {
        return Err(Error::PacketFormat);
    }
    let mut buf = buf;
    buf.truncate(n);
    match decode_response(buf.as_slice()) {
        Ok(resp) => response_result(resp),
        Err(e) => Err(e),
    }
}

/// An open, claimed JABI interface: its two bulk endpoints, the OUT endpoint's
/// packet size, and the negotiated request and response limits.
pub struct UsbInterface {
    dev: UsbHandle,
    ep_out_pkt_size: usize,
    ep_out: u8,
    ep_in: u8,
    max_req_size: usize,
    max_resp_size: usize,
    sends: Ghost<nat>,
    resets: Ghost<nat>,
    last_reply: Ghost<Option<Result<Seq<u8>, Error>>>,
}

impl UsbInterface {
    #[verifier::type_invariant]
    spec fn inv(self) -> bool {
        &&& self.ep_out_pkt_size > 0
        &&& self.max_resp_size <= MAX_PAYLOAD_LEN
    }

    pub closed spec fn spec_max_req_size(self) -> usize {
        self.max_req_size
    }

    pub closed spec fn spec_max_resp_size(self) -> usize {
        self.max_resp_size
    }

    pub closed spec fn spec_ep_out(self) -> u8 {
        self.ep_out
    }

    pub closed spec fn spec_ep_in(self) -> u8 {
        self.ep_in
    }

    pub closed spec fn spec_ep_out_pkt_size(self) -> usize {
        self.ep_out_pkt_size
    }

    /// A transport over `dev`; `None` when the OUT packet size is 0. Both
    /// limits start at the largest payload a frame can carry.
    pub fn new(dev: UsbHandle, ep_out: u8, ep_in: u8, ep_out_pkt_size: u16) -> (r: Option<
        UsbInterface,
    >)
        ensures
            ep_out_pkt_size == 0 <==> r is None,
            r matches Some(u) ==> u.spec_max_req_size() == MAX_PAYLOAD_LEN
                && u.spec_max_resp_size() == MAX_PAYLOAD_LEN && u.spec_ep_out() == ep_out
                && u.spec_ep_in() == ep_in && u.spec_ep_out_pkt_size() == ep_out_pkt_size,
    {
        if ep_out_pkt_size == 0 {
            return None;
        }
        Some(UsbInterface {
            dev,
            ep_out_pkt_size: ep_out_pkt_size as usize,
            ep_out,
            ep_in,
            max_req_size: MAX_PAYLOAD_LEN,
            max_resp_size: MAX_PAYLOAD_LEN,
            sends: Ghost(0),
            resets: Ghost(0),
            last_reply: Ghost(None),
        })
    }

    /// One round trip: the frame is written, followed by a zero-length packet
    /// when it fills whole packets, then one bulk read of up to
    /// `4 + max_resp_size` bytes is parsed.
    fn exchange(&self, req: &InterfaceRequest) -> (r: Result<Vec<u8>, Error>)
        ensures
            sent_outcome(req.payload@, r),
            req.payload@.len() > self.max_req_size ==> r == Err::<Vec<u8>, Error>(
                Error::PacketFormat,
            ),
    {
        proof {
            use_type_invariant(self);
        }
        if req.payload.len() > self.max_req_size {
            return Err(Error::PacketFormat);
        }
        let breq = match encode_request(req) {
            Ok(v) => v,
            Err(_) => return Err(Error::PacketFormat),
        };
        write_outcome(write_bulk(&self.dev, self.ep_out, breq.as_slice(), USB_TIMEOUT_MS), breq.len())?;
        if needs_zlp(breq.len(), self.ep_out_pkt_size) {
            let zlp: Vec<u8> = Vec::new();
            link_step(write_bulk(&self.dev, self.ep_out, zlp.as_slice(), USB_TIMEOUT_MS).is_some())?;
        }
        let mut buf = vec![0u8; 4 + self.max_resp_size];
        let read = read_bulk(&self.dev, self.ep_in, &mut buf, USB_TIMEOUT_MS);
        bulk_reply(buf, read)
    }
}

impl Interface for UsbInterface {
    closed spec fn sends(&self) -> nat {
        self.sends@
    }

    closed spec fn resets(&self) -> nat {
        self.resets@
    }

    closed spec fn last_reply(&self) -> Option<Result<Seq<u8>, Error>> {
        self.last_reply@
    }

    closed spec fn max_req(&self) -> nat {
        self.max_req_size as nat
    }

    fn send(&mut self, req: &InterfaceRequest) -> (r: Result<Vec<u8>, Error>) {
        let r = self.exchange(req);
        proof {
            use_type_invariant(&*self);
        }
        self.last_reply = Ghost(Some(reply_view(r)));
        self.sends = Ghost(self.sends@ + 1);
        r
    }

    fn set_max_req_size(&mut self, size: usize) {
        proof {
            use_type_invariant(&*self);
        }
        self.max_req_size = size;
    }

    fn set_max_resp_size(&mut self, size: usize) {
        proof {
            use_type_invariant(&*self);
        }
        self.max_resp_size = if size > MAX_PAYLOAD_LEN {
            MAX_PAYLOAD_LEN
        } else {
            size
        };
    }

    fn reset(&mut self) {
        let _ = reset_device(&self.dev);
        proof {
            use_type_invariant(&*self);
        }
        self.resets = Ghost(self.resets@ + 1);
    }
}

/// The interface class code of vendor-specific interfaces.
pub const VENDOR_SPECIFIC_CLASS: u8 = 0xFF;

/// What discovery reads of one endpoint descriptor.
#[derive(Debug, Clone, Copy, PartialEq, Eq, Structural)]
pub struct EndpointInfo {
    pub address: u8,
    pub is_bulk: bool,
    pub is_in: bool,
    pub max_packet_size: u16,
}

/// What discovery reads of one interface alternate setting.
pub struct AltSettingInfo {
    pub setting_number: u8,
    pub class_code: u8,
    pub string_index: Option<u8>,
    pub endpoints: Vec<EndpointInfo>,
}

/// The two bulk endpoints of a JABI interface.
#[derive(Debug, Clone, Copy, PartialEq, Eq, Structural)]
pub struct BulkPair {
    pub ep_out: u8,
    pub ep_in: u8,
    pub out_packet_size: u16,
}

/// Whether a descriptor has the shape of a JABI interface (the name string,
/// which only the device can give, is checked apart, by `is_jabi_name`): default alternate
/// setting, vendor-specific class, a name string, and exactly two bulk
/// endpoints of opposite directions, in either order.
pub open spec fn fits_fingerprint(d: AltSettingInfo) -> bool {
    &&& d.setting_number == 0
    &&& d.class_code == VENDOR_SPECIFIC_CLASS
    &&& d.string_index is Some
    &&& d.endpoints@.len() == 2
    &&& d.endpoints@[0].is_bulk
    &&& d.endpoints@[1].is_bulk
    &&& d.endpoints@[0].is_in != d.endpoints@[1].is_in
}

/// The endpoints of a descriptor that fits, the OUT one first.
pub open spec fn pair_of(d: AltSettingInfo) -> BulkPair {
    let (o, i) = if d.endpoints@[0].is_in {
        (d.endpoints@[1], d.endpoints@[0])
    } else {
        (d.endpoints@[0], d.endpoints@[1])
    };
    BulkPair { ep_out: o.address, ep_in: i.address, out_packet_size: o.max_packet_size }
}

/// The bulk endpoints of `d` when it fits the JABI fingerprint.
pub fn bulk_pair(d: &AltSettingInfo) -> (r: Option<BulkPair>)
    ensures
        r is Some <==> fits_fingerprint(*d),
        r matches Some(p) ==> p == pair_of(*d),
{
    if d.setting_number != 0 || d.class_code != VENDOR_SPECIFIC_CLASS || d.string_index.is_none()
        || d.endpoints.len() != 2 {
        return None;
    }
    let ep0 = d.endpoints[0];
    let ep1 = d.endpoints[1];
    if !ep0.is_bulk || !ep1.is_bulk || ep0.is_in == ep1.is_in {
        return None;
    }
    let (o, i) = if ep0.is_in {
        (ep1, ep0)
    } else {
        (ep0, ep1)
    };
    Some(BulkPair { ep_out: o.address, ep_in: i.address, out_packet_size: o.max_packet_size })
}

/// The interface name that marks a JABI interface.
pub open spec fn jabi_name() -> Seq<char> {
    seq!['J', 'A', 'B', 'I', ' ', 'U', 'S', 'B']
}

/// Whether an interface's name string is the JABI marker.
pub fn is_jabi_name(s: &String) -> (b: bool)
    ensures
        b == (s@ == jabi_name()),
{
    let want = "JABI USB".to_owned();
    proof {
        reveal_strlit("JABI USB");
        assert(want@ =~= jabi_name());
    }
    *s == want
}

/// One interface of a device's active configuration: its number and its
/// alternate settings.
pub struct InterfaceInfo {
    pub number: u8,
    pub settings: Vec<AltSettingInfo>,
}

/// A device on the bus and the interfaces of its active configuration.
pub struct DeviceInfo {
    pub device: UsbDevice,
    pub interfaces: Vec<InterfaceInfo>,
}

/// How trying one alternate setting ended.
#[derive(Debug, Clone, Copy, PartialEq, Eq, Structural)]
pub enum ProbeEvent {
    /// The descriptor does not fit the fingerprint; nothing was opened.
    NotFitting,
    /// The device could not be opened.
    OpenFailed,
    /// The interface name could not be read.
    NameUnreadable,
    /// The interface name is not the JABI marker; nothing was claimed.
    NameMismatch,
    /// The interface could not be claimed.
    ClaimFailed,
    /// The request-limit query failed, after its one retry.
    NoReqSize,
    /// The response-limit query failed.
    NoRespSize,
    /// A JABI device answered on it.
    Ready,
}

/// Where the scan goes on after a setting.
#[derive(Debug, Clone, Copy, PartialEq, Eq, Structural)]
pub enum ProbeNext {
    NextSetting,
    NextInterface,
    NextDevice,
    /// Keep the device found, then go on with the next setting.
    Keep,
}

/// The scan's rule: a device that cannot be opened, whose names cannot be
/// read or that fails its response-limit query is skipped whole; an
/// interface that cannot be claimed is skipped; any other failure moves on to
/// the next setting.
pub open spec fn probe_next_spec(e: ProbeEvent) -> ProbeNext {
    match e {
        ProbeEvent::NotFitting => ProbeNext::NextSetting,
        ProbeEvent::OpenFailed => ProbeNext::NextDevice,
        ProbeEvent::NameUnreadable => ProbeNext::NextDevice,
        ProbeEvent::NameMismatch => ProbeNext::NextSetting,
        ProbeEvent::ClaimFailed => ProbeNext::NextInterface,
        ProbeEvent::NoReqSize => ProbeNext::NextSetting,
        ProbeEvent::NoRespSize => ProbeNext::NextDevice,
        ProbeEvent::Ready => ProbeNext::Keep,
    }
}

pub fn probe_next(e: ProbeEvent) -> (r: ProbeNext)
    ensures
        r == probe_next_spec(e),
{
    match e {
        ProbeEvent::NotFitting => ProbeNext::NextSetting,
        ProbeEvent::OpenFailed => ProbeNext::NextDevice,
        ProbeEvent::NameUnreadable => ProbeNext::NextDevice,
        ProbeEvent::NameMismatch => ProbeNext::NextSetting,
        ProbeEvent::ClaimFailed => ProbeNext::NextInterface,
        ProbeEvent::NoReqSize => ProbeNext::NextSetting,
        ProbeEvent::NoRespSize => ProbeNext::NextDevice,
        ProbeEvent::Ready => ProbeNext::Keep,
    }
}

/// Opens a JABI device on a claimed interface: builds the transport, then
/// handshakes, asking for the request limit once more after a timeout and
/// then for the response limit. `NotFitting` when the OUT packet size is 0.
pub fn open_usb(handle: UsbHandle, pair: &BulkPair) -> (r: Result<Device, ProbeEvent>)
    ensures
        pair.out_packet_size == 0 ==> r matches Err(ProbeEvent::NotFitting),
        r matches Err(e) ==> e == ProbeEvent::NotFitting || e == ProbeEvent::NoReqSize || e
            == ProbeEvent::NoRespSize,
{
    let iface = match UsbInterface::new(handle, pair.ep_out, pair.ep_in, pair.out_packet_size) {
        Some(u) => u,
        None => return Err(ProbeEvent::NotFitting),
    };
    let dev = Device::new(Transport::Usb(iface));
    match dev.handshake(true, true) {
        Handshake::Done { .. } => Ok(dev),
        Handshake::Failed { at_resp } => if at_resp {
            Err(ProbeEvent::NoRespSize)
        } else {
            Err(ProbeEvent::NoReqSize)
        },
        _ => Err(ProbeEvent::NoReqSize),
    }
}

/// Whether a probe that ended with `e` got past the name check: the
/// interface was then claimed, or claiming it was tried.
pub open spec fn past_name(e: ProbeEvent) -> bool {
    e == ProbeEvent::ClaimFailed || e == ProbeEvent::NoReqSize || e == ProbeEvent::NoRespSize
        || e == ProbeEvent::Ready
}

/// What the name read off a fitting setting decides: an unreadable name
/// ends the probe as `NameUnreadable`, a name other than the JABI marker as
/// `NameMismatch`; the marker lets the probe go on (`None`).
pub fn name_event(name: &Option<String>) -> (r: Option<ProbeEvent>)
    ensures
        name is None ==> r == Some(ProbeEvent::NameUnreadable),
        name matches Some(s) ==> (s@ == jabi_name() ==> r is None),
        name matches Some(s) ==> (s@ != jabi_name() ==> r == Some(ProbeEvent::NameMismatch)),
{
    match name {
        Some(s) => if is_jabi_name(s) {
            None
        } else {
            Some(ProbeEvent::NameMismatch)
        },
        None => Some(ProbeEvent::NameUnreadable),
    }
}

/// The whole match rule of a JABI interface: the descriptor fits the
/// fingerprint and its name string is the JABI marker. Gives its bulk
/// endpoints when it matches.
pub fn jabi_interface(desc: &AltSettingInfo, name: &String) -> (r: Option<BulkPair>)
    ensures
        r is Some <==> fits_fingerprint(*desc) && name@ == jabi_name(),
        r matches Some(p) ==> p == pair_of(*desc),
{
    if !is_jabi_name(name) {
        return None;
    }
    bulk_pair(desc)
}

/// Tries one alternate setting of interface `number` of `dev`, in order:
/// the fingerprint, opening the device, reading the name and deciding on it
/// by `name_event`, claiming the interface, the handshake. Gives the outcome
/// and, as ghost state, the name read, if one was. Only a fitting setting is
/// opened, and only one whose name is the JABI marker is claimed.
pub fn probe_setting(dev: &UsbDevice, number: u8, desc: &AltSettingInfo) -> (r: (
    Result<Device, ProbeEvent>,
    Ghost<Option<Seq<char>>>,
))
    ensures
        !fits_fingerprint(*desc) ==> (r.0 matches Err(ProbeEvent::NotFitting) && r.1@ is None),
        r.0 matches Err(ProbeEvent::NameMismatch) ==> (r.1@ matches Some(n) && n != jabi_name()),
        r.0 is Ok ==> fits_fingerprint(*desc),
        r.0 is Ok ==> r.1@ == Some(jabi_name()),
        r.0 matches Err(e) ==> (past_name(e) ==> r.1@ == Some(jabi_name())),
        r.0 matches Err(e) ==> e != ProbeEvent::Ready,
{
    let pair = match bulk_pair(desc) {
        Some(p) => p,
        None => return (Err(ProbeEvent::NotFitting), Ghost(None)),
    };
    let index = match desc.string_index {
        Some(n) => n,
        None => return (Err(ProbeEvent::NotFitting), Ghost(None)),
    };
    let handle = match open_device(dev) {
        Some(h) => h,
        None => return (Err(ProbeEvent::OpenFailed), Ghost(None)),
    };
    let name = read_string(&handle, index);
    let ghost read: Option<Seq<char>> = match &name {
        Some(s) => Some(s@),
        None => None,
    };
    match name_event(&name) {
        Some(e) => return (Err(e), Ghost(read)),
        None => {},
    }
    if !claim_interface(&handle, number) {
        return (Err(ProbeEvent::ClaimFailed), Ghost(read));
    }
    (open_usb(handle, &pair), Ghost(read))
}

/// A JABI device found by the scan, the device, interface and alternate
/// setting, by position, that it was found on, and (as ghost state) the
/// interface name that the device reported.
pub struct Found {
    pub device: Device,
    pub device_index: usize,
    pub interface_index: usize,
    pub setting_index: usize,
    pub name: Ghost<Seq<char>>,
}

pub open spec fn origin(f: Found) -> (int, int, int) {
    (f.device_index as int, f.interface_index as int, f.setting_index as int)
}

/// Scan order: by device, then interface, then setting.
pub open spec fn scan_before(a: (int, int, int), b: (int, int, int)) -> bool {
    a.0 < b.0 || (a.0 == b.0 && (a.1 < b.1 || (a.1 == b.1 && a.2 < b.2)))
}

/// Whether `o` names an alternate setting in `found`.
pub open spec fn valid_origin(found: Seq<DeviceInfo>, o: (int, int, int)) -> bool {
    &&& 0 <= o.0 < found.len()
    &&& 0 <= o.1 < found[o.0].interfaces@.len()
    &&& 0 <= o.2 < found[o.0].interfaces@[o.1].settings@.len()
}

pub open spec fn setting_at(found: Seq<DeviceInfo>, o: (int, int, int)) -> AltSettingInfo {
    found[o.0].interfaces@[o.1].settings@[o.2]
}

/// Whether `o` names an alternate setting in `found` that fits the JABI
/// fingerprint.
pub open spec fn fitting_origin(found: Seq<DeviceInfo>, o: (int, int, int)) -> bool {
    valid_origin(found, o) && fits_fingerprint(setting_at(found, o))
}

/// Whether the scan's record holds outcome `e` for setting `o`.
pub open spec fn traced(t: Seq<((int, int, int), ProbeEvent)>, o: (int, int, int), e: ProbeEvent) -> bool {
    exists|j: int| 0 <= j < t.len() && #[trigger] t[j] == (o, e)
}

/// Whether the scan tried setting `o`.
pub open spec fn probed(t: Seq<((int, int, int), ProbeEvent)>, o: (int, int, int)) -> bool {
    exists|j: int| 0 <= j < t.len() && (#[trigger] t[j]).0 == o
}

/// Whether the outcome recorded at `x` makes the scan pass over setting `o`:
/// `o` comes later in the same device after a device skip, or in the same
/// interface after an interface skip.
pub open spec fn skips(x: ((int, int, int), ProbeEvent), o: (int, int, int)) -> bool {
    &&& x.0.0 == o.0
    &&& scan_before(x.0, o)
    &&& (probe_next_spec(x.1) == ProbeNext::NextDevice || (probe_next_spec(x.1)
        == ProbeNext::NextInterface && x.0.1 == o.1))
}

pub open spec fn skipped(t: Seq<((int, int, int), ProbeEvent)>, o: (int, int, int)) -> bool {
    exists|j: int| 0 <= j < t.len() && skips(#[trigger] t[j], o)
}

/// Whether a result was found on setting `o`.
pub open spec fn found_at(r: Seq<Found>, o: (int, int, int)) -> bool {
    exists|k: int| 0 <= k < r.len() && #[trigger] origin(r[k]) == o
}

proof fn lemma_record_grows(t: Seq<((int, int, int), ProbeEvent)>, x: ((int, int, int), ProbeEvent))
    ensures
        forall|o: (int, int, int), e: ProbeEvent| traced(t, o, e) ==> #[trigger] traced(t.push(x), o, e),
        forall|o: (int, int, int)| probed(t, o) ==> #[trigger] probed(t.push(x), o),
        forall|o: (int, int, int)| skipped(t, o) ==> #[trigger] skipped(t.push(x), o),
        traced(t.push(x), x.0, x.1),
        probed(t.push(x), x.0),
{
    let u = t.push(x);
    assert forall|o: (int, int, int), e: ProbeEvent| traced(t, o, e) implies #[trigger] traced(u, o, e) by {
        let j = choose|j: int| 0 <= j < t.len() && #[trigger] t[j] == (o, e);
        assert(u[j] == t[j]);
    }
    assert forall|o: (int, int, int)| probed(t, o) implies #[trigger] probed(u, o) by {
        let j = choose|j: int| 0 <= j < t.len() && (#[trigger] t[j]).0 == o;
        assert(u[j] == t[j]);
    }
    assert forall|o: (int, int, int)| skipped(t, o) implies #[trigger] skipped(u, o) by {
        let j = choose|j: int| 0 <= j < t.len() && skips(#[trigger] t[j], o);
        assert(u[j] == t[j]);
    }
    assert(u[t.len() as int] == x);
}

proof fn lemma_traced_split(
    t: Seq<((int, int, int), ProbeEvent)>,
    x: ((int, int, int), ProbeEvent),
    o: (int, int, int),
    e: ProbeEvent,
)
    requires
        traced(t.push(x), o, e),
    ensures
        traced(t, o, e) || x == (o, e),
{
    let u = t.push(x);
    let j = choose|j: int| 0 <= j < u.len() && #[trigger] u[j] == (o, e);
    if j < t.len() {
        assert(t[j] == u[j]);
    }
}

proof fn lemma_found_grows(r: Seq<Found>, f: Found)
    ensures
        forall|o: (int, int, int)| found_at(r, o) ==> #[trigger] found_at(r.push(f), o),
        found_at(r.push(f), origin(f)),
{
    let u = r.push(f);
    assert forall|o: (int, int, int)| found_at(r, o) implies #[trigger] found_at(u, o) by {
        let k = choose|k: int| 0 <= k < r.len() && #[trigger] origin(r[k]) == o;
        assert(u[k] == r[k]);
    }
    assert(u[r.len() as int] == f);
}

/// Walks every setting of every interface of every device in scan order,
/// probing each with `probe_setting` and moving on as `probe_next` says. Gives
/// the devices found and, as ghost state, the record of each setting probed
/// and how its probe ended. Each setting of `found` is either probed or passed
/// over by an earlier device or interface skip, and a skip is obeyed; the
/// results are exactly the probes that ended `Ready`, in scan order, each on a
/// setting that fits the fingerprint and whose name was the JABI marker.
pub fn discover(found: &Vec<DeviceInfo>) -> (r: (Vec<Found>, Ghost<Seq<((int, int, int), ProbeEvent)>>))
    ensures
        forall|k: int| 0 <= k < r.0@.len() ==> fitting_origin(found@, #[trigger] origin(r.0@[k]))
            && r.0@[k].name@ == jabi_name() && traced(r.1@, origin(r.0@[k]), ProbeEvent::Ready),
        forall|o: (int, int, int)| #[trigger] traced(r.1@, o, ProbeEvent::Ready) ==> found_at(r.0@, o),
        forall|j: int, k: int|
            0 <= j < k < r.0@.len() ==> scan_before(#[trigger] origin(r.0@[j]), #[trigger] origin(r.0@[k])),
        forall|j: int, k: int|
            0 <= j < k < r.1@.len() ==> scan_before(#[trigger] r.1@[j].0, #[trigger] r.1@[k].0) && !skips(r.1@[j], r.1@[k].0),
        forall|j: int| 0 <= j < r.1@.len() ==> valid_origin(found@, #[trigger] r.1@[j].0) && (!fits_fingerprint(setting_at(found@, r.1@[j].0)) ==> r.1@[j].1 == ProbeEvent::NotFitting),
        forall|o: (int, int, int)| valid_origin(found@, o) ==> #[trigger] probed(r.1@, o) || skipped(r.1@, o),
{
    let mut out: Vec<Found> = Vec::new();
    let ghost mut t: Seq<((int, int, int), ProbeEvent)> = Seq::empty();
    let mut d: usize = 0;
    while d < found.len()
        invariant
            d <= found@.len(),
                forall|k: int| 0 <= k < out@.len() ==> fitting_origin(found@, #[trigger] origin(out@[k]))
                    && out@[k].name@ == jabi_name() && traced(t, origin(out@[k]), ProbeEvent::Ready),
                forall|j: int, k: int|
                    0 <= j < k < out@.len() ==> scan_before(#[trigger] origin(out@[j]), #[trigger] origin(out@[k])),
                forall|j: int, k: int|
                    0 <= j < k < t.len() ==> scan_before(#[trigger] t[j].0, #[trigger] t[k].0) && !skips(t[j], t[k].0),
                forall|j: int| 0 <= j < t.len() ==> valid_origin(found@, #[trigger] t[j].0) && (!fits_fingerprint(setting_at(found@, t[j].0)) ==> t[j].1 == ProbeEvent::NotFitting),
                forall|o: (int, int, int)| #[trigger] traced(t, o, ProbeEvent::Ready) ==> found_at(out@, o),
                forall|k: int| 0 <= k < out@.len() ==> scan_before(#[trigger] origin(out@[k]), (d as int, 0int, 0int)),
                forall|j: int| 0 <= j < t.len() ==> scan_before(#[trigger] t[j].0, (d as int, 0int, 0int)),
                forall|o: (int, int, int)| valid_origin(found@, o) && scan_before(o, (d as int, 0int, 0int)) ==> #[trigger] probed(t, o) || skipped(t, o),
        decreases found@.len() - d,
    {
        let info = &found[d];
        let mut i: usize = 0;
        let mut skip_device = false;
        while i < info.interfaces.len() && !skip_device
            invariant
                d < found@.len(),
                info == found@[d as int],
                i <= info.interfaces@.len(),
                forall|k: int| 0 <= k < out@.len() ==> fitting_origin(found@, #[trigger] origin(out@[k]))
                    && out@[k].name@ == jabi_name() && traced(t, origin(out@[k]), ProbeEvent::Ready),
                forall|j: int, k: int|
                    0 <= j < k < out@.len() ==> scan_before(#[trigger] origin(out@[j]), #[trigger] origin(out@[k])),
                forall|j: int, k: int|
                    0 <= j < k < t.len() ==> scan_before(#[trigger] t[j].0, #[trigger] t[k].0) && !skips(t[j], t[k].0),
                forall|j: int| 0 <= j < t.len() ==> valid_origin(found@, #[trigger] t[j].0) && (!fits_fingerprint(setting_at(found@, t[j].0)) ==> t[j].1 == ProbeEvent::NotFitting),
                forall|o: (int, int, int)| #[trigger] traced(t, o, ProbeEvent::Ready) ==> found_at(out@, o),
                forall|k: int| 0 <= k < out@.len() ==> scan_before(#[trigger] origin(out@[k]), (d as int, i as int, 0int)),
                forall|j: int| 0 <= j < t.len() ==> scan_before(#[trigger] t[j].0, (d as int, i as int, 0int)),
                forall|o: (int, int, int)| valid_origin(found@, o) && scan_before(o, (d as int, i as int, 0int)) ==> #[trigger] probed(t, o) || skipped(t, o),
                forall|j: int| 0 <= j < t.len() && (#[trigger] t[j]).0.0 == d ==> probe_next_spec(t[j].1) != ProbeNext::NextDevice || (skip_device && j == t.len() - 1),
                skip_device ==> t.len() > 0 && t.last().0.0 == d && scan_before(t.last().0, (d as int, i as int, 0)) && probe_next_spec(t.last().1) == ProbeNext::NextDevice,
            decreases info.interfaces@.len() - i,
        {
            let iface = &info.interfaces[i];
            let mut s: usize = 0;
            let mut next_interface = false;
            while s < iface.settings.len() && !next_interface && !skip_device
                invariant
                    d < found@.len(),
                    info == found@[d as int],
                    i < info.interfaces@.len(),
                    iface == info.interfaces@[i as int],
                    s <= iface.settings@.len(),
                    !(next_interface && skip_device),
                forall|k: int| 0 <= k < out@.len() ==> fitting_origin(found@, #[trigger] origin(out@[k]))
                    && out@[k].name@ == jabi_name() && traced(t, origin(out@[k]), ProbeEvent::Ready),
                forall|j: int, k: int|
                    0 <= j < k < out@.len() ==> scan_before(#[trigger] origin(out@[j]), #[trigger] origin(out@[k])),
                forall|j: int, k: int|
                    0 <= j < k < t.len() ==> scan_before(#[trigger] t[j].0, #[trigger] t[k].0) && !skips(t[j], t[k].0),
                forall|j: int| 0 <= j < t.len() ==> valid_origin(found@, #[trigger] t[j].0) && (!fits_fingerprint(setting_at(found@, t[j].0)) ==> t[j].1 == ProbeEvent::NotFitting),
                forall|o: (int, int, int)| #[trigger] traced(t, o, ProbeEvent::Ready) ==> found_at(out@, o),
                forall|k: int| 0 <= k < out@.len() ==> scan_before(#[trigger] origin(out@[k]), (d as int, i as int, s as int)),
                forall|j: int| 0 <= j < t.len() ==> scan_before(#[trigger] t[j].0, (d as int, i as int, s as int)),
                forall|o: (int, int, int)| valid_origin(found@, o) && scan_before(o, (d as int, i as int, s as int)) ==> #[trigger] probed(t, o) || skipped(t, o),
                    forall|j: int| 0 <= j < t.len() && (#[trigger] t[j]).0.0 == d ==> probe_next_spec(t[j].1) != ProbeNext::NextDevice || (skip_device && j == t.len() - 1),
                    forall|j: int| 0 <= j < t.len() && (#[trigger] t[j]).0.0 == d && t[j].0.1 == i ==> probe_next_spec(t[j].1) != ProbeNext::NextInterface || (next_interface && j == t.len() - 1),
                    skip_device ==> t.len() > 0 && t.last().0 == (d as int, i as int, s - 1) && probe_next_spec(t.last().1) == ProbeNext::NextDevice,
                    next_interface ==> t.len() > 0 && t.last().0 == (d as int, i as int, s - 1) && probe_next_spec(t.last().1) == ProbeNext::NextInterface,
                decreases iface.settings@.len() - s,
            {
                let probe = probe_setting(&info.device, iface.number, &iface.settings[s]);
                let ghost name = probe.1@;
                let res = probe.0;
                let event = match &res {
                    Ok(_) => ProbeEvent::Ready,
                    Err(e) => *e,
                };
                let ghost o = (d as int, i as int, s as int);
                let ghost t0 = t;
                proof {
                    lemma_record_grows(t0, (o, event));
                    t = t0.push((o, event));
                    assert(t[t.len() - 1] == (o, event));
                    assert forall|j: int| 0 <= j < t0.len() implies !skips(#[trigger] t[j], o) by {
                        assert(t[j] == t0[j]);
                    }
                }
                let step = probe_next(event);
                match step {
                    ProbeNext::NextInterface => next_interface = true,
                    ProbeNext::NextDevice => skip_device = true,
                    _ => {},
                }
                let ghost out0 = out@;
                match res {
                    Ok(device) => {
                        let ghost n = match name {
                            Some(x) => x,
                            None => Seq::empty(),
                        };
                        let f = Found { device, device_index: d, interface_index: i, setting_index: s, name: Ghost(n) };
                        proof {
                            lemma_found_grows(out0, f);
                            assert(n == jabi_name());
                            assert(fits_fingerprint(iface.settings@[s as int]));
                            assert(setting_at(found@, o) == iface.settings@[s as int]);
                            assert(origin(f) == o);
                        }
                        out.push(f);
                        proof {
                            assert forall|k: int| 0 <= k < out@.len() implies fitting_origin(found@, #[trigger] origin(out@[k]))
                                && out@[k].name@ == jabi_name() && traced(t, origin(out@[k]), ProbeEvent::Ready) by {
                                if k < out0.len() {
                                    assert(out@[k] == out0[k]);
                                } else {
                                    assert(out@[k] == f);
                                }
                            }
                        }
                    },
                    Err(_) => {
                        proof {
                            assert forall|k: int| 0 <= k < out@.len() implies fitting_origin(found@, #[trigger] origin(out@[k]))
                                && out@[k].name@ == jabi_name() && traced(t, origin(out@[k]), ProbeEvent::Ready) by {
                                assert(traced(t0, origin(out@[k]), ProbeEvent::Ready));
                            }
                        }
                    },
                }
                proof {
                    assert forall|oo: (int, int, int)| #[trigger] traced(t, oo, ProbeEvent::Ready) implies found_at(out@, oo) by {
                        lemma_traced_split(t0, (o, event), oo, ProbeEvent::Ready);
                    }
                }
                s = s + 1;
                proof {
                    let c = (d as int, i as int, s as int);
                    assert forall|oo: (int, int, int)| valid_origin(found@, oo) && scan_before(oo, c) implies #[trigger] probed(t, oo) || skipped(t, oo) by {
                        if oo == o {
                        } else {
                            assert(scan_before(oo, o));
                        }
                    }
                }
            }
            proof {
                let c = (d as int, i as int + 1, 0int);
                assert forall|oo: (int, int, int)| valid_origin(found@, oo) && scan_before(oo, c) implies #[trigger] probed(t, oo) || skipped(t, oo) by {
                    if !scan_before(oo, (d as int, i as int, s as int)) {
                        assert(next_interface || skip_device);
                        assert(skips(t[t.len() - 1], oo));
                    }
                }
            }
            i = i + 1;
        }
        proof {
            let c = (d as int + 1, 0int, 0int);
            assert forall|oo: (int, int, int)| valid_origin(found@, oo) && scan_before(oo, c) implies #[trigger] probed(t, oo) || skipped(t, oo) by {
                if !scan_before(oo, (d as int, i as int, 0int)) {
                    assert(skip_device);
                    assert(skips(t[t.len() - 1], oo));
                }
            }
        }
        d = d + 1;
    }
    (out, Ghost(t))
}

} // verus!
