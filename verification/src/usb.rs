//! USB Android Open Accessory transport: which devices qualify, how they are
//! named and selected, which endpoints carry the byte stream, and how
//! received bulk chunks are handed to smaller reads.
//!
//! Accessory-mode devices enumerate with Google's accessory vendor id and a
//! vendor-specific interface (class and subclass 0xff) with a bulk IN and a
//! bulk OUT endpoint. A Smartisan device in its plain mode is switched by
//! the identification strings and the accessory start request.
use vstd::prelude::*;

use crate::error::{Error, LocalFault, TransportFault};
use crate::text::{append_str, copy_string, owned, push_decimal, str_eq, string_from_chars};

verus! {

/// Accessory-mode vendor id (Google).
pub const ACCESSORY_VID: u16 = 0x18d1;

/// Accessory-mode product ids: accessory, accessory+adb, accessory+audio,
/// accessory+audio+adb.
pub const ACCESSORY_PIDS: [u16; 4] = [0x2d00, 0x2d01, 0x2d02, 0x2d03];

/// Smartisan's plain-mode vendor id.
pub const SMARTISAN_VID: u16 = 0x29a9;

/// Class of the accessory data interface (vendor specific).
pub const ACCESSORY_IFACE_CLASS: u8 = 0xff;

/// Subclass of the accessory data interface (vendor specific).
pub const ACCESSORY_IFACE_SUBCLASS: u8 = 0xff;

/// Accessory request: get protocol version.
pub const ACC_GET_PROTOCOL: u8 = 0x33;

/// Accessory request: send an identification string.
pub const ACC_SEND_STRING: u8 = 0x34;

/// Accessory request: start accessory mode.
pub const ACC_START: u8 = 0x35;

/// Bytes read per bulk transfer.
pub const READ_CHUNK: usize = 16384;

/// Whether a device is already in accessory mode.
#[derive(Debug, Clone, Copy, PartialEq, Eq, Structural)]
pub enum AccessoryMode {
    /// Accessory mode: ready for bulk transfers.
    Accessory,
    /// Plain Smartisan mode: must be switched first.
    Plain,
}

/// Whether `pid` is an accessory-mode product id.
pub open spec fn is_accessory_pid(pid: u16) -> bool {
    pid == 0x2d00 || pid == 0x2d01 || pid == 0x2d02 || pid == 0x2d03
}

/// The mode of a device by its ids, or `None` when it cannot host the
/// accessory stream: accessory vendor with an accessory product, or any
/// Smartisan plain-mode device.
pub open spec fn mode_of(vendor_id: u16, product_id: u16) -> Option<AccessoryMode> {
    if vendor_id == ACCESSORY_VID && is_accessory_pid(product_id) {
        Some(AccessoryMode::Accessory)
    } else if vendor_id == SMARTISAN_VID {
        Some(AccessoryMode::Plain)
    } else {
        None
    }
}

/// The mode of a device by its ids (see `mode_of`).
pub fn accessory_mode(vendor_id: u16, product_id: u16) -> (r: Option<AccessoryMode>)
    ensures
        r == mode_of(vendor_id, product_id),
{
    let mut k: usize = 0;
    let mut listed = false;
    while k < 4
        invariant
            k <= 4,
            listed == exists|j: int| 0 <= j < k && ACCESSORY_PIDS[j] == product_id,
        decreases 4 - k,
    {
        if ACCESSORY_PIDS[k] == product_id {
            listed = true;
        }
        k = k + 1;
    }
    assert(listed == is_accessory_pid(product_id)) by {
        if is_accessory_pid(product_id) {
            if product_id == 0x2d00 {
                assert(ACCESSORY_PIDS[0] == product_id);
            } else if product_id == 0x2d01 {
                assert(ACCESSORY_PIDS[1] == product_id);
            } else if product_id == 0x2d02 {
                assert(ACCESSORY_PIDS[2] == product_id);
            } else {
                assert(ACCESSORY_PIDS[3] == product_id);
            }
        }
    }
    if vendor_id == ACCESSORY_VID && listed {
        Some(AccessoryMode::Accessory)
    } else if vendor_id == SMARTISAN_VID {
        Some(AccessoryMode::Plain)
    } else {
        None
    }
}

/// A USB location: the bus number, then each port number, separated by `-`.
pub open spec fn location_of(bus: u8, ports: Seq<u8>) -> Seq<char>
    decreases ports.len(),
{
    if ports.len() == 0 {
        crate::text::decimal(bus as nat) + seq!['-']
    } else if ports.len() == 1 {
        crate::text::decimal(bus as nat) + seq!['-'] + crate::text::decimal(ports[0] as nat)
    } else {
        location_of(bus, ports.drop_last()) + seq!['-'] + crate::text::decimal(ports.last() as nat)
    }
}

/// The location string of a device (see `location_of`), e.g. `1-2-3`.
pub fn usb_location(bus: u8, ports: &[u8]) -> (r: String)
    ensures
        r@ == location_of(bus, ports@),
{
    let mut out: Vec<char> = Vec::new();
    push_decimal(&mut out, bus as u64);
    out.push('-');
    let mut i: usize = 0;
    while i < ports.len()
        invariant
            i <= ports@.len(),
            i == 0 ==> out@ == crate::text::decimal(bus as nat) + seq!['-'],
            i > 0 ==> out@ == location_of(bus, ports@.subrange(0, i as int)),
        decreases ports@.len() - i,
    {
        let ghost before = out@;
        if i > 0 {
            out.push('-');
        }
        push_decimal(&mut out, ports[i] as u64);
        proof {
            let sub = ports@.subrange(0, i as int + 1);
            assert(sub.drop_last() =~= ports@.subrange(0, i as int));
            if i == 0 {
                assert(sub[0] == ports@[0]);
                assert(out@ =~= location_of(bus, sub));
            } else {
                assert(out@ =~= location_of(bus, sub));
            }
        }
        i = i + 1;
    }
    proof {
        if ports@.len() > 0 {
            assert(ports@.subrange(0, ports@.len() as int) =~= ports@);
        }
    }
    string_from_chars(out.as_slice())
}

/// A USB device as enumerated.
#[derive(Debug, Clone, PartialEq, Eq)]
pub struct UsbDeviceInfo {
    /// Bus number.
    pub bus_number: u8,
    /// Port numbers from the root.
    pub ports: Vec<u8>,
    /// Vendor id.
    pub vendor_id: u16,
    /// Product id.
    pub product_id: u16,
    /// Serial number string, when it could be read.
    pub serial: Option<String>,
}

/// A USB device that can host a HandShaker connection.
#[derive(Debug, Clone, PartialEq, Eq)]
pub struct UsbAccessory {
    /// `bus-port[-port..]` location.
    pub location: String,
    /// Bus number.
    pub bus_number: u8,
    /// Serial number, when known and not empty.
    pub serial: Option<String>,
    /// Vendor id.
    pub vendor_id: u16,
    /// Product id.
    pub product_id: u16,
    /// Whether it is already in accessory mode.
    pub mode: AccessoryMode,
}

/// Whether `a` describes enumerated device `d`.
pub open spec fn accessory_from(a: UsbAccessory, d: UsbDeviceInfo) -> bool {
    &&& a.location@ == location_of(d.bus_number, d.ports@)
    &&& a.bus_number == d.bus_number
    &&& crate::text::ostr(a.serial) == match d.serial {
        Some(s) => if s@.len() > 0 {
            Some(s@)
        } else {
            None
        },
        None => None,
    }
    &&& a.vendor_id == d.vendor_id
    &&& a.product_id == d.product_id
    &&& Some(a.mode) == mode_of(d.vendor_id, d.product_id)
}

/// The enumerated devices that qualify, in order.
pub open spec fn qualifying(ds: Seq<UsbDeviceInfo>) -> Seq<UsbDeviceInfo>
    decreases ds.len(),
{
    if ds.len() == 0 {
        Seq::empty()
    } else if mode_of(ds.last().vendor_id, ds.last().product_id) is Some {
        qualifying(ds.drop_last()).push(ds.last())
    } else {
        qualifying(ds.drop_last())
    }
}

/// The accessory candidates among enumerated devices (see `qualifying`,
/// `accessory_from`): accessory-mode devices and plain Smartisan devices,
/// in enumeration order; an empty serial counts as none.
pub fn list_usb_accessories(devices: &[UsbDeviceInfo]) -> (r: Vec<UsbAccessory>)
    ensures
        r@.len() == qualifying(devices@).len(),
        forall|i: int| 0 <= i < r@.len() ==> accessory_from(#[trigger] r@[i], qualifying(devices@)[i]),
{
    let mut out: Vec<UsbAccessory> = Vec::new();
    let mut i: usize = 0;
    while i < devices.len()
        invariant
            i <= devices@.len(),
            out@.len() == qualifying(devices@.subrange(0, i as int)).len(),
            forall|k: int| 0 <= k < out@.len() ==> accessory_from(#[trigger] out@[k], qualifying(devices@.subrange(0, i as int))[k]),
        decreases devices@.len() - i,
    {
        let d = &devices[i];
        let ghost sub = devices@.subrange(0, i as int + 1);
        assert(sub.drop_last() =~= devices@.subrange(0, i as int));
        assert(sub.last() == devices@[i as int]);
        match accessory_mode(d.vendor_id, d.product_id) {
            None => {},
            Some(mode) => {
                let serial = match &d.serial {
                    Some(s) => if s.as_str().is_empty() {
                        None
                    } else {
                        Some(copy_string(s))
                    },
                    None => None,
                };
                let ghost before = out@;
                out.push(
                    UsbAccessory {
                        location: usb_location(d.bus_number, d.ports.as_slice()),
                        bus_number: d.bus_number,
                        serial,
                        vendor_id: d.vendor_id,
                        product_id: d.product_id,
                        mode,
                    },
                );
                assert forall|k: int| 0 <= k < out@.len() implies accessory_from(#[trigger] out@[k], qualifying(sub)[k]) by {
                    if k < before.len() {
                        assert(out@[k] == before[k]);
                    }
                }
            },
        }
        i = i + 1;
    }
    assert(devices@.subrange(0, devices@.len() as int) =~= devices@);
    out
}

/// The accessory to connect to: the one at `location` when given (an
/// unknown location is refused), else the only one (none or several are
/// refused).
pub fn select_accessory(accessories: &[UsbAccessory], location: &Option<String>) -> (r: Result<usize, Error>)
    ensures
        location matches Some(l) ==> match r {
            Ok(i) => i < accessories@.len() && accessories@[i as int].location@ == l@ && forall|j: int|
                0 <= j < i ==> accessories@[j].location@ != l@,
            Err(e) => e == Error::LocalIo(LocalFault::NoAccessory) && forall|j: int|
                0 <= j < accessories@.len() ==> accessories@[j].location@ != l@,
        },
        location is None ==> match r {
            Ok(i) => i == 0 && accessories@.len() == 1,
            Err(e) => e == Error::LocalIo(LocalFault::AmbiguousAccessory) && accessories@.len() != 1,
        },
{
    match location {
        Some(l) => {
            let mut i: usize = 0;
            while i < accessories.len()
                invariant
                    i <= accessories@.len(),
                    *location == Some(*l),
                    forall|j: int| 0 <= j < i ==> accessories@[j].location@ != l@,
                decreases accessories@.len() - i,
            {
                if str_eq(accessories[i].location.as_str(), l.as_str()) {
                    return Ok(i);
                }
                i = i + 1;
            }
            Err(Error::LocalIo(LocalFault::NoAccessory))
        },
        None => {
            if accessories.len() != 1 {
                return Err(Error::LocalIo(LocalFault::AmbiguousAccessory));
            }
            Ok(0)
        },
    }
}

/// The connection label of an accessory: its serial, else its location.
pub fn accessory_label(a: &UsbAccessory) -> (r: String)
    ensures
        r@ == match crate::text::ostr(a.serial) {
            Some(s) => s,
            None => a.location@,
        },
{
    match &a.serial {
        Some(s) => copy_string(s),
        None => copy_string(&a.location),
    }
}

/// One endpoint of an interface setting.
#[derive(Debug, Clone, Copy, PartialEq, Eq, Structural)]
pub struct EndpointInfo {
    /// Whether it is a bulk endpoint.
    pub bulk: bool,
    /// Whether it is an IN endpoint.
    pub is_in: bool,
    /// Its address.
    pub address: u8,
}

/// One alternate setting of an interface.
#[derive(Debug, Clone, PartialEq, Eq)]
pub struct InterfaceSetting {
    /// Interface number.
    pub interface_number: u8,
    /// Interface class.
    pub class_code: u8,
    /// Interface subclass.
    pub sub_class_code: u8,
    /// Endpoints in descriptor order.
    pub endpoints: Vec<EndpointInfo>,
}

/// The bulk endpoints of a setting: its first bulk IN and first bulk OUT,
/// and whether it has a second bulk IN.
pub open spec fn bulk_scan(es: Seq<EndpointInfo>) -> (Option<u8>, Option<u8>, bool)
    decreases es.len(),
{
    if es.len() == 0 {
        (None, None, false)
    } else {
        let (i, o, extra) = bulk_scan(es.drop_last());
        let e = es.last();
        if !e.bulk {
            (i, o, extra)
        } else if e.is_in {
            if i is Some {
                (i, o, true)
            } else {
                (Some(e.address), o, extra)
            }
        } else {
            if o is None {
                (i, Some(e.address), extra)
            } else {
                (i, o, extra)
            }
        }
    }
}

/// Whether a setting is a vendor-specific data interface.
pub open spec fn is_data_setting(s: InterfaceSetting) -> bool {
    s.class_code == ACCESSORY_IFACE_CLASS && s.sub_class_code == ACCESSORY_IFACE_SUBCLASS
}

/// The endpoint triple of a setting, when it has both directions.
pub open spec fn triple_of(s: InterfaceSetting) -> Option<(u8, u8, u8)> {
    let (i, o, _) = bulk_scan(s.endpoints@);
    if is_data_setting(s) && i is Some && o is Some {
        Some((s.interface_number, i->0, o->0))
    } else {
        None
    }
}

/// Whether a setting has exactly one bulk IN and a bulk OUT.
pub open spec fn exact_shape(s: InterfaceSetting) -> bool {
    triple_of(s) is Some && !bulk_scan(s.endpoints@).2
}

/// The accessory data endpoints: the first vendor setting with exactly one
/// bulk IN and a bulk OUT; else the first vendor setting with both
/// directions; else none.
pub open spec fn endpoints_of(settings: Seq<InterfaceSetting>) -> Option<(u8, u8, u8)> {
    if exists|i: int| 0 <= i < settings.len() && exact_shape(#[trigger] settings[i]) {
        let i = choose|i: int|
            0 <= i < settings.len() && exact_shape(#[trigger] settings[i]) && forall|j: int|
                0 <= j < i ==> !exact_shape(#[trigger] settings[j]);
        triple_of(settings[i])
    } else if exists|i: int| 0 <= i < settings.len() && triple_of(#[trigger] settings[i]) is Some {
        let i = choose|i: int|
            0 <= i < settings.len() && triple_of(#[trigger] settings[i]) is Some && forall|j: int|
                0 <= j < i ==> triple_of(#[trigger] settings[j]) is None;
        triple_of(settings[i])
    } else {
        None
    }
}

fn scan_endpoints(es: &[EndpointInfo]) -> (r: (Option<u8>, Option<u8>, bool))
    ensures
        r == bulk_scan(es@),
{
    let mut bulk_in: Option<u8> = None;
    let mut bulk_out: Option<u8> = None;
    let mut extra_in = false;
    let mut i: usize = 0;
    while i < es.len()
        invariant
            i <= es@.len(),
            (bulk_in, bulk_out, extra_in) == bulk_scan(es@.subrange(0, i as int)),
        decreases es@.len() - i,
    {
        let e = es[i];
        assert(es@.subrange(0, i as int + 1).drop_last() =~= es@.subrange(0, i as int));
        if e.bulk {
            if e.is_in {
                if bulk_in.is_some() {
                    extra_in = true;
                } else {
                    bulk_in = Some(e.address);
                }
            } else {
                if bulk_out.is_none() {
                    bulk_out = Some(e.address);
                }
            }
        }
        i = i + 1;
    }
    assert(es@.subrange(0, es@.len() as int) =~= es@);
    (bulk_in, bulk_out, extra_in)
}

/// The accessory data interface and its bulk IN and OUT endpoints (see
/// `endpoints_of`); none is a transport error.
pub fn accessory_endpoints(settings: &[InterfaceSetting]) -> (r: Result<(u8, u8, u8), Error>)
    ensures
        match endpoints_of(settings@) {
            Some(t) => r == Ok::<(u8, u8, u8), Error>(t),
            None => r == Err::<(u8, u8, u8), Error>(Error::LocalIo(LocalFault::NoEndpoints)),
        },
{
    let mut first: Option<(u8, u8, u8)> = None;
    let mut first_at: usize = 0;
    let mut i: usize = 0;
    while i < settings.len()
        invariant
            i <= settings@.len(),
            forall|j: int| 0 <= j < i ==> !exact_shape(#[trigger] settings@[j]),
            first is None ==> forall|j: int| 0 <= j < i ==> triple_of(#[trigger] settings@[j]) is None,
            first matches Some(t) ==> first_at < i && triple_of(settings@[first_at as int]) == Some(t) && forall|j: int|
                0 <= j < first_at ==> triple_of(#[trigger] settings@[j]) is None,
        decreases settings@.len() - i,
    {
        let s = &settings[i];
        if s.class_code == ACCESSORY_IFACE_CLASS && s.sub_class_code == ACCESSORY_IFACE_SUBCLASS {
            let (bi, bo, extra) = scan_endpoints(s.endpoints.as_slice());
            match (bi, bo) {
                (Some(a), Some(b)) => {
                    if !extra {
                        proof {
                            assert(exact_shape(settings@[i as int]));
                            let w = choose|w: int|
                                0 <= w < settings@.len() && exact_shape(#[trigger] settings@[w]) && forall|j: int|
                                    0 <= j < w ==> !exact_shape(#[trigger] settings@[j]);
                            if w < i {
                                assert(!exact_shape(settings@[w]));
                            } else if w > i {
                                assert(!exact_shape(settings@[i as int]));
                            }
                        }
                        return Ok((s.interface_number, a, b));
                    }
                    if first.is_none() {
                        first = Some((s.interface_number, a, b));
                        first_at = i;
                    }
                },
                _ => {},
            }
        }
        i = i + 1;
    }
    match first {
        Some(t) => {
            proof {
                let w = choose|w: int|
                    0 <= w < settings@.len() && triple_of(#[trigger] settings@[w]) is Some && forall|j: int|
                        0 <= j < w ==> triple_of(#[trigger] settings@[j]) is None;
                if w < first_at {
                    assert(triple_of(settings@[w]) is None);
                } else if w > first_at {
                    assert(triple_of(settings@[first_at as int]) is None);
                }
            }
            Ok(t)
        },
        None => Err(Error::LocalIo(LocalFault::NoEndpoints)),
    }
}

/// Hand received bytes to a read with room for `remaining` bytes: leftover
/// bytes from an earlier chunk are served first (and `incoming` is then
/// ignored); otherwise as much of `incoming` as fits is served and the
/// rest is kept for the next read.
pub fn fill_buffer(remaining: usize, pending: &mut Vec<u8>, incoming: &[u8]) -> (served: Vec<u8>)
    ensures
        old(pending)@.len() > 0 ==> {
            let take = if old(pending)@.len() <= remaining {
                old(pending)@.len() as int
            } else {
                remaining as int
            };
            &&& served@ == old(pending)@.subrange(0, take)
            &&& final(pending)@ == old(pending)@.subrange(take, old(pending)@.len() as int)
        },
        old(pending)@.len() == 0 ==> {
            let take = if incoming@.len() <= remaining {
                incoming@.len() as int
            } else {
                remaining as int
            };
            &&& served@ == incoming@.subrange(0, take)
            &&& final(pending)@ == incoming@.subrange(take, incoming@.len() as int)
        },
{
    let mut served: Vec<u8> = Vec::new();
    if pending.len() > 0 {
        let take = if pending.len() <= remaining {
            pending.len()
        } else {
            remaining
        };
        let mut rest: Vec<u8> = Vec::new();
        let mut i: usize = 0;
        while i < pending.len()
            invariant
                i <= pending@.len(),
                pending@ == old(pending)@,
                take <= pending@.len(),
                i <= take ==> served@ == pending@.subrange(0, i as int) && rest@.len() == 0,
                i > take ==> served@ == pending@.subrange(0, take as int) && rest@ == pending@.subrange(
                    take as int,
                    i as int,
                ),
            decreases pending@.len() - i,
        {
            if i < take {
                served.push(pending[i]);
            } else {
                rest.push(pending[i]);
            }
            i = i + 1;
            assert(served@ =~= pending@.subrange(0, if i <= take { i as int } else { take as int }));
            if i > take {
                assert(rest@ =~= pending@.subrange(take as int, i as int));
            }
        }
        if take == pending.len() {
            assert(rest@ =~= pending@.subrange(take as int, pending@.len() as int));
        }
        *pending = rest;
        return served;
    }
    let take = if incoming.len() <= remaining {
        incoming.len()
    } else {
        remaining
    };
    let mut i: usize = 0;
    while i < incoming.len()
        invariant
            i <= incoming@.len(),
            pending@.len() == 0 || i > take,
            old(pending)@.len() == 0,
            take <= incoming@.len(),
            i <= take ==> served@ == incoming@.subrange(0, i as int) && pending@.len() == 0,
            i > take ==> served@ == incoming@.subrange(0, take as int) && pending@ == incoming@.subrange(
                take as int,
                i as int,
            ),
        decreases incoming@.len() - i,
    {
        if i < take {
            served.push(incoming[i]);
        } else {
            pending.push(incoming[i]);
        }
        i = i + 1;
        assert(served@ =~= incoming@.subrange(0, if i <= take { i as int } else { take as int }));
        if i > take {
            assert(pending@ =~= incoming@.subrange(take as int, i as int));
        }
    }
    if take == incoming.len() {
        assert(pending@ =~= incoming@.subrange(take as int, incoming@.len() as int));
    }
    served
}

/// A failed USB operation, as the USB library reports it.
#[derive(Debug, Clone, Copy, PartialEq, Eq, Structural)]
pub enum UsbErrorKind {
    /// The device is gone.
    NoDevice,
    /// The entity was not found.
    NotFound,
    /// The resource is busy.
    Busy,
    /// The endpoint stalled.
    Pipe,
    /// The operation timed out.
    Timeout,
    /// Any other failure.
    Other,
}

/// The transport error for a failed USB operation: a vanished device, a
/// busy one, a stalled pipe, or another transfer failure.
pub fn usb_error(kind: UsbErrorKind) -> (r: Error)
    ensures
        r == Error::Transport(
            match kind {
                UsbErrorKind::NoDevice | UsbErrorKind::NotFound => TransportFault::UsbGone,
                UsbErrorKind::Busy => TransportFault::UsbBusy,
                UsbErrorKind::Pipe => TransportFault::UsbPipe,
                _ => TransportFault::Usb,
            },
        ),
{
    match kind {
        UsbErrorKind::NoDevice | UsbErrorKind::NotFound => Error::Transport(TransportFault::UsbGone),
        UsbErrorKind::Busy => Error::Transport(TransportFault::UsbBusy),
        UsbErrorKind::Pipe => Error::Transport(TransportFault::UsbPipe),
        _ => Error::Transport(TransportFault::Usb),
    }
}

/// The identification strings sent to switch a plain device, at indexes
/// 0 to 4: manufacturer, model, description, version, and the host UUID
/// as the accessory serial.
pub fn identification_strings(host_uuid: &str) -> (r: Vec<(u16, String)>)
    ensures
        r@.len() == 5,
        r@[0].0 == 0 && r@[0].1@ == "Smartisan"@,
        r@[1].0 == 1 && r@[1].1@ == "HandShaker"@,
        r@[2].0 == 2 && r@[2].1@ == "HandShaker"@,
        r@[3].0 == 3 && r@[3].1@ == "1.0"@,
        r@[4].0 == 4 && r@[4].1@ == host_uuid@,
{
    let mut r: Vec<(u16, String)> = Vec::new();
    r.push((0, owned("Smartisan")));
    r.push((1, owned("HandShaker")));
    r.push((2, owned("HandShaker")));
    r.push((3, owned("1.0")));
    r.push((4, owned(host_uuid)));
    r
}

/// What the connector needs: an optional location, the host UUID sent as
/// accessory serial, and the bulk transfer timeout.
#[derive(Debug, Clone, PartialEq, Eq)]
pub struct UsbConnector {
    /// The location to connect to, when chosen.
    pub location: Option<String>,
    /// Host UUID.
    pub host_uuid: String,
    /// Bulk write timeout in milliseconds.
    pub timeout_ms: u64,
}

impl UsbConnector {
    /// A connector for the accessory at `location` (or the only one).
    pub fn new(location: Option<String>, host_uuid: &str, timeout_ms: u64) -> (r: Self)
        ensures
            r.location == location,
            r.host_uuid@ == host_uuid@,
            r.timeout_ms == timeout_ms,
    {
        UsbConnector { location, host_uuid: owned(host_uuid), timeout_ms }
    }
}

/// Which devices qualify, by their ids: a Smartisan device always
/// qualifies, in plain mode (to be switched); an accessory-vendor device
/// with one of the four accessory product ids qualifies in accessory mode;
/// any other device does not.
pub proof fn law_modes_by_vendor(vendor_id: u16, product_id: u16)
    ensures
        vendor_id == 0x29a9 ==> mode_of(vendor_id, product_id) == Some(AccessoryMode::Plain),
        vendor_id == 0x18d1 && 0x2d00 <= product_id <= 0x2d03 ==> mode_of(vendor_id, product_id) == Some(
            AccessoryMode::Accessory,
        ),
        vendor_id != 0x29a9 && !(vendor_id == 0x18d1 && 0x2d00 <= product_id <= 0x2d03) ==> mode_of(
            vendor_id,
            product_id,
        ) is None,
{
}

/// Every enumerated Smartisan device is listed as a candidate, in plain
/// mode: enumeration never drops a phone that only needs switching.
pub proof fn law_smartisan_devices_are_listed(ds: Seq<UsbDeviceInfo>, i: int)
    requires
        0 <= i < ds.len(),
        ds[i].vendor_id == 0x29a9,
    ensures
        qualifying(ds).contains(ds[i]),
        mode_of(ds[i].vendor_id, ds[i].product_id) == Some(AccessoryMode::Plain),
    decreases ds.len(),
{
    law_modes_by_vendor(ds[i].vendor_id, ds[i].product_id);
    let rest = qualifying(ds.drop_last());
    if i == ds.len() - 1 {
        assert(ds.last() == ds[i]);
        assert(qualifying(ds) == rest.push(ds[i]));
        assert(rest.push(ds[i])[rest.len() as int] == ds[i]);
    } else {
        assert(ds.drop_last()[i] == ds[i]);
        law_smartisan_devices_are_listed(ds.drop_last(), i);
        let k = rest.index_of(ds[i]);
        if mode_of(ds.last().vendor_id, ds.last().product_id) is Some {
            assert(rest.push(ds.last())[k] == ds[i]);
        }
    }
}

} // verus!
