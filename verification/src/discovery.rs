//! WiFi discovery over mDNS: the service browsed for, and how resolved
//! services become devices. Phones register a fixed instance name, so
//! devices are keyed by host; the port is dynamic and the latest resolution
//! of a host wins.
use vstd::prelude::*;

use crate::domain::WifiDevice;
use crate::keyed::KeyedList;
use crate::text::{chars_of, copy_string, string_from_chars};

verus! {

/// The mDNS service type the phone app advertises.
pub const HANDSHAKER_SERVICE_TYPE: &'static str = "_handshaker_ssp._tcp.local.";

/// The part of a name before its first `.`, or the whole name.
pub open spec fn before_dot(s: Seq<char>) -> Seq<char>
    decreases s.len(),
{
    if s.len() == 0 {
        s
    } else if s[0] == '.' {
        Seq::empty()
    } else {
        seq![s[0]] + before_dot(s.drop_first())
    }
}

/// The instance name of a full service name such as
/// `handshaker_ssp_._handshaker_ssp._tcp.local.`: the part before the
/// first `.`, or the whole name when it has none.
pub fn instance_name(fullname: &str) -> (r: String)
    ensures
        r@ == before_dot(fullname@),
{
    let cs = chars_of(fullname);
    let mut out: Vec<char> = Vec::new();
    let mut i: usize = 0;
    assert(cs@.subrange(0, cs@.len() as int) =~= cs@);
    assert(out@ + cs@ =~= cs@);
    while i < cs.len() && cs[i] != '.'
        invariant
            i <= cs@.len(),
            cs@ == fullname@,
            out@ == cs@.subrange(0, i as int),
            forall|j: int| 0 <= j < i ==> cs@[j] != '.',
            before_dot(cs@) == out@ + before_dot(cs@.subrange(i as int, cs@.len() as int)),
        decreases cs@.len() - i,
    {
        let ghost rest = cs@.subrange(i as int, cs@.len() as int);
        assert(rest.drop_first() =~= cs@.subrange(i as int + 1, cs@.len() as int));
        out.push(cs[i]);
        i = i + 1;
        assert(out@ =~= cs@.subrange(0, i as int));
    }
    proof {
        if i < cs.len() {
            assert(cs@.subrange(i as int, cs@.len() as int)[0] == '.');
        } else {
            assert(cs@.subrange(i as int, cs@.len() as int) =~= Seq::<char>::empty());
        }
        assert(cs@.subrange(0, cs@.len() as int) =~= cs@);
        assert(out@ + Seq::<char>::empty() =~= out@);
    }
    string_from_chars(out.as_slice())
}

/// A name without its trailing `.` characters.
pub open spec fn trim_dots(s: Seq<char>) -> Seq<char>
    decreases s.len(),
{
    if s.len() > 0 && s.last() == '.' {
        trim_dots(s.drop_last())
    } else {
        s
    }
}

/// A host name without its trailing dots (see `trim_dots`).
pub fn host_key(host: &str) -> (r: String)
    ensures
        r@ == trim_dots(host@),
{
    let mut cs = chars_of(host);
    while cs.len() > 0 && cs[cs.len() - 1] == '.'
        invariant
            trim_dots(cs@) == trim_dots(host@),
        decreases cs@.len(),
    {
        let ghost before = cs@;
        cs.pop();
        assert(cs@ =~= before.drop_last());
    }
    string_from_chars(cs.as_slice())
}

/// One resolved address.
#[derive(Debug, Clone, PartialEq, Eq)]
pub struct ServiceAddress {
    /// Whether it is an IPv4 address.
    pub is_v4: bool,
    /// Its text form.
    pub text: String,
}

/// A resolved mDNS service.
#[derive(Debug, Clone, PartialEq, Eq)]
pub struct ResolvedService {
    /// Full service name.
    pub fullname: String,
    /// Host name.
    pub host: String,
    /// Resolved addresses.
    pub addresses: Vec<ServiceAddress>,
    /// Advertised port.
    pub port: u16,
    /// TXT properties, in order.
    pub txt: Vec<(String, String)>,
}

/// Address texts with IPv4 addresses first, each group in its order.
pub open spec fn v4_first(addrs: Seq<ServiceAddress>) -> Seq<Seq<char>>
    decreases addrs.len(),
{
    group(addrs, true) + group(addrs, false)
}

/// The texts of the addresses of one family, in order.
pub open spec fn group(addrs: Seq<ServiceAddress>, v4: bool) -> Seq<Seq<char>>
    decreases addrs.len(),
{
    if addrs.len() == 0 {
        Seq::empty()
    } else if addrs.last().is_v4 == v4 {
        group(addrs.drop_last(), v4).push(addrs.last().text@)
    } else {
        group(addrs.drop_last(), v4)
    }
}

fn push_group(out: &mut Vec<String>, addrs: &[ServiceAddress], v4: bool)
    ensures
        final(out)@.map_values(|s: String| s@) == old(out)@.map_values(|s: String| s@) + group(addrs@, v4),
{
    let ghost start = old(out)@.map_values(|s: String| s@);
    let mut i: usize = 0;
    while i < addrs.len()
        invariant
            i <= addrs@.len(),
            start == old(out)@.map_values(|s: String| s@),
            out@.map_values(|s: String| s@) == start + group(addrs@.subrange(0, i as int), v4),
        decreases addrs@.len() - i,
    {
        let ghost before = out@.map_values(|s: String| s@);
        assert(addrs@.subrange(0, i as int + 1).drop_last() =~= addrs@.subrange(0, i as int));
        if addrs[i].is_v4 == v4 {
            out.push(copy_string(&addrs[i].text));
            assert(out@.map_values(|s: String| s@) =~= before.push(addrs@[i as int].text@));
        }
        i = i + 1;
    }
    assert(addrs@.subrange(0, addrs@.len() as int) =~= addrs@);
}

/// The last value of each TXT key, by key.
pub open spec fn txt_map(props: Seq<(String, String)>) -> Map<Seq<char>, Seq<char>>
    decreases props.len(),
{
    if props.len() == 0 {
        Map::empty()
    } else {
        txt_map(props.drop_last()).insert(props.last().0@, props.last().1@)
    }
}

/// The device a resolved service describes: the instance name, the host
/// without trailing dots, the addresses with IPv4 first, the port, and the
/// TXT properties in ascending key order, the last value of a repeated key
/// winning.
pub fn resolved_to_device(service: &ResolvedService) -> (r: WifiDevice)
    ensures
        r.instance@ == before_dot(service.fullname@),
        r.host@ == trim_dots(service.host@),
        r.addresses@.map_values(|s: String| s@) == v4_first(service.addresses@),
        r.port == service.port,
        crate::snapshot::sorted_keys(r.txt@.map_values(|e: (String, String)| e.0@)),
        forall|k: Seq<char>| #![trigger txt_map(service.txt@).dom().contains(k)]
            txt_map(service.txt@).dom().contains(k) <==> r.txt@.map_values(|e: (String, String)| e.0@).contains(k),
        forall|i: int| 0 <= i < r.txt@.len() ==> txt_map(service.txt@)[#[trigger] r.txt@[i].0@] == r.txt@[i].1@,
{
    let mut addresses: Vec<String> = Vec::new();
    push_group(&mut addresses, service.addresses.as_slice(), true);
    push_group(&mut addresses, service.addresses.as_slice(), false);
    assert(addresses@.map_values(|s: String| s@) =~= v4_first(service.addresses@));
    let mut txt: KeyedList<String> = KeyedList::new();
    let mut i: usize = 0;
    while i < service.txt.len()
        invariant
            i <= service.txt@.len(),
            txt.wf(),
            forall|k: Seq<char>| #[trigger] txt.get(k) is Some <==> txt_map(service.txt@.subrange(0, i as int)).dom().contains(k),
            forall|k: Seq<char>| #[trigger] txt.get(k) matches Some(v) ==> v@ == txt_map(service.txt@.subrange(0, i as int))[k],
        decreases service.txt@.len() - i,
    {
        let ghost sub = service.txt@.subrange(0, i as int + 1);
        assert(sub.drop_last() =~= service.txt@.subrange(0, i as int));
        assert(sub.last() == service.txt@[i as int]);
        let key = copy_string(&service.txt[i].0);
        let value = copy_string(&service.txt[i].1);
        txt.insert(key, value);
        i = i + 1;
    }
    assert(service.txt@.subrange(0, service.txt@.len() as int) =~= service.txt@);
    let ghost final_txt = txt;
    let pairs = txt.into_pairs();
    proof {
        assert(pairs@.map_values(|e: (String, String)| e.0@) == final_txt.keys());
        assert forall|k: Seq<char>| #![trigger txt_map(service.txt@).dom().contains(k)]
            txt_map(service.txt@).dom().contains(k) <==> pairs@.map_values(|e: (String, String)| e.0@).contains(k) by {
            assert(final_txt.get(k) is Some <==> final_txt.keys().contains(k));
        }
        assert forall|i: int| 0 <= i < pairs@.len() implies txt_map(service.txt@)[#[trigger] pairs@[i].0@] == pairs@[i].1@ by {
            let ks = final_txt.keys();
            assert(ks[i] == pairs@[i].0@);
            crate::snapshot::lemma_sorted_unique(ks, i);
            assert(final_txt.get(pairs@[i].0@) == Some(final_txt.values()[i]));
        }
    }
    WifiDevice {
        instance: instance_name(service.fullname.as_str()),
        host: host_key(service.host.as_str()),
        addresses,
        port: service.port,
        txt: pairs,
    }
}

/// The devices found while browsing, one per host (without trailing
/// dots), the latest resolution of a host replacing earlier ones.
pub struct WifiDeviceTable {
    devices: KeyedList<WifiDevice>,
}

impl WifiDeviceTable {
    /// The device recorded for a host key.
    pub closed spec fn device(&self, host: Seq<char>) -> Option<WifiDevice> {
        self.devices.get(host)
    }

    /// Well-formedness of the underlying keyed list.
    pub closed spec fn wf(&self) -> bool {
        self.devices.wf()
    }

    /// Hosts in ascending order.
    pub closed spec fn hosts(&self) -> Seq<Seq<char>> {
        self.devices.keys()
    }

    /// An empty table.
    pub fn new() -> (r: Self)
        ensures
            r.wf(),
            r.hosts().len() == 0,
    {
        WifiDeviceTable { devices: KeyedList::new() }
    }

    /// Record a resolution: it replaces any earlier device of its host.
    pub fn record(&mut self, service: &ResolvedService)
        requires
            old(self).wf(),
        ensures
            final(self).wf(),
            final(self).device(trim_dots(service.host@)) matches Some(d) && d.host@ == trim_dots(service.host@)
                && d.port == service.port,
            forall|h: Seq<char>| h != trim_dots(service.host@) ==> #[trigger] final(self).device(h) == old(self).device(h),
    {
        let device = resolved_to_device(service);
        let key = host_key(service.host.as_str());
        self.devices.insert(key, device);
    }

    /// The devices, in ascending host order.
    pub fn into_devices(self) -> (r: Vec<WifiDevice>)
        requires
            self.wf(),
        ensures
            r@.len() == self.hosts().len(),
            forall|i: int| 0 <= i < r@.len() ==> self.device(self.hosts()[i]) == Some(#[trigger] r@[i]),
    {
        let ghost t = self.devices;
        let r = self.devices.into_values();
        proof {
            assert forall|i: int| 0 <= i < r@.len() implies t.get(t.keys()[i]) == Some(#[trigger] r@[i]) by {
                crate::snapshot::lemma_sorted_unique(t.keys(), i);
            }
        }
        r
    }
}

} // verus!
