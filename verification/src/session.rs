//! Session bookkeeping around the byte stream: session-id allocation, the
//! routing of chunks that arrive for no pending request, raw downloads, and
//! which failures close the connection.
use vstd::prelude::*;

use crate::assembly::{push_step, step_view, DownloadDiscriminator, NormalAccumulator, StepResult, discriminator_step};
use crate::domain::{CancellationInfo, CancellationOrigin};
use crate::error::{Error, ProtocolFault};
use crate::events::CancelMessage;

verus! {

/// Session ids tried before allocation gives up.
pub const SID_ATTEMPTS: u32 = 1024;

/// The `k`-th session id after `counter` (wrapping).
pub open spec fn sid_after(counter: u32, k: nat) -> u32 {
    ((counter as nat + k) % 0x1_0000_0000) as u32
}

/// Allocate a session id: successive ids after `counter` (wrapping) are
/// tried, at most `SID_ATTEMPTS` of them, and the first not in `pending`
/// is taken. Returns the id and the new counter (the id itself); when all
/// tried ids are pending, allocation fails.
pub fn allocate_sid(counter: u32, pending: &[u32]) -> (r: Result<(u32, u32), Error>)
    ensures
        r matches Ok((sid, next)) ==> sid == next && exists|k: nat|
            1 <= k <= SID_ATTEMPTS && sid == sid_after(counter, k) && !pending@.contains(sid) && forall|j: nat|
                1 <= j < k ==> pending@.contains(#[trigger] sid_after(counter, j)),
        r is Err <==> forall|j: nat| 1 <= j <= SID_ATTEMPTS ==> pending@.contains(#[trigger] sid_after(counter, j)),
        r is Err ==> r == Err::<(u32, u32), Error>(Error::Protocol(ProtocolFault::SidExhausted)),
{
    let mut c = counter;
    let mut k: u32 = 0;
    while k < SID_ATTEMPTS
        invariant
            k <= SID_ATTEMPTS,
            c == sid_after(counter, k as nat),
            forall|j: nat| 1 <= j <= k ==> pending@.contains(#[trigger] sid_after(counter, j)),
        decreases SID_ATTEMPTS - k,
    {
        let sid = c.wrapping_add(1);
        assert(sid == sid_after(counter, (k + 1) as nat)) by {
            assert(((counter as nat + k) % 0x1_0000_0000 + 1) % 0x1_0000_0000 == (counter as nat + k + 1)
                % 0x1_0000_0000) by (nonlinear_arith);
        }
        let mut taken = false;
        let mut i: usize = 0;
        while i < pending.len()
            invariant
                i <= pending@.len(),
                taken == exists|q: int| 0 <= q < i && pending@[q] == sid,
            decreases pending@.len() - i,
        {
            if pending[i] == sid {
                taken = true;
            }
            i = i + 1;
        }
        k = k + 1;
        c = sid;
        if !taken {
            assert(!pending@.contains(sid));
            return Ok((sid, sid));
        }
        assert(pending@.contains(sid));
    }
    Err(Error::Protocol(ProtocolFault::SidExhausted))
}

/// The session a phone cancel names: its session id when it fits in 32
/// bits, else the id it arrived on.
pub open spec fn target_of(session_id: Option<u64>, sid: u32) -> u32 {
    match session_id {
        Some(s) => if s <= u32::MAX {
            s as u32
        } else {
            sid
        },
        None => sid,
    }
}

/// The session a phone cancel names (see `target_of`).
pub fn target_sid(session_id: Option<u64>, sid: u32) -> (r: u32)
    ensures
        r == target_of(session_id, sid),
{
    match session_id {
        Some(s) => if s <= u32::MAX as u64 {
            s as u32
        } else {
            sid
        },
        None => sid,
    }
}

/// The cancellation a phone cancel message reports for a request on `sid`:
/// remote, with the phone's error code, leaving the connection open.
pub fn remote_cancellation(cancel: &CancelMessage, sid: u32) -> (r: CancellationInfo)
    ensures
        r.sid == target_of(cancel.session_id, sid),
        r.origin == (CancellationOrigin::Remote { error_code: cancel.error_code }),
        !r.connection_closed,
{
    CancellationInfo {
        sid: target_sid(cancel.session_id, sid),
        origin: CancellationOrigin::Remote { error_code: cancel.error_code },
        connection_closed: false,
    }
}

/// Whether a failed request closes the connection: every failure does,
/// except a cancellation that left the connection open.
pub fn fails_connection(error: &Error) -> (r: bool)
    ensures
        r == !(error matches Error::Cancelled(info) && !info.connection_closed),
{
    match error {
        Error::Cancelled(info) => info.connection_closed,
        _ => true,
    }
}

/// A normal answer may not be awaited once a raw download has begun.
pub fn check_normal_phase(raw_phase: bool) -> (r: Result<(), Error>)
    ensures
        raw_phase <==> r is Err,
        r is Err ==> r == Err::<(), Error>(Error::Protocol(ProtocolFault::RawAfterDownload)),
{
    if raw_phase {
        return Err(Error::Protocol(ProtocolFault::RawAfterDownload));
    }
    Ok(())
}

/// Where a downstream chunk went.
#[derive(Debug, PartialEq, Eq)]
pub enum Routed {
    /// To the pending request on its session id.
    Pending,
    /// Held: a phone-initiated message still in progress.
    Partial,
    /// A complete phone-initiated message body.
    Body(Vec<u8>),
    /// A malformed phone-initiated message, discarded.
    Dropped,
}

/// Session ids of reassembly entries.
pub open spec fn entry_keys(es: Seq<(u32, NormalAccumulator)>) -> Seq<u32> {
    es.map_values(|e: (u32, NormalAccumulator)| e.0)
}

/// The reassembly state recorded for `sid`: bytes kept and declared length.
pub open spec fn entry_state(es: Seq<(u32, NormalAccumulator)>, sid: u32) -> Option<(Seq<u8>, Option<nat>)> {
    if entry_keys(es).contains(sid) {
        let e = es[entry_keys(es).index_of(sid)];
        Some((e.1.bytes(), e.1.total()))
    } else {
        None
    }
}

/// At most one entry per session id.
pub open spec fn unique_keys(es: Seq<(u32, NormalAccumulator)>) -> bool {
    forall|i: int, j: int| 0 <= i < j < es.len() ==> es[i].0 != es[j].0
}

proof fn lemma_unique_index(es: Seq<(u32, NormalAccumulator)>, i: int)
    requires
        unique_keys(es),
        0 <= i < es.len(),
    ensures
        entry_keys(es).contains(es[i].0),
        entry_keys(es).index_of(es[i].0) == i,
{
    let ks = entry_keys(es);
    assert(ks[i] == es[i].0);
    let x = ks.index_of(es[i].0);
    assert(ks[x] == es[i].0);
    if x < i {
        assert(es[x].0 != es[i].0);
    } else if x > i {
        assert(es[i].0 != es[x].0);
    }
}

proof fn lemma_state_remove(es: Seq<(u32, NormalAccumulator)>, i: int, s: u32)
    requires
        unique_keys(es),
        0 <= i < es.len(),
    ensures
        unique_keys(es.remove(i)),
        s == es[i].0 ==> entry_state(es.remove(i), s) is None,
        s != es[i].0 ==> entry_state(es.remove(i), s) == entry_state(es, s),
{
    let r = es.remove(i);
    assert forall|p: int, q: int| 0 <= p < q < r.len() implies r[p].0 != r[q].0 by {
        let pp = if p < i { p } else { p + 1 };
        let qq = if q < i { q } else { q + 1 };
        assert(r[p] == es[pp]);
        assert(r[q] == es[qq]);
    }
    let kr = entry_keys(r);
    let ke = entry_keys(es);
    if kr.contains(s) {
        let x = kr.index_of(s);
        let y = if x < i { x } else { x + 1 };
        assert(r[x] == es[y]);
        assert(kr[x] == s);
        lemma_unique_index(r, x);
        lemma_unique_index(es, y);
        if s == es[i].0 {
            assert(y != i);
            if y < i {
                assert(es[y].0 != es[i].0);
            } else {
                assert(es[i].0 != es[y].0);
            }
        }
    } else if s != es[i].0 && ke.contains(s) {
        let y = ke.index_of(s);
        assert(ke[y] == s);
        assert(y != i);
        let x = if y < i { y } else { y - 1 };
        assert(r[x] == es[y]);
        assert(kr[x] == s);
    }
}

proof fn lemma_state_push(es: Seq<(u32, NormalAccumulator)>, sid: u32, a: NormalAccumulator, s: u32)
    requires
        unique_keys(es),
        !entry_keys(es).contains(sid),
    ensures
        unique_keys(es.push((sid, a))),
        entry_state(es.push((sid, a)), s) == if s == sid {
            Some((a.bytes(), a.total()))
        } else {
            entry_state(es, s)
        },
{
    let r = es.push((sid, a));
    assert forall|p: int, q: int| 0 <= p < q < r.len() implies r[p].0 != r[q].0 by {
        if q == es.len() {
            assert(entry_keys(es)[p] == es[p].0);
        }
    }
    let kr = entry_keys(r);
    let ke = entry_keys(es);
    assert(kr =~= ke.push(sid));
    if s == sid {
        lemma_unique_index(r, es.len() as int);
    } else {
        if ke.contains(s) {
            let y = ke.index_of(s);
            assert(ke[y] == s);
            lemma_unique_index(es, y);
            lemma_unique_index(r, y);
        } else if kr.contains(s) {
            let x = kr.index_of(s);
            assert(kr[x] == s);
            assert(x < es.len());
            assert(ke[x] == s);
        }
    }
}

/// Routes chunks that arrive for session ids with no pending request: each
/// such id reassembles its own phone-initiated message.
pub struct PushRouter {
    unmatched: Vec<(u32, NormalAccumulator)>,
}

impl PushRouter {
    /// The reassembly state of a session id: bytes kept and declared length.
    pub closed spec fn state_of(&self, sid: u32) -> Option<(Seq<u8>, Option<nat>)> {
        entry_state(self.unmatched@, sid)
    }

    /// Well-formedness: one accumulator per session id, each well formed.
    pub closed spec fn wf(&self) -> bool {
        &&& unique_keys(self.unmatched@)
        &&& forall|i: int| 0 <= i < self.unmatched@.len() ==> (#[trigger] self.unmatched@[i]).1.wf()
    }

    /// A router with nothing in progress.
    pub fn new() -> (r: Self)
        ensures
            r.wf(),
            forall|s: u32| #[trigger] r.state_of(s) is None,
    {
        PushRouter { unmatched: Vec::new() }
    }

    /// Route one chunk on `sid`. With a pending request it goes there and
    /// nothing changes. Otherwise it extends that id's message (see
    /// `push_step`, from empty when none is in progress): a complete body
    /// is returned and a malformed message discarded, both ending that
    /// id's reassembly; other ids are untouched.
    pub fn route(&mut self, sid: u32, chunk: &[u8], pending: bool) -> (r: Routed)
        requires
            old(self).wf(),
            chunk@.len() <= crate::frame::MAX_DOWNSTREAM_CHUNK,
        ensures
            final(self).wf(),
            pending ==> r == Routed::Pending && forall|s: u32| #[trigger] final(self).state_of(s) == old(self).state_of(s),
            !pending ==> ({
                let (bytes, total) = match old(self).state_of(sid) {
                    Some(st) => st,
                    None => (Seq::<u8>::empty(), None::<nat>),
                };
                let (res, nb, nt) = push_step(bytes, total, chunk@);
                &&& match res {
                    Ok(None) => r == Routed::Partial && final(self).state_of(sid) == Some((nb, nt)),
                    Ok(Some(body)) => r matches Routed::Body(b) && b@ == body && final(self).state_of(sid) is None,
                    Err(_) => r == Routed::Dropped && final(self).state_of(sid) is None,
                }
                &&& forall|s: u32| s != sid ==> #[trigger] final(self).state_of(s) == old(self).state_of(s)
            }),
    {
        if pending {
            return Routed::Pending;
        }
        let ghost before = self.unmatched@;
        let mut i: usize = 0;
        while i < self.unmatched.len() && self.unmatched[i].0 != sid
            invariant
                i <= self.unmatched@.len(),
                self.unmatched@ == before,
                forall|j: int| 0 <= j < i ==> self.unmatched@[j].0 != sid,
            decreases self.unmatched@.len() - i,
        {
            i = i + 1;
        }
        let found = i < self.unmatched.len();
        proof {
            if found {
                lemma_unique_index(before, i as int);
            } else {
                assert(!entry_keys(before).contains(sid)) by {
                    if entry_keys(before).contains(sid) {
                        let x = entry_keys(before).index_of(sid);
                        assert(entry_keys(before)[x] == sid);
                    }
                }
            }
        }
        let acc0 = if found {
            let (_, a) = self.unmatched.remove(i);
            a
        } else {
            NormalAccumulator::new()
        };
        let ghost mid = self.unmatched@;
        proof {
            if found {
                assert(mid == before.remove(i as int));
                assert(acc0 == before[i as int].1);
                lemma_state_remove(before, i as int, sid);
                assert forall|s: u32| s != sid implies entry_state(mid, s) == entry_state(before, s) by {
                    lemma_state_remove(before, i as int, s);
                }
                assert forall|q: int| 0 <= q < mid.len() implies (#[trigger] mid[q]).1.wf() by {
                    let qq = if q < i { q } else { q + 1 };
                    assert(mid[q] == before[qq]);
                }
            } else {
                assert(mid == before);
            }
            assert(!entry_keys(mid).contains(sid)) by {
                if entry_keys(mid).contains(sid) {
                    let x = entry_keys(mid).index_of(sid);
                    assert(entry_keys(mid)[x] == sid);
                    if found {
                        lemma_state_remove(before, i as int, sid);
                    }
                }
            }
        }
        let mut acc = acc0;
        let res = acc.push(chunk);
        match res {
            Ok(None) => {
                self.unmatched.push((sid, acc));
                proof {
                    assert(self.unmatched@ == mid.push((sid, acc)));
                    lemma_state_push(mid, sid, acc, sid);
                    assert forall|s: u32| s != sid implies #[trigger] entry_state(self.unmatched@, s) == entry_state(before, s) by {
                        lemma_state_push(mid, sid, acc, s);
                    }
                    assert forall|q: int| 0 <= q < self.unmatched@.len() implies (#[trigger] self.unmatched@[q]).1.wf() by {
                        if q < mid.len() {
                            assert(self.unmatched@[q] == mid[q]);
                        }
                    }
                }
                Routed::Partial
            },
            Ok(Some(body)) => {
                proof {
                    assert forall|s: u32| s != sid implies #[trigger] entry_state(self.unmatched@, s) == entry_state(before, s) by {
                    }
                }
                Routed::Body(body)
            },
            Err(_) => {
                Routed::Dropped
            },
        }
    }
}

/// A raw download in progress: `total` bytes are expected; chunks pass
/// through the discriminator, more than `total` bytes is refused, and the
/// MD5 of every delivered byte is kept for the final checksum.
pub struct RawDownload {
    total: usize,
    received: usize,
    discriminator: DownloadDiscriminator,
    md5: crate::digest::Md5Stream,
}

impl RawDownload {
    /// Bytes expected in all.
    pub closed spec fn spec_total(&self) -> nat {
        self.total as nat
    }

    /// Bytes delivered so far.
    pub closed spec fn spec_received(&self) -> nat {
        self.received as nat
    }

    /// Bytes held back by the discriminator.
    pub closed spec fn held(&self) -> Seq<u8> {
        self.discriminator.candidate()
    }

    /// Announced envelope length held by the discriminator.
    pub closed spec fn held_expected(&self) -> Option<nat> {
        self.discriminator.expected()
    }

    /// The bytes delivered so far, in order.
    pub closed spec fn delivered(&self) -> Seq<u8> {
        self.md5.fed()
    }

    /// Well-formedness: never more delivered than expected, and the
    /// delivered bytes are counted.
    pub closed spec fn wf(&self) -> bool {
        &&& self.received <= self.total
        &&& self.discriminator.wf()
        &&& self.md5.fed().len() == self.received
    }

    /// Start a download of `total` bytes; a length beyond the address
    /// space is refused.
    pub fn new(total: u64) -> (r: Result<Self, Error>)
        ensures
            total > usize::MAX ==> r == Err::<RawDownload, Error>(Error::Protocol(ProtocolFault::FileTooLarge)),
            total <= usize::MAX ==> (r matches Ok(d) && d.wf() && d.spec_total() == total && d.spec_received() == 0
                && d.held() == Seq::<u8>::empty() && d.held_expected() is None && d.delivered()
                == Seq::<u8>::empty()),
    {
        if total > usize::MAX as u64 {
            return Err(Error::Protocol(ProtocolFault::FileTooLarge));
        }
        Ok(
            RawDownload {
                total: total as usize,
                received: 0,
                discriminator: DownloadDiscriminator::new(),
                md5: crate::digest::Md5Stream::new(),
            },
        )
    }

    /// Whether every expected byte was delivered.
    pub fn is_done(&self) -> (r: bool)
        ensures
            r == (self.spec_received() >= self.spec_total()),
    {
        self.received >= self.total
    }

    /// Bytes delivered so far.
    pub fn received(&self) -> (r: usize)
        ensures
            r == self.spec_received(),
    {
        self.received
    }

    /// Feed one chunk (see `discriminator_step`, with the bytes still
    /// expected): bytes it releases are delivered, unless they would exceed
    /// the announced total, which is refused.
    pub fn push(&mut self, chunk: &[u8]) -> (r: Result<Option<Vec<u8>>, Error>)
        requires
            old(self).wf(),
            chunk@.len() <= crate::frame::MAX_DOWNSTREAM_CHUNK,
        ensures
            final(self).spec_total() == old(self).spec_total(),
            r is Ok ==> final(self).wf(),
            ({
                let (res, c, e) = discriminator_step(
                    old(self).held(),
                    old(self).held_expected(),
                    chunk@,
                    (old(self).spec_total() - old(self).spec_received()) as nat,
                );
                match res {
                    Err(f) => r == Err::<Option<Vec<u8>>, Error>(Error::Protocol(f)),
                    Ok(None) => r matches Ok(None) && final(self).held() == c && final(self).held_expected() == e
                        && final(self).spec_received() == old(self).spec_received() && final(self).delivered()
                        == old(self).delivered(),
                    Ok(Some(bytes)) => if old(self).spec_received() + bytes.len() > old(self).spec_total() {
                        r == Err::<Option<Vec<u8>>, Error>(Error::Protocol(ProtocolFault::DownloadTooLong))
                    } else {
                        r matches Ok(Some(v)) && v@ == bytes && final(self).spec_received() == old(self).spec_received()
                            + bytes.len() && final(self).held() == c && final(self).held_expected() == e
                            && final(self).delivered() == old(self).delivered() + bytes
                    },
                }
            }),
    {
        let remaining = self.total - self.received;
        let out = self.discriminator.push(chunk, remaining);
        match out {
            Err(e) => Err(e),
            Ok(None) => Ok(None),
            Ok(Some(bytes)) => {
                if bytes.len() > self.total - self.received {
                    return Err(Error::Protocol(ProtocolFault::DownloadTooLong));
                }
                self.received = self.received + bytes.len();
                self.md5.update(bytes.as_slice());
                Ok(Some(bytes))
            },
        }
    }

    /// Lowercase hex MD5 of every byte delivered, checked against the
    /// checksum the phone announced.
    pub fn md5_hex(self) -> (r: String)
        ensures
            r@ == crate::text::hex_bytes(crate::digest::md5_digest(self.delivered())),
    {
        self.md5.finish_hex()
    }
}

} // verus!
