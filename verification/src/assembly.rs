//! Reassembly of length-prefixed SSP messages from downstream chunks.
//!
//! A normal response (and a phone-initiated push) is an 8-byte big-endian
//! body length followed by the body, split across any number of chunks.
use vstd::prelude::*;

use crate::error::{Error, ProtocolFault};
use crate::frame::be_value;

verus! {

/// Largest body of a phone-initiated push message.
pub const MAX_PUSH_MESSAGE: usize = 4 * 1024 * 1024;

/// Largest body of a normal response to a request.
pub const NORMAL_RESPONSE_LIMIT: usize = 64 * 1024 * 1024;

/// Largest body of a handshake response.
pub const MAX_HANDSHAKE_RESPONSE: usize = 16 * 1024 * 1024;

/// `256^n`.
pub open spec fn pow256(n: nat) -> nat
    decreases n,
{
    if n == 0 {
        1
    } else {
        256 * pow256((n - 1) as nat)
    }
}

proof fn lemma_pow256_mono(a: nat, b: nat)
    requires
        a <= b,
    ensures
        pow256(a) <= pow256(b),
    decreases b,
{
    if a < b {
        lemma_pow256_mono(a, (b - 1) as nat);
    }
}

/// A big-endian value is below `256^len`.
pub proof fn lemma_be_value_bound(s: Seq<u8>)
    ensures
        be_value(s) < pow256(s.len()),
    decreases s.len(),
{
    if s.len() > 0 {
        lemma_be_value_bound(s.drop_last());
        let p = pow256((s.len() - 1) as nat);
        let v = be_value(s.drop_last());
        let b = s.last() as nat;
        assert(v * 256 + b < p * 256) by (nonlinear_arith)
            requires
                v < p,
                b < 256,
        ;
    }
}

/// Read the 8-byte big-endian length prefix.
pub fn read_be_u64(bytes: &Vec<u8>) -> (value: u64)
    requires
        bytes@.len() >= 8,
    ensures
        value as nat == be_value(bytes@.subrange(0, 8)),
{
    let mut value: u64 = 0;
    let mut i: usize = 0;
    while i < 8
        invariant
            i <= 8,
            bytes@.len() >= 8,
            value as nat == be_value(bytes@.subrange(0, i as int)),
        decreases 8 - i,
    {
        proof {
            lemma_be_value_bound(bytes@.subrange(0, i as int));
            lemma_pow256_mono((i + 1) as nat, 8);
            reveal_with_fuel(pow256, 9);
            assert(bytes@.subrange(0, i as int + 1).drop_last() =~= bytes@.subrange(0, i as int));
            let p = pow256(i as nat);
            let v = value as nat;
            let b = bytes@[i as int] as nat;
            assert(v * 256 + b < p * 256) by (nonlinear_arith)
                requires
                    v < p,
                    b < 256,
            ;
            assert(pow256((i + 1) as nat) == 256 * p);
        }
        value = value * 256 + bytes[i] as u64;
        i = i + 1;
    }
    value
}

/// The outcome of feeding one chunk to an assembler: an error, no complete
/// body yet, or the complete body.
pub type StepResult = Result<Option<Seq<u8>>, ProtocolFault>;

/// View of an exec step result.
pub open spec fn step_view(r: Result<Option<Vec<u8>>, Error>) -> StepResult {
    match r {
        Ok(Some(body)) => Ok(Some(body@)),
        Ok(None) => Ok(None),
        Err(Error::Protocol(fault)) => Err(fault),
        Err(_) => Err(ProtocolFault::ResponseTooLong),
    }
}

/// One step of response reassembly under a body-length cap `limit`:
/// the chunk is appended, the prefix read once eight bytes are present,
/// a declared length above `limit` refused, the body returned once exactly
/// `8 + length` bytes arrived, and any overshoot refused. On completion the
/// kept bytes are the prefix alone.
pub open spec fn response_step(limit: nat, bytes: Seq<u8>, total: Option<nat>, chunk: Seq<u8>) -> (
    StepResult,
    Seq<u8>,
    Option<nat>,
) {
    let b = bytes + chunk;
    let t = if total is None && b.len() >= 8 {
        Some(be_value(b.subrange(0, 8)))
    } else {
        total
    };
    match t {
        None => (Ok(None), b, t),
        Some(n) => if n > limit {
            (Err(ProtocolFault::ResponseLengthTooLarge), b, t)
        } else if b.len() == n + 8 {
            (Ok(Some(b.subrange(8, b.len() as int))), b.subrange(0, 8), t)
        } else if b.len() > n + 8 {
            (Err(ProtocolFault::ResponseTooLong), b, t)
        } else {
            (Ok(None), b, t)
        },
    }
}

/// Reassembles one length-prefixed response (request replies and the
/// handshake reply) under a fixed body-length cap.
pub struct ResponseAssembler {
    bytes: Vec<u8>,
    total: Option<u64>,
    limit: usize,
}

impl ResponseAssembler {
    /// The bytes kept so far.
    pub closed spec fn bytes(&self) -> Seq<u8> {
        self.bytes@
    }

    /// The declared body length, once known.
    pub closed spec fn total(&self) -> Option<nat> {
        match self.total {
            Some(t) => Some(t as nat),
            None => None,
        }
    }

    /// The body-length cap.
    pub closed spec fn limit(&self) -> nat {
        self.limit as nat
    }

    /// Well-formedness: a known total is the prefix of the kept bytes.
    pub closed spec fn wf(&self) -> bool {
        &&& self.bytes@.len() <= self.limit + 8
        &&& self.limit <= NORMAL_RESPONSE_LIMIT
        &&& (self.total matches Some(t) ==> self.bytes@.len() >= 8 && t as nat == be_value(
            self.bytes@.subrange(0, 8),
        ) && t <= self.limit)
        &&& (self.total is None ==> self.bytes@.len() < 8)
    }

    /// An empty assembler with body cap `limit`.
    pub fn new(limit: usize) -> (result: Self)
        requires
            limit <= NORMAL_RESPONSE_LIMIT,
        ensures
            result.wf(),
            result.bytes() == Seq::<u8>::empty(),
            result.total() is None,
            result.limit() == limit,
    {
        ResponseAssembler { bytes: Vec::new(), total: None, limit }
    }

    /// Feed one chunk (see `response_step`).
    pub fn push(&mut self, chunk: &[u8]) -> (result: Result<Option<Vec<u8>>, Error>)
        requires
            old(self).wf(),
            chunk@.len() <= crate::frame::MAX_DOWNSTREAM_CHUNK,
        ensures
            (step_view(result), final(self).bytes(), final(self).total()) == response_step(
                old(self).limit(),
                old(self).bytes(),
                old(self).total(),
                chunk@,
            ),
            final(self).limit() == old(self).limit(),
            result is Err || final(self).wf(),
            result matches Err(e) ==> e is Protocol,
    {
        let ghost b = old(self).bytes@ + chunk@;
        let mut i: usize = 0;
        while i < chunk.len()
            invariant
                i <= chunk@.len(),
                self.bytes@ == old(self).bytes@ + chunk@.subrange(0, i as int),
                self.total == old(self).total,
                self.limit == old(self).limit,
                old(self).bytes@.len() <= old(self).limit + 8,
                chunk@.len() <= crate::frame::MAX_DOWNSTREAM_CHUNK,
                old(self).limit <= NORMAL_RESPONSE_LIMIT,
            decreases chunk@.len() - i,
        {
            self.bytes.push(chunk[i]);
            i = i + 1;
            assert(self.bytes@ =~= old(self).bytes@ + chunk@.subrange(0, i as int));
        }
        assert(chunk@.subrange(0, chunk@.len() as int) =~= chunk@);
        assert(self.bytes@ == b);
        proof {
            if old(self).bytes@.len() >= 8 {
                assert(b.subrange(0, 8) =~= old(self).bytes@.subrange(0, 8));
            }
        }
        if self.total.is_none() && self.bytes.len() >= 8 {
            let t = read_be_u64(&self.bytes);
            self.total = Some(t);
        }
        match self.total {
            None => Ok(None),
            Some(t) => {
                if t > self.limit as u64 {
                    return Err(Error::Protocol(ProtocolFault::ResponseLengthTooLarge));
                }
                let expected = t as usize + 8;
                if self.bytes.len() == expected {
                    let body = self.bytes.split_off(8);
                    assert(self.bytes@.subrange(0, 8) =~= b.subrange(0, 8));
                    Ok(Some(body))
                } else if self.bytes.len() > expected {
                    Err(Error::Protocol(ProtocolFault::ResponseTooLong))
                } else {
                    Ok(None)
                }
            },
        }
    }
}

/// One step of push-message reassembly: like `response_step` with the push
/// cap, but the accumulated bytes themselves are also capped first.
pub open spec fn push_step(bytes: Seq<u8>, total: Option<nat>, chunk: Seq<u8>) -> (
    StepResult,
    Seq<u8>,
    Option<nat>,
) {
    let b = bytes + chunk;
    if b.len() > MAX_PUSH_MESSAGE + 8 {
        (Err(ProtocolFault::EventLengthTooLarge), b, total)
    } else {
        let declared = if total is None && b.len() >= 8 {
            Some(be_value(b.subrange(0, 8)))
        } else {
            None
        };
        if declared matches Some(d) && d > MAX_PUSH_MESSAGE {
            (Err(ProtocolFault::EventLengthTooLarge), b, total)
        } else {
            let t = if declared is Some {
                declared
            } else {
                total
            };
            match t {
                None => (Ok(None), b, t),
                Some(n) => if b.len() == n + 8 {
                    (Ok(Some(b.subrange(8, b.len() as int))), b.subrange(0, 8), t)
                } else if b.len() > n + 8 {
                    (Err(ProtocolFault::EventTooLong), b, t)
                } else {
                    (Ok(None), b, t)
                },
            }
        }
    }
}

/// Reassembles a phone-initiated message that arrived on a session id
/// with no pending request.
pub struct NormalAccumulator {
    bytes: Vec<u8>,
    total: Option<usize>,
}

impl NormalAccumulator {
    /// The bytes kept so far.
    pub closed spec fn bytes(&self) -> Seq<u8> {
        self.bytes@
    }

    /// The declared body length, once known.
    pub closed spec fn total(&self) -> Option<nat> {
        match self.total {
            Some(t) => Some(t as nat),
            None => None,
        }
    }

    /// Well-formedness: the kept bytes are within the push cap and a known
    /// total is their prefix.
    pub closed spec fn wf(&self) -> bool {
        &&& self.bytes@.len() <= MAX_PUSH_MESSAGE + 8
        &&& (self.total matches Some(t) ==> self.bytes@.len() >= 8 && t as nat == be_value(
            self.bytes@.subrange(0, 8),
        ) && t <= MAX_PUSH_MESSAGE)
        &&& (self.total is None ==> self.bytes@.len() < 8)
    }

    /// An empty accumulator.
    pub fn new() -> (result: Self)
        ensures
            result.wf(),
            result.bytes() == Seq::<u8>::empty(),
            result.total() is None,
    {
        NormalAccumulator { bytes: Vec::new(), total: None }
    }

    /// Feed one chunk (see `push_step`).
    pub fn push(&mut self, chunk: &[u8]) -> (result: Result<Option<Vec<u8>>, Error>)
        requires
            old(self).wf(),
            chunk@.len() <= crate::frame::MAX_DOWNSTREAM_CHUNK,
        ensures
            (step_view(result), final(self).bytes(), final(self).total()) == push_step(
                old(self).bytes(),
                old(self).total(),
                chunk@,
            ),
            result is Err || final(self).wf(),
            result matches Err(e) ==> e is Protocol,
    {
        let ghost b = old(self).bytes@ + chunk@;
        let mut i: usize = 0;
        while i < chunk.len()
            invariant
                i <= chunk@.len(),
                self.bytes@ == old(self).bytes@ + chunk@.subrange(0, i as int),
                self.total == old(self).total,
                old(self).bytes@.len() <= MAX_PUSH_MESSAGE + 8,
                chunk@.len() <= crate::frame::MAX_DOWNSTREAM_CHUNK,
            decreases chunk@.len() - i,
        {
            self.bytes.push(chunk[i]);
            i = i + 1;
            assert(self.bytes@ =~= old(self).bytes@ + chunk@.subrange(0, i as int));
        }
        assert(chunk@.subrange(0, chunk@.len() as int) =~= chunk@);
        assert(self.bytes@ == b);
        proof {
            if old(self).bytes@.len() >= 8 {
                assert(b.subrange(0, 8) =~= old(self).bytes@.subrange(0, 8));
            }
        }
        if self.bytes.len() > MAX_PUSH_MESSAGE + 8 {
            return Err(Error::Protocol(ProtocolFault::EventLengthTooLarge));
        }
        if self.total.is_none() && self.bytes.len() >= 8 {
            let declared = read_be_u64(&self.bytes);
            if declared > MAX_PUSH_MESSAGE as u64 {
                return Err(Error::Protocol(ProtocolFault::EventLengthTooLarge));
            }
            self.total = Some(declared as usize);
        }
        match self.total {
            None => Ok(None),
            Some(t) => {
                let expected = t + 8;
                if self.bytes.len() == expected {
                    let body = self.bytes.split_off(8);
                    assert(self.bytes@.subrange(0, 8) =~= b.subrange(0, 8));
                    Ok(Some(body))
                } else if self.bytes.len() > expected {
                    Err(Error::Protocol(ProtocolFault::EventTooLong))
                } else {
                    Ok(None)
                }
            },
        }
    }
}

/// A message whose 8-byte prefix announces exactly the length that follows.
pub open spec fn self_describing(m: Seq<u8>) -> bool {
    m.len() >= 8 && be_value(m.subrange(0, 8)) == m.len() - 8
}

/// The state reassembly holds after a proper prefix `p` of message `m`.
pub open spec fn prefix_state(m: Seq<u8>, p: Seq<u8>, total: Option<nat>) -> bool {
    &&& p.len() < m.len()
    &&& p =~= m.subrange(0, p.len() as int)
    &&& total == (if p.len() >= 8 {
        Some((m.len() - 8) as nat)
    } else {
        None::<nat>
    })
}

/// Reassembly is independent of chunking: feeding any chunk that extends a
/// proper prefix of a well-formed response (body within the cap) yields
/// nothing while bytes are missing, and exactly the body once the last byte
/// arrives.
pub proof fn law_response_chunking(limit: nat, m: Seq<u8>, p: Seq<u8>, total: Option<nat>, c: Seq<u8>)
    requires
        self_describing(m),
        m.len() - 8 <= limit,
        prefix_state(m, p, total),
        p.len() + c.len() <= m.len(),
        p + c =~= m.subrange(0, (p.len() + c.len()) as int),
    ensures
        ({
            let (r, b, t) = response_step(limit, p, total, c);
            if p.len() + c.len() == m.len() {
                r == Ok::<Option<Seq<u8>>, ProtocolFault>(Some(m.subrange(8, m.len() as int)))
            } else {
                r == Ok::<Option<Seq<u8>>, ProtocolFault>(None) && prefix_state(m, b, t)
            }
        }),
{
    let b = p + c;
    if b.len() >= 8 {
        assert(b.subrange(0, 8) =~= m.subrange(0, 8));
    }
    if b.len() == m.len() {
        assert(b =~= m);
    }
}

/// The same chunking law for phone-initiated push messages (body within the
/// push cap).
pub proof fn law_push_chunking(m: Seq<u8>, p: Seq<u8>, total: Option<nat>, c: Seq<u8>)
    requires
        self_describing(m),
        m.len() - 8 <= MAX_PUSH_MESSAGE,
        prefix_state(m, p, total),
        p.len() + c.len() <= m.len(),
        p + c =~= m.subrange(0, (p.len() + c.len()) as int),
    ensures
        ({
            let (r, b, t) = push_step(p, total, c);
            if p.len() + c.len() == m.len() {
                r == Ok::<Option<Seq<u8>>, ProtocolFault>(Some(m.subrange(8, m.len() as int)))
            } else {
                r == Ok::<Option<Seq<u8>>, ProtocolFault>(None) && prefix_state(m, b, t)
            }
        }),
{
    let b = p + c;
    if b.len() >= 8 {
        assert(b.subrange(0, 8) =~= m.subrange(0, 8));
    }
    if b.len() == m.len() {
        assert(b =~= m);
    }
}

/// An empty assembler is in the prefix state of every message.
pub proof fn law_empty_is_prefix(m: Seq<u8>)
    requires
        m.len() > 0,
    ensures
        prefix_state(m, Seq::<u8>::empty(), None),
{
}

/// One step of the raw-download discriminator. During a raw download the
/// phone may also interleave an enveloped (length-prefixed) message on the
/// same session id; chunks are held as a candidate until it is clear whether
/// they are raw file bytes (returned, and the candidate cleared) or an
/// envelope that exactly fills the announced length (refused as ambiguous).
/// `remaining` is the number of raw bytes still expected.
pub open spec fn discriminator_step(candidate: Seq<u8>, expected: Option<nat>, chunk: Seq<u8>, remaining: nat) -> (
    StepResult,
    Seq<u8>,
    Option<nat>,
) {
    let c = candidate + chunk;
    if expected is None && c.len() < 8 && c.len() >= remaining {
        (Ok(Some(c)), Seq::<u8>::empty(), None)
    } else if expected is None && c.len() >= 8 && !(be_value(c.subrange(0, 8)) <= MAX_PUSH_MESSAGE
        && be_value(c.subrange(0, 8)) + 8 <= remaining) {
        (Ok(Some(c)), Seq::<u8>::empty(), None)
    } else {
        let e = if expected is None && c.len() >= 8 {
            Some(be_value(c.subrange(0, 8)) + 8)
        } else {
            expected
        };
        match e {
            None => (Ok(None), c, e),
            Some(n) => if c.len() < n {
                (Ok(None), c, e)
            } else if c.len() > n {
                (Ok(Some(c)), Seq::<u8>::empty(), None)
            } else {
                (Err(ProtocolFault::DownloadAmbiguous), c, e)
            },
        }
    }
}

/// Separates raw download bytes from an enveloped message the phone may
/// send on the same session id.
pub struct DownloadDiscriminator {
    candidate: Vec<u8>,
    expected: Option<usize>,
}

impl DownloadDiscriminator {
    /// Bytes held back so far.
    pub closed spec fn candidate(&self) -> Seq<u8> {
        self.candidate@
    }

    /// Total envelope length (prefix included) once announced.
    pub closed spec fn expected(&self) -> Option<nat> {
        match self.expected {
            Some(e) => Some(e as nat),
            None => None,
        }
    }

    /// Well-formedness: an announced envelope fits the push cap and is not
    /// yet complete.
    pub closed spec fn wf(&self) -> bool {
        &&& (self.expected matches Some(e) ==> e <= MAX_PUSH_MESSAGE + 8 && self.candidate@.len()
            < e)
        &&& (self.expected is None ==> self.candidate@.len() < 8)
    }

    /// A discriminator holding nothing.
    pub fn new() -> (result: Self)
        ensures
            result.wf(),
            result.candidate() == Seq::<u8>::empty(),
            result.expected() is None,
    {
        DownloadDiscriminator { candidate: Vec::new(), expected: None }
    }

    /// Feed one chunk while `remaining` raw bytes are still expected
    /// (see `discriminator_step`).
    pub fn push(&mut self, chunk: &[u8], remaining: usize) -> (result: Result<Option<Vec<u8>>, Error>)
        requires
            old(self).wf(),
            chunk@.len() <= crate::frame::MAX_DOWNSTREAM_CHUNK,
        ensures
            (step_view(result), final(self).candidate(), final(self).expected())
                == discriminator_step(
                old(self).candidate(),
                old(self).expected(),
                chunk@,
                remaining as nat,
            ),
            result is Err || final(self).wf(),
            result matches Err(e) ==> e is Protocol,
    {
        let ghost c = old(self).candidate@ + chunk@;
        let mut i: usize = 0;
        while i < chunk.len()
            invariant
                i <= chunk@.len(),
                self.candidate@ == old(self).candidate@ + chunk@.subrange(0, i as int),
                self.expected == old(self).expected,
                old(self).wf(),
                chunk@.len() <= crate::frame::MAX_DOWNSTREAM_CHUNK,
            decreases chunk@.len() - i,
        {
            self.candidate.push(chunk[i]);
            i = i + 1;
            assert(self.candidate@ =~= old(self).candidate@ + chunk@.subrange(0, i as int));
        }
        assert(chunk@.subrange(0, chunk@.len() as int) =~= chunk@);
        assert(self.candidate@ == c);
        if self.expected.is_none() && self.candidate.len() < 8 && self.candidate.len() >= remaining {
            return Ok(Some(self.take_candidate()));
        }
        if self.expected.is_none() && self.candidate.len() >= 8 {
            let declared = read_be_u64(&self.candidate);
            if declared <= MAX_PUSH_MESSAGE as u64 && (declared as usize) + 8 <= remaining {
                self.expected = Some(declared as usize + 8);
            } else {
                return Ok(Some(self.take_candidate()));
            }
        }
        match self.expected {
            None => Ok(None),
            Some(e) => {
                if self.candidate.len() < e {
                    Ok(None)
                } else if self.candidate.len() > e {
                    Ok(Some(self.take_candidate()))
                } else {
                    Err(Error::Protocol(ProtocolFault::DownloadAmbiguous))
                }
            },
        }
    }

    fn take_candidate(&mut self) -> (taken: Vec<u8>)
        ensures
            taken@ == old(self).candidate@,
            final(self).candidate@ == Seq::<u8>::empty(),
            final(self).expected is None,
    {
        self.expected = None;
        let mut taken: Vec<u8> = Vec::new();
        std::mem::swap(&mut taken, &mut self.candidate);
        taken
    }
}

/// A raw download shorter than a length prefix is delivered unchanged as
/// soon as all of it has arrived.
pub proof fn law_short_raw_download_passes_through(data: Seq<u8>)
    requires
        data.len() < 8,
    ensures
        discriminator_step(Seq::<u8>::empty(), None, data, data.len()) == (
            Ok::<Option<Seq<u8>>, ProtocolFault>(Some(data)),
            Seq::<u8>::empty(),
            None::<nat>,
        ),
{
    assert(Seq::<u8>::empty() + data =~= data);
}

} // verus!
