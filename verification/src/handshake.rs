//! The raw public-key handshake: the session id it runs on, how the phone's
//! plain-text refusals are told apart from the encrypted result, and the
//! acceptance of the decrypted result.
use vstd::prelude::*;

use crate::error::{Error, HandshakeFault, ProtocolFault};
use crate::text::{hex_bytes, hex_encode};

verus! {

/// Session id of the handshake exchange.
pub const HANDSHAKE_SID: u32 = 0x8000_0001;

/// Most bytes of a refused result shown in its hex preview.
pub const RESULT_PREVIEW_BYTES: usize = 16;

/// ASCII whitespace as `u8::is_ascii_whitespace` defines it: space, tab,
/// line feed, form feed, carriage return.
pub open spec fn is_ascii_ws(b: u8) -> bool {
    b == 0x20 || b == 0x09 || b == 0x0a || b == 0x0c || b == 0x0d
}

/// Leading whitespace removed.
pub open spec fn trim_start(s: Seq<u8>) -> Seq<u8>
    decreases s.len(),
{
    if s.len() > 0 && is_ascii_ws(s[0]) {
        trim_start(s.drop_first())
    } else {
        s
    }
}

/// Trailing whitespace removed.
pub open spec fn trim_end(s: Seq<u8>) -> Seq<u8>
    decreases s.len(),
{
    if s.len() > 0 && is_ascii_ws(s.last()) {
        trim_end(s.drop_last())
    } else {
        s
    }
}

/// Leading and trailing ASCII whitespace removed.
pub open spec fn trim_ascii(s: Seq<u8>) -> Seq<u8> {
    trim_end(trim_start(s))
}

/// `failed`: the phone rejected the public key.
pub open spec fn word_failed() -> Seq<u8> {
    seq![0x66u8, 0x61, 0x69, 0x6c, 0x65, 0x64]
}

/// `locked`: the phone is locked.
pub open spec fn word_locked() -> Seq<u8> {
    seq![0x6cu8, 0x6f, 0x63, 0x6b, 0x65, 0x64]
}

/// `needauth`: the user must authorize the host.
pub open spec fn word_needauth() -> Seq<u8> {
    seq![0x6eu8, 0x65, 0x65, 0x64, 0x61, 0x75, 0x74, 0x68]
}

/// `ok`: the decrypted handshake result that accepts the session.
pub open spec fn word_ok() -> Seq<u8> {
    seq![0x6fu8, 0x6b]
}

fn trimmed(s: &[u8]) -> (r: Vec<u8>)
    ensures
        r@ == trim_ascii(s@),
{
    let n = s.len();
    let mut a: usize = 0;
    assert(s@.subrange(0, n as int) =~= s@);
    while a < n && (s[a] == 0x20 || s[a] == 0x09 || s[a] == 0x0a || s[a] == 0x0c || s[a] == 0x0d)
        invariant
            a <= n,
            n == s@.len(),
            trim_start(s@) == trim_start(s@.subrange(a as int, n as int)),
        decreases n - a,
    {
        assert(s@.subrange(a as int, n as int).drop_first() =~= s@.subrange(a + 1, n as int));
        a = a + 1;
    }
    let ghost st = s@.subrange(a as int, n as int);
    assert(trim_start(s@) == st);
    let mut b: usize = n;
    assert(st.subrange(0, (b - a) as int) =~= st);
    while b > a && (s[b - 1] == 0x20 || s[b - 1] == 0x09 || s[b - 1] == 0x0a || s[b - 1] == 0x0c || s[b - 1] == 0x0d)
        invariant
            a <= b <= n,
            n == s@.len(),
            st == s@.subrange(a as int, n as int),
            trim_end(st) == trim_end(s@.subrange(a as int, b as int)),
        decreases b,
    {
        assert(s@.subrange(a as int, b as int).drop_last() =~= s@.subrange(a as int, b - 1));
        b = b - 1;
    }
    let mut out: Vec<u8> = Vec::new();
    let mut i: usize = a;
    while i < b
        invariant
            a <= i <= b <= n,
            n == s@.len(),
            out@ == s@.subrange(a as int, i as int),
        decreases b - i,
    {
        out.push(s[i]);
        i = i + 1;
        assert(out@ =~= s@.subrange(a as int, i as int));
    }
    out
}

fn bytes_eq(a: &Vec<u8>, lit: &[u8]) -> (r: bool)
    ensures
        r == (a@ == lit@),
{
    if a.len() != lit.len() {
        return false;
    }
    let mut i: usize = 0;
    while i < a.len()
        invariant
            i <= a@.len(),
            a@.len() == lit@.len(),
            forall|j: int| 0 <= j < i ==> a@[j] == lit@[j],
        decreases a@.len() - i,
    {
        if a[i] != lit[i] {
            return false;
        }
        i = i + 1;
    }
    assert(a@ =~= lit@);
    true
}

/// The phone's plain-text answer to the public key, once trimmed of ASCII
/// whitespace: `failed`, `locked` and `needauth` are refusals; anything
/// else is the encrypted result, to be decrypted.
pub fn classify_handshake_response(response: &[u8]) -> (r: Result<(), Error>)
    ensures
        trim_ascii(response@) == word_failed() ==> r == Err::<(), Error>(
            Error::Handshake(HandshakeFault::PublicKeyRejected),
        ),
        trim_ascii(response@) == word_locked() ==> r == Err::<(), Error>(Error::Handshake(HandshakeFault::PhoneLocked)),
        trim_ascii(response@) == word_needauth() ==> r == Err::<(), Error>(
            Error::Handshake(HandshakeFault::AuthorizationRequired),
        ),
        trim_ascii(response@) != word_failed() && trim_ascii(response@) != word_locked() && trim_ascii(response@)
            != word_needauth() ==> r is Ok,
{
    let t = trimmed(response);
    let failed: [u8; 6] = [0x66, 0x61, 0x69, 0x6c, 0x65, 0x64];
    let locked: [u8; 6] = [0x6c, 0x6f, 0x63, 0x6b, 0x65, 0x64];
    let needauth: [u8; 8] = [0x6e, 0x65, 0x65, 0x64, 0x61, 0x75, 0x74, 0x68];
    assert(failed@ =~= word_failed());
    assert(locked@ =~= word_locked());
    assert(needauth@ =~= word_needauth());
    if bytes_eq(&t, &failed) {
        return Err(Error::Handshake(HandshakeFault::PublicKeyRejected));
    }
    if bytes_eq(&t, &locked) {
        return Err(Error::Handshake(HandshakeFault::PhoneLocked));
    }
    if bytes_eq(&t, &needauth) {
        return Err(Error::Handshake(HandshakeFault::AuthorizationRequired));
    }
    Ok(())
}

/// The decrypted handshake result must be exactly `ok`.
pub fn check_handshake_result(clear: &[u8]) -> (r: Result<(), Error>)
    ensures
        clear@ == word_ok() <==> r is Ok,
        r is Err ==> r == Err::<(), Error>(Error::Handshake(HandshakeFault::ResultInvalid)),
{
    let ok: [u8; 2] = [0x6f, 0x6b];
    assert(ok@ =~= word_ok());
    let mut v: Vec<u8> = Vec::new();
    let mut i: usize = 0;
    while i < clear.len()
        invariant
            i <= clear@.len(),
            v@ == clear@.subrange(0, i as int),
        decreases clear@.len() - i,
    {
        v.push(clear[i]);
        i = i + 1;
        assert(v@ =~= clear@.subrange(0, i as int));
    }
    assert(clear@.subrange(0, clear@.len() as int) =~= clear@);
    if bytes_eq(&v, &ok) {
        Ok(())
    } else {
        Err(Error::Handshake(HandshakeFault::ResultInvalid))
    }
}

/// The bounded hex preview of a refused result: lowercase hex of at most
/// its first 16 bytes, so a hostile phone cannot inject text.
pub fn result_preview(clear: &[u8]) -> (r: String)
    ensures
        r@ == hex_bytes(
            if clear@.len() <= RESULT_PREVIEW_BYTES {
                clear@
            } else {
                clear@.subrange(0, RESULT_PREVIEW_BYTES as int)
            },
        ),
{
    let n = if clear.len() <= RESULT_PREVIEW_BYTES {
        clear.len()
    } else {
        RESULT_PREVIEW_BYTES
    };
    let mut v: Vec<u8> = Vec::new();
    let mut i: usize = 0;
    while i < n
        invariant
            i <= n <= clear@.len(),
            v@ == clear@.subrange(0, i as int),
        decreases n - i,
    {
        v.push(clear[i]);
        i = i + 1;
        assert(v@ =~= clear@.subrange(0, i as int));
    }
    if clear.len() <= RESULT_PREVIEW_BYTES {
        assert(clear@.subrange(0, n as int) =~= clear@);
    }
    hex_encode(v.as_slice())
}

/// A handshake answer must come on the handshake's own session id.
pub fn check_handshake_sid(sid: u32, expected_sid: u32) -> (r: Result<(), Error>)
    ensures
        sid == expected_sid <==> r is Ok,
        r is Err ==> r == Err::<(), Error>(Error::Protocol(ProtocolFault::SessionIdMismatch)),
{
    if sid != expected_sid {
        return Err(Error::Protocol(ProtocolFault::SessionIdMismatch));
    }
    Ok(())
}

} // verus!
