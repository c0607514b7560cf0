//! The on-disk thumbnail cache: file names, revision fingerprints, and the
//! plan that serves cache hits locally, asks the phone only for misses, and
//! accounts for every requested entry in the answer.
//!
//! A cache file is `<device>-<kind>-<digest>.thumb` under the cache
//! directory, where `<device>` is the device key restricted to at most 64
//! file-name characters and `<digest>` is the 16-digit hex FNV-1a of the
//! device key, the remote path and, when present, the revision fingerprint,
//! joined by NUL characters.
use vstd::prelude::*;

use crate::error::{Error, UsageFault};
use crate::paths::join_path;
use crate::text::{
    append_chars, append_str, chars_of, decimal, hex16, is_name_char, name_chars, ostr, owned,
    push_decimal, push_hex16, str_eq, string_from_chars,
};

verus! {

/// FNV-1a 64-bit offset basis.
pub const FNV_OFFSET: u64 = 0xcbf2_9ce4_8422_2325;

/// FNV-1a 64-bit prime.
pub const FNV_PRIME: u64 = 0x0000_0100_0000_01b3;

/// Most characters of a device key kept in a cache file name.
pub const CACHE_COMPONENT_MAX: usize = 64;

/// FNV-1a 64 of a byte string: start from the offset basis; for each byte,
/// xor it in, then multiply by the prime modulo 2^64.
pub open spec fn fnv1a64_of(bytes: Seq<u8>) -> u64
    decreases bytes.len(),
{
    if bytes.len() == 0 {
        FNV_OFFSET
    } else {
        vstd::wrapping::u64_specs::wrapping_mul(fnv1a64_of(bytes.drop_last()) ^ (bytes.last() as u64), FNV_PRIME)
    }
}

/// FNV-1a 64 of the UTF-8 bytes of `input` (see `fnv1a64_of`).
pub fn fnv1a64(input: &str) -> (r: u64)
    ensures
        r == fnv1a64_of(vstd::utf8::encode_utf8(input@)),
{
    let bytes = input.as_bytes();
    let mut hash: u64 = FNV_OFFSET;
    let mut i: usize = 0;
    while i < bytes.len()
        invariant
            i <= bytes@.len(),
            hash == fnv1a64_of(bytes@.subrange(0, i as int)),
        decreases bytes@.len() - i,
    {
        assert(bytes@.subrange(0, i as int + 1).drop_last() =~= bytes@.subrange(0, i as int));
        hash = (hash ^ (bytes[i] as u64)).wrapping_mul(FNV_PRIME);
        i = i + 1;
    }
    assert(bytes@.subrange(0, bytes@.len() as int) =~= bytes@);
    hash
}

/// The first `CACHE_COMPONENT_MAX` file-name characters of `s`.
pub open spec fn cache_component(s: Seq<char>) -> Seq<char> {
    let n = name_chars(s);
    if n.len() <= CACHE_COMPONENT_MAX {
        n
    } else {
        n.subrange(0, CACHE_COMPONENT_MAX as int)
    }
}

/// Restrict a cache-file component to ASCII letters, digits, `-` and `_`,
/// at most 64 of them, so a device key never puts a separator or `..` into
/// a file name.
pub fn sanitize_cache_component(input: &str) -> (r: String)
    ensures
        r@ == cache_component(input@),
{
    let all = crate::text::keep_name_chars(input);
    let mut out: Vec<char> = Vec::new();
    let mut i: usize = 0;
    while i < all.len() && i < CACHE_COMPONENT_MAX
        invariant
            i <= all@.len(),
            i <= CACHE_COMPONENT_MAX,
            out@ == all@.subrange(0, i as int),
        decreases all@.len() - i,
    {
        out.push(all[i]);
        i = i + 1;
        assert(out@ =~= all@.subrange(0, i as int));
    }
    if all.len() <= CACHE_COMPONENT_MAX {
        assert(all@.subrange(0, all@.len() as int) =~= all@);
    }
    string_from_chars(out.as_slice())
}

/// A sanitized cache component is at most 64 characters, each an ASCII
/// letter, digit, `-` or `_`: no device key can put a path separator or a
/// `..` segment into a cache file name.
pub proof fn law_cache_component_is_safe(s: Seq<char>)
    ensures
        cache_component(s).len() <= CACHE_COMPONENT_MAX,
        forall|i: int| 0 <= i < cache_component(s).len() ==> is_name_char(#[trigger] cache_component(s)[i]),
        !cache_component(s).contains('/'),
{
    crate::text::lemma_name_chars_safe(s);
    let n = name_chars(s);
    assert forall|i: int| 0 <= i < cache_component(s).len() implies is_name_char(#[trigger] cache_component(s)[i]) by {
        assert(cache_component(s)[i] == n[i]);
    }
    if cache_component(s).contains('/') {
        let j = choose|j: int| 0 <= j < cache_component(s).len() && cache_component(s)[j] == '/';
        assert(is_name_char(cache_component(s)[j]));
    }
}

/// The text hashed for a cache file name: device key and remote path, and
/// the revision when it is not empty, separated by NUL characters.
pub open spec fn digest_input(device_key: Seq<char>, remote_path: Seq<char>, revision: Seq<char>) -> Seq<char> {
    if revision.len() == 0 {
        device_key + seq!['\0'] + remote_path
    } else {
        device_key + seq!['\0'] + remote_path + seq!['\0'] + revision
    }
}

/// The file name of a cached thumbnail.
pub open spec fn cache_file_name(kind: Seq<char>, device_key: Seq<char>, remote_path: Seq<char>, revision: Seq<char>) -> Seq<char> {
    cache_component(device_key) + seq!['-'] + kind + seq!['-'] + hex16(
        fnv1a64_of(vstd::utf8::encode_utf8(digest_input(device_key, remote_path, revision))) as nat,
    ) + seq!['.', 't', 'h', 'u', 'm', 'b']
}

/// The cache path of a thumbnail: its file name under the cache directory.
pub open spec fn cache_path_of(
    cache_dir: Seq<char>,
    kind: Seq<char>,
    device_key: Seq<char>,
    remote_path: Seq<char>,
    revision: Seq<char>,
) -> Seq<char> {
    join_path(cache_dir, cache_file_name(kind, device_key, remote_path, revision))
}

/// The cache path for one thumbnail (see `cache_path_of`); stable across
/// calls, distinct per device key, and changed by a revision fingerprint.
pub fn cache_path_for(cache_dir: &str, kind: &str, device_key: &str, remote_path: &str, revision: &str) -> (r: String)
    ensures
        r@ == cache_path_of(cache_dir@, kind@, device_key@, remote_path@, revision@),
{
    let mut input: Vec<char> = Vec::new();
    append_str(&mut input, device_key);
    input.push('\0');
    append_str(&mut input, remote_path);
    if !revision.is_empty() {
        input.push('\0');
        append_str(&mut input, revision);
    }
    proof {
        assert(input@ =~= digest_input(device_key@, remote_path@, revision@));
    }
    let hashed = string_from_chars(input.as_slice());
    let digest = fnv1a64(hashed.as_str());
    let mut name: Vec<char> = Vec::new();
    let device = sanitize_cache_component(device_key);
    append_str(&mut name, device.as_str());
    name.push('-');
    append_str(&mut name, kind);
    name.push('-');
    push_hex16(&mut name, digest);
    append_str(&mut name, ".thumb");
    proof {
        reveal_strlit(".thumb");
        assert(name@ =~= cache_file_name(kind@, device_key@, remote_path@, revision@));
    }
    let mut out: Vec<char> = Vec::new();
    crate::paths::push_join_base(&mut out, &chars_of(cache_dir));
    append_chars(&mut out, &name);
    assert(out@ =~= cache_path_of(cache_dir@, kind@, device_key@, remote_path@, revision@));
    string_from_chars(out.as_slice())
}

/// Rust's `{:?}` form of a string (the value `format!("{:?}", s)` gives):
/// quoted, with escapes.
pub uninterp spec fn str_debug_form(s: Seq<char>) -> Seq<char>;

/// `format!("{:?}", s)` for a string: the debug (quoted, escaped) form.
#[verifier::external_body]
fn debug_str(s: &str) -> (r: String)
    ensures
        r@ == str_debug_form(s@),
{
    format!("{:?}", s)
}

/// `{:?}` of an optional number: `Some(<decimal>)` or `None`.
pub open spec fn opt_num_debug(o: Option<u64>) -> Seq<char> {
    match o {
        Some(n) => seq!['S', 'o', 'm', 'e', '('] + decimal(n as nat) + seq![')'],
        None => seq!['N', 'o', 'n', 'e'],
    }
}

/// `{:?}` of an optional string: `Some(<debug form>)` or `None`.
pub open spec fn opt_str_debug(o: Option<Seq<char>>) -> Seq<char> {
    match o {
        Some(t) => seq!['S', 'o', 'm', 'e', '('] + str_debug_form(t) + seq![')'],
        None => seq!['N', 'o', 'n', 'e'],
    }
}

fn push_opt_num(out: &mut Vec<char>, o: Option<u64>)
    ensures
        final(out)@ == old(out)@ + opt_num_debug(o),
{
    match o {
        Some(n) => {
            append_str(out, "Some(");
            push_decimal(out, n);
            out.push(')');
            proof {
                reveal_strlit("Some(");
            }
            assert(final(out)@ =~= old(out)@ + opt_num_debug(o));
        },
        None => {
            append_str(out, "None");
            proof {
                reveal_strlit("None");
            }
            assert(final(out)@ =~= old(out)@ + opt_num_debug(o));
        },
    }
}

fn push_opt_str(out: &mut Vec<char>, o: &Option<String>)
    ensures
        final(out)@ == old(out)@ + opt_str_debug(ostr(*o)),
{
    match o {
        Some(t) => {
            append_str(out, "Some(");
            let d = debug_str(t.as_str());
            append_str(out, d.as_str());
            out.push(')');
            proof {
                reveal_strlit("Some(");
            }
            assert(final(out)@ =~= old(out)@ + opt_str_debug(ostr(*o)));
        },
        None => {
            append_str(out, "None");
            proof {
                reveal_strlit("None");
            }
            assert(final(out)@ =~= old(out)@ + opt_str_debug(ostr(*o)));
        },
    }
}

/// Revision fingerprint of an image entry: empty when it carries no
/// metadata, else `media_id=..;size=..;modified_at=..;mini_thumb_magic=..`
/// with each value in `{:?}` form.
pub open spec fn image_revision_of(
    media_id: Option<u64>,
    size: Option<u64>,
    modified_at: Option<u64>,
    magic: Option<Seq<char>>,
) -> Seq<char> {
    if media_id is None && size is None && modified_at is None && magic is None {
        Seq::empty()
    } else {
        "media_id="@ + opt_num_debug(media_id) + ";size="@ + opt_num_debug(size) + ";modified_at="@
            + opt_num_debug(modified_at) + ";mini_thumb_magic="@ + opt_str_debug(magic)
    }
}

/// Revision fingerprint of an image thumbnail entry (see `image_revision_of`).
pub fn image_cache_revision(
    media_id: Option<u64>,
    size: Option<u64>,
    modified_at: Option<u64>,
    mini_thumb_magic: &Option<String>,
) -> (r: String)
    ensures
        r@ == image_revision_of(media_id, size, modified_at, ostr(*mini_thumb_magic)),
{
    if media_id.is_none() && size.is_none() && modified_at.is_none() && mini_thumb_magic.is_none() {
        return String::new();
    }
    let mut out: Vec<char> = Vec::new();
    append_str(&mut out, "media_id=");
    push_opt_num(&mut out, media_id);
    append_str(&mut out, ";size=");
    push_opt_num(&mut out, size);
    append_str(&mut out, ";modified_at=");
    push_opt_num(&mut out, modified_at);
    append_str(&mut out, ";mini_thumb_magic=");
    push_opt_str(&mut out, mini_thumb_magic);
    assert(out@ =~= image_revision_of(media_id, size, modified_at, ostr(*mini_thumb_magic)));
    string_from_chars(out.as_slice())
}

/// Revision fingerprint of a video entry: empty when it carries no
/// metadata, else `media_id=..;size=..;modified_at=..` in `{:?}` form.
pub open spec fn video_revision_of(media_id: Option<u64>, size: Option<u64>, modified_at: Option<u64>) -> Seq<char> {
    if media_id is None && size is None && modified_at is None {
        Seq::empty()
    } else {
        "media_id="@ + opt_num_debug(media_id) + ";size="@ + opt_num_debug(size) + ";modified_at="@
            + opt_num_debug(modified_at)
    }
}

/// Revision fingerprint of a video thumbnail entry (see `video_revision_of`).
pub fn video_cache_revision(media_id: Option<u64>, size: Option<u64>, modified_at: Option<u64>) -> (r: String)
    ensures
        r@ == video_revision_of(media_id, size, modified_at),
{
    if media_id.is_none() && size.is_none() && modified_at.is_none() {
        return String::new();
    }
    let mut out: Vec<char> = Vec::new();
    append_str(&mut out, "media_id=");
    push_opt_num(&mut out, media_id);
    append_str(&mut out, ";size=");
    push_opt_num(&mut out, size);
    append_str(&mut out, ";modified_at=");
    push_opt_num(&mut out, modified_at);
    assert(out@ =~= video_revision_of(media_id, size, modified_at));
    string_from_chars(out.as_slice())
}

/// Revision fingerprint of an audio album entry: empty when it carries no
/// metadata, else `album_id=..;name=..;artist_id=..;artist=..;year=..` in
/// `{:?}` form.
pub open spec fn audio_revision_of(
    album_id: Option<u64>,
    name: Option<Seq<char>>,
    artist_id: Option<u64>,
    artist: Option<Seq<char>>,
    year: Option<u32>,
) -> Seq<char> {
    let y = match year {
        Some(v) => Some(v as u64),
        None => None,
    };
    if album_id is None && name is None && artist_id is None && artist is None && year is None {
        Seq::empty()
    } else {
        "album_id="@ + opt_num_debug(album_id) + ";name="@ + opt_str_debug(name) + ";artist_id="@
            + opt_num_debug(artist_id) + ";artist="@ + opt_str_debug(artist) + ";year="@ + opt_num_debug(y)
    }
}

/// Revision fingerprint of an audio album thumbnail entry (see
/// `audio_revision_of`).
pub fn audio_cache_revision(
    album_id: Option<u64>,
    name: &Option<String>,
    artist_id: Option<u64>,
    artist: &Option<String>,
    year: Option<u32>,
) -> (r: String)
    ensures
        r@ == audio_revision_of(album_id, ostr(*name), artist_id, ostr(*artist), year),
{
    if album_id.is_none() && name.is_none() && artist_id.is_none() && artist.is_none() && year.is_none() {
        return String::new();
    }
    let y: Option<u64> = match year {
        Some(v) => Some(v as u64),
        None => None,
    };
    let mut out: Vec<char> = Vec::new();
    append_str(&mut out, "album_id=");
    push_opt_num(&mut out, album_id);
    append_str(&mut out, ";name=");
    push_opt_str(&mut out, name);
    append_str(&mut out, ";artist_id=");
    push_opt_num(&mut out, artist_id);
    append_str(&mut out, ";artist=");
    push_opt_str(&mut out, artist);
    append_str(&mut out, ";year=");
    push_opt_num(&mut out, y);
    assert(out@ =~= audio_revision_of(album_id, ostr(*name), artist_id, ostr(*artist), year));
    string_from_chars(out.as_slice())
}

/// The per-device cache key: the phone UUID, else the stable device id,
/// else the transport id (session ids are runtime-local and never used).
pub fn thumbnail_device_key(phone_id: &Option<String>, stable_id: &Option<String>, device_id: &str) -> (r: String)
    ensures
        r@ == match ostr(*phone_id) {
            Some(p) => p,
            None => match ostr(*stable_id) {
                Some(s) => s,
                None => device_id@,
            },
        },
{
    match phone_id {
        Some(p) => crate::text::copy_string(p),
        None => match stable_id {
            Some(s) => crate::text::copy_string(s),
            None => owned(device_id),
        },
    }
}

/// One requested thumbnail entry, reduced to what the cache plan reads.
#[derive(Debug, Clone, PartialEq, Eq)]
pub struct ThumbnailItem {
    /// Remote path, when given.
    pub path: Option<String>,
    /// Category id: the media id of an image or video, the album id of an
    /// audio album.
    pub id: Option<u64>,
    /// Revision fingerprint (see the `*_cache_revision` functions).
    pub revision: String,
}

/// `id:`.
pub open spec fn id_prefix() -> Seq<char> {
    seq!['i', 'd', ':']
}

/// `path:`.
pub open spec fn path_prefix() -> Seq<char> {
    seq!['p', 'a', 't', 'h', ':']
}

/// The request identity of an entry: `id:<id>` when it has an id, else
/// `path:<path>`, else `missing`. Entries with one identity are asked for
/// once.
pub open spec fn identity_of(path: Option<Seq<char>>, id: Option<u64>) -> Seq<char> {
    match id {
        Some(i) => id_prefix() + decimal(i as nat),
        None => match path {
            Some(p) => path_prefix() + p,
            None => seq!['m', 'i', 's', 's', 'i', 'n', 'g'],
        },
    }
}

/// Identity of a requested entry.
pub open spec fn item_identity(it: ThumbnailItem) -> Seq<char> {
    identity_of(ostr(it.path), it.id)
}

/// The request identity of an entry (see `identity_of`).
pub fn thumbnail_identity(path: &Option<String>, id: Option<u64>) -> (r: String)
    ensures
        r@ == identity_of(ostr(*path), id),
{
    let mut out: Vec<char> = Vec::new();
    match id {
        Some(i) => {
            append_str(&mut out, "id:");
            push_decimal(&mut out, i);
            proof {
                reveal_strlit("id:");
            }
        },
        None => match path {
            Some(p) => {
                append_str(&mut out, "path:");
                append_str(&mut out, p.as_str());
                proof {
                    reveal_strlit("path:");
                }
            },
            None => {
                append_str(&mut out, "missing");
                proof {
                    reveal_strlit("missing");
                }
            },
        },
    }
    assert(out@ =~= identity_of(ostr(*path), id));
    string_from_chars(out.as_slice())
}

/// Whether an entry is served from the cache: it has a path and its cache
/// file is valid.
pub open spec fn is_hit(items: Seq<ThumbnailItem>, hits: Seq<Option<u64>>, i: int) -> bool {
    items[i].path is Some && hits[i] is Some
}

/// Whether one of the scheduled entries has identity `idn`.
pub open spec fn scheduled_has(items: Seq<ThumbnailItem>, scheduled: Seq<int>, idn: Seq<char>) -> bool {
    exists|k: int| 0 <= k < scheduled.len() && item_identity(items[scheduled[k]]) == idn
}

/// The cache plan over the first `n` entries: the entries served from the
/// cache, and the entries asked of the phone, in request order. An entry
/// that is not a hit is asked for unless an earlier entry with the same
/// identity already is.
pub open spec fn plan_upto(items: Seq<ThumbnailItem>, hits: Seq<Option<u64>>, n: nat) -> (Seq<int>, Seq<int>)
    decreases n,
{
    if n == 0 {
        (Seq::empty(), Seq::empty())
    } else {
        let (c, s) = plan_upto(items, hits, (n - 1) as nat);
        let i = n - 1;
        if is_hit(items, hits, i) {
            (c.push(i), s)
        } else if scheduled_has(items, s, item_identity(items[i])) {
            (c, s)
        } else {
            (c, s.push(i))
        }
    }
}

/// Which entries are served from the cache and which are asked of the phone.
#[derive(Debug)]
pub struct ThumbnailPlan {
    /// Entries whose cache file is valid, in request order.
    pub cached: Vec<usize>,
    /// Entries to ask the phone for, in request order.
    pub scheduled: Vec<usize>,
}

/// Indices as integers.
pub open spec fn ints(v: Seq<usize>) -> Seq<int> {
    v.map_values(|i: usize| i as int)
}

/// Plan a thumbnail request (see `plan_upto`): `hits[i]` is the size of
/// entry `i`'s valid cache file, `None` when it has none.
pub fn plan_thumbnails(items: &[ThumbnailItem], hits: &[Option<u64>]) -> (r: ThumbnailPlan)
    requires
        items@.len() == hits@.len(),
    ensures
        (ints(r.cached@), ints(r.scheduled@)) == plan_upto(items@, hits@, items@.len() as nat),
{
    let mut cached: Vec<usize> = Vec::new();
    let mut scheduled: Vec<usize> = Vec::new();
    let mut idents: Vec<String> = Vec::new();
    let mut i: usize = 0;
    while i < items.len()
        invariant
            i <= items@.len(),
            items@.len() == hits@.len(),
            (ints(cached@), ints(scheduled@)) == plan_upto(items@, hits@, i as nat),
            idents@.len() == scheduled@.len(),
            forall|k: int| 0 <= k < scheduled@.len() ==> scheduled@[k] < items@.len(),
            forall|k: int| 0 <= k < idents@.len() ==> #[trigger] idents@[k]@ == item_identity(items@[scheduled@[k] as int]),
        decreases items@.len() - i,
    {
        let it = &items[i];
        let ghost s = ints(scheduled@);
        if it.path.is_some() && hits[i].is_some() {
            cached.push(i);
            assert(ints(cached@) =~= plan_upto(items@, hits@, i as nat).0.push(i as int));
        } else {
            let idn = thumbnail_identity(&it.path, it.id);
            let mut seen = false;
            let mut k: usize = 0;
            while k < idents.len()
                invariant
                    k <= idents@.len(),
                    idents@.len() == scheduled@.len(),
                    s == ints(scheduled@),
                    forall|q: int| 0 <= q < idents@.len() ==> #[trigger] idents@[q]@ == item_identity(items@[scheduled@[q] as int]),
                    seen == exists|q: int| 0 <= q < k && item_identity(items@[s[q]]) == idn@,
                decreases idents@.len() - k,
            {
                assert(idents@[k as int]@ == item_identity(items@[s[k as int]]));
                if str_eq(idents[k].as_str(), idn.as_str()) {
                    seen = true;
                }
                k = k + 1;
            }
            if !seen {
                let ghost before = scheduled@;
                scheduled.push(i);
                idents.push(idn);
                assert(ints(scheduled@) =~= s.push(i as int));
                assert forall|q: int| 0 <= q < idents@.len() implies #[trigger] idents@[q]@ == item_identity(
                    items@[scheduled@[q] as int],
                ) by {
                    if q < before.len() {
                        assert(scheduled@[q] == before[q]);
                    }
                }
            }
        }
        i = i + 1;
    }
    ThumbnailPlan { cached, scheduled }
}

/// Every requested entry is accounted for: it is served from the cache, or
/// an entry with its identity is asked of the phone; and no cache hit is
/// asked for again.
pub proof fn law_plan_covers_every_entry(items: Seq<ThumbnailItem>, hits: Seq<Option<u64>>, n: nat, i: int)
    requires
        n <= items.len(),
        items.len() == hits.len(),
        0 <= i < n,
    ensures
        ({
            let (c, s) = plan_upto(items, hits, n);
            &&& is_hit(items, hits, i) ==> c.contains(i)
            &&& !is_hit(items, hits, i) ==> scheduled_has(items, s, item_identity(items[i]))
            &&& forall|k: int| 0 <= k < s.len() ==> !is_hit(items, hits, #[trigger] s[k])
        }),
    decreases n,
{
    let (c0, s0) = plan_upto(items, hits, (n - 1) as nat);
    if i < n - 1 {
        law_plan_covers_every_entry(items, hits, (n - 1) as nat, i);
        let (c, s) = plan_upto(items, hits, n);
        if !is_hit(items, hits, i) {
            let k = choose|k: int| 0 <= k < s0.len() && item_identity(items[s0[k]]) == item_identity(items[i]);
            assert(s[k] == s0[k]);
        } else {
            assert(c0.contains(i));
            let k = choose|k: int| 0 <= k < c0.len() && c0[k] == i;
            assert(c[k] == c0[k]);
        }
    } else {
        if n > 1 {
            law_plan_covers_every_entry(items, hits, (n - 1) as nat, 0);
        }
        let (c, s) = plan_upto(items, hits, n);
        if is_hit(items, hits, i) {
            assert(c[c.len() - 1] == i);
        } else if !scheduled_has(items, s0, item_identity(items[i])) {
            assert(s[s.len() - 1] == i);
            assert(item_identity(items[s[s.len() - 1]]) == item_identity(items[i]));
        } else {
            let k = choose|k: int| 0 <= k < s0.len() && item_identity(items[s0[k]]) == item_identity(items[i]);
            assert(s[k] == s0[k]);
        }
    }
}

/// The revision of the last requested entry with path `p`, or empty when
/// no entry has that path.
pub open spec fn last_revision(items: Seq<ThumbnailItem>, p: Seq<char>) -> Seq<char>
    decreases items.len(),
{
    if items.len() == 0 {
        Seq::empty()
    } else if ostr(items.last().path) == Some(p) {
        items.last().revision@
    } else {
        last_revision(items.drop_last(), p)
    }
}

/// The revision recorded for a remote path (see `last_revision`).
pub fn revision_for(items: &[ThumbnailItem], path: &str) -> (r: String)
    ensures
        r@ == last_revision(items@, path@),
{
    let mut i: usize = items.len();
    assert(items@.subrange(0, i as int) =~= items@);
    while i > 0
        invariant
            i <= items@.len(),
            last_revision(items@, path@) == last_revision(items@.subrange(0, i as int), path@),
        decreases i,
    {
        let it = &items[i - 1];
        assert(items@.subrange(0, i as int).drop_last() =~= items@.subrange(0, i - 1));
        assert(items@.subrange(0, i as int).last() == items@[i - 1]);
        match &it.path {
            Some(p) => {
                if str_eq(p.as_str(), path) {
                    return crate::text::copy_string(&it.revision);
                }
            },
            None => {},
        }
        i = i - 1;
    }
    String::new()
}

/// One thumbnail the phone answered.
#[derive(Debug, Clone, PartialEq, Eq)]
pub struct ThumbnailResponse {
    /// Remote path of the entry.
    pub path: Option<String>,
    /// Media id, for images and videos.
    pub media_id: Option<u64>,
    /// Album id.
    pub album_id: Option<u64>,
    /// Whether the answer carries non-empty thumbnail bytes.
    pub has_data: bool,
    /// Whether the phone reported a thumbnail error for the entry.
    pub thumbnail_error: bool,
}

/// Why an entry has no cached thumbnail.
#[derive(Debug, Clone, Copy, PartialEq, Eq, Structural)]
pub enum ThumbnailFailureReason {
    /// The phone reported an error for it.
    ThumbnailError,
    /// The answer named no path.
    MissingPath,
    /// The answer carried no bytes.
    MissingData,
    /// The phone did not answer for it.
    MissingResponse,
}

impl ThumbnailFailureReason {
    /// The stable token of the reason.
    pub fn token(&self) -> (r: &'static str)
        ensures
            r@ == match *self {
                ThumbnailFailureReason::ThumbnailError => "thumbnail_error"@,
                ThumbnailFailureReason::MissingPath => "missing_path"@,
                ThumbnailFailureReason::MissingData => "missing_data"@,
                ThumbnailFailureReason::MissingResponse => "missing_response"@,
            },
    {
        match self {
            ThumbnailFailureReason::ThumbnailError => "thumbnail_error",
            ThumbnailFailureReason::MissingPath => "missing_path",
            ThumbnailFailureReason::MissingData => "missing_data",
            ThumbnailFailureReason::MissingResponse => "missing_response",
        }
    }
}

/// What to do with one answer.
#[derive(Debug, Clone, PartialEq, Eq)]
pub enum ThumbnailOutcome {
    /// Write its bytes to this cache path and report it under `path`.
    Cache {
        /// Remote path.
        path: String,
        /// Cache file to write.
        cache_path: String,
    },
    /// Report it as failed.
    Failed(ThumbnailFailureReason),
}

/// The outcome of one answer: an error report comes first, then a missing
/// path, then missing bytes; otherwise the bytes go to the cache path of
/// its remote path and the revision last recorded for that path.
pub fn classify_thumbnail_response(
    response: &ThumbnailResponse,
    items: &[ThumbnailItem],
    cache_dir: &str,
    kind: &str,
    device_key: &str,
) -> (r: ThumbnailOutcome)
    ensures
        response.thumbnail_error ==> r == ThumbnailOutcome::Failed(ThumbnailFailureReason::ThumbnailError),
        !response.thumbnail_error && response.path is None ==> r == ThumbnailOutcome::Failed(
            ThumbnailFailureReason::MissingPath,
        ),
        !response.thumbnail_error && response.path is Some && !response.has_data ==> r
            == ThumbnailOutcome::Failed(ThumbnailFailureReason::MissingData),
        !response.thumbnail_error && response.path is Some && response.has_data ==> (r matches ThumbnailOutcome::Cache {
            path,
            cache_path,
        } && path@ == response.path->0@ && cache_path@ == cache_path_of(
            cache_dir@,
            kind@,
            device_key@,
            response.path->0@,
            last_revision(items@, response.path->0@),
        )),
{
    if response.thumbnail_error {
        return ThumbnailOutcome::Failed(ThumbnailFailureReason::ThumbnailError);
    }
    match &response.path {
        None => ThumbnailOutcome::Failed(ThumbnailFailureReason::MissingPath),
        Some(p) => {
            if !response.has_data {
                return ThumbnailOutcome::Failed(ThumbnailFailureReason::MissingData);
            }
            let revision = revision_for(items, p.as_str());
            let cache_path = cache_path_for(cache_dir, kind, device_key, p.as_str(), revision.as_str());
            ThumbnailOutcome::Cache { path: crate::text::copy_string(p), cache_path }
        },
    }
}

/// The identities one answer covers: `id:` of its media id (else album
/// id) and `path:` of its path, where present.
pub open spec fn marks_one(r: ThumbnailResponse) -> Seq<Seq<char>> {
    let id = match r.media_id {
        Some(m) => Some(m),
        None => r.album_id,
    };
    let a = match id {
        Some(i) => seq![id_prefix() + decimal(i as nat)],
        None => Seq::empty(),
    };
    let b = match r.path {
        Some(p) => seq![path_prefix() + p@],
        None => Seq::empty(),
    };
    a + b
}

/// The identities all answers cover.
pub open spec fn marks_of(rs: Seq<ThumbnailResponse>) -> Seq<Seq<char>>
    decreases rs.len(),
{
    if rs.len() == 0 {
        Seq::empty()
    } else {
        marks_of(rs.drop_last()) + marks_one(rs.last())
    }
}

/// The identities covered by the answers (see `marks_of`).
pub fn response_marks(responses: &[ThumbnailResponse]) -> (r: Vec<String>)
    ensures
        r@.map_values(|s: String| s@) == marks_of(responses@),
{
    let mut out: Vec<String> = Vec::new();
    let mut i: usize = 0;
    while i < responses.len()
        invariant
            i <= responses@.len(),
            out@.map_values(|s: String| s@) == marks_of(responses@.subrange(0, i as int)),
        decreases responses@.len() - i,
    {
        let r = &responses[i];
        let ghost before = out@.map_values(|s: String| s@);
        assert(responses@.subrange(0, i as int + 1).drop_last() =~= responses@.subrange(0, i as int));
        let id = match r.media_id {
            Some(m) => Some(m),
            None => r.album_id,
        };
        match id {
            Some(v) => {
                let none: Option<String> = None;
                out.push(thumbnail_identity(&none, Some(v)));
            },
            None => {},
        }
        match &r.path {
            Some(p) => {
                let some = Some(crate::text::copy_string(p));
                out.push(thumbnail_identity(&some, None));
            },
            None => {},
        }
        assert(out@.map_values(|s: String| s@) =~= before + marks_one(responses@[i as int]));
        i = i + 1;
    }
    assert(responses@.subrange(0, responses@.len() as int) =~= responses@);
    out
}

/// Whether an entry with this path and id was answered.
pub open spec fn answered(marks: Seq<Seq<char>>, path: Option<Seq<char>>, id: Option<u64>) -> bool {
    (id matches Some(i) && marks.contains(id_prefix() + decimal(i as nat))) || (path matches Some(p)
        && marks.contains(path_prefix() + p))
}

fn contains_str(v: &Vec<String>, s: &String) -> (r: bool)
    ensures
        r == v@.map_values(|x: String| x@).contains(s@),
{
    let ghost vv = v@.map_values(|x: String| x@);
    let mut i: usize = 0;
    while i < v.len()
        invariant
            i <= v@.len(),
            vv == v@.map_values(|x: String| x@),
            forall|j: int| 0 <= j < i ==> vv[j] != s@,
        decreases v@.len() - i,
    {
        if str_eq(v[i].as_str(), s.as_str()) {
            assert(vv[i as int] == s@);
            return true;
        }
        i = i + 1;
    }
    false
}

/// The scheduled entries not answered, in request order.
pub open spec fn unanswered(items: Seq<ThumbnailItem>, marks: Seq<Seq<char>>, scheduled: Seq<usize>) -> Seq<usize>
    decreases scheduled.len(),
{
    if scheduled.len() == 0 {
        Seq::empty()
    } else {
        let rest = unanswered(items, marks, scheduled.drop_last());
        let it = items[scheduled.last() as int];
        if answered(marks, ostr(it.path), it.id) {
            rest
        } else {
            rest.push(scheduled.last())
        }
    }
}

/// The scheduled entries the phone did not answer, in request order: each
/// is reported as `missing_response`.
pub fn missing_responses(items: &[ThumbnailItem], scheduled: &[usize], marks: &Vec<String>) -> (r: Vec<usize>)
    requires
        forall|k: int| 0 <= k < scheduled@.len() ==> #[trigger] scheduled@[k] < items@.len(),
    ensures
        forall|k: int| 0 <= k < r@.len() ==> scheduled@.contains(#[trigger] r@[k]),
        forall|k: int| 0 <= k < r@.len() ==> !answered(
            marks@.map_values(|x: String| x@),
            ostr(items@[r@[k] as int].path),
            items@[r@[k] as int].id,
        ),
        forall|k: int| 0 <= k < scheduled@.len() && !answered(
            marks@.map_values(|x: String| x@),
            ostr(items@[scheduled@[k] as int].path),
            items@[scheduled@[k] as int].id,
        ) ==> r@.contains(#[trigger] scheduled@[k]),
        r@ == unanswered(items@, marks@.map_values(|x: String| x@), scheduled@),
{
    let ghost mv = marks@.map_values(|x: String| x@);
    let mut out: Vec<usize> = Vec::new();
    let mut i: usize = 0;
    while i < scheduled.len()
        invariant
            i <= scheduled@.len(),
            mv == marks@.map_values(|x: String| x@),
            out@ == unanswered(items@, mv, scheduled@.subrange(0, i as int)),
            forall|k: int| 0 <= k < scheduled@.len() ==> #[trigger] scheduled@[k] < items@.len(),
            forall|k: int| 0 <= k < out@.len() ==> scheduled@.subrange(0, i as int).contains(#[trigger] out@[k]),
            forall|k: int| 0 <= k < out@.len() ==> !answered(mv, ostr(items@[out@[k] as int].path), items@[out@[k] as int].id),
            forall|k: int| 0 <= k < i && !answered(mv, ostr(items@[scheduled@[k] as int].path), items@[scheduled@[k] as int].id)
                ==> out@.contains(#[trigger] scheduled@[k]),
        decreases scheduled@.len() - i,
    {
        let idx = scheduled[i];
        let it = &items[idx];
        let by_id = match it.id {
            Some(v) => {
                let none: Option<String> = None;
                let m = thumbnail_identity(&none, Some(v));
                contains_str(marks, &m)
            },
            None => false,
        };
        let by_path = match &it.path {
            Some(p) => {
                let some = Some(crate::text::copy_string(p));
                let m = thumbnail_identity(&some, None);
                contains_str(marks, &m)
            },
            None => false,
        };
        let ghost before = out@;
        if !by_id && !by_path {
            out.push(idx);
        }
        proof {
            assert(scheduled@.subrange(0, i as int + 1) =~= scheduled@.subrange(0, i as int).push(idx));
            assert(scheduled@.subrange(0, i as int + 1).drop_last() =~= scheduled@.subrange(0, i as int));
            assert forall|k: int| 0 <= k < out@.len() implies scheduled@.subrange(0, i as int + 1).contains(
                #[trigger] out@[k],
            ) by {
                if k < before.len() {
                    assert(out@[k] == before[k]);
                    assert(scheduled@.subrange(0, i as int).contains(before[k]));
                    let j = choose|j: int| 0 <= j < i && scheduled@.subrange(0, i as int)[j] == before[k];
                    assert(scheduled@.subrange(0, i as int + 1)[j] == before[k]);
                } else {
                    assert(scheduled@.subrange(0, i as int + 1)[i as int] == idx);
                }
            }
            assert forall|k: int| 0 <= k < i + 1 && !answered(mv, ostr(items@[scheduled@[k] as int].path), items@[scheduled@[k] as int].id)
                implies out@.contains(#[trigger] scheduled@[k]) by {
                if k < i {
                    let j = choose|j: int| 0 <= j < before.len() && before[j] == scheduled@[k];
                    assert(out@[j] == before[j]);
                } else {
                    assert(out@[out@.len() - 1] == idx);
                }
            }
        }
        i = i + 1;
    }
    assert(scheduled@.subrange(0, scheduled@.len() as int) =~= scheduled@);
    out
}

/// A thumbnail request must give each entry a path or a category id.
pub fn check_thumbnail_request(images: &[ThumbnailItem], videos: &[ThumbnailItem], audio_albums: &[ThumbnailItem]) -> (r: Result<(), Error>)
    ensures
        r is Err <==> exists|i: int| #![trigger images@[i]] #![trigger videos@[i]] #![trigger audio_albums@[i]]
            (0 <= i < images@.len() && images@[i].path is None && images@[i].id is None)
            || (0 <= i < videos@.len() && videos@[i].path is None && videos@[i].id is None)
            || (0 <= i < audio_albums@.len() && audio_albums@[i].path is None && audio_albums@[i].id is None),
        r is Err ==> r == Err::<(), Error>(Error::Usage(UsageFault::ThumbnailIdentityRequired)),
{
    if has_anonymous(images) || has_anonymous(videos) || has_anonymous(audio_albums) {
        return Err(Error::Usage(UsageFault::ThumbnailIdentityRequired));
    }
    Ok(())
}

fn has_anonymous(items: &[ThumbnailItem]) -> (r: bool)
    ensures
        r == exists|i: int| 0 <= i < items@.len() && #[trigger] items@[i].path is None && items@[i].id is None,
{
    let mut i: usize = 0;
    while i < items.len()
        invariant
            i <= items@.len(),
            forall|j: int| 0 <= j < i ==> !(#[trigger] items@[j].path is None && items@[j].id is None),
        decreases items@.len() - i,
    {
        if items[i].path.is_none() && items[i].id.is_none() {
            return true;
        }
        i = i + 1;
    }
    false
}

/// Distinct optional numbers have distinct `{:?}` forms.
proof fn lemma_opt_num_debug_injective(a: Option<u64>, b: Option<u64>)
    requires
        opt_num_debug(a) == opt_num_debug(b),
    ensures
        a == b,
{
    match (a, b) {
        (Some(x), Some(y)) => {
            let da = decimal(x as nat);
            let db = decimal(y as nat);
            let pre = seq!['S', 'o', 'm', 'e', '('];
            crate::text::lemma_decimal_nonempty(x as nat);
            crate::text::lemma_decimal_nonempty(y as nat);
            assert(opt_num_debug(a).len() == 6 + da.len());
            assert(opt_num_debug(b).len() == 6 + db.len());
            assert(opt_num_debug(a).subrange(5, 5 + da.len() as int) =~= da);
            assert(opt_num_debug(b).subrange(5, 5 + db.len() as int) =~= db);
            crate::text::lemma_decimal_injective(x as nat, y as nat);
        },
        (Some(x), None) => {
            assert(opt_num_debug(a)[0] == 'S');
            assert(opt_num_debug(b)[0] == 'N');
        },
        (None, Some(y)) => {
            assert(opt_num_debug(a)[0] == 'N');
            assert(opt_num_debug(b)[0] == 'S');
        },
        (None, None) => {},
    }
}

/// A video's fingerprint changes with its modification time: two entries
/// that differ only in `modified_at` get different revisions, hence
/// different cache files, so a replaced video never reuses the thumbnail
/// of its earlier version.
pub proof fn law_video_revision_tracks_modification(
    media_id: Option<u64>,
    size: Option<u64>,
    m1: Option<u64>,
    m2: Option<u64>,
)
    requires
        m1 != m2,
    ensures
        video_revision_of(media_id, size, m1) != video_revision_of(media_id, size, m2),
{
    let r1 = video_revision_of(media_id, size, m1);
    let r2 = video_revision_of(media_id, size, m2);
    if r1 == r2 {
        let pre = "media_id="@ + opt_num_debug(media_id) + ";size="@ + opt_num_debug(size) + ";modified_at="@;
        reveal_strlit("media_id=");
        reveal_strlit(";size=");
        reveal_strlit(";modified_at=");
        if media_id is None && size is None && m1 is None {
            assert(m2 is Some);
            assert(r2.len() > 0);
        } else if media_id is None && size is None && m2 is None {
            assert(r1.len() > 0);
        } else {
            assert(r1 == pre + opt_num_debug(m1));
            assert(r2 == pre + opt_num_debug(m2));
            assert(r1.subrange(pre.len() as int, r1.len() as int) =~= opt_num_debug(m1));
            assert(r2.subrange(pre.len() as int, r2.len() as int) =~= opt_num_debug(m2));
            lemma_opt_num_debug_injective(m1, m2);
        }
    }
}

} // verus!
