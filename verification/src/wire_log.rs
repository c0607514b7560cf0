//! The optional wire log: what one record adds to it and when it rotates.
//!
//! The log may hold clipboard text, paths and media bytes, so a record is
//! a header line (direction, note, byte count) and, only when payload
//! logging is on, a hex dump of 32 bytes per line. The log is rotated once
//! it has reached its size limit: the file moves to a `.1` name (one
//! generation kept) and a fresh file starts.
use vstd::prelude::*;

use crate::paths::{file_name_of, join_path, parent_dir_of};
use crate::text::{append_str, chars_of, hex_byte, string_from_chars};

verus! {

/// Size at which the wire log is rotated.
pub const MAX_WIRE_LOG_BYTES: u64 = 67108864;

/// Bytes dumped per payload line.
pub const DUMP_LINE_BYTES: usize = 32;

/// Which way a frame went.
#[derive(Debug, Clone, Copy, PartialEq, Eq, Structural)]
pub enum WireDirection {
    /// Sent to the phone.
    Out,
    /// Received from the phone.
    In,
}

/// The marker of a direction: `>>` for sent frames, `<<` for received ones.
pub fn direction_marker(direction: WireDirection) -> (r: &'static str)
    ensures
        r@ == match direction {
            WireDirection::Out => ">>"@,
            WireDirection::In => "<<"@,
        },
{
    match direction {
        WireDirection::Out => ">>",
        WireDirection::In => "<<",
    }
}

/// One dump line: each byte as two lowercase hex digits and a space.
pub open spec fn dump_line(bytes: Seq<u8>) -> Seq<char>
    decreases bytes.len(),
{
    if bytes.len() == 0 {
        Seq::empty()
    } else {
        dump_line(bytes.drop_last()) + hex_byte(bytes.last()) + seq![' ']
    }
}

/// The dump of a payload: one line per 32 bytes, the last one shorter.
pub open spec fn dump_lines(data: Seq<u8>) -> Seq<Seq<char>>
    decreases data.len(),
{
    if data.len() == 0 {
        Seq::empty()
    } else if data.len() <= DUMP_LINE_BYTES {
        seq![dump_line(data)]
    } else {
        seq![dump_line(data.take(DUMP_LINE_BYTES as int))] + dump_lines(data.skip(DUMP_LINE_BYTES as int))
    }
}

fn dump_chunk(data: &[u8], start: usize, end: usize) -> (r: String)
    requires
        start <= end <= data@.len(),
    ensures
        r@ == dump_line(data@.subrange(start as int, end as int)),
{
    let mut out: Vec<char> = Vec::new();
    let mut i: usize = start;
    while i < end
        invariant
            start <= i <= end <= data@.len(),
            out@ == dump_line(data@.subrange(start as int, i as int)),
        decreases end - i,
    {
        proof {
            assert(data@.subrange(start as int, i as int + 1).drop_last() =~= data@.subrange(
                start as int,
                i as int,
            ));
        }
        crate::text::push_hex_byte(&mut out, data[i]);
        out.push(' ');
        i = i + 1;
        assert(out@ =~= dump_line(data@.subrange(start as int, i as int)));
    }
    string_from_chars(out.as_slice())
}

/// The hex dump of a payload (see `dump_lines`).
pub fn payload_dump(data: &[u8]) -> (r: Vec<String>)
    ensures
        r@.map_values(|s: String| s@) == dump_lines(data@),
{
    let mut lines: Vec<String> = Vec::new();
    let mut start: usize = 0;
    assert(data@.skip(0) =~= data@);
    assert(lines@.map_values(|s: String| s@) + dump_lines(data@) =~= dump_lines(data@));
    while start < data.len()
        invariant
            start <= data@.len(),
            lines@.map_values(|s: String| s@) + dump_lines(data@.skip(start as int)) == dump_lines(data@),
        decreases data@.len() - start,
    {
        let ghost rest = data@.skip(start as int);
        let end = if data.len() - start <= DUMP_LINE_BYTES {
            data.len()
        } else {
            start + DUMP_LINE_BYTES
        };
        let line = dump_chunk(data, start, end);
        proof {
            if rest.len() <= DUMP_LINE_BYTES {
                assert(rest =~= data@.subrange(start as int, end as int));
                assert(data@.skip(end as int) =~= Seq::<u8>::empty());
                assert(dump_lines(rest) == seq![line@]);
            } else {
                assert(rest.take(DUMP_LINE_BYTES as int) =~= data@.subrange(start as int, end as int));
                assert(rest.skip(DUMP_LINE_BYTES as int) =~= data@.skip(end as int));
            }
        }
        let ghost before = lines@.map_values(|s: String| s@);
        lines.push(line);
        assert(lines@.map_values(|s: String| s@) =~= before.push(line@));
        assert(dump_lines(rest) =~= seq![line@] + dump_lines(data@.skip(end as int)));
        assert(before.push(line@) + dump_lines(data@.skip(end as int)) =~= before + dump_lines(rest));
        start = end;
    }
    assert(data@.skip(data@.len() as int) =~= Seq::<u8>::empty());
    assert(lines@.map_values(|s: String| s@) + Seq::<Seq<char>>::empty() =~= lines@.map_values(
        |s: String| s@,
    ));
    lines
}

/// Whether a file name has an extension: a `.` after its first character.
pub open spec fn has_extension(name: Seq<char>) -> bool {
    exists|i: int| 1 <= i < name.len() && name[i] == '.'
}

/// The name a full log moves to: `.1` appended to its extension, or
/// `.log.1` added when its name has none; a path without a file name is
/// kept as it is.
pub open spec fn rotated_log_path(p: Seq<char>) -> Seq<char> {
    match file_name_of(p) {
        Some(name) => join_path(
            parent_dir_of(p),
            name + if has_extension(name) {
                seq!['.', '1']
            } else {
                seq!['.', 'l', 'o', 'g', '.', '1']
            },
        ),
        None => p,
    }
}

fn name_has_extension(name: &Vec<char>) -> (r: bool)
    ensures
        r == has_extension(name@),
{
    let mut i: usize = 1;
    while i < name.len()
        invariant
            1 <= i,
            forall|j: int| 1 <= j < i && j < name@.len() ==> name@[j] != '.',
        decreases name@.len() - i,
    {
        if name[i] == '.' {
            return true;
        }
        i = i + 1;
    }
    false
}

/// Where the log at `path` must move before the next record: `None` while
/// it holds fewer than `max_bytes` bytes, else its rotated name (see
/// `rotated_log_path`).
pub fn rotation_target(path: &str, current_len: u64, max_bytes: u64) -> (r: Option<String>)
    ensures
        current_len < max_bytes ==> r is None,
        current_len >= max_bytes ==> (r matches Some(t) && t@ == rotated_log_path(path@)),
{
    if current_len < max_bytes {
        return None;
    }
    let mut out: Vec<char> = Vec::new();
    match crate::paths::parent_and_name(path) {
        Some((dir, name)) => {
            crate::paths::push_join_base(&mut out, &dir);
            crate::text::append_chars(&mut out, &name);
            if name_has_extension(&name) {
                append_str(&mut out, ".1");
                proof {
                    reveal_strlit(".1");
                }
            } else {
                append_str(&mut out, ".log.1");
                proof {
                    reveal_strlit(".log.1");
                }
            }
            assert(out@ =~= rotated_log_path(path@));
        },
        None => {
            out = chars_of(path);
        },
    }
    Some(string_from_chars(out.as_slice()))
}

} // verus!
