//! Which datagrams the OSC decoder can be handed.
//!
//! The decoder reads a datagram from front to back: an address, the type
//! tags, then one argument for each tag; in a bundle a header, a time tag,
//! and elements that are packets again, each behind its size. Three of its
//! readers do not come back on what they can be sent. A MIDI message and a
//! colour are taken as four bytes without a look at how many are left. A blob
//! is given the room it announces before anything of it is read. A bundle
//! inside a bundle costs one call inside another. The walk below follows the
//! decoder's read position and finds those datagrams beforehand.

use vstd::prelude::*;
use vstd::slice::slice_subrange;

verus! {

/// How many bundles may stand inside one another in a datagram that is handed
/// to the decoder. A datagram of 1536 bytes has no room for more than 76.
pub const MAX_NESTING: usize = 128;

/// `n` rounded up to a multiple of four.
pub open spec fn pad4(n: int) -> int {
    if n % 4 == 0 {
        n
    } else {
        n + 4 - n % 4
    }
}

/// The first position from `from` on that holds a zero byte, or `b.len()`
/// if there is none.
pub open spec fn zero_from(b: Seq<u8>, from: int) -> int
    decreases b.len() - from,
{
    if from < 0 || from >= b.len() {
        b.len() as int
    } else if b[from] == 0 {
        from
    } else {
        zero_from(b, from + 1)
    }
}

/// The read position `p` moved up to a multiple of four, and no further
/// than the end of the datagram: behind the end there is nothing to read,
/// however far behind.
pub open spec fn padded(b: Seq<u8>, p: int) -> int {
    if pad4(p) > b.len() {
        b.len() as int
    } else {
        pad4(p)
    }
}

/// The read position after a string is read at `p`: behind its zero byte,
/// or at the end where there is none, and padded.
pub open spec fn after_string(b: Seq<u8>, p: int) -> int {
    if p < 0 || p >= b.len() {
        b.len() as int
    } else if zero_from(b, p) < b.len() {
        padded(b, zero_from(b, p) + 1)
    } else {
        b.len() as int
    }
}

/// The four bytes at `p` as a number, the first byte counting most.
pub open spec fn be32(b: Seq<u8>, p: int) -> int {
    b[p] * 0x100_0000 + b[p + 1] * 0x1_0000 + b[p + 2] * 0x100 + b[p + 3]
}

/// The number of bytes of a character of which `first` is the first byte.
pub open spec fn char_width(first: u8) -> int {
    if first < 0x80 {
        1
    } else if first < 0xe0 {
        2
    } else if first < 0xf0 {
        3
    } else {
        4
    }
}

/// Whether the arguments for the type tags from position `k` up to `end`
/// can be read from position `pos` on. Reading stops without harm where
/// fewer bytes are left than a number, a time or a character takes, and at a
/// tag that is none. It must not reach a MIDI message or a colour with fewer
/// than four bytes left, nor a blob that announces more than is left.
pub open spec fn args_safe(b: Seq<u8>, k: int, end: int, pos: int) -> bool
    decreases end - k,
{
    let left = b.len() - pos;
    if k < 0 || k >= end || k >= b.len() {
        true
    } else if b[k] == 0x69 || b[k] == 0x66 || b[k] == 0x63 {
        left < 4 || args_safe(b, k + 1, end, pos + 4)
    } else if b[k] == 0x68 || b[k] == 0x64 || b[k] == 0x74 {
        left < 8 || args_safe(b, k + 1, end, pos + 8)
    } else if b[k] == 0x73 {
        args_safe(b, k + 1, end, after_string(b, pos))
    } else if b[k] == 0x54 || b[k] == 0x46 || b[k] == 0x4e || b[k] == 0x49 {
        args_safe(b, k + 1, end, pos)
    } else if b[k] == 0x6d || b[k] == 0x72 {
        left >= 4 && args_safe(b, k + 1, end, pos + 4)
    } else if b[k] == 0x62 {
        left < 4 || (be32(b, pos) <= left - 4 && args_safe(
            b,
            k + 1,
            end,
            padded(b, pos + 4 + be32(b, pos)),
        ))
    } else {
        true
    }
}

/// Whether a message can be handed to the decoder. The type tags stand
/// behind the address, up to the next zero byte; their first character, the
/// comma, announces nothing.
pub open spec fn message_safe(b: Seq<u8>) -> bool {
    let tags = after_string(b, 0);
    tags >= b.len() || args_safe(
        b,
        tags + char_width(b[tags]),
        zero_from(b, tags),
        after_string(b, tags),
    )
}

/// Whether a packet can be handed to the decoder, with `depth` bundles
/// allowed inside one another. What begins neither as a message nor as a
/// bundle is rejected at its first byte.
pub open spec fn packet_safe(b: Seq<u8>, depth: nat) -> bool
    decreases depth, 0int,
{
    if b.len() == 0 {
        true
    } else if b[0] == 0x2f {
        message_safe(b)
    } else if b[0] == 0x23 {
        depth > 0 && (b.len() - after_string(b, 0) < 8 || elements_safe(
            b,
            after_string(b, 0) + 8,
            (depth - 1) as nat,
        ))
    } else {
        true
    }
}

/// Whether the elements of a bundle from position `p` on can be handed to
/// the decoder. Each stands behind its size in four bytes; an element that
/// announces more than is left ends the bundle.
pub open spec fn elements_safe(b: Seq<u8>, p: int, depth: nat) -> bool
    decreases depth, b.len() - p,
{
    if p < 0 || b.len() - p < 4 || b.len() - (p + 4) < be32(b, p) {
        true
    } else {
        let from = p + 4;
        let to = from + be32(b, p);
        packet_safe(b.subrange(from, to), depth) && (to == b.len() || elements_safe(b, to, depth))
    }
}

/// Whether a datagram can be handed to the decoder.
pub open spec fn decodable(b: Seq<u8>) -> bool {
    packet_safe(b, MAX_NESTING as nat)
}

/// The first position from `from` on that holds a zero byte, or the length
/// of `bytes` if there is none.
pub fn find_zero(bytes: &[u8], from: usize) -> (r: usize)
    ensures
        r == zero_from(bytes@, from as int),
        from <= bytes@.len() ==> from <= r <= bytes@.len(),
{
    let n: usize = bytes.len();
    let mut i: usize = from;
    while i < n && bytes[i] != 0
        invariant
            n == bytes@.len(),
            from <= i,
            i <= n || i == from,
            zero_from(bytes@, from as int) == zero_from(bytes@, i as int),
        decreases n - i,
    {
        i += 1;
    }
    if i >= n {
        n
    } else {
        i
    }
}

/// The read position `p` padded, and no further than the end.
pub fn pad_within(bytes: &[u8], p: usize) -> (r: usize)
    requires
        p <= bytes@.len(),
    ensures
        r == padded(bytes@, p as int),
        p <= r <= bytes@.len(),
{
    let over: usize = p % 4;
    if over == 0 {
        p
    } else if bytes.len() - p < 4 - over {
        bytes.len()
    } else {
        p + (4 - over)
    }
}

/// The read position after a string is read at `p`.
pub fn string_end(bytes: &[u8], p: usize) -> (r: usize)
    requires
        p <= bytes@.len(),
    ensures
        r == after_string(bytes@, p as int),
        p <= r <= bytes@.len(),
{
    if p >= bytes.len() {
        return bytes.len();
    }
    let z: usize = find_zero(bytes, p);
    if z < bytes.len() {
        pad_within(bytes, z + 1)
    } else {
        bytes.len()
    }
}

/// The four bytes at `p` as a number.
pub fn word_at(bytes: &[u8], p: usize) -> (r: u64)
    requires
        p + 4 <= bytes@.len(),
    ensures
        r == be32(bytes@, p as int),
        r <= 0xffff_ffff,
{
    let a: u64 = bytes[p] as u64;
    let b: u64 = bytes[p + 1] as u64;
    let c: u64 = bytes[p + 2] as u64;
    let d: u64 = bytes[p + 3] as u64;
    a * 0x100_0000 + b * 0x1_0000 + c * 0x100 + d
}

/// Whether a message can be handed to the decoder.
pub fn message_is_safe(bytes: &[u8]) -> (r: bool)
    ensures
        r == message_safe(bytes@),
{
    let n: usize = bytes.len();
    let tags: usize = string_end(bytes, 0);
    if tags >= n {
        return true;
    }
    let end: usize = find_zero(bytes, tags);
    let first: u8 = bytes[tags];
    let width: usize = if first < 0x80 {
        1
    } else if first < 0xe0 {
        2
    } else if first < 0xf0 {
        3
    } else {
        4
    };
    if end - tags < width {
        return true;
    }
    let mut k: usize = tags + width;
    let mut pos: usize = string_end(bytes, tags);
    let ghost start = k as int;
    let ghost from = pos as int;
    while k < end
        invariant
            n == bytes@.len(),
            k <= end <= n,
            pos <= n,
            message_safe(bytes@) == args_safe(bytes@, start, end as int, from),
            args_safe(bytes@, start, end as int, from) == args_safe(
                bytes@,
                k as int,
                end as int,
                pos as int,
            ),
        decreases end - k,
    {
        let tag: u8 = bytes[k];
        let left: usize = n - pos;
        if tag == 0x69 || tag == 0x66 || tag == 0x63 {
            if left < 4 {
                return true;
            }
            pos += 4;
        } else if tag == 0x68 || tag == 0x64 || tag == 0x74 {
            if left < 8 {
                return true;
            }
            pos += 8;
        } else if tag == 0x73 {
            pos = string_end(bytes, pos);
        } else if tag == 0x54 || tag == 0x46 || tag == 0x4e || tag == 0x49 {
        } else if tag == 0x6d || tag == 0x72 {
            if left < 4 {
                return false;
            }
            pos += 4;
        } else if tag == 0x62 {
            if left < 4 {
                return true;
            }
            let size: u64 = word_at(bytes, pos);
            if size > (left - 4) as u64 {
                return false;
            }
            pos = pad_within(bytes, pos + 4 + size as usize);
        } else {
            return true;
        }
        k += 1;
    }
    true
}

/// Whether a packet can be handed to the decoder, with `depth` bundles
/// allowed inside one another.
pub fn is_safe(bytes: &[u8], depth: usize) -> (r: bool)
    ensures
        r == packet_safe(bytes@, depth as nat),
    decreases depth,
{
    let n: usize = bytes.len();
    if n == 0 {
        return true;
    }
    if bytes[0] == 0x2f {
        return message_is_safe(bytes);
    }
    if bytes[0] != 0x23 {
        return true;
    }
    if depth == 0 {
        return false;
    }
    let head: usize = string_end(bytes, 0);
    if n - head < 8 {
        return true;
    }
    let mut p: usize = head + 8;
    let ghost first = p as int;
    let ghost inner = (depth - 1) as nat;
    loop
        invariant
            n == bytes@.len(),
            p <= n,
            depth > 0,
            inner == (depth - 1) as nat,
            packet_safe(bytes@, depth as nat) == elements_safe(bytes@, first, inner),
            elements_safe(bytes@, first, inner) == elements_safe(bytes@, p as int, inner),
        decreases n - p,
    {
        if n - p < 4 {
            return true;
        }
        let size: u64 = word_at(bytes, p);
        let from: usize = p + 4;
        if ((n - from) as u64) < size {
            return true;
        }
        let to: usize = from + size as usize;
        if !is_safe(slice_subrange(bytes, from, to), depth - 1) {
            return false;
        }
        if to == n {
            return true;
        }
        p = to;
    }
}

/// Whether a datagram can be handed to the decoder.
pub fn is_decodable(bytes: &[u8]) -> (r: bool)
    ensures
        r == decodable(bytes@),
{
    is_safe(bytes, MAX_NESTING)
}

} // verus!
