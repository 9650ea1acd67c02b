//! The stream framing: a big-endian `u32` length, then one frame.
//!
//! A stream supplies no message boundary of its own, so every record goes out behind its length,
//! and what has arrived is banked in a buffer until a whole record stands at its front.

use bytes::{Buf, BytesMut};
use vstd::arithmetic::div_mod::lemma_div_denominator;
use vstd::prelude::*;

verus! {

/// The bytes that `bytes::BytesMut` banks what a stream delivered in.
#[verifier::external_type_specification]
#[verifier::external_body]
pub struct ExBytesMut(bytes::BytesMut);

/// The bytes a buffer holds, first to last.
pub uninterp spec fn banked(buffer: BytesMut) -> Seq<u8>;

/// `BytesMut::new`: a buffer of length zero.
pub assume_specification[ BytesMut::new ]() -> (buffer: BytesMut)
    ensures
        banked(buffer) == Seq::<u8>::empty(),
;

/// `BytesMut::len`: the number of bytes held.
pub assume_specification[ BytesMut::len ](buffer: &BytesMut) -> (n: usize)
    ensures
        n == banked(*buffer).len(),
;

/// `BytesMut::extend_from_slice`: appends the slice's bytes at the end. A buffer that would grow
/// beyond the largest allocation is left out.
pub assume_specification[ BytesMut::extend_from_slice ](buffer: &mut BytesMut, extend: &[u8])
    requires
        banked(*old(buffer)).len() + extend@.len() <= isize::MAX,
    ensures
        banked(*final(buffer)) == banked(*old(buffer)) + extend@,
;

/// The byte at an index, read through the slice that `BytesMut` dereferences to. An index at or
/// beyond the length, on which indexing panics, is left out.
#[verifier::external_body]
fn byte_at(buffer: &BytesMut, at: usize) -> (byte: u8)
    requires
        at < banked(*buffer).len(),
    ensures
        byte == banked(*buffer)[at as int],
{
    buffer[at]
}

/// `Buf::advance` on `BytesMut`: drops that many bytes from the front. A count beyond the length,
/// on which it panics, is left out.
#[verifier::external_body]
fn drop_front(buffer: &mut BytesMut, count: usize)
    requires
        count <= banked(*old(buffer)).len(),
    ensures
        banked(*final(buffer)) == banked(*old(buffer)).subrange(
            count as int,
            banked(*old(buffer)).len() as int,
        ),
{
    buffer.advance(count);
}

/// `BytesMut::split_to`: splits that many bytes off the front and hands them out. A count beyond
/// the length, on which it panics, is left out.
#[verifier::external_body]
fn take_front(buffer: &mut BytesMut, count: usize) -> (front: Vec<u8>)
    requires
        count <= banked(*old(buffer)).len(),
    ensures
        front@ == banked(*old(buffer)).take(count as int),
        banked(*final(buffer)) == banked(*old(buffer)).subrange(
            count as int,
            banked(*old(buffer)).len() as int,
        ),
{
    buffer.split_to(count).to_vec()
}

/// The length a record's first four bytes state.
pub open spec fn stated_len(bytes: Seq<u8>) -> int {
    bytes[0] * 16_777_216 + bytes[1] * 65_536 + bytes[2] * 256 + bytes[3]
}

/// What stands at the front of a buffer.
pub enum Front {
    /// Not a whole record yet.
    Partial,
    /// A length above the ceiling.
    Oversized,
    /// A whole record: its frame, and what follows it.
    Record(Seq<u8>, Seq<u8>),
}

/// What stands at the front of a buffer, under a ceiling on the length of a frame.
pub open spec fn front_of(bytes: Seq<u8>, ceiling: usize) -> Front {
    if bytes.len() < 4 {
        Front::Partial
    } else if stated_len(bytes) > ceiling {
        Front::Oversized
    } else if bytes.len() < 4 + stated_len(bytes) {
        Front::Partial
    } else {
        Front::Record(
            bytes.subrange(4, 4 + stated_len(bytes)),
            bytes.subrange(4 + stated_len(bytes), bytes.len() as int),
        )
    }
}

/// A record as it goes out: the frame's length, then the frame.
pub open spec fn record_of(frame: Seq<u8>) -> Seq<u8> {
    seq![
        (frame.len() / 16_777_216 % 256) as u8,
        (frame.len() / 65_536 % 256) as u8,
        (frame.len() / 256 % 256) as u8,
        (frame.len() % 256) as u8,
    ] + frame
}

/// A length above the ceiling: the record is refused before a byte of its frame is waited for.
#[derive(Debug, Clone, Copy, PartialEq, Eq, Structural)]
pub struct Oversized;

/// Peels one whole record off the front of a buffer.
///
/// `Ok(None)` where no whole record stands there yet. The ceiling is checked before any of the
/// frame is waited for, and a refused buffer keeps what it held.
pub fn take_frame(buffer: &mut BytesMut, ceiling: usize) -> (r: Result<Option<Vec<u8>>, Oversized>)
    ensures
        match front_of(banked(*old(buffer)), ceiling) {
            Front::Partial => {
                &&& r == Ok::<Option<Vec<u8>>, Oversized>(None)
                &&& banked(*final(buffer)) == banked(*old(buffer))
            },
            Front::Oversized => {
                &&& r == Err::<Option<Vec<u8>>, Oversized>(Oversized)
                &&& banked(*final(buffer)) == banked(*old(buffer))
            },
            Front::Record(frame, rest) => {
                &&& r matches Ok(Some(body)) && body@ == frame
                &&& banked(*final(buffer)) == rest
            },
        },
{
    let ghost before = banked(*buffer);
    if buffer.len() < 4 {
        return Ok(None);
    }
    let len: u64 = byte_at(buffer, 0) as u64 * 16_777_216 + byte_at(buffer, 1) as u64 * 65_536
        + byte_at(buffer, 2) as u64 * 256 + byte_at(buffer, 3) as u64;
    if len > ceiling as u64 {
        return Err(Oversized);
    }
    let size: usize = len as usize;
    if buffer.len() - 4 < size {
        return Ok(None);
    }
    drop_front(buffer, 4);
    let ghost after = banked(*buffer);
    let body: Vec<u8> = take_front(buffer, size);
    assert(body@ =~= before.subrange(4, 4 + stated_len(before)));
    assert(banked(*buffer) =~= before.subrange(4 + stated_len(before), before.len() as int));
    Ok(Some(body))
}

/// Frames one frame for a stream, or `None` where it is above the ceiling or its length does not
/// fit the prefix.
pub fn length_prefixed(frame: &Vec<u8>, ceiling: usize) -> (r: Option<Vec<u8>>)
    ensures
        r is Some <==> frame@.len() <= ceiling && frame@.len() <= u32::MAX,
        r matches Some(record) ==> record@ == record_of(frame@),
{
    let n: usize = frame.len();
    if n > ceiling || n as u64 > 4_294_967_295 {
        return None;
    }
    let len: u64 = n as u64;
    let mut record: Vec<u8> = Vec::new();
    record.push((len / 16_777_216 % 256) as u8);
    record.push((len / 65_536 % 256) as u8);
    record.push((len / 256 % 256) as u8);
    record.push((len % 256) as u8);
    let ghost prefix = record@;
    let mut i: usize = 0;
    while i < frame.len()
        invariant
            i <= frame.len(),
            record@ == prefix + frame@.take(i as int),
        decreases frame.len() - i,
    {
        record.push(frame[i]);
        assert(record@ =~= prefix + frame@.take(i + 1));
        i = i + 1;
    }
    assert(frame@.take(frame@.len() as int) =~= frame@);
    assert(record@ =~= record_of(frame@));
    Some(record)
}

/// Four digits of base 256 spell every length that fits them.
proof fn lemma_digits(n: int)
    requires
        0 <= n <= u32::MAX,
    ensures
        n == (n / 16_777_216 % 256) * 16_777_216 + (n / 65_536 % 256) * 65_536 + (n / 256 % 256)
            * 256 + n % 256,
{
    let tens = n / 256;
    let hundreds = tens / 256;
    let thousands = hundreds / 256;
    lemma_div_denominator(n, 256, 256);
    lemma_div_denominator(n, 65_536, 256);
    assert(hundreds == n / 65_536);
    assert(thousands == n / 16_777_216);
    assert(thousands < 256);
    assert(thousands % 256 == thousands);
    assert(n == tens * 256 + n % 256);
    assert(tens == hundreds * 256 + tens % 256);
    assert(hundreds == thousands * 256 + hundreds % 256);
}

/// What was framed peels off again, whatever follows it, and leaves exactly what follows it.
pub proof fn law_a_record_peels_off(frame: Seq<u8>, rest: Seq<u8>, ceiling: usize)
    requires
        frame.len() <= ceiling,
        frame.len() <= u32::MAX,
    ensures
        front_of(record_of(frame) + rest, ceiling) == Front::Record(frame, rest),
{
    let bytes = record_of(frame) + rest;
    let n = frame.len() as int;
    lemma_digits(n);
    assert(stated_len(bytes) == n);
    assert(bytes.subrange(4, 4 + n) =~= frame);
    assert(bytes.subrange(4 + n, bytes.len() as int) =~= rest);
}

/// A record that has not arrived whole is waited for, however it was cut, and not refused.
pub proof fn law_a_cut_record_is_waited_for(frame: Seq<u8>, cut: int, ceiling: usize)
    requires
        frame.len() <= ceiling,
        frame.len() <= u32::MAX,
        0 <= cut < record_of(frame).len(),
    ensures
        front_of(record_of(frame).take(cut), ceiling) == Front::Partial,
{
    if cut >= 4 {
        let n = frame.len() as int;
        lemma_digits(n);
        assert(stated_len(record_of(frame).take(cut)) == n);
    }
}

/// What is waited for is bounded by the ceiling: a buffer without a record at its front holds
/// fewer bytes than the largest record.
pub proof fn law_what_is_waited_for_is_bounded(bytes: Seq<u8>, ceiling: usize)
    requires
        front_of(bytes, ceiling) == Front::Partial,
    ensures
        bytes.len() < 4 + ceiling,
{
}

/// The frames that peel off some bytes, in order.
pub open spec fn frames_in(bytes: Seq<u8>, ceiling: usize) -> Seq<Seq<u8>>
    decreases bytes.len(),
{
    match front_of(bytes, ceiling) {
        Front::Record(frame, rest) => seq![frame] + frames_in(rest, ceiling),
        _ => Seq::empty(),
    }
}

/// What is left once every frame peeled off.
pub open spec fn left_in(bytes: Seq<u8>, ceiling: usize) -> Seq<u8>
    decreases bytes.len(),
{
    match front_of(bytes, ceiling) {
        Front::Record(_, rest) => left_in(rest, ceiling),
        _ => bytes,
    }
}

/// What peels off a stream does not depend on how its bytes arrive: read to the end of one chunk
/// and then through the next, it gives the frames that both give at once, and leaves the same.
pub proof fn law_frames_do_not_depend_on_chunks(first: Seq<u8>, second: Seq<u8>, ceiling: usize)
    ensures
        frames_in(first + second, ceiling) == frames_in(first, ceiling) + frames_in(
            left_in(first, ceiling) + second,
            ceiling,
        ),
        left_in(first + second, ceiling) == left_in(left_in(first, ceiling) + second, ceiling),
    decreases first.len(),
{
    match front_of(first, ceiling) {
        Front::Record(frame, rest) => {
            let all = first + second;
            assert(stated_len(all) == stated_len(first));
            assert(all.subrange(4, 4 + stated_len(all)) =~= frame);
            assert(all.subrange(4 + stated_len(all), all.len() as int) =~= rest + second);
            law_frames_do_not_depend_on_chunks(rest, second, ceiling);
            assert(frames_in(all, ceiling) =~= frames_in(first, ceiling) + frames_in(
                left_in(first, ceiling) + second,
                ceiling,
            ));
        },
        _ => {
            assert(frames_in(first + second, ceiling) =~= frames_in(first, ceiling) + frames_in(
                left_in(first, ceiling) + second,
                ceiling,
            ));
        },
    }
}

/// The correlation that follows another: the next number, and one after the largest, because zero
/// means "not a reply to anything".
pub open spec fn correlation_after(id: u32) -> u32 {
    if id == u32::MAX {
        1
    } else {
        (id + 1) as u32
    }
}

/// Hands out a correlation and moves on to the next.
pub fn next_correlation(next: &mut u32) -> (id: u32)
    requires
        *old(next) > 0,
    ensures
        id == *old(next),
        id > 0,
        *final(next) == correlation_after(*old(next)),
        *final(next) > 0,
{
    let id: u32 = *next;
    *next = if id == u32::MAX {
        1
    } else {
        id + 1
    };
    id
}

/// A record is its frame behind four bytes, which hold the frame's length with the most
/// significant byte first.
pub proof fn law_a_record_is_its_length_and_its_frame(frame: Seq<u8>)
    requires
        frame.len() <= u32::MAX,
    ensures
        record_of(frame).len() == 4 + frame.len(),
        record_of(frame).skip(4) == frame,
        16_777_216 * record_of(frame)[0] + 65_536 * record_of(frame)[1] + 256 * record_of(frame)[2]
            + record_of(frame)[3] == frame.len(),
{
    let n = frame.len() as int;
    lemma_digits(n);
    law_a_record_peels_off(frame, Seq::empty(), frame.len() as usize);
    assert(record_of(frame).skip(4) =~= frame);
}

/// A length above the ceiling is refused as soon as its four bytes are there, whatever follows
/// them; a length up to the ceiling never is.
pub proof fn law_only_a_length_above_the_ceiling_is_refused(bytes: Seq<u8>, ceiling: usize)
    requires
        bytes.len() >= 4,
    ensures
        front_of(bytes, ceiling) == Front::Oversized <==> 16_777_216 * bytes[0] + 65_536 * bytes[1]
            + 256 * bytes[2] + bytes[3] > ceiling,
{
}

/// A correlation is never zero, never the one before it, and moves on by one until the numbers
/// run out.
pub proof fn law_correlations_move_on(id: u32)
    ensures
        correlation_after(id) != 0,
        id != 0 ==> correlation_after(id) != id,
        id < u32::MAX ==> correlation_after(id) == id + 1,
        correlation_after(u32::MAX) == 1,
{
}

} // verus!
