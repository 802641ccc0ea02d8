//! The 13-byte wire frame: checksum arithmetic, buffer validation, and
//! request-frame construction.
//!
//! A frame is exactly 13 bytes: start byte `0xA5`, sender address, command
//! id, the constant data length `0x08`, eight payload bytes, and a checksum
//! byte that holds the 8-bit wraparound sum of the twelve bytes before it.

use vstd::arithmetic::div_mod::{lemma_add_mod_noop, lemma_mod_add_multiples_vanish, lemma_small_mod};
use vstd::prelude::*;

use crate::error::Error;

verus! {

/// Length in bytes of every frame, both sent and received.
pub const FRAME_LENGTH: usize = 13;

/// The byte that starts every frame.
pub const START_BYTE: u8 = 0xa5;

/// The address the host writes into byte 1 of a request.
pub const HOST_ADDRESS: u8 = 0x40;

/// The constant data-length byte at offset 3 of every frame.
pub const DATA_LENGTH: u8 = 0x08;

/// Sum of all bytes of a sequence, as an unbounded integer.
pub open spec fn sum_bytes(s: Seq<u8>) -> int
    decreases s.len(),
{
    if s.len() == 0 {
        0
    } else {
        sum_bytes(s.drop_last()) + s.last()
    }
}

/// The additive checksum of a byte sequence: its sum truncated to 8 bits.
pub open spec fn crc_of(s: Seq<u8>) -> u8 {
    (sum_bytes(s) % 256) as u8
}

/// A well-formed frame: exactly 13 bytes whose last byte is the checksum of
/// the twelve before it.
pub open spec fn frame_valid(s: Seq<u8>) -> bool {
    s.len() == 13 && s[12] == crc_of(s.take(12))
}

/// Why a single-frame reply buffer is rejected: too short, or its leading
/// 13-byte frame fails the checksum. `None` means the frame is accepted.
/// Bytes after the frame are ignored, so a buffer longer than one frame
/// decodes like its 13-byte prefix.
pub open spec fn frame_error(s: Seq<u8>) -> Option<Error> {
    if s.len() < 13 {
        Some(Error::ReplySizeError)
    } else if !frame_valid(s.take(13)) {
        Some(Error::CheckSumError)
    } else {
        None
    }
}

/// Big-endian 16-bit value held in two bytes.
pub open spec fn be16(hi: u8, lo: u8) -> u16 {
    (hi * 256 + lo) as u16
}

/// Whether bit `p` of byte `b` is set, counting from the least significant
/// bit.
pub open spec fn bit_set(b: u8, p: u8) -> bool {
    (b >> p) & 1 != 0
}

/// The full request frame for a command: the four header bytes, the eight
/// payload bytes, and the checksum over those twelve.
pub open spec fn request_frame(command: u8, payload: Seq<u8>) -> Seq<u8>
    recommends
        payload.len() == 8,
{
    let body = seq![START_BYTE, HOST_ADDRESS, command, DATA_LENGTH] + payload;
    body.push(crc_of(body))
}

/// The all-zero payload used by every request that carries no arguments.
pub open spec fn zero_payload() -> Seq<u8> {
    seq![0u8, 0u8, 0u8, 0u8, 0u8, 0u8, 0u8, 0u8]
}

pub proof fn lemma_sum_bytes_nonneg(s: Seq<u8>)
    ensures
        0 <= sum_bytes(s),
    decreases s.len(),
{
    if s.len() > 0 {
        lemma_sum_bytes_nonneg(s.drop_last());
    }
}

/// Extending the summed prefix by one byte adds that byte to the sum.
pub proof fn lemma_sum_bytes_take_succ(s: Seq<u8>, i: int)
    requires
        0 <= i < s.len(),
    ensures
        sum_bytes(s.take(i + 1)) == sum_bytes(s.take(i)) + s[i],
{
    assert(s.take(i + 1).drop_last() =~= s.take(i));
    assert(s.take(i + 1).last() == s[i]);
}

/// Replacing one byte shifts the sum by the difference of the bytes.
pub proof fn lemma_sum_bytes_update(s: Seq<u8>, i: int, v: u8)
    requires
        0 <= i < s.len(),
    ensures
        sum_bytes(s.update(i, v)) == sum_bytes(s) - s[i] + v,
    decreases s.len(),
{
    if i == s.len() - 1 {
        assert(s.update(i, v).drop_last() =~= s.drop_last());
        assert(s.update(i, v).last() == v);
    } else {
        assert(s.update(i, v).drop_last() =~= s.drop_last().update(i, v));
        assert(s.update(i, v).last() == s.last());
        lemma_sum_bytes_update(s.drop_last(), i, v);
    }
}

/// An 8-bit wraparound addition step matches extending the modular sum.
proof fn lemma_crc_step(sum: int, acc: u8, b: u8)
    requires
        0 <= sum,
        acc == sum % 256,
    ensures
        (if acc + b > 255 {
            (acc + b - 256) as u8
        } else {
            (acc + b) as u8
        }) == ((sum + b) % 256) as u8,
{
    lemma_add_mod_noop(sum, b as int, 256);
    lemma_small_mod(b as nat, 256);
    if acc + b > 255 {
        lemma_mod_add_multiples_vanish(acc + b - 256, 256);
        lemma_small_mod((acc + b - 256) as nat, 256);
    } else {
        lemma_small_mod((acc + b) as nat, 256);
    }
}

/// Computes the checksum of `buffer`: the 8-bit wraparound sum of every byte
/// except the last, which is the position the checksum occupies in a frame.
pub fn calc_crc(buffer: &[u8]) -> (r: u8)
    requires
        buffer@.len() >= 1,
    ensures
        r == crc_of(buffer@.take(buffer@.len() - 1)),
{
    let n = buffer.len() - 1;
    let mut checksum: u8 = 0;
    let mut i: usize = 0;
    while i < n
        invariant
            n == buffer@.len() - 1,
            i <= n,
            checksum == crc_of(buffer@.take(i as int)),
        decreases n - i,
    {
        proof {
            lemma_sum_bytes_nonneg(buffer@.take(i as int));
            lemma_sum_bytes_take_succ(buffer@, i as int);
            lemma_crc_step(sum_bytes(buffer@.take(i as int)), checksum, buffer@[i as int]);
        }
        checksum = checksum.wrapping_add(buffer[i]);
        i = i + 1;
    }
    checksum
}

/// Checks that the received buffer holds at least `expected_size` bytes.
/// A longer buffer is accepted: the decoders ignore trailing bytes.
pub fn validate_len(buffer: &[u8], expected_size: usize) -> (r: Result<(), Error>)
    ensures
        r is Ok <==> buffer@.len() >= expected_size,
        r is Err ==> r == Result::<(), Error>::Err(Error::ReplySizeError),
{
    if buffer.len() < expected_size {
        return Err(Error::ReplySizeError);
    }
    Ok(())
}

/// Checks that the last byte of `buffer` equals the checksum of the bytes
/// before it.
pub fn validate_checksum(buffer: &[u8]) -> (r: Result<(), Error>)
    requires
        buffer@.len() >= 1,
    ensures
        r is Ok <==> buffer@.last() == crc_of(buffer@.take(buffer@.len() - 1)),
        r is Err ==> r == Result::<(), Error>::Err(Error::CheckSumError),
{
    let checksum = calc_crc(buffer);
    if buffer[buffer.len() - 1] != checksum {
        return Err(Error::CheckSumError);
    }
    Ok(())
}

/// Validates the leading 13-byte frame of a reply buffer: length first, then
/// the frame checksum.
pub fn validate_frame(buffer: &[u8]) -> (r: Result<(), Error>)
    ensures
        match r {
            Ok(()) => frame_error(buffer@) is None,
            Err(e) => frame_error(buffer@) == Some(e),
        },
{
    if let Err(e) = validate_len(buffer, FRAME_LENGTH) {
        return Err(e);
    }
    let frame = &buffer[0..FRAME_LENGTH];
    assert(frame@ =~= buffer@.take(13));
    if let Err(e) = validate_checksum(frame) {
        assert(frame@.take(12) =~= buffer@.take(13).take(12));
        return Err(e);
    }
    assert(frame@.take(12) =~= buffer@.take(13).take(12));
    Ok(())
}

/// Builds the request frame for `command` with the given payload bytes and
/// writes the checksum into the last byte.
pub(crate) fn build_request(command: u8, payload: &[u8; 8]) -> (r: Vec<u8>)
    ensures
        r@ == request_frame(command, payload@),
        frame_valid(r@),
{
    let mut tx_buffer: Vec<u8> = Vec::new();
    tx_buffer.push(START_BYTE);
    tx_buffer.push(HOST_ADDRESS);
    tx_buffer.push(command);
    tx_buffer.push(DATA_LENGTH);
    let mut i: usize = 0;
    while i < 8
        invariant
            i <= 8,
            tx_buffer@ =~= (seq![START_BYTE, HOST_ADDRESS, command, DATA_LENGTH]
                + payload@.take(i as int)),
        decreases 8 - i,
    {
        tx_buffer.push(payload[i]);
        assert(payload@.take(i + 1) =~= payload@.take(i as int).push(payload@[i as int]));
        i = i + 1;
    }
    assert(payload@.take(8) =~= payload@);
    tx_buffer.push(0u8);
    proof {
        let body = seq![START_BYTE, HOST_ADDRESS, command, DATA_LENGTH] + payload@;
        assert(tx_buffer@.take(12) =~= body);
    }
    let crc = calc_crc(tx_buffer.as_slice());
    let last = tx_buffer.len() - 1;
    tx_buffer[last] = crc;
    proof {
        let body = seq![START_BYTE, HOST_ADDRESS, command, DATA_LENGTH] + payload@;
        assert(tx_buffer@ =~= body.push(crc_of(body)));
        assert(tx_buffer@.take(12) =~= body);
    }
    tx_buffer
}

/// Every request frame that `build_request` produces is a valid frame: its
/// checksum byte equals the 8-bit wraparound sum of the twelve bytes before
/// it.
pub proof fn lemma_request_frame_valid(command: u8, payload: Seq<u8>)
    requires
        payload.len() == 8,
    ensures
        frame_valid(request_frame(command, payload)),
        request_frame(command, payload).len() == 13,
{
    let body = seq![START_BYTE, HOST_ADDRESS, command, DATA_LENGTH] + payload;
    let framed = body.push(crc_of(body));
    assert(framed.take(12) =~= body);
}

} // verus!
