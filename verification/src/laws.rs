//! Protocol-wide properties, stated and proved over the wire model.

use vstd::arithmetic::div_mod::lemma_fundamental_div_mod;
use vstd::prelude::*;

use crate::error::Error;
use crate::frame::{
    crc_of, frame_error, frame_valid, lemma_request_frame_valid, lemma_sum_bytes_nonneg,
    lemma_sum_bytes_update, request_frame, sum_bytes, zero_payload,
};
use crate::protocol::{
    ack_decode, frame_at, frame_ok, frames_error_from, lemma_frames_error_skip, mosfet_payload,
    multi_frame_error, set_soc_payload,
};

verus! {

/// Feeding a request frame back to an acknowledge decoder succeeds: every
/// built request is a valid frame, and decoding an acknowledge reply asks
/// only that the leading frame be well-formed.
pub proof fn lemma_request_round_trip(command: u8, payload: Seq<u8>)
    requires
        payload.len() == 8,
    ensures
        ack_decode(request_frame(command, payload)) == Result::<(), Error>::Ok(()),
{
    lemma_request_frame_valid(command, payload);
    let framed = request_frame(command, payload);
    assert(framed.take(13) =~= framed);
}

/// A set-charge-MOSFET request, echoed back by the device, decodes
/// successfully for either switch state.
pub proof fn lemma_set_charge_mosfet_round_trip(enable: bool)
    ensures
        ack_decode(request_frame(0xda, mosfet_payload(enable))) == Result::<(), Error>::Ok(()),
{
    lemma_request_round_trip(0xda, mosfet_payload(enable));
}

/// A set-discharge-MOSFET request, echoed back by the device, decodes
/// successfully for either switch state.
pub proof fn lemma_set_discharge_mosfet_round_trip(enable: bool)
    ensures
        ack_decode(request_frame(0xd9, mosfet_payload(enable))) == Result::<(), Error>::Ok(()),
{
    lemma_request_round_trip(0xd9, mosfet_payload(enable));
}

/// A set-SOC request, echoed back by the device, decodes successfully for
/// every requested value.
pub proof fn lemma_set_soc_round_trip(soc_tenths_percent: int)
    ensures
        ack_decode(request_frame(0x21, set_soc_payload(soc_tenths_percent)))
            == Result::<(), Error>::Ok(()),
{
    lemma_request_round_trip(0x21, set_soc_payload(soc_tenths_percent));
}

/// A reset request, echoed back by the device, decodes successfully.
pub proof fn lemma_reset_round_trip()
    ensures
        ack_decode(request_frame(0x00, zero_payload())) == Result::<(), Error>::Ok(()),
{
    lemma_request_round_trip(0x00, zero_payload());
}

/// Shifting a nonnegative integer by less than the modulus moves it to a
/// different residue.
proof fn lemma_mod_shift_differs(a: int, d: int)
    requires
        0 <= a,
        -256 < d < 256,
        d != 0,
    ensures
        (a + d) % 256 != a % 256,
{
    if (a + d) % 256 == a % 256 {
        lemma_fundamental_div_mod(a, 256);
        lemma_fundamental_div_mod(a + d, 256);
        let q1 = a / 256;
        let q2 = (a + d) / 256;
        assert(d == 256 * q2 - 256 * q1);
        assert(false);
    }
}

/// Corrupting any single byte of an accepted frame, without recomputing its
/// checksum, makes every decoder reject the buffer with a checksum error.
pub proof fn lemma_single_byte_corruption(s: Seq<u8>, i: int, v: u8)
    requires
        frame_error(s) is None,
        0 <= i < 13,
        v != s[i],
    ensures
        frame_error(s.update(i, v)) == Some(Error::CheckSumError),
{
    let frame = s.take(13);
    let corrupted = s.update(i, v);
    assert(corrupted.take(13) =~= frame.update(i, v));
    if i == 12 {
        assert(frame.update(i, v).take(12) =~= frame.take(12));
    } else {
        assert(frame.update(i, v).take(12) =~= frame.take(12).update(i, v));
        lemma_sum_bytes_nonneg(frame.take(12));
        lemma_sum_bytes_update(frame.take(12), i, v);
        lemma_mod_shift_differs(sum_bytes(frame.take(12)), v - frame.take(12)[i]);
        assert(frame.update(i, v)[12] == frame[12]);
    }
}

/// A reply shorter than one frame is rejected as too short; no decoder
/// looks at its bytes.
pub proof fn lemma_truncated_reply_rejected(s: Seq<u8>)
    requires
        s.len() < 13,
    ensures
        frame_error(s) == Some(Error::ReplySizeError),
{
}

/// Bytes trailing a complete single-frame reply change nothing: the padded
/// buffer is accepted or rejected exactly like the unpadded one, and every
/// byte a decoder reads is the same.
pub proof fn lemma_trailing_bytes_ignored(s: Seq<u8>, extra: Seq<u8>)
    requires
        s.len() >= 13,
    ensures
        frame_error(s + extra) == frame_error(s),
        forall|i: int| 0 <= i < s.len() ==> (s + extra)[i] == s[i],
{
    assert((s + extra).take(13) =~= s.take(13));
}

/// Bytes trailing a complete multi-frame reply change nothing either.
pub proof fn lemma_trailing_bytes_ignored_multi(s: Seq<u8>, extra: Seq<u8>, n: int)
    requires
        0 <= n,
        s.len() >= 13 * n,
    ensures
        multi_frame_error(s + extra, n) == multi_frame_error(s, n),
        forall|i: int| 0 <= i < s.len() ==> (s + extra)[i] == s[i],
{
    lemma_frames_scan_extends(s, extra, 1, n);
}

/// The in-order frame scan reads only the first `13 * n` bytes.
proof fn lemma_frames_scan_extends(s: Seq<u8>, extra: Seq<u8>, i: int, n: int)
    requires
        1 <= i,
        s.len() >= 13 * n,
    ensures
        frames_error_from(s + extra, i, n) == frames_error_from(s, i, n),
    decreases n + 1 - i,
{
    if i <= n {
        assert(frame_at(s + extra, i) =~= frame_at(s, i));
        lemma_frames_scan_extends(s, extra, i + 1, n);
    }
}

/// A frame presented out of position fails the whole multi-frame decode
/// with a frame-order error the moment the scan reaches it, when the frames
/// before it are in order; nothing after it is looked at.
pub proof fn lemma_frame_out_of_order(s: Seq<u8>, n: int, k: int)
    requires
        s.len() >= 13 * n,
        1 <= k <= n,
        forall|f: int| 1 <= f < k ==> #[trigger] frame_ok(s, f),
        s[13 * (k - 1) + 4] != k,
    ensures
        multi_frame_error(s, n) == Some(Error::FrameNoError),
{
    lemma_frames_error_skip(s, k, n);
}

} // verus!
