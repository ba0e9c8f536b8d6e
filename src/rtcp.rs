//! Reading RTCP feedback from the remote peer: picture-loss indications
//! raise the picture-loss flag.

use vstd::prelude::*;
use crate::pipeline::PictureLossFlag;

verus! {

/// RTCP packet type of payload-specific feedback.
pub const PAYLOAD_SPECIFIC_FEEDBACK: u8 = 206;

/// Feedback message type of a picture-loss indication.
pub const FORMAT_PLI: u8 = 1;

/// The fields of an RTCP header the feedback loop looks at: the packet type
/// and the count field, which carries the feedback message type.
#[derive(Clone, Copy, Debug, PartialEq, Eq, Structural)]
pub struct RtcpHeader {
    pub packet_type: u8,
    pub count: u8,
}

pub open spec fn is_pli(h: RtcpHeader) -> bool {
    h.packet_type == PAYLOAD_SPECIFIC_FEEDBACK && h.count == FORMAT_PLI
}

pub open spec fn has_pli(hs: Seq<RtcpHeader>) -> bool {
    exists|i: int| 0 <= i < hs.len() && is_pli(#[trigger] hs[i])
}

/// `true` for a picture-loss indication.
pub fn is_picture_loss(h: &RtcpHeader) -> (r: bool)
    ensures
        r == is_pli(*h),
{
    h.packet_type == PAYLOAD_SPECIFIC_FEEDBACK && h.count == FORMAT_PLI
}

/// Handles one batch of RTCP packets: raises the flag when the batch holds a
/// picture-loss indication, and ignores every other packet. Returns `true`
/// when this batch turned the flag from cleared to raised.
pub fn process_rtcp_packets(headers: &Vec<RtcpHeader>, flag: &mut PictureLossFlag) -> (newly_raised: bool)
    ensures
        final(flag).is_raised() == (old(flag).is_raised() || has_pli(headers@)),
        newly_raised == (!old(flag).is_raised() && has_pli(headers@)),
{
    let mut newly_raised = false;
    let mut k: usize = 0;
    while k < headers.len()
        invariant
            k <= headers@.len(),
            flag.is_raised() == (old(flag).is_raised() || has_pli(headers@.subrange(0, k as int))),
            newly_raised == (!old(flag).is_raised() && has_pli(headers@.subrange(0, k as int))),
        decreases headers@.len() - k,
    {
        let h = headers[k];
        if is_picture_loss(&h) {
            let was_raised = flag.raise();
            if !was_raised {
                newly_raised = true;
            }
        }
        proof {
            let p = headers@.subrange(0, k as int);
            let q = headers@.subrange(0, k + 1);
            assert(forall|j: int| 0 <= j < k ==> q[j] == p[j]);
            assert(q[k as int] == h);
            if has_pli(p) {
                let j = choose|j: int| 0 <= j < p.len() && is_pli(#[trigger] p[j]);
                assert(q[j] == p[j]);
            }
            if has_pli(q) && !is_pli(h) {
                let j = choose|j: int| 0 <= j < q.len() && is_pli(#[trigger] q[j]);
                assert(p[j] == q[j]);
            }
        }
        k = k + 1;
    }
    proof {
        assert(headers@.subrange(0, k as int) =~= headers@);
    }
    newly_raised
}

} // verus!
