//! The transport segmenter: turns one message into the exact sequence of
//! CAN frames that goes on the wire — a single frame for a short payload,
//! or a broadcast announce message (BAM) followed by numbered data-transfer
//! frames for a long one.

use vstd::prelude::*;

use crate::frame::{zero_pad8, CanFrame, FrameView};
use crate::id::{Id, Priority};
use crate::message::{Message, MessageView, MAX_PAYLOAD};
use crate::GLOBAL_ADDRESS;

verus! {

/// Control byte announcing a broadcast (BAM) transfer in a TP.CM frame.
pub const CB_TP_BAM: u8 = 0x40;

/// PGN of the ISO transport protocol's connection-management frames.
pub const PGN_TP_CM: u32 = 0x00EC00;

/// PGN of the ISO transport protocol's data-transfer frames.
pub const PGN_TP_DT: u32 = 0x00EB00;

/// How many data-transfer frames a payload of `len` bytes takes, at 7
/// payload bytes per frame: the last frame may be partial.
pub open spec fn dt_frame_count(len: nat) -> nat {
    (len + 6) / 7
}

/// The packet count announced in byte 3 of the BAM frame, computed as
/// `len / 7 + 1`. When `len` is an exact multiple of 7 this announces one
/// packet more than the number of data frames actually sent; the data
/// frames themselves always stop after the last payload byte, and a
/// receiver of a connectionless broadcast transfer has no way to demand
/// the announced surplus.
pub open spec fn announced_packets(len: nat) -> nat {
    len / 7 + 1
}

/// The identifier of a transport-protocol frame: the message's priority,
/// one of the transport PGNs, the sender's address and the broadcast
/// destination.
pub open spec fn tp_id(priority: Priority, pgn: u32, source: u8) -> Id {
    Id { priority, pgn, source, destination: GLOBAL_ADDRESS }
}

/// The 8 data bytes of the BAM frame: the control byte, the payload length
/// (low byte, high byte), the announced packet count, the unused
/// max-packets-per-burst byte (0xFF for a broadcast transfer), and the
/// original message's PGN (low, mid, high byte).
pub open spec fn bam_bytes(len: nat, pgn: u32) -> Seq<u8> {
    Seq::new(
        8,
        |j: int|
            if j == 0 {
                CB_TP_BAM
            } else if j == 1 {
                (len % 256) as u8
            } else if j == 2 {
                ((len / 256) % 256) as u8
            } else if j == 3 {
                (announced_packets(len) % 256) as u8
            } else if j == 4 {
                0xFFu8
            } else if j == 5 {
                (pgn % 256) as u8
            } else if j == 6 {
                ((pgn / 256) % 256) as u8
            } else {
                ((pgn / 65536) % 256) as u8
            },
    )
}

/// The 8 data bytes of data-transfer frame `k` (counted from 0): the
/// sequence counter `k + 1`, then payload bytes `7k` through `7k + 6`,
/// with 0xFF filler past the end of the payload.
pub open spec fn dt_bytes(data: Seq<u8>, k: nat) -> Seq<u8> {
    Seq::new(
        8,
        |j: int|
            if j == 0 {
                (((k + 1) % 256) as u8)
            } else if 7 * k + j - 1 < data.len() {
                data[7 * (k as int) + j - 1]
            } else {
                0xFFu8
            },
    )
}

/// The frame sequence for a message: exactly one frame carrying the
/// message's identifier and payload when the payload fits in 8 bytes, else
/// one BAM frame followed by the data-transfer frames.
pub open spec fn segment_frames(m: MessageView, source: u8) -> Seq<FrameView> {
    if m.data.len() <= 8 {
        seq![FrameView { id: m.id, dlc: m.data.len(), bytes: zero_pad8(m.data) }]
    } else {
        seq![
            FrameView {
                id: tp_id(m.id.priority, PGN_TP_CM, source),
                dlc: 8 as nat,
                bytes: bam_bytes(m.data.len(), m.id.pgn),
            },
        ] + Seq::new(
            dt_frame_count(m.data.len()),
            |k: int|
                FrameView {
                    id: tp_id(m.id.priority, PGN_TP_DT, source),
                    dlc: 8 as nat,
                    bytes: dt_bytes(m.data, k as nat),
                },
        )
    }
}

/// The frame models of an executable frame sequence.
pub open spec fn views_of(frames: Seq<CanFrame>) -> Seq<FrameView> {
    frames.map_values(|f: CanFrame| f@)
}

/// Segments one message into its frame sequence, in transmit order.
#[verifier::loop_isolation(false)]
pub fn segment(message: &Message, source: u8) -> (frames: Vec<CanFrame>)
    requires
        message.wf(),
    ensures
        views_of(frames@) == segment_frames(message@, source),
        forall|k: int| 0 <= k < frames@.len() ==> (#[trigger] frames@[k]).wf(),
{
    let id = message.id();
    let data = message.data();
    let length = data.len();
    let mut frames: Vec<CanFrame> = Vec::new();
    if length <= 8 {
        frames.push(CanFrame::new(id, data));
        proof {
            assert(views_of(frames@) =~= segment_frames(message@, source));
        }
        frames
    } else {
        let packets = length / 7 + 1;
        let pgn = id.pgn();
        let priority = id.priority();
        let tp_cm_id = match Id::new(priority, PGN_TP_CM, source, GLOBAL_ADDRESS) {
            Ok(i) => i,
            Err(_) => unreached(),
        };
        let mut bam = [0xFFu8; 8];
        bam[0] = CB_TP_BAM;
        bam[1] = (length % 256) as u8;
        bam[2] = ((length / 256) % 256) as u8;
        bam[3] = (packets % 256) as u8;
        bam[5] = (pgn % 256) as u8;
        bam[6] = ((pgn / 256) % 256) as u8;
        bam[7] = ((pgn / 65536) % 256) as u8;
        frames.push(CanFrame::new(tp_cm_id, bam.as_slice()));
        proof {
            assert(zero_pad8(bam@) =~= bam_bytes(message@.data.len(), message@.id.pgn));
            assert(views_of(frames@) =~= segment_frames(message@, source).take(1));
        }
        let dt_id = match Id::new(priority, PGN_TP_DT, source, GLOBAL_ADDRESS) {
            Ok(i) => i,
            Err(_) => unreached(),
        };
        let ghost total = dt_frame_count(message@.data.len());
        let mut index: usize = 0;
        let mut count: usize = 0;
        while index < length
            invariant
                count <= total,
                index == if 7 * count <= length {
                    7 * count as int
                } else {
                    length as int
                },
                index == length ==> count == total,
                frames@.len() == 1 + count,
                views_of(frames@) == segment_frames(message@, source).take(1 + count as int),
                forall|k: int| 0 <= k < frames@.len() ==> (#[trigger] frames@[k]).wf(),
            decreases length - index,
        {
            let mut len = length - index;
            if len > 7 {
                len = 7;
            }
            proof {
                assert(7 * count == index);
                assert(count < 255) by {
                    assert(7 * count < length <= MAX_PAYLOAD);
                }
                assert(count < total) by {
                    assert(7 * count + 1 <= length);
                }
            }
            let mut dt = [0xFFu8; 8];
            dt[0] = (count + 1) as u8;
            let mut i: usize = 0;
            while i < len
                invariant
                    i <= len,
                    dt@.len() == 8,
                    dt@[0] == (count + 1) as u8,
                    forall|j: int| 1 <= j <= i ==> dt@[j] == data@[index + j - 1],
                    forall|j: int| i < j < 8 ==> dt@[j] == 0xFFu8,
                decreases len - i,
            {
                dt[i + 1] = data[index + i];
                i += 1;
            }
            frames.push(CanFrame::new(dt_id, dt.as_slice()));
            proof {
                assert(zero_pad8(dt@) =~= dt_bytes(message@.data, count as nat));
                assert(views_of(frames@) =~= segment_frames(message@, source).take(
                    1 + (count + 1) as int,
                ));
            }
            index += len;
            count += 1;
            proof {
                if index == length {
                    assert(count == total) by {
                        assert(7 * (count - 1) < length <= 7 * count);
                    }
                }
            }
        }
        proof {
            assert(count == total);
            assert(segment_frames(message@, source).take(1 + count as int) =~= segment_frames(
                message@,
                source,
            ));
        }
        frames
    }
}

/// Single-frame law: a payload of at most 8 bytes yields exactly one frame,
/// carrying the message's identifier unchanged and its payload bytes as
/// they are.
pub proof fn lemma_single_frame(m: MessageView, source: u8)
    requires
        m.data.len() <= 8,
    ensures
        segment_frames(m, source).len() == 1,
        segment_frames(m, source)[0].id == m.id,
        segment_frames(m, source)[0].dlc == m.data.len(),
        forall|b: int|
            0 <= b < m.data.len() ==> segment_frames(m, source)[0].bytes[b] == m.data[b],
{
}

/// Segmentation-count law: a payload of more than 8 bytes yields one BAM
/// frame plus one data-transfer frame per started group of 7 payload bytes,
/// and the sequence counters of the data frames count 1, 2, 3, ... in
/// order, each exactly once.
pub proof fn lemma_segment_count(m: MessageView, source: u8)
    requires
        8 < m.data.len() <= MAX_PAYLOAD,
    ensures
        segment_frames(m, source).len() == 1 + dt_frame_count(m.data.len()),
        forall|k: int|
            1 <= k < segment_frames(m, source).len() ==> segment_frames(m, source)[k].bytes[0]
                == k as u8,
{
    assert(dt_frame_count(m.data.len()) <= 255);
    assert forall|k: int|
        1 <= k < segment_frames(m, source).len() implies segment_frames(m, source)[k].bytes[0]
        == k as u8 by {
        assert(segment_frames(m, source)[k].bytes == dt_bytes(m.data, (k - 1) as nat));
        assert(((k - 1 + 1) % 256) == k);
    }
}

/// Payload-reconstruction law: for a multi-frame message, payload byte `b`
/// rides in data-transfer frame `b / 7` at buffer position `1 + b % 7`, so
/// concatenating the data segments of all data frames in order reproduces
/// the payload exactly; every buffer byte of the final frame past the end
/// of the payload holds the 0xFF filler.
pub proof fn lemma_payload_reconstruction(m: MessageView, source: u8)
    requires
        8 < m.data.len() <= MAX_PAYLOAD,
    ensures
        forall|b: int|
            0 <= b < m.data.len() ==> segment_frames(m, source)[1 + b / 7].bytes[1 + b % 7]
                == m.data[b],
        forall|k: int, j: int|
            1 <= k < segment_frames(m, source).len() && 1 <= j < 8 && 7 * (k - 1) + j - 1
                >= m.data.len() ==> segment_frames(m, source)[k].bytes[j] == 0xFFu8,
{
    let len = m.data.len() as int;
    assert forall|b: int|
        0 <= b < len implies segment_frames(m, source)[1 + b / 7].bytes[1 + b % 7] == m.data[b] by {
        let k = b / 7;
        let r = b % 7;
        assert(b == 7 * k + r && 0 <= r < 7);
        assert(7 * k < len);
        assert(k < dt_frame_count(m.data.len())) by {
            assert(7 * ((len + 6) / 7) >= len);
        }
        assert(segment_frames(m, source)[1 + k].bytes == dt_bytes(m.data, k as nat));
        assert(dt_bytes(m.data, k as nat)[1 + r] == m.data[b]);
    }
}

/// Priority-preservation law: every frame derived from a message — the
/// single frame of a short payload, or the BAM and all data-transfer frames
/// of a long one — carries the priority of the original identifier.
pub proof fn lemma_priority_preserved(m: MessageView, source: u8)
    ensures
        forall|k: int|
            0 <= k < segment_frames(m, source).len() ==> segment_frames(m, source)[k].id.priority
                == m.id.priority,
{
}

} // verus!
