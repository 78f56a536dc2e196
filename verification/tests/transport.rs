//! Tests of the transport segmenter: single-frame and multi-frame
//! segmentation, BAM contents, sequence counters, padding and priority.

use n2k::message::MAX_PAYLOAD;
use n2k::transport::{segment, CB_TP_BAM, PGN_TP_CM, PGN_TP_DT};
use n2k::{Id, Message, Priority, GLOBAL_ADDRESS};

#[test]
fn single_frame_seven_bytes() {
    let id = Id::new(Priority::Priority0, 12345, 123, GLOBAL_ADDRESS).unwrap();
    let message = Message::new(id, vec![1, 2, 3, 4, 5, 6, 7]).unwrap();
    let frames = segment(&message, 0);

    assert_eq!(frames.len(), 1);
    assert_eq!(frames[0].id().value(), id.value());
    assert_eq!(frames[0].dlc(), 7);
    assert_eq!(frames[0].data(), &[1, 2, 3, 4, 5, 6, 7]);
}

#[test]
fn single_frame_eight_bytes() {
    let id = Id::new(Priority::Priority4, 0xF123, 9, GLOBAL_ADDRESS).unwrap();
    let message = Message::new(id, vec![8, 7, 6, 5, 4, 3, 2, 1]).unwrap();
    let frames = segment(&message, 77);

    assert_eq!(frames.len(), 1);
    assert_eq!(frames[0].id().value(), id.value());
    assert_eq!(frames[0].data(), &[8, 7, 6, 5, 4, 3, 2, 1]);
}

#[test]
fn multi_frame_seventeen_bytes() {
    let id = Id::new(Priority::Priority0, 12345, 123, GLOBAL_ADDRESS).unwrap();
    let data: Vec<u8> = (1..=17).collect();
    let message = Message::new(id, data.clone()).unwrap();
    let source = 123;
    let frames = segment(&message, source);

    // One BAM frame plus three data-transfer frames.
    assert_eq!(frames.len(), 4);

    // The BAM frame: TP.CM PGN, broadcast destination, control byte 0x40,
    // the 17-byte length, 3 announced packets, and PGN 12345 in its three
    // bytes (low 0x39, mid 0x30, high 0x00).
    let bam = &frames[0];
    assert_eq!(bam.id().pgn(), PGN_TP_CM);
    assert_eq!(bam.id().destination(), GLOBAL_ADDRESS);
    assert_eq!(bam.id().source(), source);
    assert_eq!(bam.dlc(), 8);
    assert_eq!(bam.data(), &[CB_TP_BAM, 17, 0, 3, 0xFF, 0x39, 0x30, 0x00]);

    // The data frames: TP.DT PGN, counters 1, 2, 3, payload in order, and
    // 0xFF filler after the final byte.
    for k in 1..4 {
        assert_eq!(frames[k].id().pgn(), PGN_TP_DT);
        assert_eq!(frames[k].id().destination(), GLOBAL_ADDRESS);
        assert_eq!(frames[k].dlc(), 8);
        assert_eq!(frames[k].data()[0], k as u8);
    }
    for b in 0..17 {
        assert_eq!(frames[1 + b / 7].data()[1 + b % 7], data[b]);
    }
    assert_eq!(&frames[3].data()[4..], &[0xFF, 0xFF, 0xFF, 0xFF]);
}

#[test]
fn boundary_length_fourteen_announces_one_packet_more() {
    // 14 bytes fill exactly two data frames, but the announced packet count
    // is computed as 14 / 7 + 1 = 3: one more than is sent.
    let id = Id::new(Priority::Priority1, 0xFECA, 2, GLOBAL_ADDRESS).unwrap();
    let data: Vec<u8> = (10..24).collect();
    let message = Message::new(id, data.clone()).unwrap();
    let frames = segment(&message, 2);

    assert_eq!(frames.len(), 3);
    assert_eq!(frames[0].data()[3], 3);
    assert_eq!(frames[1].data()[0], 1);
    assert_eq!(frames[2].data()[0], 2);
    for b in 0..14 {
        assert_eq!(frames[1 + b / 7].data()[1 + b % 7], data[b]);
    }
}

#[test]
fn priority_preserved_across_frames() {
    let id = Id::new(Priority::Priority5, 0x0EF00, 31, GLOBAL_ADDRESS).unwrap();
    let message = Message::new(id, (0..20).collect()).unwrap();
    let frames = segment(&message, 31);

    assert_eq!(frames.len(), 4);
    for frame in &frames {
        assert_eq!(frame.id().priority(), Priority::Priority5);
    }
}

#[test]
fn segment_max_payload() {
    // The largest payload: 255 data frames with counters 1 through 255. The
    // announced packet count 1785 / 7 + 1 = 256 does not fit the one-byte
    // field and truncates to 0.
    let id = Id::new(Priority::Priority3, 0x1F010, 8, GLOBAL_ADDRESS).unwrap();
    let data: Vec<u8> = (0..MAX_PAYLOAD).map(|b| (b % 251) as u8).collect();
    let message = Message::new(id, data.clone()).unwrap();
    let frames = segment(&message, 8);

    assert_eq!(frames.len(), 1 + 255);
    assert_eq!(frames[0].data()[1], (1785 % 256) as u8);
    assert_eq!(frames[0].data()[2], (1785 / 256) as u8);
    assert_eq!(frames[0].data()[3], 0);
    for k in 1..=255 {
        assert_eq!(frames[k].data()[0], k as u8);
    }
    for b in 0..MAX_PAYLOAD {
        assert_eq!(frames[1 + b / 7].data()[1 + b % 7], data[b]);
    }
}
