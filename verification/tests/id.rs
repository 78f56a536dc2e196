//! Tests of the identifier codec: packing, decoding, round trips and
//! rejection of malformed inputs.

use n2k::{Id, IdError, Priority, GLOBAL_ADDRESS};

#[test]
fn id_value_exact_pdu1() {
    // PGN 12345 = 0x3039: PF byte 0x30 is below 240, so the identifier is
    // PDU1-form and the destination overlays the PS byte on the wire.
    let id = Id::new(Priority::Priority0, 12345, 123, GLOBAL_ADDRESS).unwrap();
    assert_eq!(id.value(), 0x0030_FF7B);
    assert_eq!(id.pgn(), 12345);
    assert_eq!(id.priority(), Priority::Priority0);
    assert_eq!(id.source(), 123);
    assert_eq!(id.destination(), GLOBAL_ADDRESS);
}

#[test]
fn id_value_exact_pdu2() {
    // PGN 0x1F805: PF byte 0xF8 is at least 240, so the identifier is
    // PDU2-form; the PS byte carries PGN data and the destination argument
    // is forced to the broadcast address.
    let id = Id::new(Priority::Priority6, 0x1F805, 0x80, 0x00).unwrap();
    assert_eq!(id.destination(), GLOBAL_ADDRESS);
    assert_eq!(id.value(), 0x19F8_0580);
}

#[test]
fn id_roundtrip_pdu1() {
    // A PDU1-form PGN with a zero PS byte round-trips exactly, the
    // destination included.
    let id = Id::new(Priority::Priority3, 0xEC00, 0x21, 0x42).unwrap();
    let back = Id::try_from(id.value()).unwrap();
    assert_eq!(back.priority(), Priority::Priority3);
    assert_eq!(back.pgn(), 0xEC00);
    assert_eq!(back.source(), 0x21);
    assert_eq!(back.destination(), 0x42);
    assert_eq!(back, id);
}

#[test]
fn id_roundtrip_pdu2() {
    let id = Id::new(Priority::Priority7, 0x3FFFF, 0xFE, 0x05).unwrap();
    let back = Id::try_from(id.value()).unwrap();
    assert_eq!(back.priority(), Priority::Priority7);
    assert_eq!(back.pgn(), 0x3FFFF);
    assert_eq!(back.source(), 0xFE);
    assert_eq!(back.destination(), GLOBAL_ADDRESS);
    assert_eq!(back, id);
}

#[test]
fn id_decode_then_value_restores_the_bits() {
    let raw = 0x19F8_0580;
    let id = Id::try_from(raw).unwrap();
    assert_eq!(id.value(), raw);
    let raw2 = 0x0030_FF7B;
    let id2 = Id::try_from(raw2).unwrap();
    assert_eq!(id2.value(), raw2);
}

#[test]
fn id_pdu1_nonzero_ps_byte_folds_destination() {
    // PGN 12345 is PDU1-form with PS byte 0x39. On the wire the destination
    // overlays that byte, so decoding sees PGN 0x3000 and destination 0xFF:
    // the PS byte of a PDU1 PGN cannot survive the round trip.
    let id = Id::new(Priority::Priority0, 12345, 123, GLOBAL_ADDRESS).unwrap();
    let back = Id::try_from(id.value()).unwrap();
    assert_eq!(back.pgn(), 0x3000);
    assert_eq!(back.destination(), GLOBAL_ADDRESS);
    assert_eq!(back.source(), 123);
    assert_eq!(back.priority(), Priority::Priority0);
}

#[test]
fn id_new_rejects_large_pgn() {
    assert_eq!(
        Id::new(Priority::Priority0, 0x40000, 1, GLOBAL_ADDRESS),
        Err(IdError::InvalidPgn)
    );
}

#[test]
fn id_try_from_rejects_wide_value() {
    assert_eq!(Id::try_from(0x2000_0000), Err(IdError::InvalidId));
    assert!(Id::try_from(0x1FFF_FFFF).is_ok());
}

#[test]
fn priority_from_u8_bounds() {
    assert_eq!(Priority::from_u8(0), Ok(Priority::Priority0));
    assert_eq!(Priority::from_u8(7), Ok(Priority::Priority7));
    assert_eq!(Priority::from_u8(8), Err(IdError::InvalidPriority));
    assert_eq!(Priority::Priority5.to_u8(), 5);
}
