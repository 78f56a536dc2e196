//! The identifier codec: packing and unpacking of the 29-bit extended CAN
//! identifier carrying priority, parameter group number (PGN), source
//! address and (for destination-specific PGNs) destination address.

use vstd::prelude::*;

use crate::GLOBAL_ADDRESS;

verus! {

/// Errors from constructing or decoding an identifier.
#[derive(Copy, Clone, Debug, PartialEq, Eq, Structural)]
pub enum IdError {
    /// A raw priority value above 7.
    InvalidPriority,
    /// A parameter group number outside its 18-bit range.
    InvalidPgn,
    /// A raw identifier that does not fit in 29 bits.
    InvalidId,
}

/// Message priority, 0 (highest) through 7 (lowest); packed in the top
/// 3 bits of the 29-bit identifier.
#[derive(Copy, Clone, Debug, PartialEq, Eq, Structural)]
pub enum Priority {
    Priority0,
    Priority1,
    Priority2,
    Priority3,
    Priority4,
    Priority5,
    Priority6,
    Priority7,
}

impl Priority {
    /// The numeric value of the priority, 0 through 7.
    pub open spec fn as_u8(self) -> u8 {
        match self {
            Priority::Priority0 => 0,
            Priority::Priority1 => 1,
            Priority::Priority2 => 2,
            Priority::Priority3 => 3,
            Priority::Priority4 => 4,
            Priority::Priority5 => 5,
            Priority::Priority6 => 6,
            Priority::Priority7 => 7,
        }
    }

    /// The priority for a numeric value 0 through 7.
    pub open spec fn spec_from_u8(value: u8) -> Priority {
        if value == 0 {
            Priority::Priority0
        } else if value == 1 {
            Priority::Priority1
        } else if value == 2 {
            Priority::Priority2
        } else if value == 3 {
            Priority::Priority3
        } else if value == 4 {
            Priority::Priority4
        } else if value == 5 {
            Priority::Priority5
        } else if value == 6 {
            Priority::Priority6
        } else {
            Priority::Priority7
        }
    }

    /// Reads a priority from its numeric value; values above 7 are rejected.
    pub fn from_u8(value: u8) -> (r: Result<Priority, IdError>)
        ensures
            value <= 7 ==> r == Ok::<Priority, IdError>(Priority::spec_from_u8(value)),
            value > 7 ==> r == Err::<Priority, IdError>(IdError::InvalidPriority),
    {
        match value {
            0 => Ok(Priority::Priority0),
            1 => Ok(Priority::Priority1),
            2 => Ok(Priority::Priority2),
            3 => Ok(Priority::Priority3),
            4 => Ok(Priority::Priority4),
            5 => Ok(Priority::Priority5),
            6 => Ok(Priority::Priority6),
            7 => Ok(Priority::Priority7),
            _ => Err(IdError::InvalidPriority),
        }
    }

    /// The numeric value of the priority.
    pub fn to_u8(self) -> (r: u8)
        ensures
            r == self.as_u8(),
            r <= 7,
    {
        match self {
            Priority::Priority0 => 0,
            Priority::Priority1 => 1,
            Priority::Priority2 => 2,
            Priority::Priority3 => 3,
            Priority::Priority4 => 4,
            Priority::Priority5 => 5,
            Priority::Priority6 => 6,
            Priority::Priority7 => 7,
        }
    }
}

/// The PDU format (PF) byte of a PGN: bits 8 through 15.
pub open spec fn spec_pf(pgn: u32) -> u32 {
    (pgn >> 8) & 0xFF
}

/// A PGN is PDU1-form (destination-specific) when its PF byte is below 240;
/// otherwise it is PDU2-form (broadcast) and its PS byte is part of the PGN.
pub open spec fn spec_is_pdu1(pgn: u32) -> bool {
    spec_pf(pgn) < 240
}

/// One 29-bit extended CAN identifier, kept as its logical fields.
#[derive(Copy, Clone, Debug, PartialEq, Eq, Structural)]
pub struct Id {
    /// Priority, packed in the top 3 bits.
    pub priority: Priority,
    /// Parameter group number, 18 bits (0 through 0x3FFFF).
    pub pgn: u32,
    /// Station address of the sender.
    pub source: u8,
    /// Station address of the intended recipient; meaningful only for
    /// PDU1-form PGNs, and `GLOBAL_ADDRESS` for PDU2-form PGNs.
    pub destination: u8,
}

impl Id {
    /// Well-formed: the PGN fits in 18 bits, and a PDU2-form identifier
    /// addresses the broadcast address. `Id::new` and `Id::try_from` only
    /// produce well-formed identifiers.
    pub open spec fn wf(self) -> bool {
        &&& self.pgn <= 0x3FFFF
        &&& !spec_is_pdu1(self.pgn) ==> self.destination == GLOBAL_ADDRESS
    }

    /// The PDU specific (PS) byte that goes on the wire: the destination
    /// address for a PDU1-form PGN, the PGN's own low byte otherwise.
    pub open spec fn spec_ps(self) -> u8 {
        if spec_is_pdu1(self.pgn) {
            self.destination
        } else {
            (self.pgn & 0xFF) as u8
        }
    }

    /// The packed 29-bit identifier: priority in bits 26 through 28, the
    /// PGN's data-page bits in 24 and 25, the PF byte in 16 through 23, the
    /// PS byte in 8 through 15 and the source address in 0 through 7.
    pub open spec fn spec_value(self) -> u32 {
        ((self.priority.as_u8() as u32) << 26) | ((self.pgn & 0x3FF00) << 8) | (
        (self.spec_ps() as u32) << 8) | (self.source as u32)
    }

    /// Builds an identifier from its fields.
    ///
    /// Fails with `InvalidPgn` when the PGN does not fit in 18 bits. For a
    /// PDU1-form PGN the destination is kept (it is folded into the PS byte
    /// by `value`); for a PDU2-form PGN the PS byte already carries PGN data,
    /// so the destination argument is ignored and forced to the broadcast
    /// address.
    pub fn new(priority: Priority, pgn: u32, source: u8, destination: u8) -> (r: Result<
        Id,
        IdError,
    >)
        ensures
            pgn > 0x3FFFF ==> r == Err::<Id, IdError>(IdError::InvalidPgn),
            pgn <= 0x3FFFF ==> r == Ok::<Id, IdError>(
                Id {
                    priority,
                    pgn,
                    source,
                    destination: if spec_is_pdu1(pgn) {
                        destination
                    } else {
                        GLOBAL_ADDRESS
                    },
                },
            ),
            r matches Ok(id) ==> id.wf(),
    {
        if pgn > 0x3FFFF {
            return Err(IdError::InvalidPgn);
        }
        let pf = (pgn >> 8) & 0xFF;
        if pf < 240 {
            Ok(Id { priority, pgn, source, destination })
        } else {
            Ok(Id { priority, pgn, source, destination: GLOBAL_ADDRESS })
        }
    }

    /// The packed 29-bit value, usable directly as an extended CAN identifier.
    pub fn value(&self) -> (r: u32)
        ensures
            r == self.spec_value(),
            r < 0x2000_0000,
    {
        let prio = self.priority.to_u8();
        let ps: u8 = if (self.pgn >> 8) & 0xFF < 240 {
            self.destination
        } else {
            proof {
                let pg = self.pgn;
                assert(pg & 0xFF < 256) by (bit_vector);
            }
            (self.pgn & 0xFF) as u8
        };
        let r = ((prio as u32) << 26) | ((self.pgn & 0x3FF00) << 8) | ((ps as u32) << 8) | (
        self.source as u32);
        proof {
            let p = prio;
            let pg = self.pgn;
            let s = self.source;
            assert(((p as u32) << 26) | ((pg & 0x3FF00) << 8) | ((ps as u32) << 8) | (s as u32)
                < 0x2000_0000) by (bit_vector)
                requires
                    p <= 7,
            ;
        }
        r
    }

    /// Reads an identifier back from a packed 29-bit value; the inverse of
    /// `value`. Fails with `InvalidId` when the value does not fit in
    /// 29 bits.
    pub fn try_from(value: u32) -> (r: Result<Id, IdError>)
        ensures
            value >= 0x2000_0000 ==> r == Err::<Id, IdError>(IdError::InvalidId),
            value < 0x2000_0000 ==> r == Ok::<Id, IdError>(spec_decode(value)),
            r matches Ok(id) ==> id.wf(),
    {
        if value >= 0x2000_0000 {
            return Err(IdError::InvalidId);
        }
        proof {
            assert((value >> 26) & 0x7 <= 7 && value & 0xFF < 256 && (value >> 8) & 0xFF < 256)
                by (bit_vector);
        }
        let prio_num = ((value >> 26) & 0x7) as u8;
        let priority = match Priority::from_u8(prio_num) {
            Ok(p) => p,
            Err(_) => unreached(),
        };
        let source = (value & 0xFF) as u8;
        let pf = (value >> 16) & 0xFF;
        let r = if pf < 240 {
            let pgn = (value >> 8) & 0x3FF00;
            let destination = ((value >> 8) & 0xFF) as u8;
            Id { priority, pgn, source, destination }
        } else {
            let pgn = (value >> 8) & 0x3FFFF;
            Id { priority, pgn, source, destination: GLOBAL_ADDRESS }
        };
        proof {
            lemma_decode_wf(value);
        }
        Ok(r)
    }

    /// The parameter group number.
    pub fn pgn(&self) -> (r: u32)
        ensures
            r == self.pgn,
    {
        self.pgn
    }

    /// The priority.
    pub fn priority(&self) -> (r: Priority)
        ensures
            r == self.priority,
    {
        self.priority
    }

    /// The source address.
    pub fn source(&self) -> (r: u8)
        ensures
            r == self.source,
    {
        self.source
    }

    /// The destination address.
    pub fn destination(&self) -> (r: u8)
        ensures
            r == self.destination,
    {
        self.destination
    }
}

/// The field decoding of a packed 29-bit identifier. For a PDU1-form value
/// the PS byte is the destination and the decoded PGN's own PS byte is zero;
/// for a PDU2-form value the PS byte belongs to the PGN and the destination
/// is the broadcast address.
pub open spec fn spec_decode(value: u32) -> Id {
    Id {
        priority: Priority::spec_from_u8(((value >> 26) & 0x7) as u8),
        pgn: if (value >> 16) & 0xFF < 240 {
            (value >> 8) & 0x3FF00
        } else {
            (value >> 8) & 0x3FFFF
        },
        source: (value & 0xFF) as u8,
        destination: if (value >> 16) & 0xFF < 240 {
            ((value >> 8) & 0xFF) as u8
        } else {
            GLOBAL_ADDRESS
        },
    }
}

/// Every decoding of a 29-bit value is well-formed.
pub proof fn lemma_decode_wf(value: u32)
    requires
        value < 0x2000_0000,
    ensures
        spec_decode(value).wf(),
{
    assert(((value >> 8) & 0x3FF00) <= 0x3FFFF && ((value >> 8) & 0x3FFFF) <= 0x3FFFF)
        by (bit_vector);
    assert(((((value >> 8) & 0x3FF00) >> 8) & 0xFF) == (value >> 16) & 0xFF) by (bit_vector);
    assert(((((value >> 8) & 0x3FFFF) >> 8) & 0xFF) == (value >> 16) & 0xFF) by (bit_vector);
}

/// Numeric round trip of a priority.
proof fn lemma_priority_roundtrip(p: Priority)
    ensures
        Priority::spec_from_u8(p.as_u8()) == p,
{
}

/// Round-trip law, encoding direction: packing a well-formed identifier with
/// `value` and decoding the result with `try_from` reproduces the original
/// fields exactly.
///
/// A PDU1-form PGN whose own PS byte is not zero is excluded: on the wire
/// that byte is overwritten by the destination address, so no decoding can
/// recover it.
pub proof fn lemma_value_roundtrip(id: Id)
    requires
        id.wf(),
        spec_is_pdu1(id.pgn) ==> id.pgn & 0xFF == 0,
    ensures
        spec_decode(id.spec_value()) == id,
{
    let p = id.priority.as_u8();
    let pg = id.pgn;
    let s = id.source;
    let ps = id.spec_ps();
    let v = id.spec_value();
    assert(p <= 7);
    assert({
        &&& ((v >> 26) & 0x7) == p as u32
        &&& (v >> 16) & 0xFF == (pg >> 8) & 0xFF
        &&& (v >> 8) & 0xFF == ps as u32
        &&& v & 0xFF == s as u32
        &&& (v >> 8) & 0x3FF00 == pg & 0x3FF00
        &&& (v >> 8) & 0x3FFFF == (pg & 0x3FF00) | (ps as u32)
    }) by (bit_vector)
        requires
            v == ((p as u32) << 26) | ((pg & 0x3FF00) << 8) | ((ps as u32) << 8) | (s as u32),
            p <= 7,
            pg <= 0x3FFFF,
    ;
    lemma_priority_roundtrip(id.priority);
    if spec_is_pdu1(pg) {
        assert(pg & 0x3FF00 == pg) by (bit_vector)
            requires
                pg <= 0x3FFFF,
                pg & 0xFF == 0,
        ;
    } else {
        assert((pg & 0x3FF00) | ((pg & 0xFF) as u8 as u32) == pg) by (bit_vector)
            requires
                pg <= 0x3FFFF,
        ;
    }
}

/// Round-trip law over construction inputs: for every tuple that `Id::new`
/// accepts — subject to the PS-byte exclusion of `lemma_value_roundtrip` —
/// packing the identifier it builds and decoding the result reproduces that
/// identifier's fields exactly (for a PDU2-form PGN the stored destination
/// is the broadcast address, whatever was passed).
pub proof fn lemma_new_value_roundtrip(priority: Priority, pgn: u32, source: u8, destination: u8)
    requires
        pgn <= 0x3FFFF,
        spec_is_pdu1(pgn) ==> pgn & 0xFF == 0,
    ensures
        ({
            let id = (Id {
                priority,
                pgn,
                source,
                destination: if spec_is_pdu1(pgn) {
                    destination
                } else {
                    GLOBAL_ADDRESS
                },
            });
            spec_decode(id.spec_value()) == id
        }),
{
    let id = (Id {
        priority,
        pgn,
        source,
        destination: if spec_is_pdu1(pgn) {
            destination
        } else {
            GLOBAL_ADDRESS
        },
    });
    lemma_value_roundtrip(id);
}

/// Round-trip law, decoding direction: every 29-bit value decoded by
/// `try_from` packs back with `value` to the same 29 bits.
pub proof fn lemma_decode_value_roundtrip(value: u32)
    requires
        value < 0x2000_0000,
    ensures
        spec_decode(value).spec_value() == value,
{
    let id = spec_decode(value);
    let p = id.priority.as_u8();
    let pg = id.pgn;
    let s = id.source;
    let ps = id.spec_ps();
    assert(((value >> 26) & 0x7) <= 7) by (bit_vector);
    assert(p == (value >> 26) & 0x7);
    lemma_decode_wf(value);
    if (value >> 16) & 0xFF < 240 {
        assert(spec_is_pdu1(pg)) by {
            assert(((((value >> 8) & 0x3FF00) >> 8) & 0xFF) == (value >> 16) & 0xFF)
                by (bit_vector);
        }
        assert(((p as u32) << 26) | ((pg & 0x3FF00) << 8) | ((ps as u32) << 8) | (s as u32)
            == value) by (bit_vector)
            requires
                value < 0x2000_0000,
                p == (value >> 26) & 0x7,
                pg == (value >> 8) & 0x3FF00,
                ps == ((value >> 8) & 0xFF) as u8,
                s == (value & 0xFF) as u8,
        ;
    } else {
        assert(!spec_is_pdu1(pg)) by {
            assert(((((value >> 8) & 0x3FFFF) >> 8) & 0xFF) == (value >> 16) & 0xFF)
                by (bit_vector);
        }
        assert(ps == (pg & 0xFF) as u8);
        assert(((p as u32) << 26) | ((pg & 0x3FF00) << 8) | ((ps as u32) << 8) | (s as u32)
            == value) by (bit_vector)
            requires
                value < 0x2000_0000,
                p == (value >> 26) & 0x7,
                pg == (value >> 8) & 0x3FFFF,
                ps == (pg & 0xFF) as u8,
                s == (value & 0xFF) as u8,
        ;
    }
}

} // verus!
