//! The two-wire bus capability that the caller supplies, and the ghost
//! record of every transaction made through it.
//!
//! The driver never touches a bus itself: it is generic over a [`Transport`],
//! which provides the three fallible primitives of the device's bus
//! protocol. Each primitive appends the transaction it performed, together
//! with the bytes that came back, to a ghost history. The driver's
//! contracts are stated over that history, so what a verified operation
//! promises is exactly which transactions it issued and how its result was
//! computed from the bytes the bus returned.

use vstd::prelude::*;

verus! {

/// One bus transaction, as it is recorded in a transport's ghost history:
/// the request that was issued and the outcome that came back.
#[verifier::ext_equal]
pub enum BusOp {
    /// A plain write of `data` to the 7-bit bus address `addr`;
    /// `ok` records whether the transport reported success.
    Write { addr: u8, data: Seq<u8>, ok: bool },
    /// A plain read of `len` bytes from the bus address `addr`;
    /// `resp` holds the bytes read, or nothing if the transport failed.
    Read { addr: u8, len: nat, resp: Option<Seq<u8>> },
    /// A combined write-then-read in one transaction framing: `data` is
    /// written to `addr`, then `len` bytes are read back; `resp` holds the
    /// bytes read, or nothing if the transport failed.
    WriteRead { addr: u8, data: Seq<u8>, len: nat, resp: Option<Seq<u8>> },
}

/// The ghost history of a transport: every bus transaction performed so
/// far, oldest first. The history is specification-only; an unverified
/// implementation gives its `ops` a body that is never executed.
pub struct BusLog(pub Seq<BusOp>);

/// A blocking two-wire bus against 7-bit addresses.
///
/// An implementation must keep `ops` faithful: every call of a primitive
/// appends exactly the transaction it performed, with the response it
/// produced, and touches nothing else of the history. The driver's
/// contracts, and everything proved from them, hold only of transports
/// that do. Nothing is assumed about the bytes a read produces: the device
/// on the other end decides those.
pub trait Transport: Sized {
    /// The transport's own failure type, wrapped by the driver as
    /// [`crate::error::Error::BusError`].
    type BusFault;

    /// The ghost history of every transaction performed so far.
    spec fn ops(&self) -> BusLog;

    /// Write `data` to the device at bus address `addr`.
    fn write(&mut self, addr: u8, data: &Vec<u8>) -> (r: Result<(), Self::BusFault>)
        ensures
            final(self).ops().0 == old(self).ops().0.push(
                (BusOp::Write { addr, data: data@, ok: r is Ok }),
            ),
    ;

    /// Read `len` bytes from the device at bus address `addr`.
    fn read(&mut self, addr: u8, len: usize) -> (r: Result<Vec<u8>, Self::BusFault>)
        ensures
            final(self).ops().0 == old(self).ops().0.push(
                (BusOp::Read {
                    addr,
                    len: len as nat,
                    resp: match r {
                        Ok(ref v) => Some(v@),
                        Err(_) => None,
                    },
                }),
            ),
            r matches Ok(v) ==> v@.len() == len,
    ;

    /// Write `data` to the device at bus address `addr`, then read `len`
    /// bytes back, in one transaction framing.
    fn write_read(&mut self, addr: u8, data: &Vec<u8>, len: usize) -> (r: Result<
        Vec<u8>,
        Self::BusFault,
    >)
        ensures
            final(self).ops().0 == old(self).ops().0.push(
                (BusOp::WriteRead {
                    addr,
                    data: data@,
                    len: len as nat,
                    resp: match r {
                        Ok(ref v) => Some(v@),
                        Err(_) => None,
                    },
                }),
            ),
            r matches Ok(v) ==> v@.len() == len,
    ;
}

/// The high byte of a 16-bit register value.
pub open spec fn spec_high_byte(v: u16) -> u8 {
    (v / 256) as u8
}

/// The low byte of a 16-bit register value.
pub open spec fn spec_low_byte(v: u16) -> u8 {
    (v % 256) as u8
}

/// The 16-bit value encoded little-endian by two bytes: the first byte is
/// the low one. This is the payload convention of register reads.
pub open spec fn spec_le16(b0: u8, b1: u8) -> u16 {
    (b0 + 256 * b1) as u16
}

/// The transaction that a register write issues: the register's address
/// byte, then the value split big-endian (high byte first), as the
/// device's register-access convention for writes demands.
pub open spec fn reg_write_op(addr: u8, reg: u8, value: u16, ok: bool) -> BusOp {
    BusOp::Write { addr, data: seq![reg, spec_high_byte(value), spec_low_byte(value)], ok }
}

/// The transaction that a register read issues: write the register's
/// address byte, then read two bytes, in one framing.
pub open spec fn reg_read_op(addr: u8, reg: u8, resp: Option<Seq<u8>>) -> BusOp {
    BusOp::WriteRead { addr, data: seq![reg], len: 2, resp }
}

/// A register read that succeeded and decoded, little-endian, to `value`.
pub open spec fn reg_read_ok_op(addr: u8, reg: u8, value: u16) -> BusOp {
    reg_read_op(addr, reg, Some(seq![spec_low_byte(value), spec_high_byte(value)]))
}

/// Decoding two bytes little-endian and splitting the result gives back
/// the bytes: the low byte is the first one, the high byte the second.
pub proof fn lemma_le16_bytes(b0: u8, b1: u8)
    ensures
        spec_low_byte(spec_le16(b0, b1)) == b0,
        spec_high_byte(spec_le16(b0, b1)) == b1,
{
    let v = b0 + 256 * b1;
    assert(v % 256 == b0 && v / 256 == b1) by (nonlinear_arith)
        requires
            v == b0 + 256 * b1,
            0 <= b0 < 256,
            0 <= b1 < 256,
    ;
}

} // verus!
