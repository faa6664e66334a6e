//! Strategies for converting little/big/native-endian byte groups to host
//! integers.
//!
//! Usually you will want [`Native`] endian when parsing data emitted by the
//! kernel of the same machine, and [`Dynamic`] (or [`Little`] / [`Big`])
//! when parsing data from a file.

use vstd::prelude::*;

verus! {

/// The value of `bytes` read as a little-endian integer: the first byte is
/// the least significant.
pub open spec fn le_val(bytes: Seq<u8>) -> nat
    decreases bytes.len(),
{
    if bytes.len() == 0 {
        0
    } else {
        bytes[0] as nat + 256 * le_val(bytes.skip(1))
    }
}

/// The value of `bytes` read as a big-endian integer: the last byte is the
/// least significant.
pub open spec fn be_val(bytes: Seq<u8>) -> nat
    decreases bytes.len(),
{
    if bytes.len() == 0 {
        0
    } else {
        256 * be_val(bytes.drop_last()) + bytes.last() as nat
    }
}

/// Peeling one byte off the front of a little-endian group.
pub proof fn lemma_le_val_step(s: Seq<u8>, i: int)
    requires
        0 <= i < s.len(),
    ensures
        le_val(s.skip(i)) == s[i] as nat + 256 * le_val(s.skip(i + 1)),
{
    assert(s.skip(i)[0] == s[i]);
    assert(s.skip(i).skip(1) =~= s.skip(i + 1));
}

/// A trait containing the conversion functions needed to parse perf records.
///
/// The spec function [`convert_ok`](Endian::convert_ok) is the contract: it
/// holds of a byte group and an integer exactly when the strategy may return
/// that integer for those bytes. For [`Little`], [`Big`] and [`Dynamic`] it
/// pins the value; for [`Native`] it only says the value is the little- or
/// the big-endian reading, whichever the host uses.
pub trait Endian: Sized + Copy {
    /// Does `v` decode `bytes` under this byte order?
    spec fn convert_ok(&self, bytes: Seq<u8>, v: nat) -> bool;

    /// Convert a `u16` from the source endian to the native endian.
    fn convert_u16(&self, bytes: [u8; 2]) -> (r: u16)
        ensures
            self.convert_ok(bytes@, r as nat),
    ;

    /// Convert a `u32` from the source endian to the native endian.
    fn convert_u32(&self, bytes: [u8; 4]) -> (r: u32)
        ensures
            self.convert_ok(bytes@, r as nat),
    ;

    /// Convert a `u64` from the source endian to the native endian.
    fn convert_u64(&self, bytes: [u8; 8]) -> (r: u64)
        ensures
            self.convert_ok(bytes@, r as nat),
    ;

    /// Whether the source endian is the same as the current native endian.
    fn is_native(&self) -> bool;
}

/// Relies on `u16::from_ne_bytes`: reports whether the host stores integers
/// least-significant byte first. The result depends only on the machine this
/// process runs on.
#[verifier::external_body]
fn host_is_little_endian() -> bool {
    u16::from_ne_bytes([1, 0]) == 1
}

/// Little endian.
#[derive(Copy, Clone, Debug, Default, PartialEq, Eq, Structural)]
pub struct Little;

/// Big endian.
#[derive(Copy, Clone, Debug, Default, PartialEq, Eq, Structural)]
pub struct Big;

/// Native endian: whatever byte order the host itself uses.
///
/// Data read from the kernel of the running machine is in this order.
#[derive(Copy, Clone, Debug, Default, PartialEq, Eq, Structural)]
pub struct Native;

/// Either big or little endian, chosen at runtime.
#[derive(Copy, Clone, Debug, PartialEq, Eq, Hash, Structural)]
pub enum Dynamic {
    /// Big endian.
    Big,
    /// Little endian.
    Little,
}

impl Endian for Little {
    open spec fn convert_ok(&self, bytes: Seq<u8>, v: nat) -> bool {
        v == le_val(bytes)
    }

    fn convert_u16(&self, bytes: [u8; 2]) -> (r: u16)
        ensures
            r as nat == le_val(bytes@),
    {
        proof {
            lemma_le_val_step(bytes@, 0);
            lemma_le_val_step(bytes@, 1);
            assert(bytes@.skip(2).len() == 0);
        }
        bytes[0] as u16 + bytes[1] as u16 * 0x100
    }

    fn convert_u32(&self, bytes: [u8; 4]) -> (r: u32)
        ensures
            r as nat == le_val(bytes@),
    {
        proof {
            lemma_le_val_step(bytes@, 0);
            lemma_le_val_step(bytes@, 1);
            lemma_le_val_step(bytes@, 2);
            lemma_le_val_step(bytes@, 3);
            assert(bytes@.skip(4).len() == 0);
        }
        bytes[0] as u32 + bytes[1] as u32 * 0x100 + bytes[2] as u32 * 0x10000 + bytes[3] as u32
            * 0x1000000
    }

    fn convert_u64(&self, bytes: [u8; 8]) -> (r: u64)
        ensures
            r as nat == le_val(bytes@),
    {
        proof {
            lemma_le_val_step(bytes@, 0);
            lemma_le_val_step(bytes@, 1);
            lemma_le_val_step(bytes@, 2);
            lemma_le_val_step(bytes@, 3);
            lemma_le_val_step(bytes@, 4);
            lemma_le_val_step(bytes@, 5);
            lemma_le_val_step(bytes@, 6);
            lemma_le_val_step(bytes@, 7);
            assert(bytes@.skip(8).len() == 0);
        }
        bytes[0] as u64 + bytes[1] as u64 * 0x100 + bytes[2] as u64 * 0x10000 + bytes[3] as u64
            * 0x1000000 + bytes[4] as u64 * 0x100000000 + bytes[5] as u64 * 0x10000000000
            + bytes[6] as u64 * 0x1000000000000 + bytes[7] as u64 * 0x100000000000000
    }

    fn is_native(&self) -> bool {
        host_is_little_endian()
    }
}

impl Endian for Big {
    open spec fn convert_ok(&self, bytes: Seq<u8>, v: nat) -> bool {
        v == be_val(bytes)
    }

    fn convert_u16(&self, bytes: [u8; 2]) -> (r: u16)
        ensures
            r as nat == be_val(bytes@),
    {
        proof {
            reveal_with_fuel(be_val, 3);
            assert(bytes@.drop_last().drop_last().len() == 0);
            assert(bytes@.drop_last().last() == bytes@[0]);
        }
        bytes[0] as u16 * 0x100 + bytes[1] as u16
    }

    fn convert_u32(&self, bytes: [u8; 4]) -> (r: u32)
        ensures
            r as nat == be_val(bytes@),
    {
        proof {
            reveal_with_fuel(be_val, 5);
            let s = bytes@;
            assert(s.drop_last().drop_last().drop_last().drop_last().len() == 0);
            assert(s.drop_last().drop_last().drop_last().last() == s[0]);
            assert(s.drop_last().drop_last().last() == s[1]);
            assert(s.drop_last().last() == s[2]);
        }
        bytes[0] as u32 * 0x1000000 + bytes[1] as u32 * 0x10000 + bytes[2] as u32 * 0x100
            + bytes[3] as u32
    }

    fn convert_u64(&self, bytes: [u8; 8]) -> (r: u64)
        ensures
            r as nat == be_val(bytes@),
    {
        proof {
            reveal_with_fuel(be_val, 9);
            let s = bytes@;
            let s7 = s.drop_last();
            let s6 = s7.drop_last();
            let s5 = s6.drop_last();
            let s4 = s5.drop_last();
            let s3 = s4.drop_last();
            let s2 = s3.drop_last();
            let s1 = s2.drop_last();
            assert(s1.drop_last().len() == 0);
            assert(s1.last() == s[0]);
            assert(s2.last() == s[1]);
            assert(s3.last() == s[2]);
            assert(s4.last() == s[3]);
            assert(s5.last() == s[4]);
            assert(s6.last() == s[5]);
            assert(s7.last() == s[6]);
        }
        bytes[0] as u64 * 0x100000000000000 + bytes[1] as u64 * 0x1000000000000 + bytes[2] as u64
            * 0x10000000000 + bytes[3] as u64 * 0x100000000 + bytes[4] as u64 * 0x1000000
            + bytes[5] as u64 * 0x10000 + bytes[6] as u64 * 0x100 + bytes[7] as u64
    }

    fn is_native(&self) -> bool {
        !host_is_little_endian()
    }
}

impl Endian for Native {
    open spec fn convert_ok(&self, bytes: Seq<u8>, v: nat) -> bool {
        v == le_val(bytes) || v == be_val(bytes)
    }

    fn convert_u16(&self, bytes: [u8; 2]) -> (r: u16)
        ensures
            r as nat == le_val(bytes@) || r as nat == be_val(bytes@),
    {
        if host_is_little_endian() {
            Little.convert_u16(bytes)
        } else {
            Big.convert_u16(bytes)
        }
    }

    fn convert_u32(&self, bytes: [u8; 4]) -> (r: u32)
        ensures
            r as nat == le_val(bytes@) || r as nat == be_val(bytes@),
    {
        if host_is_little_endian() {
            Little.convert_u32(bytes)
        } else {
            Big.convert_u32(bytes)
        }
    }

    fn convert_u64(&self, bytes: [u8; 8]) -> (r: u64)
        ensures
            r as nat == le_val(bytes@) || r as nat == be_val(bytes@),
    {
        if host_is_little_endian() {
            Little.convert_u64(bytes)
        } else {
            Big.convert_u64(bytes)
        }
    }

    fn is_native(&self) -> bool {
        true
    }
}

impl Endian for Dynamic {
    open spec fn convert_ok(&self, bytes: Seq<u8>, v: nat) -> bool {
        match self {
            Dynamic::Little => v == le_val(bytes),
            Dynamic::Big => v == be_val(bytes),
        }
    }

    fn convert_u16(&self, bytes: [u8; 2]) -> (r: u16)
        ensures
            self.convert_ok(bytes@, r as nat),
    {
        match self {
            Dynamic::Little => Little.convert_u16(bytes),
            Dynamic::Big => Big.convert_u16(bytes),
        }
    }

    fn convert_u32(&self, bytes: [u8; 4]) -> (r: u32)
        ensures
            self.convert_ok(bytes@, r as nat),
    {
        match self {
            Dynamic::Little => Little.convert_u32(bytes),
            Dynamic::Big => Big.convert_u32(bytes),
        }
    }

    fn convert_u64(&self, bytes: [u8; 8]) -> (r: u64)
        ensures
            self.convert_ok(bytes@, r as nat),
    {
        match self {
            Dynamic::Little => Little.convert_u64(bytes),
            Dynamic::Big => Big.convert_u64(bytes),
        }
    }

    fn is_native(&self) -> bool {
        match self {
            Dynamic::Little => host_is_little_endian(),
            Dynamic::Big => !host_is_little_endian(),
        }
    }
}

} // verus!
