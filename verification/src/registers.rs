//! The register file: A, X, Y and the six status bits, together with the
//! packed status byte that the stack protocol pushes and pops.

use vstd::prelude::*;

verus! {

/// The programmer-visible registers apart from PC and SP.  Each status bit
/// is held as its own boolean; the packed byte exists only at the moments
/// the stack protocol needs it (`get_status` / `set_status`).
#[derive(Debug, Clone, Copy, PartialEq, Eq, Structural)]
pub struct RegisterState {
    pub a: u8,
    pub x: u8,
    pub y: u8,
    pub c: bool,
    pub z: bool,
    pub i: bool,
    pub d: bool,
    pub v: bool,
    pub n: bool,
}

/// The power-on register file: everything zero, every flag clear.
pub open spec fn initial_registers() -> RegisterState {
    RegisterState {
        a: 0,
        x: 0,
        y: 0,
        c: false,
        z: false,
        i: false,
        d: false,
        v: false,
        n: false,
    }
}

/// The register file with Z and N refreshed from `value`: Z exactly when
/// the value is zero, N exactly when bit 7 is set.
pub open spec fn with_nz(r: RegisterState, value: u8) -> RegisterState {
    RegisterState { z: value == 0, n: value >= 0x80, ..r }
}

/// The register file after loading `value` into A (N and Z refreshed).
pub open spec fn with_a(r: RegisterState, value: u8) -> RegisterState {
    RegisterState { a: value, ..with_nz(r, value) }
}

/// The register file after loading `value` into X (N and Z refreshed).
pub open spec fn with_x(r: RegisterState, value: u8) -> RegisterState {
    RegisterState { x: value, ..with_nz(r, value) }
}

/// The register file after loading `value` into Y (N and Z refreshed).
pub open spec fn with_y(r: RegisterState, value: u8) -> RegisterState {
    RegisterState { y: value, ..with_nz(r, value) }
}

/// The packed status byte: bit 0 is C, bit 1 Z, bit 2 I, bit 3 D, bit 4 the
/// `brk` argument, bit 5 always one, bit 6 V, bit 7 N.
pub open spec fn status_byte(r: RegisterState, brk: bool) -> u8 {
    (if r.c { 0x01u8 } else { 0u8 }) | (if r.z { 0x02u8 } else { 0u8 })
        | (if r.i { 0x04u8 } else { 0u8 }) | (if r.d { 0x08u8 } else { 0u8 })
        | (if brk { 0x10u8 } else { 0u8 }) | 0x20u8 | (if r.v { 0x40u8 } else { 0u8 })
        | (if r.n { 0x80u8 } else { 0u8 })
}

/// The register file after loading the packed byte `value`: C, Z, I, D, V
/// and N come from their bits; bits 4 and 5 are discarded; A, X, Y keep
/// their values.
pub open spec fn with_status(r: RegisterState, value: u8) -> RegisterState {
    RegisterState {
        c: value & 0x01 != 0,
        z: value & 0x02 != 0,
        i: value & 0x04 != 0,
        d: value & 0x08 != 0,
        v: value & 0x40 != 0,
        n: value & 0x80 != 0,
        ..r
    }
}

impl RegisterState {
    pub fn update_a(&mut self, value: u8)
        ensures
            *final(self) == with_a(*old(self), value),
    {
        self.a = value;
        self.update_nz_flags(value);
    }

    pub fn update_x(&mut self, value: u8)
        ensures
            *final(self) == with_x(*old(self), value),
    {
        self.x = value;
        self.update_nz_flags(value);
    }

    pub fn update_y(&mut self, value: u8)
        ensures
            *final(self) == with_y(*old(self), value),
    {
        self.y = value;
        self.update_nz_flags(value);
    }

    pub fn get_a(&self) -> (r: u8)
        ensures
            r == self.a,
    {
        self.a
    }

    pub fn get_x(&self) -> (r: u8)
        ensures
            r == self.x,
    {
        self.x
    }

    pub fn get_y(&self) -> (r: u8)
        ensures
            r == self.y,
    {
        self.y
    }

    pub fn update_nz_flags(&mut self, value: u8)
        ensures
            *final(self) == with_nz(*old(self), value),
    {
        self.n = value >= 0x80;
        self.z = value == 0;
    }

    /// The packed status byte with the B bit set to `brk`.  Bit 5 of the
    /// result is always one and bit 4 equals `brk`.
    pub fn get_status(&self, brk: bool) -> (r: u8)
        ensures
            r == status_byte(*self, brk),
            r & 0x20 != 0,
            (r & 0x10 != 0) == brk,
    {
        let r: u8 = (if self.c { 0x01u8 } else { 0u8 }) | (if self.z { 0x02u8 } else { 0u8 })
            | (if self.i { 0x04u8 } else { 0u8 }) | (if self.d { 0x08u8 } else { 0u8 })
            | (if brk { 0x10u8 } else { 0u8 }) | 0x20u8 | (if self.v { 0x40u8 } else { 0u8 })
            | (if self.n { 0x80u8 } else { 0u8 });
        proof {
            lemma_status_byte_bits(*self, brk);
        }
        r
    }

    /// Loads the packed byte `value` into C, Z, I, D, V and N.  Bits 4 and
    /// 5 of `value` carry no state and are discarded.
    pub fn set_status(&mut self, value: u8)
        ensures
            *final(self) == with_status(*old(self), value),
    {
        self.c = value & 0x01 != 0;
        self.z = value & 0x02 != 0;
        self.i = value & 0x04 != 0;
        self.d = value & 0x08 != 0;
        self.v = value & 0x40 != 0;
        self.n = value & 0x80 != 0;
    }
}

proof fn lemma_status_bits_u8(cb: u8, zb: u8, ib: u8, db: u8, bb: u8, vb: u8, nb: u8)
    by (bit_vector)
    requires
        cb == 0 || cb == 0x01,
        zb == 0 || zb == 0x02,
        ib == 0 || ib == 0x04,
        db == 0 || db == 0x08,
        bb == 0 || bb == 0x10,
        vb == 0 || vb == 0x40,
        nb == 0 || nb == 0x80,
    ensures
        (cb | zb | ib | db | bb | 0x20u8 | vb | nb) & 0x01 == cb,
        (cb | zb | ib | db | bb | 0x20u8 | vb | nb) & 0x02 == zb,
        (cb | zb | ib | db | bb | 0x20u8 | vb | nb) & 0x04 == ib,
        (cb | zb | ib | db | bb | 0x20u8 | vb | nb) & 0x08 == db,
        (cb | zb | ib | db | bb | 0x20u8 | vb | nb) & 0x10 == bb,
        (cb | zb | ib | db | bb | 0x20u8 | vb | nb) & 0x20 == 0x20u8,
        (cb | zb | ib | db | bb | 0x20u8 | vb | nb) & 0x40 == vb,
        (cb | zb | ib | db | bb | 0x20u8 | vb | nb) & 0x80 == nb,
{
}

/// Each bit of the packed status byte reads back the flag that produced it;
/// bit 5 is always one and bit 4 equals the `brk` argument.
pub proof fn lemma_status_byte_bits(r: RegisterState, brk: bool)
    ensures
        ((status_byte(r, brk) & 0x01) != 0) == r.c,
        ((status_byte(r, brk) & 0x02) != 0) == r.z,
        ((status_byte(r, brk) & 0x04) != 0) == r.i,
        ((status_byte(r, brk) & 0x08) != 0) == r.d,
        ((status_byte(r, brk) & 0x10) != 0) == brk,
        (status_byte(r, brk) & 0x20) != 0,
        ((status_byte(r, brk) & 0x40) != 0) == r.v,
        ((status_byte(r, brk) & 0x80) != 0) == r.n,
{
    let cb: u8 = if r.c { 0x01 } else { 0 };
    let zb: u8 = if r.z { 0x02 } else { 0 };
    let ib: u8 = if r.i { 0x04 } else { 0 };
    let db: u8 = if r.d { 0x08 } else { 0 };
    let bb: u8 = if brk { 0x10 } else { 0 };
    let vb: u8 = if r.v { 0x40 } else { 0 };
    let nb: u8 = if r.n { 0x80 } else { 0 };
    lemma_status_bits_u8(cb, zb, ib, db, bb, vb, nb);
    assert(status_byte(r, brk) == (cb | zb | ib | db | bb | 0x20u8 | vb | nb));
}

/// Packing the status byte with any B bit and loading it back leaves the
/// register file unchanged: C, Z, I, D, V and N all survive the round trip,
/// and A, X, Y are untouched.
pub proof fn lemma_status_round_trip(r: RegisterState, brk: bool)
    ensures
        with_status(r, status_byte(r, brk)) == r,
{
    lemma_status_byte_bits(r, brk);
}

/// Loading a packed status byte ignores bits 4 and 5: two bytes that agree
/// everywhere else load the same flags.
pub proof fn lemma_status_ignores_break_bits(r: RegisterState, first: u8, second: u8)
    requires
        first & 0xCF == second & 0xCF,
    ensures
        with_status(r, first) == with_status(r, second),
{
    assert((first & 0xCF == second & 0xCF) ==> ((first & 0x01 != 0) == (second & 0x01 != 0)
        && (first & 0x02 != 0) == (second & 0x02 != 0) && (first & 0x04 != 0) == (second & 0x04
        != 0) && (first & 0x08 != 0) == (second & 0x08 != 0) && (first & 0x40 != 0) == (second
        & 0x40 != 0) && (first & 0x80 != 0) == (second & 0x80 != 0))) by (bit_vector);
}

} // verus!
