//! Laws the interpreter obeys, stated over the machine model and proved
//! once and for all: flag discipline, the two faces of the overflow bit,
//! rotate and stack round trips, and the subroutine and interrupt
//! protocols.

use vstd::prelude::*;

verus! {

use crate::model::IRQ_BRK_VECTOR;
use crate::model::Machine;
use crate::model::adc_overflow;
use crate::model::adc_value;
use crate::model::byte_at;
use crate::model::cmp_regs;
use crate::model::hi_byte;
use crate::model::interrupt_sequence;
use crate::model::irq_state;
use crate::model::lo_byte;
use crate::model::machine_step;
use crate::model::op_pha;
use crate::model::op_php;
use crate::model::op_pla;
use crate::model::op_plp;
use crate::model::op_rti;
use crate::model::popped;
use crate::model::pushed;
use crate::model::rol_value;
use crate::model::ror_value;
use crate::model::stack_location;
use crate::model::step_enabled;
use crate::model::word;
use crate::nmos6502::Nmos6502;
use crate::nmos6502::nmos_decode;
use crate::Variant;
use crate::registers::RegisterState;
use crate::registers::lemma_status_round_trip;
use crate::registers::with_nz;

/// Composing a word from its own bytes gives the word back.
pub proof fn lemma_word_round_trip(w: u16)
    ensures
        word(hi_byte(w), lo_byte(w)) == w,
{
    assert((((w >> 8) as u8 as u16) << 8) | ((w & 0xFF) as u8 as u16) == w) by (bit_vector);
}

/// Distinct stack pointers name distinct stack cells.
pub proof fn lemma_stack_location_distinct(a: u8, b: u8)
    requires
        a != b,
    ensures
        stack_location(a) != stack_location(b),
{
    assert(a != b ==> ((0x01u8 as u16) << 8) | (a as u16) != ((0x01u8 as u16) << 8) | (
    b as u16)) by (bit_vector);
}

/// Register, PC and SP arithmetic all wrap: an 8-bit sum or difference is
/// taken modulo 256, a 16-bit one modulo 65536.
pub proof fn lemma_wrapping_is_mod(x: u8, y: u8, p: u16, q: u16)
    ensures
        x.wrapping_add(y) as int == (x + y) % 256,
        x.wrapping_sub(y) as int == (x - y) % 256,
        p.wrapping_add(q) as int == (p + q) % 0x10000,
        p.wrapping_sub(q) as int == (p - q) % 0x10000,
{
}

/// Refreshing N and Z from a result `value` sets Z exactly when the value
/// is zero and N exactly when bit 7 is set, and touches nothing else.
pub proof fn lemma_nz_flags(r: RegisterState, value: u8)
    ensures
        with_nz(r, value).z == (value == 0),
        with_nz(r, value).n == (value >= 0x80),
        with_nz(r, value) == (RegisterState {
            z: value == 0,
            n: value >= 0x80,
            ..r
        }),
{
}

/// A compare sets C exactly when the register is at least the operand as
/// unsigned, Z exactly when they are equal, and leaves A, X, Y alone.
pub proof fn lemma_compare_flags(r: RegisterState, rv: u8, mv: u8)
    ensures
        cmp_regs(r, rv, mv).c == (rv >= mv),
        cmp_regs(r, rv, mv).z == (rv == mv),
        cmp_regs(r, rv, mv).a == r.a,
        cmp_regs(r, rv, mv).x == r.x,
        cmp_regs(r, rv, mv).y == r.y,
{
}

/// The two definitions of the overflow bit agree for every addition: the
/// carry out of bit 6 differs from the carry out of bit 7 exactly when
/// `(A ^ R) & (M ^ R)` has bit 7 set, where R is the 8-bit result.
pub proof fn lemma_adc_overflow_definitions(a: u8, mv: u8, c: bool)
    ensures
        ({
            let r = adc_value(a, mv, c);
            adc_overflow(a, mv, c) == (((a ^ r) & (mv ^ r) & 0x80) != 0)
        }),
{
    let cb: u8 = if c {
        1
    } else {
        0
    };
    let r = adc_value(a, mv, c);
    assert(r == ((a + mv + cb) % 256) as u8);
    assert((((a & 0x7F) + (mv & 0x7F) + cb > 0x7F) != (a + mv + cb > 0xFF)) == (((a ^ (((a
        + mv + cb) % 256) as u8)) & (mv ^ (((a + mv + cb) % 256) as u8)) & 0x80) != 0))
        by (bit_vector)
        requires
            cb == 0 || cb == 1,
    ;
}

/// Rotating a byte left through the carry and then right through the
/// carry that came out restores both the byte and the carry.
pub proof fn lemma_rol_ror_round_trip(v: u8, c: bool)
    ensures
        ror_value(rol_value(v, c), v & 0x80 != 0) == v,
        (rol_value(v, c) & 0x01 != 0) == c,
{
    let cb: u8 = if c {
        1u8
    } else {
        0u8
    };
    assert(((((v << 1) | cb) >> 1) | (if (v & 0x80 != 0) {
        0x80u8
    } else {
        0u8
    }) == v && (((v << 1) | cb) & 0x01 != 0) == (cb == 1)) || cb > 1) by (bit_vector);
}

/// Rotating right and then left restores both the byte and the carry.
pub proof fn lemma_ror_rol_round_trip(v: u8, c: bool)
    ensures
        rol_value(ror_value(v, c), v & 0x01 != 0) == v,
        (ror_value(v, c) & 0x80 != 0) == c,
{
    let cb: u8 = if c {
        0x80u8
    } else {
        0u8
    };
    assert(((((v >> 1) | cb) << 1) | (if (v & 0x01 != 0) {
        1u8
    } else {
        0u8
    }) == v && (((v >> 1) | cb) & 0x80 != 0) == (cb == 0x80)) || (cb != 0 && cb != 0x80))
        by (bit_vector);
}

/// Popping right after a push yields the pushed byte and restores SP:
/// every balanced sequence of pushes and pops unwinds through this law.
pub proof fn lemma_push_pop(m: Machine, value: u8)
    requires
        m.wf(),
    ensures
        popped(pushed(m, value)).1 == value,
        popped(pushed(m, value)).0.sp == m.sp,
        popped(pushed(m, value)).0.regs == m.regs,
        popped(pushed(m, value)).0.pc == m.pc,
{
}

/// Pushing A and popping it back restores A and SP (and PC); only the
/// stack cell and the N and Z flags can differ.
pub proof fn lemma_pha_pla_round_trip(m: Machine)
    requires
        m.wf(),
    ensures
        op_pla(op_pha(m)).regs.a == m.regs.a,
        op_pla(op_pha(m)).sp == m.sp,
        op_pla(op_pha(m)).pc == m.pc,
{
}

/// Pushing the status byte and popping it back restores every flag, A, X,
/// Y, SP and PC; only the stack cell can differ.
pub proof fn lemma_php_plp_round_trip(m: Machine)
    requires
        m.wf(),
    ensures
        op_plp(op_php(m)).regs == m.regs,
        op_plp(op_php(m)).sp == m.sp,
        op_plp(op_php(m)).pc == m.pc,
{
    lemma_status_round_trip(m.regs, true);
}

/// RTI undoes a matching interrupt entry: popping the status and the
/// return address that the interrupt sequence pushed restores the
/// registers, PC and SP exactly as they were.
pub proof fn lemma_interrupt_rti(m: Machine, vector: u8, brk: bool)
    requires
        m.wf(),
    ensures
        op_rti(interrupt_sequence(m, vector, brk)).pc == m.pc,
        op_rti(interrupt_sequence(m, vector, brk)).regs == m.regs,
        op_rti(interrupt_sequence(m, vector, brk)).sp == m.sp,
{
    lemma_stack_location_distinct(m.sp, m.sp.wrapping_sub(1));
    lemma_stack_location_distinct(m.sp, m.sp.wrapping_sub(2));
    lemma_stack_location_distinct(m.sp.wrapping_sub(1), m.sp.wrapping_sub(2));
    lemma_status_round_trip(m.regs, brk);
    lemma_word_round_trip(m.pc);
}

/// A maskable interrupt is ignored exactly when I is set.
pub proof fn lemma_irq_masked(m: Machine)
    ensures
        m.regs.i ==> irq_state(m) == m,
        !m.regs.i ==> irq_state(m) == interrupt_sequence(m, IRQ_BRK_VECTOR, false),
{
}

/// A subroutine call returns: stepping a JSR to `target` and then the RTS
/// found there leaves PC three past the call instruction and SP exactly
/// where it was.  The two stack cells the call wrote must not hold the RTS
/// opcode itself.
pub proof fn lemma_jsr_rts(m: Machine, target: u16)
    requires
        m.wf(),
        byte_at(m, m.pc) == 0x20,
        byte_at(m, m.pc.wrapping_add(1)) == lo_byte(target),
        byte_at(m, m.pc.wrapping_add(2)) == hi_byte(target),
        byte_at(m, target) == 0x60,
        target != stack_location(m.sp),
        target != stack_location(m.sp.wrapping_sub(1)),
    ensures
        machine_step::<Nmos6502>(machine_step::<Nmos6502>(m)).pc == m.pc.wrapping_add(3),
        machine_step::<Nmos6502>(machine_step::<Nmos6502>(m)).sp == m.sp,
{
    lemma_word_round_trip(target);
    let ret = m.pc.wrapping_add(3).wrapping_sub(1);
    lemma_word_round_trip(ret);
    lemma_stack_location_distinct(m.sp, m.sp.wrapping_sub(1));
    assert(m.pc.wrapping_add(1).wrapping_add(1).wrapping_add(1) == m.pc.wrapping_add(3));
    assert(ret.wrapping_add(1) == m.pc.wrapping_add(3));
    assert(m.sp.wrapping_sub(1).wrapping_sub(1).wrapping_add(1) == m.sp.wrapping_sub(1));
    assert(m.sp.wrapping_sub(1).wrapping_add(1) == m.sp);
}

/// A step never grows or shrinks memory: a well-formed machine steps to a
/// well-formed machine, whatever the variant decodes.
pub proof fn lemma_step_preserves_wf<V: Variant>(m: Machine)
    requires
        m.wf(),
    ensures
        machine_step::<V>(m).wf(),
{
}

/// Every opcode the NMOS table decodes leads to a pairing the executor
/// implements: a step is possible whenever decoding succeeds.
#[verifier::rlimit(60)]
pub proof fn lemma_nmos_decode_supported(m: Machine)
    requires
        nmos_decode(byte_at(m, m.pc)) is Some,
    ensures
        step_enabled::<Nmos6502>(m),
{
}

} // verus!
