//! An interpreter core for the MOS 6502 (NMOS variant), written against an
//! exact machine model: every instruction handler carries a contract that
//! pins down the registers, the flags, and the bytes on the bus after the
//! call.  The memory map is a collaborator behind the `Bus` trait, and the
//! decode table is a collaborator behind the `Variant` trait, so the same
//! interpreter serves any machine built around this processor.

use vstd::prelude::*;

pub mod cpu;
pub mod instruction;
pub mod laws;
pub mod memory;
pub mod model;
pub mod nmos6502;
pub mod registers;

verus! {

use crate::instruction::AddressingMode;
use crate::instruction::InstructionCode;
use crate::registers::RegisterState;
use crate::registers::initial_registers;

/// The 16-bit-address, 8-bit-value seam between the processor and the rest
/// of the machine.  The processor performs every memory transaction through
/// these two methods and never holds a buffer of its own.
///
/// An implementation exposes its bytes through the `mem` view: `read`
/// returns the byte at `addr`, and `write` replaces it.  The view must hold
/// exactly one byte per address, 0x10000 in all.
pub trait Bus {
    /// The bytes currently visible through this bus, one per address.
    spec fn mem(&self) -> Seq<u8>;

    fn read(&self, addr: u16) -> (r: u8)
        requires
            self.mem().len() == 0x10000,
        ensures
            r == self.mem()[addr as int],
    ;

    fn write(&mut self, addr: u16, value: u8)
        requires
            old(self).mem().len() == 0x10000,
        ensures
            final(self).mem() == old(self).mem().update(addr as int, value),
    ;
}

/// A processor variant: one decode table mapping an opcode byte to an
/// instruction and an addressing mode, or `None` for an illegal byte.
/// The decoder is the only variant-dependent component.
pub trait Variant {
    /// What `decode` returns for each opcode byte.
    spec fn decode_spec(opcode: u8) -> Option<(InstructionCode, AddressingMode)>;

    fn decode(opcode: u8) -> (r: Option<(InstructionCode, AddressingMode)>)
        ensures
            r == Self::decode_spec(opcode),
    ;
}

/// The processor state: the register file, the program counter, and the
/// stack pointer.  Memory belongs to the `Bus` collaborator, which every
/// entry point borrows for the duration of the call.
pub struct Cpu<V> {
    pub reg: RegisterState,
    pub pc: u16,
    pub sp: u8,
    pub _variant: core::marker::PhantomData<V>,
}

impl<V: Variant> Cpu<V> {
    /// A processor in its power-on state: all registers zero, all flags
    /// clear.  Drivers normally call `reset` before stepping.
    pub fn new(_variant: V) -> (r: Self)
        ensures
            r.reg == initial_registers(),
            r.pc == 0,
            r.sp == 0,
    {
        Cpu {
            reg: RegisterState {
                a: 0,
                x: 0,
                y: 0,
                c: false,
                z: false,
                i: false,
                d: false,
                v: false,
                n: false,
            },
            pc: 0,
            sp: 0,
            _variant: core::marker::PhantomData::<V>,
        }
    }
}

} // verus!
