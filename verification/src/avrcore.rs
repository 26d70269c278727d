use vstd::prelude::*;

use crate::instructions::{exec_post, exec_pre, implemented, ExecError, Opcodes};
use std::collections::HashMap;

verus! {

broadcast use vstd::std_specs::hash::group_hash_axioms;

/// Status register: eight independent condition flags.
///
/// None of the implemented instructions update the flags yet, so the
/// fields are carried but never written after construction.
#[allow(non_snake_case)]
#[derive(Debug)]
pub struct SREG {
    I: bool,  // Global Interrupt Enable
    T: bool,  // Bit Copy Storage
    H: bool,  // Half Carry Flag
    S: bool,  // Sign Bit
    V: bool,  // Two's Complement Overflow Flag
    N: bool,  // Negative Flag
    Z: bool,  // Zero Flag
    C: bool,  // Carry Flag
}

impl SREG {
    /// All eight flags are clear.
    pub closed spec fn cleared(self) -> bool {
        !self.I && !self.T && !self.H && !self.S && !self.V && !self.N && !self.Z && !self.C
    }
}

impl Default for SREG {
    fn default() -> (r: Self)
        ensures
            r.cleared(),
    {
        SREG {
            I: false,
            T: false,
            H: false,
            S: false,
            V: false,
            N: false,
            Z: false,
            C: false,
        }
    }
}

/// Stack pointer: a 16-bit data-memory address stored as two 8-bit
/// halves. The stack grows downward and the pointer always references
/// the next free byte.
#[allow(non_snake_case)]
#[derive(Debug)]
pub struct StackPointer {
    pub SPH: u8,
    pub SPL: u8,
}

impl Default for StackPointer {
    fn default() -> (r: Self)
        ensures
            r.SPH == 0 && r.SPL == 0,
    {
        StackPointer { SPH: 0, SPL: 0 }
    }
}

impl StackPointer {
    /// The pointer read as one 16-bit address: high half times 256 plus
    /// low half.
    pub open spec fn addr(self) -> int {
        self.SPH * 256 + self.SPL
    }

    #[allow(non_snake_case)]
    pub fn getCurrentAddr(&self) -> (r: u16)
        ensures
            r == self.addr(),
    {
        (self.SPH as u16) * 256 + (self.SPL as u16)
    }

    /// Moves the pointer down by `n`, treating the two halves as one
    /// 16-bit quantity so the borrow crosses them correctly.
    pub fn decrement(&mut self, n: u16)
        requires
            old(self).addr() >= n,
        ensures
            final(self).addr() == old(self).addr() - n,
    {
        let current_addr: u16 = (self.SPH as u16) * 256 + (self.SPL as u16);
        let new_addr: u16 = current_addr - n;

        self.SPL = (new_addr % 256) as u8;
        self.SPH = (new_addr / 256) as u8;
    }

    /// Moves the pointer up by `n`, treating the two halves as one
    /// 16-bit quantity so the carry crosses them correctly.
    pub fn increment(&mut self, n: u16)
        requires
            old(self).addr() + n <= 0xFFFF,
        ensures
            final(self).addr() == old(self).addr() + n,
    {
        let current_addr: u16 = (self.SPH as u16) * 256 + (self.SPL as u16);
        let new_addr: u16 = current_addr + n;

        self.SPL = (new_addr % 256) as u8;
        self.SPH = (new_addr / 256) as u8;
    }
}

/// The modeled processor: registers, flags, stack pointer, program
/// counter, the four disjoint data regions, and the decoded program.
///
/// The program counter and the keys of `flash` are byte addresses;
/// a one-word instruction advances the counter by two.
pub struct Avrcore {
    // Registers
    pub sreg: SREG,  // Status register
    pub sp: StackPointer,  // Stack Pointer
    pub pc: u16,  // Program counter, in bytes

    // Memories
    pub general: Vec<u8>,  // General purpose register file, 32 bytes
    pub io: Vec<u8>,  // IO registers, 64 bytes
    pub extio: Vec<u8>,  // Extended IO, 160 bytes
    pub sram: Vec<u8>,  // Internal SRAM; size chosen by the caller

    // Storage: byte address of each instruction to the instruction
    pub flash: HashMap<usize, Opcodes>,
}

impl Avrcore {
    /// The four memory regions have their architectural sizes (the SRAM
    /// size is the caller's choice).
    pub open spec fn wf(self) -> bool {
        &&& self.general@.len() == 32
        &&& self.io@.len() == 64
        &&& self.extio@.len() == 160
    }

    /// One fetch/execute step: looks the instruction up at the current
    /// program counter and applies it. A lookup miss is the fatal
    /// unmapped-counter condition and leaves the state untouched; an
    /// unimplemented instruction is fatal too, carrying its rendered
    /// text. The instruction itself advances the counter.
    pub fn execute(&mut self) -> (r: Result<(), ExecError>)
        requires
            old(self).flash@.contains_key(old(self).pc as usize) ==> exec_pre(
                old(self).flash@[old(self).pc as usize],
                *old(self),
            ),
        ensures
            old(self).flash@.contains_key(old(self).pc as usize) ==> {
                let op = old(self).flash@[old(self).pc as usize];
                &&& implemented(op) ==> r is Ok && exec_post(op, *old(self), *final(self))
                &&& !implemented(op) ==> {
                    &&& *final(self) == *old(self)
                    &&& r matches Err(ExecError::Unimplemented(s)) && s@ == op.spec_render()
                }
            },
            !old(self).flash@.contains_key(old(self).pc as usize) ==> {
                &&& *final(self) == *old(self)
                &&& r == Err::<(), ExecError>(ExecError::UnmappedPc(old(self).pc))
            },
            old(self).wf() ==> final(self).wf(),
    {
        let key: usize = self.pc as usize;
        let opcode: Opcodes = match self.flash.get(&key) {
            Some(op) => *op,
            None => {
                return Err(ExecError::UnmappedPc(self.pc));
            },
        };

        opcode.execute(self)
    }
}

} // verus!
