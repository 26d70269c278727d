use vstd::prelude::*;
use vstd::string::StringExecFns;

use crate::avrcore::Avrcore;
use crate::render::{dec_str_i16, dec_str_u16, hex_str_u32, spec_dec, spec_dec_signed, spec_hex};

verus! {

/// A fatal condition raised by one execution step. The run aborts on
/// it; nothing is recovered.
#[derive(Debug, PartialEq)]
pub enum ExecError {
    /// The program counter does not map to a decoded instruction.
    UnmappedPc(u16),
    /// The instruction decodes and renders, but has no execution
    /// semantics yet; the rendered text is carried for diagnostics.
    Unimplemented(String),
}

/// The closed set of decoded instructions, each variant carrying the
/// operand fields its encoding defines.
#[derive(Debug, Copy, Clone, PartialEq, Eq, Structural)]
#[allow(non_camel_case_types)]
pub enum Opcodes {
    JMP(JMPInstruction),
    EOR(EORInstruction),
    OUT(OUTInstruction),
    LDI(LDIInstruction),
    CALL(CALLInstruction),
    PUSH(PUSHInstruction),
    RCALL(RCALLInstruction),
    IN(INInstruction),
    STDy(STDyInstruction),
    LDDy(LDDyInstruction),
    ADD(ADDInstruction),
    ADC(ADCInstruction),
    POP(POPInstruction),
    RET(RETInstruction),
    CLI(CLIInstruction),
    RJMP(RJMPInstruction),
}

//---------------------
/// Absolute jump; the target is a byte address, truncated to the
/// 16-bit program counter.
#[derive(Debug, Copy, Clone, PartialEq, Eq, Structural)]
pub struct JMPInstruction {
    pub address: u16,
}

impl JMPInstruction {
    pub open spec fn spec_render(self) -> Seq<char> {
        "JMP 0x"@ + spec_hex(self.address as nat)
    }

    pub fn pretty_print(&self) -> (s: String)
        ensures
            s@ == self.spec_render(),
    {
        "JMP 0x".to_owned().concat(hex_str_u32(self.address as u32).as_str())
    }

    /// Sets the program counter to the target; nothing else changes.
    pub fn execute(&self, core: &mut Avrcore)
        ensures
            final(core).pc == self.address,
            final(core).sreg == old(core).sreg,
            final(core).sp == old(core).sp,
            final(core).general == old(core).general,
            final(core).io == old(core).io,
            final(core).extio == old(core).extio,
            final(core).sram == old(core).sram,
            final(core).flash == old(core).flash,
    {
        core.pc = self.address;
    }
}

//---------------------
/// Exclusive or of two general registers, into the destination.
#[derive(Debug, Copy, Clone, PartialEq, Eq, Structural)]
pub struct EORInstruction {
    pub rd: u8,
    pub rr: u8,
}

impl EORInstruction {
    pub open spec fn spec_render(self) -> Seq<char> {
        "EOR r"@ + spec_dec(self.rd as nat) + ", r"@ + spec_dec(self.rr as nat)
    }

    pub fn pretty_print(&self) -> (s: String)
        ensures
            s@ == self.spec_render(),
    {
        "EOR r".to_owned().concat(dec_str_u16(self.rd as u16).as_str()).concat(", r").concat(
            dec_str_u16(self.rr as u16).as_str(),
        )
    }

    /// Destination register becomes destination xor source; the counter
    /// advances by one instruction width (two bytes).
    pub fn execute(&self, core: &mut Avrcore)
        requires
            old(core).wf(),
            self.rd < 32,
            self.rr < 32,
            old(core).pc + 2 <= 0xFFFF,
        ensures
            final(core).general@ == old(core).general@.update(
                self.rd as int,
                old(core).general@[self.rd as int] ^ old(core).general@[self.rr as int],
            ),
            final(core).pc == old(core).pc + 2,
            final(core).sreg == old(core).sreg,
            final(core).sp == old(core).sp,
            final(core).io == old(core).io,
            final(core).extio == old(core).extio,
            final(core).sram == old(core).sram,
            final(core).flash == old(core).flash,
            final(core).wf(),
    {
        core.general[self.rd as usize] = core.general[self.rd as usize] ^ core.general[self.rr
            as usize];

        core.pc = core.pc + 2;
    }
}

//---------------------
/// Store a general register to the I/O space.
#[derive(Debug, Copy, Clone, PartialEq, Eq, Structural)]
pub struct OUTInstruction {
    pub rr: u8,
    pub a: u8,
}

impl OUTInstruction {
    pub open spec fn spec_render(self) -> Seq<char> {
        "OUT 0x"@ + spec_hex(self.a as nat) + ", R"@ + spec_dec(self.rr as nat)
    }

    pub fn pretty_print(&self) -> (s: String)
        ensures
            s@ == self.spec_render(),
    {
        "OUT 0x".to_owned().concat(hex_str_u32(self.a as u32).as_str()).concat(", R").concat(
            dec_str_u16(self.rr as u16).as_str(),
        )
    }

    /// The I/O byte at the decoded address becomes the source register;
    /// the counter advances by one instruction width.
    pub fn execute(&self, core: &mut Avrcore)
        requires
            old(core).wf(),
            self.rr < 32,
            self.a < 64,
            old(core).pc + 2 <= 0xFFFF,
        ensures
            final(core).io@ == old(core).io@.update(
                self.a as int,
                old(core).general@[self.rr as int],
            ),
            final(core).pc == old(core).pc + 2,
            final(core).sreg == old(core).sreg,
            final(core).sp == old(core).sp,
            final(core).general == old(core).general,
            final(core).extio == old(core).extio,
            final(core).sram == old(core).sram,
            final(core).flash == old(core).flash,
            final(core).wf(),
    {
        core.io[self.a as usize] = core.general[self.rr as usize];

        core.pc = core.pc + 2;
    }
}

//---------------------
/// Load an 8-bit immediate into a register of the upper half of the
/// register file.
#[derive(Debug, Copy, Clone, PartialEq, Eq, Structural)]
pub struct LDIInstruction {
    pub rd: u8,
    pub k: u8,
}

impl LDIInstruction {
    pub open spec fn spec_render(self) -> Seq<char> {
        "LDI R"@ + spec_dec(self.rd as nat) + ", 0x"@ + spec_hex(self.k as nat)
    }

    pub fn pretty_print(&self) -> (s: String)
        ensures
            s@ == self.spec_render(),
    {
        "LDI R".to_owned().concat(dec_str_u16(self.rd as u16).as_str()).concat(", 0x").concat(
            hex_str_u32(self.k as u32).as_str(),
        )
    }

    /// The destination register becomes the immediate; the counter
    /// advances by one instruction width.
    pub fn execute(&self, core: &mut Avrcore)
        requires
            old(core).wf(),
            self.rd < 32,
            old(core).pc + 2 <= 0xFFFF,
        ensures
            final(core).general@ == old(core).general@.update(self.rd as int, self.k),
            final(core).pc == old(core).pc + 2,
            final(core).sreg == old(core).sreg,
            final(core).sp == old(core).sp,
            final(core).io == old(core).io,
            final(core).extio == old(core).extio,
            final(core).sram == old(core).sram,
            final(core).flash == old(core).flash,
            final(core).wf(),
    {
        core.general[self.rd as usize] = self.k;

        core.pc = core.pc + 2;
    }
}

//---------------------
/// Absolute call; the target is a byte address. The return address is
/// the byte address of the next instruction (two words on).
#[derive(Debug, Copy, Clone, PartialEq, Eq, Structural)]
pub struct CALLInstruction {
    pub k: u32,
}

impl CALLInstruction {
    pub open spec fn spec_render(self) -> Seq<char> {
        "CALL 0x"@ + spec_hex(self.k as nat)
    }

    pub fn pretty_print(&self) -> (s: String)
        ensures
            s@ == self.spec_render(),
    {
        "CALL 0x".to_owned().concat(hex_str_u32(self.k).as_str())
    }

    /// Pushes the return address onto the data-memory stack, low byte
    /// first at the current pointer, then the high byte one below;
    /// the pointer ends two lower. The counter becomes the target,
    /// truncated to its 16 bits.
    pub fn execute(&self, core: &mut Avrcore)
        requires
            old(core).wf(),
            old(core).pc + 4 <= 0xFFFF,
            2 <= old(core).sp.addr(),
            old(core).sp.addr() < old(core).sram@.len(),
        ensures
            final(core).sram@ == old(core).sram@.update(
                old(core).sp.addr(),
                ((old(core).pc + 4) % 256) as u8,
            ).update(old(core).sp.addr() - 1, ((old(core).pc + 4) / 256) as u8),
            final(core).sp.addr() == old(core).sp.addr() - 2,
            final(core).pc == self.k as u16,
            final(core).sreg == old(core).sreg,
            final(core).general == old(core).general,
            final(core).io == old(core).io,
            final(core).extio == old(core).extio,
            final(core).flash == old(core).flash,
            final(core).wf(),
    {
        // Return address, split into two bytes.
        let pc: u16 = core.pc + 4;
        let lower_byte: u8 = (pc % 256) as u8;
        let upper_byte: u8 = (pc / 256) as u8;

        let addr_low: u16 = core.sp.getCurrentAddr();
        core.sram[addr_low as usize] = lower_byte;
        core.sp.decrement(1);
        let addr_high: u16 = core.sp.getCurrentAddr();
        core.sram[addr_high as usize] = upper_byte;
        core.sp.decrement(1);

        proof {
            let k = self.k;
            assert(k % 0x10000 == k as u16) by (bit_vector);
        }
        core.pc = (self.k % 0x10000) as u16;
    }
}

//---------------------
/// Push a register onto the stack (decoded and rendered; execution is
/// not implemented yet).
#[derive(Debug, Copy, Clone, PartialEq, Eq, Structural)]
pub struct PUSHInstruction {
    pub rr: u8,
}

impl PUSHInstruction {
    pub open spec fn spec_render(self) -> Seq<char> {
        "PUSH R"@ + spec_dec(self.rr as nat)
    }

    pub fn pretty_print(&self) -> (s: String)
        ensures
            s@ == self.spec_render(),
    {
        "PUSH R".to_owned().concat(dec_str_u16(self.rr as u16).as_str())
    }
}

//---------------------
/// Relative call; the displacement is in bytes, sign-extended and
/// already doubled from the word-granular field (decoded and rendered;
/// execution is not implemented yet).
#[derive(Debug, Copy, Clone, PartialEq, Eq, Structural)]
pub struct RCALLInstruction {
    pub k: i16,
}

impl RCALLInstruction {
    pub open spec fn spec_render(self) -> Seq<char> {
        "RCALL "@ + spec_dec_signed(self.k as int)
    }

    pub fn pretty_print(&self) -> (s: String)
        ensures
            s@ == self.spec_render(),
    {
        "RCALL ".to_owned().concat(dec_str_i16(self.k).as_str())
    }
}

//---------------------
/// Load a register from the I/O space (decoded and rendered; execution
/// is not implemented yet).
#[derive(Debug, Copy, Clone, PartialEq, Eq, Structural)]
pub struct INInstruction {
    pub rd: u8,
    pub a: u8,
}

impl INInstruction {
    pub open spec fn spec_render(self) -> Seq<char> {
        "IN R"@ + spec_dec(self.rd as nat) + ", "@ + spec_dec(self.a as nat)
    }

    pub fn pretty_print(&self) -> (s: String)
        ensures
            s@ == self.spec_render(),
    {
        "IN R".to_owned().concat(dec_str_u16(self.rd as u16).as_str()).concat(", ").concat(
            dec_str_u16(self.a as u16).as_str(),
        )
    }
}

//--------------------
/// Store a register at a displacement off the Y pointer (decoded and
/// rendered; execution is not implemented yet).
#[derive(Debug, Copy, Clone, PartialEq, Eq, Structural)]
pub struct STDyInstruction {
    pub rr: u8,
    pub q: u8,
}

impl STDyInstruction {
    pub open spec fn spec_render(self) -> Seq<char> {
        "STD Y+"@ + spec_dec(self.q as nat) + ", r"@ + spec_dec(self.rr as nat)
    }

    pub fn pretty_print(&self) -> (s: String)
        ensures
            s@ == self.spec_render(),
    {
        "STD Y+".to_owned().concat(dec_str_u16(self.q as u16).as_str()).concat(", r").concat(
            dec_str_u16(self.rr as u16).as_str(),
        )
    }
}

//-------------------
/// Load a register from a displacement off the Y pointer (decoded and
/// rendered; execution is not implemented yet).
#[derive(Debug, Copy, Clone, PartialEq, Eq, Structural)]
pub struct LDDyInstruction {
    pub rd: u8,
    pub q: u8,
}

impl LDDyInstruction {
    pub open spec fn spec_render(self) -> Seq<char> {
        "LDD R"@ + spec_dec(self.rd as nat) + ", Y+"@ + spec_dec(self.q as nat)
    }

    pub fn pretty_print(&self) -> (s: String)
        ensures
            s@ == self.spec_render(),
    {
        "LDD R".to_owned().concat(dec_str_u16(self.rd as u16).as_str()).concat(", Y+").concat(
            dec_str_u16(self.q as u16).as_str(),
        )
    }
}

//------------------
/// Add two registers (decoded and rendered; execution is not
/// implemented yet).
#[derive(Debug, Copy, Clone, PartialEq, Eq, Structural)]
pub struct ADDInstruction {
    pub rd: u8,
    pub rr: u8,
}

impl ADDInstruction {
    pub open spec fn spec_render(self) -> Seq<char> {
        "ADD R"@ + spec_dec(self.rd as nat) + ", R"@ + spec_dec(self.rr as nat)
    }

    pub fn pretty_print(&self) -> (s: String)
        ensures
            s@ == self.spec_render(),
    {
        "ADD R".to_owned().concat(dec_str_u16(self.rd as u16).as_str()).concat(", R").concat(
            dec_str_u16(self.rr as u16).as_str(),
        )
    }
}

//------------------
/// Add two registers with carry (decoded and rendered; execution is
/// not implemented yet).
#[derive(Debug, Copy, Clone, PartialEq, Eq, Structural)]
pub struct ADCInstruction {
    pub rd: u8,
    pub rr: u8,
}

impl ADCInstruction {
    pub open spec fn spec_render(self) -> Seq<char> {
        "ADC R"@ + spec_dec(self.rd as nat) + ", R"@ + spec_dec(self.rr as nat)
    }

    pub fn pretty_print(&self) -> (s: String)
        ensures
            s@ == self.spec_render(),
    {
        "ADC R".to_owned().concat(dec_str_u16(self.rd as u16).as_str()).concat(", R").concat(
            dec_str_u16(self.rr as u16).as_str(),
        )
    }
}

//------------------
/// Pop the stack into a register (decoded and rendered; execution is
/// not implemented yet).
#[derive(Debug, Copy, Clone, PartialEq, Eq, Structural)]
pub struct POPInstruction {
    pub rd: u8,
}

impl POPInstruction {
    pub open spec fn spec_render(self) -> Seq<char> {
        "POP R"@ + spec_dec(self.rd as nat)
    }

    pub fn pretty_print(&self) -> (s: String)
        ensures
            s@ == self.spec_render(),
    {
        "POP R".to_owned().concat(dec_str_u16(self.rd as u16).as_str())
    }
}

//------------------
/// Return from a call (decoded and rendered; execution is not
/// implemented yet).
#[derive(Debug, Copy, Clone, PartialEq, Eq, Structural)]
pub struct RETInstruction {
}

impl RETInstruction {
    pub open spec fn spec_render(self) -> Seq<char> {
        "RET"@
    }

    pub fn pretty_print(&self) -> (s: String)
        ensures
            s@ == self.spec_render(),
    {
        "RET".to_owned()
    }
}

//------------------
/// Clear the global interrupt flag (decoded and rendered; execution is
/// not implemented yet).
#[derive(Debug, Copy, Clone, PartialEq, Eq, Structural)]
pub struct CLIInstruction {
}

impl CLIInstruction {
    pub open spec fn spec_render(self) -> Seq<char> {
        "CLI"@
    }

    pub fn pretty_print(&self) -> (s: String)
        ensures
            s@ == self.spec_render(),
    {
        "CLI".to_owned()
    }
}

//------------------
/// Relative jump; the displacement is in bytes, already doubled from
/// the word-granular field (decoded and rendered; execution is not
/// implemented yet).
#[derive(Debug, Copy, Clone, PartialEq, Eq, Structural)]
pub struct RJMPInstruction {
    pub k: i16,
}

impl RJMPInstruction {
    pub open spec fn spec_render(self) -> Seq<char> {
        "RJMP "@ + spec_dec_signed(self.k as int)
    }

    pub fn pretty_print(&self) -> (s: String)
        ensures
            s@ == self.spec_render(),
    {
        "RJMP ".to_owned().concat(dec_str_i16(self.k).as_str())
    }
}

/// Whether the instruction has execution semantics. The others decode
/// and render, and executing them is a fatal condition by design.
pub open spec fn implemented(op: Opcodes) -> bool {
    match op {
        Opcodes::JMP(_) => true,
        Opcodes::EOR(_) => true,
        Opcodes::OUT(_) => true,
        Opcodes::LDI(_) => true,
        Opcodes::CALL(_) => true,
        _ => false,
    }
}

/// What one execution step needs of the state it runs against: operand
/// fields within their regions, room for the counter to advance, and,
/// for a call, a stack pointer with two free bytes inside data memory.
pub open spec fn exec_pre(op: Opcodes, pre: Avrcore) -> bool {
    match op {
        Opcodes::JMP(_) => true,
        Opcodes::EOR(i) => pre.wf() && i.rd < 32 && i.rr < 32 && pre.pc + 2 <= 0xFFFF,
        Opcodes::OUT(i) => pre.wf() && i.rr < 32 && i.a < 64 && pre.pc + 2 <= 0xFFFF,
        Opcodes::LDI(i) => pre.wf() && i.rd < 32 && pre.pc + 2 <= 0xFFFF,
        Opcodes::CALL(_) => pre.wf() && pre.pc + 4 <= 0xFFFF && 2 <= pre.sp.addr()
            && pre.sp.addr() < pre.sram@.len(),
        _ => true,
    }
}

/// The exact state change of one implemented instruction: what the
/// per-instruction `execute` contracts promise, gathered in one place.
pub open spec fn exec_post(op: Opcodes, pre: Avrcore, post: Avrcore) -> bool {
    match op {
        Opcodes::JMP(i) => {
            &&& post.pc == i.address
            &&& post.sreg == pre.sreg
            &&& post.sp == pre.sp
            &&& post.general == pre.general
            &&& post.io == pre.io
            &&& post.extio == pre.extio
            &&& post.sram == pre.sram
            &&& post.flash == pre.flash
        },
        Opcodes::EOR(i) => {
            &&& post.general@ == pre.general@.update(
                i.rd as int,
                pre.general@[i.rd as int] ^ pre.general@[i.rr as int],
            )
            &&& post.pc == pre.pc + 2
            &&& post.sreg == pre.sreg
            &&& post.sp == pre.sp
            &&& post.io == pre.io
            &&& post.extio == pre.extio
            &&& post.sram == pre.sram
            &&& post.flash == pre.flash
        },
        Opcodes::OUT(i) => {
            &&& post.io@ == pre.io@.update(i.a as int, pre.general@[i.rr as int])
            &&& post.pc == pre.pc + 2
            &&& post.sreg == pre.sreg
            &&& post.sp == pre.sp
            &&& post.general == pre.general
            &&& post.extio == pre.extio
            &&& post.sram == pre.sram
            &&& post.flash == pre.flash
        },
        Opcodes::LDI(i) => {
            &&& post.general@ == pre.general@.update(i.rd as int, i.k)
            &&& post.pc == pre.pc + 2
            &&& post.sreg == pre.sreg
            &&& post.sp == pre.sp
            &&& post.io == pre.io
            &&& post.extio == pre.extio
            &&& post.sram == pre.sram
            &&& post.flash == pre.flash
        },
        Opcodes::CALL(i) => {
            &&& post.sram@ == pre.sram@.update(pre.sp.addr(), ((pre.pc + 4) % 256) as u8).update(
                pre.sp.addr() - 1,
                ((pre.pc + 4) / 256) as u8,
            )
            &&& post.sp.addr() == pre.sp.addr() - 2
            &&& post.pc == i.k as u16
            &&& post.sreg == pre.sreg
            &&& post.general == pre.general
            &&& post.io == pre.io
            &&& post.extio == pre.extio
            &&& post.flash == pre.flash
        },
        _ => false,
    }
}

impl Opcodes {
    /// The canonical mnemonic and operand text of the instruction.
    pub open spec fn spec_render(self) -> Seq<char> {
        match self {
            Opcodes::JMP(i) => i.spec_render(),
            Opcodes::EOR(i) => i.spec_render(),
            Opcodes::OUT(i) => i.spec_render(),
            Opcodes::LDI(i) => i.spec_render(),
            Opcodes::CALL(i) => i.spec_render(),
            Opcodes::PUSH(i) => i.spec_render(),
            Opcodes::RCALL(i) => i.spec_render(),
            Opcodes::IN(i) => i.spec_render(),
            Opcodes::STDy(i) => i.spec_render(),
            Opcodes::LDDy(i) => i.spec_render(),
            Opcodes::ADD(i) => i.spec_render(),
            Opcodes::ADC(i) => i.spec_render(),
            Opcodes::POP(i) => i.spec_render(),
            Opcodes::RET(i) => i.spec_render(),
            Opcodes::CLI(i) => i.spec_render(),
            Opcodes::RJMP(i) => i.spec_render(),
        }
    }

    /// Renders the instruction: mnemonic plus operands, registers in
    /// decimal and addresses/immediates in hexadecimal, matching the
    /// decoded field values exactly.
    pub fn pretty_print(&self) -> (s: String)
        ensures
            s@ == self.spec_render(),
    {
        match self {
            Opcodes::JMP(i) => i.pretty_print(),
            Opcodes::EOR(i) => i.pretty_print(),
            Opcodes::OUT(i) => i.pretty_print(),
            Opcodes::LDI(i) => i.pretty_print(),
            Opcodes::CALL(i) => i.pretty_print(),
            Opcodes::PUSH(i) => i.pretty_print(),
            Opcodes::RCALL(i) => i.pretty_print(),
            Opcodes::IN(i) => i.pretty_print(),
            Opcodes::STDy(i) => i.pretty_print(),
            Opcodes::LDDy(i) => i.pretty_print(),
            Opcodes::ADD(i) => i.pretty_print(),
            Opcodes::ADC(i) => i.pretty_print(),
            Opcodes::POP(i) => i.pretty_print(),
            Opcodes::RET(i) => i.pretty_print(),
            Opcodes::CLI(i) => i.pretty_print(),
            Opcodes::RJMP(i) => i.pretty_print(),
        }
    }

    /// Applies the instruction to the processor state. An implemented
    /// instruction mutates the state exactly as `exec_post` says and
    /// advances the counter itself; an unimplemented one leaves the
    /// state untouched and signals the fatal condition, carrying its
    /// rendered text.
    pub fn execute(&self, core: &mut Avrcore) -> (r: Result<(), ExecError>)
        requires
            exec_pre(*self, *old(core)),
        ensures
            implemented(*self) ==> r is Ok && exec_post(*self, *old(core), *final(core)),
            !implemented(*self) ==> {
                &&& *final(core) == *old(core)
                &&& r matches Err(ExecError::Unimplemented(s)) && s@ == self.spec_render()
            },
            old(core).wf() ==> final(core).wf(),
    {
        match self {
            Opcodes::JMP(i) => {
                i.execute(core);
                Ok(())
            },
            Opcodes::EOR(i) => {
                i.execute(core);
                Ok(())
            },
            Opcodes::OUT(i) => {
                i.execute(core);
                Ok(())
            },
            Opcodes::LDI(i) => {
                i.execute(core);
                Ok(())
            },
            Opcodes::CALL(i) => {
                i.execute(core);
                Ok(())
            },
            Opcodes::PUSH(i) => Err(ExecError::Unimplemented(i.pretty_print())),
            Opcodes::RCALL(i) => Err(ExecError::Unimplemented(i.pretty_print())),
            Opcodes::IN(i) => Err(ExecError::Unimplemented(i.pretty_print())),
            Opcodes::STDy(i) => Err(ExecError::Unimplemented(i.pretty_print())),
            Opcodes::LDDy(i) => Err(ExecError::Unimplemented(i.pretty_print())),
            Opcodes::ADD(i) => Err(ExecError::Unimplemented(i.pretty_print())),
            Opcodes::ADC(i) => Err(ExecError::Unimplemented(i.pretty_print())),
            Opcodes::POP(i) => Err(ExecError::Unimplemented(i.pretty_print())),
            Opcodes::RET(i) => Err(ExecError::Unimplemented(i.pretty_print())),
            Opcodes::CLI(i) => Err(ExecError::Unimplemented(i.pretty_print())),
            Opcodes::RJMP(i) => Err(ExecError::Unimplemented(i.pretty_print())),
        }
    }
}

} // verus!
