//! The execution engine: a register file, four status flags, and the decoder
//! it drives. One spec function, `spec_execute`, states what each instruction
//! does to the machine; `spec_run` iterates it together with the decode
//! relation.

use vstd::prelude::*;
use vstd::wrapping::u16_specs;

use crate::decoder::{spec_next_op, Codec, DecodeError, DecodeOutcome};
use crate::instruction::{Immediate, Instruction, JumpType, Location, Register};

verus! {

/// Which part of the owning 16-bit cell a register names.
#[derive(Clone, Copy, Debug, PartialEq, Eq, Structural)]
pub enum Bits {
    High,
    Low,
    All,
}

/// The eleven 16-bit cells of the architectural state. The byte registers
/// share their cells with the owning word register.
#[derive(Clone, Copy, Debug, PartialEq, Eq, Structural)]
pub struct RegisterFile {
    pub ax: u16,
    pub bx: u16,
    pub cx: u16,
    pub dx: u16,
    pub sp: u16,
    pub bp: u16,
    pub si: u16,
    pub di: u16,
    pub ss: u16,
    pub ds: u16,
    pub es: u16,
}

/// The four status flags this core maintains.
#[derive(Clone, Copy, Debug, PartialEq, Eq, Structural)]
pub struct Flags {
    pub zf: bool,
    pub sf: bool,
    pub pf: bool,
    pub of: bool,
}

/// Why the executor refused a structurally valid instruction.
#[derive(Clone, Copy, Debug, PartialEq, Eq, Structural)]
pub enum ExecError {
    /// Memory operand execution is not implemented by this core.
    MemoryOperand,
    /// An immediate can never be a write destination.
    ImmediateDestination,
    /// The instruction decodes but this core does not execute it.
    UnsupportedInstruction,
    /// A taken jump would move the stream position before its start.
    JumpOutOfRange,
}

/// A fatal simulator error: either the decoder or the executor refused.
#[derive(Clone, Copy, Debug, PartialEq, Eq, Structural)]
pub enum SimError {
    Decode(DecodeError),
    Exec(ExecError),
    /// The step budget given to `run` ran out before the stream ended.
    StepLimit,
}

/// The whole architectural state: registers, flags, and the byte stream with
/// its read position.
pub ghost struct MachineState {
    pub regs: RegisterFile,
    pub zf: bool,
    pub sf: bool,
    pub pf: bool,
    pub of: bool,
    pub stream: Seq<u8>,
    pub pos: int,
}

/// Which part of its cell a register reads and writes.
pub open spec fn spec_bits(r: Register) -> Bits {
    match r {
        Register::AL | Register::CL | Register::DL | Register::BL => Bits::Low,
        Register::AH | Register::CH | Register::DH | Register::BH => Bits::High,
        _ => Bits::All,
    }
}

/// The full 16-bit cell owning a register.
pub open spec fn spec_cell_value(regs: RegisterFile, r: Register) -> u16 {
    match r {
        Register::AL | Register::AH | Register::AX => regs.ax,
        Register::BL | Register::BH | Register::BX => regs.bx,
        Register::CL | Register::CH | Register::CX => regs.cx,
        Register::DL | Register::DH | Register::DX => regs.dx,
        Register::SP => regs.sp,
        Register::BP => regs.bp,
        Register::SI => regs.si,
        Register::DI => regs.di,
        Register::SS => regs.ss,
        Register::DS => regs.ds,
        Register::ES => regs.es,
    }
}

/// The register file with the cell owning `r` replaced by `v`.
pub open spec fn spec_set_cell(regs: RegisterFile, r: Register, v: u16) -> RegisterFile {
    match r {
        Register::AL | Register::AH | Register::AX => RegisterFile { ax: v, ..regs },
        Register::BL | Register::BH | Register::BX => RegisterFile { bx: v, ..regs },
        Register::CL | Register::CH | Register::CX => RegisterFile { cx: v, ..regs },
        Register::DL | Register::DH | Register::DX => RegisterFile { dx: v, ..regs },
        Register::SP => RegisterFile { sp: v, ..regs },
        Register::BP => RegisterFile { bp: v, ..regs },
        Register::SI => RegisterFile { si: v, ..regs },
        Register::DI => RegisterFile { di: v, ..regs },
        Register::SS => RegisterFile { ss: v, ..regs },
        Register::DS => RegisterFile { ds: v, ..regs },
        Register::ES => RegisterFile { es: v, ..regs },
    }
}

/// Reading a register through its view: the low byte, the high byte, or the
/// whole cell.
pub open spec fn spec_read_register(regs: RegisterFile, r: Register) -> u16 {
    let cell = spec_cell_value(regs, r);
    match spec_bits(r) {
        Bits::Low => (cell as int % 256) as u16,
        Bits::High => (cell as int / 256) as u16,
        Bits::All => cell,
    }
}

/// Writing a register through its view preserves the bits of the cell the
/// view does not cover.
pub open spec fn spec_write_register(regs: RegisterFile, r: Register, val: u16) -> RegisterFile {
    let cell = spec_cell_value(regs, r);
    let merged = match spec_bits(r) {
        Bits::Low => ((cell as int / 256) * 256 + val as int % 256) as u16,
        Bits::High => ((val as int % 256) * 256 + cell as int % 256) as u16,
        Bits::All => val,
    };
    spec_set_cell(regs, r, merged)
}

/// The 16-bit value an immediate operand contributes: its two's-complement
/// bit pattern.
pub open spec fn spec_u16_of_i16(v: i16) -> u16 {
    if v >= 0 {
        v as u16
    } else {
        (v + 65536) as u16
    }
}

/// The value of a source operand, read at its natural width. Memory operands
/// are not executed by this core.
pub open spec fn spec_source_value(st: MachineState, loc: Location) -> Result<u16, ExecError> {
    match loc {
        Location::Register(r) => Ok(spec_read_register(st.regs, r)),
        Location::Immediate(imm) => Ok(spec_u16_of_i16(imm.data)),
        Location::Memory(_) => Err(ExecError::MemoryOperand),
    }
}

/// The register a destination operand names. Memory destinations are not
/// executed, and immediates can never be written.
pub open spec fn spec_destination_register(loc: Location) -> Result<Register, ExecError> {
    match loc {
        Location::Register(r) => Ok(r),
        Location::Memory(_) => Err(ExecError::MemoryOperand),
        Location::Immediate(_) => Err(ExecError::ImmediateDestination),
    }
}

/// The number of one bits in `n`.
pub open spec fn spec_popcount(n: nat) -> nat
    decreases n,
{
    if n == 0 {
        0
    } else {
        n % 2 + spec_popcount(n / 2)
    }
}

/// Zero flag: the 16-bit result is zero.
pub open spec fn spec_zf(r: u16) -> bool {
    r == 0
}

/// Sign flag: bit 15 of the 16-bit result.
pub open spec fn spec_sf(r: u16) -> bool {
    r >= 0x8000
}

/// Parity flag: the 16-bit result has an even number of one bits.
pub open spec fn spec_pf(r: u16) -> bool {
    spec_popcount(r as nat) % 2 == 0
}

/// The operand actually combined with the destination cell: a value written
/// through a byte-high view arrives shifted into the high byte.
pub open spec fn spec_arith_operand(r: Register, val: u16) -> u16 {
    if spec_bits(r) == Bits::High {
        ((val as int % 256) * 256) as u16
    } else {
        val
    }
}

/// The arithmetic operations the executor implements.
#[derive(Clone, Copy, Debug, PartialEq, Eq, Structural)]
pub enum ArithOp {
    AddOp,
    SubOp,
    CmpOp,
}

/// One arithmetic step: combine the source value with the full destination
/// cell, store the result (except for `cmp`), and set the flags. The
/// overflow flag is the carry-out proxy: for `add`, the wrapped result fell
/// below the prior destination; for `sub` and `cmp`, the subtraction
/// borrowed.
pub open spec fn spec_arith_step(st: MachineState, src: Location, dst: Location, op: ArithOp)
    -> Result<MachineState, ExecError> {
    match spec_source_value(st, src) {
        Err(e) => Err(e),
        Ok(v) => match spec_destination_register(dst) {
            Err(e) => Err(e),
            Ok(r) => {
                let cell = spec_cell_value(st.regs, r);
                let operand = spec_arith_operand(r, v);
                let result = match op {
                    ArithOp::AddOp => u16_specs::wrapping_add(cell, operand),
                    _ => u16_specs::wrapping_sub(cell, operand),
                };
                let overflow = match op {
                    ArithOp::AddOp => result < cell,
                    _ => cell < operand,
                };
                let regs = match op {
                    ArithOp::CmpOp => st.regs,
                    _ => spec_set_cell(st.regs, r, result),
                };
                Ok(
                    MachineState {
                        regs,
                        zf: spec_zf(result),
                        sf: spec_sf(result),
                        pf: spec_pf(result),
                        of: overflow,
                        ..st
                    },
                )
            },
        },
    }
}

/// The branch condition of a jump kind, together with the state it leaves
/// when the branch is evaluated. `loopnz` first decrements `cx` and sets the
/// zero flag from the new value. `None` marks the kinds this core does not
/// execute.
pub open spec fn spec_jump_condition(st: MachineState, kind: JumpType) -> Option<
    (MachineState, bool),
> {
    match kind {
        JumpType::Je => Some((st, st.zf)),
        JumpType::Jne => Some((st, !st.zf)),
        JumpType::Jp => Some((st, st.pf)),
        JumpType::Jb => Some((st, st.of)),
        JumpType::Loopnz => {
            let ncx = u16_specs::wrapping_sub(st.regs.cx, 1);
            let st1 = MachineState { regs: RegisterFile { cx: ncx, ..st.regs }, zf: ncx == 0, ..st };
            Some((st1, ncx != 0))
        },
        _ => None,
    }
}

/// What one instruction does to the machine. Errors change nothing: the
/// state is only committed on success.
pub open spec fn spec_execute(st: MachineState, i: Instruction) -> Result<MachineState, ExecError> {
    match i {
        Instruction::Mov(src, dst) => match spec_source_value(st, src) {
            Err(e) => Err(e),
            Ok(v) => match spec_destination_register(dst) {
                Err(e) => Err(e),
                Ok(r) => Ok(MachineState { regs: spec_write_register(st.regs, r, v), ..st }),
            },
        },
        Instruction::Add(src, dst) => spec_arith_step(st, src, dst, ArithOp::AddOp),
        Instruction::Sub(src, dst) => spec_arith_step(st, src, dst, ArithOp::SubOp),
        Instruction::Cmp(src, dst) => spec_arith_step(st, src, dst, ArithOp::CmpOp),
        Instruction::Jump(kind, offset) => match spec_jump_condition(st, kind) {
            None => Err(ExecError::UnsupportedInstruction),
            Some((st1, taken)) => if !taken {
                Ok(st1)
            } else if st.pos + offset < 0 {
                Err(ExecError::JumpOutOfRange)
            } else {
                Ok(
                    MachineState {
                        pos: if st.pos + offset <= st.stream.len() {
                            st.pos + offset
                        } else {
                            st.stream.len() as int
                        },
                        ..st1
                    },
                )
            },
        },
        _ => Err(ExecError::UnsupportedInstruction),
    }
}

/// What one fetch-execute step does: decode at the current position, advance
/// past the encoding, then execute.
pub ghost enum StepOutcome {
    /// The stream is exhausted: the machine halted cleanly.
    Halted,
    /// The step failed; carries the error and the state it left behind.
    Failed(SimError, MachineState),
    /// The machine after the step.
    Stepped(MachineState),
}

pub open spec fn spec_step(st: MachineState) -> StepOutcome {
    match spec_next_op(st.stream, st.pos) {
        DecodeOutcome::Eos => StepOutcome::Halted,
        DecodeOutcome::Fail(e, p) => StepOutcome::Failed(
            SimError::Decode(e),
            MachineState { pos: p, ..st },
        ),
        DecodeOutcome::Op(i, p) => {
            let st1 = MachineState { pos: p, ..st };
            match spec_execute(st1, i) {
                Ok(st2) => StepOutcome::Stepped(st2),
                Err(e) => StepOutcome::Failed(SimError::Exec(e), st1),
            }
        },
    }
}

/// Where a bounded run ends.
pub ghost enum RunOutcome {
    /// The stream was exhausted; the final state.
    Finished(MachineState),
    /// A decode or execution error stopped the run; the state at the fault.
    Faulted(SimError, MachineState),
    /// The step budget ran out; the state reached so far.
    OutOfSteps(MachineState),
}

/// Running the machine for at most `fuel` fetch-execute steps.
pub open spec fn spec_run(st: MachineState, fuel: nat) -> RunOutcome
    decreases fuel,
{
    if fuel == 0 {
        RunOutcome::OutOfSteps(st)
    } else {
        match spec_step(st) {
            StepOutcome::Halted => RunOutcome::Finished(st),
            StepOutcome::Failed(e, st1) => RunOutcome::Faulted(e, st1),
            StepOutcome::Stepped(st1) => spec_run(st1, (fuel - 1) as nat),
        }
    }
}

/// The one count of a number is at most the number itself.
pub proof fn lemma_popcount_le(n: nat)
    ensures
        spec_popcount(n) <= n,
    decreases n,
{
    if n > 0 {
        lemma_popcount_le(n / 2);
    }
}

/// Whether `v` has an even number of one bits.
fn parity_even(v: u16) -> (r: bool)
    ensures
        r == spec_pf(v),
{
    proof {
        lemma_popcount_le(v as nat);
    }
    let mut n = v;
    let mut ones: u32 = 0;
    while n > 0
        invariant
            ones + spec_popcount(n as nat) == spec_popcount(v as nat),
            spec_popcount(v as nat) <= 65535,
        decreases n,
    {
        ones = ones + (n % 2) as u32;
        n = n / 2;
    }
    ones % 2 == 0
}

/// Which part of its cell a register reads and writes.
fn register_bits(r: Register) -> (b: Bits)
    ensures
        b == spec_bits(r),
{
    match r {
        Register::AL | Register::CL | Register::DL | Register::BL => Bits::Low,
        Register::AH | Register::CH | Register::DH | Register::BH => Bits::High,
        _ => Bits::All,
    }
}

/// The architectural state and the decoder it drives. The executor owns the
/// decoder so that taken jumps can reposition the byte source.
pub struct Cpu {
    regs: RegisterFile,
    instructions: Codec,
    zf: bool,
    sf: bool,
    pf: bool,
    of: bool,
}

impl Cpu {
    /// The whole architectural state, as one mathematical value.
    pub closed spec fn state(self) -> MachineState {
        MachineState {
            regs: self.regs,
            zf: self.zf,
            sf: self.sf,
            pf: self.pf,
            of: self.of,
            stream: self.instructions.stream(),
            pos: self.instructions.position(),
        }
    }

    /// The stream position never passes the end of the stream.
    pub open spec fn wf(self) -> bool {
        self.state().pos <= self.state().stream.len()
    }

    /// A machine over the given byte stream: all registers zero, all flags
    /// clear, the stream at its start.
    pub fn new(instructions: Vec<u8>) -> (c: Cpu)
        ensures
            c.wf(),
            c.state() == (MachineState {
                regs: RegisterFile {
                    ax: 0,
                    bx: 0,
                    cx: 0,
                    dx: 0,
                    sp: 0,
                    bp: 0,
                    si: 0,
                    di: 0,
                    ss: 0,
                    ds: 0,
                    es: 0,
                },
                zf: false,
                sf: false,
                pf: false,
                of: false,
                stream: instructions@,
                pos: 0,
            }),
    {
        Cpu {
            regs: RegisterFile {
                ax: 0,
                bx: 0,
                cx: 0,
                dx: 0,
                sp: 0,
                bp: 0,
                si: 0,
                di: 0,
                ss: 0,
                ds: 0,
                es: 0,
            },
            instructions: Codec::new(instructions),
            zf: false,
            sf: false,
            pf: false,
            of: false,
        }
    }

    /// The current register file.
    pub fn registers(&self) -> (r: RegisterFile)
        ensures
            r == self.state().regs,
    {
        self.regs
    }

    /// The current status flags.
    pub fn flags(&self) -> (f: Flags)
        ensures
            f == (Flags {
                zf: self.state().zf,
                sf: self.state().sf,
                pf: self.state().pf,
                of: self.state().of,
            }),
    {
        Flags { zf: self.zf, sf: self.sf, pf: self.pf, of: self.of }
    }

    /// The full 16-bit cell owning a register: the backing word that a
    /// byte-view register shares with its siblings.
    pub fn cell_value(&self, r: Register) -> (v: u16)
        ensures
            v == spec_cell_value(self.state().regs, r),
    {
        match r {
            Register::AL | Register::AH | Register::AX => self.regs.ax,
            Register::BL | Register::BH | Register::BX => self.regs.bx,
            Register::CL | Register::CH | Register::CX => self.regs.cx,
            Register::DL | Register::DH | Register::DX => self.regs.dx,
            Register::SP => self.regs.sp,
            Register::BP => self.regs.bp,
            Register::SI => self.regs.si,
            Register::DI => self.regs.di,
            Register::SS => self.regs.ss,
            Register::DS => self.regs.ds,
            Register::ES => self.regs.es,
        }
    }

    /// Replace the full cell owning a register.
    fn set_cell(&mut self, r: Register, v: u16)
        ensures
            final(self).state() == (MachineState {
                regs: spec_set_cell(old(self).state().regs, r, v),
                ..old(self).state()
            }),
    {
        match r {
            Register::AL | Register::AH | Register::AX => {
                self.regs.ax = v;
            },
            Register::BL | Register::BH | Register::BX => {
                self.regs.bx = v;
            },
            Register::CL | Register::CH | Register::CX => {
                self.regs.cx = v;
            },
            Register::DL | Register::DH | Register::DX => {
                self.regs.dx = v;
            },
            Register::SP => {
                self.regs.sp = v;
            },
            Register::BP => {
                self.regs.bp = v;
            },
            Register::SI => {
                self.regs.si = v;
            },
            Register::DI => {
                self.regs.di = v;
            },
            Register::SS => {
                self.regs.ss = v;
            },
            Register::DS => {
                self.regs.ds = v;
            },
            Register::ES => {
                self.regs.es = v;
            },
        }
    }

    /// Read a register through its view: low byte, high byte, or the whole
    /// cell.
    pub fn read_register(&self, r: Register) -> (v: u16)
        ensures
            v == spec_read_register(self.state().regs, r),
    {
        let cell = self.cell_value(r);
        match register_bits(r) {
            Bits::Low => cell % 256,
            Bits::High => cell / 256,
            Bits::All => cell,
        }
    }

    /// Write a register through its view, preserving the bits of the cell
    /// that the view does not cover.
    fn write_register(&mut self, r: Register, val: u16)
        ensures
            final(self).state() == (MachineState {
                regs: spec_write_register(old(self).state().regs, r, val),
                ..old(self).state()
            }),
    {
        let cell = self.cell_value(r);
        let merged = match register_bits(r) {
            Bits::Low => (cell / 256) * 256 + val % 256,
            Bits::High => (val % 256) * 256 + cell % 256,
            Bits::All => val,
        };
        self.set_cell(r, merged);
    }

    /// The value of a source operand at its natural width.
    fn source_value(&self, loc: &Location) -> (r: Result<u16, ExecError>)
        ensures
            r == spec_source_value(self.state(), *loc),
    {
        match loc {
            Location::Register(reg) => Ok(self.read_register(*reg)),
            Location::Immediate(imm) => {
                if imm.data >= 0 {
                    Ok(imm.data as u16)
                } else {
                    Ok(((imm.data as i32) + 65536) as u16)
                }
            },
            Location::Memory(_) => Err(ExecError::MemoryOperand),
        }
    }

    /// `mov`: read the source at its natural width, store into the
    /// destination register through its view. Flags are unchanged.
    fn execute_mov(&mut self, src: Location, dst: Location) -> (r: Result<(), ExecError>)
        ensures
            (match spec_execute(old(self).state(), Instruction::Mov(src, dst)) {
                Ok(st) => r is Ok && final(self).state() == st,
                Err(e) => r == Err::<(), ExecError>(e) && final(self).state() == old(self).state(),
            }),
    {
        let val = match self.source_value(&src) {
            Ok(v) => v,
            Err(e) => {
                return Err(e);
            },
        };
        let rdst = match dst {
            Location::Register(reg) => reg,
            Location::Memory(_) => {
                return Err(ExecError::MemoryOperand);
            },
            Location::Immediate(_) => {
                return Err(ExecError::ImmediateDestination);
            },
        };
        self.write_register(rdst, val);
        Ok(())
    }

    /// One arithmetic step: combine the source with the full destination
    /// cell, store the result unless the operation is `cmp`, and set the
    /// flags from the 16-bit result.
    fn execute_arith(&mut self, src: Location, dst: Location, op: ArithOp) -> (r: Result<
        (),
        ExecError,
    >)
        ensures
            (match spec_arith_step(old(self).state(), src, dst, op) {
                Ok(st) => r is Ok && final(self).state() == st,
                Err(e) => r == Err::<(), ExecError>(e) && final(self).state() == old(self).state(),
            }),
    {
        let val = match self.source_value(&src) {
            Ok(v) => v,
            Err(e) => {
                return Err(e);
            },
        };
        let rdst = match dst {
            Location::Register(reg) => reg,
            Location::Memory(_) => {
                return Err(ExecError::MemoryOperand);
            },
            Location::Immediate(_) => {
                return Err(ExecError::ImmediateDestination);
            },
        };
        let cell = self.cell_value(rdst);
        let operand = match register_bits(rdst) {
            Bits::High => (val % 256) * 256,
            _ => val,
        };
        let result = match op {
            ArithOp::AddOp => cell.wrapping_add(operand),
            _ => cell.wrapping_sub(operand),
        };
        let overflow = match op {
            ArithOp::AddOp => result < cell,
            _ => cell < operand,
        };
        match op {
            ArithOp::CmpOp => {},
            _ => {
                self.set_cell(rdst, result);
            },
        }
        self.zf = result == 0;
        self.sf = result >= 0x8000;
        self.pf = parity_even(result);
        self.of = overflow;
        Ok(())
    }

    /// A short conditional jump: evaluate the kind against the flags and, if
    /// taken, reposition the byte source by the signed offset.
    fn execute_jump(&mut self, kind: JumpType, offset: i8) -> (r: Result<(), ExecError>)
        requires
            old(self).wf(),
        ensures
            final(self).wf(),
            (match spec_execute(old(self).state(), Instruction::Jump(kind, offset)) {
                Ok(st) => r is Ok && final(self).state() == st,
                Err(e) => r == Err::<(), ExecError>(e) && final(self).state() == old(self).state(),
            }),
    {
        let taken: bool;
        let mut pending_cx: Option<u16> = None;
        match kind {
            JumpType::Je => {
                taken = self.zf;
            },
            JumpType::Jne => {
                taken = !self.zf;
            },
            JumpType::Jp => {
                taken = self.pf;
            },
            JumpType::Jb => {
                taken = self.of;
            },
            JumpType::Loopnz => {
                let ncx = self.cell_value(Register::CX).wrapping_sub(1);
                pending_cx = Some(ncx);
                taken = ncx != 0;
            },
            _ => {
                return Err(ExecError::UnsupportedInstruction);
            },
        }
        if taken {
            if !self.instructions.jump(offset) {
                return Err(ExecError::JumpOutOfRange);
            }
        }
        if let Some(ncx) = pending_cx {
            self.set_cell(Register::CX, ncx);
            self.zf = ncx == 0;
        }
        Ok(())
    }

    /// Advance the state by one instruction. Errors leave the state exactly
    /// as it was.
    pub fn execute_instruction(&mut self, instruction: Instruction) -> (r: Result<(), ExecError>)
        requires
            old(self).wf(),
        ensures
            final(self).wf(),
            (match spec_execute(old(self).state(), instruction) {
                Ok(st) => r is Ok && final(self).state() == st,
                Err(e) => r == Err::<(), ExecError>(e) && final(self).state() == old(self).state(),
            }),
    {
        match instruction {
            Instruction::Mov(src, dst) => self.execute_mov(src, dst),
            Instruction::Add(src, dst) => self.execute_arith(src, dst, ArithOp::AddOp),
            Instruction::Sub(src, dst) => self.execute_arith(src, dst, ArithOp::SubOp),
            Instruction::Cmp(src, dst) => self.execute_arith(src, dst, ArithOp::CmpOp),
            Instruction::Jump(kind, offset) => self.execute_jump(kind, offset),
            _ => Err(ExecError::UnsupportedInstruction),
        }
    }

    /// Decode the next instruction without executing it. `Ok(None)` is the
    /// clean end of the stream.
    pub fn fetch(&mut self) -> (r: Result<Option<Instruction>, DecodeError>)
        requires
            old(self).wf(),
        ensures
            final(self).wf(),
            final(self).state().regs == old(self).state().regs,
            final(self).state().zf == old(self).state().zf,
            final(self).state().sf == old(self).state().sf,
            final(self).state().pf == old(self).state().pf,
            final(self).state().of == old(self).state().of,
            final(self).state().stream == old(self).state().stream,
            (match spec_next_op(old(self).state().stream, old(self).state().pos) {
                DecodeOutcome::Eos => r == Ok::<Option<Instruction>, DecodeError>(None) && final(self).state().pos == old(self).state().pos,
                DecodeOutcome::Fail(e, p) => r == Err::<Option<Instruction>, DecodeError>(e)
                    && final(self).state().pos == p,
                DecodeOutcome::Op(i, p) => r == Ok::<Option<Instruction>, DecodeError>(Some(i))
                    && final(self).state().pos == p && old(self).state().pos < p,
            }),
    {
        self.instructions.next_op()
    }

    /// Drive the decoder to completion, executing every instruction in
    /// order, for at most `max_steps` instructions. The run ends cleanly at
    /// the end of the stream, stops at the first decode or execution error,
    /// or gives up when the step budget runs out.
    pub fn run(&mut self, max_steps: u64) -> (r: Result<(), SimError>)
        requires
            old(self).wf(),
        ensures
            final(self).wf(),
            (match spec_run(old(self).state(), max_steps as nat) {
                RunOutcome::Finished(st) => r is Ok && final(self).state() == st,
                RunOutcome::Faulted(e, st) => r == Err::<(), SimError>(e) && final(self).state()
                    == st,
                RunOutcome::OutOfSteps(st) => r == Err::<(), SimError>(SimError::StepLimit)
                    && final(self).state() == st,
            }),
    {
        let mut steps: u64 = 0;
        loop
            invariant
                self.wf(),
                steps <= max_steps,
                spec_run(old(self).state(), max_steps as nat) == spec_run(
                    self.state(),
                    (max_steps - steps) as nat,
                ),
            decreases max_steps - steps,
        {
            if steps == max_steps {
                return Err(SimError::StepLimit);
            }
            match self.fetch() {
                Ok(None) => {
                    return Ok(());
                },
                Err(e) => {
                    return Err(SimError::Decode(e));
                },
                Ok(Some(instruction)) => {
                    match self.execute_instruction(instruction) {
                        Ok(_) => {
                            steps = steps + 1;
                        },
                        Err(e) => {
                            return Err(SimError::Exec(e));
                        },
                    }
                },
            }
        }
    }
}

/// High/low byte aliasing: moving an immediate into the high byte of the
/// accumulator and then another into its low byte composes into the full
/// word, whatever the machine held before.
pub proof fn lemma_high_low_aliasing(st: MachineState, hi: i16, lo: i16)
    requires
        0 <= hi < 256,
        0 <= lo < 256,
    ensures
        ({
            let mov_ah = Instruction::Mov(
                Location::Immediate(Immediate { data: hi, w: None }),
                Location::Register(Register::AH),
            );
            let mov_al = Instruction::Mov(
                Location::Immediate(Immediate { data: lo, w: None }),
                Location::Register(Register::AL),
            );
            spec_execute(st, mov_ah) matches Ok(st1) && spec_execute(st1, mov_al) matches Ok(st2)
                && st2.regs.ax == hi * 256 + lo
        }),
{
    let mov_ah = Instruction::Mov(
        Location::Immediate(Immediate { data: hi, w: None }),
        Location::Register(Register::AH),
    );
    let st1 = spec_execute(st, mov_ah).unwrap();
    assert(st1.regs.ax == hi * 256 + st.regs.ax as int % 256);
    assert((hi * 256 + st.regs.ax as int % 256) / 256 == hi) by (nonlinear_arith)
        requires
            0 <= hi < 256 && 0 <= st.regs.ax as int % 256 < 256,
    ;
}

/// Flag semantics on `sub` with identical inputs: when the effective operand
/// equals the destination cell the result is zero, so ZF and PF are set and
/// SF and OF are clear.
pub proof fn lemma_sub_flags_equal_inputs(st: MachineState, src: Location, dst: Location)
    requires
        spec_source_value(st, src) is Ok,
        spec_destination_register(dst) is Ok,
        spec_arith_operand(
            spec_destination_register(dst).unwrap(),
            spec_source_value(st, src).unwrap(),
        ) == spec_cell_value(st.regs, spec_destination_register(dst).unwrap()),
    ensures
        spec_arith_step(st, src, dst, ArithOp::SubOp) matches Ok(st1) && st1.zf && !st1.sf
            && st1.pf && !st1.of,
{
    assert(spec_popcount(0) == 0);
}

/// Flag semantics on `sub` when the subtraction wraps: subtracting 2 from a
/// destination holding 1 gives a negative result, so SF and OF are set and
/// ZF is clear.
pub proof fn lemma_sub_flags_wrapped(st: MachineState, src: Location, dst: Location)
    requires
        spec_source_value(st, src) == Ok::<u16, ExecError>(2),
        spec_destination_register(dst) is Ok,
        spec_bits(spec_destination_register(dst).unwrap()) != Bits::High,
        spec_cell_value(st.regs, spec_destination_register(dst).unwrap()) == 1,
    ensures
        spec_arith_step(st, src, dst, ArithOp::SubOp) matches Ok(st1) && st1.sf && st1.of
            && !st1.zf,
{
}

/// `cmp` mutates nothing: it leaves the register file (and the stream
/// position) exactly as they were, while setting the flags precisely as
/// `sub` on the same operands would, and it fails exactly when `sub` fails.
pub proof fn lemma_cmp_is_flagwise_sub(st: MachineState, src: Location, dst: Location)
    ensures
        ({
            let c = spec_arith_step(st, src, dst, ArithOp::CmpOp);
            let s2 = spec_arith_step(st, src, dst, ArithOp::SubOp);
            match (c, s2) {
                (Ok(cs), Ok(ss)) => cs.regs == st.regs && cs.pos == st.pos && cs.stream
                    == st.stream && cs.zf == ss.zf && cs.sf == ss.sf && cs.pf == ss.pf && cs.of
                    == ss.of,
                (Err(e1), Err(e2)) => e1 == e2,
                _ => false,
            }
        }),
{
}

/// Short-jump repositioning at the instruction level: a taken supported jump
/// moves the stream position to (current position) + offset, where the
/// current position is the one just after the jump's own encoding.
pub proof fn lemma_jump_repositioning(st: MachineState, kind: JumpType, offset: i8)
    requires
        0 <= st.pos + offset <= st.stream.len(),
        (match spec_jump_condition(st, kind) {
            Some((st1, taken)) => taken,
            None => false,
        }),
    ensures
        spec_execute(st, Instruction::Jump(kind, offset)) matches Ok(st1) && st1.pos == st.pos
            + offset,
{
}

/// Short-jump repositioning across one fetch-execute step: when the decoder
/// finds a taken jump whose two-byte encoding ends at `p`, the machine's
/// next instruction is decoded at `p + offset`.
pub proof fn lemma_short_jump_step(st: MachineState, kind: JumpType, offset: i8, p: int)
    requires
        spec_next_op(st.stream, st.pos) == DecodeOutcome::Op(
            Instruction::Jump(kind, offset),
            p,
        ),
        (match spec_jump_condition(MachineState { pos: p, ..st }, kind) {
            Some((st1, taken)) => taken,
            None => false,
        }),
        0 <= p + offset <= st.stream.len(),
    ensures
        spec_step(st) matches StepOutcome::Stepped(st2) && st2.pos == p + offset,
{
    lemma_jump_repositioning(MachineState { pos: p, ..st }, kind, offset);
}

} // verus!
