//! The instruction model: registers, operand locations and the decoded
//! instruction sum type.

use vstd::prelude::*;

verus! {

/// One of the nineteen 8086 registers visible to this simulator: the four
/// general registers in their byte-low, byte-high and full-word views, the
/// four pointer/index registers, and three segment registers.
#[derive(Clone, Copy, Debug, PartialEq, Eq, Structural)]
pub enum Register {
    AL,
    CL,
    DL,
    BL,
    AH,
    CH,
    DH,
    BH,
    AX,
    CX,
    DX,
    BX,
    SP,
    BP,
    SI,
    DI,
    SS,
    DS,
    ES,
}

/// The 8086 REG table: a 3-bit register code together with the operand-size
/// bit `w` selects a register. `w = 0` picks the 8-bit views, `w = 1` the
/// 16-bit registers.
pub open spec fn spec_reg(code: u8, w: u8) -> Register {
    if w == 0 {
        if code == 0 {
            Register::AL
        } else if code == 1 {
            Register::CL
        } else if code == 2 {
            Register::DL
        } else if code == 3 {
            Register::BL
        } else if code == 4 {
            Register::AH
        } else if code == 5 {
            Register::CH
        } else if code == 6 {
            Register::DH
        } else {
            Register::BH
        }
    } else {
        if code == 0 {
            Register::AX
        } else if code == 1 {
            Register::CX
        } else if code == 2 {
            Register::DX
        } else if code == 3 {
            Register::BX
        } else if code == 4 {
            Register::SP
        } else if code == 5 {
            Register::BP
        } else if code == 6 {
            Register::SI
        } else {
            Register::DI
        }
    }
}

impl Register {
    /// Select a register from a 3-bit opcode field and the `w` bit, following
    /// the 8086 REG table. A code outside the table is a programming error
    /// and is excluded by the precondition.
    pub fn new(opcode: u8, w: u8) -> (r: Register)
        requires
            opcode < 8,
            w < 2,
        ensures
            r == spec_reg(opcode, w),
    {
        if w == 0 {
            if opcode == 0 {
                Register::AL
            } else if opcode == 1 {
                Register::CL
            } else if opcode == 2 {
                Register::DL
            } else if opcode == 3 {
                Register::BL
            } else if opcode == 4 {
                Register::AH
            } else if opcode == 5 {
                Register::CH
            } else if opcode == 6 {
                Register::DH
            } else {
                Register::BH
            }
        } else {
            if opcode == 0 {
                Register::AX
            } else if opcode == 1 {
                Register::CX
            } else if opcode == 2 {
                Register::DX
            } else if opcode == 3 {
                Register::BX
            } else if opcode == 4 {
                Register::SP
            } else if opcode == 5 {
                Register::BP
            } else if opcode == 6 {
                Register::SI
            } else {
                Register::DI
            }
        }
    }
}

/// An effective-address descriptor: up to two base/index registers and a
/// signed 16-bit displacement. When both registers are absent the
/// displacement is a direct address.
#[derive(Clone, Copy, Debug, PartialEq, Eq, Structural)]
pub struct Memory {
    pub reg1: Option<Register>,
    pub reg2: Option<Register>,
    pub displacement: i16,
}

impl Memory {
    pub fn new(reg1: Option<Register>, reg2: Option<Register>, displacement: i16) -> (m: Memory)
        ensures
            m == (Memory { reg1, reg2, displacement }),
    {
        Memory { reg1, reg2, displacement }
    }
}

/// A signed 16-bit immediate datum. The optional width tag (`0` for `byte`,
/// `1` for `word`) is attached only when the owning instruction's destination
/// is a memory operand, so that the textual disassembly is unambiguous.
#[derive(Clone, Copy, Debug, PartialEq, Eq, Structural)]
pub struct Immediate {
    pub data: i16,
    pub w: Option<u8>,
}

impl Immediate {
    pub fn new(data: i16, w: Option<u8>) -> (imm: Immediate)
        ensures
            imm == (Immediate { data, w }),
    {
        Immediate { data, w }
    }

    pub fn set_w(&mut self, w: Option<u8>)
        ensures
            *final(self) == (Immediate { data: old(self).data, w }),
    {
        self.w = w;
    }
}

/// An instruction operand: a register, a memory effective address, or an
/// immediate value. Write destinations are never immediates.
#[derive(Clone, Copy, Debug, PartialEq, Eq, Structural)]
pub enum Location {
    Register(Register),
    Memory(Memory),
    Immediate(Immediate),
}

/// The twenty short conditional/loop jump opcodes.
#[derive(Clone, Copy, Debug, PartialEq, Eq, Structural)]
pub enum JumpType {
    Je,
    Jl,
    Jle,
    Jb,
    Jbe,
    Jp,
    Jo,
    Js,
    Jne,
    Jnl,
    Jnle,
    Jnb,
    Jnbe,
    Jnp,
    Jno,
    Jns,
    Loop,
    Loopz,
    Loopnz,
    Jcxz,
}

/// A decoded instruction. For the two-operand forms the first operand is the
/// source and the second the destination, regardless of how the direction bit
/// arranged them in the encoding.
#[derive(Clone, Copy, Debug, PartialEq, Eq, Structural)]
pub enum Instruction {
    Mov(Location, Location),
    Add(Location, Location),
    Adc(Location, Location),
    Sbb(Location, Location),
    Sub(Location, Location),
    Cmp(Location, Location),
    Jump(JumpType, i8),
    Daa,
    Aaa,
    Inc(Location, Option<u8>),
    Dec(Location, Option<u8>),
}

} // verus!
