//! The instruction decoder: pulls bytes from a seek-capable in-memory byte
//! source and emits one decoded instruction per call.
//!
//! The whole decode relation is stated by `spec_next_op`, a mathematical
//! description of the 8086 encoding tables; `Codec::next_op` is proved to
//! follow it exactly, byte for byte.

use vstd::prelude::*;

use crate::instruction::{spec_reg, Immediate, Instruction, JumpType, Location, Memory, Register};

verus! {

/// Why a byte stream failed to decode.
#[derive(Clone, Copy, Debug, PartialEq, Eq, Structural)]
pub enum DecodeError {
    /// The byte pattern matches no supported opcode family.
    UnsupportedOpcode,
    /// The source ended in the middle of an instruction.
    TruncatedInstruction,
}

/// The outcome of decoding one instruction at a given stream position.
pub ghost enum DecodeOutcome {
    /// The position is at the end of the stream: the normal terminator.
    Eos,
    /// Decoding failed; carries the error and the position just past the
    /// bytes the failed attempt consumed.
    Fail(DecodeError, int),
    /// A decoded instruction and the position just past its encoding.
    Op(Instruction, int),
}

/// The unsigned 16-bit value stored little-endian as `lo` then `hi`.
pub open spec fn word_le(lo: u8, hi: u8) -> int {
    lo + 256 * hi
}

/// The signed 16-bit value stored little-endian as `lo` then `hi`.
pub open spec fn sign16_le(lo: u8, hi: u8) -> int {
    if word_le(lo, hi) < 32768 {
        word_le(lo, hi)
    } else {
        word_le(lo, hi) - 65536
    }
}

/// The value of a byte read as a signed 8-bit quantity.
pub open spec fn sign8(b: u8) -> int {
    if b < 128 {
        b as int
    } else {
        b - 256
    }
}

/// The signed 8-bit value of a byte, as an `i8`.
pub open spec fn spec_as_i8(b: u8) -> i8 {
    sign8(b) as i8
}

/// The twenty exact-match short-jump opcodes (8086 User Manual, page 161).
pub open spec fn spec_jump_kind(b: u8) -> Option<JumpType> {
    if b == 0x74 {
        Some(JumpType::Je)
    } else if b == 0x7C {
        Some(JumpType::Jl)
    } else if b == 0x7E {
        Some(JumpType::Jle)
    } else if b == 0x72 {
        Some(JumpType::Jb)
    } else if b == 0x76 {
        Some(JumpType::Jbe)
    } else if b == 0x7A {
        Some(JumpType::Jp)
    } else if b == 0x70 {
        Some(JumpType::Jo)
    } else if b == 0x78 {
        Some(JumpType::Js)
    } else if b == 0x75 {
        Some(JumpType::Jne)
    } else if b == 0x7D {
        Some(JumpType::Jnl)
    } else if b == 0x7F {
        Some(JumpType::Jnle)
    } else if b == 0x73 {
        Some(JumpType::Jnb)
    } else if b == 0x77 {
        Some(JumpType::Jnbe)
    } else if b == 0x7B {
        Some(JumpType::Jnp)
    } else if b == 0x71 {
        Some(JumpType::Jno)
    } else if b == 0x79 {
        Some(JumpType::Jns)
    } else if b == 0xE2 {
        Some(JumpType::Loop)
    } else if b == 0xE1 {
        Some(JumpType::Loopz)
    } else if b == 0xE0 {
        Some(JumpType::Loopnz)
    } else if b == 0xE3 {
        Some(JumpType::Jcxz)
    } else {
        None
    }
}

/// The arithmetic instruction selected by a 3-bit opcode field, shared by the
/// register/memory, immediate-to-r/m and immediate-to-accumulator families.
/// The fields not in the instruction model decode to nothing.
pub open spec fn spec_arith_instruction(bits: u8, src: Location, dst: Location) -> Option<
    Instruction,
> {
    if bits == 0 {
        Some(Instruction::Add(src, dst))
    } else if bits == 2 {
        Some(Instruction::Adc(src, dst))
    } else if bits == 3 {
        Some(Instruction::Sbb(src, dst))
    } else if bits == 5 {
        Some(Instruction::Sub(src, dst))
    } else if bits == 7 {
        Some(Instruction::Cmp(src, dst))
    } else {
        None
    }
}

/// The base/index registers of the standard 8086 effective-address table,
/// indexed by the `r/m` field. `r/m = 110` with `mod = 00` is the direct
/// address: no base register at all.
pub open spec fn spec_ea_regs(rm: u8, md: u8) -> (Option<Register>, Option<Register>) {
    if rm == 6 && md == 0 {
        (None, None)
    } else if rm == 0 {
        (Some(Register::BX), Some(Register::SI))
    } else if rm == 1 {
        (Some(Register::BX), Some(Register::DI))
    } else if rm == 2 {
        (Some(Register::BP), Some(Register::SI))
    } else if rm == 3 {
        (Some(Register::BP), Some(Register::DI))
    } else if rm == 4 {
        (Some(Register::SI), None)
    } else if rm == 5 {
        (Some(Register::DI), None)
    } else if rm == 6 {
        (Some(Register::BP), None)
    } else {
        (Some(Register::BX), None)
    }
}

/// How many displacement bytes a `mod`/`r/m` pair carries.
pub open spec fn spec_disp_len(md: u8, rm: u8) -> int {
    if md == 1 {
        1
    } else if md == 2 || (md == 0 && rm == 6) {
        2
    } else {
        0
    }
}

/// The displacement value read at position `p`: sign-extended 8-bit for
/// `mod = 01`, little-endian 16-bit for `mod = 10` and for the direct-address
/// case, and zero otherwise.
pub open spec fn spec_disp_value(s: Seq<u8>, p: int, md: u8, rm: u8) -> int {
    if md == 1 {
        sign8(s[p])
    } else if md == 2 || (md == 0 && rm == 6) {
        sign16_le(s[p], s[p + 1])
    } else {
        0
    }
}

/// The memory operand formed from a `mod`/`r/m` pair, with its displacement
/// bytes starting at position `p`.
pub open spec fn spec_mem_operand(s: Seq<u8>, p: int, md: u8, rm: u8) -> Memory {
    Memory {
        reg1: spec_ea_regs(rm, md).0,
        reg2: spec_ea_regs(rm, md).1,
        displacement: spec_disp_value(s, p, md, rm) as i16,
    }
}

/// The `(source, destination)` pair of a register/memory form: `mod = 11`
/// names two registers, anything else pairs the `reg` register with a memory
/// operand, and the direction bit `d` decides which of the two is the
/// destination.
pub open spec fn spec_rm_operands(s: Seq<u8>, p: int, b2: u8, d: u8, w: u8) -> (
    Location,
    Location,
) {
    let md = b2 >> 6;
    let reg = (b2 >> 3) & 7;
    let rm = b2 & 7;
    if md == 3 {
        let r1 = Location::Register(spec_reg(reg, w));
        let r2 = Location::Register(spec_reg(rm, w));
        if d == 1 {
            (r2, r1)
        } else {
            (r1, r2)
        }
    } else {
        let r1 = Location::Register(spec_reg(reg, w));
        let m = Location::Memory(spec_mem_operand(s, p, md, rm));
        if d == 1 {
            (m, r1)
        } else {
            (r1, m)
        }
    }
}

/// Immediate-to-register MOV (`1011 w reg`): one or two immediate bytes per
/// `w`. `p` is the position just after the opcode byte.
pub open spec fn spec_decode_imm_to_reg(s: Seq<u8>, p: int, b1: u8) -> DecodeOutcome {
    let w = (b1 >> 3) & 1;
    let reg = b1 & 7;
    if p + 1 + w <= s.len() {
        let data = if w == 1 {
            sign16_le(s[p], s[p + 1])
        } else {
            sign8(s[p])
        };
        DecodeOutcome::Op(
            Instruction::Mov(
                Location::Immediate(Immediate { data: data as i16, w: None }),
                Location::Register(spec_reg(reg, w)),
            ),
            p + 1 + w,
        )
    } else {
        DecodeOutcome::Fail(DecodeError::TruncatedInstruction, p)
    }
}

/// Register/memory MOV (`100010 d w` and its neighbours in the `0x8` prefix
/// group): a `mod reg r/m` byte, then displacement bytes as `mod` demands.
pub open spec fn spec_decode_rm_mov(s: Seq<u8>, p: int, b1: u8) -> DecodeOutcome {
    if p + 1 <= s.len() {
        let b2 = s[p];
        let md = b2 >> 6;
        let rm = b2 & 7;
        let n = spec_disp_len(md, rm);
        if p + 1 + n <= s.len() {
            let sd = spec_rm_operands(s, p + 1, b2, (b1 & 2) >> 1, b1 & 1);
            DecodeOutcome::Op(Instruction::Mov(sd.0, sd.1), p + 1 + n)
        } else {
            DecodeOutcome::Fail(DecodeError::TruncatedInstruction, p + 1)
        }
    } else {
        DecodeOutcome::Fail(DecodeError::TruncatedInstruction, p)
    }
}

/// Arithmetic register/memory forms (prefixes `0x0`, `0x2`, `0x3` with bit 2
/// clear): like register/memory MOV, with bits 5..3 of the opcode naming the
/// operation.
pub open spec fn spec_decode_arith_rm(s: Seq<u8>, p: int, b1: u8) -> DecodeOutcome {
    if p + 1 <= s.len() {
        let b2 = s[p];
        let md = b2 >> 6;
        let rm = b2 & 7;
        let n = spec_disp_len(md, rm);
        if p + 1 + n <= s.len() {
            let sd = spec_rm_operands(s, p + 1, b2, (b1 & 2) >> 1, b1 & 1);
            match spec_arith_instruction((b1 >> 3) & 7, sd.0, sd.1) {
                Some(i) => DecodeOutcome::Op(i, p + 1 + n),
                None => DecodeOutcome::Fail(DecodeError::UnsupportedOpcode, p + 1 + n),
            }
        } else {
            DecodeOutcome::Fail(DecodeError::TruncatedInstruction, p + 1)
        }
    } else {
        DecodeOutcome::Fail(DecodeError::TruncatedInstruction, p)
    }
}

/// Arithmetic immediate-to-r/m (`100000 s w`): a `mod op r/m` byte whose
/// middle field names the operation, displacement bytes, then an immediate.
/// The immediate is two bytes only for `s w = 01`; a register destination
/// takes no width tag, a memory destination is tagged with the `w` bit.
pub open spec fn spec_decode_arith_imm_rm(s: Seq<u8>, p: int, b1: u8) -> DecodeOutcome {
    let w: u8 = if b1 & 3 == 1 {
        1
    } else {
        0
    };
    if p + 1 <= s.len() {
        let b2 = s[p];
        let md = b2 >> 6;
        let rm = b2 & 7;
        let n = spec_disp_len(md, rm);
        if p + 1 + n <= s.len() {
            if p + 1 + n + 1 + w <= s.len() {
                let q = p + 1 + n;
                let data = if w == 1 {
                    sign16_le(s[q], s[q + 1])
                } else {
                    sign8(s[q])
                };
                let dst = if md == 3 {
                    Location::Register(spec_reg(rm, b1 & 1))
                } else {
                    Location::Memory(spec_mem_operand(s, p + 1, md, rm))
                };
                let tag = if md == 3 {
                    None
                } else {
                    Some(b1 & 1)
                };
                let src = Location::Immediate(Immediate { data: data as i16, w: tag });
                match spec_arith_instruction((b2 >> 3) & 7, src, dst) {
                    Some(i) => DecodeOutcome::Op(i, q + 1 + w),
                    None => DecodeOutcome::Fail(DecodeError::UnsupportedOpcode, q + 1 + w),
                }
            } else {
                DecodeOutcome::Fail(DecodeError::TruncatedInstruction, p + 1 + n)
            }
        } else {
            DecodeOutcome::Fail(DecodeError::TruncatedInstruction, p + 1)
        }
    } else {
        DecodeOutcome::Fail(DecodeError::TruncatedInstruction, p)
    }
}

/// Immediate-to-r/m MOV (prefix `0xC`): a `mod _ r/m` byte, displacement
/// bytes, then an immediate of width `w`. A memory destination tags the
/// immediate with the `w` bit; a register destination does not.
pub open spec fn spec_decode_imm_to_rm(s: Seq<u8>, p: int, b1: u8) -> DecodeOutcome {
    let w = b1 & 1;
    if p + 1 <= s.len() {
        let b2 = s[p];
        let md = b2 >> 6;
        let rm = b2 & 7;
        let n = spec_disp_len(md, rm);
        if p + 1 + n <= s.len() {
            if p + 1 + n + 1 + w <= s.len() {
                let q = p + 1 + n;
                let data = if w == 1 {
                    sign16_le(s[q], s[q + 1])
                } else {
                    sign8(s[q])
                };
                let instr = if md == 3 {
                    Instruction::Mov(
                        Location::Immediate(Immediate { data: data as i16, w: None }),
                        Location::Register(spec_reg(rm, w)),
                    )
                } else {
                    Instruction::Mov(
                        Location::Immediate(Immediate { data: data as i16, w: Some(w) }),
                        Location::Memory(spec_mem_operand(s, p + 1, md, rm)),
                    )
                };
                DecodeOutcome::Op(instr, q + 1 + w)
            } else {
                DecodeOutcome::Fail(DecodeError::TruncatedInstruction, p + 1 + n)
            }
        } else {
            DecodeOutcome::Fail(DecodeError::TruncatedInstruction, p + 1)
        }
    } else {
        DecodeOutcome::Fail(DecodeError::TruncatedInstruction, p)
    }
}

/// Accumulator direct-address MOV (prefix `0xA`): a direct address of one or
/// two bytes per `w`; bit 1 of the opcode selects the direction.
pub open spec fn spec_decode_acc_mov(s: Seq<u8>, p: int, b1: u8) -> DecodeOutcome {
    let w = b1 & 1;
    if p + 1 + w <= s.len() {
        let disp = if w == 1 {
            sign16_le(s[p], s[p + 1])
        } else {
            sign8(s[p])
        };
        let mem = Location::Memory(Memory { reg1: None, reg2: None, displacement: disp as i16 });
        let reg = Location::Register(
            if w == 1 {
                Register::AX
            } else {
                Register::AL
            },
        );
        let instr = if b1 >> 1 == 0x50 {
            Instruction::Mov(mem, reg)
        } else {
            Instruction::Mov(reg, mem)
        };
        DecodeOutcome::Op(instr, p + 1 + w)
    } else {
        DecodeOutcome::Fail(DecodeError::TruncatedInstruction, p)
    }
}

/// Arithmetic immediate-to-accumulator (prefixes `0x0`, `0x2`, `0x3` with
/// bit 2 set): an immediate of one or two bytes per `w`, destined for
/// `AL`/`AX`; bits 5..3 of the opcode name the operation.
pub open spec fn spec_decode_arith_imm_acc(s: Seq<u8>, p: int, b1: u8) -> DecodeOutcome {
    let w = b1 & 1;
    if p + 1 + w <= s.len() {
        let data = if w == 1 {
            sign16_le(s[p], s[p + 1])
        } else {
            sign8(s[p])
        };
        let src = Location::Immediate(Immediate { data: data as i16, w: None });
        let reg = Location::Register(
            if w == 1 {
                Register::AX
            } else {
                Register::AL
            },
        );
        match spec_arith_instruction((b1 >> 3) & 7, src, reg) {
            Some(i) => DecodeOutcome::Op(i, p + 1 + w),
            None => DecodeOutcome::Fail(DecodeError::UnsupportedOpcode, p + 1 + w),
        }
    } else {
        DecodeOutcome::Fail(DecodeError::TruncatedInstruction, p)
    }
}

/// The decode relation: what one call of `Codec::next_op` does at position
/// `pos` of stream `s`. Classification follows the first byte: the twenty
/// exact-match jumps and `aaa`/`daa` first, then dispatch on the high nibble.
pub open spec fn spec_next_op(s: Seq<u8>, pos: int) -> DecodeOutcome {
    if pos >= s.len() {
        DecodeOutcome::Eos
    } else {
        let b1 = s[pos];
        if spec_jump_kind(b1) is Some {
            if pos + 2 <= s.len() {
                DecodeOutcome::Op(
                    Instruction::Jump(spec_jump_kind(b1).unwrap(), spec_as_i8(s[pos + 1])),
                    pos + 2,
                )
            } else {
                DecodeOutcome::Fail(DecodeError::TruncatedInstruction, pos + 1)
            }
        } else if b1 == 0x37 {
            DecodeOutcome::Op(Instruction::Aaa, pos + 1)
        } else if b1 == 0x27 {
            DecodeOutcome::Op(Instruction::Daa, pos + 1)
        } else {
            let prefix = b1 >> 4;
            if prefix == 0xB {
                spec_decode_imm_to_reg(s, pos + 1, b1)
            } else if prefix == 0x8 {
                if b1 >> 2 == 0x20 {
                    spec_decode_arith_imm_rm(s, pos + 1, b1)
                } else {
                    spec_decode_rm_mov(s, pos + 1, b1)
                }
            } else if prefix == 0xC {
                spec_decode_imm_to_rm(s, pos + 1, b1)
            } else if prefix == 0xA {
                spec_decode_acc_mov(s, pos + 1, b1)
            } else if prefix == 0 || prefix == 2 || prefix == 3 {
                if (b1 >> 2) & 1 == 1 {
                    spec_decode_arith_imm_acc(s, pos + 1, b1)
                } else {
                    spec_decode_arith_rm(s, pos + 1, b1)
                }
            } else if prefix == 4 {
                if (b1 >> 3) & 1 == 1 {
                    DecodeOutcome::Op(
                        Instruction::Dec(Location::Register(spec_reg(b1 & 7, 1)), None),
                        pos + 1,
                    )
                } else {
                    DecodeOutcome::Op(
                        Instruction::Inc(Location::Register(spec_reg(b1 & 7, 1)), None),
                        pos + 1,
                    )
                }
            } else {
                DecodeOutcome::Fail(DecodeError::UnsupportedOpcode, pos + 1)
            }
        }
    }
}

/// Whether a 3-bit arithmetic opcode field names an operation of the
/// instruction model.
pub open spec fn spec_arith_supported(bits: u8) -> bool {
    bits == 0 || bits == 2 || bits == 3 || bits == 5 || bits == 7
}

/// The exact number of bytes an encoding at `pos` occupies, determined by
/// its leading byte and, for the `mod reg r/m` forms, its second byte.
/// `None` marks the byte patterns outside the supported opcode set.
pub open spec fn spec_expected_len(s: Seq<u8>, pos: int) -> Option<int> {
    let b1 = s[pos];
    if spec_jump_kind(b1) is Some {
        Some(2)
    } else if b1 == 0x37 || b1 == 0x27 {
        Some(1)
    } else {
        let prefix = b1 >> 4;
        if prefix == 0xB {
            Some(2 + ((b1 >> 3) & 1))
        } else if prefix == 0x8 {
            let b2 = s[pos + 1];
            if b1 >> 2 == 0x20 {
                let w: u8 = if b1 & 3 == 1 {
                    1
                } else {
                    0
                };
                if spec_arith_supported((b2 >> 3) & 7) {
                    Some(2 + spec_disp_len(b2 >> 6, b2 & 7) + 1 + w)
                } else {
                    None
                }
            } else {
                Some(2 + spec_disp_len(b2 >> 6, b2 & 7))
            }
        } else if prefix == 0xC {
            let b2 = s[pos + 1];
            Some(2 + spec_disp_len(b2 >> 6, b2 & 7) + 1 + (b1 & 1))
        } else if prefix == 0xA {
            Some(2 + (b1 & 1))
        } else if prefix == 0 || prefix == 2 || prefix == 3 {
            if spec_arith_supported((b1 >> 3) & 7) {
                if (b1 >> 2) & 1 == 1 {
                    Some(2 + (b1 & 1))
                } else {
                    let b2 = s[pos + 1];
                    Some(2 + spec_disp_len(b2 >> 6, b2 & 7))
                }
            } else {
                None
            }
        } else if prefix == 4 {
            Some(1)
        } else {
            None
        }
    }
}

/// Decoder totality on the supported opcode set: wherever the leading bytes
/// fall in a supported family and the stream holds the encoding's full byte
/// count, decoding succeeds and consumes exactly that count, which is never
/// more than six bytes.
pub proof fn lemma_decode_totality(s: Seq<u8>, pos: int)
    requires
        0 <= pos < s.len(),
        spec_expected_len(s, pos) is Some,
        pos + spec_expected_len(s, pos).unwrap() <= s.len(),
    ensures
        spec_next_op(s, pos) matches DecodeOutcome::Op(i, p) && p == pos + spec_expected_len(
            s,
            pos,
        ).unwrap(),
        1 <= spec_expected_len(s, pos).unwrap() <= 6,
{
    let b1 = s[pos];
    assert(b1 & 1 < 2 && (b1 & 2) >> 1 < 2 && b1 & 7 < 8 && (b1 >> 3) & 1 < 2 && (b1 >> 3) & 7 < 8
        && b1 >> 6 < 4 && b1 >> 4 < 16) by (bit_vector);
    if pos + 1 < s.len() {
        let b2 = s[pos + 1];
        assert(b2 & 7 < 8 && (b2 >> 3) & 7 < 8 && b2 >> 6 < 4) by (bit_vector);
    }
}

/// Direction-bit symmetry: two register-to-register MOV encodings that
/// differ only in the `d` bit, with the `reg` and `r/m` fields exchanged,
/// decode to the same instruction.
pub proof fn lemma_direction_bit_symmetry(w: u8, a: u8, b: u8)
    requires
        w < 2,
        a < 8,
        b < 8,
    ensures
        ({
            let s1 = seq![(0x88 + w) as u8, (0xC0 + a * 8 + b) as u8];
            let s2 = seq![(0x8A + w) as u8, (0xC0 + b * 8 + a) as u8];
            let decoded = DecodeOutcome::Op(
                Instruction::Mov(
                    Location::Register(spec_reg(a, w)),
                    Location::Register(spec_reg(b, w)),
                ),
                2,
            );
            spec_next_op(s1, 0) == decoded && spec_next_op(s2, 0) == decoded
        }),
{
    let c1: u8 = (0x88 + w) as u8;
    let c2: u8 = (0x8A + w) as u8;
    let m1: u8 = (0xC0 + a * 8 + b) as u8;
    let m2: u8 = (0xC0 + b * 8 + a) as u8;
    assert(spec_jump_kind(c1) is None && spec_jump_kind(c2) is None);
    assert(c1 >> 4 == 8 && c1 >> 2 == 0x22 && c1 & 1 == w && (c1 & 2) >> 1 == 0) by (bit_vector)
        requires
            c1 == (0x88 + w) as u8 && w < 2,
    ;
    assert(c2 >> 4 == 8 && c2 >> 2 == 0x22 && c2 & 1 == w && (c2 & 2) >> 1 == 1) by (bit_vector)
        requires
            c2 == (0x8A + w) as u8 && w < 2,
    ;
    assert(m1 >> 6 == 3 && (m1 >> 3) & 7 == a && m1 & 7 == b) by (bit_vector)
        requires
            m1 == (0xC0 + a * 8 + b) as u8 && a < 8 && b < 8,
    ;
    assert(m2 >> 6 == 3 && (m2 >> 3) & 7 == b && m2 & 7 == a) by (bit_vector)
        requires
            m2 == (0xC0 + b * 8 + a) as u8 && a < 8 && b < 8,
    ;
}

/// Little-endian displacements: in the direct-address accumulator MOV the
/// byte right after the opcode is the low byte of the 16-bit displacement
/// and the next one the high byte.
pub proof fn lemma_little_endian_displacement(lo: u8, hi: u8)
    ensures
        ({
            let s = seq![0xA1u8, lo, hi];
            spec_next_op(s, 0) == DecodeOutcome::Op(
                Instruction::Mov(
                    Location::Memory(
                        Memory { reg1: None, reg2: None, displacement: sign16_le(lo, hi) as i16 },
                    ),
                    Location::Register(Register::AX),
                ),
                3,
            )
        }),
{
    let s = seq![0xA1u8, lo, hi];
    assert(s.len() == 3 && s[0] == 0xA1u8 && s[1] == lo && s[2] == hi);
    assert(spec_jump_kind(0xA1u8) is None);
    assert(0xA1u8 >> 4 == 0xA && 0xA1u8 & 1 == 1 && 0xA1u8 >> 1 == 0x50) by (bit_vector);
}

/// Every decode outcome at a legal position stays inside the stream: a
/// decoded instruction occupies one to six bytes, and even a failed attempt
/// consumes at least the byte it choked on and never reads past the end.
pub proof fn lemma_next_op_advances(s: Seq<u8>, pos: int)
    requires
        0 <= pos,
    ensures
        (match spec_next_op(s, pos) {
            DecodeOutcome::Eos => pos >= s.len(),
            DecodeOutcome::Fail(_, p) => pos < p <= s.len(),
            DecodeOutcome::Op(_, p) => pos < p <= s.len() && p - pos <= 6,
        }),
{
    if pos < s.len() {
        let b1 = s[pos];
        assert(b1 & 1 < 2 && (b1 >> 3) & 1 < 2) by (bit_vector);
        if pos + 1 < s.len() {
            let b2 = s[pos + 1];
            assert(b2 >> 6 < 4 && b2 & 7 < 8) by (bit_vector);
        }
    }
}

/// The sequence of instructions decoded from position `pos` to the end of the
/// stream, or the first decode error met on the way.
pub open spec fn spec_decode_all(s: Seq<u8>, pos: int) -> Result<Seq<Instruction>, DecodeError>
    decreases s.len() - pos,
    when 0 <= pos <= s.len()
    via spec_decode_all_decreases
{
    match spec_next_op(s, pos) {
        DecodeOutcome::Eos => Ok(Seq::empty()),
        DecodeOutcome::Fail(e, _) => Err(e),
        DecodeOutcome::Op(i, p) => match spec_decode_all(s, p) {
            Ok(rest) => Ok(seq![i] + rest),
            Err(e) => Err(e),
        },
    }
}

#[via_fn]
proof fn spec_decode_all_decreases(s: Seq<u8>, pos: int) {
    lemma_next_op_advances(s, pos);
}

/// The decoder. It owns the byte source: an in-memory stream together with
/// the current read position, which `jump` can move relative to itself.
pub struct Codec {
    bytes: Vec<u8>,
    pos: usize,
}

impl Codec {
    /// The bytes of the source.
    pub closed spec fn stream(self) -> Seq<u8> {
        self.bytes@
    }

    /// The current read position.
    pub closed spec fn position(self) -> int {
        self.pos as int
    }

    /// The read position never passes the end of the stream.
    pub open spec fn wf(self) -> bool {
        self.position() <= self.stream().len()
    }

    pub fn new(source: Vec<u8>) -> (c: Codec)
        ensures
            c.stream() == source@,
            c.position() == 0,
            c.wf(),
    {
        Codec { bytes: source, pos: 0 }
    }

    /// The current read position, for callers that track consumption.
    pub fn stream_position(&self) -> (r: usize)
        ensures
            r as int == self.position(),
    {
        self.pos
    }

    /// Read one byte and advance; `None` at end of stream, without moving.
    pub fn get_byte(&mut self) -> (r: Option<u8>)
        ensures
            final(self).stream() == old(self).stream(),
            (if old(self).position() < old(self).stream().len() {
                r == Some(old(self).stream()[old(self).position()]) && final(self).position()
                    == old(self).position() + 1
            } else {
                r is None && *final(self) == *old(self)
            }),
    {
        if self.pos < self.bytes.len() {
            let b = self.bytes[self.pos];
            self.pos = self.pos + 1;
            Some(b)
        } else {
            None
        }
    }

    /// Read two bytes and advance; `None` when fewer than two remain, without
    /// moving.
    pub fn load_two(&mut self) -> (r: Option<(u8, u8)>)
        ensures
            final(self).stream() == old(self).stream(),
            (if old(self).position() + 2 <= old(self).stream().len() {
                r == Some(
                    (
                        old(self).stream()[old(self).position()],
                        old(self).stream()[old(self).position() + 1],
                    ),
                ) && final(self).position() == old(self).position() + 2
            } else {
                r is None && *final(self) == *old(self)
            }),
    {
        let n = self.bytes.len();
        if self.pos < n && self.pos + 1 < n {
            let lo = self.bytes[self.pos];
            let hi = self.bytes[self.pos + 1];
            self.pos = self.pos + 2;
            Some((lo, hi))
        } else {
            None
        }
    }

    /// Move the read position by a signed byte offset, relative to the
    /// current position. Seeking past the end parks the position at the end
    /// of the stream; seeking before the start fails and leaves the position
    /// unchanged.
    pub fn jump(&mut self, offset: i8) -> (r: bool)
        requires
            old(self).wf(),
        ensures
            final(self).stream() == old(self).stream(),
            final(self).wf(),
            (if old(self).position() + offset < 0 {
                !r && *final(self) == *old(self)
            } else {
                r && final(self).position() == (if old(self).position() + offset
                    <= old(self).stream().len() {
                    old(self).position() + offset
                } else {
                    old(self).stream().len() as int
                })
            }),
    {
        if offset >= 0 {
            let step = offset as usize;
            let room = self.bytes.len() - self.pos;
            if step <= room {
                self.pos = self.pos + step;
            } else {
                self.pos = self.bytes.len();
            }
            true
        } else {
            let back = (-(offset as i32)) as usize;
            if back <= self.pos {
                self.pos = self.pos - back;
                true
            } else {
                false
            }
        }
    }

    /// Read the displacement of an accumulator or immediate form: one
    /// sign-extended byte for `w = 0`, a little-endian word for `w = 1`.
    fn generate_displacement_value(&mut self, w: u8) -> (r: Result<i16, DecodeError>)
        requires
            w < 2,
        ensures
            final(self).stream() == old(self).stream(),
            ({
                let s = old(self).stream();
                let p = old(self).position();
                if p + 1 + w <= s.len() {
                    r matches Ok(d) && d as int == (if w == 1 {
                        sign16_le(s[p], s[p + 1])
                    } else {
                        sign8(s[p])
                    }) && final(self).position() == p + 1 + w
                } else {
                    r == Err::<i16, DecodeError>(DecodeError::TruncatedInstruction) && *final(self)
                        == *old(self)
                }
            }),
    {
        if w == 1 {
            match self.load_two() {
                Some((lo, hi)) => Ok(to_i16_le(lo, hi)),
                None => Err(DecodeError::TruncatedInstruction),
            }
        } else {
            match self.get_byte() {
                Some(b) => Ok(to_i16_sign_extend(b)),
                None => Err(DecodeError::TruncatedInstruction),
            }
        }
    }

    /// Read an untagged immediate of one or two bytes per `w`.
    fn get_immediate_data(&mut self, w: u8) -> (r: Result<Immediate, DecodeError>)
        requires
            w < 2,
        ensures
            final(self).stream() == old(self).stream(),
            ({
                let s = old(self).stream();
                let p = old(self).position();
                if p + 1 + w <= s.len() {
                    r matches Ok(imm) && imm.w is None && imm.data as int == (if w == 1 {
                        sign16_le(s[p], s[p + 1])
                    } else {
                        sign8(s[p])
                    }) && final(self).position() == p + 1 + w
                } else {
                    r == Err::<Immediate, DecodeError>(DecodeError::TruncatedInstruction) && *final(self) == *old(self)
                }
            }),
    {
        let data = match self.generate_displacement_value(w) {
            Ok(d) => d,
            Err(e) => {
                return Err(e);
            },
        };
        Ok(Immediate::new(data, None))
    }

    /// Form the memory operand of a `mod`/`r/m` pair, reading the
    /// displacement bytes that `mod` demands.
    fn get_memory_location(&mut self, rm: u8, md: u8) -> (r: Result<Memory, DecodeError>)
        requires
            old(self).wf(),
            rm < 8,
            md < 4,
        ensures
            final(self).stream() == old(self).stream(),
            ({
                let s = old(self).stream();
                let p = old(self).position();
                if p + spec_disp_len(md, rm) <= s.len() {
                    r == Ok::<Memory, DecodeError>(spec_mem_operand(s, p, md, rm)) && final(self).position() == p + spec_disp_len(md, rm)
                } else {
                    r == Err::<Memory, DecodeError>(DecodeError::TruncatedInstruction) && *final(self) == *old(self)
                }
            }),
    {
        let displacement: i16;
        if md == 2 || (md == 0 && rm == 6) {
            match self.load_two() {
                Some((lo, hi)) => {
                    displacement = to_i16_le(lo, hi);
                },
                None => {
                    return Err(DecodeError::TruncatedInstruction);
                },
            }
        } else if md == 1 {
            match self.get_byte() {
                Some(b) => {
                    displacement = to_i16_sign_extend(b);
                },
                None => {
                    return Err(DecodeError::TruncatedInstruction);
                },
            }
        } else {
            displacement = 0;
        }
        let (reg1, reg2): (Option<Register>, Option<Register>) = if rm == 6 && md == 0 {
            (None, None)
        } else if rm == 0 {
            (Some(Register::BX), Some(Register::SI))
        } else if rm == 1 {
            (Some(Register::BX), Some(Register::DI))
        } else if rm == 2 {
            (Some(Register::BP), Some(Register::SI))
        } else if rm == 3 {
            (Some(Register::BP), Some(Register::DI))
        } else if rm == 4 {
            (Some(Register::SI), None)
        } else if rm == 5 {
            (Some(Register::DI), None)
        } else if rm == 6 {
            (Some(Register::BP), None)
        } else {
            (Some(Register::BX), None)
        };
        Ok(Memory::new(reg1, reg2, displacement))
    }

    /// Decode the `mod reg r/m` byte and displacement of a register/memory
    /// form into its `(source, destination)` pair.
    fn decode_register_to_memory_locations(&mut self, b1: u8) -> (r: Result<
        (Location, Location),
        DecodeError,
    >)
        requires
            old(self).wf(),
        ensures
            final(self).stream() == old(self).stream(),
            ({
                let s = old(self).stream();
                let p = old(self).position();
                if p + 1 <= s.len() {
                    let b2 = s[p];
                    if p + 1 + spec_disp_len(b2 >> 6, b2 & 7) <= s.len() {
                        r == Ok::<(Location, Location), DecodeError>(
                            spec_rm_operands(s, p + 1, b2, (b1 & 2) >> 1, b1 & 1),
                        ) && final(self).position() == p + 1 + spec_disp_len(b2 >> 6, b2 & 7)
                    } else {
                        r == Err::<(Location, Location), DecodeError>(
                            DecodeError::TruncatedInstruction,
                        ) && final(self).position() == p + 1
                    }
                } else {
                    r == Err::<(Location, Location), DecodeError>(
                        DecodeError::TruncatedInstruction,
                    ) && *final(self) == *old(self)
                }
            }),
    {
        let b2 = match self.get_byte() {
            Some(b) => b,
            None => {
                return Err(DecodeError::TruncatedInstruction);
            },
        };
        let d = (b1 & 2) >> 1;
        let w = b1 & 1;
        let md = b2 >> 6;
        let reg = (b2 >> 3) & 7;
        let rm = b2 & 7;
        proof {
            lemma_u8_fields(b1);
            lemma_u8_fields(b2);
        }
        if md == 3 {
            let r1 = Location::Register(Register::new(reg, w));
            let r2 = Location::Register(Register::new(rm, w));
            if d == 1 {
                Ok((r2, r1))
            } else {
                Ok((r1, r2))
            }
        } else {
            let r1 = Location::Register(Register::new(reg, w));
            let m = match self.get_memory_location(rm, md) {
                Ok(m) => m,
                Err(e) => {
                    return Err(e);
                },
            };
            let r2 = Location::Memory(m);
            if d == 1 {
                Ok((r2, r1))
            } else {
                Ok((r1, r2))
            }
        }
    }

    /// Decode immediate-to-register MOV (`1011 w reg`).
    fn decode_immediate_to_register(&mut self, b1: u8) -> (r: Result<Instruction, DecodeError>)
        requires
            old(self).wf(),
        ensures
            final(self).stream() == old(self).stream(),
            final(self).wf(),
            (match spec_decode_imm_to_reg(old(self).stream(), old(self).position(), b1) {
                DecodeOutcome::Op(i, p) => r == Ok::<Instruction, DecodeError>(i) && final(self).position() == p,
                DecodeOutcome::Fail(e, p) => r == Err::<Instruction, DecodeError>(e) && final(self).position() == p,
                DecodeOutcome::Eos => false,
            }),
    {
        proof {
            lemma_u8_fields(b1);
        }
        let w = (b1 >> 3) & 1;
        let reg = Register::new(b1 & 7, w);
        let immediate = match self.get_immediate_data(w) {
            Ok(imm) => imm,
            Err(e) => {
                return Err(e);
            },
        };
        Ok(Instruction::Mov(Location::Immediate(immediate), Location::Register(reg)))
    }

    /// Decode register/memory MOV (the non-arithmetic `0x8` prefix forms).
    fn decode_register_to_memory(&mut self, b1: u8) -> (r: Result<Instruction, DecodeError>)
        requires
            old(self).wf(),
        ensures
            final(self).stream() == old(self).stream(),
            final(self).wf(),
            (match spec_decode_rm_mov(old(self).stream(), old(self).position(), b1) {
                DecodeOutcome::Op(i, p) => r == Ok::<Instruction, DecodeError>(i) && final(self).position() == p,
                DecodeOutcome::Fail(e, p) => r == Err::<Instruction, DecodeError>(e) && final(self).position() == p,
                DecodeOutcome::Eos => false,
            }),
    {
        let (l1, l2) = match self.decode_register_to_memory_locations(b1) {
            Ok(pair) => pair,
            Err(e) => {
                return Err(e);
            },
        };
        Ok(Instruction::Mov(l1, l2))
    }

    /// Decode the arithmetic register/memory forms; bits 5..3 of the opcode
    /// byte select the operation.
    fn decode_arithmetic_register_memory(&mut self, b1: u8) -> (r: Result<
        Instruction,
        DecodeError,
    >)
        requires
            old(self).wf(),
        ensures
            final(self).stream() == old(self).stream(),
            final(self).wf(),
            (match spec_decode_arith_rm(old(self).stream(), old(self).position(), b1) {
                DecodeOutcome::Op(i, p) => r == Ok::<Instruction, DecodeError>(i) && final(self).position() == p,
                DecodeOutcome::Fail(e, p) => r == Err::<Instruction, DecodeError>(e) && final(self).position() == p,
                DecodeOutcome::Eos => false,
            }),
    {
        let (l1, l2) = match self.decode_register_to_memory_locations(b1) {
            Ok(pair) => pair,
            Err(e) => {
                return Err(e);
            },
        };
        let arithmetic_opcode = (b1 >> 3) & 7;
        match arith_instruction(arithmetic_opcode, l1, l2) {
            Some(i) => Ok(i),
            None => Err(DecodeError::UnsupportedOpcode),
        }
    }

    /// Decode arithmetic immediate-to-r/m (`100000 s w`); the operation lives
    /// in the middle field of the second byte.
    fn decode_arithmetic_immediate_to_register_memory(&mut self, b1: u8) -> (r: Result<
        Instruction,
        DecodeError,
    >)
        requires
            old(self).wf(),
        ensures
            final(self).stream() == old(self).stream(),
            final(self).wf(),
            (match spec_decode_arith_imm_rm(old(self).stream(), old(self).position(), b1) {
                DecodeOutcome::Op(i, p) => r == Ok::<Instruction, DecodeError>(i) && final(self).position() == p,
                DecodeOutcome::Fail(e, p) => r == Err::<Instruction, DecodeError>(e) && final(self).position() == p,
                DecodeOutcome::Eos => false,
            }),
    {
        let w: u8 = if b1 & 3 == 1 {
            1
        } else {
            0
        };
        let b2 = match self.get_byte() {
            Some(b) => b,
            None => {
                return Err(DecodeError::TruncatedInstruction);
            },
        };
        let md = b2 >> 6;
        let rm = b2 & 7;
        proof {
            lemma_u8_fields(b1);
            lemma_u8_fields(b2);
        }
        let destination = if md == 3 {
            Location::Register(Register::new(rm, b1 & 1))
        } else {
            match self.get_memory_location(rm, md) {
                Ok(m) => Location::Memory(m),
                Err(e) => {
                    return Err(e);
                },
            }
        };
        let mut data = match self.get_immediate_data(w) {
            Ok(imm) => imm,
            Err(e) => {
                return Err(e);
            },
        };
        if md != 3 {
            data.set_w(Some(b1 & 1));
        }
        let immediate = Location::Immediate(data);
        let arithmetic_opcode = (b2 >> 3) & 7;
        match arith_instruction(arithmetic_opcode, immediate, destination) {
            Some(i) => Ok(i),
            None => Err(DecodeError::UnsupportedOpcode),
        }
    }

    /// Decode immediate-to-r/m MOV (prefix `0xC`).
    fn decode_immediate_to_register_memory(&mut self, b1: u8) -> (r: Result<
        Instruction,
        DecodeError,
    >)
        requires
            old(self).wf(),
        ensures
            final(self).stream() == old(self).stream(),
            final(self).wf(),
            (match spec_decode_imm_to_rm(old(self).stream(), old(self).position(), b1) {
                DecodeOutcome::Op(i, p) => r == Ok::<Instruction, DecodeError>(i) && final(self).position() == p,
                DecodeOutcome::Fail(e, p) => r == Err::<Instruction, DecodeError>(e) && final(self).position() == p,
                DecodeOutcome::Eos => false,
            }),
    {
        let w = b1 & 1;
        let b2 = match self.get_byte() {
            Some(b) => b,
            None => {
                return Err(DecodeError::TruncatedInstruction);
            },
        };
        let md = b2 >> 6;
        let rm = b2 & 7;
        proof {
            lemma_u8_fields(b1);
            lemma_u8_fields(b2);
        }
        if md == 3 {
            let reg = Register::new(rm, w);
            let immediate = match self.get_immediate_data(w) {
                Ok(imm) => imm,
                Err(e) => {
                    return Err(e);
                },
            };
            Ok(Instruction::Mov(Location::Immediate(immediate), Location::Register(reg)))
        } else {
            let memory = match self.get_memory_location(rm, md) {
                Ok(m) => m,
                Err(e) => {
                    return Err(e);
                },
            };
            let mut immediate = match self.get_immediate_data(w) {
                Ok(imm) => imm,
                Err(e) => {
                    return Err(e);
                },
            };
            immediate.set_w(Some(w));
            Ok(Instruction::Mov(Location::Immediate(immediate), Location::Memory(memory)))
        }
    }

    /// Decode accumulator direct-address MOV (prefix `0xA`).
    fn decode_accumulator(&mut self, b1: u8) -> (r: Result<Instruction, DecodeError>)
        requires
            old(self).wf(),
        ensures
            final(self).stream() == old(self).stream(),
            final(self).wf(),
            (match spec_decode_acc_mov(old(self).stream(), old(self).position(), b1) {
                DecodeOutcome::Op(i, p) => r == Ok::<Instruction, DecodeError>(i) && final(self).position() == p,
                DecodeOutcome::Fail(e, p) => r == Err::<Instruction, DecodeError>(e) && final(self).position() == p,
                DecodeOutcome::Eos => false,
            }),
    {
        proof {
            lemma_u8_fields(b1);
        }
        let opcode = b1 >> 1;
        let w = b1 & 1;
        let displacement = match self.generate_displacement_value(w) {
            Ok(d) => d,
            Err(e) => {
                return Err(e);
            },
        };
        let memory = Location::Memory(Memory::new(None, None, displacement));
        let reg = Location::Register(
            if w == 1 {
                Register::AX
            } else {
                Register::AL
            },
        );
        if opcode == 0x50 {
            Ok(Instruction::Mov(memory, reg))
        } else {
            Ok(Instruction::Mov(reg, memory))
        }
    }

    /// Decode arithmetic immediate-to-accumulator; bits 5..3 of the opcode
    /// byte select the operation.
    fn decode_arithmetic_immediate_to_accumulator(&mut self, b1: u8) -> (r: Result<
        Instruction,
        DecodeError,
    >)
        requires
            old(self).wf(),
        ensures
            final(self).stream() == old(self).stream(),
            final(self).wf(),
            (match spec_decode_arith_imm_acc(old(self).stream(), old(self).position(), b1) {
                DecodeOutcome::Op(i, p) => r == Ok::<Instruction, DecodeError>(i) && final(self).position() == p,
                DecodeOutcome::Fail(e, p) => r == Err::<Instruction, DecodeError>(e) && final(self).position() == p,
                DecodeOutcome::Eos => false,
            }),
    {
        proof {
            lemma_u8_fields(b1);
        }
        let w = b1 & 1;
        let immediate = match self.get_immediate_data(w) {
            Ok(imm) => imm,
            Err(e) => {
                return Err(e);
            },
        };
        let src = Location::Immediate(immediate);
        let reg = Location::Register(
            if w == 1 {
                Register::AX
            } else {
                Register::AL
            },
        );
        let arithmetic_opcode = (b1 >> 3) & 7;
        match arith_instruction(arithmetic_opcode, src, reg) {
            Some(i) => Ok(i),
            None => Err(DecodeError::UnsupportedOpcode),
        }
    }

    /// Decode the next instruction. `Ok(None)` is the clean end of the
    /// stream; an error is a malformed opcode or a truncated instruction.
    /// The call consumes exactly the bytes of the one instruction it decodes.
    pub fn next_op(&mut self) -> (r: Result<Option<Instruction>, DecodeError>)
        requires
            old(self).wf(),
        ensures
            final(self).stream() == old(self).stream(),
            final(self).wf(),
            (match spec_next_op(old(self).stream(), old(self).position()) {
                DecodeOutcome::Eos => r == Ok::<Option<Instruction>, DecodeError>(None) && final(self).position() == old(self).position(),
                DecodeOutcome::Fail(e, p) => r == Err::<Option<Instruction>, DecodeError>(e)
                    && final(self).position() == p,
                DecodeOutcome::Op(i, p) => r == Ok::<Option<Instruction>, DecodeError>(Some(i))
                    && final(self).position() == p && old(self).position() < p,
            }),
    {
        let b1 = match self.get_byte() {
            Some(b) => b,
            None => {
                return Ok(None);
            },
        };
        if let Some(kind) = jump_kind(b1) {
            return match self.get_byte() {
                Some(offset) => Ok(Some(Instruction::Jump(kind, to_i8(offset)))),
                None => Err(DecodeError::TruncatedInstruction),
            };
        }
        if b1 == 0x37 {
            return Ok(Some(Instruction::Aaa));
        }
        if b1 == 0x27 {
            return Ok(Some(Instruction::Daa));
        }
        proof {
            lemma_u8_fields(b1);
        }
        let prefix = b1 >> 4;
        let instruction = if prefix == 0xB {
            self.decode_immediate_to_register(b1)
        } else if prefix == 0x8 {
            if b1 >> 2 == 0x20 {
                self.decode_arithmetic_immediate_to_register_memory(b1)
            } else {
                self.decode_register_to_memory(b1)
            }
        } else if prefix == 0xC {
            self.decode_immediate_to_register_memory(b1)
        } else if prefix == 0xA {
            self.decode_accumulator(b1)
        } else if prefix == 0 || prefix == 2 || prefix == 3 {
            if (b1 >> 2) & 1 == 1 {
                self.decode_arithmetic_immediate_to_accumulator(b1)
            } else {
                self.decode_arithmetic_register_memory(b1)
            }
        } else if prefix == 4 {
            if (b1 >> 3) & 1 == 1 {
                Ok(Instruction::Dec(Location::Register(Register::new(b1 & 7, 1)), None))
            } else {
                Ok(Instruction::Inc(Location::Register(Register::new(b1 & 7, 1)), None))
            }
        } else {
            Err(DecodeError::UnsupportedOpcode)
        };
        match instruction {
            Ok(i) => Ok(Some(i)),
            Err(e) => Err(e),
        }
    }
}

impl Codec {
    /// Decode the whole remaining stream into a vector, or report the first
    /// decode error.
    pub fn decode_all(self) -> (r: Result<Vec<Instruction>, DecodeError>)
        requires
            self.wf(),
        ensures
            (match spec_decode_all(self.stream(), self.position()) {
                Ok(instrs) => r matches Ok(v) && v@ == instrs,
                Err(e) => r == Err::<Vec<Instruction>, DecodeError>(e),
            }),
    {
        let ghost s = self.stream();
        let ghost start = self.position();
        let mut codec = self;
        let mut out: Vec<Instruction> = Vec::new();
        loop
            invariant
                s == self.stream(),
                start == self.position(),
                codec.wf(),
                codec.stream() == s,
                0 <= start,
                0 <= codec.position() <= s.len(),
                (match spec_decode_all(s, codec.position()) {
                    Ok(rest) => spec_decode_all(s, start) matches Ok(all) && all == out@ + rest,
                    Err(e) => spec_decode_all(s, start) == Err::<Seq<Instruction>, DecodeError>(e),
                }),
            decreases s.len() - codec.position(),
        {
            let ghost prev = codec.position();
            let ghost prev_out = out@;
            match codec.next_op() {
                Ok(Some(i)) => {
                    out.push(i);
                    proof {
                        match spec_next_op(s, prev) {
                            DecodeOutcome::Op(ii, p) => {
                                match spec_decode_all(s, p) {
                                    Ok(rest) => {
                                        assert(prev_out + seq![ii] + rest =~= prev_out + (seq![ii]
                                            + rest));
                                    },
                                    Err(_) => {},
                                }
                            },
                            _ => {},
                        }
                    }
                },
                Ok(None) => {
                    proof {
                        assert(out@ + Seq::<Instruction>::empty() =~= out@);
                    }
                    return Ok(out);
                },
                Err(e) => {
                    return Err(e);
                },
            }
        }
    }

    /// The lazy instruction sequence: a non-restartable iterator that yields
    /// one decoded instruction per call of `next`.
    pub fn iterate(self) -> (it: InstructionIterator)
        ensures
            it.stream() == self.stream(),
            it.position() == self.position(),
    {
        InstructionIterator { codec: self }
    }
}

/// A lazy, finite, non-restartable sequence of instructions drawn from a
/// decoder by repeated calls of `next`.
pub struct InstructionIterator {
    codec: Codec,
}

impl InstructionIterator {
    /// The bytes of the underlying source.
    pub closed spec fn stream(self) -> Seq<u8> {
        self.codec.stream()
    }

    /// The current read position of the underlying decoder.
    pub closed spec fn position(self) -> int {
        self.codec.position()
    }

    /// The read position never passes the end of the stream.
    pub open spec fn wf(self) -> bool {
        self.position() <= self.stream().len()
    }

    /// The next decoded instruction; `Ok(None)` at the end of the stream.
    pub fn next(&mut self) -> (r: Result<Option<Instruction>, DecodeError>)
        requires
            old(self).wf(),
        ensures
            final(self).stream() == old(self).stream(),
            final(self).wf(),
            (match spec_next_op(old(self).stream(), old(self).position()) {
                DecodeOutcome::Eos => r == Ok::<Option<Instruction>, DecodeError>(None) && final(self).position() == old(self).position(),
                DecodeOutcome::Fail(e, p) => r == Err::<Option<Instruction>, DecodeError>(e)
                    && final(self).position() == p,
                DecodeOutcome::Op(i, p) => r == Ok::<Option<Instruction>, DecodeError>(Some(i))
                    && final(self).position() == p && old(self).position() < p,
            }),
    {
        self.codec.next_op()
    }
}

/// The arithmetic instruction named by a 3-bit opcode field.
fn arith_instruction(bits: u8, src: Location, dst: Location) -> (r: Option<Instruction>)
    ensures
        r == spec_arith_instruction(bits, src, dst),
{
    if bits == 0 {
        Some(Instruction::Add(src, dst))
    } else if bits == 2 {
        Some(Instruction::Adc(src, dst))
    } else if bits == 3 {
        Some(Instruction::Sbb(src, dst))
    } else if bits == 5 {
        Some(Instruction::Sub(src, dst))
    } else if bits == 7 {
        Some(Instruction::Cmp(src, dst))
    } else {
        None
    }
}

/// Bit-level bounds of the opcode and `mod reg r/m` fields.
proof fn lemma_u8_fields(b: u8)
    ensures
        b & 1 < 2,
        (b & 2) >> 1 < 2,
        b & 7 < 8,
        (b >> 3) & 1 < 2,
        (b >> 3) & 7 < 8,
        b >> 6 < 4,
        b >> 4 < 16,
{
    assert(b & 1 < 2 && (b & 2) >> 1 < 2 && b & 7 < 8 && (b >> 3) & 1 < 2 && (b >> 3) & 7 < 8 && b
        >> 6 < 4 && b >> 4 < 16) by (bit_vector);
}

/// The signed 16-bit value stored little-endian as `lo` then `hi`.
fn to_i16_le(lo: u8, hi: u8) -> (r: i16)
    ensures
        r as int == sign16_le(lo, hi),
{
    let word: u32 = (hi as u32) * 256 + (lo as u32);
    if word < 32768 {
        word as i16
    } else {
        ((word as i64) - 65536) as i16
    }
}

/// A byte sign-extended to 16 bits.
fn to_i16_sign_extend(b: u8) -> (r: i16)
    ensures
        r as int == sign8(b),
{
    if b < 128 {
        b as i16
    } else {
        ((b as i32) - 256) as i16
    }
}

/// A byte reinterpreted as a signed 8-bit quantity.
fn to_i8(b: u8) -> (r: i8)
    ensures
        r == spec_as_i8(b),
{
    if b < 128 {
        b as i8
    } else {
        ((b as i32) - 256) as i8
    }
}

/// The short-jump kind of an exact-match opcode byte, if it is one.
fn jump_kind(b: u8) -> (r: Option<JumpType>)
    ensures
        r == spec_jump_kind(b),
{
    if b == 0x74 {
        Some(JumpType::Je)
    } else if b == 0x7C {
        Some(JumpType::Jl)
    } else if b == 0x7E {
        Some(JumpType::Jle)
    } else if b == 0x72 {
        Some(JumpType::Jb)
    } else if b == 0x76 {
        Some(JumpType::Jbe)
    } else if b == 0x7A {
        Some(JumpType::Jp)
    } else if b == 0x70 {
        Some(JumpType::Jo)
    } else if b == 0x78 {
        Some(JumpType::Js)
    } else if b == 0x75 {
        Some(JumpType::Jne)
    } else if b == 0x7D {
        Some(JumpType::Jnl)
    } else if b == 0x7F {
        Some(JumpType::Jnle)
    } else if b == 0x73 {
        Some(JumpType::Jnb)
    } else if b == 0x77 {
        Some(JumpType::Jnbe)
    } else if b == 0x7B {
        Some(JumpType::Jnp)
    } else if b == 0x71 {
        Some(JumpType::Jno)
    } else if b == 0x79 {
        Some(JumpType::Jns)
    } else if b == 0xE2 {
        Some(JumpType::Loop)
    } else if b == 0xE1 {
        Some(JumpType::Loopz)
    } else if b == 0xE0 {
        Some(JumpType::Loopnz)
    } else if b == 0xE3 {
        Some(JumpType::Jcxz)
    } else {
        None
    }
}

} // verus!
