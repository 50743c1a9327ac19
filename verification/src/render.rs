//! Textual rendering of the instruction model: NASM-compatible assembly for
//! each decoded instruction, the disassembly of a whole program, and the
//! register/flag snapshot of the executor.

use vstd::prelude::*;

use crate::cpu::{Cpu, MachineState};
use crate::instruction::{spec_reg, Immediate, Instruction, JumpType, Location, Memory, Register};

verus! {

/// The decimal digit character of `d`.
pub open spec fn spec_digit(d: nat) -> Seq<char> {
    if d == 0 {
        "0"@
    } else if d == 1 {
        "1"@
    } else if d == 2 {
        "2"@
    } else if d == 3 {
        "3"@
    } else if d == 4 {
        "4"@
    } else if d == 5 {
        "5"@
    } else if d == 6 {
        "6"@
    } else if d == 7 {
        "7"@
    } else if d == 8 {
        "8"@
    } else {
        "9"@
    }
}

/// The decimal rendering of `n`, without sign or padding.
pub open spec fn spec_dec_nat(n: nat) -> Seq<char>
    decreases n,
{
    if n < 10 {
        spec_digit(n)
    } else {
        spec_dec_nat(n / 10) + spec_digit(n % 10)
    }
}

/// The decimal rendering of `v`, with a leading minus sign when negative.
pub open spec fn spec_dec_int(v: int) -> Seq<char> {
    if v < 0 {
        "-"@ + spec_dec_nat((-v) as nat)
    } else {
        spec_dec_nat(v as nat)
    }
}

/// The lowercase hexadecimal digit character of `d`.
pub open spec fn spec_hex_digit(d: nat) -> Seq<char> {
    if d == 10 {
        "a"@
    } else if d == 11 {
        "b"@
    } else if d == 12 {
        "c"@
    } else if d == 13 {
        "d"@
    } else if d == 14 {
        "e"@
    } else if d == 15 {
        "f"@
    } else {
        spec_digit(d)
    }
}

/// The hexadecimal rendering of `n`, without prefix or padding.
pub open spec fn spec_hex_nat(n: nat) -> Seq<char>
    decreases n,
{
    if n < 16 {
        spec_hex_digit(n)
    } else {
        spec_hex_nat(n / 16) + spec_hex_digit(n % 16)
    }
}

/// A register cell in the snapshot: `0x` and at least two hexadecimal digits.
pub open spec fn spec_hex_cell(v: u16) -> Seq<char> {
    if v < 16 {
        "0x0"@ + spec_hex_nat(v as nat)
    } else {
        "0x"@ + spec_hex_nat(v as nat)
    }
}

/// The decimal digit character of `d`, as a string slice.
fn digit_str(d: u32) -> (r: &'static str)
    requires
        d < 10,
    ensures
        r@ == spec_digit(d as nat),
{
    if d == 0 {
        "0"
    } else if d == 1 {
        "1"
    } else if d == 2 {
        "2"
    } else if d == 3 {
        "3"
    } else if d == 4 {
        "4"
    } else if d == 5 {
        "5"
    } else if d == 6 {
        "6"
    } else if d == 7 {
        "7"
    } else if d == 8 {
        "8"
    } else {
        "9"
    }
}

/// The lowercase hexadecimal digit character of `d`, as a string slice.
fn hex_digit_str(d: u32) -> (r: &'static str)
    requires
        d < 16,
    ensures
        r@ == spec_hex_digit(d as nat),
{
    if d == 10 {
        "a"
    } else if d == 11 {
        "b"
    } else if d == 12 {
        "c"
    } else if d == 13 {
        "d"
    } else if d == 14 {
        "e"
    } else if d == 15 {
        "f"
    } else {
        digit_str(d)
    }
}

/// Append the decimal rendering of `n`.
fn push_dec(out: &mut String, n: u64)
    ensures
        final(out)@ == old(out)@ + spec_dec_nat(n as nat),
    decreases n,
{
    if n >= 10 {
        push_dec(out, n / 10);
        out.append(digit_str((n % 10) as u32));
        proof {
            assert(final(out)@ =~= old(out)@ + spec_dec_nat(n as nat));
        }
    } else {
        out.append(digit_str(n as u32));
    }
}

/// Append the decimal rendering of `v`, sign included.
fn push_dec_signed(out: &mut String, v: i32)
    requires
        v > i32::MIN,
    ensures
        final(out)@ == old(out)@ + spec_dec_int(v as int),
    decreases v,
{
    if v < 0 {
        out.append("-");
        push_dec(out, (-v) as u64);
        proof {
            assert(final(out)@ =~= old(out)@ + spec_dec_int(v as int));
        }
    } else {
        push_dec(out, v as u64);
    }
}

/// Append the hexadecimal rendering of `n`.
fn push_hex(out: &mut String, n: u32)
    ensures
        final(out)@ == old(out)@ + spec_hex_nat(n as nat),
    decreases n,
{
    if n >= 16 {
        push_hex(out, n / 16);
        out.append(hex_digit_str(n % 16));
        proof {
            assert(final(out)@ =~= old(out)@ + spec_hex_nat(n as nat));
        }
    } else {
        out.append(hex_digit_str(n));
    }
}

/// Append a register cell as `0x` plus at least two hexadecimal digits.
fn push_hex_cell(out: &mut String, v: u16)
    ensures
        final(out)@ == old(out)@ + spec_hex_cell(v),
{
    if v < 16 {
        out.append("0x0");
    } else {
        out.append("0x");
    }
    push_hex(out, v as u32);
    proof {
        assert(final(out)@ =~= old(out)@ + spec_hex_cell(v));
    }
}

impl Register {
    /// The canonical two-letter mnemonic of the register.
    pub open spec fn spec_mnemonic(self) -> Seq<char> {
        match self {
            Register::AL => "al"@,
            Register::CL => "cl"@,
            Register::DL => "dl"@,
            Register::BL => "bl"@,
            Register::AH => "ah"@,
            Register::CH => "ch"@,
            Register::DH => "dh"@,
            Register::BH => "bh"@,
            Register::AX => "ax"@,
            Register::CX => "cx"@,
            Register::DX => "dx"@,
            Register::BX => "bx"@,
            Register::SP => "sp"@,
            Register::BP => "bp"@,
            Register::SI => "si"@,
            Register::DI => "di"@,
            Register::SS => "ss"@,
            Register::DS => "ds"@,
            Register::ES => "es"@,
        }
    }

    /// The canonical two-letter mnemonic of the register.
    pub fn mnemonic(&self) -> (r: &'static str)
        ensures
            r@ == self.spec_mnemonic(),
    {
        match self {
            Register::AL => "al",
            Register::CL => "cl",
            Register::DL => "dl",
            Register::BL => "bl",
            Register::AH => "ah",
            Register::CH => "ch",
            Register::DH => "dh",
            Register::BH => "bh",
            Register::AX => "ax",
            Register::CX => "cx",
            Register::DX => "dx",
            Register::BX => "bx",
            Register::SP => "sp",
            Register::BP => "bp",
            Register::SI => "si",
            Register::DI => "di",
            Register::SS => "ss",
            Register::DS => "ds",
            Register::ES => "es",
        }
    }
}

/// The register table round-trip: for every register code and `w` bit, the
/// register the decoder selects renders to the mnemonic the 8086 REG table
/// prescribes.
pub proof fn lemma_register_table(code: u8, w: u8)
    requires
        code < 8,
        w < 2,
    ensures
        spec_reg(code, w).spec_mnemonic() == (if w == 0 {
            if code == 0 {
                "al"@
            } else if code == 1 {
                "cl"@
            } else if code == 2 {
                "dl"@
            } else if code == 3 {
                "bl"@
            } else if code == 4 {
                "ah"@
            } else if code == 5 {
                "ch"@
            } else if code == 6 {
                "dh"@
            } else {
                "bh"@
            }
        } else {
            if code == 0 {
                "ax"@
            } else if code == 1 {
                "cx"@
            } else if code == 2 {
                "dx"@
            } else if code == 3 {
                "bx"@
            } else if code == 4 {
                "sp"@
            } else if code == 5 {
                "bp"@
            } else if code == 6 {
                "si"@
            } else {
                "di"@
            }
        }),
{
}

impl JumpType {
    /// The mnemonic of the jump kind.
    pub open spec fn spec_mnemonic(self) -> Seq<char> {
        match self {
            JumpType::Je => "je"@,
            JumpType::Jl => "jl"@,
            JumpType::Jle => "jle"@,
            JumpType::Jb => "jb"@,
            JumpType::Jbe => "jbe"@,
            JumpType::Jp => "jp"@,
            JumpType::Jo => "jo"@,
            JumpType::Js => "js"@,
            JumpType::Jne => "jne"@,
            JumpType::Jnl => "jnl"@,
            JumpType::Jnle => "jnle"@,
            JumpType::Jnb => "jnb"@,
            JumpType::Jnbe => "jnbe"@,
            JumpType::Jnp => "jnp"@,
            JumpType::Jno => "jno"@,
            JumpType::Jns => "jns"@,
            JumpType::Loop => "loop"@,
            JumpType::Loopz => "loopz"@,
            JumpType::Loopnz => "loopnz"@,
            JumpType::Jcxz => "jcxz"@,
        }
    }

    /// The mnemonic of the jump kind.
    pub fn mnemonic(&self) -> (r: &'static str)
        ensures
            r@ == self.spec_mnemonic(),
    {
        match self {
            JumpType::Je => "je",
            JumpType::Jl => "jl",
            JumpType::Jle => "jle",
            JumpType::Jb => "jb",
            JumpType::Jbe => "jbe",
            JumpType::Jp => "jp",
            JumpType::Jo => "jo",
            JumpType::Js => "js",
            JumpType::Jne => "jne",
            JumpType::Jnl => "jnl",
            JumpType::Jnle => "jnle",
            JumpType::Jnb => "jnb",
            JumpType::Jnbe => "jnbe",
            JumpType::Jnp => "jnp",
            JumpType::Jno => "jno",
            JumpType::Jns => "jns",
            JumpType::Loop => "loop",
            JumpType::Loopz => "loopz",
            JumpType::Loopnz => "loopnz",
            JumpType::Jcxz => "jcxz",
        }
    }
}

impl Memory {
    /// The effective-address text: `[r1 + r2 + disp]` with zero terms
    /// omitted and `-` for negative displacements; a bare displacement is a
    /// direct address.
    pub open spec fn spec_render(self) -> Seq<char> {
        match (self.reg1, self.reg2) {
            (Some(r1), Some(r2)) => {
                let base = "["@ + r1.spec_mnemonic() + " + "@ + r2.spec_mnemonic();
                if self.displacement == 0 {
                    base + "]"@
                } else if self.displacement > 0 {
                    base + " + "@ + spec_dec_nat(self.displacement as nat) + "]"@
                } else {
                    base + " - "@ + spec_dec_nat((-(self.displacement as int)) as nat) + "]"@
                }
            },
            (Some(r1), None) => {
                let base = "["@ + r1.spec_mnemonic();
                if self.displacement == 0 {
                    base + "]"@
                } else if self.displacement > 0 {
                    base + " + "@ + spec_dec_nat(self.displacement as nat) + "]"@
                } else {
                    base + " - "@ + spec_dec_nat((-(self.displacement as int)) as nat) + "]"@
                }
            },
            _ => "["@ + spec_dec_int(self.displacement as int) + "]"@,
        }
    }

    /// The effective-address text.
    pub fn render(&self) -> (r: String)
        ensures
            r@ == self.spec_render(),
    {
        let mut out = String::new();
        match (self.reg1, self.reg2) {
            (Some(r1), Some(r2)) => {
                out.append("[");
                out.append(r1.mnemonic());
                out.append(" + ");
                out.append(r2.mnemonic());
                self.push_displacement_tail(&mut out);
            },
            (Some(r1), None) => {
                out.append("[");
                out.append(r1.mnemonic());
                self.push_displacement_tail(&mut out);
            },
            _ => {
                out.append("[");
                push_dec_signed(&mut out, self.displacement as i32);
                out.append("]");
            },
        }
        proof {
            assert(out@ =~= self.spec_render());
        }
        out
    }

    /// Append ` + d]`, ` - d]` or the bare `]` of a zero displacement.
    fn push_displacement_tail(&self, out: &mut String)
        ensures
            final(out)@ == old(out)@ + (if self.displacement == 0 {
                "]"@
            } else if self.displacement > 0 {
                " + "@ + spec_dec_nat(self.displacement as nat) + "]"@
            } else {
                " - "@ + spec_dec_nat((-(self.displacement as int)) as nat) + "]"@
            }),
    {
        if self.displacement == 0 {
            out.append("]");
        } else if self.displacement > 0 {
            out.append(" + ");
            push_dec(out, self.displacement as u64);
            out.append("]");
        } else {
            out.append(" - ");
            push_dec(out, (-(self.displacement as i32)) as u64);
            out.append("]");
        }
        proof {
            assert(final(out)@ =~= old(out)@ + (if self.displacement == 0 {
                "]"@
            } else if self.displacement > 0 {
                " + "@ + spec_dec_nat(self.displacement as nat) + "]"@
            } else {
                " - "@ + spec_dec_nat((-(self.displacement as int)) as nat) + "]"@
            }));
        }
    }
}

impl Immediate {
    /// The immediate text: the signed decimal value, preceded by its width
    /// keyword when the width tag is present.
    pub open spec fn spec_render(self) -> Seq<char> {
        match self.w {
            Some(wv) => (if wv == 1 {
                "word "@
            } else {
                "byte "@
            }) + spec_dec_int(self.data as int),
            None => spec_dec_int(self.data as int),
        }
    }

    /// The immediate text.
    pub fn render(&self) -> (r: String)
        ensures
            r@ == self.spec_render(),
    {
        let mut out = String::new();
        match self.w {
            Some(wv) => {
                if wv == 1 {
                    out.append("word ");
                } else {
                    out.append("byte ");
                }
                push_dec_signed(&mut out, self.data as i32);
            },
            None => {
                push_dec_signed(&mut out, self.data as i32);
            },
        }
        proof {
            assert(out@ =~= self.spec_render());
        }
        out
    }
}

impl Location {
    /// The operand text.
    pub open spec fn spec_render(self) -> Seq<char> {
        match self {
            Location::Register(r) => r.spec_mnemonic(),
            Location::Memory(m) => m.spec_render(),
            Location::Immediate(imm) => imm.spec_render(),
        }
    }

    /// The operand text.
    pub fn render(&self) -> (r: String)
        ensures
            r@ == self.spec_render(),
    {
        match self {
            Location::Register(reg) => String::from_str(reg.mnemonic()),
            Location::Memory(m) => m.render(),
            Location::Immediate(imm) => imm.render(),
        }
    }
}

impl Instruction {
    /// The assembly text of the instruction, in Intel operand order
    /// (destination first). A jump renders as `<mnemonic> label_<label> ;
    /// <offset>`, with the label number supplied by the caller's emission
    /// context.
    pub open spec fn spec_render(self, label: nat) -> Seq<char> {
        match self {
            Instruction::Mov(src, dst) => "mov "@ + dst.spec_render() + ", "@ + src.spec_render(),
            Instruction::Add(src, dst) => "add "@ + dst.spec_render() + ", "@ + src.spec_render(),
            Instruction::Adc(src, dst) => "adc "@ + dst.spec_render() + ", "@ + src.spec_render(),
            Instruction::Sbb(src, dst) => "sbb "@ + dst.spec_render() + ", "@ + src.spec_render(),
            Instruction::Sub(src, dst) => "sub "@ + dst.spec_render() + ", "@ + src.spec_render(),
            Instruction::Cmp(src, dst) => "cmp "@ + dst.spec_render() + ", "@ + src.spec_render(),
            Instruction::Jump(kind, offset) => kind.spec_mnemonic() + " label_"@ + spec_dec_nat(
                label,
            ) + " ; "@ + spec_dec_int(offset as int),
            Instruction::Daa => "daa"@,
            Instruction::Aaa => "aaa"@,
            Instruction::Inc(dst, amount) => match amount {
                Some(a) => "inc "@ + dst.spec_render() + ", "@ + spec_dec_nat(a as nat),
                None => "inc "@ + dst.spec_render(),
            },
            Instruction::Dec(dst, amount) => match amount {
                Some(a) => "dec "@ + dst.spec_render() + ", "@ + spec_dec_nat(a as nat),
                None => "dec "@ + dst.spec_render(),
            },
        }
    }

    /// The assembly text of the instruction.
    pub fn render(&self, label: u64) -> (r: String)
        ensures
            r@ == self.spec_render(label as nat),
    {
        let out = match self {
            Instruction::Mov(src, dst) => render_two_operands("mov ", src, dst),
            Instruction::Add(src, dst) => render_two_operands("add ", src, dst),
            Instruction::Adc(src, dst) => render_two_operands("adc ", src, dst),
            Instruction::Sbb(src, dst) => render_two_operands("sbb ", src, dst),
            Instruction::Cmp(src, dst) => render_two_operands("cmp ", src, dst),
            Instruction::Sub(src, dst) => render_two_operands("sub ", src, dst),
            Instruction::Jump(kind, offset) => {
                let mut out = String::from_str(kind.mnemonic());
                out.append(" label_");
                push_dec(&mut out, label);
                out.append(" ; ");
                push_dec_signed(&mut out, *offset as i32);
                out
            },
            Instruction::Daa => String::from_str("daa"),
            Instruction::Aaa => String::from_str("aaa"),
            Instruction::Inc(dst, amount) => render_count_operand("inc ", dst, amount),
            Instruction::Dec(dst, amount) => render_count_operand("dec ", dst, amount),
        };
        proof {
            assert(out@ =~= self.spec_render(label as nat));
        }
        out
    }
}

/// `<mnemonic> <destination>, <source>`.
fn render_two_operands(mnemonic: &str, src: &Location, dst: &Location) -> (r: String)
    ensures
        r@ == mnemonic@ + dst.spec_render() + ", "@ + src.spec_render(),
{
    let mut out = String::from_str(mnemonic);
    let dst_text = dst.render();
    out.append(dst_text.as_str());
    out.append(", ");
    let src_text = src.render();
    out.append(src_text.as_str());
    proof {
        assert(out@ =~= mnemonic@ + dst.spec_render() + ", "@ + src.spec_render());
    }
    out
}

/// `<mnemonic> <destination>` with an optional trailing count.
fn render_count_operand(mnemonic: &str, dst: &Location, amount: &Option<u8>) -> (r: String)
    ensures
        r@ == (match amount {
            Some(a) => mnemonic@ + dst.spec_render() + ", "@ + spec_dec_nat(*a as nat),
            None => mnemonic@ + dst.spec_render(),
        }),
{
    let mut out = String::from_str(mnemonic);
    let dst_text = dst.render();
    out.append(dst_text.as_str());
    match amount {
        Some(a) => {
            out.append(", ");
            push_dec(&mut out, *a as u64);
        },
        None => {},
    }
    proof {
        assert(out@ =~= (match amount {
            Some(a) => mnemonic@ + dst.spec_render() + ", "@ + spec_dec_nat(*a as nat),
            None => mnemonic@ + dst.spec_render(),
        }));
    }
    out
}

/// Whether an instruction is a short jump, for the label counter.
pub open spec fn spec_is_jump(i: Instruction) -> bool {
    i matches Instruction::Jump(_, _)
}

/// The disassembly lines of a program, one instruction per line, with the
/// label counter threaded through: each jump draws the next number.
pub open spec fn spec_disassembly_lines(instrs: Seq<Instruction>, label: nat) -> Seq<char>
    decreases instrs.len(),
{
    if instrs.len() == 0 {
        Seq::empty()
    } else {
        let next_label: nat = if spec_is_jump(instrs[0]) {
            label + 1
        } else {
            label
        };
        instrs[0].spec_render(next_label) + "\n"@ + spec_disassembly_lines(
            instrs.drop_first(),
            next_label,
        )
    }
}

/// The whole disassembly: the `bits 16` header, then one line per
/// instruction. The label counter starts at zero and each jump takes the
/// next number; the numbers do not correspond to real branch targets, they
/// only keep the output parseable.
pub open spec fn spec_disassembly(instrs: Seq<Instruction>) -> Seq<char> {
    "bits 16\n"@ + spec_disassembly_lines(instrs, 0)
}

/// Render a whole program as NASM-compatible text.
pub fn disassemble(instructions: &Vec<Instruction>) -> (r: String)
    ensures
        r@ == spec_disassembly(instructions@),
{
    let mut out = String::from_str("bits 16\n");
    let mut label: u64 = 0;
    let mut i: usize = 0;
    proof {
        assert(instructions@.skip(0) =~= instructions@);
    }
    while i < instructions.len()
        invariant
            i <= instructions.len(),
            label <= i,
            out@ + spec_disassembly_lines(instructions@.skip(i as int), label as nat)
                == spec_disassembly(instructions@),
        decreases instructions.len() - i,
    {
        let ghost prev_out = out@;
        let ghost prev_label = label as nat;
        let instruction = &instructions[i];
        if matches!(instruction, Instruction::Jump(_, _)) {
            label = label + 1;
        }
        let line = instruction.render(label);
        out.append(line.as_str());
        out.append("\n");
        i = i + 1;
        proof {
            let rest = instructions@.skip(i - 1);
            assert(rest[0] == instructions@[i - 1]);
            assert(rest.drop_first() =~= instructions@.skip(i as int));
            assert(prev_out + (instructions@[i - 1].spec_render(label as nat) + "\n"@
                + spec_disassembly_lines(instructions@.skip(i as int), label as nat)) =~= out@
                + spec_disassembly_lines(instructions@.skip(i as int), label as nat));
        }
    }
    proof {
        assert(instructions@.skip(instructions@.len() as int) =~= Seq::<Instruction>::empty());
        assert(out@ + Seq::<char>::empty() =~= out@);
    }
    out
}

/// One line of the register dump: the mnemonic, the cell in hexadecimal, and
/// the same value in decimal.
pub open spec fn spec_register_line(name: Seq<char>, v: u16) -> Seq<char> {
    name + ": "@ + spec_hex_cell(v) + " ("@ + spec_dec_nat(v as nat) + ")\n"@
}

/// The flags line: the letters of the set flags, in the fixed order `ZSPO`.
pub open spec fn spec_flags_line(st: MachineState) -> Seq<char> {
    "flags: "@ + (if st.zf {
        "Z"@
    } else {
        Seq::empty()
    }) + (if st.sf {
        "S"@
    } else {
        Seq::empty()
    }) + (if st.pf {
        "P"@
    } else {
        Seq::empty()
    }) + (if st.of {
        "O"@
    } else {
        Seq::empty()
    }) + "\n"@
}

/// The stable printable view of the machine: each 16-bit register on its own
/// line in hexadecimal and decimal, then the flags line.
pub open spec fn spec_snapshot(st: MachineState) -> Seq<char> {
    spec_register_line("ax"@, st.regs.ax) + spec_register_line("bx"@, st.regs.bx)
        + spec_register_line("cx"@, st.regs.cx) + spec_register_line("dx"@, st.regs.dx)
        + spec_register_line("sp"@, st.regs.sp) + spec_register_line("bp"@, st.regs.bp)
        + spec_register_line("si"@, st.regs.si) + spec_register_line("di"@, st.regs.di)
        + spec_register_line("ss"@, st.regs.ss) + spec_register_line("ds"@, st.regs.ds)
        + spec_register_line("es"@, st.regs.es) + spec_flags_line(st)
}

/// Append one line of the register dump.
fn push_register_line(out: &mut String, name: &str, v: u16)
    ensures
        final(out)@ == old(out)@ + spec_register_line(name@, v),
{
    out.append(name);
    out.append(": ");
    push_hex_cell(out, v);
    out.append(" (");
    push_dec(out, v as u64);
    out.append(")\n");
    proof {
        assert(final(out)@ =~= old(out)@ + spec_register_line(name@, v));
    }
}

/// Append the flags line: the letters of the set flags in the order `ZSPO`.
fn push_flags_line(out: &mut String, st: Ghost<MachineState>, zf: bool, sf: bool, pf: bool, of: bool)
    requires
        zf == st@.zf,
        sf == st@.sf,
        pf == st@.pf,
        of == st@.of,
    ensures
        final(out)@ == old(out)@ + spec_flags_line(st@),
{
    out.append("flags: ");
    if zf {
        out.append("Z");
    }
    if sf {
        out.append("S");
    }
    if pf {
        out.append("P");
    }
    if of {
        out.append("O");
    }
    out.append("\n");
    proof {
        assert(final(out)@ =~= old(out)@ + spec_flags_line(st@));
    }
}

impl Cpu {
    /// The stable printable view of the registers and flags.
    #[verifier::rlimit(60)]
    pub fn snapshot(&self) -> (r: String)
        ensures
            r@ == spec_snapshot(self.state()),
    {
        let regs = self.registers();
        let flags = self.flags();
        let mut out = String::new();
        push_register_line(&mut out, "ax", regs.ax);
        push_register_line(&mut out, "bx", regs.bx);
        push_register_line(&mut out, "cx", regs.cx);
        push_register_line(&mut out, "dx", regs.dx);
        push_register_line(&mut out, "sp", regs.sp);
        push_register_line(&mut out, "bp", regs.bp);
        push_register_line(&mut out, "si", regs.si);
        push_register_line(&mut out, "di", regs.di);
        push_register_line(&mut out, "ss", regs.ss);
        push_register_line(&mut out, "ds", regs.ds);
        push_register_line(&mut out, "es", regs.es);
        push_flags_line(&mut out, Ghost(self.state()), flags.zf, flags.sf, flags.pf, flags.of);
        proof {
            assert(out@ =~= spec_snapshot(self.state()));
        }
        out
    }
}

} // verus!
