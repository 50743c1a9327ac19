use simulator_8086::cpu::Cpu;
use simulator_8086::decoder::Codec;
use simulator_8086::instruction::{Immediate, Instruction, JumpType, Location, Memory, Register};
use simulator_8086::render::disassemble;

fn render_bytes(bytes: Vec<u8>) -> String {
    let instruction = Codec::new(bytes).next_op().unwrap().unwrap();
    instruction.render(0)
}

#[test]
fn register_table_mnemonics_round_trip() {
    // The REG table: every (code, w) pair renders to the manual's mnemonic.
    let byte_names = ["al", "cl", "dl", "bl", "ah", "ch", "dh", "bh"];
    let word_names = ["ax", "cx", "dx", "bx", "sp", "bp", "si", "di"];
    for code in 0..8u8 {
        assert_eq!(Register::new(code, 0).mnemonic(), byte_names[code as usize]);
        assert_eq!(Register::new(code, 1).mnemonic(), word_names[code as usize]);
    }
}

#[test]
fn segment_register_mnemonics() {
    assert_eq!(Register::SS.mnemonic(), "ss");
    assert_eq!(Register::DS.mnemonic(), "ds");
    assert_eq!(Register::ES.mnemonic(), "es");
}

#[test]
fn scenario_lines_render_as_nasm_text() {
    assert_eq!(render_bytes(vec![0x89, 0xD9]), "mov cx, bx");
    assert_eq!(render_bytes(vec![0xB9, 0x34, 0x12]), "mov cx, 4660");
    assert_eq!(render_bytes(vec![0x8B, 0x87, 0xD1, 0xFE]), "mov ax, [bx - 303]");
    assert_eq!(render_bytes(vec![0xA1, 0x12, 0x34]), "mov ax, [13330]");
    assert_eq!(render_bytes(vec![0x83, 0xC3, 0x05]), "add bx, 5");
}

#[test]
fn memory_operands_render_with_omitted_zero_terms() {
    assert_eq!(
        Memory::new(Some(Register::BX), Some(Register::SI), 0).render(),
        "[bx + si]"
    );
    assert_eq!(
        Memory::new(Some(Register::BX), Some(Register::SI), 4).render(),
        "[bx + si + 4]"
    );
    assert_eq!(
        Memory::new(Some(Register::BX), Some(Register::SI), -4).render(),
        "[bx + si - 4]"
    );
    assert_eq!(Memory::new(Some(Register::BP), None, 0).render(), "[bp]");
    assert_eq!(Memory::new(Some(Register::BP), None, 7).render(), "[bp + 7]");
    assert_eq!(Memory::new(Some(Register::BP), None, -7).render(), "[bp - 7]");
    assert_eq!(Memory::new(None, None, 13330).render(), "[13330]");
    assert_eq!(Memory::new(None, None, -5).render(), "[-5]");
}

#[test]
fn the_most_negative_displacement_renders() {
    assert_eq!(
        Memory::new(Some(Register::BX), None, -32768).render(),
        "[bx - 32768]"
    );
}

#[test]
fn immediates_render_with_their_width_keyword() {
    assert_eq!(Immediate::new(42, None).render(), "42");
    assert_eq!(Immediate::new(-303, None).render(), "-303");
    assert_eq!(Immediate::new(42, Some(0)).render(), "byte 42");
    assert_eq!(Immediate::new(4386, Some(1)).render(), "word 4386");
}

#[test]
fn set_w_retags_an_immediate() {
    let mut imm = Immediate::new(9, None);
    imm.set_w(Some(1));
    assert_eq!(imm, Immediate::new(9, Some(1)));
    assert_eq!(imm.render(), "word 9");
}

#[test]
fn memory_destination_mov_renders_tagged() {
    assert_eq!(
        render_bytes(vec![0xC7, 0x06, 0x10, 0x00, 0x22, 0x11]),
        "mov [16], word 4386"
    );
    assert_eq!(render_bytes(vec![0xC6, 0x07, 0x2A]), "mov [bx], byte 42");
}

#[test]
fn jumps_render_with_their_label_and_offset() {
    let jump = Instruction::Jump(JumpType::Je, -2);
    assert_eq!(jump.render(3), "je label_3 ; -2");
    let looping = Instruction::Jump(JumpType::Loopnz, 5);
    assert_eq!(looping.render(1), "loopnz label_1 ; 5");
}

#[test]
fn the_loopz_opcode_renders_as_loopz() {
    assert_eq!(render_bytes(vec![0xE1, 0x00]), "loopz label_0 ; 0");
}

#[test]
fn single_byte_instructions_render() {
    assert_eq!(render_bytes(vec![0x37]), "aaa");
    assert_eq!(render_bytes(vec![0x27]), "daa");
    assert_eq!(render_bytes(vec![0x43]), "inc bx");
    assert_eq!(render_bytes(vec![0x4B]), "dec bx");
}

#[test]
fn operand_order_is_destination_first() {
    // The instruction tuple is (source, destination); the text reverses it.
    let instruction = Instruction::Sub(
        Location::Register(Register::CX),
        Location::Register(Register::AX),
    );
    assert_eq!(instruction.render(0), "sub ax, cx");
}

#[test]
fn disassembly_starts_with_the_bits_header() {
    let instructions = Codec::new(vec![0x89, 0xD9, 0xB9, 0x34, 0x12])
        .decode_all()
        .unwrap();
    assert_eq!(
        disassemble(&instructions),
        "bits 16\nmov cx, bx\nmov cx, 4660\n"
    );
}

#[test]
fn disassembly_numbers_jump_labels_in_order() {
    let instructions = Codec::new(vec![0x74, 0x02, 0x37, 0x75, 0xFB])
        .decode_all()
        .unwrap();
    assert_eq!(
        disassemble(&instructions),
        "bits 16\nje label_1 ; 2\naaa\njne label_2 ; -5\n"
    );
}

#[test]
fn an_empty_program_disassembles_to_the_header() {
    let instructions = Codec::new(vec![]).decode_all().unwrap();
    assert_eq!(disassemble(&instructions), "bits 16\n");
}

#[test]
fn snapshot_lists_registers_in_hex_and_decimal() {
    // mov ax, 42.
    let mut cpu = Cpu::new(vec![0xB8, 0x2A, 0x00]);
    cpu.run(10).unwrap();
    let snapshot = cpu.snapshot();
    assert_eq!(
        snapshot,
        "ax: 0x2a (42)\n\
         bx: 0x00 (0)\n\
         cx: 0x00 (0)\n\
         dx: 0x00 (0)\n\
         sp: 0x00 (0)\n\
         bp: 0x00 (0)\n\
         si: 0x00 (0)\n\
         di: 0x00 (0)\n\
         ss: 0x00 (0)\n\
         ds: 0x00 (0)\n\
         es: 0x00 (0)\n\
         flags: \n"
    );
}

#[test]
fn snapshot_flags_line_keeps_the_zspo_order() {
    // mov bx, 5; sub bx, 5 sets ZF and PF.
    let mut cpu = Cpu::new(vec![0xBB, 0x05, 0x00, 0x83, 0xEB, 0x05]);
    cpu.run(10).unwrap();
    let snapshot = cpu.snapshot();
    assert!(snapshot.ends_with("flags: ZP\n"), "snapshot was: {snapshot}");
    // mov bx, 1; sub bx, 2 sets SF, PF (0xFFFF has sixteen one bits) and OF.
    let mut wrapped = Cpu::new(vec![0xBB, 0x01, 0x00, 0x83, 0xEB, 0x02]);
    wrapped.run(10).unwrap();
    let wrapped_snapshot = wrapped.snapshot();
    assert!(
        wrapped_snapshot.ends_with("flags: SPO\n"),
        "snapshot was: {wrapped_snapshot}"
    );
}

#[test]
fn four_hex_digits_render_unpadded() {
    let mut cpu = Cpu::new(vec![0xB8, 0x34, 0x12]);
    cpu.run(10).unwrap();
    assert!(cpu.snapshot().starts_with("ax: 0x1234 (4660)\n"));
}
