use simulator_8086::decoder::{Codec, DecodeError};
use simulator_8086::instruction::{Immediate, Instruction, JumpType, Location, Memory, Register};

fn decode_one(bytes: Vec<u8>) -> Instruction {
    let mut codec = Codec::new(bytes);
    codec.next_op().unwrap().unwrap()
}

#[test]
fn register_mov_decodes() {
    // S1: bytes 89 D9 decode to `mov cx, bx`.
    let instruction = decode_one(vec![0x89, 0xD9]);
    assert_eq!(
        instruction,
        Instruction::Mov(
            Location::Register(Register::BX),
            Location::Register(Register::CX)
        )
    );
}

#[test]
fn immediate_to_register_word_decodes() {
    // S2: bytes B9 34 12 decode to `mov cx, 4660`.
    let instruction = decode_one(vec![0xB9, 0x34, 0x12]);
    assert_eq!(
        instruction,
        Instruction::Mov(
            Location::Immediate(Immediate::new(4660, None)),
            Location::Register(Register::CX)
        )
    );
}

#[test]
fn effective_address_with_word_displacement_decodes() {
    // S3: bytes 8B 87 D1 FE decode to `mov ax, [bx - 303]`.
    let instruction = decode_one(vec![0x8B, 0x87, 0xD1, 0xFE]);
    assert_eq!(
        instruction,
        Instruction::Mov(
            Location::Memory(Memory::new(Some(Register::BX), None, -303)),
            Location::Register(Register::AX)
        )
    );
}

#[test]
fn direct_address_decodes() {
    // S4: bytes A1 12 34 decode to `mov ax, [13330]`.
    let instruction = decode_one(vec![0xA1, 0x12, 0x34]);
    assert_eq!(
        instruction,
        Instruction::Mov(
            Location::Memory(Memory::new(None, None, 13330)),
            Location::Register(Register::AX)
        )
    );
}

#[test]
fn arithmetic_immediate_to_rm_byte_decodes() {
    // S5 decode half: bytes 83 C3 05 decode to `add bx, 5`.
    let instruction = decode_one(vec![0x83, 0xC3, 0x05]);
    assert_eq!(
        instruction,
        Instruction::Add(
            Location::Immediate(Immediate::new(5, None)),
            Location::Register(Register::BX)
        )
    );
}

#[test]
fn direction_bit_symmetry() {
    // The d bit swaps the reg and r/m roles: 89 D9 and 8B CB both decode to
    // `mov cx, bx`.
    let a = decode_one(vec![0x89, 0xD9]);
    let b = decode_one(vec![0x8B, 0xCB]);
    assert_eq!(a, b);
}

#[test]
fn word_displacement_is_little_endian() {
    // A 16-bit displacement of 0x1234 appears in the stream as 0x34, 0x12.
    let instruction = decode_one(vec![0xA1, 0x34, 0x12]);
    assert_eq!(
        instruction,
        Instruction::Mov(
            Location::Memory(Memory::new(None, None, 0x1234)),
            Location::Register(Register::AX)
        )
    );
}

#[test]
fn consumed_bytes_match_the_encoding() {
    // Decoder totality: each family consumes exactly its encoded length.
    let cases: Vec<(Vec<u8>, usize)> = vec![
        (vec![0x37], 1),                                     // aaa
        (vec![0x27], 1),                                     // daa
        (vec![0x43], 1),                                     // inc bx
        (vec![0x74, 0x05], 2),                               // je +5
        (vec![0xB0, 0x12], 2),                               // mov al, 0x12
        (vec![0xB9, 0x34, 0x12], 3),                         // mov cx, 0x1234
        (vec![0x89, 0xD9], 2),                               // mov cx, bx
        (vec![0x8B, 0x47, 0x02], 3),                         // mov ax, [bx + 2]
        (vec![0x8B, 0x87, 0xD1, 0xFE], 4),                   // mov ax, [bx - 303]
        (vec![0xA1, 0x12, 0x34], 3),                         // mov ax, [13330]
        (vec![0xA0, 0x12], 2),                               // mov al, [18]
        (vec![0x04, 0x05], 2),                               // add al, 5
        (vec![0x05, 0x05, 0x00], 3),                         // add ax, 5
        (vec![0x83, 0xC3, 0x05], 3),                         // add bx, 5
        (vec![0x81, 0x87, 0x34, 0x12, 0x78, 0x56], 6),       // add [bx + 0x1234], 0x5678
        (vec![0xC6, 0x07, 0x2A], 3),                         // mov [bx], byte 42
        (vec![0xC7, 0x06, 0x10, 0x00, 0x22, 0x11], 6),       // mov [16], word 0x1122
    ];
    for (bytes, expected) in cases {
        let mut codec = Codec::new(bytes.clone());
        let decoded = codec.next_op();
        assert!(decoded.is_ok(), "bytes {:?} failed to decode", bytes);
        assert_eq!(
            codec.stream_position(),
            expected,
            "bytes {:?} consumed the wrong count",
            bytes
        );
    }
}

#[test]
fn every_short_jump_opcode_decodes() {
    let table: Vec<(u8, JumpType)> = vec![
        (0x74, JumpType::Je),
        (0x7C, JumpType::Jl),
        (0x7E, JumpType::Jle),
        (0x72, JumpType::Jb),
        (0x76, JumpType::Jbe),
        (0x7A, JumpType::Jp),
        (0x70, JumpType::Jo),
        (0x78, JumpType::Js),
        (0x75, JumpType::Jne),
        (0x7D, JumpType::Jnl),
        (0x7F, JumpType::Jnle),
        (0x73, JumpType::Jnb),
        (0x77, JumpType::Jnbe),
        (0x7B, JumpType::Jnp),
        (0x71, JumpType::Jno),
        (0x79, JumpType::Jns),
        (0xE2, JumpType::Loop),
        (0xE1, JumpType::Loopz),
        (0xE0, JumpType::Loopnz),
        (0xE3, JumpType::Jcxz),
    ];
    for (opcode, kind) in table {
        let instruction = decode_one(vec![opcode, 0xFE]);
        assert_eq!(instruction, Instruction::Jump(kind, -2));
    }
}

#[test]
fn adc_and_sbb_decode_from_the_immediate_family() {
    let adc = decode_one(vec![0x83, 0xD3, 0x05]);
    assert_eq!(
        adc,
        Instruction::Adc(
            Location::Immediate(Immediate::new(5, None)),
            Location::Register(Register::BX)
        )
    );
    let sbb = decode_one(vec![0x83, 0xDB, 0x05]);
    assert_eq!(
        sbb,
        Instruction::Sbb(
            Location::Immediate(Immediate::new(5, None)),
            Location::Register(Register::BX)
        )
    );
}

#[test]
fn inc_and_dec_decode() {
    assert_eq!(
        decode_one(vec![0x43]),
        Instruction::Inc(Location::Register(Register::BX), None)
    );
    assert_eq!(
        decode_one(vec![0x4B]),
        Instruction::Dec(Location::Register(Register::BX), None)
    );
}

#[test]
fn memory_destination_immediate_is_width_tagged() {
    // An immediate stored to memory carries its width keyword.
    let word = decode_one(vec![0xC7, 0x06, 0x10, 0x00, 0x22, 0x11]);
    assert_eq!(
        word,
        Instruction::Mov(
            Location::Immediate(Immediate::new(0x1122, Some(1))),
            Location::Memory(Memory::new(None, None, 16))
        )
    );
    let byte = decode_one(vec![0xC6, 0x07, 0x2A]);
    assert_eq!(
        byte,
        Instruction::Mov(
            Location::Immediate(Immediate::new(42, Some(0))),
            Location::Memory(Memory::new(Some(Register::BX), None, 0))
        )
    );
}

#[test]
fn register_destination_immediate_is_untagged() {
    let instruction = decode_one(vec![0xC6, 0xC0, 0x05]);
    assert_eq!(
        instruction,
        Instruction::Mov(
            Location::Immediate(Immediate::new(5, None)),
            Location::Register(Register::AL)
        )
    );
}

#[test]
fn accumulator_to_memory_direction() {
    let instruction = decode_one(vec![0xA3, 0x10, 0x00]);
    assert_eq!(
        instruction,
        Instruction::Mov(
            Location::Register(Register::AX),
            Location::Memory(Memory::new(None, None, 16))
        )
    );
}

#[test]
fn two_register_effective_address_decodes() {
    let instruction = decode_one(vec![0x8B, 0x00]);
    assert_eq!(
        instruction,
        Instruction::Mov(
            Location::Memory(Memory::new(Some(Register::BX), Some(Register::SI), 0)),
            Location::Register(Register::AX)
        )
    );
}

#[test]
fn byte_displacement_sign_extends() {
    // mod = 01 reads one displacement byte, sign-extended.
    let instruction = decode_one(vec![0x8B, 0x47, 0xFC]);
    assert_eq!(
        instruction,
        Instruction::Mov(
            Location::Memory(Memory::new(Some(Register::BX), None, -4)),
            Location::Register(Register::AX)
        )
    );
}

#[test]
fn unknown_prefix_is_unsupported_opcode() {
    let mut codec = Codec::new(vec![0x55]);
    assert_eq!(codec.next_op(), Err(DecodeError::UnsupportedOpcode));
}

#[test]
fn arithmetic_outside_the_model_is_unsupported_opcode() {
    // 08 C0 is `or al, al`, which the instruction model does not carry.
    let mut codec = Codec::new(vec![0x08, 0xC0]);
    assert_eq!(codec.next_op(), Err(DecodeError::UnsupportedOpcode));
}

#[test]
fn truncated_immediate_is_an_error() {
    let mut codec = Codec::new(vec![0xB9, 0x34]);
    assert_eq!(codec.next_op(), Err(DecodeError::TruncatedInstruction));
}

#[test]
fn truncated_jump_is_an_error() {
    let mut codec = Codec::new(vec![0x74]);
    assert_eq!(codec.next_op(), Err(DecodeError::TruncatedInstruction));
}

#[test]
fn end_of_stream_is_clean() {
    let mut codec = Codec::new(vec![]);
    assert_eq!(codec.next_op(), Ok(None));
}

#[test]
fn decode_all_collects_every_instruction() {
    let codec = Codec::new(vec![0x89, 0xD9, 0xB9, 0x34, 0x12, 0x37]);
    let instructions = codec.decode_all().unwrap();
    assert_eq!(
        instructions,
        vec![
            Instruction::Mov(
                Location::Register(Register::BX),
                Location::Register(Register::CX)
            ),
            Instruction::Mov(
                Location::Immediate(Immediate::new(4660, None)),
                Location::Register(Register::CX)
            ),
            Instruction::Aaa,
        ]
    );
}

#[test]
fn decode_all_propagates_the_first_error() {
    let codec = Codec::new(vec![0x89, 0xD9, 0x55]);
    assert_eq!(codec.decode_all(), Err(DecodeError::UnsupportedOpcode));
}

#[test]
fn iterator_yields_instructions_in_order() {
    let codec = Codec::new(vec![0x37, 0x27]);
    let mut iterator = codec.iterate();
    assert_eq!(iterator.next(), Ok(Some(Instruction::Aaa)));
    assert_eq!(iterator.next(), Ok(Some(Instruction::Daa)));
    assert_eq!(iterator.next(), Ok(None));
}

#[test]
fn get_byte_and_load_two_walk_the_stream() {
    let mut codec = Codec::new(vec![1, 2, 3]);
    assert_eq!(codec.get_byte(), Some(1));
    assert_eq!(codec.load_two(), Some((2, 3)));
    assert_eq!(codec.get_byte(), None);
    assert_eq!(codec.load_two(), None);
}

#[test]
fn jump_moves_the_read_position() {
    let mut codec = Codec::new(vec![10, 20, 30, 40]);
    assert_eq!(codec.get_byte(), Some(10));
    assert!(codec.jump(2));
    assert_eq!(codec.get_byte(), Some(40));
    assert!(codec.jump(-3));
    assert_eq!(codec.get_byte(), Some(20));
}

#[test]
fn jump_before_the_start_fails() {
    let mut codec = Codec::new(vec![10, 20]);
    assert_eq!(codec.get_byte(), Some(10));
    assert!(!codec.jump(-2));
    // The position is untouched by the failed seek.
    assert_eq!(codec.get_byte(), Some(20));
}

#[test]
fn jump_past_the_end_parks_at_the_end() {
    let mut codec = Codec::new(vec![10, 20]);
    assert!(codec.jump(100));
    assert_eq!(codec.stream_position(), 2);
    assert_eq!(codec.get_byte(), None);
}
