use simulator_8086::cpu::{Cpu, ExecError, SimError};
use simulator_8086::decoder::DecodeError;
use simulator_8086::instruction::{Immediate, Instruction, Location, Register};

fn run_program(bytes: Vec<u8>) -> Cpu {
    let mut cpu = Cpu::new(bytes);
    cpu.run(10_000).unwrap();
    cpu
}

#[test]
fn arithmetic_immediate_executes_and_sets_flags() {
    // S5: after `add bx, 5` from a zeroed state, bx = 5 and ZF=0, SF=0,
    // PF=1, OF=0.
    let cpu = run_program(vec![0x83, 0xC3, 0x05]);
    assert_eq!(cpu.read_register(Register::BX), 5);
    let flags = cpu.flags();
    assert!(!flags.zf);
    assert!(!flags.sf);
    assert!(flags.pf);
    assert!(!flags.of);
}

#[test]
fn taken_loopnz_runs_the_body_twice() {
    // S6: `mov cx, 2; label: loopnz label` ends with cx = 0 and ZF set.
    let cpu = run_program(vec![0xB9, 0x02, 0x00, 0xE0, 0xFE]);
    assert_eq!(cpu.read_register(Register::CX), 0);
    assert!(cpu.flags().zf);
}

#[test]
fn high_then_low_byte_writes_compose() {
    // mov ah, 0x12; mov al, 0x34: reading ax yields 0x1234.
    let cpu = run_program(vec![0xB4, 0x12, 0xB0, 0x34]);
    assert_eq!(cpu.read_register(Register::AX), 0x1234);
    assert_eq!(cpu.read_register(Register::AH), 0x12);
    assert_eq!(cpu.read_register(Register::AL), 0x34);
}

#[test]
fn low_byte_write_preserves_the_high_byte() {
    // mov bx, 0x1234; mov bl, 0x56.
    let cpu = run_program(vec![0xBB, 0x34, 0x12, 0xB3, 0x56]);
    assert_eq!(cpu.read_register(Register::BX), 0x1256);
}

#[test]
fn sub_of_equal_inputs_sets_zero_and_parity() {
    // mov bx, 5; sub bx, 5: ZF=1, SF=0, PF=1, OF=0.
    let cpu = run_program(vec![0xBB, 0x05, 0x00, 0x83, 0xEB, 0x05]);
    assert_eq!(cpu.read_register(Register::BX), 0);
    let flags = cpu.flags();
    assert!(flags.zf);
    assert!(!flags.sf);
    assert!(flags.pf);
    assert!(!flags.of);
}

#[test]
fn sub_that_wraps_sets_sign_and_overflow() {
    // mov bx, 1; sub bx, 2: SF=1, OF=1, ZF=0 across 16 bits.
    let cpu = run_program(vec![0xBB, 0x01, 0x00, 0x83, 0xEB, 0x02]);
    assert_eq!(cpu.read_register(Register::BX), 0xFFFF);
    let flags = cpu.flags();
    assert!(flags.sf);
    assert!(flags.of);
    assert!(!flags.zf);
}

#[test]
fn cmp_updates_flags_but_not_registers() {
    // mov bx, 1; cmp bx, 2: the register file is untouched, the flags are
    // exactly those `sub bx, 2` would set.
    let cpu = run_program(vec![0xBB, 0x01, 0x00, 0x83, 0xFB, 0x02]);
    assert_eq!(cpu.read_register(Register::BX), 1);
    let sub = run_program(vec![0xBB, 0x01, 0x00, 0x83, 0xEB, 0x02]);
    assert_eq!(cpu.flags(), sub.flags());
}

#[test]
fn taken_forward_jump_skips_the_offset_bytes() {
    // mov cx, 1; jne +2 over two inc instructions; mov bx, 7. The inc
    // bytes are never decoded (executing one would be a fatal error), so the
    // run succeeds with ax untouched.
    let cpu = run_program(vec![0xB9, 0x01, 0x00, 0x75, 0x02, 0x40, 0x40, 0xBB, 0x07, 0x00]);
    assert_eq!(cpu.read_register(Register::BX), 7);
    assert_eq!(cpu.read_register(Register::AX), 0);
}

#[test]
fn untaken_jump_falls_through() {
    // mov bx, 3; sub bx, 3 sets ZF; jne is then not taken and the next
    // instruction executes.
    let cpu = run_program(vec![
        0xBB, 0x03, 0x00, 0x83, 0xEB, 0x03, 0x75, 0x02, 0xB9, 0x09, 0x00,
    ]);
    assert_eq!(cpu.read_register(Register::CX), 9);
}

#[test]
fn add_to_a_high_byte_view_shifts_the_operand() {
    // mov bx, 0x1234; add bh, 1 adds 0x100 to the owning word.
    let cpu = run_program(vec![0xBB, 0x34, 0x12, 0x80, 0xC7, 0x01]);
    assert_eq!(cpu.read_register(Register::BX), 0x1334);
}

#[test]
fn add_wraps_and_reports_the_carry_in_of() {
    // mov bx, 0xFFFF; add bx, 2 wraps to 1 with the carry-out proxy set.
    let cpu = run_program(vec![0xBB, 0xFF, 0xFF, 0x83, 0xC3, 0x02]);
    assert_eq!(cpu.read_register(Register::BX), 1);
    assert!(cpu.flags().of);
    assert!(!cpu.flags().zf);
}

#[test]
fn add_immediate_to_accumulator_executes() {
    let cpu = run_program(vec![0x05, 0x2A, 0x00]);
    assert_eq!(cpu.read_register(Register::AX), 42);
}

#[test]
fn segment_registers_execute_as_whole_words() {
    // No opcode of the model names a segment register, but the executor
    // takes any instruction: a direct move into ss reads back whole.
    let mut cpu = Cpu::new(vec![]);
    cpu.execute_instruction(Instruction::Mov(
        Location::Immediate(Immediate::new(0x1234, None)),
        Location::Register(Register::SS),
    ))
    .unwrap();
    assert_eq!(cpu.read_register(Register::SS), 0x1234);
    assert_eq!(cpu.registers().ss, 0x1234);
}

#[test]
fn memory_operand_execution_is_refused() {
    let mut cpu = Cpu::new(vec![0x8B, 0x07]);
    assert_eq!(
        cpu.run(10),
        Err(SimError::Exec(ExecError::MemoryOperand))
    );
}

#[test]
fn immediate_destination_is_refused() {
    let mut cpu = Cpu::new(vec![]);
    let bad = Instruction::Mov(
        Location::Register(Register::AX),
        Location::Immediate(Immediate::new(1, None)),
    );
    assert_eq!(
        cpu.execute_instruction(bad),
        Err(ExecError::ImmediateDestination)
    );
}

#[test]
fn unimplemented_instructions_are_fatal() {
    let mut daa = Cpu::new(vec![0x27]);
    assert_eq!(
        daa.run(10),
        Err(SimError::Exec(ExecError::UnsupportedInstruction))
    );
    let mut inc = Cpu::new(vec![0x40]);
    assert_eq!(
        inc.run(10),
        Err(SimError::Exec(ExecError::UnsupportedInstruction))
    );
    let mut jl = Cpu::new(vec![0x7C, 0x00]);
    assert_eq!(
        jl.run(10),
        Err(SimError::Exec(ExecError::UnsupportedInstruction))
    );
}

#[test]
fn jump_before_the_stream_start_is_fatal() {
    // mov cx, 2; loopnz -128 would seek before the start of the stream.
    let mut cpu = Cpu::new(vec![0xB9, 0x02, 0x00, 0xE0, 0x80]);
    assert_eq!(
        cpu.run(10),
        Err(SimError::Exec(ExecError::JumpOutOfRange))
    );
}

#[test]
fn decode_errors_stop_the_run() {
    let mut cpu = Cpu::new(vec![0xB9, 0x01, 0x00, 0x55]);
    assert_eq!(
        cpu.run(10),
        Err(SimError::Decode(DecodeError::UnsupportedOpcode))
    );
    // The instructions before the bad byte did execute.
    assert_eq!(cpu.read_register(Register::CX), 1);
}

#[test]
fn the_step_budget_stops_an_endless_loop() {
    // mov cx, 2; loopnz back to the mov: cx is reloaded forever.
    let mut cpu = Cpu::new(vec![0xB9, 0x02, 0x00, 0xE0, 0xFB]);
    assert_eq!(cpu.run(100), Err(SimError::StepLimit));
}

#[test]
fn a_zero_step_budget_executes_nothing() {
    let mut cpu = Cpu::new(vec![0xB9, 0x02, 0x00]);
    assert_eq!(cpu.run(0), Err(SimError::StepLimit));
    assert_eq!(cpu.read_register(Register::CX), 0);
}

#[test]
fn an_empty_stream_halts_cleanly() {
    let mut cpu = Cpu::new(vec![]);
    assert_eq!(cpu.run(10), Ok(()));
}

#[test]
fn fetch_decodes_without_executing() {
    let mut cpu = Cpu::new(vec![0xBB, 0x05, 0x00]);
    let instruction = cpu.fetch().unwrap().unwrap();
    assert_eq!(
        instruction,
        Instruction::Mov(
            Location::Immediate(Immediate::new(5, None)),
            Location::Register(Register::BX)
        )
    );
    assert_eq!(cpu.read_register(Register::BX), 0);
    cpu.execute_instruction(instruction).unwrap();
    assert_eq!(cpu.read_register(Register::BX), 5);
    assert_eq!(cpu.fetch(), Ok(None));
}

#[test]
fn registers_start_zeroed_and_flags_clear() {
    let cpu = Cpu::new(vec![]);
    let regs = cpu.registers();
    assert_eq!(regs.ax, 0);
    assert_eq!(regs.bx, 0);
    assert_eq!(regs.cx, 0);
    assert_eq!(regs.dx, 0);
    assert_eq!(regs.sp, 0);
    assert_eq!(regs.bp, 0);
    assert_eq!(regs.si, 0);
    assert_eq!(regs.di, 0);
    assert_eq!(regs.ss, 0);
    assert_eq!(regs.ds, 0);
    assert_eq!(regs.es, 0);
    let flags = cpu.flags();
    assert!(!flags.zf && !flags.sf && !flags.pf && !flags.of);
}

#[test]
fn mov_leaves_the_flags_alone() {
    // mov bx, 1; sub bx, 2 sets SF/OF; a following mov changes no flag.
    let cpu = run_program(vec![0xBB, 0x01, 0x00, 0x83, 0xEB, 0x02, 0xB9, 0x07, 0x00]);
    let flags = cpu.flags();
    assert!(flags.sf && flags.of && !flags.zf);
}

#[test]
fn negative_immediate_sign_extends_into_the_register() {
    // mov bl, -1 (B3 FF): the byte view is written, the high byte stays 0.
    let cpu = run_program(vec![0xB3, 0xFF]);
    assert_eq!(cpu.read_register(Register::BX), 0x00FF);
    assert_eq!(cpu.read_register(Register::BL), 0xFF);
}
