use nes_core::board::BoardImpl;
use nes_core::cartridge::CartridgeImpl;
use nes_core::nes_file::NESFile;
use nes_core::neslog::{assert_cpu_state, NESLog};

/// A minimal cartridge image: one 16KB program bank, one 8KB character
/// bank, no trainer, fixed mapping.
fn nes_image() -> Vec<u8> {
    let mut bytes = vec![0x4Eu8, 0x45, 0x53, 0x1A, 1, 1, 0, 0, 0, 0, 0, 0, 0, 0, 0, 0];
    bytes.extend(std::iter::repeat(0u8).take(0x4000));
    bytes.extend(std::iter::repeat(0u8).take(0x2000));
    bytes
}

fn new_board() -> BoardImpl {
    let nes = NESFile::new(nes_image()).unwrap();
    let cartridge = CartridgeImpl::new(nes).unwrap();
    let board = BoardImpl::new(cartridge);
    board.init().unwrap()
}

fn load_program(board: &mut BoardImpl, program: &[u8]) {
    for (i, &byte) in program.iter().enumerate() {
        board.cpu_bus_write(0xc000 + i as u16, byte).unwrap();
    }
    board.set_reg_pc(0xc000);
}

fn run_once(board: &mut BoardImpl) {
    loop {
        board.clock().unwrap();
        if board.dump_state().remaining_cycles == 0 {
            break;
        }
    }
}

#[test]
fn test_cpu_simple_instructions() {
    let mut board = new_board();
    board.reset().unwrap();

    let program: &[u8] = &[
        0xa9, 0x10, // LDA #$10     -> A = #$10
        0x85, 0x20, // STA $20      -> $20 = #$10
        0xa9, 0x01, // LDA #$1      -> A = #$1
        0x65, 0x20, // ADC $20      -> A = #$11
        0x85, 0x21, // STA $21      -> $21=#$11
        0xe6, 0x21, // INC $21      -> $21=#$12
        0xa4, 0x21, // LDY $21      -> Y=#$12
        0xc8, // INY          -> Y=#$13
        0x00, // BRK
    ];
    load_program(&mut board, program);
    run_once(&mut board);
    assert_eq!(board.dump_state().reg_a, 0x10);
    run_once(&mut board);
    assert_eq!(board.cpu_bus_read(0x20).unwrap(), 0x10);
    run_once(&mut board);
    assert_eq!(board.dump_state().reg_a, 0x01);
    run_once(&mut board);
    assert_eq!(board.dump_state().reg_a, 0x11);
    run_once(&mut board);
    assert_eq!(board.cpu_bus_read(0x21).unwrap(), 0x11);
    run_once(&mut board);
    assert_eq!(board.cpu_bus_read(0x21).unwrap(), 0x12);
    run_once(&mut board);
    assert_eq!(board.dump_state().reg_y, 0x12);
    run_once(&mut board);
    assert_eq!(board.dump_state().reg_y, 0x13);
}

#[test]
fn test_cpu_simple_flags() {
    let mut board = new_board();
    board.reset().unwrap();

    let program: &[u8] = &[
        0xa9, 0xff, // LDA #$ff
        0x85, 0x30, // STA $30      -> $30 = #$ff
        0xa9, 0x01, // LDA #$1
        0x65, 0x30, // ADC $30      -> carry, A = 0
        0xa9, 0x01, // LDA #$1
        0x65, 0x30, // ADC $30      -> carry, A = 1
        0x00, // BRK
    ];
    load_program(&mut board, program);
    run_once(&mut board);
    assert_eq!(board.dump_state().reg_a, 0xff);
    run_once(&mut board);
    assert_eq!(board.cpu_bus_read(0x30).unwrap(), 0xff);
    run_once(&mut board);
    assert_eq!(board.dump_state().reg_a, 0x01);
    assert_eq!(board.dump_state().reg_status.carry, false);
    run_once(&mut board);
    assert_eq!(board.dump_state().reg_a, 0x00);
    assert_eq!(board.dump_state().reg_status.carry, true);
    run_once(&mut board);
    assert_eq!(board.dump_state().reg_a, 0x01);
    assert_eq!(board.dump_state().reg_status.carry, true);
}

fn trace_line(
    pc: u16,
    op: u8,
    b1: Option<u8>,
    b2: Option<u8>,
    mnem: &str,
    a: u8,
    x: u8,
    y: u8,
    p: u8,
    sp: u8,
    cyc: u64,
) -> Vec<u8> {
    let b1s = match b1 {
        Some(v) => format!("{:02X}", v),
        None => "  ".to_string(),
    };
    let b2s = match b2 {
        Some(v) => format!("{:02X}", v),
        None => "  ".to_string(),
    };
    let line = format!(
        "{:04X}  {:02X} {} {}  {} {:<28}A:{:02X} X:{:02X} Y:{:02X} P:{:02X} SP:{:02X} PPU:{:>3},{:>3} CYC:{}",
        pc, op, b1s, b2s, mnem, "", a, x, y, p, sp, 0, 0, cyc
    );
    line.into_bytes()
}

/// The conformance check: a known program, started from the documented
/// reset state (A=X=Y=0, flags 0x24, SP 0xFD, seven cycles on the clock),
/// must reproduce the golden trace line for line: program counter, opcode,
/// registers, flags and cumulative cycles before every instruction.
#[test]
fn test_cpu_golden_trace() {
    let mut board = new_board();
    board.reset().unwrap();

    let program: &[u8] = &[
        0xa9, 0x10, // C000 LDA #$10
        0x85, 0x20, // C002 STA $20
        0xa2, 0x05, // C004 LDX #$05
        0xe8, // C006 INX
        0x4c, 0x0b, 0xc0, // C007 JMP $C00B
        0xea, // C00A NOP (jumped over)
        0xa0, 0xff, // C00B LDY #$FF
        0xc8, // C00D INY
        0xea, // C00E NOP
    ];
    load_program(&mut board, program);

    let expected: Vec<Vec<u8>> = vec![
        trace_line(0xC000, 0xA9, Some(0x10), None, "LDA", 0x00, 0x00, 0x00, 0x24, 0xFD, 7),
        trace_line(0xC002, 0x85, Some(0x20), None, "STA", 0x10, 0x00, 0x00, 0x24, 0xFD, 9),
        trace_line(0xC004, 0xA2, Some(0x05), None, "LDX", 0x10, 0x00, 0x00, 0x24, 0xFD, 12),
        trace_line(0xC006, 0xE8, None, None, "INX", 0x10, 0x05, 0x00, 0x24, 0xFD, 14),
        trace_line(0xC007, 0x4C, Some(0x0B), Some(0xC0), "JMP", 0x10, 0x06, 0x00, 0x24, 0xFD, 16),
        trace_line(0xC00B, 0xA0, Some(0xFF), None, "LDY", 0x10, 0x06, 0x00, 0x24, 0xFD, 19),
        trace_line(0xC00D, 0xC8, None, None, "INY", 0x10, 0x06, 0xFF, 0xA4, 0xFD, 21),
        trace_line(0xC00E, 0xEA, None, None, "NOP", 0x10, 0x06, 0x00, 0x26, 0xFD, 23),
    ];

    for (line_no, line) in expected.iter().enumerate() {
        let log = NESLog::parse_line(line).unwrap();
        let state = board.dump_state();
        let opcode = board.cpu_bus_read(state.reg_pc).unwrap();
        assert!(
            assert_cpu_state(&log, &state, opcode),
            "golden trace mismatch at line {}",
            line_no + 1
        );
        run_once(&mut board);
    }
    assert_eq!(board.dump_state().total_cycles, 25);
}

/// Page crossing on the indexed absolute load: a base plus X that leaves
/// the page costs one extra cycle; the same access without a crossing does
/// not.
#[test]
fn test_lda_absolute_x_page_cross_cycles() {
    // Crossing: 0x10F0 + 0x20 = 0x1110.
    let mut board = new_board();
    board.reset().unwrap();
    load_program(&mut board, &[0xbd, 0xf0, 0x10]);
    board.cpu.reg_x = 0x20;
    let before = board.dump_state().total_cycles;
    run_once(&mut board);
    assert_eq!(board.dump_state().total_cycles - before, 5);

    // No crossing: 0x10F0 + 0x01 = 0x10F1.
    let mut board = new_board();
    board.reset().unwrap();
    load_program(&mut board, &[0xbd, 0xf0, 0x10]);
    board.cpu.reg_x = 0x01;
    let before = board.dump_state().total_cycles;
    run_once(&mut board);
    assert_eq!(board.dump_state().total_cycles - before, 4);
}

/// The arithmetic edge case: 0x7F plus 0x01 with carry clear overflows the
/// signed byte: result 0x80, overflow and negative set, carry clear.
#[test]
fn test_adc_signed_overflow_edge() {
    let mut board = new_board();
    board.reset().unwrap();
    load_program(&mut board, &[0x69, 0x01]);
    board.cpu.reg_a = 0x7F;
    run_once(&mut board);
    let s = board.dump_state();
    assert_eq!(s.reg_a, 0x80);
    assert!(s.reg_status.overflow);
    assert!(s.reg_status.negative);
    assert!(!s.reg_status.carry);
    assert!(!s.reg_status.zero);
}

/// The undocumented decrement-then-compare composite is an exact
/// back-to-back run of the two documented primitives: memory is written
/// once, by the decrement, and the flags are whatever the compare leaves.
/// A cell of 0x01 with accumulator 0x01 decrements to 0x00; the compare of
/// 0x01 against 0x00 sets carry (the accumulator is not below the new
/// value) and, being nonzero, leaves the zero flag clear.
#[test]
fn test_dcp_composite() {
    let mut board = new_board();
    board.reset().unwrap();
    board.cpu_bus_write(0x0010, 0x01).unwrap();
    load_program(&mut board, &[0xc7, 0x10]);
    board.cpu.reg_a = 0x01;
    run_once(&mut board);
    assert_eq!(board.cpu_bus_read(0x0010).unwrap(), 0x00);
    let s = board.dump_state();
    assert!(!s.reg_status.zero);
    assert!(s.reg_status.carry);
}

/// The compare-equal case of the same composite: a cell of 0x02 decrements
/// to 0x01, equal to the accumulator, so both zero and carry are set.
#[test]
fn test_dcp_composite_compare_equal() {
    let mut board = new_board();
    board.reset().unwrap();
    board.cpu_bus_write(0x0010, 0x02).unwrap();
    load_program(&mut board, &[0xc7, 0x10]);
    board.cpu.reg_a = 0x01;
    run_once(&mut board);
    assert_eq!(board.cpu_bus_read(0x0010).unwrap(), 0x01);
    let s = board.dump_state();
    assert!(s.reg_status.zero);
    assert!(s.reg_status.carry);
}

/// Memory-mode rotates update the zero flag from the result, exactly as
/// the accumulator form does: rotating 0x80 left with carry clear yields
/// 0x00 (zero set, carry set), and rotating 0x01 left clears a previously
/// set zero flag.
#[test]
fn test_rol_memory_zero_flag() {
    let mut board = new_board();
    board.reset().unwrap();
    board.cpu_bus_write(0x0010, 0x80).unwrap();
    load_program(&mut board, &[0x26, 0x10]); // ROL $10
    run_once(&mut board);
    assert_eq!(board.cpu_bus_read(0x0010).unwrap(), 0x00);
    let s = board.dump_state();
    assert!(s.reg_status.zero);
    assert!(s.reg_status.carry);
    assert!(!s.reg_status.negative);

    let mut board = new_board();
    board.reset().unwrap();
    board.cpu_bus_write(0x0010, 0x01).unwrap();
    load_program(&mut board, &[0x26, 0x10]); // ROL $10
    board.cpu.reg_status = 0x26; // zero flag set beforehand
    run_once(&mut board);
    assert_eq!(board.cpu_bus_read(0x0010).unwrap(), 0x02);
    assert!(!board.dump_state().reg_status.zero);
}

/// The same for rotate right: 0x01 with carry clear yields 0x00 with zero
/// and carry set.
#[test]
fn test_ror_memory_zero_flag() {
    let mut board = new_board();
    board.reset().unwrap();
    board.cpu_bus_write(0x0010, 0x01).unwrap();
    load_program(&mut board, &[0x66, 0x10]); // ROR $10
    run_once(&mut board);
    assert_eq!(board.cpu_bus_read(0x0010).unwrap(), 0x00);
    let s = board.dump_state();
    assert!(s.reg_status.zero);
    assert!(s.reg_status.carry);
}

/// A taken branch costs one extra cycle, and the relative target is
/// computed from the byte after the opcode.
#[test]
fn test_branch_taken_cycles() {
    let mut board = new_board();
    board.reset().unwrap();
    // BNE +2 with zero flag clear: taken.
    load_program(&mut board, &[0xd0, 0x02, 0xea, 0xea, 0xea]);
    let before = board.dump_state().total_cycles;
    run_once(&mut board);
    assert_eq!(board.dump_state().reg_pc, 0xc004);
    assert_eq!(board.dump_state().total_cycles - before, 3);
}

/// Stack round trip: pushes descend from 0x0100 + SP and pops return the
/// same bytes.
#[test]
fn test_stack_push_pull() {
    let mut board = new_board();
    board.reset().unwrap();
    load_program(&mut board, &[0xa9, 0x42, 0x48, 0xa9, 0x00, 0x68]);
    run_once(&mut board); // LDA #$42
    run_once(&mut board); // PHA
    assert_eq!(board.dump_state().reg_sp, 0xFC);
    assert_eq!(board.cpu_bus_read(0x01FD).unwrap(), 0x42);
    run_once(&mut board); // LDA #$00
    run_once(&mut board); // PLA
    assert_eq!(board.dump_state().reg_a, 0x42);
    assert_eq!(board.dump_state().reg_sp, 0xFD);
}

/// The trace-line parser recovers every field of a well-formed line and
/// rejects a malformed one.
#[test]
fn test_parse_trace_line() {
    let line = trace_line(0xC000, 0x4C, Some(0xF5), Some(0xC5), "JMP", 0, 0, 0, 0x24, 0xFD, 7);
    let log = NESLog::parse_line(&line).unwrap();
    assert_eq!(log.reg_pc, 0xC000);
    assert_eq!(log.opcode, 0x4C);
    assert_eq!(log.bytes, 0xC5F5);
    assert_eq!(log.instruction_abbr, b"JMP".to_vec());
    assert_eq!(log.reg_a, 0);
    assert_eq!(log.reg_status, 0x24);
    assert_eq!(log.reg_sp, 0xFD);
    assert_eq!(log.cpu_cycles, 7);
    assert_eq!(log.ppu_frames, 0);
    assert_eq!(log.ppu_cycles, 0);

    let bad = b"not a trace line".to_vec();
    assert!(NESLog::parse_line(&bad).is_none());
}
