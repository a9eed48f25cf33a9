use chip8::display::{Display, DummyDisplay};
use chip8::error::Chip8Error;
use chip8::input::{DummyInput, Input};
use chip8::interpreter::Chip8Interpreter;
use chip8::machine::{
    decode, next_random_byte, Instruction, InterpreterState, CHIP8_FONT_LOOKUP, CHIP8_FONT_PAGE,
    CHIP8_INTERRUPT_CYCLES,
};
use chip8::memory::MemoryMap;

type Machine = Chip8Interpreter<DummyDisplay, DummyInput>;

/// A machine with the given program and keys, ready to fetch.
fn machine(program: &[u8], keys: &[u8]) -> Machine {
    let mut i = Chip8Interpreter::new(DummyDisplay::new().unwrap(), DummyInput::new(keys)).unwrap();
    i.load_program(program).unwrap();
    i
}

/// Runs `steps` steps, with an interrupt wherever the machine waits for one.
fn run(i: &mut Machine, steps: usize) {
    for _ in 0..steps {
        if i.state == InterpreterState::WaitInterrupt {
            i.interrupt().unwrap();
        }
        i.cycle().unwrap();
    }
}

/// A display that always fails.
struct BrokenDisplay;

impl Display for BrokenDisplay {
    fn draw(&mut self, _data: &[u8]) -> Result<(), Chip8Error> {
        Err(Chip8Error::Display)
    }

    fn get_display_size_bytes(&mut self) -> usize {
        0x100
    }
}

/// A display that remembers the last frame it drew.
struct LastFrame(Vec<u8>);

impl Display for LastFrame {
    fn draw(&mut self, data: &[u8]) -> Result<(), Chip8Error> {
        self.0 = data.to_vec();
        Ok(())
    }

    fn get_display_size_bytes(&mut self) -> usize {
        0x100
    }
}

/// A keypad that always fails.
struct BrokenInput;

impl Input for BrokenInput {
    fn flush_keys(&mut self) -> Result<(), Chip8Error> {
        Err(Chip8Error::Input)
    }

    fn read_key(&mut self) -> Result<Option<u8>, Chip8Error> {
        Err(Chip8Error::Input)
    }

    fn tick(&mut self) -> Result<(), Chip8Error> {
        Err(Chip8Error::Input)
    }
}

#[test]
fn new_machine_is_ready_to_fetch() {
    let i = machine(&[], &[]);
    assert!(i.is_well_formed());
    assert_eq!(i.program_counter, 0x200);
    assert_eq!(i.stack_pointer, 0xece);
    assert_eq!(i.display_pointer, 0xf00);
    assert!(i.state == InterpreterState::FetchDecode);
    assert_eq!(i.instruction, None);
    assert_eq!(
        (i.vx, i.vy, i.i, i.random, i.general_timer, i.tone_timer, i.instruction_data),
        (0, 0, 0, 0, 0, 0, 0)
    );
    assert_eq!(i.memory.bytes[0x108], 0x56);
}

#[test]
fn decode_knows_every_instruction() {
    assert_eq!(decode(0x00e0), Some(Instruction::ClearScreen));
    assert_eq!(decode(0x00ee), Some(Instruction::Ret));
    assert_eq!(decode(0x1fff), Some(Instruction::Branch));
    assert_eq!(decode(0x2000), Some(Instruction::Subroutine));
    assert_eq!(decode(0x3a12), Some(Instruction::SkipVxEq));
    assert_eq!(decode(0x4a12), Some(Instruction::SkipVxNe));
    assert_eq!(decode(0x5120), Some(Instruction::XEqY));
    assert_eq!(decode(0x6123), Some(Instruction::LoadVx));
    assert_eq!(decode(0x7123), Some(Instruction::AddToVx));
    assert_eq!(decode(0x8120), Some(Instruction::LoadXWithY));
    assert_eq!(decode(0x8121), Some(Instruction::XOrWithY));
    assert_eq!(decode(0x8122), Some(Instruction::XAndWithY));
    assert_eq!(decode(0x8123), Some(Instruction::XXorWithY));
    assert_eq!(decode(0x8124), Some(Instruction::XAddY));
    assert_eq!(decode(0x8125), Some(Instruction::XMinusY));
    assert_eq!(decode(0x8126), Some(Instruction::RshiftYLoadX));
    assert_eq!(decode(0x8127), Some(Instruction::YMinusX));
    assert_eq!(decode(0x812e), Some(Instruction::LshiftYLoadX));
    assert_eq!(decode(0x9120), Some(Instruction::XNeY));
    assert_eq!(decode(0xa123), Some(Instruction::SetI));
    assert_eq!(decode(0xb123), Some(Instruction::JumpWithOffset));
    assert_eq!(decode(0xc1ff), Some(Instruction::Random));
    assert_eq!(decode(0xd125), Some(Instruction::DrawSprite));
    assert_eq!(decode(0xe19e), Some(Instruction::SkipKeyEq));
    assert_eq!(decode(0xe1a1), Some(Instruction::SkipKeyNe));
    assert_eq!(decode(0xf107), Some(Instruction::GetTimer));
    assert_eq!(decode(0xf115), Some(Instruction::SetTimer));
    assert_eq!(decode(0xf11e), Some(Instruction::AddXToI));
    assert_eq!(decode(0xf129), Some(Instruction::LoadChar));
    assert_eq!(decode(0xf133), Some(Instruction::XToBcd));
    assert_eq!(decode(0xf155), Some(Instruction::SaveVAtI));
    assert_eq!(decode(0xf165), Some(Instruction::LoadVAtI));
}

#[test]
fn decode_refuses_everything_else() {
    for word in [
        0x0000u16, 0x00e1, 0x00ef, 0x0123, 0x0fff, 0x8128, 0x8129, 0x812a, 0x812d, 0x812f, 0xe000,
        0xe19f, 0xe1a0, 0xf000, 0xf10a, 0xf118, 0xf1ff,
    ] {
        assert_eq!(decode(word), None, "{:04x}", word);
    }
    // nothing comes out of decoding as the second part of a drawing
    let mut known = 0;
    for word in 0..=0xffffu16 {
        match decode(word) {
            Some(Instruction::DrawSpritePt2) => panic!("{:04x}", word),
            Some(_) => known += 1,
            None => {}
        }
    }
    assert_eq!(known, 2 + 12 * 4096 + 9 * 256 + 2 * 16 + 7 * 16);
}

#[test]
fn fetch_takes_40_cycles_for_the_zero_family_and_68_for_the_rest() {
    let mut i = machine(&[], &[]);
    for word in 0..=0xffffu16 {
        i.program_counter = 0x200;
        i.state = InterpreterState::FetchDecode;
        i.memory.write(&word.to_be_bytes(), 0x200, 2).unwrap();
        match (decode(word), i.fetch_and_decode()) {
            (Some(instruction), Ok(cycles)) => {
                assert_eq!(cycles, if word < 0x1000 { 40 } else { 68 }, "{:04x}", word);
                assert_eq!(i.program_counter, 0x202, "{:04x}", word);
                assert_eq!(i.instruction, Some(instruction));
                assert_eq!(i.instruction_data, word);
                assert_eq!(i.vx, (word >> 8) & 0xf);
                assert_eq!(i.vy, (word >> 4) & 0xf);
                assert!(i.state == InterpreterState::Execute);
            }
            (None, Err(error)) => {
                assert_eq!(error, Chip8Error::UnknownOpcode(word));
                assert_eq!(i.program_counter, 0x200, "{:04x}", word);
                assert!(i.state == InterpreterState::FetchDecode);
            }
            (decoded, fetched) => panic!("{:04x}: {:?} but {:?}", word, decoded, fetched),
        }
    }
}

#[test]
fn fetch_moves_the_program_counter_by_two_wherever_it_stands() {
    let mut i = machine(&[], &[]);
    i.memory.write(&[0x12, 0x00, 0x12, 0x00], 0xffc, 4).unwrap();
    for pc in [0x0ffcu16, 0x0ffe] {
        i.program_counter = pc;
        assert_eq!(i.fetch_and_decode(), Ok(68));
        assert_eq!(i.program_counter, pc + 2);
    }
}

#[test]
fn fetch_past_the_end_of_memory_fails() {
    let mut i = machine(&[], &[]);
    for pc in [0x0fffu16, 0x1000, 0x10fe, 0xfffe, 0xffff] {
        i.program_counter = pc;
        assert_eq!(i.fetch_and_decode(), Err(Chip8Error::OutOfBounds));
        assert_eq!(i.program_counter, pc);
        assert!(i.state == InterpreterState::FetchDecode);
    }
}

#[test]
fn unknown_opcode_stops_the_machine_where_it_is() {
    let mut i = machine(&[0x60, 0x01, 0x81, 0x28], &[]);
    assert_eq!(i.cycle(), Ok(68));
    assert_eq!(i.cycle(), Ok(6));
    assert_eq!(i.cycle(), Err(Chip8Error::UnknownOpcode(0x8128)));
    assert_eq!(i.program_counter, 0x202);
    assert_eq!(i.instruction_data, 0x6001);
    assert!(i.state == InterpreterState::FetchDecode);
    // and it stays there
    assert_eq!(i.cycle(), Err(Chip8Error::UnknownOpcode(0x8128)));
}

#[test]
fn call_and_return_come_back_behind_the_call() {
    // 0x200: call 0x206; 0x206: call 0x20a; 0x20a: return
    let mut i = machine(&[0x22, 0x06, 0, 0, 0, 0, 0x22, 0x0a, 0, 0, 0x00, 0xee], &[]);
    run(&mut i, 4);
    assert_eq!(i.program_counter, 0x20a);
    assert_eq!(i.stack_pointer, 0xeca);
    assert_eq!(i.memory.bytes[0xecc..0xed0], [0x02, 0x08, 0x02, 0x02]);
    run(&mut i, 2);
    assert_eq!(i.program_counter, 0x208);
    assert_eq!(i.stack_pointer, 0xecc);
    i.instruction_data = 0x00ee;
    assert_eq!(i.inst_ret(), Ok(10));
    assert_eq!(i.program_counter, 0x202);
    assert_eq!(i.stack_pointer, 0xece);
}

#[test]
fn return_from_an_empty_stack_at_the_end_of_memory_fails() {
    let mut i = machine(&[], &[]);
    for sp in [0x0ffdu16, 0x0ffe, 0x0fff, 0xfffd, 0xfffe, 0xffff] {
        i.stack_pointer = sp;
        i.program_counter = 0x300;
        assert_eq!(i.inst_ret(), Err(Chip8Error::OutOfBounds));
        assert_eq!((i.stack_pointer, i.program_counter), (sp, 0x300));
    }
    i.stack_pointer = 0x0ffc;
    i.memory.write(&[0xab, 0xcd], 0xffe, 2).unwrap();
    assert_eq!(i.inst_ret(), Ok(10));
    assert_eq!((i.stack_pointer, i.program_counter), (0x0ffe, 0xabcd));
}

#[test]
fn call_with_a_stack_that_left_memory_fails() {
    let mut i = machine(&[], &[]);
    i.instruction_data = 0x2345;
    let before = i.memory.bytes.clone();
    for (sp, error) in [
        (0u16, Chip8Error::AddressOverflow),
        (1, Chip8Error::AddressOverflow),
        (0x0fff, Chip8Error::OutOfBounds),
        (0xffff, Chip8Error::OutOfBounds),
    ] {
        i.stack_pointer = sp;
        i.program_counter = 0x202;
        assert_eq!(i.inst_subroutine(), Err(error));
        assert_eq!((i.stack_pointer, i.program_counter), (sp, 0x202));
        assert_eq!(i.memory.bytes, before);
    }
    i.stack_pointer = 2;
    assert_eq!(i.inst_subroutine(), Ok(26));
    assert_eq!((i.stack_pointer, i.program_counter), (0, 0x345));
    assert_eq!(i.memory.bytes[2..4], [0x02, 0x02]);
}

#[test]
fn skip_at_the_end_of_the_address_space_fails() {
    let mut i = machine(&[], &[]);
    i.instruction_data = 0x3000;
    for pc in [0xfffeu16, 0xffff] {
        i.program_counter = pc;
        assert_eq!(i.inst_skip_vx_eq(), Err(Chip8Error::AddressOverflow));
        assert_eq!(i.inst_x_eq_y(), Err(Chip8Error::AddressOverflow));
        assert_eq!(i.skip_key_ne_polled(Ok(None)), Err(Chip8Error::AddressOverflow));
        assert_eq!(i.program_counter, pc);
        // nothing is skipped, so nothing fails
        assert_eq!(i.inst_skip_vx_ne(), Ok(10));
        assert_eq!(i.inst_x_ne_y(), Ok(14));
        assert_eq!(i.skip_key_eq_polled(Ok(None)), Ok(14));
    }
    i.program_counter = 0xfffd;
    assert_eq!(i.inst_skip_vx_eq(), Ok(14));
    assert_eq!(i.program_counter, 0xffff);
}

#[test]
fn carry_and_borrow_go_to_vf() {
    let mut i = machine(&[], &[]);
    i.vx = 1;
    i.vy = 2;
    for (x, y, sum, carry, x_less_y, no_borrow, y_less_x, no_borrow_back) in [
        (0xedu8, 0x4bu8, 0x38u8, 1u8, 0xa2u8, 1u8, 0x5eu8, 0u8),
        (0x2d, 0x4b, 0x78, 0, 0xe2, 0, 0x1e, 1),
        (0x4b, 0x2d, 0x78, 0, 0x1e, 1, 0xe2, 0),
        (0xff, 0xff, 0xfe, 1, 0x00, 1, 0x00, 1),
        (0x00, 0x00, 0x00, 0, 0x00, 1, 0x00, 1),
        (0xff, 0x01, 0x00, 1, 0xfe, 1, 0x02, 0),
    ] {
        i.memory.write(&[x, y], 0xef1, 2).unwrap();
        assert_eq!(i.inst_x_add_y(), Ok(44));
        assert_eq!((i.memory.bytes[0xef1], i.memory.bytes[0xeff]), (sum, carry));
        i.memory.write(&[x, y], 0xef1, 2).unwrap();
        assert_eq!(i.inst_x_minus_y(), Ok(44));
        assert_eq!((i.memory.bytes[0xef1], i.memory.bytes[0xeff]), (x_less_y, no_borrow));
        i.memory.write(&[x, y], 0xef1, 2).unwrap();
        assert_eq!(i.inst_y_minus_x(), Ok(44));
        assert_eq!((i.memory.bytes[0xef1], i.memory.bytes[0xeff]), (y_less_x, no_borrow_back));
        assert_eq!(i.memory.bytes[0xef2], y);
    }
}

#[test]
fn flag_wins_where_the_result_goes_to_vf() {
    let mut i = machine(&[], &[]);
    i.vx = 0xf;
    i.vy = 0;
    i.memory.write(&[0x90], 0xef0, 1).unwrap();
    i.memory.write(&[0x80], 0xeff, 1).unwrap();
    // 0x80 + 0x90 carries; the sum would be 0x10
    assert_eq!(i.inst_x_add_y(), Ok(44));
    assert_eq!(i.memory.bytes[0xeff], 1);
    // shifting V0 into VF: the bit that fell out is what stays
    i.memory.write(&[0x03], 0xef0, 1).unwrap();
    assert_eq!(i.inst_rshift_y_load_x(), Ok(44));
    assert_eq!(i.memory.bytes[0xef0], 1);
    assert_eq!(i.memory.bytes[0xeff], 1);
    i.memory.write(&[0x41], 0xef0, 1).unwrap();
    assert_eq!(i.inst_lshift_y_load_x(), Ok(44));
    assert_eq!(i.memory.bytes[0xef0], 0x82);
    assert_eq!(i.memory.bytes[0xeff], 0);
}

#[test]
fn jump_with_offset_can_leave_the_program_area() {
    let mut i = machine(&[], &[]);
    i.instruction_data = 0xbfff;
    i.memory.write(&[0xff], 0xef0, 1).unwrap();
    assert_eq!(i.inst_jump_with_offset(), Ok(24));
    assert_eq!(i.program_counter, 0x10fe);
    // the offset is V0, whatever x is
    i.instruction_data = 0xb300;
    i.vx = 3;
    i.memory.write(&[0x01, 0, 0, 0x77], 0xef0, 4).unwrap();
    assert_eq!(i.inst_jump_with_offset(), Ok(22));
    assert_eq!(i.program_counter, 0x301);
}

#[test]
fn random_sequence_for_a_seed() {
    let mut i = machine(&[], &[]);
    i.random = 0x0107;
    i.instruction_data = 0xc3ff;
    i.vx = 3;
    let mut drawn = Vec::new();
    let mut seeds = Vec::new();
    for _ in 0..8 {
        assert_eq!(i.inst_random(), Ok(36));
        drawn.push(i.memory.bytes[0xef3]);
        seeds.push(i.random);
    }
    assert_eq!(drawn, [0x82, 0x81, 0xb5, 0x51, 0x13, 0x10, 0xf7, 0xf4]);
    assert_eq!(seeds, [0x8208, 0x8109, 0xb50a, 0x510b, 0x130c, 0x100d, 0xf70e, 0xf40f]);
}

#[test]
fn random_depends_on_seed_table_and_mask_alone() {
    let mut a = machine(&[0x12, 0x00], &[1, 2, 3]);
    let mut b = machine(&[0xff; 64], &[]);
    b.memory.write(&[0xaa; 16], 0xef0, 16).unwrap();
    b.program_counter = 0x400;
    b.general_timer = 9;
    for seed in [0u16, 0x00ff, 0x0107, 0x1234, 0xfffe, 0xffff] {
        a.random = seed;
        b.random = seed;
        a.instruction_data = 0xc00f;
        a.vx = 0;
        b.instruction_data = 0xc70f;
        b.vx = 7;
        assert_eq!(a.inst_random(), b.inst_random());
        assert_eq!(a.random, b.random);
        assert_eq!(a.memory.bytes[0xef0], b.memory.bytes[0xef7]);
        assert!(a.memory.bytes[0xef0] <= 0x0f);
    }
    // the seed wraps
    a.random = 0xffff;
    a.inst_random().unwrap();
    assert_eq!(a.random, 0x0000);
    a.random = 0x00ff;
    a.inst_random().unwrap();
    assert_eq!(a.random, 0x0100);
}

#[test]
fn random_byte_formula() {
    // 0x56 + 0x01 == 0x57, 0x57 / 2 + 0x57 == 0x82
    assert_eq!(next_random_byte(0x0108, 0x56), 0x82);
    // both additions wrap
    assert_eq!(next_random_byte(0xff00, 0x02), 0x01);
    assert_eq!(next_random_byte(0x0000, 0xff), 0x7e);
    assert_eq!(next_random_byte(0x0000, 0x00), 0x00);
}

#[test]
fn interrupt_counts_timers_down_to_zero_and_no_further() {
    let mut i = machine(&[], &[]);
    assert_eq!(CHIP8_INTERRUPT_CYCLES, 1831);
    for (general, tone, cycles, general_after, tone_after) in [
        (0u8, 0u8, 1831usize, 0u8, 0u8),
        (1, 0, 1839, 0, 0),
        (0, 1, 1835, 0, 0),
        (1, 1, 1843, 0, 0),
        (255, 2, 1843, 254, 1),
    ] {
        i.general_timer = general;
        i.tone_timer = tone;
        assert_eq!(i.interrupt(), Ok(cycles));
        assert_eq!((i.general_timer, i.tone_timer), (general_after, tone_after));
    }
    // the seed wraps
    i.random = 0xffff;
    i.interrupt().unwrap();
    assert_eq!(i.random, 0);
}

#[test]
fn interrupt_resumes_a_waiting_instruction_only() {
    let mut i = machine(&[0xd0, 0x01], &[]);
    assert_eq!(i.interrupt(), Ok(1831));
    assert!(i.state == InterpreterState::FetchDecode);
    run(&mut i, 1);
    assert_eq!(i.interrupt(), Ok(1831));
    assert!(i.state == InterpreterState::Execute);
    assert_eq!(i.cycle(), Ok(26 + 7));
    assert!(i.state == InterpreterState::WaitInterrupt);
    assert_eq!(i.instruction, Some(Instruction::DrawSpritePt2));
    // waiting takes one machine cycle at a time and changes nothing
    let before = i.memory.bytes.clone();
    assert_eq!(i.cycle(), Ok(1));
    assert_eq!(i.cycle(), Ok(1));
    assert!(i.state == InterpreterState::WaitInterrupt);
    assert_eq!(i.program_counter, 0x202);
    assert_eq!(i.memory.bytes, before);
    assert_eq!(i.interrupt(), Ok(1831));
    assert!(i.state == InterpreterState::Execute);
    assert_eq!(i.cycle(), Ok(12 + 17 + 8));
    assert!(i.state == InterpreterState::FetchDecode);
}

#[test]
fn interrupt_draws_the_display_buffer() {
    let mut i = Chip8Interpreter::new(LastFrame(Vec::new()), DummyInput::new(&[])).unwrap();
    let frame: Vec<u8> = (0..=255u8).collect();
    i.memory.write(&frame, 0xf00, 0x100).unwrap();
    assert_eq!(i.interrupt(), Ok(1831));
    assert_eq!(i.display.0, frame);
}

#[test]
fn broken_display_stops_the_interrupt() {
    let mut i = Chip8Interpreter::new(BrokenDisplay, DummyInput::new(&[])).unwrap();
    i.load_program(&[0xd0, 0x01]).unwrap();
    i.cycle().unwrap();
    i.cycle().unwrap();
    i.general_timer = 5;
    i.tone_timer = 6;
    i.random = 7;
    assert_eq!(i.interrupt(), Err(Chip8Error::Display));
    assert_eq!((i.general_timer, i.tone_timer, i.random), (5, 6, 7));
    assert!(i.state == InterpreterState::WaitInterrupt);
    // what the drawing brought decides alone
    assert_eq!(i.interrupt_drawn(Err(Chip8Error::Display)), Err(Chip8Error::Display));
    assert_eq!(i.interrupt_drawn(Ok(())), Ok(1843));
    assert_eq!((i.general_timer, i.tone_timer, i.random), (4, 5, 8));
    assert!(i.state == InterpreterState::Execute);
}

#[test]
fn broken_keypad_stops_the_key_instructions() {
    let mut i = Chip8Interpreter::new(DummyDisplay::new().unwrap(), BrokenInput).unwrap();
    i.load_program(&[0xe0, 0x9e, 0xe0, 0xa1]).unwrap();
    assert_eq!(i.cycle(), Ok(68));
    assert!(i.state == InterpreterState::Execute);
    assert_eq!(i.cycle(), Err(Chip8Error::Input));
    // the machine went back to fetching before the instruction ran, and
    // there it stays: the instruction is not tried again
    assert!(i.state == InterpreterState::FetchDecode);
    assert_eq!(i.instruction, Some(Instruction::SkipKeyEq));
    assert_eq!(i.program_counter, 0x202);
    assert_eq!(i.cycle(), Ok(68));
    assert_eq!(i.instruction, Some(Instruction::SkipKeyNe));
    assert_eq!(i.call(), Err(Chip8Error::Input));
    assert!(i.state == InterpreterState::FetchDecode);
    assert_eq!(i.program_counter, 0x204);
    // the handlers themselves leave the state alone
    i.state = InterpreterState::Execute;
    assert_eq!(i.inst_skip_key_ne(), Err(Chip8Error::Input));
    assert!(i.state == InterpreterState::Execute);
    assert_eq!(i.program_counter, 0x204);
    assert_eq!(i.skip_key_eq_polled(Err(Chip8Error::Input)), Err(Chip8Error::Input));
    assert_eq!(i.skip_key_ne_polled(Err(Chip8Error::Input)), Err(Chip8Error::Input));
}

#[test]
fn key_instructions_compare_the_polled_key_with_vx() {
    let mut i = machine(&[], &[]);
    i.vx = 2;
    i.memory.write(&[0x0a], 0xef2, 1).unwrap();
    i.program_counter = 0x300;
    assert_eq!(i.skip_key_eq_polled(Ok(Some(0x0a))), Ok(18));
    assert_eq!(i.program_counter, 0x302);
    assert_eq!(i.skip_key_eq_polled(Ok(Some(0x0b))), Ok(14));
    assert_eq!(i.skip_key_eq_polled(Ok(None)), Ok(14));
    assert_eq!(i.program_counter, 0x302);
    assert_eq!(i.skip_key_ne_polled(Ok(Some(0x0a))), Ok(14));
    assert_eq!(i.program_counter, 0x302);
    assert_eq!(i.skip_key_ne_polled(Ok(Some(0x0b))), Ok(18));
    assert_eq!(i.skip_key_ne_polled(Ok(None)), Ok(18));
    assert_eq!(i.program_counter, 0x306);
}

#[test]
fn index_register_cannot_pass_the_address_space() {
    let mut i = machine(&[], &[]);
    i.vx = 0;
    i.memory.write(&[0x01], 0xef0, 1).unwrap();
    i.i = 0xffff;
    assert_eq!(i.inst_add_x_to_i(), Err(Chip8Error::AddressOverflow));
    assert_eq!(i.i, 0xffff);
    i.i = 0xfffe;
    assert_eq!(i.inst_add_x_to_i(), Ok(16));
    assert_eq!(i.i, 0xffff);
    i.i = 0x0fff;
    assert_eq!(i.inst_add_x_to_i(), Ok(22));
    assert_eq!(i.i, 0x1000);
}

#[test]
fn glyph_addresses_come_from_the_table_of_the_rom() {
    let mut i = machine(&[], &[]);
    i.vx = 5;
    assert_eq!(CHIP8_FONT_PAGE, 0x8100);
    for digit in 0..16u8 {
        // the high nibble of VX does not count
        i.memory.write(&[0xa0 | digit], 0xef5, 1).unwrap();
        assert_eq!(i.inst_load_char(), Ok(20));
        assert_eq!(i.i, 0x8100 + CHIP8_FONT_LOOKUP[digit as usize] as u16);
    }
    i.memory.write(&[0x00], 0xef5, 1).unwrap();
    i.inst_load_char().unwrap();
    assert_eq!(i.i, 0x8130);
    i.memory.write(&[0x0f], 0xef5, 1).unwrap();
    i.inst_load_char().unwrap();
    assert_eq!(i.i, 0x8112);
    // the ROM is not part of memory: a sprite cannot be fetched from it
    i.instruction_data = 0xd005;
    assert_eq!(i.inst_draw_sprite(), Err(Chip8Error::OutOfBounds));
}

#[test]
fn bcd_spells_every_byte() {
    let mut i = machine(&[], &[]);
    i.vx = 4;
    i.i = 0x400;
    for v in 0..=255u8 {
        i.memory.write(&[v], 0xef4, 1).unwrap();
        let cycles = i.inst_x_to_bcd().unwrap();
        let digits = &i.memory.bytes[0x400..0x403];
        assert_eq!(digits, [v / 100, v / 10 % 10, v % 10]);
        assert_eq!(digits[0] as u16 * 100 + digits[1] as u16 * 10 + digits[2] as u16, v as u16);
        assert_eq!(cycles, 84 + 16 * (digits[0] + digits[1] + digits[2]) as usize);
        assert_eq!(i.i, 0x400);
    }
    i.i = 0xffe;
    let before = i.memory.bytes.clone();
    assert_eq!(i.inst_x_to_bcd(), Err(Chip8Error::OutOfBounds));
    assert_eq!(i.memory.bytes, before);
    i.i = 0xffd;
    assert_eq!(i.inst_x_to_bcd(), Ok(84 + 16 * 12));
    assert_eq!(i.memory.bytes[0xffd..], [2, 5, 5]);
}

#[test]
fn save_and_load_go_there_and_back() {
    let mut i = machine(&[], &[]);
    let vars: Vec<u8> = (0x10..0x20).collect();
    i.memory.write(&vars, 0xef0, 16).unwrap();
    i.vx = 6;
    i.i = 0x500;
    assert_eq!(i.inst_save_v_at_i(), Ok(14 + 14 * 7 + 4));
    assert_eq!(i.i, 0x507);
    assert_eq!(i.memory.bytes[0x500..0x508], [0x10, 0x11, 0x12, 0x13, 0x14, 0x15, 0x16, 0]);
    i.memory.write(&[0; 16], 0xef0, 16).unwrap();
    i.i = 0x500;
    assert_eq!(i.inst_load_v_at_i(), Ok(14 + 14 * 7 + 4));
    assert_eq!(i.i, 0x507);
    assert_eq!(i.memory.bytes[0xef0..0xef8], [0x10, 0x11, 0x12, 0x13, 0x14, 0x15, 0x16, 0]);
}

#[test]
fn save_and_load_past_the_end_of_memory_fail() {
    let mut i = machine(&[], &[]);
    i.vx = 0xf;
    i.i = 0xff1;
    let before = i.memory.bytes.clone();
    assert_eq!(i.inst_save_v_at_i(), Err(Chip8Error::OutOfBounds));
    assert_eq!(i.inst_load_v_at_i(), Err(Chip8Error::OutOfBounds));
    assert_eq!(i.i, 0xff1);
    assert_eq!(i.memory.bytes, before);
    i.i = 0xff0;
    assert_eq!(i.inst_save_v_at_i(), Ok(242));
    assert_eq!(i.i, 0x1000);
    i.vx = 0;
    assert_eq!(i.inst_load_v_at_i(), Err(Chip8Error::OutOfBounds));
}

#[test]
fn sprite_is_copied_before_the_work_area_is_written() {
    let mut i = machine(&[], &[]);
    // the sprite lies in the work area itself
    i.memory.write(&[0x81, 0x42, 0x24], 0xed0, 3).unwrap();
    i.i = 0xed0;
    i.instruction_data = 0xd003;
    i.vx = 0;
    i.memory.write(&[0x01], 0xef0, 1).unwrap();
    assert_eq!(i.inst_draw_sprite(), Ok(26 + 10 * 3 + 7 * 3));
    assert_eq!(i.memory.bytes[0xed0..0xed8], [0x40, 0x80, 0x21, 0x00, 0x12, 0x00, 0, 0]);
}

#[test]
fn sprite_past_the_end_of_memory_is_refused() {
    let mut i = machine(&[], &[]);
    i.i = 0xffe;
    i.instruction_data = 0xd003;
    let before = i.memory.bytes.clone();
    assert_eq!(i.inst_draw_sprite(), Err(Chip8Error::OutOfBounds));
    assert!(i.state == InterpreterState::FetchDecode);
    assert_eq!(i.instruction, None);
    assert_eq!(i.memory.bytes, before);
    i.instruction_data = 0xd002;
    assert_eq!(i.inst_draw_sprite(), Ok(26 + 7 * 2));
    assert!(i.state == InterpreterState::WaitInterrupt);
}

#[test]
fn sprite_drawn_twice_restores_the_display_and_collides() {
    // I = 0x20c; V0 = 13; V1 = 6; draw V0, V1, 3 rows; the same again
    let program = [
        0xa2, 0x0c, 0x60, 0x0d, 0x61, 0x06, 0xd0, 0x13, 0xd0, 0x13, 0x00, 0x00, 0xff, 0x81, 0x3c,
    ];
    let mut i = machine(&program, &[]);
    // something to draw over
    let background: Vec<u8> = (0..=255u8).map(|k| k.wrapping_mul(37)).collect();
    i.memory.write(&background, 0xf00, 0x100).unwrap();
    run(&mut i, 6);
    run(&mut i, 3);
    assert!(i.state == InterpreterState::FetchDecode);
    assert_ne!(i.memory.bytes[0xf00..], background[..]);
    // the sprite starts in byte 1 of row 6, shifted by 5 bits
    assert_eq!(i.memory.bytes[0xf31], background[0x31] ^ 0x07);
    assert_eq!(i.memory.bytes[0xf32], background[0x32] ^ 0xf8);
    run(&mut i, 3);
    assert!(i.state == InterpreterState::FetchDecode);
    assert_eq!(i.program_counter, 0x20a);
    assert_eq!(i.memory.bytes[0xf00..], background[..]);
    assert_eq!(i.memory.bytes[0xeff], 1);
}

#[test]
fn sprite_wraps_its_place_but_not_its_pixels() {
    let mut i = machine(&[], &[]);
    i.memory.write(&[0xff], 0x300, 1).unwrap();
    i.i = 0x300;
    i.instruction_data = 0xd011;
    i.vx = 0;
    i.vy = 1;
    // column 64 + 60 and row 32 + 31: the place wraps to column 60, row 31
    i.memory.write(&[124, 63], 0xef0, 2).unwrap();
    assert_eq!(i.inst_draw_sprite(), Ok(26 + 10 * 4 + 7));
    assert_eq!(i.inst_draw_sprite_pt2(), Ok(12 + 17));
    assert_eq!(i.memory.bytes[0xfff], 0x0f);
    // the right-hand byte fell off the bottom of the display
    assert_eq!(i.memory.bytes[0xf00..0xfff], [0u8; 0xff]);
    assert_eq!(i.memory.bytes[0xeff], 0);
}

#[test]
fn failed_instruction_is_not_tried_again() {
    // I = 0xfff; draw 2 rows from there; V5 = 7
    let mut i = machine(&[0xaf, 0xff, 0xd0, 0x02, 0x65, 0x07], &[]);
    run(&mut i, 3);
    assert!(i.state == InterpreterState::Execute);
    let before = i.memory.bytes.clone();
    assert_eq!(i.cycle(), Err(Chip8Error::OutOfBounds));
    // the machine is fetching, and nothing else has changed
    assert!(i.state == InterpreterState::FetchDecode);
    assert_eq!(i.instruction, Some(Instruction::DrawSprite));
    assert_eq!(i.instruction_data, 0xd002);
    assert_eq!(i.program_counter, 0x204);
    assert_eq!(i.i, 0xfff);
    assert_eq!(i.memory.bytes, before);
    // the next step fetches the next instruction
    assert_eq!(i.cycle(), Ok(68));
    assert_eq!(i.instruction, Some(Instruction::LoadVx));
    assert_eq!(i.cycle(), Ok(6));
    assert_eq!(i.memory.bytes[0xef5], 7);
}

#[test]
fn sprite_in_the_last_byte_column_loses_its_right_half() {
    // V0 = 60; V1 = 0; I = 0x300; draw V0, V1, 1 row
    let mut i = machine(&[0x60, 0x3c, 0x61, 0x00, 0xa3, 0x00, 0xd0, 0x11], &[]);
    i.memory.write(&[0xff], 0x300, 1).unwrap();
    for _ in 0..8 {
        i.cycle().unwrap();
    }
    assert!(i.state == InterpreterState::WaitInterrupt);
    assert_eq!(i.memory.bytes[0xed0..0xed2], [0x0f, 0xf0]);
    i.interrupt().unwrap();
    // the left byte alone is drawn
    assert_eq!(i.cycle(), Ok(12 + 17));
    assert_eq!(i.memory.bytes[0xf07], 0x0f);
    assert_eq!(i.memory.bytes[0xf08], 0x00);
    assert_eq!(i.memory.bytes[0xf00..].iter().filter(|b| **b != 0).count(), 1);
    assert_eq!(i.memory.bytes[0xeff], 0);
    // the same in a lower row: V1 = 9
    let mut i = machine(&[0x60, 0x3c, 0x61, 0x09, 0xa3, 0x00, 0xd0, 0x11], &[]);
    i.memory.write(&[0xff], 0x300, 1).unwrap();
    run(&mut i, 9);
    assert_eq!(i.memory.bytes[0xf4f], 0x0f);
    assert_eq!(i.memory.bytes[0xf50], 0x00);
}

#[test]
fn timers_are_read_and_set_through_vx() {
    let mut i = machine(&[0x63, 0x2a, 0xf3, 0x15, 0xf4, 0x07], &[]);
    run(&mut i, 4);
    assert_eq!(i.general_timer, 0x2a);
    i.interrupt().unwrap();
    run(&mut i, 2);
    assert_eq!(i.memory.bytes[0xef4], 0x29);
}

#[test]
fn clear_screen_clears_the_display_only() {
    let mut i = machine(&[], &[]);
    i.memory.write(&[0xff; 0x130], 0xed0, 0x130).unwrap();
    assert_eq!(i.inst_clear_screen(), Ok(24));
    assert_eq!(i.memory.bytes[0xed0..0xf00], [0xff; 0x30]);
    assert_eq!(i.memory.bytes[0xf00..], [0; 0x100]);
}

#[test]
fn program_that_does_not_fit_is_refused() {
    let mut i = machine(&[], &[]);
    assert_eq!(i.load_program(&[0u8; 0xe01]), Err(Chip8Error::OutOfBounds));
    assert_eq!(i.load_program(&[0x12u8; 0xe00]), Ok(()));
    assert_eq!(i.memory.bytes[0xfff], 0x12);
}

#[test]
fn errors_describe_themselves() {
    assert_eq!(Chip8Error::UnknownOpcode(0x8128).describe(), "failed to decode instruction");
    assert_eq!(Chip8Error::OutOfBounds.describe(), "memory access out of bounds");
    assert_eq!(Chip8Error::AddressOverflow.describe(), "address register overflow");
    assert_eq!(Chip8Error::Display.describe(), "display failure");
    assert_eq!(Chip8Error::Input.describe(), "input failure");
    assert_eq!(Chip8Error::Sound.describe(), "sound failure");
}
