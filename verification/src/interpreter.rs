//! The interpreter: the registers of the VIP's CHIP-8 interpreter, its
//! memory, and the display and keypad that it talks to.
//!
//! The RCA 1802 has 16 16-bit registers.  The interpreter uses them so:
//!
//! ```text
//!  2    stack pointer
//!  5    chip-8 program counter
//!  6    VX pointer
//!  7    VY pointer
//!  8.0  tone timer
//!  8.1  general timer
//!  9    random number
//!  A    I pointer
//!  B    display page pointer
//! ```
//!
//! Every handler returns the machine cycles that the VIP would have taken.
use crate::bits::{
    add_with_carry, address_bits, bit_offset, byte_bits, high_byte, low_byte, low_digit,
    make_word, nibble_bits, page_nibble, page_of, shift_left, shift_right, subtract_with_borrow,
    wrapped_column, wrapped_row, x_bits, y_bits,
};
use crate::display::Display;
use crate::error::Chip8Error;
use crate::input::Input;
use crate::machine::{
    count_seed, decode, initial_machine, next_random_byte, polls_keys, Instruction, InterpreterState, KeyPoll,
    MachineState, Outcome, CHIP8_FONT_LOOKUP, CHIP8_FONT_PAGE, CHIP8_INTERRUPT_CYCLES,
};
use crate::memory::{
    splice, Chip8MemoryMap, MemoryMap, CHIP8_DISPLAY_SIZE_BYTES, CHIP8_INTERPRETER_STUB_ADDR,
    CHIP8_WORK_SIZE_BYTES,
};
use crate::sprite::{blit_sprite, lemma_blit_cost_bounds, shift_sprite};
use vstd::prelude::*;

verus! {

/// The CHIP-8 machine with the display `D` and the keypad `I` plugged in.
pub struct Chip8Interpreter<D: Display, I: Input> {
    pub memory: Chip8MemoryMap,
    pub display: D,
    pub input: I,
    pub stack_pointer: u16,
    /// The decoded instruction; its operands stay in `instruction_data`.
    pub instruction: Option<Instruction>,
    pub instruction_data: u16,
    pub program_counter: u16,
    pub vx: u16,
    pub vy: u16,
    pub tone_timer: u8,
    pub general_timer: u8,
    pub random: u16,
    pub i: u16,
    pub display_pointer: u16,
    pub state: InterpreterState,
}

impl<D: Display, I: Input> View for Chip8Interpreter<D, I> {
    type V = MachineState;

    open spec fn view(&self) -> MachineState {
        MachineState {
            memory: self.memory@,
            stack_pointer: self.stack_pointer,
            instruction: self.instruction,
            instruction_data: self.instruction_data,
            program_counter: self.program_counter,
            vx: self.vx,
            vy: self.vy,
            tone_timer: self.tone_timer,
            general_timer: self.general_timer,
            random: self.random,
            i: self.i,
            display_pointer: self.display_pointer,
            state: self.state,
        }
    }
}

impl<D: Display, I: Input> Chip8Interpreter<D, I> {
    /// The invariant of the interpreter.
    pub open spec fn wf(&self) -> bool {
        self.memory.wf() && self@.wf()
    }

    /// Whether display and keypad are as they were in `before`.
    pub open spec fn same_devices(&self, before: &Self) -> bool {
        self.display == before.display && self.input == before.input
    }

    /// The machine as it is now, together with what the last step returned.
    pub open spec fn stepped(&self, result: Result<usize, Chip8Error>) -> Outcome {
        Outcome { after: self@, result }
    }

    /// An interpreter that is ready to run the program at 0x200.
    pub fn new(display: D, input: I) -> (r: Result<Self, Chip8Error>)
        ensures
            r is Ok,
            r.unwrap().wf(),
            r.unwrap()@ == initial_machine(),
            r.unwrap().display == display,
            r.unwrap().input == input,
    {
        let m = Chip8MemoryMap::new()?;
        let mut i = Chip8Interpreter {
            memory: m,
            display,
            input,
            stack_pointer: 0x0000,
            instruction: None,
            instruction_data: 0x0000,
            program_counter: 0x0000,
            vx: 0x0000,
            vy: 0x0000,
            tone_timer: 0x00,
            general_timer: 0x00,
            random: 0x0000,
            i: 0x0000,
            display_pointer: 0x0000,
            state: InterpreterState::FetchDecode,
        };
        i.stack_pointer = i.memory.stack_addr;
        i.program_counter = i.memory.program_addr;
        i.display_pointer = i.memory.display_addr;
        Ok(i)
    }

    /// Checks the invariant of the interpreter, for callers that cannot
    /// prove it.
    pub fn is_well_formed(&self) -> (ok: bool)
        ensures
            ok == self.wf(),
    {
        self.memory.is_well_formed() && self.vx < 16 && self.vy < 16 && self.display_pointer
            == crate::memory::CHIP8_DISPLAY_ADDR && (self.state == InterpreterState::FetchDecode
            || self.instruction.is_some())
    }

    /// Loads a CHIP-8 program.
    pub fn load_program(&mut self, program: &[u8]) -> (r: Result<(), Chip8Error>)
        requires
            old(self).wf(),
        ensures
            final(self).wf(),
            final(self).same_devices(old(self)),
            r is Ok <==> crate::memory::CHIP8_PROGRAM_ADDR + program@.len()
                <= crate::memory::CHIP8_RAM_SIZE_BYTES,
            r is Err ==> r == Err::<(), Chip8Error>(Chip8Error::OutOfBounds),
            r is Err ==> final(self)@ == old(self)@,
            r is Ok ==> final(self)@ == (MachineState {
                memory: splice(
                    old(self)@.memory,
                    crate::memory::CHIP8_PROGRAM_ADDR as int,
                    program@,
                ),
                ..old(self)@
            }),
    {
        self.memory.load_program(program)
    }

    /// The variable V`k`.
    fn var(&self, k: u16) -> (v: u8)
        requires
            self.wf(),
            k < 16,
        ensures
            v == self@.var(k as int),
    {
        let cell = self.memory.get_ro_slice(self.memory.var_addr + k, 1);
        cell.unwrap()[0]
    }

    /// Puts `v` into V`k`.
    fn set_var(&mut self, k: u16, v: u8)
        requires
            old(self).wf(),
            k < 16,
        ensures
            final(self).wf(),
            final(self).same_devices(old(self)),
            final(self)@ == old(self)@.with_var(k as int, v),
    {
        let cell = self.memory.get_rw_slice(self.memory.var_addr + k, 1);
        let bytes = cell.unwrap();
        bytes[0] = v;
        proof {
            assert(self.memory@ =~= old(self).memory@.update(
                crate::memory::CHIP8_VAR_ADDR + k,
                v,
            ));
        }
    }

    /// Moves the program counter past the next instruction where `taken`.
    fn skip_if(&mut self, taken: bool, dear: usize, cheap: usize) -> (r: Result<usize, Chip8Error>)
        requires
            old(self).wf(),
        ensures
            final(self).wf(),
            final(self).same_devices(old(self)),
            final(self).stepped(r) == old(self)@.skip(taken, dear as int, cheap as int),
    {
        if !taken {
            Ok(cheap)
        } else if self.program_counter > u16::MAX - 2 {
            Err(Chip8Error::AddressOverflow)
        } else {
            self.program_counter += 2;
            Ok(dear)
        }
    }

    /// The display interrupt: draws the display buffer, counts the random
    /// seed and the timers, and lets an instruction that waited for the
    /// interrupt go on.  What happens depends on how the drawing goes: see
    /// `interrupt_drawn`.
    pub fn interrupt(&mut self) -> (r: Result<usize, Chip8Error>)
        requires
            old(self).wf(),
        ensures
            final(self).wf(),
            final(self).input == old(self).input,
            exists|drawn: Result<(), Chip8Error>|
                final(self).stepped(r) == #[trigger] old(self)@.interrupt(drawn),
            r is Err ==> final(self)@ == old(self)@,
            r is Ok ==> r == Ok::<usize, Chip8Error>(old(self)@.interrupt_cycles() as usize),
            r is Ok ==> final(self).general_timer == MachineState::ticked(
                old(self).general_timer,
            ) && final(self).tone_timer == MachineState::ticked(old(self).tone_timer),
    {
        let frame = self.memory.get_ro_slice(self.display_pointer, CHIP8_DISPLAY_SIZE_BYTES)?;
        let drawn = self.display.draw(frame);
        let r = self.interrupt_drawn(drawn);
        proof {
            assert(self.stepped(r) == old(self)@.interrupt(drawn));
        }
        r
    }

    /// The display interrupt after the display buffer was drawn, with how
    /// the drawing went.
    pub fn interrupt_drawn(&mut self, drawn: Result<(), Chip8Error>) -> (r: Result<
        usize,
        Chip8Error,
    >)
        requires
            old(self).wf(),
        ensures
            final(self).wf(),
            final(self).same_devices(old(self)),
            final(self).stepped(r) == old(self)@.interrupt(drawn),
    {
        match drawn {
            Err(e) => Err(e),
            Ok(_) => {
                let mut dur: usize = CHIP8_INTERRUPT_CYCLES;

                // count the random seed
                self.random = self.random.wrapping_add(1);

                // update general timer
                if self.general_timer > 0 {
                    self.general_timer -= 1;
                    dur += 8;
                }

                // update tone timer
                if self.tone_timer > 0 {
                    self.tone_timer -= 1;
                    dur += 4;
                }

                // if we'd been waiting for an interrupt, put the interpreter
                // back into the Execute state, because it is mid-instruction
                if self.state == InterpreterState::WaitInterrupt {
                    self.state = InterpreterState::Execute;
                }
                Ok(dur)
            },
        }
    }

    /// Steps the interpreter forward one state, returning the number of
    /// machine cycles consumed.
    pub fn cycle(&mut self) -> (r: Result<usize, Chip8Error>)
        requires
            old(self).wf(),
        ensures
            final(self).wf(),
            final(self).display == old(self).display,
            exists|polled: KeyPoll| final(self).stepped(r) == #[trigger] old(self)@.cycle(polled),
            !old(self)@.polls_next() ==> final(self).input == old(self).input,
            !old(self)@.polls_next() ==> final(self).stepped(r) == old(self)@.cycle(Ok(None)),
    {
        match self.state {
            InterpreterState::FetchDecode => {
                let r = self.fetch_and_decode();
                proof {
                    assert(self.stepped(r) == old(self)@.cycle(Ok(None)));
                }
                r
            },
            InterpreterState::Execute => {
                let r = self.call();
                proof {
                    let polled = choose|p: KeyPoll|
                        self.stepped(r) == #[trigger] old(self)@.call(p);
                    assert(self.stepped(r) == old(self)@.cycle(polled));
                }
                r
            },
            InterpreterState::WaitInterrupt => {
                proof {
                    assert(self.stepped(Ok(1)) == old(self)@.cycle(Ok(None)));
                }
                Ok(1)
            },
        }
    }

    /// Fetches the instruction at the program counter, figures out what it
    /// is, sets vx and vy, moves the program counter on, and gets ready to
    /// execute.  A word that is no instruction stops everything.
    pub fn fetch_and_decode(&mut self) -> (r: Result<usize, Chip8Error>)
        requires
            old(self).wf(),
        ensures
            final(self).wf(),
            final(self).same_devices(old(self)),
            final(self).stepped(r) == old(self)@.fetch_and_decode(),
            r is Ok ==> final(self).program_counter == old(self).program_counter + 2,
            r is Ok ==> r == Ok::<usize, Chip8Error>(
                if final(self).instruction_data > 0x0fff {
                    68
                } else {
                    40
                },
            ),
    {
        let inst = self.memory.get_word(self.program_counter)?;
        match decode(inst) {
            None => Err(Chip8Error::UnknownOpcode(inst)),
            Some(instruction) => {
                // first byte, second nybble
                self.vx = x_bits(inst);
                // second byte, first nybble
                self.vy = y_bits(inst);
                self.instruction = Some(instruction);
                self.instruction_data = inst;
                self.program_counter += 2;
                self.state = InterpreterState::Execute;

                // 40 cycles for 0xxx and 68 cycles otherwise
                if inst > 0x0fff {
                    Ok(68)
                } else {
                    Ok(40)
                }
            },
        }
    }

    /// Calls the handler of the most recently decoded instruction.  The
    /// interpreter goes back to fetching first, whether the handler then
    /// succeeds or fails.
    pub fn call(&mut self) -> (r: Result<usize, Chip8Error>)
        requires
            old(self).wf(),
            old(self).instruction is Some,
        ensures
            final(self).wf(),
            final(self).display == old(self).display,
            exists|polled: KeyPoll| final(self).stepped(r) == #[trigger] old(self)@.call(polled),
            !polls_keys(old(self).instruction->0) ==> final(self).input == old(self).input,
            !polls_keys(old(self).instruction->0) ==> final(self).stepped(r) == old(self)@.call(
                Ok(None),
            ),
    {
        // NB. ordering is important here because instructions can (and need
        //     to) modify the interpreter state
        self.state = InterpreterState::FetchDecode;
        let ghost ready = self@;
        let ghost mut polled: KeyPoll = Ok(None);
        let r = match self.instruction.unwrap() {
            Instruction::ClearScreen => self.inst_clear_screen(),
            Instruction::Ret => self.inst_ret(),
            Instruction::Branch => self.inst_branch(),
            Instruction::Subroutine => self.inst_subroutine(),
            Instruction::SkipVxEq => self.inst_skip_vx_eq(),
            Instruction::SkipVxNe => self.inst_skip_vx_ne(),
            Instruction::XEqY => self.inst_x_eq_y(),
            Instruction::LoadVx => self.inst_load_vx(),
            Instruction::AddToVx => self.inst_add_to_vx(),
            Instruction::LoadXWithY => self.inst_load_x_with_y(),
            Instruction::XOrWithY => self.inst_x_or_with_y(),
            Instruction::XAndWithY => self.inst_x_and_with_y(),
            Instruction::XXorWithY => self.inst_x_xor_with_y(),
            Instruction::XAddY => self.inst_x_add_y(),
            Instruction::XMinusY => self.inst_x_minus_y(),
            Instruction::RshiftYLoadX => self.inst_rshift_y_load_x(),
            Instruction::YMinusX => self.inst_y_minus_x(),
            Instruction::LshiftYLoadX => self.inst_lshift_y_load_x(),
            Instruction::XNeY => self.inst_x_ne_y(),
            Instruction::SetI => self.inst_set_i(),
            Instruction::JumpWithOffset => self.inst_jump_with_offset(),
            Instruction::Random => self.inst_random(),
            Instruction::DrawSprite => self.inst_draw_sprite(),
            Instruction::DrawSpritePt2 => self.inst_draw_sprite_pt2(),
            Instruction::SkipKeyEq => {
                let r = self.inst_skip_key_eq();
                proof {
                    polled = choose|p: KeyPoll| self.stepped(r) == #[trigger] ready.skip_key_eq(p);
                }
                r
            },
            Instruction::SkipKeyNe => {
                let r = self.inst_skip_key_ne();
                proof {
                    polled = choose|p: KeyPoll| self.stepped(r) == #[trigger] ready.skip_key_ne(p);
                }
                r
            },
            Instruction::GetTimer => self.inst_get_timer(),
            Instruction::SetTimer => self.inst_set_timer(),
            Instruction::AddXToI => self.inst_add_x_to_i(),
            Instruction::LoadChar => self.inst_load_char(),
            Instruction::XToBcd => self.inst_x_to_bcd(),
            Instruction::SaveVAtI => self.inst_save_v_at_i(),
            Instruction::LoadVAtI => self.inst_load_v_at_i(),
        };
        proof {
            reveal(MachineState::perform);
            assert(self.stepped(r) == ready.perform(old(self).instruction->0, polled));
            assert(self.stepped(r) == old(self)@.call(polled));
        }
        r
    }

    /// 00e0: clears the screen.
    pub fn inst_clear_screen(&mut self) -> (r: Result<usize, Chip8Error>)
        requires
            old(self).wf(),
        ensures
            final(self).wf(),
            final(self).same_devices(old(self)),
            final(self).stepped(r) == old(self)@.clear_screen(),
    {
        let blank = [0u8; 0x0100];
        self.memory.write(
            vstd::array::array_as_slice(&blank),
            self.display_pointer,
            CHIP8_DISPLAY_SIZE_BYTES,
        )?;
        proof {
            assert(blank@.take(0x100) =~= crate::machine::zeros(0x100));
        }
        Ok(24)
    }

    /// 00ee: returns from a subroutine.
    pub fn inst_ret(&mut self) -> (r: Result<usize, Chip8Error>)
        requires
            old(self).wf(),
        ensures
            final(self).wf(),
            final(self).same_devices(old(self)),
            final(self).stepped(r) == old(self)@.ret(),
    {
        if self.stack_pointer > u16::MAX - 2 {
            return Err(Chip8Error::OutOfBounds);
        }
        let top = self.stack_pointer + 2;
        let address = self.memory.get_word(top)?;
        self.stack_pointer = top;
        self.program_counter = address;
        Ok(10)
    }

    /// 1nnn: jumps to `nnn`.
    pub fn inst_branch(&mut self) -> (r: Result<usize, Chip8Error>)
        requires
            old(self).wf(),
        ensures
            final(self).wf(),
            final(self).same_devices(old(self)),
            final(self).stepped(r) == old(self)@.branch(),
    {
        self.program_counter = address_bits(self.instruction_data);
        Ok(12)
    }

    /// 2nnn: calls the subroutine at `nnn`.
    pub fn inst_subroutine(&mut self) -> (r: Result<usize, Chip8Error>)
        requires
            old(self).wf(),
        ensures
            final(self).wf(),
            final(self).same_devices(old(self)),
            final(self).stepped(r) == old(self)@.subroutine(),
    {
        if self.stack_pointer < 2 {
            return Err(Chip8Error::AddressOverflow);
        }
        let address = [high_byte(self.program_counter), low_byte(self.program_counter)];
        self.memory.write(vstd::array::array_as_slice(&address), self.stack_pointer, 2)?;
        proof {
            assert(address@.take(2) =~= seq![
                (old(self).program_counter / 0x100) as u8,
                (old(self).program_counter % 0x100) as u8,
            ]);
        }
        self.stack_pointer -= 2;
        self.program_counter = address_bits(self.instruction_data);
        Ok(26)
    }

    /// 3xnn: skips the next instruction if VX equals `nn`.
    pub fn inst_skip_vx_eq(&mut self) -> (r: Result<usize, Chip8Error>)
        requires
            old(self).wf(),
        ensures
            final(self).wf(),
            final(self).same_devices(old(self)),
            final(self).stepped(r) == old(self)@.skip_vx_eq(),
    {
        let lhs = self.var(self.vx);
        let rhs = byte_bits(self.instruction_data);
        self.skip_if(lhs == rhs, 14, 10)
    }

    /// 4xnn: skips the next instruction if VX differs from `nn`.
    pub fn inst_skip_vx_ne(&mut self) -> (r: Result<usize, Chip8Error>)
        requires
            old(self).wf(),
        ensures
            final(self).wf(),
            final(self).same_devices(old(self)),
            final(self).stepped(r) == old(self)@.skip_vx_ne(),
    {
        let lhs = self.var(self.vx);
        let rhs = byte_bits(self.instruction_data);
        self.skip_if(lhs != rhs, 14, 10)
    }

    /// 5xy0: skips the next instruction if VX equals VY.
    pub fn inst_x_eq_y(&mut self) -> (r: Result<usize, Chip8Error>)
        requires
            old(self).wf(),
        ensures
            final(self).wf(),
            final(self).same_devices(old(self)),
            final(self).stepped(r) == old(self)@.x_eq_y(),
    {
        let lhs = self.var(self.vx);
        let rhs = self.var(self.vy);
        self.skip_if(lhs == rhs, 18, 14)
    }

    /// 6xnn: loads VX with `nn`.
    pub fn inst_load_vx(&mut self) -> (r: Result<usize, Chip8Error>)
        requires
            old(self).wf(),
        ensures
            final(self).wf(),
            final(self).same_devices(old(self)),
            final(self).stepped(r) == old(self)@.load_vx(),
    {
        self.set_var(self.vx, byte_bits(self.instruction_data));
        Ok(6)
    }

    /// 7xnn: adds `nn` to VX, without a carry.
    pub fn inst_add_to_vx(&mut self) -> (r: Result<usize, Chip8Error>)
        requires
            old(self).wf(),
        ensures
            final(self).wf(),
            final(self).same_devices(old(self)),
            final(self).stepped(r) == old(self)@.add_to_vx(),
    {
        let v = self.var(self.vx);
        let sum: u16 = v as u16 + byte_bits(self.instruction_data) as u16;
        self.set_var(self.vx, low_byte(sum));
        Ok(10)
    }

    /// 8xy0: loads VX with VY.
    pub fn inst_load_x_with_y(&mut self) -> (r: Result<usize, Chip8Error>)
        requires
            old(self).wf(),
        ensures
            final(self).wf(),
            final(self).same_devices(old(self)),
            final(self).stepped(r) == old(self)@.load_x_with_y(),
    {
        let vy = self.var(self.vy);
        self.set_var(self.vx, vy);
        Ok(12)
    }

    /// 8xy1: ORs VY into VX.
    pub fn inst_x_or_with_y(&mut self) -> (r: Result<usize, Chip8Error>)
        requires
            old(self).wf(),
        ensures
            final(self).wf(),
            final(self).same_devices(old(self)),
            final(self).stepped(r) == old(self)@.x_or_with_y(),
    {
        let vy = self.var(self.vy);
        let vx = self.var(self.vx);
        self.set_var(self.vx, vx | vy);
        Ok(44)
    }

    /// 8xy2: ANDs VY into VX.
    pub fn inst_x_and_with_y(&mut self) -> (r: Result<usize, Chip8Error>)
        requires
            old(self).wf(),
        ensures
            final(self).wf(),
            final(self).same_devices(old(self)),
            final(self).stepped(r) == old(self)@.x_and_with_y(),
    {
        let vy = self.var(self.vy);
        let vx = self.var(self.vx);
        self.set_var(self.vx, vx & vy);
        Ok(44)
    }

    /// 8xy3: XORs VY into VX.
    pub fn inst_x_xor_with_y(&mut self) -> (r: Result<usize, Chip8Error>)
        requires
            old(self).wf(),
        ensures
            final(self).wf(),
            final(self).same_devices(old(self)),
            final(self).stepped(r) == old(self)@.x_xor_with_y(),
    {
        let vy = self.var(self.vy);
        let vx = self.var(self.vx);
        self.set_var(self.vx, vx ^ vy);
        Ok(44)
    }

    /// 8xy4: adds VY to VX; VF is the carry.
    pub fn inst_x_add_y(&mut self) -> (r: Result<usize, Chip8Error>)
        requires
            old(self).wf(),
        ensures
            final(self).wf(),
            final(self).same_devices(old(self)),
            final(self).stepped(r) == old(self)@.x_add_y(),
    {
        let vy = self.var(self.vy);
        let vx = self.var(self.vx);
        let (res, carry) = add_with_carry(vx, vy);
        self.set_var(self.vx, res);
        self.set_var(0xf, carry);
        Ok(44)
    }

    /// 8xy5: subtracts VY from VX; VF is 1 where nothing was borrowed.
    pub fn inst_x_minus_y(&mut self) -> (r: Result<usize, Chip8Error>)
        requires
            old(self).wf(),
        ensures
            final(self).wf(),
            final(self).same_devices(old(self)),
            final(self).stepped(r) == old(self)@.x_minus_y(),
    {
        let vy = self.var(self.vy);
        let vx = self.var(self.vx);
        let (res, no_borrow) = subtract_with_borrow(vx, vy);
        self.set_var(self.vx, res);
        self.set_var(0xf, no_borrow);
        Ok(44)
    }

    /// 8xy6: shifts VY right by one bit into VX and VY; VF is the bit that
    /// fell out.
    pub fn inst_rshift_y_load_x(&mut self) -> (r: Result<usize, Chip8Error>)
        requires
            old(self).wf(),
        ensures
            final(self).wf(),
            final(self).same_devices(old(self)),
            final(self).stepped(r) == old(self)@.rshift_y_load_x(),
    {
        let vy = self.var(self.vy);
        let (res, fallen) = shift_right(vy);
        self.set_var(self.vx, res);
        self.set_var(self.vy, res);
        self.set_var(0xf, fallen);
        Ok(44)
    }

    /// 8xy7: loads VX with VY - VX; VF is 1 where nothing was borrowed.
    pub fn inst_y_minus_x(&mut self) -> (r: Result<usize, Chip8Error>)
        requires
            old(self).wf(),
        ensures
            final(self).wf(),
            final(self).same_devices(old(self)),
            final(self).stepped(r) == old(self)@.y_minus_x(),
    {
        let vy = self.var(self.vy);
        let vx = self.var(self.vx);
        let (res, no_borrow) = subtract_with_borrow(vy, vx);
        self.set_var(self.vx, res);
        self.set_var(0xf, no_borrow);
        Ok(44)
    }

    /// 8xye: shifts VY left by one bit into VX and VY; VF is the bit that
    /// fell out.
    pub fn inst_lshift_y_load_x(&mut self) -> (r: Result<usize, Chip8Error>)
        requires
            old(self).wf(),
        ensures
            final(self).wf(),
            final(self).same_devices(old(self)),
            final(self).stepped(r) == old(self)@.lshift_y_load_x(),
    {
        let vy = self.var(self.vy);
        let (res, fallen) = shift_left(vy);
        self.set_var(self.vx, res);
        self.set_var(self.vy, res);
        self.set_var(0xf, fallen);
        Ok(44)
    }

    /// 9xy0: skips the next instruction if VX differs from VY.
    pub fn inst_x_ne_y(&mut self) -> (r: Result<usize, Chip8Error>)
        requires
            old(self).wf(),
        ensures
            final(self).wf(),
            final(self).same_devices(old(self)),
            final(self).stepped(r) == old(self)@.x_ne_y(),
    {
        let lhs = self.var(self.vx);
        let rhs = self.var(self.vy);
        self.skip_if(lhs != rhs, 18, 14)
    }

    /// annn: loads I with `nnn`.
    pub fn inst_set_i(&mut self) -> (r: Result<usize, Chip8Error>)
        requires
            old(self).wf(),
        ensures
            final(self).wf(),
            final(self).same_devices(old(self)),
            final(self).stepped(r) == old(self)@.set_i(),
    {
        self.i = address_bits(self.instruction_data);
        Ok(12)
    }

    /// bnnn: jumps to `nnn` + V0.
    pub fn inst_jump_with_offset(&mut self) -> (r: Result<usize, Chip8Error>)
        requires
            old(self).wf(),
        ensures
            final(self).wf(),
            final(self).same_devices(old(self)),
            final(self).stepped(r) == old(self)@.jump_with_offset(),
    {
        let offset = self.var(0) as u16;
        let base = address_bits(self.instruction_data);
        self.program_counter = base + offset;
        if page_nibble(base) != page_nibble(self.program_counter) {
            // crosses a page boundary
            Ok(24)
        } else {
            Ok(22)
        }
    }

    /// cxnn: loads VX with a random byte, masked with `nn`.
    pub fn inst_random(&mut self) -> (r: Result<usize, Chip8Error>)
        requires
            old(self).wf(),
        ensures
            final(self).wf(),
            final(self).same_devices(old(self)),
            final(self).stepped(r) == old(self)@.random(),
    {
        // increment seed
        let seed = count_seed(self.random);

        // address for random number
        let offset = low_byte(seed);
        let rand_addr = CHIP8_INTERPRETER_STUB_ADDR + offset as u16;

        // fetch byte at rand address
        let table = self.memory.get_ro_slice(rand_addr, 1)?;
        let table_byte = table[0];
        assert(seed == old(self)@.counted_seed());
        assert(table_byte == old(self)@.table_byte());

        // add to high-order byte of seed, div by 2 and add to itself
        let rand_val = next_random_byte(seed, table_byte);

        // save in top byte of seed
        self.random = make_word(rand_val, offset);

        // mask with nn and store in vx
        let masked = rand_val & byte_bits(self.instruction_data);
        let ghost seeded = self@;
        assert(seeded == (MachineState {
            random: (seed % 0x100 + rand_val * 0x100) as u16,
            ..old(self)@
        }));
        self.set_var(self.vx, masked);

        Ok(36)
    }

    /// dxyn: shifts the sprite at I into the work area and waits for the
    /// display interrupt.
    pub fn inst_draw_sprite(&mut self) -> (r: Result<usize, Chip8Error>)
        requires
            old(self).wf(),
        ensures
            final(self).wf(),
            final(self).same_devices(old(self)),
            final(self).stepped(r) == old(self)@.draw_sprite(),
    {
        // bit offset from byte margin
        let x_bit_offset = bit_offset(self.var(self.vx));

        // number of rows in the sprite
        let rows = nibble_bits(self.instruction_data);

        // data to draw (copied, so that the work area may overlap it)
        let sprite = vstd::slice::slice_to_vec(self.memory.get_ro_slice(self.i, rows as usize)?);

        // writable work area
        let work = self.memory.get_rw_slice(self.memory.work_addr, CHIP8_WORK_SIZE_BYTES)?;

        // write a correctly shifted version of the sprite into the work area
        shift_sprite(sprite.as_slice(), x_bit_offset, work);

        proof {
            assert(self.memory@ =~= splice(
                old(self).memory@,
                crate::memory::CHIP8_WORK_ADDR as int,
                crate::sprite::shifted_rows(sprite@, x_bit_offset),
            ));
        }

        // wait for the next display interrupt
        self.state = InterpreterState::WaitInterrupt;
        self.instruction = Some(Instruction::DrawSpritePt2);

        // duration is roughly
        //     25 for preamble
        //   + 10 * (rows * x_bit_offset) for instructions for offsetting
        //   + 7 * (rows) for each row
        //   + 1 for the interrupt wait instruction
        assert(rows * (x_bit_offset as u16) <= 105) by (nonlinear_arith)
            requires
                rows <= 15,
                x_bit_offset <= 7,
        ;
        let shifts = rows * (x_bit_offset as u16);
        Ok((26 + 10 * shifts + 7 * rows) as usize)
    }

    /// dxyn (after the interrupt): XORs the work area into the display buffer
    /// and sets VF where a pixel was cleared.
    pub fn inst_draw_sprite_pt2(&mut self) -> (r: Result<usize, Chip8Error>)
        requires
            old(self).wf(),
        ensures
            final(self).wf(),
            final(self).same_devices(old(self)),
            final(self).stepped(r) == old(self)@.draw_sprite_pt2(),
    {
        // display x and y coords (in bits)
        let vx_val = wrapped_column(self.var(self.vx)) as usize;
        let vy_val = wrapped_row(self.var(self.vy)) as usize;

        // number of rows in the sprite
        let rows = nibble_bits(self.instruction_data) as usize;

        // address to start drawing sprite in the display buffer
        let draw_addr = vx_val / 8  // x byte offset
         + vy_val * 8;  // y byte offset

        // readable work area
        let work = vstd::slice::slice_to_vec(
            self.memory.get_ro_slice(self.memory.work_addr, rows * 2)?,
        );

        // writable vram
        let vram = self.memory.get_rw_slice(self.memory.display_addr, CHIP8_DISPLAY_SIZE_BYTES)?;

        // XOR the work area in, looking for collisions and for bytes that
        // fall off the screen
        let (collision_flag, dur) = blit_sprite(vram, work.as_slice(), draw_addr);

        proof {
            lemma_blit_cost_bounds(old(self)@.vram(), work@, draw_addr as int, work@.len() as int);
            assert(self.memory@ =~= splice(
                old(self).memory@,
                crate::memory::CHIP8_DISPLAY_ADDR as int,
                crate::sprite::blit(old(self)@.vram(), work@, draw_addr as int),
            ));
        }

        // save the collision flag in VF
        self.set_var(0xf, collision_flag);

        // duration is:
        //    (6+6) for preamble/postamble
        //  + (6+6+5) * rows for left byte
        //  + 2 * rows for lbyte collision
        //  + (4 + 4) * rows for right byte (if visible)
        //  + 2 * rows for rbyte collision
        Ok(12 + dur)
    }

    /// ex9e: skips the next instruction if the key that VX names is down.
    /// What happens depends on what the keypad brings: see
    /// `skip_key_eq_polled`.
    pub fn inst_skip_key_eq(&mut self) -> (r: Result<usize, Chip8Error>)
        requires
            old(self).wf(),
        ensures
            final(self).wf(),
            final(self).display == old(self).display,
            exists|polled: KeyPoll|
                final(self).stepped(r) == #[trigger] old(self)@.skip_key_eq(polled),
    {
        let polled = self.input.read_key();
        let r = self.skip_key_eq_polled(polled);
        proof {
            assert(self.stepped(r) == old(self)@.skip_key_eq(polled));
        }
        r
    }

    /// ex9e, after the keypad was polled, with what the poll brought.
    pub fn skip_key_eq_polled(&mut self, polled: KeyPoll) -> (r: Result<usize, Chip8Error>)
        requires
            old(self).wf(),
        ensures
            final(self).wf(),
            final(self).same_devices(old(self)),
            final(self).stepped(r) == old(self)@.skip_key_eq(polled),
    {
        let vx = self.var(self.vx);
        match polled {
            Err(e) => Err(e),
            Ok(Some(key)) => self.skip_if(vx == key, 18, 14),
            Ok(None) => Ok(14),
        }
    }

    /// exa1: skips the next instruction unless the key that VX names is
    /// down.  What happens depends on what the keypad brings: see
    /// `skip_key_ne_polled`.
    pub fn inst_skip_key_ne(&mut self) -> (r: Result<usize, Chip8Error>)
        requires
            old(self).wf(),
        ensures
            final(self).wf(),
            final(self).display == old(self).display,
            exists|polled: KeyPoll|
                final(self).stepped(r) == #[trigger] old(self)@.skip_key_ne(polled),
    {
        let polled = self.input.read_key();
        let r = self.skip_key_ne_polled(polled);
        proof {
            assert(self.stepped(r) == old(self)@.skip_key_ne(polled));
        }
        r
    }

    /// exa1, after the keypad was polled, with what the poll brought.
    pub fn skip_key_ne_polled(&mut self, polled: KeyPoll) -> (r: Result<usize, Chip8Error>)
        requires
            old(self).wf(),
        ensures
            final(self).wf(),
            final(self).same_devices(old(self)),
            final(self).stepped(r) == old(self)@.skip_key_ne(polled),
    {
        let vx = self.var(self.vx);
        match polled {
            Err(e) => Err(e),
            Ok(Some(key)) => self.skip_if(vx != key, 18, 14),
            Ok(None) => self.skip_if(true, 18, 14),
        }
    }

    /// fx07: loads VX with the general timer.
    pub fn inst_get_timer(&mut self) -> (r: Result<usize, Chip8Error>)
        requires
            old(self).wf(),
        ensures
            final(self).wf(),
            final(self).same_devices(old(self)),
            final(self).stepped(r) == old(self)@.get_timer(),
    {
        self.set_var(self.vx, self.general_timer);
        Ok(10)
    }

    /// fx15: loads the general timer with VX.
    pub fn inst_set_timer(&mut self) -> (r: Result<usize, Chip8Error>)
        requires
            old(self).wf(),
        ensures
            final(self).wf(),
            final(self).same_devices(old(self)),
            final(self).stepped(r) == old(self)@.set_timer(),
    {
        self.general_timer = self.var(self.vx);
        Ok(10)
    }

    /// fx1e: adds VX to I.
    pub fn inst_add_x_to_i(&mut self) -> (r: Result<usize, Chip8Error>)
        requires
            old(self).wf(),
        ensures
            final(self).wf(),
            final(self).same_devices(old(self)),
            final(self).stepped(r) == old(self)@.add_x_to_i(),
    {
        let vx = self.var(self.vx) as u16;
        let old_i = self.i;
        if old_i > u16::MAX - vx {
            return Err(Chip8Error::AddressOverflow);
        }
        self.i += vx;
        // 12+4 within the page, 18+4 where the addition carries
        if page_of(old_i) == page_of(self.i) {
            Ok(16)
        } else {
            Ok(22)
        }
    }

    /// fx29: loads I with the address of the glyph for the low digit of VX.
    pub fn inst_load_char(&mut self) -> (r: Result<usize, Chip8Error>)
        requires
            old(self).wf(),
        ensures
            final(self).wf(),
            final(self).same_devices(old(self)),
            final(self).stepped(r) == old(self)@.load_char(),
    {
        let ch = low_digit(self.var(self.vx)) as usize;

        // the table of the VIP's ROM gives the low byte of the glyph's
        // address
        let lookup_addr = CHIP8_FONT_LOOKUP[ch] as u16;

        self.i = CHIP8_FONT_PAGE + lookup_addr;
        Ok(20)
    }

    /// fx33: writes the decimal digits of VX to the three bytes at I.
    pub fn inst_x_to_bcd(&mut self) -> (r: Result<usize, Chip8Error>)
        requires
            old(self).wf(),
        ensures
            final(self).wf(),
            final(self).same_devices(old(self)),
            final(self).stepped(r) == old(self)@.x_to_bcd(),
    {
        let input = self.var(self.vx);
        let output = [input / 100, (input % 100) / 10, (input % 100) % 10];
        self.memory.write(vstd::array::array_as_slice(&output), self.i, 3)?;
        proof {
            assert(output@.take(3) =~= crate::machine::bcd_digits(input));
        }
        // 4 + 80, and 16 for each count of 1, 10 and 100
        Ok(84 + 16 * ((output[0] + output[1] + output[2]) as usize))
    }

    /// fx55: saves V0 to VX at I; I ends up behind them.
    pub fn inst_save_v_at_i(&mut self) -> (r: Result<usize, Chip8Error>)
        requires
            old(self).wf(),
        ensures
            final(self).wf(),
            final(self).same_devices(old(self)),
            final(self).stepped(r) == old(self)@.save_v_at_i(),
    {
        let count = 1 + self.vx as usize;
        let v = vstd::slice::slice_to_vec(self.memory.get_ro_slice(self.memory.var_addr, count)?);
        self.memory.write(v.as_slice(), self.i, v.len())?;
        proof {
            assert(v@.take(count as int) =~= v@);
        }

        // i points at address after i+vx
        self.i += self.vx + 1;
        // 14 + 14 * x + 4
        Ok(14 + 14 * count + 4)
    }

    /// fx65: loads V0 to VX from I; I ends up behind them.
    pub fn inst_load_v_at_i(&mut self) -> (r: Result<usize, Chip8Error>)
        requires
            old(self).wf(),
        ensures
            final(self).wf(),
            final(self).same_devices(old(self)),
            final(self).stepped(r) == old(self)@.load_v_at_i(),
    {
        let count = 1 + self.vx as usize;
        let v = vstd::slice::slice_to_vec(self.memory.get_ro_slice(self.i, count)?);
        self.memory.write(v.as_slice(), self.memory.var_addr, v.len())?;
        proof {
            assert(v@.take(count as int) =~= v@);
        }

        // i points at address after i+vx
        self.i += self.vx + 1;
        // 14 + 14 * x + 4
        Ok(14 + 14 * count + 4)
    }
}

} // verus!
