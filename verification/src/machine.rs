//! The machine as mathematics: its registers and memory as plain values, and
//! what every instruction makes of them.
//!
//! The interpreter's executable code is proved against these definitions.
use crate::bits::{address_of, byte_of, family_of, nibble_of, x_of, y_of};
use crate::error::Chip8Error;
use crate::memory::{
    initial_memory, splice, word_at, CHIP8_DISPLAY_ADDR, CHIP8_DISPLAY_SIZE_BYTES,
    CHIP8_INTERPRETER_STUB_ADDR, CHIP8_PROGRAM_ADDR, CHIP8_RAM_SIZE_BYTES, CHIP8_STACK_ADDR,
    CHIP8_VAR_ADDR, CHIP8_WORK_ADDR,
};
use crate::sprite::{blit, blit_cost, collision, shifted_rows};
use vstd::prelude::*;

verus! {

/// State machine for fetch-decode-execute-interrupt.  The interpreter is in
/// a state before and while it does the thing that the state names.
///
/// ```text
///                  .-----------------------.
///                  v                       |
/// .-------.    .----------------.     .---------.
/// | start |--->| fetch + decode |---->| execute |
/// `-------'    `----------------'     `---------'
///                                       |     ^
///                        .----------------.   |
///                        | wait interrupt |---'
///                        `----------------'
/// ```
#[derive(Debug, Clone, Copy, PartialEq, Eq, Structural)]
pub enum InterpreterState {
    FetchDecode,
    Execute,
    /// Waiting for the display interrupt in the middle of an instruction.
    WaitInterrupt,
}

/// The instructions of the CHIP-8, by the names of their handlers.  The
/// operands stay in the instruction word.
#[derive(Debug, Clone, Copy, PartialEq, Eq, Structural)]
pub enum Instruction {
    /// 00e0
    ClearScreen,
    /// 00ee
    Ret,
    /// 1nnn
    Branch,
    /// 2nnn
    Subroutine,
    /// 3xnn
    SkipVxEq,
    /// 4xnn
    SkipVxNe,
    /// 5xy0
    XEqY,
    /// 6xnn
    LoadVx,
    /// 7xnn
    AddToVx,
    /// 8xy0
    LoadXWithY,
    /// 8xy1
    XOrWithY,
    /// 8xy2
    XAndWithY,
    /// 8xy3
    XXorWithY,
    /// 8xy4
    XAddY,
    /// 8xy5
    XMinusY,
    /// 8xy6
    RshiftYLoadX,
    /// 8xy7
    YMinusX,
    /// 8xye
    LshiftYLoadX,
    /// 9xy0
    XNeY,
    /// annn
    SetI,
    /// bnnn
    JumpWithOffset,
    /// cxnn
    Random,
    /// dxyn, up to the display interrupt
    DrawSprite,
    /// dxyn, after the display interrupt
    DrawSpritePt2,
    /// ex9e
    SkipKeyEq,
    /// exa1
    SkipKeyNe,
    /// fx07
    GetTimer,
    /// fx15
    SetTimer,
    /// fx1e
    AddXToI,
    /// fx29
    LoadChar,
    /// fx33
    XToBcd,
    /// fx55
    SaveVAtI,
    /// fx65
    LoadVAtI,
}

/// The instruction that a word stands for, if it stands for any.
pub open spec fn decoded(inst: u16) -> Option<Instruction> {
    let family = family_of(inst);
    let low = nibble_of(inst);
    let byte = byte_of(inst);
    if inst == 0x00e0 {
        Some(Instruction::ClearScreen)
    } else if inst == 0x00ee {
        Some(Instruction::Ret)
    } else if family == 0x1 {
        Some(Instruction::Branch)
    } else if family == 0x2 {
        Some(Instruction::Subroutine)
    } else if family == 0x3 {
        Some(Instruction::SkipVxEq)
    } else if family == 0x4 {
        Some(Instruction::SkipVxNe)
    } else if family == 0x5 {
        Some(Instruction::XEqY)
    } else if family == 0x6 {
        Some(Instruction::LoadVx)
    } else if family == 0x7 {
        Some(Instruction::AddToVx)
    } else if family == 0x8 {
        if low == 0x0 {
            Some(Instruction::LoadXWithY)
        } else if low == 0x1 {
            Some(Instruction::XOrWithY)
        } else if low == 0x2 {
            Some(Instruction::XAndWithY)
        } else if low == 0x3 {
            Some(Instruction::XXorWithY)
        } else if low == 0x4 {
            Some(Instruction::XAddY)
        } else if low == 0x5 {
            Some(Instruction::XMinusY)
        } else if low == 0x6 {
            Some(Instruction::RshiftYLoadX)
        } else if low == 0x7 {
            Some(Instruction::YMinusX)
        } else if low == 0xe {
            Some(Instruction::LshiftYLoadX)
        } else {
            None
        }
    } else if family == 0x9 {
        Some(Instruction::XNeY)
    } else if family == 0xa {
        Some(Instruction::SetI)
    } else if family == 0xb {
        Some(Instruction::JumpWithOffset)
    } else if family == 0xc {
        Some(Instruction::Random)
    } else if family == 0xd {
        Some(Instruction::DrawSprite)
    } else if family == 0xe {
        if byte == 0x9e {
            Some(Instruction::SkipKeyEq)
        } else if byte == 0xa1 {
            Some(Instruction::SkipKeyNe)
        } else {
            None
        }
    } else if family == 0xf {
        if byte == 0x07 {
            Some(Instruction::GetTimer)
        } else if byte == 0x15 {
            Some(Instruction::SetTimer)
        } else if byte == 0x1e {
            Some(Instruction::AddXToI)
        } else if byte == 0x29 {
            Some(Instruction::LoadChar)
        } else if byte == 0x33 {
            Some(Instruction::XToBcd)
        } else if byte == 0x55 {
            Some(Instruction::SaveVAtI)
        } else if byte == 0x65 {
            Some(Instruction::LoadVAtI)
        } else {
            None
        }
    } else {
        None
    }
}

/// The machine cycles that fetching and decoding a word takes: 40 for the
/// words of the 0nnn family and 68 for all others.  This is the overhead of
/// the VIP's interpreter, not the cost of the instruction.
pub open spec fn fetch_cycles(inst: u16) -> usize {
    if inst > 0x0fff {
        68
    } else {
        40
    }
}

/// The machine cycles that the interrupt routine takes when no timer runs.
pub const CHIP8_INTERRUPT_CYCLES: usize = 807 + 1024;

/// The page of the VIP's ROM that holds the table of the glyphs' addresses
/// and, behind it, the glyphs of the hexadecimal digits.
pub const CHIP8_FONT_PAGE: u16 = 0x8100;

/// The low bytes of the addresses of the glyphs for the digits 0 to F, as
/// the table at the start of the font page has them.  The glyphs share rows
/// with each other, which is why the addresses look unordered.
pub const CHIP8_FONT_LOOKUP: [u8; 16] = [
    0x30, 0x39, 0x22, 0x2a, 0x3e, 0x20, 0x24, 0x34, 0x26, 0x28, 0x2e, 0x18, 0x14, 0x1c, 0x10, 0x12,
];

/// What a poll of the keypad can bring.
pub type KeyPoll = Result<Option<u8>, Chip8Error>;

/// The registers and the memory of the machine.
#[verifier::ext_equal]
pub struct MachineState {
    pub memory: Seq<u8>,
    pub stack_pointer: u16,
    pub instruction: Option<Instruction>,
    pub instruction_data: u16,
    pub program_counter: u16,
    pub vx: u16,
    pub vy: u16,
    pub tone_timer: u8,
    pub general_timer: u8,
    pub random: u16,
    pub i: u16,
    pub display_pointer: u16,
    pub state: InterpreterState,
}

/// Where one step of the machine leads: the registers and memory after it,
/// and the machine cycles it took or the failure that stopped it.
#[verifier::ext_equal]
pub struct Outcome {
    pub after: MachineState,
    pub result: Result<usize, Chip8Error>,
}

/// The step went through and took `cycles` machine cycles.
pub open spec fn done(after: MachineState, cycles: int) -> Outcome {
    Outcome { after, result: Ok(cycles as usize) }
}

/// The step failed and left the machine as it was.
pub open spec fn failed(unchanged: MachineState, error: Chip8Error) -> Outcome {
    Outcome { after: unchanged, result: Err(error) }
}

/// `count` zero bytes.
pub open spec fn zeros(count: nat) -> Seq<u8> {
    Seq::new(count, |k: int| 0u8)
}

/// The three decimal digits of a byte, hundreds first.
pub open spec fn bcd_digits(v: u8) -> Seq<u8> {
    seq![v / 100, (v % 100) / 10, v % 10]
}

/// The next random byte for a seed that was already counted up, given the
/// byte that the table holds for the seed: the table's byte plus the seed's
/// high byte, and then that plus its own half, all modulo 256.
pub open spec fn random_byte(seed: u16, table_byte: u8) -> u8 {
    let sum = (seed / 0x100 + table_byte) % 0x100;
    ((sum / 2 + sum) % 0x100) as u8
}

/// The machine as it is switched on: memory with the interpreter stub, the
/// program counter at the start of the program, the stack pointer at the top
/// of the stack, and everything else at zero.
pub open spec fn initial_machine() -> MachineState {
    MachineState {
        memory: initial_memory(),
        stack_pointer: CHIP8_STACK_ADDR,
        instruction: None,
        instruction_data: 0,
        program_counter: CHIP8_PROGRAM_ADDR,
        vx: 0,
        vy: 0,
        tone_timer: 0,
        general_timer: 0,
        random: 0,
        i: 0,
        display_pointer: CHIP8_DISPLAY_ADDR,
        state: InterpreterState::FetchDecode,
    }
}

impl MachineState {
    /// What holds of the machine between any two steps.
    pub open spec fn wf(self) -> bool {
        &&& self.memory.len() == CHIP8_RAM_SIZE_BYTES
        &&& self.vx < 16
        &&& self.vy < 16
        &&& self.display_pointer == CHIP8_DISPLAY_ADDR
        &&& self.state != InterpreterState::FetchDecode ==> self.instruction is Some
    }

    /// The variable V`k`.
    pub open spec fn var(self, k: int) -> u8 {
        self.memory[CHIP8_VAR_ADDR + k]
    }

    /// The machine with `v` in V`k`.
    pub open spec fn with_var(self, k: int, v: u8) -> MachineState {
        MachineState { memory: self.memory.update(CHIP8_VAR_ADDR + k, v), ..self }
    }

    /// The machine with `flag` in VF.
    pub open spec fn with_flag(self, flag: bool) -> MachineState {
        self.with_var(0xf, if flag { 1u8 } else { 0u8 })
    }

    /// The variable that the instruction's `x` names.
    pub open spec fn x(self) -> u8 {
        self.var(self.vx as int)
    }

    /// The variable that the instruction's `y` names.
    pub open spec fn y(self) -> u8 {
        self.var(self.vy as int)
    }

    /// The instruction's address `nnn`.
    pub open spec fn nnn(self) -> u16 {
        address_of(self.instruction_data)
    }

    /// The instruction's byte `nn`.
    pub open spec fn nn(self) -> u8 {
        byte_of(self.instruction_data)
    }

    /// The instruction's nibble `n`.
    pub open spec fn n(self) -> u16 {
        nibble_of(self.instruction_data)
    }

    /// The display buffer.
    pub open spec fn vram(self) -> Seq<u8> {
        self.memory.subrange(
            CHIP8_DISPLAY_ADDR as int,
            CHIP8_DISPLAY_ADDR + CHIP8_DISPLAY_SIZE_BYTES,
        )
    }

    /// The first `count` bytes of the sprite work area.
    pub open spec fn work(self, count: int) -> Seq<u8> {
        self.memory.subrange(CHIP8_WORK_ADDR as int, CHIP8_WORK_ADDR + count)
    }

    /// The place in the display buffer of the pixel that VX and VY name.
    /// The column wraps at 64 and the row at 32.
    pub open spec fn sprite_origin(self) -> int {
        (self.x() % 64) / 8 + (self.y() % 32) * 8
    }

    /// A skip instruction: where `taken`, the program counter moves on by
    /// one more instruction, which costs `dear` machine cycles; where not,
    /// nothing changes, for `cheap` machine cycles.
    pub open spec fn skip(self, taken: bool, dear: int, cheap: int) -> Outcome {
        if !taken {
            done(self, cheap)
        } else if self.program_counter + 2 > u16::MAX {
            failed(self, Chip8Error::AddressOverflow)
        } else {
            done(
                MachineState { program_counter: (self.program_counter + 2) as u16, ..self },
                dear,
            )
        }
    }

    /// Fetching and decoding the word at the program counter.
    pub open spec fn fetch_and_decode(self) -> Outcome {
        let inst = word_at(self.memory, self.program_counter as int) as u16;
        if self.program_counter + 2 > self.memory.len() {
            failed(self, Chip8Error::OutOfBounds)
        } else if decoded(inst) is None {
            failed(self, Chip8Error::UnknownOpcode(inst))
        } else {
            Outcome {
                after: MachineState {
                    vx: x_of(inst),
                    vy: y_of(inst),
                    instruction: decoded(inst),
                    instruction_data: inst,
                    program_counter: (self.program_counter + 2) as u16,
                    state: InterpreterState::Execute,
                    ..self
                },
                result: Ok(fetch_cycles(inst)),
            }
        }
    }

    /// 00e0: clears the screen.
    pub open spec fn clear_screen(self) -> Outcome {
        done(
            MachineState {
                memory: splice(
                    self.memory,
                    self.display_pointer as int,
                    zeros(CHIP8_DISPLAY_SIZE_BYTES as nat),
                ),
                ..self
            },
            24,
        )
    }

    /// 00ee: returns from a subroutine.  The stack grows downward, so the
    /// stack pointer goes up.
    pub open spec fn ret(self) -> Outcome {
        if self.stack_pointer + 4 > self.memory.len() {
            failed(self, Chip8Error::OutOfBounds)
        } else {
            done(
                MachineState {
                    stack_pointer: (self.stack_pointer + 2) as u16,
                    program_counter: word_at(self.memory, self.stack_pointer + 2) as u16,
                    ..self
                },
                10,
            )
        }
    }

    /// 1nnn: jumps to `nnn`.
    pub open spec fn branch(self) -> Outcome {
        done(MachineState { program_counter: self.nnn(), ..self }, 12)
    }

    /// 2nnn: calls the subroutine at `nnn`.  The return address goes to the
    /// stack, high byte first, and the stack pointer goes down.
    pub open spec fn subroutine(self) -> Outcome {
        if self.stack_pointer + 2 > self.memory.len() {
            failed(self, Chip8Error::OutOfBounds)
        } else if self.stack_pointer < 2 {
            failed(self, Chip8Error::AddressOverflow)
        } else {
            done(
                MachineState {
                    memory: splice(
                        self.memory,
                        self.stack_pointer as int,
                        seq![
                            (self.program_counter / 0x100) as u8,
                            (self.program_counter % 0x100) as u8,
                        ],
                    ),
                    stack_pointer: (self.stack_pointer - 2) as u16,
                    program_counter: self.nnn(),
                    ..self
                },
                26,
            )
        }
    }

    /// 3xnn: skips the next instruction if VX equals `nn`.
    pub open spec fn skip_vx_eq(self) -> Outcome {
        self.skip(self.x() == self.nn(), 14, 10)
    }

    /// 4xnn: skips the next instruction if VX differs from `nn`.
    pub open spec fn skip_vx_ne(self) -> Outcome {
        self.skip(self.x() != self.nn(), 14, 10)
    }

    /// 5xy0: skips the next instruction if VX equals VY.
    pub open spec fn x_eq_y(self) -> Outcome {
        self.skip(self.x() == self.y(), 18, 14)
    }

    /// 9xy0: skips the next instruction if VX differs from VY.
    pub open spec fn x_ne_y(self) -> Outcome {
        self.skip(self.x() != self.y(), 18, 14)
    }

    /// 6xnn: VX becomes `nn`.
    pub open spec fn load_vx(self) -> Outcome {
        done(self.with_var(self.vx as int, self.nn()), 6)
    }

    /// 7xnn: VX becomes VX + `nn`, without a carry.
    pub open spec fn add_to_vx(self) -> Outcome {
        done(self.with_var(self.vx as int, ((self.x() + self.nn()) % 0x100) as u8), 10)
    }

    /// 8xy0: VX becomes VY.
    pub open spec fn load_x_with_y(self) -> Outcome {
        done(self.with_var(self.vx as int, self.y()), 12)
    }

    /// 8xy1: VX becomes VX or VY.
    pub open spec fn x_or_with_y(self) -> Outcome {
        done(self.with_var(self.vx as int, self.x() | self.y()), 44)
    }

    /// 8xy2: VX becomes VX and VY.
    pub open spec fn x_and_with_y(self) -> Outcome {
        done(self.with_var(self.vx as int, self.x() & self.y()), 44)
    }

    /// 8xy3: VX becomes VX xor VY.
    pub open spec fn x_xor_with_y(self) -> Outcome {
        done(self.with_var(self.vx as int, self.x() ^ self.y()), 44)
    }

    /// 8xy4: VX becomes VX + VY; VF is 1 where the sum passed 0xff, else 0.
    pub open spec fn x_add_y(self) -> Outcome {
        let sum = self.x() + self.y();
        done(self.with_var(self.vx as int, (sum % 0x100) as u8).with_flag(sum > 0xff), 44)
    }

    /// 8xy5: VX becomes VX - VY; VF is 1 where nothing was borrowed, else 0.
    pub open spec fn x_minus_y(self) -> Outcome {
        let difference = self.x() - self.y();
        done(
            self.with_var(self.vx as int, (difference % 0x100) as u8).with_flag(difference >= 0),
            44,
        )
    }

    /// 8xy7: VX becomes VY - VX; VF is 1 where nothing was borrowed, else 0.
    pub open spec fn y_minus_x(self) -> Outcome {
        let difference = self.y() - self.x();
        done(
            self.with_var(self.vx as int, (difference % 0x100) as u8).with_flag(difference >= 0),
            44,
        )
    }

    /// 8xy6: VX and VY become VY shifted right by one bit; VF is the bit
    /// that fell out.  It is VY that is shifted, as on the VIP.
    pub open spec fn rshift_y_load_x(self) -> Outcome {
        let y = self.y();
        done(
            self.with_var(self.vx as int, y / 2).with_var(self.vy as int, y / 2).with_var(
                0xf,
                y % 2,
            ),
            44,
        )
    }

    /// 8xye: VX and VY become VY shifted left by one bit; VF is the bit
    /// that fell out.  It is VY that is shifted, as on the VIP.
    pub open spec fn lshift_y_load_x(self) -> Outcome {
        let y = self.y();
        let shifted = ((y * 2) % 0x100) as u8;
        done(
            self.with_var(self.vx as int, shifted).with_var(self.vy as int, shifted).with_var(
                0xf,
                y / 0x80,
            ),
            44,
        )
    }

    /// annn: I becomes `nnn`.
    pub open spec fn set_i(self) -> Outcome {
        done(MachineState { i: self.nnn(), ..self }, 12)
    }

    /// bnnn: jumps to `nnn` + V0.  The jump costs more where it leaves the
    /// page of `nnn`.
    pub open spec fn jump_with_offset(self) -> Outcome {
        let to = self.nnn() + self.var(0);
        done(
            MachineState { program_counter: to as u16, ..self },
            if self.nnn() / 0x100 != (to / 0x100) % 0x10 {
                24
            } else {
                22
            },
        )
    }

    /// The seed of the random number generator after it was counted up.
    pub open spec fn counted_seed(self) -> u16 {
        ((self.random + 1) % 0x10000) as u16
    }

    /// The byte of the pseudo-random table that the counted seed selects.
    pub open spec fn table_byte(self) -> u8 {
        self.memory[CHIP8_INTERPRETER_STUB_ADDR + self.counted_seed() % 0x100]
    }

    /// cxnn: VX becomes the next random byte, masked with `nn`.  The seed
    /// keeps its low byte and takes the random byte as its high byte.
    pub open spec fn random(self) -> Outcome {
        let seed = self.counted_seed();
        let value = random_byte(seed, self.table_byte());
        done(
            MachineState { random: (seed % 0x100 + value * 0x100) as u16, ..self }.with_var(
                self.vx as int,
                value & self.nn(),
            ),
            36,
        )
    }

    /// dxyn, first part: shifts the `n` rows of the sprite at I to the bit
    /// column of VX, keeps them in the work area, and waits for the display
    /// interrupt.
    pub open spec fn draw_sprite(self) -> Outcome {
        let offset = (self.x() % 8) as u8;
        let rows = self.n();
        if self.i + rows > self.memory.len() {
            failed(self, Chip8Error::OutOfBounds)
        } else {
            done(
                MachineState {
                    memory: splice(
                        self.memory,
                        CHIP8_WORK_ADDR as int,
                        shifted_rows(self.memory.subrange(self.i as int, self.i + rows), offset),
                    ),
                    state: InterpreterState::WaitInterrupt,
                    instruction: Some(Instruction::DrawSpritePt2),
                    ..self
                },
                26 + 10 * (rows * offset) + 7 * rows,
            )
        }
    }

    /// dxyn, second part: XORs the work area into the display buffer at the
    /// place that VX and VY name, and sets VF where a pixel was cleared.
    pub open spec fn draw_sprite_pt2(self) -> Outcome {
        let work = self.work(2 * self.n());
        let origin = self.sprite_origin();
        done(
            MachineState {
                memory: splice(
                    self.memory,
                    CHIP8_DISPLAY_ADDR as int,
                    blit(self.vram(), work, origin),
                ),
                ..self
            }.with_flag(collision(self.vram(), work, origin)),
            12 + blit_cost(self.vram(), work, origin, work.len() as int),
        )
    }

    /// ex9e: skips the next instruction if the key that VX names is down.
    /// No key at all counts as not down.
    pub open spec fn skip_key_eq(self, polled: KeyPoll) -> Outcome {
        match polled {
            Err(e) => failed(self, e),
            Ok(Some(key)) => self.skip(self.x() == key, 18, 14),
            Ok(None) => self.skip(false, 18, 14),
        }
    }

    /// exa1: skips the next instruction unless the key that VX names is
    /// down.  No key at all counts as not down.
    pub open spec fn skip_key_ne(self, polled: KeyPoll) -> Outcome {
        match polled {
            Err(e) => failed(self, e),
            Ok(Some(key)) => self.skip(self.x() != key, 18, 14),
            Ok(None) => self.skip(true, 18, 14),
        }
    }

    /// fx07: VX becomes the general timer.
    pub open spec fn get_timer(self) -> Outcome {
        done(self.with_var(self.vx as int, self.general_timer), 10)
    }

    /// fx15: the general timer becomes VX.
    pub open spec fn set_timer(self) -> Outcome {
        done(MachineState { general_timer: self.x(), ..self }, 10)
    }

    /// fx1e: I becomes I + VX.  The addition costs more where it carries
    /// into the next page.
    pub open spec fn add_x_to_i(self) -> Outcome {
        let to = self.i + self.x();
        if to > u16::MAX {
            failed(self, Chip8Error::AddressOverflow)
        } else {
            done(
                MachineState { i: to as u16, ..self },
                if self.i / 0x100 == to / 0x100 {
                    16
                } else {
                    22
                },
            )
        }
    }

    /// fx29: I becomes the address of the glyph for the low digit of VX.
    pub open spec fn load_char(self) -> Outcome {
        done(
            MachineState {
                i: (CHIP8_FONT_PAGE + CHIP8_FONT_LOOKUP@[(self.x() % 16) as int]) as u16,
                ..self
            },
            20,
        )
    }

    /// fx33: the three bytes at I become the decimal digits of VX.
    pub open spec fn x_to_bcd(self) -> Outcome {
        let digits = bcd_digits(self.x());
        if self.i + 3 > self.memory.len() {
            failed(self, Chip8Error::OutOfBounds)
        } else {
            done(
                MachineState { memory: splice(self.memory, self.i as int, digits), ..self },
                84 + 16 * (digits[0] + digits[1] + digits[2]),
            )
        }
    }

    /// fx55: the bytes at I become V0 to VX, and I points behind them.
    pub open spec fn save_v_at_i(self) -> Outcome {
        let count = self.vx + 1;
        if self.i + count > self.memory.len() {
            failed(self, Chip8Error::OutOfBounds)
        } else {
            done(
                MachineState {
                    memory: splice(
                        self.memory,
                        self.i as int,
                        self.memory.subrange(CHIP8_VAR_ADDR as int, CHIP8_VAR_ADDR + count),
                    ),
                    i: (self.i + count) as u16,
                    ..self
                },
                14 + 14 * count + 4,
            )
        }
    }

    /// fx65: V0 to VX become the bytes at I, and I points behind them.
    pub open spec fn load_v_at_i(self) -> Outcome {
        let count = self.vx + 1;
        if self.i + count > self.memory.len() {
            failed(self, Chip8Error::OutOfBounds)
        } else {
            done(
                MachineState {
                    memory: splice(
                        self.memory,
                        CHIP8_VAR_ADDR as int,
                        self.memory.subrange(self.i as int, self.i + count),
                    ),
                    i: (self.i + count) as u16,
                    ..self
                },
                14 + 14 * count + 4,
            )
        }
    }

    /// What instruction `instruction` makes of the machine.  `polled` is what
    /// the keypad brought; only the two key instructions look at it.
    #[verifier::opaque]
    pub open spec fn perform(self, instruction: Instruction, polled: KeyPoll) -> Outcome {
        match instruction {
            Instruction::ClearScreen => self.clear_screen(),
            Instruction::Ret => self.ret(),
            Instruction::Branch => self.branch(),
            Instruction::Subroutine => self.subroutine(),
            Instruction::SkipVxEq => self.skip_vx_eq(),
            Instruction::SkipVxNe => self.skip_vx_ne(),
            Instruction::XEqY => self.x_eq_y(),
            Instruction::LoadVx => self.load_vx(),
            Instruction::AddToVx => self.add_to_vx(),
            Instruction::LoadXWithY => self.load_x_with_y(),
            Instruction::XOrWithY => self.x_or_with_y(),
            Instruction::XAndWithY => self.x_and_with_y(),
            Instruction::XXorWithY => self.x_xor_with_y(),
            Instruction::XAddY => self.x_add_y(),
            Instruction::XMinusY => self.x_minus_y(),
            Instruction::RshiftYLoadX => self.rshift_y_load_x(),
            Instruction::YMinusX => self.y_minus_x(),
            Instruction::LshiftYLoadX => self.lshift_y_load_x(),
            Instruction::XNeY => self.x_ne_y(),
            Instruction::SetI => self.set_i(),
            Instruction::JumpWithOffset => self.jump_with_offset(),
            Instruction::Random => self.random(),
            Instruction::DrawSprite => self.draw_sprite(),
            Instruction::DrawSpritePt2 => self.draw_sprite_pt2(),
            Instruction::SkipKeyEq => self.skip_key_eq(polled),
            Instruction::SkipKeyNe => self.skip_key_ne(polled),
            Instruction::GetTimer => self.get_timer(),
            Instruction::SetTimer => self.set_timer(),
            Instruction::AddXToI => self.add_x_to_i(),
            Instruction::LoadChar => self.load_char(),
            Instruction::XToBcd => self.x_to_bcd(),
            Instruction::SaveVAtI => self.save_v_at_i(),
            Instruction::LoadVAtI => self.load_v_at_i(),
        }
    }

    /// Executing the decoded instruction.  The machine goes back to fetching
    /// before the instruction runs, so that an instruction which wants to
    /// wait for the interrupt has the last word.  An instruction that fails
    /// changes nothing itself, so a failure leaves the machine fetching: a
    /// failed instruction is not tried again.
    pub open spec fn call(self, polled: KeyPoll) -> Outcome
        recommends
            self.instruction is Some,
    {
        MachineState { state: InterpreterState::FetchDecode, ..self }.perform(
            self.instruction->0,
            polled,
        )
    }

    /// One step of the machine, by its state.  While it waits for the
    /// interrupt, a step does nothing and takes one machine cycle.
    pub open spec fn cycle(self, polled: KeyPoll) -> Outcome {
        match self.state {
            InterpreterState::FetchDecode => self.fetch_and_decode(),
            InterpreterState::Execute => self.call(polled),
            InterpreterState::WaitInterrupt => done(self, 1),
        }
    }

    /// Whether the next step polls the keypad: it does where a key
    /// instruction is about to be executed.
    pub open spec fn polls_next(self) -> bool {
        self.state == InterpreterState::Execute && self.instruction is Some && polls_keys(
            self.instruction->0,
        )
    }

    /// A timer after one interrupt: it counts down to 0 and stays there.
    pub open spec fn ticked(timer: u8) -> u8 {
        if timer > 0 {
            (timer - 1) as u8
        } else {
            0
        }
    }

    /// The machine cycles that the interrupt routine takes: 8 more where the
    /// general timer runs, 4 more where the tone timer runs.
    pub open spec fn interrupt_cycles(self) -> int {
        CHIP8_INTERRUPT_CYCLES + (if self.general_timer > 0 { 8int } else { 0int })
            + (if self.tone_timer > 0 { 4int } else { 0int })
    }

    /// The display interrupt, given how drawing the display buffer went.  A
    /// display that fails stops everything.  Otherwise the random seed and
    /// the timers are counted, and an instruction that waited for the
    /// interrupt may go on.
    pub open spec fn interrupt(self, drawn: Result<(), Chip8Error>) -> Outcome {
        match drawn {
            Err(e) => failed(self, e),
            Ok(_) => done(
                MachineState {
                    random: self.counted_seed(),
                    general_timer: Self::ticked(self.general_timer),
                    tone_timer: Self::ticked(self.tone_timer),
                    state: if self.state == InterpreterState::WaitInterrupt {
                        InterpreterState::Execute
                    } else {
                        self.state
                    },
                    ..self
                },
                self.interrupt_cycles(),
            ),
        }
    }
}

/// Whether an instruction polls the keypad.
pub open spec fn polls_keys(instruction: Instruction) -> bool {
    instruction == Instruction::SkipKeyEq || instruction == Instruction::SkipKeyNe
}

/// Counts the seed of the random number generator up by one.
pub fn count_seed(seed: u16) -> (counted: u16)
    ensures
        counted == (seed + 1) % 0x10000,
{
    seed.wrapping_add(1)
}

/// Computes the next random byte from the counted seed and the table's byte
/// for it.
pub fn next_random_byte(seed: u16, table_byte: u8) -> (value: u8)
    ensures
        value == random_byte(seed, table_byte),
{
    // add to high-order byte of seed
    let sum = crate::bits::high_byte(seed).wrapping_add(table_byte);
    // div by 2 and add to itself
    (sum / 2).wrapping_add(sum)
}

/// Decodes an instruction word.
pub fn decode(inst: u16) -> (instruction: Option<Instruction>)
    ensures
        instruction == decoded(inst),
{
    let low = crate::bits::nibble_bits(inst);
    let byte = crate::bits::byte_bits(inst);
    if inst == 0x00e0 {
        Some(Instruction::ClearScreen)
    } else if inst == 0x00ee {
        Some(Instruction::Ret)
    } else if inst < 0x1000 {
        None
    } else if inst <= 0x1fff {
        Some(Instruction::Branch)
    } else if inst <= 0x2fff {
        Some(Instruction::Subroutine)
    } else if inst <= 0x3fff {
        Some(Instruction::SkipVxEq)
    } else if inst <= 0x4fff {
        Some(Instruction::SkipVxNe)
    } else if inst <= 0x5fff {
        Some(Instruction::XEqY)
    } else if inst <= 0x6fff {
        Some(Instruction::LoadVx)
    } else if inst <= 0x7fff {
        Some(Instruction::AddToVx)
    } else if inst <= 0x8fff {
        if low == 0x0 {
            Some(Instruction::LoadXWithY)
        } else if low == 0x1 {
            Some(Instruction::XOrWithY)
        } else if low == 0x2 {
            Some(Instruction::XAndWithY)
        } else if low == 0x3 {
            Some(Instruction::XXorWithY)
        } else if low == 0x4 {
            Some(Instruction::XAddY)
        } else if low == 0x5 {
            Some(Instruction::XMinusY)
        } else if low == 0x6 {
            Some(Instruction::RshiftYLoadX)
        } else if low == 0x7 {
            Some(Instruction::YMinusX)
        } else if low == 0xe {
            Some(Instruction::LshiftYLoadX)
        } else {
            None
        }
    } else if inst <= 0x9fff {
        Some(Instruction::XNeY)
    } else if inst <= 0xafff {
        Some(Instruction::SetI)
    } else if inst <= 0xbfff {
        Some(Instruction::JumpWithOffset)
    } else if inst <= 0xcfff {
        Some(Instruction::Random)
    } else if inst <= 0xdfff {
        Some(Instruction::DrawSprite)
    } else if inst <= 0xefff {
        if byte == 0x9e {
            Some(Instruction::SkipKeyEq)
        } else if byte == 0xa1 {
            Some(Instruction::SkipKeyNe)
        } else {
            None
        }
    } else {
        if byte == 0x07 {
            Some(Instruction::GetTimer)
        } else if byte == 0x15 {
            Some(Instruction::SetTimer)
        } else if byte == 0x1e {
            Some(Instruction::AddXToI)
        } else if byte == 0x29 {
            Some(Instruction::LoadChar)
        } else if byte == 0x33 {
            Some(Instruction::XToBcd)
        } else if byte == 0x55 {
            Some(Instruction::SaveVAtI)
        } else if byte == 0x65 {
            Some(Instruction::LoadVAtI)
        } else {
            None
        }
    }
}

} // verus!
