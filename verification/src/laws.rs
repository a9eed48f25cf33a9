//! What holds of the machine across more than one step.
use crate::error::Chip8Error;
use crate::machine::{
    bcd_digits, decoded, Instruction, InterpreterState, KeyPoll, MachineState,
    CHIP8_INTERRUPT_CYCLES,
};
use crate::memory::{
    word_at, CHIP8_INTERPRETER_STUB_ADDR, CHIP8_RAM_SIZE_BYTES, CHIP8_VAR_ADDR,
};
use crate::sprite::{blit, collision, lemma_draw_twice, lights_pixel, shifted_rows};
use vstd::prelude::*;

verus! {

/// Fetching and decoding takes 40 machine cycles for every instruction of
/// the 0nnn family and 68 for every other instruction, and it moves the
/// program counter on by exactly 2, whatever the instruction is.  A word
/// that is no instruction, or one that lies past the end of memory, stops
/// the machine where it is.
pub proof fn lemma_fetch_and_decode(s: MachineState)
    requires
        s.wf(),
    ensures
        ({
            let fetched = s.fetch_and_decode();
            let word = word_at(s.memory, s.program_counter as int) as u16;
            let readable = s.program_counter + 2 <= CHIP8_RAM_SIZE_BYTES;
            &&& fetched.result is Ok <==> readable && decoded(word) is Some
            &&& fetched.result is Ok ==> fetched.after.program_counter == s.program_counter + 2
            &&& fetched.result is Ok && word / 0x1000 == 0 ==> fetched.result == Ok::<
                usize,
                Chip8Error,
            >(40)
            &&& fetched.result is Ok && word / 0x1000 != 0 ==> fetched.result == Ok::<
                usize,
                Chip8Error,
            >(68)
            &&& fetched.result is Err ==> fetched.after == s
            &&& fetched.after.wf()
        }),
{
}

/// A subroutine call followed by a return comes back to the instruction
/// after the call, with the stack pointer where it was.
pub proof fn lemma_call_and_return(s: MachineState)
    requires
        s.wf(),
        s.subroutine().result is Ok,
    ensures
        ({
            let called = s.subroutine().after;
            let returned = called.ret();
            &&& called.program_counter == s.nnn()
            &&& called.stack_pointer == s.stack_pointer - 2
            &&& returned.result == Ok::<usize, Chip8Error>(10)
            &&& returned.after.program_counter == s.program_counter
            &&& returned.after.stack_pointer == s.stack_pointer
        }),
{
    let called = s.subroutine().after;
    let sp = s.stack_pointer as int;
    assert(called.memory[sp] == (s.program_counter / 0x100) as u8);
    assert(called.memory[sp + 1] == (s.program_counter % 0x100) as u8);
}

/// The digits that fx33 writes are decimal digits, and they spell VX.
pub proof fn lemma_bcd_spells_the_byte(v: u8)
    ensures
        bcd_digits(v).len() == 3,
        bcd_digits(v)[0] <= 2,
        bcd_digits(v)[1] <= 9,
        bcd_digits(v)[2] <= 9,
        bcd_digits(v)[0] * 100 + bcd_digits(v)[1] * 10 + bcd_digits(v)[2] == v,
{
}

/// Saving V0 to VX at I and loading them back from the same place leaves
/// the variables as they were.
pub proof fn lemma_save_and_load(s: MachineState)
    requires
        s.wf(),
        s.save_v_at_i().result is Ok,
        // the saved copy does not lie over the variables themselves
        s.i + s.vx + 1 <= CHIP8_VAR_ADDR,
    ensures
        ({
            let saved = s.save_v_at_i().after;
            let again = MachineState { i: s.i, ..saved };
            let loaded = again.load_v_at_i();
            &&& loaded.result is Ok
            &&& forall|k: int| 0 <= k < 16 ==> loaded.after.var(k) == s.var(k)
            &&& loaded.after.i == s.i + s.vx + 1
        }),
{
    let saved = s.save_v_at_i().after;
    let again = MachineState { i: s.i, ..saved };
    let loaded = again.load_v_at_i();
    assert forall|k: int| 0 <= k < 16 implies loaded.after.var(k) == s.var(k) by {
        if k <= s.vx {
            assert(saved.memory[s.i + k] == s.memory[CHIP8_VAR_ADDR + k]);
        }
    }
}

/// The random number instruction is a function of the seed, of the page of
/// pseudo-random bytes and of the instruction's mask alone: two machines
/// that agree on these draw the same number and go on with the same seed.
pub proof fn lemma_random_is_deterministic(a: MachineState, b: MachineState)
    requires
        a.wf(),
        b.wf(),
        a.random == b.random,
        a.nn() == b.nn(),
        a.memory.subrange(
            CHIP8_INTERPRETER_STUB_ADDR as int,
            CHIP8_INTERPRETER_STUB_ADDR + 0x100,
        ) == b.memory.subrange(
            CHIP8_INTERPRETER_STUB_ADDR as int,
            CHIP8_INTERPRETER_STUB_ADDR + 0x100,
        ),
    ensures
        a.random().result == b.random().result,
        a.random().after.random == b.random().after.random,
        a.random().after.var(a.vx as int) == b.random().after.var(b.vx as int),
{
    let offset = a.counted_seed() % 0x100;
    let page_a = a.memory.subrange(
        CHIP8_INTERPRETER_STUB_ADDR as int,
        CHIP8_INTERPRETER_STUB_ADDR + 0x100,
    );
    let page_b = b.memory.subrange(
        CHIP8_INTERPRETER_STUB_ADDR as int,
        CHIP8_INTERPRETER_STUB_ADDR + 0x100,
    );
    assert(a.table_byte() == page_a[offset as int]);
    assert(b.table_byte() == page_b[offset as int]);
}

/// The interrupt never takes a timer below 0, and it adds the cycles for a
/// timer only where that timer was running before the interrupt.
pub proof fn lemma_interrupt_timers(s: MachineState)
    requires
        s.wf(),
    ensures
        ({
            let served = s.interrupt(Ok(()));
            let bonus_general: int = if s.general_timer > 0 { 8 } else { 0 };
            let bonus_tone: int = if s.tone_timer > 0 { 4 } else { 0 };
            &&& 0 <= served.after.general_timer <= s.general_timer
            &&& 0 <= served.after.tone_timer <= s.tone_timer
            &&& s.general_timer == 0 ==> served.after.general_timer == 0
            &&& s.tone_timer == 0 ==> served.after.tone_timer == 0
            &&& s.general_timer > 0 ==> served.after.general_timer == s.general_timer - 1
            &&& s.tone_timer > 0 ==> served.after.tone_timer == s.tone_timer - 1
            &&& served.result == Ok::<usize, Chip8Error>(
                (CHIP8_INTERRUPT_CYCLES + bonus_general + bonus_tone) as usize,
            )
            &&& served.after.wf()
        }),
{
}

/// An instruction that waits for the interrupt goes on with the next step
/// after the interrupt, and the interrupt disturbs no other state of the
/// machine.
pub proof fn lemma_interrupt_resumes(s: MachineState)
    requires
        s.wf(),
    ensures
        ({
            let served = s.interrupt(Ok(())).after;
            &&& s.state == InterpreterState::WaitInterrupt ==> served.state
                == InterpreterState::Execute
            &&& s.state != InterpreterState::WaitInterrupt ==> served.state
                == s.state
            &&& served.memory == s.memory
            &&& served.program_counter == s.program_counter
            &&& served.instruction == s.instruction
        }),
{
}

/// Where an instruction succeeds, only the first part of a drawing leaves
/// the machine waiting.
proof fn lemma_state_after_success(s: MachineState, polled: KeyPoll)
    requires
        s.wf(),
        s.instruction is Some,
        s.call(polled).result is Ok,
    ensures
        ({
            let after = s.call(polled).after;
            &&& s.instruction == Some(Instruction::DrawSprite) ==> after.state
                == InterpreterState::WaitInterrupt && after.instruction == Some(
                Instruction::DrawSpritePt2,
            )
            &&& s.instruction != Some(Instruction::DrawSprite) ==> after.state
                == InterpreterState::FetchDecode && after.instruction == s.instruction
        }),
{
    reveal(MachineState::perform);
}

/// Executing an instruction leaves the machine ready to fetch the next one,
/// but for the first part of a drawing, which leaves it waiting for the
/// interrupt with the second part as its instruction.  So the instruction
/// has the last word on the state: the machine goes back to fetching before
/// the instruction runs, not after.  That holds of an instruction that
/// fails too: it leaves the machine fetching and changes nothing else, so it
/// is not tried again.
pub proof fn lemma_only_drawing_waits(s: MachineState, polled: KeyPoll)
    requires
        s.wf(),
        s.instruction is Some,
    ensures
        ({
            let called = s.call(polled);
            let after = called.after;
            &&& called.result is Ok && s.instruction == Some(Instruction::DrawSprite)
                ==> after.state == InterpreterState::WaitInterrupt && after.instruction == Some(
                Instruction::DrawSpritePt2,
            )
            &&& called.result is Ok && s.instruction != Some(Instruction::DrawSprite)
                ==> after.state == InterpreterState::FetchDecode && after.instruction
                == s.instruction
            &&& called.result is Err ==> after == (MachineState {
                state: InterpreterState::FetchDecode,
                ..s
            })
        }),
{
    if s.call(polled).result is Ok {
        lemma_state_after_success(s, polled);
    } else {
        lemma_instruction_keeps_order(
            MachineState { state: InterpreterState::FetchDecode, ..s },
            s.instruction->0,
            polled,
        );
    }
}

/// No instruction takes the machine out of order, and one that fails leaves
/// the machine as it was.
proof fn lemma_instruction_keeps_order(s: MachineState, instruction: Instruction, polled: KeyPoll)
    requires
        s.wf(),
        s.state == InterpreterState::FetchDecode,
    ensures
        s.perform(instruction, polled).after.wf(),
        s.perform(instruction, polled).result is Err ==> s.perform(instruction, polled).after == s,
{
    reveal(MachineState::perform);
    match instruction {
        Instruction::ClearScreen => {
            assert(s.clear_screen().after.wf());
        },
        Instruction::Subroutine => {
            assert(s.subroutine().after.wf());
        },
        Instruction::DrawSprite => {
            assert(s.draw_sprite().after.wf());
        },
        Instruction::DrawSpritePt2 => {
            assert(s.draw_sprite_pt2().after.wf());
        },
        Instruction::XToBcd => {
            assert(s.x_to_bcd().after.wf());
        },
        Instruction::SaveVAtI => {
            assert(s.save_v_at_i().after.wf());
        },
        Instruction::LoadVAtI => {
            assert(s.load_v_at_i().after.wf());
        },
        Instruction::SkipKeyEq => {
            assert(s.skip_key_eq(polled).after.wf());
        },
        Instruction::SkipKeyNe => {
            assert(s.skip_key_ne(polled).after.wf());
        },
        _ => {},
    }
}

/// A step keeps the machine in order, whatever the keypad brings.  A step
/// that fails changes neither memory nor any register; a fetch that fails
/// leaves the state too, and an instruction that fails leaves the machine
/// fetching.
pub proof fn lemma_cycle_keeps_order(s: MachineState, polled: KeyPoll)
    requires
        s.wf(),
    ensures
        s.cycle(polled).after.wf(),
        s.cycle(polled).result is Err ==> s.cycle(polled).after == (MachineState {
            state: InterpreterState::FetchDecode,
            ..s
        }),
{
    if s.state == InterpreterState::Execute {
        lemma_instruction_keeps_order(
            MachineState { state: InterpreterState::FetchDecode, ..s },
            s.instruction->0,
            polled,
        );
    }
}

/// The two parts of a drawing together XOR the sprite at I onto the display
/// at the place that VX and VY name: the first part leaves the machine
/// waiting, the interrupt lets it go on, and the second part draws what the
/// first one kept in the work area.  The first part touches neither the
/// display nor the variables.
pub proof fn lemma_sprite_drawn_whole(s: MachineState)
    requires
        s.wf(),
        s.draw_sprite().result is Ok,
    ensures
        ({
            let waiting = s.draw_sprite().after;
            let resumed = waiting.interrupt(Ok(())).after;
            let drawn = resumed.draw_sprite_pt2().after;
            let rows = shifted_rows(
                s.memory.subrange(s.i as int, s.i + s.n()),
                (s.x() % 8) as u8,
            );
            &&& waiting.state == InterpreterState::WaitInterrupt
            &&& waiting.vram() == s.vram()
            &&& forall|k: int| 0 <= k < 16 ==> waiting.var(k) == s.var(k)
            &&& resumed.state == InterpreterState::Execute
            &&& resumed.instruction == Some(Instruction::DrawSpritePt2)
            &&& drawn.vram() == blit(s.vram(), rows, s.sprite_origin())
            &&& drawn.var(0xf) == if collision(s.vram(), rows, s.sprite_origin()) {
                1u8
            } else {
                0u8
            }
        }),
{
    let waiting = s.draw_sprite().after;
    let resumed = waiting.interrupt(Ok(())).after;
    let drawn = resumed.draw_sprite_pt2().after;
    let rows = shifted_rows(s.memory.subrange(s.i as int, s.i + s.n()), (s.x() % 8) as u8);
    assert(waiting.vram() =~= s.vram());
    assert(resumed.work(2 * resumed.n()) =~= rows);
    assert(resumed.vram() =~= s.vram());
    assert(resumed.sprite_origin() == s.sprite_origin());
    assert(drawn.vram() =~= blit(s.vram(), rows, s.sprite_origin()));
}

/// Drawing the same sprite twice at the same place gives back the display
/// buffer as it was.  The second drawing reports a collision exactly where
/// the first one set a pixel that had been clear; so it does for every
/// sprite that shows on a clear spot, and it does not for a blank sprite or
/// for one that only erased.
///
/// The place is the same where neither VX nor VY is VF, which the first
/// drawing overwrites with its collision flag.
pub proof fn lemma_sprite_drawn_twice(s: MachineState)
    requires
        s.wf(),
        s.draw_sprite_pt2().after.sprite_origin() == s.sprite_origin(),
    ensures
        ({
            let once = s.draw_sprite_pt2().after;
            let twice = once.draw_sprite_pt2().after;
            let lit = lights_pixel(s.vram(), s.work(2 * s.n()), s.sprite_origin());
            &&& twice.vram() == s.vram()
            &&& twice.var(0xf) == if lit { 1u8 } else { 0u8 }
        }),
{
    let work = s.work(2 * s.n());
    let origin = s.sprite_origin();
    let once = s.draw_sprite_pt2().after;
    let twice = once.draw_sprite_pt2().after;
    assert(once.vram() =~= blit(s.vram(), work, origin));
    assert(once.work(2 * once.n()) =~= work);
    lemma_draw_twice(s.vram(), work, origin);
    assert(twice.vram() =~= blit(once.vram(), work, origin));
}

/// The place of a sprite does not change with the first drawing where
/// neither of its coordinates is kept in VF.
pub proof fn lemma_sprite_stays_in_place(s: MachineState)
    requires
        s.wf(),
        s.vx != 0xf,
        s.vy != 0xf,
    ensures
        s.draw_sprite_pt2().after.sprite_origin() == s.sprite_origin(),
{
}

} // verus!
