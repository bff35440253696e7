//! What follows from the definition of the machine.

use vstd::prelude::*;
use crate::cpu::Chip8;
use crate::model::{PIXEL_ON, State, cell_of, is_lowest_pressed, lemma_lowest_pressed, lowest_pressed, slot_of};
use crate::opcode::{Instruction, instruction_of, kk_of, x_of, y_of};

verus! {

/// The state of an executable machine is well formed.
pub proof fn lemma_view_well_formed(cpu: Chip8)
    ensures
        cpu@.well_formed(),
{
}

/// A cycle keeps the state well formed.
pub proof fn lemma_step_well_formed(state: State, random: u8)
    requires
        state.well_formed(),
    ensures
        state.step(random).well_formed(),
{
}

/// A fetch from an address below 4096 moves the program counter on by 2,
/// so that an even program counter stays even.
pub proof fn lemma_fetch_advances(state: State)
    requires
        state.pc < 4096,
    ensures
        state.fetch().pc == state.pc + 2,
        state.pc % 2 == 0 ==> state.fetch().pc % 2 == 0,
{
}

/// In a cycle each timer goes down by one until it is zero, unless the
/// instruction of the cycle sets it.
pub proof fn lemma_timers_count_down(state: State, random: u8)
    ensures
        instruction_of(state.fetch().opcode) != Some(Instruction::SetDelay) ==> state.step(
            random,
        ).delay_timer == if state.delay_timer > 0 {
            state.delay_timer - 1
        } else {
            0
        },
        instruction_of(state.fetch().opcode) != Some(Instruction::SetSound) ==> state.step(
            random,
        ).sound_timer == if state.sound_timer > 0 {
            state.sound_timer - 1
        } else {
            0
        },
{
}

/// Only `Cxkk` uses the random byte.
pub proof fn lemma_random_only_for_cxkk(state: State, random: u8, other: u8)
    requires
        instruction_of(state.fetch().opcode) != Some(Instruction::Random),
    ensures
        state.step(random) == state.step(other),
{
}

/// No instruction changes the keypad.
pub proof fn lemma_keypad_is_read_only(state: State, random: u8)
    ensures
        state.step(random).keypad == state.keypad,
{
}

/// Only `00E0` and `Dxyn` change the framebuffer.
pub proof fn lemma_video_changes_only_by_clear_and_draw(state: State, random: u8)
    requires
        instruction_of(state.fetch().opcode) != Some(Instruction::ClearScreen),
        instruction_of(state.fetch().opcode) != Some(Instruction::Draw),
    ensures
        state.step(random).video == state.video,
{
}

/// `7xkk` adds modulo 256 and changes nothing but `Vx`: the flag keeps its
/// value, unless `x` is 15.
pub proof fn lemma_add_wraps(state: State)
    requires
        state.well_formed(),
    ensures
        ({
            let after = state.op_7xkk();
            let x = x_of(state.opcode) as int;
            &&& after.registers[x] == (state.registers[x] + kk_of(state.opcode)) % 256
            &&& forall|other: int|
                0 <= other < 16 && other != x ==> after.registers[other] == state.registers[other]
            &&& after == (State { registers: after.registers, ..state })
        }),
{
}

/// A return that directly follows a call leads back to where the program
/// counter stood at the call, with the stack pointer as it was.
pub proof fn lemma_call_then_return(state: State)
    requires
        state.well_formed(),
    ensures
        state.op_2nnn().op_00ee().pc == state.pc,
        state.op_2nnn().op_00ee().sp == state.sp,
{
}

/// Call and return, cycle by cycle. The cycle on `state` executes a call.
/// `later` is any state in which what that call pushed is still the top of
/// the stack, and the cycle on `later` executes a return. That return leads
/// to the instruction that follows the call, and the stack pointer is again
/// what it was before the call.
pub proof fn lemma_return_leads_back(state: State, later: State, random: u8, later_random: u8)
    requires
        state.well_formed(),
        later.well_formed(),
        instruction_of(state.fetch().opcode) == Some(Instruction::Call),
        later.sp == state.step(random).sp,
        later.stack[slot_of(state.sp)] == state.step(random).stack[slot_of(state.sp)],
        instruction_of(later.fetch().opcode) == Some(Instruction::Return),
    ensures
        later.step(later_random).pc == cell_of(state.pc as int) + 2,
        later.step(later_random).sp == state.sp,
{
}

/// `00E0` leaves every cell of the framebuffer zero, whatever it held.
pub proof fn lemma_clear_screen(state: State, random: u8)
    requires
        instruction_of(state.fetch().opcode) == Some(Instruction::ClearScreen),
    ensures
        state.step(random).video.len() == 2048,
        forall|cell: int| 0 <= cell < 2048 ==> state.step(random).video[cell] == 0,
        state.op_00e0().video.len() == 2048,
        forall|cell: int| 0 <= cell < 2048 ==> state.op_00e0().video[cell] == 0,
{
}

/// Whether every cell of `video` holds 0 or [`PIXEL_ON`].
pub open spec fn is_binary(video: Seq<u32>) -> bool {
    forall|cell: int| 0 <= cell < video.len() ==> video[cell] == 0 || video[cell] == PIXEL_ON
}

/// A framebuffer whose cells hold 0 or [`PIXEL_ON`] stays so: the machine
/// writes no other value.
pub proof fn lemma_video_stays_binary(state: State, random: u8)
    requires
        state.well_formed(),
        is_binary(state.video),
    ensures
        is_binary(state.step(random).video),
{
}

/// Drawing the same sprite twice at the same place.
///
/// The second draw is at the place of the first if the first left `Vx` and
/// `Vy` as they were, which it does unless one of them is the flag register.
/// Then every pixel is on after the second draw if and only if it was on
/// before the first, cells that held 0 or [`PIXEL_ON`] hold the same value
/// again, and the second draw sets the flag to 1 if the first switched a
/// pixel on, and to 0 if it did not.
pub proof fn lemma_draw_twice(state: State)
    requires
        state.well_formed(),
        state.op_dxyn().sprite_left() == state.sprite_left(),
        state.op_dxyn().sprite_top() == state.sprite_top(),
    ensures
        ({
            let once = state.op_dxyn();
            let twice = once.op_dxyn();
            &&& forall|cell: int|
                0 <= cell < 2048 ==> (twice.video[cell] != 0) == (state.video[cell] != 0)
            &&& forall|cell: int|
                0 <= cell < 2048 && (state.video[cell] == 0 || state.video[cell] == PIXEL_ON)
                    ==> twice.video[cell] == state.video[cell]
            &&& forall|cell: int|
                0 <= cell < 2048 && !state.sprite_covers(cell) ==> twice.video[cell]
                    == state.video[cell]
            &&& is_binary(state.video) ==> twice.video == state.video
            &&& twice.registers[15] == if exists|cell: int|
                state.sprite_covers(cell) && state.video[cell] == 0 {
                1u8
            } else {
                0u8
            }
        }),
{
    let once = state.op_dxyn();
    let twice = once.op_dxyn();
    if exists|cell: int| state.sprite_covers(cell) && state.video[cell] == 0 {
        let cell = choose|cell: int| state.sprite_covers(cell) && state.video[cell] == 0;
        assert(once.sprite_covers(cell) && once.video[cell] != 0);
    }
}

/// Where neither `x` nor `y` is 15, a draw leaves the sprite's place as it
/// was, so that [`lemma_draw_twice`] applies.
pub proof fn lemma_draw_keeps_place(state: State)
    requires
        state.well_formed(),
        x_of(state.opcode) != 15,
        y_of(state.opcode) != 15,
    ensures
        state.op_dxyn().sprite_left() == state.sprite_left(),
        state.op_dxyn().sprite_top() == state.sprite_top(),
{
}

/// Waiting for a key. The cycle on `state` executes `Fx0A`.
///
/// While no key is held down, the cycle changes nothing but the timers and
/// the current instruction word, and leaves the program counter at the
/// address it fetched from, which is the program counter itself where that
/// is below 4096. As soon as a key is held down, the cycle puts the lowest
/// such key into `Vx` and leaves the program counter at the next
/// instruction.
pub proof fn lemma_wait_for_key(state: State, random: u8)
    requires
        state.well_formed(),
        instruction_of(state.fetch().opcode) == Some(Instruction::WaitKey),
    ensures
        (forall|key: int| 0 <= key < 16 ==> !state.keypad[key]) ==> ({
            &&& state.step(random).pc == cell_of(state.pc as int)
            &&& state.pc < 4096 ==> state.step(random).pc == state.pc
            &&& state.step(random) == (State {
                pc: state.step(random).pc,
                opcode: state.fetch().opcode,
                ..state.tick()
            })
        }),
        forall|key: int|
            is_lowest_pressed(state.keypad, key) ==> ({
                &&& state.step(random).registers[x_of(state.fetch().opcode) as int] == key
                &&& state.step(random).pc == cell_of(state.pc as int) + 2
            }),
{
    if forall|key: int| 0 <= key < 16 ==> !state.keypad[key] {
    }
    assert forall|key: int| is_lowest_pressed(state.keypad, key) implies ({
        &&& state.step(random).registers[x_of(state.fetch().opcode) as int] == key
        &&& state.step(random).pc == cell_of(state.pc as int) + 2
    }) by {
        lemma_lowest_pressed(state.keypad, key);
    }
}

/// The state after one cycle for each byte of `randoms`, in their order,
/// each cycle with its byte.
pub open spec fn run(state: State, randoms: Seq<u8>) -> State
    decreases randoms.len(),
{
    if randoms.len() == 0 {
        state
    } else {
        run(state, randoms.drop_last()).step(randoms.last())
    }
}

/// Cycles keep the state well formed.
pub proof fn lemma_run_well_formed(state: State, randoms: Seq<u8>)
    requires
        state.well_formed(),
    ensures
        run(state, randoms).well_formed(),
    decreases randoms.len(),
{
    if randoms.len() > 0 {
        lemma_run_well_formed(state, randoms.drop_last());
    }
}

/// The first `count + 1` cycles are the first `count` cycles and one more.
pub proof fn lemma_run_one_more(state: State, randoms: Seq<u8>, count: int)
    requires
        0 <= count < randoms.len(),
    ensures
        run(state, randoms.take(count + 1)) == run(state, randoms.take(count)).step(
            randoms[count],
        ),
{
    assert(randoms.take(count + 1).drop_last() == randoms.take(count));
}

/// The number of stack frames between stack pointer `base` and stack pointer
/// `sp`, counted round the 8-bit stack pointer.
pub open spec fn frames_above(sp: u8, base: u8) -> int {
    (sp - base) % 256
}

/// Whether, at every moment of the cycles `randoms` from `state`, between 1
/// and 15 frames are on the stack above stack pointer `base`.
pub open spec fn stays_above(state: State, randoms: Seq<u8>, base: u8) -> bool {
    forall|count: int|
        0 <= count <= randoms.len() ==> 1 <= frames_above(
            (#[trigger] run(state, randoms.take(count))).sp,
            base,
        ) <= 15
}

/// A cycle changes no slot of the stack but the one at the stack pointer:
/// a frame that lies between 1 and 15 frames below the stack pointer is
/// left alone.
pub proof fn lemma_step_keeps_frame(state: State, random: u8, base: u8)
    requires
        state.well_formed(),
        1 <= frames_above(state.sp, base) <= 15,
    ensures
        state.step(random).stack[slot_of(base)] == state.stack[slot_of(base)],
{
    assert(slot_of(state.sp) != slot_of(base));
}

/// While the stack stays above a frame, the cycles leave that frame alone.
proof fn lemma_frame_is_kept(state: State, randoms: Seq<u8>, base: u8, count: int)
    requires
        state.well_formed(),
        stays_above(state, randoms, base),
        0 <= count <= randoms.len(),
    ensures
        run(state, randoms.take(count)).well_formed(),
        run(state, randoms.take(count)).stack[slot_of(base)] == state.stack[slot_of(base)],
    decreases count,
{
    if count > 0 {
        lemma_frame_is_kept(state, randoms, base, count - 1);
        lemma_run_one_more(state, randoms, count - 1);
        let before = run(state, randoms.take(count - 1));
        lemma_step_well_formed(before, randoms[count - 1]);
        lemma_step_keeps_frame(before, randoms[count - 1], base);
    }
}

/// Call and return with any number of cycles between them.
///
/// The cycle on `state` executes a call. During the cycles `randoms` that
/// follow, the stack never falls below the frame of that call and never
/// holds more than 15 frames from that frame up. After them the frame of
/// the call is on top of the stack, and the next cycle executes a return.
/// That return leads to the instruction that follows the call, and the
/// stack pointer is again what it was before the call.
pub proof fn lemma_return_after_balanced_cycles(
    state: State,
    random: u8,
    randoms: Seq<u8>,
    last_random: u8,
)
    requires
        state.well_formed(),
        instruction_of(state.fetch().opcode) == Some(Instruction::Call),
        stays_above(state.step(random), randoms, state.sp),
        run(state.step(random), randoms).sp == state.step(random).sp,
        instruction_of(run(state.step(random), randoms).fetch().opcode) == Some(
            Instruction::Return,
        ),
    ensures
        run(state.step(random), randoms).step(last_random).pc == cell_of(state.pc as int) + 2,
        run(state.step(random), randoms).step(last_random).sp == state.sp,
{
    lemma_frame_is_kept(state.step(random), randoms, state.sp, randoms.len() as int);
    assert(randoms.take(randoms.len() as int) == randoms);
    lemma_return_leads_back(state, run(state.step(random), randoms), random, last_random);
}

/// Waiting for a key, cycle after cycle.
///
/// The cycle on `state` executes `Fx0A`, from an address below 4096, and no
/// key is held down. Then any number of cycles leave the program counter
/// where it is, and change nothing but the timers and the current
/// instruction word.
pub proof fn lemma_wait_goes_on(state: State, randoms: Seq<u8>)
    requires
        state.well_formed(),
        state.pc < 4096,
        instruction_of(state.fetch().opcode) == Some(Instruction::WaitKey),
        forall|key: int| 0 <= key < 16 ==> !state.keypad[key],
    ensures
        run(state, randoms) == (State {
            opcode: run(state, randoms).opcode,
            delay_timer: run(state, randoms).delay_timer,
            sound_timer: run(state, randoms).sound_timer,
            ..state
        }),
        randoms.len() > 0 ==> run(state, randoms).opcode == state.fetch().opcode,
    decreases randoms.len(),
{
    if randoms.len() > 0 {
        lemma_wait_goes_on(state, randoms.drop_last());
        lemma_wait_for_key(run(state, randoms.drop_last()), randoms.last());
    }
}

} // verus!
