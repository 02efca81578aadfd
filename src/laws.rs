//! Properties of the instruction set, proved from the model that the
//! executable machine follows.

use vstd::prelude::*;
use crate::instruction::{Instruction, decode_spec};
use crate::semantics::{draw_collides, execute_spec, lowest_pressed, sprite_covers, step_spec, word_at};
use crate::state::{EmuState, FLAG, NUM_KEYS, NUM_REGISTERS, RAM_SIZE, SCREEN_SIZE, STACK_SIZE};

verus! {

/// `7XNN` adds modulo 256 and leaves `VF` alone (unless `VF` is the target);
/// `8XY4` adds modulo 256 and sets `VF` to 1 exactly when the true sum
/// reaches 256.
pub proof fn law_addition_wraps(s: EmuState, x: u8, y: u8, nn: u8, rnd: u8)
    requires
        s.wf(),
        x < NUM_REGISTERS,
        y < NUM_REGISTERS,
    ensures
        execute_spec(s, Instruction::AddImm { x, nn }, rnd) matches Ok(t) && {
            &&& t.reg(x) == (s.reg(x) + nn) % 256
            &&& x != FLAG ==> t.reg(FLAG) == s.reg(FLAG)
        },
        execute_spec(s, Instruction::AddReg { x, y }, rnd) matches Ok(t) && {
            &&& (t.reg(FLAG) == 1) == (s.reg(x) + s.reg(y) >= 256)
            &&& (t.reg(FLAG) == 0) == (s.reg(x) + s.reg(y) < 256)
            &&& x != FLAG ==> t.reg(x) == (s.reg(x) + s.reg(y)) % 256
        },
{
}

/// `8XY5` and `8XY7` set `VF` to 1 exactly when the minuend is at least the
/// subtrahend, and to 0 otherwise.
pub proof fn law_subtraction_borrow(s: EmuState, x: u8, y: u8, rnd: u8)
    requires
        s.wf(),
        x < NUM_REGISTERS,
        y < NUM_REGISTERS,
    ensures
        execute_spec(s, Instruction::SubReg { x, y }, rnd) matches Ok(t) && {
            &&& (t.reg(FLAG) == 1) == (s.reg(x) >= s.reg(y))
            &&& (t.reg(FLAG) == 0) == (s.reg(x) < s.reg(y))
            &&& x != FLAG ==> t.reg(x) == (s.reg(x) - s.reg(y)) % 256
        },
        execute_spec(s, Instruction::SubRev { x, y }, rnd) matches Ok(t) && {
            &&& (t.reg(FLAG) == 1) == (s.reg(y) >= s.reg(x))
            &&& (t.reg(FLAG) == 0) == (s.reg(y) < s.reg(x))
            &&& x != FLAG ==> t.reg(x) == (s.reg(y) - s.reg(x)) % 256
        },
{
}

/// `8XY6` and `8XYE` set `VF` to the bit that the shift drops, bit 0 or bit 7,
/// whatever the other bits are.
pub proof fn law_shift_flag(s: EmuState, x: u8, rnd: u8)
    requires
        s.wf(),
        x < NUM_REGISTERS,
    ensures
        execute_spec(s, Instruction::ShiftRight { x }, rnd) matches Ok(t) && {
            &&& t.reg(FLAG) == s.reg(x) & 1
            &&& x != FLAG ==> t.reg(x) == s.reg(x) >> 1
        },
        execute_spec(s, Instruction::ShiftLeft { x }, rnd) matches Ok(t) && {
            &&& t.reg(FLAG) == (s.reg(x) >> 7) & 1
            &&& x != FLAG ==> t.reg(x) == s.reg(x) << 1
        },
{
    let a = s.reg(x);
    assert(a & 1u8 == a % 2 && a >> 1u8 == a / 2) by (bit_vector);
    assert((a >> 7u8) & 1u8 == a / 128 && a << 1u8 == ((a as u16 * 2u16) as u16 % 256u16) as u8)
        by (bit_vector);
}

/// `DXYN` is an XOR blit: drawing the same sprite a second time at the same
/// place restores the display. The second draw reports a collision exactly when
/// the sprite covers a pixel that was dark before the first, so, after a first
/// draw without collision, exactly when the sprite covers any pixel at all.
pub proof fn law_draw_twice_restores(s: EmuState, x: u8, y: u8, n: u8, rnd: u8)
    requires
        s.wf(),
        x < NUM_REGISTERS,
        y < NUM_REGISTERS,
        x != FLAG,
        y != FLAG,
        s.i + n <= RAM_SIZE,
    ensures
        execute_spec(s, Instruction::Draw { x, y, n }, rnd) matches Ok(t) && execute_spec(
            t,
            Instruction::Draw { x, y, n },
            rnd,
        ) matches Ok(u) && {
            &&& u.screen == s.screen
            &&& (u.reg(FLAG) == 1) == (exists|p: int|
                0 <= p < SCREEN_SIZE && !#[trigger] s.screen[p] && sprite_covers(
                    s.ram,
                    s.i as int,
                    n,
                    s.reg(x),
                    s.reg(y),
                    p,
                ))
            &&& t.reg(FLAG) == 0 ==> ((u.reg(FLAG) == 1) == (exists|p: int|
                0 <= p < SCREEN_SIZE && #[trigger] sprite_covers(s.ram, s.i as int, n, s.reg(x), s.reg(y), p)))
        },
{
    let ins = Instruction::Draw { x, y, n };
    let (vx, vy) = (s.reg(x), s.reg(y));
    let i = s.i as int;
    let t = execute_spec(s, ins, rnd)->Ok_0;
    let u = execute_spec(t, ins, rnd)->Ok_0;
    assert(t.reg(x) == vx && t.reg(y) == vy && t.ram == s.ram && t.i == s.i);
    assert(u.screen =~= s.screen);
    let hit1 = draw_collides(s.screen, s.ram, i, n, vx, vy);
    let hit2 = draw_collides(t.screen, t.ram, i, n, vx, vy);
    let fresh = exists|p: int|
        0 <= p < SCREEN_SIZE && !#[trigger] s.screen[p] && sprite_covers(s.ram, i, n, vx, vy, p);
    let any = exists|p: int| 0 <= p < SCREEN_SIZE && #[trigger] sprite_covers(s.ram, i, n, vx, vy, p);
    if hit2 {
        let p = choose|p: int|
            0 <= p < SCREEN_SIZE && #[trigger] t.screen[p] && sprite_covers(t.ram, i, n, vx, vy, p);
        assert(!s.screen[p] && sprite_covers(s.ram, i, n, vx, vy, p));
    }
    if fresh {
        let p = choose|p: int|
            0 <= p < SCREEN_SIZE && !#[trigger] s.screen[p] && sprite_covers(s.ram, i, n, vx, vy, p);
        assert(t.screen[p]);
        assert(hit2);
        assert(any);
    }
    assert(hit2 == fresh);
    assert(u.reg(FLAG) == if hit2 { 1u8 } else { 0u8 });
    assert(t.reg(FLAG) == if hit1 { 1u8 } else { 0u8 });
    if !hit1 && any {
        let p = choose|p: int| 0 <= p < SCREEN_SIZE && #[trigger] sprite_covers(s.ram, i, n, vx, vy, p);
        assert(!s.screen[p]);
        assert(fresh);
    }
}

/// A call to `addr` followed by the return found there brings the program
/// counter back to the instruction after the call, with the stack as it was.
pub proof fn law_call_then_return(s: EmuState, addr: u16, rnd1: u8, rnd2: u8)
    requires
        s.wf(),
        s.pc + 1 < RAM_SIZE,
        addr + 1 < RAM_SIZE,
        s.stack.len() < STACK_SIZE,
        word_at(s.ram, s.pc as int) == 0x2000 + addr,
        word_at(s.ram, addr as int) == 0x00EE,
    ensures
        step_spec(s, rnd1) matches Ok(t) && step_spec(t, rnd2) matches Ok(u) && u == s.with_pc(
            (s.pc + 2) as u16,
        ),
{
    assert(decode_spec((0x2000 + addr) as u16) == Some(Instruction::Call { addr }));
    let t = step_spec(s, rnd1)->Ok_0;
    assert(t.ram == s.ram && t.stack == s.stack.push((s.pc + 2) as u16) && t.pc == addr);
    let u = step_spec(t, rnd2)->Ok_0;
    assert(u.stack =~= s.stack);
}

/// `lowest_pressed` finds the lowest-numbered pressed key at or after `from`,
/// and nothing when there is none.
pub proof fn lemma_lowest_pressed(keys: Seq<bool>, from: nat)
    requires
        keys.len() == NUM_KEYS,
    ensures
        lowest_pressed(keys, from) matches Some(k) ==> from <= k < NUM_KEYS && keys[k as int] && forall|j: int|
            from <= j < k ==> !#[trigger] keys[j],
        lowest_pressed(keys, from) is None ==> forall|j: int| from <= j < NUM_KEYS ==> !#[trigger] keys[j],
    decreases NUM_KEYS - from,
{
    if from < NUM_KEYS {
        lemma_lowest_pressed(keys, from + 1);
    }
}

/// `FX0A` leaves the whole state, program counter included, as it was while no
/// key is held, so any number of further steps changes nothing; once keys are
/// held, one step stores the lowest-numbered of them in `VX` and moves on.
pub proof fn law_wait_for_key(s: EmuState, x: u8, rnd: u8)
    requires
        s.wf(),
        s.pc + 1 < RAM_SIZE,
        x < NUM_REGISTERS,
        word_at(s.ram, s.pc as int) == 0xF00A + x * 256,
    ensures
        (forall|k: int| 0 <= k < NUM_KEYS ==> !#[trigger] s.keys[k]) ==> step_spec(s, rnd) == Ok::<
            EmuState,
            crate::state::EmuError,
        >(s),
        forall|k: u8|
            k < NUM_KEYS && #[trigger] s.keys[k as int] && (forall|j: int| 0 <= j < k ==> !#[trigger] s.keys[j])
                ==> step_spec(s, rnd) == Ok::<EmuState, crate::state::EmuError>(
                s.with_reg(x, k).with_pc((s.pc + 2) as u16),
            ),
{
    assert(decode_spec((0xF00A + x * 256) as u16) == Some(Instruction::WaitKey { x }));
    lemma_lowest_pressed(s.keys, 0);
    assert forall|k: u8|
        k < NUM_KEYS && #[trigger] s.keys[k as int] && (forall|j: int| 0 <= j < k ==> !#[trigger] s.keys[j])
            implies step_spec(s, rnd) == Ok::<EmuState, crate::state::EmuError>(
            s.with_reg(x, k).with_pc((s.pc + 2) as u16),
        ) by {
        match lowest_pressed(s.keys, 0) {
            Some(m) => {
                if m < k {
                    assert(!s.keys[m as int]);
                } else if k < m {
                    assert(!s.keys[k as int]);
                }
            },
            None => {
                assert(!s.keys[k as int]);
            },
        }
    }
}

} // verus!
