use vstd::prelude::*;

use crate::display::{drawn_cols, drawn_rows, SCREEN_SIZE};
use crate::instruction::{byte_of, group_of, nibble_of, x_of, y_of};
use crate::keypad::{code_of, KeyboardBlockerState};
use crate::machine::{
    execute_spec, fetch_spec, is_known, tick_spec, zeros, MachineState, RAM_SIZE, STACK_SIZE,
};

verus! {

/// After `6xkk`, `Vx` holds `kk`.
pub proof fn law_load_immediate(s: MachineState, op: u16, rnd: u8)
    requires
        s.wf(),
        group_of(op) == 0x6,
    ensures
        execute_spec(s, op, rnd).reg(x_of(op)) == byte_of(op),
{
    reveal(execute_spec);
}

/// After `8xy4` with `x` other than `F`: when `Vx + Vy` exceeds 255, `VF` is 1
/// and `Vx` is the sum modulo 256; otherwise `VF` is 0 and `Vx` is the sum.
pub proof fn law_add_with_carry(s: MachineState, op: u16, rnd: u8)
    requires
        s.wf(),
        group_of(op) == 0x8,
        nibble_of(op) == 0x4,
        x_of(op) != 0xF,
    ensures
        ({
            let t = execute_spec(s, op, rnd);
            let sum = s.reg(x_of(op)) + s.reg(y_of(op));
            &&& sum > 255 ==> t.reg(0xF) == 1 && t.reg(x_of(op)) == sum % 256
            &&& sum <= 255 ==> t.reg(0xF) == 0 && t.reg(x_of(op)) == sum
        }),
{
    reveal(execute_spec);
}

/// After `8xy5` with `x` other than `F`: `VF` is 1 exactly when `Vx` exceeded
/// `Vy` before, and `Vx` becomes `Vx - Vy` modulo 256.
pub proof fn law_subtract_with_borrow(s: MachineState, op: u16, rnd: u8)
    requires
        s.wf(),
        group_of(op) == 0x8,
        nibble_of(op) == 0x5,
        x_of(op) != 0xF,
    ensures
        ({
            let t = execute_spec(s, op, rnd);
            let vx = s.reg(x_of(op));
            let vy = s.reg(y_of(op));
            &&& (t.reg(0xF) == 1) == (vx > vy)
            &&& t.reg(0xF) == 0 || t.reg(0xF) == 1
            &&& t.reg(x_of(op)) == (vx - vy) % 256
        }),
{
    reveal(execute_spec);
}

/// After `8xy6` with `x` other than `F`: `VF` is `Vx & 1` and `Vx` is
/// `Vx >> 1`, both of the value `Vx` held before.
pub proof fn law_shift_right(s: MachineState, op: u16, rnd: u8)
    requires
        s.wf(),
        group_of(op) == 0x8,
        nibble_of(op) == 0x6,
        x_of(op) != 0xF,
    ensures
        execute_spec(s, op, rnd).reg(0xF) == s.reg(x_of(op)) & 1,
        execute_spec(s, op, rnd).reg(x_of(op)) == s.reg(x_of(op)) >> 1,
{
    reveal(execute_spec);
    let w = s.reg(x_of(op));
    assert(w >> 1 == w / 2) by (bit_vector);
}

/// `Dxyn` marks the framebuffer dirty and changes no cell outside the
/// rectangle that starts at `(Vx, Vy)` and is clipped at the right and bottom
/// edges: nothing wraps around.
pub proof fn law_draw_clips(s: MachineState, op: u16, rnd: u8)
    requires
        s.wf(),
        group_of(op) == 0xD,
    ensures
        ({
            let t = execute_spec(s, op, rnd);
            let vx = s.reg(x_of(op));
            let vy = s.reg(y_of(op));
            &&& t.dirty
            &&& t.screen.len() == SCREEN_SIZE
            &&& forall|i: int|
                0 <= i < SCREEN_SIZE && !(vx <= i % 64 < vx + drawn_cols(vx) && vy <= i / 64 < vy
                    + drawn_rows(vy, nibble_of(op))) ==> #[trigger] t.screen[i] == s.screen[i]
        }),
{
    reveal(execute_spec);
}

/// After `Fx33`, the three bytes at `I` are the decimal digits of `Vx`,
/// hundreds first.
pub proof fn law_bcd_digits(s: MachineState, op: u16, rnd: u8)
    requires
        s.wf(),
        group_of(op) == 0xF,
        byte_of(op) == 0x33,
        s.i + 2 < RAM_SIZE,
    ensures
        ({
            let m = execute_spec(s, op, rnd).ram;
            let i = s.i as int;
            &&& m[i] < 10 && m[i + 1] < 10 && m[i + 2] < 10
            &&& m[i] * 100 + m[i + 1] * 10 + m[i + 2] == s.reg(x_of(op))
        }),
{
    reveal(execute_spec);
}

/// The store opcode `Fx55`.
pub open spec fn store_op(x: u8) -> u16 {
    (0xF055 + x * 256) as u16
}

/// The load opcode `Fx65`.
pub open spec fn load_op(x: u8) -> u16 {
    (0xF065 + x * 256) as u16
}

/// Storing `V0..Vx` with `Fx55`, then loading them back with `Fx65` into a
/// zeroed register file from the same memory, gives back the values `V0..Vx`
/// held before.
pub proof fn law_store_load_round_trip(s: MachineState, x: u8, rnd: u8)
    requires
        s.wf(),
        x < 16,
        s.i + x < RAM_SIZE,
    ensures
        ({
            let stored = execute_spec(s, store_op(x), rnd);
            let zeroed = MachineState { v: zeros(16), ..stored };
            let loaded = execute_spec(zeroed, load_op(x), rnd);
            forall|j: int| 0 <= j <= x ==> #[trigger] loaded.v[j] == s.v[j]
        }),
{
    reveal(execute_spec);
    assert(group_of(store_op(x)) == 0xF && byte_of(store_op(x)) == 0x55 && x_of(store_op(x)) == x);
    assert(group_of(load_op(x)) == 0xF && byte_of(load_op(x)) == 0x65 && x_of(load_op(x)) == x);
}

/// Right after `00E0` every cell of the framebuffer is off and the
/// framebuffer is marked dirty.
pub proof fn law_clear_screen(s: MachineState, rnd: u8)
    requires
        s.wf(),
    ensures
        execute_spec(s, 0x00E0, rnd).dirty,
        execute_spec(s, 0x00E0, rnd).screen.len() == SCREEN_SIZE,
        forall|i: int|
            0 <= i < SCREEN_SIZE ==> #[trigger] execute_spec(s, 0x00E0, rnd).screen[i] == 0,
{
    reveal(execute_spec);
    assert(group_of(0x00E0) == 0 && nibble_of(0x00E0) == 0);
}

/// A call `2nnn` followed by a return `00EE` brings back the program counter
/// the call was executed with, and the stack pointer.
pub proof fn law_call_return(s: MachineState, call: u16, rnd: u8)
    requires
        s.wf(),
        group_of(call) == 0x2,
        s.sp < STACK_SIZE - 1,
    ensures
        execute_spec(execute_spec(s, call, rnd), 0x00EE, rnd).pc == s.pc,
        execute_spec(execute_spec(s, call, rnd), 0x00EE, rnd).sp == s.sp,
{
    reveal(execute_spec);
    assert(group_of(0x00EE) == 0 && nibble_of(0x00EE) == 0xE);
}

/// Whether the opcode at the program counter is the wait for a key `Fx0A`.
pub open spec fn waits_for_key(s: MachineState) -> bool {
    group_of(fetch_spec(s)) == 0xF && byte_of(fetch_spec(s)) == 0x0A
}

/// While the wait for a key has not seen a press, a tick on `Fx0A` leaves the
/// program counter where it is and the wait locked, whatever tick it is.
pub proof fn law_wait_key_blocks(s: MachineState, rnd: u8)
    requires
        s.wf(),
        s.pc + 1 < RAM_SIZE,
        waits_for_key(s),
        s.blocker == KeyboardBlockerState::Idle || s.blocker == KeyboardBlockerState::Locked,
    ensures
        tick_spec(s, rnd).0.pc == s.pc,
        tick_spec(s, rnd).0.blocker == KeyboardBlockerState::Locked,
        tick_spec(s, rnd).1 is Ok,
        waits_for_key(tick_spec(s, rnd).0),
        tick_spec(s, rnd).0.wf(),
{
    reveal(execute_spec);
    let t = tick_spec(s, rnd).0;
    assert(t.ram == s.ram);
}

/// The state after `n` ticks with no key event in between; `rnd` is the
/// random byte of every tick.
pub open spec fn run_ticks(s: MachineState, n: nat, rnd: u8) -> MachineState
    decreases n,
{
    if n == 0 {
        s
    } else {
        run_ticks(tick_spec(s, rnd).0, (n - 1) as nat, rnd)
    }
}

/// While no key goes down, any number of ticks on `Fx0A` leaves the program
/// counter where it is; after at least one of them the wait is locked.
pub proof fn law_wait_key_blocks_for_ticks(s: MachineState, n: nat, rnd: u8)
    requires
        s.wf(),
        s.pc + 1 < RAM_SIZE,
        waits_for_key(s),
        s.blocker == KeyboardBlockerState::Idle || s.blocker == KeyboardBlockerState::Locked,
    ensures
        run_ticks(s, n, rnd).pc == s.pc,
        waits_for_key(run_ticks(s, n, rnd)),
        n > 0 ==> run_ticks(s, n, rnd).blocker == KeyboardBlockerState::Locked,
    decreases n,
{
    if n > 0 {
        law_wait_key_blocks(s, rnd);
        law_wait_key_blocks_for_ticks(tick_spec(s, rnd).0, (n - 1) as nat, rnd);
    }
}

/// Once the key pressed during a wait is released, the wait resolves within
/// two ticks: the first keeps the program counter in place, the second stores
/// the key's code in `Vx` and moves the program counter past `Fx0A`.
pub proof fn law_wait_key_resolves(s: MachineState, rnd1: u8, rnd2: u8)
    requires
        s.wf(),
        s.pc + 1 < RAM_SIZE,
        waits_for_key(s),
        s.blocker == KeyboardBlockerState::WaitingForRelease,
        !s.keys[code_of(s.last_key) as int],
    ensures
        ({
            let t1 = tick_spec(s, rnd1).0;
            let t2 = tick_spec(t1, rnd2).0;
            &&& t1.pc == s.pc
            &&& t2.reg(x_of(fetch_spec(s))) == code_of(s.last_key)
            &&& t2.pc == s.pc + 2
            &&& t2.blocker == KeyboardBlockerState::Idle
        }),
{
    reveal(execute_spec);
    let t1 = tick_spec(s, rnd1).0;
    assert(t1.ram == s.ram);
    assert(fetch_spec(t1) == fetch_spec(s));
}

/// Groups `0`, `5` and `8` accept every low nibble; group `E` accepts only
/// the low nibbles `E` and `1`, and group `F` only its nine mapped bytes.
pub proof fn law_dispatch_tolerance(op: u16)
    ensures
        group_of(op) == 0x0 || group_of(op) == 0x5 || group_of(op) == 0x8 ==> is_known(op),
        group_of(op) == 0xE ==> (is_known(op) <==> (nibble_of(op) == 0xE || nibble_of(op) == 0x1)),
        group_of(op) == 0xF && !is_known(op) ==> byte_of(op) != 0x07 && byte_of(op) != 0x65,
{
}

} // verus!
