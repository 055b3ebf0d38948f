use vstd::prelude::*;

use crate::display::{
    blit, blit_partial, cell_index, covered, drawn_cols, drawn_rows, lemma_screen_len, rows_read,
    Display, SCREEN_HEIGHT, SCREEN_SIZE, SCREEN_WIDTH,
};
use crate::instruction::{Instruction, addr_of, byte_of, group_of, nibble_of, x_of, y_of};
use crate::rng::random_byte;
use crate::keypad::{
    after_press, after_wait_tick, code_of, lemma_keyboard_len, Key, Keyboard,
    KeyboardBlockerState,
};

verus! {

/// Number of addressable bytes of memory.
pub const RAM_SIZE: usize = 4096;

/// Number of return addresses the call stack holds.
pub const STACK_SIZE: usize = 16;

/// The failure of one tick.
#[derive(Debug, Copy, Clone, PartialEq, Eq, Structural)]
pub enum ExecutionError {
    /// An opcode outside the instruction table: the raw opcode and the address
    /// it was fetched from.
    UnknownOpCode(u16, u16),
}

/// Everything a machine holds, as mathematical values.
pub ghost struct MachineState {
    pub ram: Seq<u8>,
    /// The general registers `V0..VF`.
    pub v: Seq<u8>,
    /// The address register `I`.
    pub i: u16,
    pub delay: u8,
    pub sound: u8,
    pub pc: u16,
    /// Index of the top of the call stack; -1 when it is empty.
    pub sp: i8,
    pub stack: Seq<u16>,
    pub screen: Seq<u8>,
    pub dirty: bool,
    pub keys: Seq<bool>,
    pub blocker: KeyboardBlockerState,
    pub last_key: Key,
    /// The address programs are loaded at and execution starts from.
    pub origin: u16,
    pub last_instruction: u16,
}

impl MachineState {
    pub open spec fn wf(self) -> bool {
        &&& self.ram.len() == RAM_SIZE
        &&& self.v.len() == 16
        &&& self.stack.len() == STACK_SIZE
        &&& self.screen.len() == SCREEN_SIZE
        &&& self.keys.len() == 16
        &&& -1 <= self.sp < STACK_SIZE
    }

    pub open spec fn reg(self, r: u8) -> u8 {
        self.v[r as int]
    }

    pub open spec fn set_reg(self, r: u8, val: u8) -> MachineState {
        MachineState { v: self.v.update(r as int, val), ..self }
    }

    /// Skips the next instruction when `cond` holds.
    pub open spec fn skip_if(self, cond: bool) -> MachineState {
        if cond {
            MachineState { pc: (self.pc + 2) as u16, ..self }
        } else {
            self
        }
    }
}

pub open spec fn zeros(n: nat) -> Seq<u8> {
    Seq::new(n, |i: int| 0u8)
}

/// `00E0`: clear the screen.
pub open spec fn op_clear(s: MachineState) -> MachineState {
    MachineState { screen: zeros(SCREEN_SIZE as nat), dirty: true, ..s }
}

/// `00EE`: return from a subroutine.
pub open spec fn op_return(s: MachineState) -> MachineState {
    MachineState { pc: s.stack[s.sp as int], sp: (s.sp - 1) as i8, ..s }
}

/// `2nnn`: call the subroutine at `nnn`.
pub open spec fn op_call(s: MachineState, op: u16) -> MachineState {
    MachineState {
        sp: (s.sp + 1) as i8,
        stack: s.stack.update(s.sp + 1, s.pc),
        pc: addr_of(op),
        ..s
    }
}

/// The arithmetic and logic group `8xyN`; unmapped `N` changes nothing.
pub open spec fn op_alu(s: MachineState, op: u16) -> MachineState {
    let x = x_of(op);
    let vx = s.reg(x);
    let vy = s.reg(y_of(op));
    let n = nibble_of(op);
    if n == 0x0 {
        s.set_reg(x, vy)
    } else if n == 0x1 {
        s.set_reg(x, vx | vy)
    } else if n == 0x2 {
        s.set_reg(x, vx & vy)
    } else if n == 0x3 {
        s.set_reg(x, vx ^ vy)
    } else if n == 0x4 {
        s.set_reg(0xF, if vx + vy > 255 { 1 } else { 0 }).set_reg(x, ((vx + vy) % 256) as u8)
    } else if n == 0x5 {
        s.set_reg(0xF, if vx > vy { 1 } else { 0 }).set_reg(x, ((vx - vy) % 256) as u8)
    } else if n == 0x6 {
        let t = s.set_reg(0xF, vx & 1);
        t.set_reg(x, t.reg(x) / 2)
    } else if n == 0x7 {
        s.set_reg(0xF, if vy > vx { 1 } else { 0 }).set_reg(
            x,
            ((vy - vx) % 256) as u8,
        )
    } else if n == 0xE {
        let t = s.set_reg(0xF, vx & 0x80);
        t.set_reg(x, ((t.reg(x) * 2) % 256) as u8)
    } else {
        s
    }
}

/// `Dxyn`: XOR the `n`-row sprite at `I` into the screen at `(Vx, Vy)`.
/// `VF` tells whether the last cell drawn is off afterwards; it is unchanged
/// when no cell is drawn.
pub open spec fn op_draw(s: MachineState, op: u16) -> MachineState {
    let vx = s.reg(x_of(op));
    let vy = s.reg(y_of(op));
    let n = nibble_of(op);
    let screen = blit(s.screen, s.ram, s.i as int, vx, vy, n);
    let rows = drawn_rows(vy, n);
    let cols = drawn_cols(vx);
    let last = (vy + rows - 1) * SCREEN_WIDTH + vx + cols - 1;
    let t = if rows > 0 && cols > 0 {
        s.set_reg(0xF, if screen[last] == 0 { 1 } else { 0 })
    } else {
        s
    };
    MachineState { screen: screen, dirty: true, ..t }
}

/// `Fx0A`: wait for a key to be pressed and released, then store its code in
/// `Vx`. Until then the program counter is moved back onto the instruction.
pub open spec fn op_wait_key(s: MachineState, op: u16) -> MachineState {
    let next = after_wait_tick(s.blocker, s.keys[code_of(s.last_key) as int]);
    if s.blocker == KeyboardBlockerState::Unlocked {
        MachineState { blocker: next, ..s.set_reg(x_of(op), code_of(s.last_key)) }
    } else {
        MachineState { blocker: next, pc: (s.pc - 2) as u16, ..s }
    }
}

/// The timer, memory and index group `FxNN`; unmapped `NN` changes nothing.
pub open spec fn op_misc(s: MachineState, op: u16) -> MachineState {
    let x = x_of(op);
    let vx = s.reg(x);
    let b = byte_of(op);
    let i = s.i as int;
    if b == 0x07 {
        s.set_reg(x, s.delay)
    } else if b == 0x0A {
        op_wait_key(s, op)
    } else if b == 0x15 {
        MachineState { delay: vx, ..s }
    } else if b == 0x18 {
        MachineState { sound: vx, ..s }
    } else if b == 0x1E {
        MachineState { i: (s.i + vx) as u16, ..s }
    } else if b == 0x29 {
        MachineState { i: (vx * 5) as u16, ..s }
    } else if b == 0x33 {
        MachineState {
            ram: s.ram.update(i, vx / 100).update(i + 1, (vx / 10) % 10).update(i + 2, vx % 10),
            ..s
        }
    } else if b == 0x55 {
        MachineState {
            ram: Seq::new(s.ram.len(), |j: int| if i <= j <= i + x { s.v[j - i] } else { s.ram[j] }),
            ..s
        }
    } else if b == 0x65 {
        MachineState {
            v: Seq::new(s.v.len(), |j: int| if j <= x { s.ram[i + j] } else { s.v[j] }),
            ..s
        }
    } else {
        s
    }
}

/// Whether an opcode is in the instruction table. Groups `0` and `8`
/// tolerate any low nibble; groups `E` and `F` do not.
pub open spec fn is_known(op: u16) -> bool {
    let g = group_of(op);
    if g == 0xE {
        nibble_of(op) == 0xE || nibble_of(op) == 0x1
    } else if g == 0xF {
        let b = byte_of(op);
        b == 0x07 || b == 0x0A || b == 0x15 || b == 0x18 || b == 0x1E || b == 0x29 || b == 0x33
            || b == 0x55 || b == 0x65
    } else {
        true
    }
}

/// The effect of executing `op` once the program counter has moved past it.
/// `rnd` is the random byte `Cxkk` uses. An unknown opcode changes nothing.
#[verifier::opaque]
pub open spec fn execute_spec(s: MachineState, op: u16, rnd: u8) -> MachineState {
    let g = group_of(op);
    let x = x_of(op);
    let vx = s.reg(x);
    let vy = s.reg(y_of(op));
    let kk = byte_of(op);
    if g == 0x0 {
        if nibble_of(op) == 0x0 {
            op_clear(s)
        } else if nibble_of(op) == 0xE {
            op_return(s)
        } else {
            s
        }
    } else if g == 0x1 {
        MachineState { pc: addr_of(op), ..s }
    } else if g == 0x2 {
        op_call(s, op)
    } else if g == 0x3 {
        s.skip_if(vx == kk)
    } else if g == 0x4 {
        s.skip_if(vx != kk)
    } else if g == 0x5 {
        s.skip_if(vx == vy)
    } else if g == 0x6 {
        s.set_reg(x, kk)
    } else if g == 0x7 {
        s.set_reg(x, ((vx + kk) % 256) as u8)
    } else if g == 0x8 {
        op_alu(s, op)
    } else if g == 0x9 {
        s.skip_if(vx != vy)
    } else if g == 0xA {
        MachineState { i: addr_of(op), ..s }
    } else if g == 0xB {
        MachineState { pc: (addr_of(op) + s.reg(0)) as u16, ..s }
    } else if g == 0xC {
        s.set_reg(x, rnd & kk)
    } else if g == 0xD {
        op_draw(s, op)
    } else if g == 0xE {
        if nibble_of(op) == 0xE {
            s.skip_if(s.keys[vx as int])
        } else if nibble_of(op) == 0x1 {
            s.skip_if(!s.keys[vx as int])
        } else {
            s
        }
    } else {
        op_misc(s, op)
    }
}

/// Whether executing `op` in state `s` stays within what the machine defines:
/// no return from an empty stack, no call on a full one, no key code above
/// `0xF`, no memory access past the end and no overflow of `I`.
pub open spec fn op_defined(s: MachineState, op: u16) -> bool {
    let g = group_of(op);
    let x = x_of(op);
    let vx = s.reg(x);
    let i = s.i as int;
    &&& s.wf()
    &&& 2 <= s.pc <= 0xFFFD
    &&& (g == 0x0 && nibble_of(op) == 0xE ==> 0 <= s.sp)
    &&& (g == 0x2 ==> s.sp < STACK_SIZE - 1)
    &&& (g == 0xD ==> i + rows_read(s.reg(y_of(op)), nibble_of(op)) <= RAM_SIZE)
    &&& (g == 0xE && (nibble_of(op) == 0xE || nibble_of(op) == 0x1) ==> vx < 16)
    &&& (g == 0xF && byte_of(op) == 0x1E ==> i + vx <= 0xFFFF)
    &&& (g == 0xF && byte_of(op) == 0x33 ==> i + 2 < RAM_SIZE)
    &&& (g == 0xF && (byte_of(op) == 0x55 || byte_of(op) == 0x65) ==> i + x < RAM_SIZE)
}

/// The opcode at the program counter: two bytes, high byte first.
pub open spec fn fetch_spec(s: MachineState) -> u16 {
    (s.ram[s.pc as int] * 256 + s.ram[s.pc + 1]) as u16
}

/// The state once the timers have counted down, the opcode is fetched and
/// the program counter has moved past it.
pub open spec fn fetched(s: MachineState) -> MachineState {
    MachineState {
        delay: if s.delay > 0 { (s.delay - 1) as u8 } else { 0 },
        sound: if s.sound > 0 { (s.sound - 1) as u8 } else { 0 },
        pc: (s.pc + 2) as u16,
        last_instruction: fetch_spec(s),
        ..s
    }
}

/// Whether one tick from `s` stays within what the machine defines.
pub open spec fn tick_defined(s: MachineState) -> bool {
    &&& s.wf()
    &&& s.pc + 1 < RAM_SIZE
    &&& op_defined(fetched(s), fetch_spec(s))
}

/// The state after one tick, and what the tick returns.
pub open spec fn tick_spec(s: MachineState, rnd: u8) -> (MachineState, Result<(), ExecutionError>) {
    let op = fetch_spec(s);
    let t = fetched(s);
    if is_known(op) {
        (execute_spec(t, op, rnd), Ok(()))
    } else {
        (t, Err(ExecutionError::UnknownOpCode(op, s.pc)))
    }
}

/// The cell drawn last once the first `full` rows of a sprite at
/// `(vx, vy)` are complete and `extra` columns of the next row are done.
pub open spec fn last_drawn(vx: u8, vy: u8, full: int, extra: int) -> Option<int> {
    if extra > 0 {
        Some((vy + full) * SCREEN_WIDTH + vx + extra - 1)
    } else if full > 0 && drawn_cols(vx) > 0 {
        Some((vy + full - 1) * SCREEN_WIDTH + vx + drawn_cols(vx) - 1)
    } else {
        None
    }
}

/// The registers once the collision flag reflects the cell drawn last.
pub open spec fn flag_of_last(v: Seq<u8>, screen: Seq<u8>, last: Option<int>) -> Seq<u8> {
    match last {
        Some(c) => v.update(0xF, if screen[c] == 0 { 1 } else { 0 }),
        None => v,
    }
}

struct Cpu {
    registers: [u8; 16],
    register_i: u16,
    delay_timer: u8,
    sound_timer: u8,
    pc: u16,
    sp: i8,
    stack: [u16; STACK_SIZE],
}

impl Cpu {
    #[verifier::type_invariant]
    spec fn stack_pointer_in_range(self) -> bool {
        -1 <= self.sp < STACK_SIZE
    }

    fn new(initial_instruction: u16) -> (r: Cpu)
        ensures
            r.registers@ == zeros(16),
            r.register_i == 0,
            r.delay_timer == 0,
            r.sound_timer == 0,
            r.pc == initial_instruction,
            r.sp == -1,
            r.stack@ == Seq::new(STACK_SIZE as nat, |i: int| 0u16),
    {
        let r = Cpu {
            registers: [0u8; 16],
            register_i: 0,
            delay_timer: 0,
            sound_timer: 0,
            pc: initial_instruction,
            sp: -1,
            stack: [0u16; STACK_SIZE],
        };
        assert(r.registers@ =~= zeros(16));
        assert(r.stack@ =~= Seq::new(STACK_SIZE as nat, |i: int| 0u16));
        r
    }
}

/// A CHIP-8 machine: memory, processor, framebuffer and keypad.
pub struct Chip8 {
    ram: [u8; RAM_SIZE],
    cpu: Cpu,
    display: Display,
    keyboard: Keyboard,
    wait_key_pressed: KeyboardBlockerState,
    last_key_pressed: Key,
    first_instruction_addr: u16,
    last_instruction: Instruction,
}

impl View for Chip8 {
    type V = MachineState;

    closed spec fn view(&self) -> MachineState {
        MachineState {
            ram: self.ram@,
            v: self.cpu.registers@,
            i: self.cpu.register_i,
            delay: self.cpu.delay_timer,
            sound: self.cpu.sound_timer,
            pc: self.cpu.pc,
            sp: self.cpu.sp,
            stack: self.cpu.stack@,
            screen: self.display@.screen,
            dirty: self.display@.dirty,
            keys: self.keyboard@,
            blocker: self.wait_key_pressed,
            last_key: self.last_key_pressed,
            origin: self.first_instruction_addr,
            last_instruction: self.last_instruction@,
        }
    }
}

impl Chip8 {
    proof fn lemma_wf(&self)
        requires
            -1 <= self.cpu.sp < STACK_SIZE,
        ensures
            self@.wf(),
    {
        lemma_screen_len(&self.display);
        lemma_keyboard_len(&self.keyboard);
    }

    /// A machine with all state zeroed and the program counter at
    /// `initial_instruction`, where programs are also loaded.
    pub fn new(initial_instruction: u16) -> (r: Chip8)
        ensures
            r@.wf(),
            r@.ram == zeros(RAM_SIZE as nat),
            r@.v == zeros(16),
            r@.i == 0,
            r@.delay == 0,
            r@.sound == 0,
            r@.pc == initial_instruction,
            r@.sp == -1,
            r@.stack == Seq::new(STACK_SIZE as nat, |i: int| 0u16),
            r@.screen == zeros(SCREEN_SIZE as nat),
            r@.dirty,
            r@.keys == Seq::new(16, |i: int| false),
            r@.blocker == KeyboardBlockerState::Idle,
            r@.last_key == Key::Key1,
            r@.origin == initial_instruction,
            r@.last_instruction == 0,
    {
        let r = Chip8 {
            ram: [0u8; RAM_SIZE],
            cpu: Cpu::new(initial_instruction),
            display: Display::new(),
            keyboard: Keyboard::new(),
            wait_key_pressed: KeyboardBlockerState::Idle,
            last_key_pressed: Key::Key1,
            first_instruction_addr: initial_instruction,
            last_instruction: Instruction::new(0),
        };
        assert(r@.ram =~= zeros(RAM_SIZE as nat));
        proof {
            r.lemma_wf();
        }
        r
    }

    /// The whole memory.
    pub fn get_ram(&self) -> (r: &[u8])
        ensures
            r@ == self@.ram,
            self@.wf(),
    {
        proof {
            use_type_invariant(&self.cpu);
            self.lemma_wf();
        }
        self.ram.as_slice()
    }

    /// The opcode fetched by the latest tick.
    pub fn get_last_instruction(&self) -> (r: Instruction)
        ensures
            r@ == self@.last_instruction,
            self@.wf(),
    {
        proof {
            use_type_invariant(&self.cpu);
            self.lemma_wf();
        }
        self.last_instruction
    }

    /// Whether the sound timer is running.
    pub fn play_sound(&self) -> (r: bool)
        ensures
            r == (self@.sound > 0),
            self@.wf(),
    {
        proof {
            use_type_invariant(&self.cpu);
            self.lemma_wf();
        }
        self.cpu.sound_timer > 0
    }

    /// Clears the framebuffer, the keypad (its keys and its wait for a key)
    /// and the memory, and brings back the program counter, the stack pointer
    /// and the timers to their initial values. Registers, `I` and the stack
    /// slots are kept.
    pub fn reset(&mut self)
        ensures
            final(self)@.wf(),
            final(self)@ == (MachineState {
                ram: zeros(RAM_SIZE as nat),
                screen: zeros(SCREEN_SIZE as nat),
                dirty: true,
                keys: Seq::new(16, |i: int| false),
                blocker: KeyboardBlockerState::Idle,
                last_key: Key::Key1,
                pc: old(self)@.origin,
                sp: -1i8,
                delay: 0,
                sound: 0,
                ..old(self)@
            }),
    {
        proof {
            use_type_invariant(&self.cpu);
        }
        self.display.clear();
        self.keyboard.reset();
        self.wait_key_pressed = KeyboardBlockerState::Idle;
        self.last_key_pressed = Key::Key1;
        self.ram = [0u8; RAM_SIZE];
        self.cpu.pc = self.first_instruction_addr;
        self.cpu.sp = -1;
        self.cpu.delay_timer = 0;
        self.cpu.sound_timer = 0;
        assert(self.ram@ =~= zeros(RAM_SIZE as nat));
        proof {
            use_type_invariant(&self.cpu);
            self.lemma_wf();
        }
    }

    /// The framebuffer, for reading it and clearing its dirty flag.
    pub fn get_display(&mut self) -> (r: &mut Display)
        ensures
            old(self)@.wf(),
            r@.screen == old(self)@.screen,
            r@.dirty == old(self)@.dirty,
            final(self)@ == (MachineState {
                screen: final(r)@.screen,
                dirty: final(r)@.dirty,
                ..old(self)@
            }),
    {
        proof {
            use_type_invariant(&self.cpu);
            self.lemma_wf();
        }
        &mut self.display
    }

    /// Records a key going down or up. A key going down is remembered as the
    /// last key pressed and releases a wait for a fresh press.
    pub fn set_key_pressed(&mut self, key: Key, pressed: bool)
        ensures
            final(self)@.wf(),
            final(self)@ == (if pressed {
                MachineState {
                    keys: old(self)@.keys.update(code_of(key) as int, pressed),
                    blocker: after_press(old(self)@.blocker),
                    last_key: key,
                    ..old(self)@
                }
            } else {
                MachineState {
                    keys: old(self)@.keys.update(code_of(key) as int, pressed),
                    ..old(self)@
                }
            }),
    {
        self.keyboard.set_pressed(key, pressed);
        if pressed {
            self.wait_key_pressed = self.wait_key_pressed.on_press();
            self.last_key_pressed = key;
        }
        proof {
            use_type_invariant(&self.cpu);
            self.lemma_wf();
        }
    }

    pub fn is_key_pressed(&self, key: Key) -> (r: bool)
        ensures
            r == self@.keys[code_of(key) as int],
            self@.wf(),
    {
        proof {
            use_type_invariant(&self.cpu);
            self.lemma_wf();
        }
        self.keyboard.is_pressed(key)
    }

    /// Copies a program image into memory from the load address on.
    pub fn load_program(&mut self, content: &[u8])
        requires
            old(self)@.origin + content@.len() <= RAM_SIZE,
        ensures
            final(self)@.wf(),
            final(self)@ == (MachineState {
                ram: Seq::new(
                    RAM_SIZE as nat,
                    |j: int|
                        if old(self)@.origin <= j < old(self)@.origin + content@.len() {
                            content@[j - old(self)@.origin]
                        } else {
                            old(self)@.ram[j]
                        },
                ),
                ..old(self)@
            }),
    {
        let base = self.first_instruction_addr as usize;
        let mut i: usize = 0;
        assert(self.ram@ =~= Seq::new(
            RAM_SIZE as nat,
            |j: int|
                if base <= j < base + i {
                    content@[j - base]
                } else {
                    old(self)@.ram[j]
                },
        ));
        while i < content.len()
            invariant
                base == old(self)@.origin,
                base + content@.len() <= RAM_SIZE,
                i <= content@.len(),
                self@ == (MachineState {
                    ram: Seq::new(
                        RAM_SIZE as nat,
                        |j: int|
                            if base <= j < base + i {
                                content@[j - base]
                            } else {
                                old(self)@.ram[j]
                            },
                    ),
                    ..old(self)@
                }),
            decreases content@.len() - i,
        {
            self.ram[base + i] = content[i];
            i += 1;
            assert(self.ram@ =~= Seq::new(
                RAM_SIZE as nat,
                |j: int|
                    if base <= j < base + i {
                        content@[j - base]
                    } else {
                        old(self)@.ram[j]
                    },
            ));
        }
        proof {
            use_type_invariant(&self.cpu);
            self.lemma_wf();
        }
    }

    fn instr_00e0(&mut self)
        ensures
            final(self)@ == op_clear(old(self)@),
    {
        self.display.clear();
    }

    fn instr_00ee(&mut self)
        requires
            0 <= old(self)@.sp,
        ensures
            final(self)@ == op_return(old(self)@),
    {
        proof {
            use_type_invariant(&self.cpu);
        }
        self.cpu.pc = self.cpu.stack[self.cpu.sp as usize];
        self.cpu.sp = self.cpu.sp - 1;
    }

    fn instr_1nnn(&mut self, instr: Instruction)
        ensures
            final(self)@ == (MachineState { pc: addr_of(instr@), ..old(self)@ }),
    {
        proof {
            use_type_invariant(&self.cpu);
        }
        self.cpu.pc = instr.addr();
    }

    fn instr_2nnn(&mut self, instr: Instruction)
        requires
            old(self)@.sp < STACK_SIZE - 1,
        ensures
            final(self)@ == op_call(old(self)@, instr@),
    {
        proof {
            use_type_invariant(&self.cpu);
        }
        self.cpu.sp = self.cpu.sp + 1;
        self.cpu.stack[self.cpu.sp as usize] = self.cpu.pc;
        self.cpu.pc = instr.addr();
    }

    fn skip_next(&mut self)
        requires
            old(self)@.pc <= 0xFFFD,
        ensures
            final(self)@ == old(self)@.skip_if(true),
    {
        proof {
            use_type_invariant(&self.cpu);
        }
        self.cpu.pc = self.cpu.pc + 2;
    }

    fn instr_3xkk(&mut self, instr: Instruction)
        requires
            old(self)@.pc <= 0xFFFD,
        ensures
            final(self)@ == old(self)@.skip_if(old(self)@.reg(x_of(instr@)) == byte_of(instr@)),
    {
        let x = instr.x();
        let kk = instr.byte();
        let vx = self.cpu.registers[x as usize];
        if vx == kk {
            self.skip_next();
        }
    }

    fn instr_4xkk(&mut self, instr: Instruction)
        requires
            old(self)@.pc <= 0xFFFD,
        ensures
            final(self)@ == old(self)@.skip_if(old(self)@.reg(x_of(instr@)) != byte_of(instr@)),
    {
        let x = instr.x();
        let kk = instr.byte();
        let vx = self.cpu.registers[x as usize];
        if vx != kk {
            self.skip_next();
        }
    }

    fn instr_5xy0(&mut self, instr: Instruction)
        requires
            old(self)@.pc <= 0xFFFD,
        ensures
            final(self)@ == old(self)@.skip_if(
                old(self)@.reg(x_of(instr@)) == old(self)@.reg(y_of(instr@)),
            ),
    {
        let vx = self.cpu.registers[instr.x() as usize];
        let vy = self.cpu.registers[instr.y() as usize];
        if vx == vy {
            self.skip_next();
        }
    }

    fn set_register(&mut self, r: u8, val: u8)
        requires
            r < 16,
        ensures
            final(self)@ == old(self)@.set_reg(r, val),
    {
        proof {
            use_type_invariant(&self.cpu);
        }
        self.cpu.registers[r as usize] = val;
    }

    fn instr_6xkk(&mut self, instr: Instruction)
        ensures
            final(self)@ == old(self)@.set_reg(x_of(instr@), byte_of(instr@)),
    {
        self.set_register(instr.x(), instr.byte());
    }

    fn instr_7xkk(&mut self, instr: Instruction)
        ensures
            final(self)@ == old(self)@.set_reg(
                x_of(instr@),
                ((old(self)@.reg(x_of(instr@)) + byte_of(instr@)) % 256) as u8,
            ),
    {
        let vx = self.cpu.registers[instr.x() as usize];
        self.set_register(instr.x(), vx.wrapping_add(instr.byte()));
    }

    fn instr_8xy0(&mut self, instr: Instruction)
        requires
            nibble_of(instr@) == 0x0,
        ensures
            final(self)@ == op_alu(old(self)@, instr@),
    {
        let vy = self.cpu.registers[instr.y() as usize];
        self.set_register(instr.x(), vy);
    }

    fn instr_8xy1(&mut self, instr: Instruction)
        requires
            nibble_of(instr@) == 0x1,
        ensures
            final(self)@ == op_alu(old(self)@, instr@),
    {
        let vx = self.cpu.registers[instr.x() as usize];
        let vy = self.cpu.registers[instr.y() as usize];
        self.set_register(instr.x(), vx | vy);
    }

    fn instr_8xy2(&mut self, instr: Instruction)
        requires
            nibble_of(instr@) == 0x2,
        ensures
            final(self)@ == op_alu(old(self)@, instr@),
    {
        let vx = self.cpu.registers[instr.x() as usize];
        let vy = self.cpu.registers[instr.y() as usize];
        self.set_register(instr.x(), vx & vy);
    }

    fn instr_8xy3(&mut self, instr: Instruction)
        requires
            nibble_of(instr@) == 0x3,
        ensures
            final(self)@ == op_alu(old(self)@, instr@),
    {
        let vx = self.cpu.registers[instr.x() as usize];
        let vy = self.cpu.registers[instr.y() as usize];
        self.set_register(instr.x(), vx ^ vy);
    }

    fn instr_8xy4(&mut self, instr: Instruction)
        requires
            nibble_of(instr@) == 0x4,
        ensures
            final(self)@ == op_alu(old(self)@, instr@),
    {
        let vx = self.cpu.registers[instr.x() as usize] as u16;
        let vy = self.cpu.registers[instr.y() as usize] as u16;
        let sum = vx + vy;
        self.set_register(0xF, if sum > 255 { 1 } else { 0 });
        let low = if sum > 255 { (sum & 255) as u8 } else { sum as u8 };
        assert(sum & 255 == sum % 256) by (bit_vector);
        self.set_register(instr.x(), low);
    }

    fn instr_8xy5(&mut self, instr: Instruction)
        requires
            nibble_of(instr@) == 0x5,
        ensures
            final(self)@ == op_alu(old(self)@, instr@),
    {
        let vx = self.cpu.registers[instr.x() as usize];
        let vy = self.cpu.registers[instr.y() as usize];
        self.set_register(0xF, if vx > vy { 1 } else { 0 });
        self.set_register(instr.x(), vx.wrapping_sub(vy));
    }

    fn instr_8xy6(&mut self, instr: Instruction)
        requires
            nibble_of(instr@) == 0x6,
        ensures
            final(self)@ == op_alu(old(self)@, instr@),
    {
        let vx = self.cpu.registers[instr.x() as usize];
        self.set_register(0xF, vx & 1);
        let w = self.cpu.registers[instr.x() as usize];
        assert(w >> 1u8 == w / 2) by (bit_vector);
        self.set_register(instr.x(), w >> 1u8);
    }

    fn instr_8xy7(&mut self, instr: Instruction)
        requires
            nibble_of(instr@) == 0x7,
        ensures
            final(self)@ == op_alu(old(self)@, instr@),
    {
        let vx = self.cpu.registers[instr.x() as usize];
        let vy = self.cpu.registers[instr.y() as usize];
        self.set_register(0xF, if vy > vx { 1 } else { 0 });
        self.set_register(instr.x(), vy.wrapping_sub(vx));
    }

    fn instr_8xye(&mut self, instr: Instruction)
        requires
            nibble_of(instr@) == 0xE,
        ensures
            final(self)@ == op_alu(old(self)@, instr@),
    {
        let vx = self.cpu.registers[instr.x() as usize];
        self.set_register(0xF, vx & 0x80);
        let w = self.cpu.registers[instr.x() as usize];
        assert(w << 1u8 == ((w * 2) % 256) as u8) by (bit_vector);
        self.set_register(instr.x(), w << 1u8);
    }

    fn instr_9xy0(&mut self, instr: Instruction)
        requires
            old(self)@.pc <= 0xFFFD,
        ensures
            final(self)@ == old(self)@.skip_if(
                old(self)@.reg(x_of(instr@)) != old(self)@.reg(y_of(instr@)),
            ),
    {
        let vx = self.cpu.registers[instr.x() as usize];
        let vy = self.cpu.registers[instr.y() as usize];
        if vx != vy {
            self.skip_next();
        }
    }

    fn instr_annn(&mut self, instr: Instruction)
        ensures
            final(self)@ == (MachineState { i: addr_of(instr@), ..old(self)@ }),
    {
        proof {
            use_type_invariant(&self.cpu);
        }
        self.cpu.register_i = instr.addr();
    }

    fn instr_bnnn(&mut self, instr: Instruction)
        ensures
            final(self)@ == (MachineState {
                pc: (addr_of(instr@) + old(self)@.reg(0)) as u16,
                ..old(self)@
            }),
    {
        proof {
            use_type_invariant(&self.cpu);
        }
        self.cpu.pc = instr.addr() + self.cpu.registers[0] as u16;
    }

    fn instr_cxkk(&mut self, instr: Instruction, random_byte: u8)
        ensures
            final(self)@ == old(self)@.set_reg(x_of(instr@), random_byte & byte_of(instr@)),
    {
        self.set_register(instr.x(), random_byte & instr.byte());
    }

    fn instr_ex9e(&mut self, instr: Instruction)
        requires
            old(self)@.pc <= 0xFFFD,
            old(self)@.reg(x_of(instr@)) < 16,
        ensures
            final(self)@ == old(self)@.skip_if(
                old(self)@.keys[old(self)@.reg(x_of(instr@)) as int],
            ),
    {
        let vx = self.cpu.registers[instr.x() as usize];
        if self.keyboard.is_pressed(Key::from_code(vx)) {
            self.skip_next();
        }
    }

    fn instr_exa1(&mut self, instr: Instruction)
        requires
            old(self)@.pc <= 0xFFFD,
            old(self)@.reg(x_of(instr@)) < 16,
        ensures
            final(self)@ == old(self)@.skip_if(
                !old(self)@.keys[old(self)@.reg(x_of(instr@)) as int],
            ),
    {
        let vx = self.cpu.registers[instr.x() as usize];
        if !self.keyboard.is_pressed(Key::from_code(vx)) {
            self.skip_next();
        }
    }

    fn instr_fx07(&mut self, instr: Instruction)
        requires
            byte_of(instr@) == 0x07,
        ensures
            final(self)@ == op_misc(old(self)@, instr@),
    {
        self.set_register(instr.x(), self.cpu.delay_timer);
    }

    fn instr_fx0a(&mut self, instr: Instruction)
        requires
            byte_of(instr@) == 0x0A,
            old(self)@.pc >= 2,
        ensures
            final(self)@ == op_misc(old(self)@, instr@),
    {
        proof {
            use_type_invariant(&self.cpu);
        }
        let held = self.keyboard.is_pressed(self.last_key_pressed);
        let state = self.wait_key_pressed;
        if state.completes() {
            self.set_register(instr.x(), self.last_key_pressed.code());
        } else {
            self.cpu.pc = self.cpu.pc - 2;
        }
        self.wait_key_pressed = state.on_wait_tick(held);
    }

    fn instr_fx15(&mut self, instr: Instruction)
        requires
            byte_of(instr@) == 0x15,
        ensures
            final(self)@ == op_misc(old(self)@, instr@),
    {
        proof {
            use_type_invariant(&self.cpu);
        }
        self.cpu.delay_timer = self.cpu.registers[instr.x() as usize];
    }

    fn instr_fx18(&mut self, instr: Instruction)
        requires
            byte_of(instr@) == 0x18,
        ensures
            final(self)@ == op_misc(old(self)@, instr@),
    {
        proof {
            use_type_invariant(&self.cpu);
        }
        self.cpu.sound_timer = self.cpu.registers[instr.x() as usize];
    }

    fn instr_fx1e(&mut self, instr: Instruction)
        requires
            byte_of(instr@) == 0x1E,
            old(self)@.i + old(self)@.reg(x_of(instr@)) <= 0xFFFF,
        ensures
            final(self)@ == op_misc(old(self)@, instr@),
    {
        proof {
            use_type_invariant(&self.cpu);
        }
        self.cpu.register_i = self.cpu.register_i + self.cpu.registers[instr.x() as usize] as u16;
    }

    fn instr_fx29(&mut self, instr: Instruction)
        requires
            byte_of(instr@) == 0x29,
        ensures
            final(self)@ == op_misc(old(self)@, instr@),
    {
        proof {
            use_type_invariant(&self.cpu);
        }
        self.cpu.register_i = self.cpu.registers[instr.x() as usize] as u16 * 5;
    }

    fn instr_fx33(&mut self, instr: Instruction)
        requires
            byte_of(instr@) == 0x33,
            old(self)@.i + 2 < RAM_SIZE,
        ensures
            final(self)@ == op_misc(old(self)@, instr@),
    {
        let base = self.cpu.register_i as usize;
        let mut vx = self.cpu.registers[instr.x() as usize];
        let ghost v0 = vx;
        self.ram[base + 2] = vx % 10;
        vx = vx / 10;
        self.ram[base + 1] = vx % 10;
        vx = vx / 10;
        self.ram[base] = vx % 10;
        assert(self.ram@ =~= old(self)@.ram.update(base as int, v0 / 100).update(
            base + 1,
            (v0 / 10) % 10,
        ).update(base + 2, v0 % 10));
    }

    fn instr_fx55(&mut self, instr: Instruction)
        requires
            byte_of(instr@) == 0x55,
            old(self)@.i + x_of(instr@) < RAM_SIZE,
        ensures
            final(self)@ == op_misc(old(self)@, instr@),
    {
        let base = self.cpu.register_i as usize;
        let x = instr.x() as usize;
        let mut k: usize = 0;
        assert(self.ram@ =~= Seq::new(
            RAM_SIZE as nat,
            |j: int|
                if base <= j < base + k {
                    old(self)@.v[j - base]
                } else {
                    old(self)@.ram[j]
                },
        ));
        while k <= x
            invariant
                base == old(self)@.i,
                x == x_of(instr@),
                base + x < RAM_SIZE,
                k <= x + 1,
                self@ == (MachineState {
                    ram: Seq::new(
                        RAM_SIZE as nat,
                        |j: int|
                            if base <= j < base + k {
                                old(self)@.v[j - base]
                            } else {
                                old(self)@.ram[j]
                            },
                    ),
                    ..old(self)@
                }),
            decreases x + 1 - k,
        {
            self.ram[base + k] = self.cpu.registers[k];
            k += 1;
            assert(self.ram@ =~= Seq::new(
                RAM_SIZE as nat,
                |j: int|
                    if base <= j < base + k {
                        old(self)@.v[j - base]
                    } else {
                        old(self)@.ram[j]
                    },
            ));
        }
        assert(self@.ram =~= op_misc(old(self)@, instr@).ram);
    }

    fn instr_fx65(&mut self, instr: Instruction)
        requires
            byte_of(instr@) == 0x65,
            old(self)@.i + x_of(instr@) < RAM_SIZE,
        ensures
            final(self)@ == op_misc(old(self)@, instr@),
    {
        let base = self.cpu.register_i as usize;
        let x = instr.x() as usize;
        let mut k: usize = 0;
        assert(self.cpu.registers@ =~= Seq::new(
            16,
            |j: int|
                if j < k {
                    old(self)@.ram[base + j]
                } else {
                    old(self)@.v[j]
                },
        ));
        while k <= x
            invariant
                base == old(self)@.i,
                x == x_of(instr@),
                base + x < RAM_SIZE,
                k <= x + 1,
                self@ == (MachineState {
                    v: Seq::new(
                        16,
                        |j: int|
                            if j < k {
                                old(self)@.ram[base + j]
                            } else {
                                old(self)@.v[j]
                            },
                    ),
                    ..old(self)@
                }),
            decreases x + 1 - k,
        {
            let b = self.ram[base + k];
            self.set_register(k as u8, b);
            k += 1;
            assert(self.cpu.registers@ =~= Seq::new(
                16,
                |j: int|
                    if j < k {
                        old(self)@.ram[base + j]
                    } else {
                        old(self)@.v[j]
                    },
            ));
        }
        assert(self@.v =~= op_misc(old(self)@, instr@).v);
    }

    fn instr_dxyn(&mut self, instr: Instruction)
        requires
            old(self)@.wf(),
            old(self)@.i + rows_read(old(self)@.reg(y_of(instr@)), nibble_of(instr@)) <= RAM_SIZE,
        ensures
            final(self)@ == op_draw(old(self)@, instr@),
    {
        let vx = self.cpu.registers[instr.x() as usize];
        let vy = self.cpu.registers[instr.y() as usize];
        let n = instr.nibble();
        let base = self.cpu.register_i as usize;
        let ghost s0 = old(self)@;
        let ghost cols = drawn_cols(vx);
        self.display.set_is_updated(true);
        let mut y: u8 = 0;
        assert(s0.screen =~= blit_partial(s0.screen, s0.ram, base as int, vx, vy, 0, 0));
        while y < n
            invariant
                s0 == old(self)@,
                s0.wf(),
                vx == s0.reg(x_of(instr@)),
                vy == s0.reg(y_of(instr@)),
                n == nibble_of(instr@),
                n < 16,
                base == s0.i,
                base + rows_read(vy, n) <= RAM_SIZE,
                cols == drawn_cols(vx),
                y <= n,
                y <= drawn_rows(vy, n),
                self@ == (MachineState {
                    screen: blit_partial(s0.screen, s0.ram, base as int, vx, vy, y as int, 0),
                    dirty: true,
                    v: flag_of_last(s0.v, self@.screen, last_drawn(vx, vy, y as int, 0)),
                    ..s0
                }),
            ensures
                y == drawn_rows(vy, n),
                self@ == (MachineState {
                    screen: blit_partial(s0.screen, s0.ram, base as int, vx, vy, y as int, 0),
                    dirty: true,
                    v: flag_of_last(s0.v, self@.screen, last_drawn(vx, vy, y as int, 0)),
                    ..s0
                }),
            decreases n - y,
        {
            let sprite = self.ram[base + y as usize];
            let ypos = vy as u16 + y as u16;
            if ypos >= SCREEN_HEIGHT as u16 {
                break;
            }
            let mut x: u8 = 0;
            while x < 8
                invariant
                    s0 == old(self)@,
                    s0.wf(),
                    vx == s0.reg(x_of(instr@)),
                    vy == s0.reg(y_of(instr@)),
                    base == s0.i,
                    cols == drawn_cols(vx),
                    ypos == vy + y,
                    ypos < SCREEN_HEIGHT,
                    sprite == s0.ram[base + y],
                    x <= cols,
                    self@ == (MachineState {
                        screen: blit_partial(
                            s0.screen,
                            s0.ram,
                            base as int,
                            vx,
                            vy,
                            y as int,
                            x as int,
                        ),
                        dirty: true,
                        v: flag_of_last(
                            s0.v,
                            self@.screen,
                            last_drawn(vx, vy, y as int, x as int),
                        ),
                        ..s0
                    }),
                ensures
                    x == cols,
                    self@ == (MachineState {
                        screen: blit_partial(
                            s0.screen,
                            s0.ram,
                            base as int,
                            vx,
                            vy,
                            y as int,
                            x as int,
                        ),
                        dirty: true,
                        v: flag_of_last(
                            s0.v,
                            self@.screen,
                            last_drawn(vx, vy, y as int, x as int),
                        ),
                        ..s0
                    }),
                decreases 8 - x,
            {
                let pixel = (sprite >> (7 - x)) & 1;
                let xpos = vx as u16 + x as u16;
                if xpos >= SCREEN_WIDTH as u16 {
                    break;
                }
                let ghost idx = cell_index(xpos as int, ypos as int);
                self.display.draw(xpos as usize, ypos as usize, pixel);
                let empty = self.display.is_empty(xpos as usize, ypos as usize);
                self.set_register(0xF, if empty { 1 } else { 0 });
                x += 1;
                proof {
                    assert forall|i: int| 0 <= i < SCREEN_SIZE implies #[trigger] covered(
                        i,
                        vx,
                        vy,
                        y as int,
                        x as int,
                    ) == (covered(i, vx, vy, y as int, x - 1) || i == idx) by {
                        assert(idx % 64 == xpos && idx / 64 == ypos);
                    }
                    assert(self@.screen =~= blit_partial(
                        s0.screen,
                        s0.ram,
                        base as int,
                        vx,
                        vy,
                        y as int,
                        x as int,
                    ));
                    assert(last_drawn(vx, vy, y as int, x as int) == Some(idx));
                    assert(self@.v == flag_of_last(
                        s0.v,
                        self@.screen,
                        last_drawn(vx, vy, y as int, x as int),
                    ));
                }
            }
            y += 1;
            proof {
                assert forall|i: int| 0 <= i < SCREEN_SIZE implies #[trigger] covered(
                    i,
                    vx,
                    vy,
                    y as int,
                    0,
                ) == covered(i, vx, vy, y - 1, cols) by {}
                assert(self@.screen =~= blit_partial(
                    s0.screen,
                    s0.ram,
                    base as int,
                    vx,
                    vy,
                    y as int,
                    0,
                ));
            }
        }
    }

    /// Runs the handler of one opcode. `fetch_pc` is the address the opcode
    /// came from; it goes into the error of an unknown opcode.
    fn execute(&mut self, instruction: Instruction, random_byte: u8, fetch_pc: u16) -> (r: Result<
        (),
        ExecutionError,
    >)
        requires
            old(self)@.wf(),
            op_defined(old(self)@, instruction@),
        ensures
            final(self)@ == execute_spec(old(self)@, instruction@, random_byte),
            is_known(instruction@) ==> r == Ok::<(), ExecutionError>(()),
            !is_known(instruction@) ==> final(self)@ == old(self)@,
            !is_known(instruction@) ==> r == Err::<(), ExecutionError>(
                ExecutionError::UnknownOpCode(instruction@, fetch_pc),
            ),
    {
        reveal(execute_spec);
        let op = instruction.raw();
        let first_bits = op & 15;
        let last_bits = op >> 12u16;
        assert(op & 15 == op % 16) by (bit_vector);
        assert(op >> 12u16 == op / 4096) by (bit_vector);
        assert(op / 4096 < 16) by (bit_vector);
        match last_bits {
            0x0 => {
                if first_bits == 0x0 {
                    self.instr_00e0();
                } else if first_bits == 0xE {
                    self.instr_00ee();
                }
            },
            0x1 => self.instr_1nnn(instruction),
            0x2 => self.instr_2nnn(instruction),
            0x3 => self.instr_3xkk(instruction),
            0x4 => self.instr_4xkk(instruction),
            0x5 => self.instr_5xy0(instruction),
            0x6 => self.instr_6xkk(instruction),
            0x7 => self.instr_7xkk(instruction),
            0x8 => {
                match first_bits {
                    0x0 => self.instr_8xy0(instruction),
                    0x1 => self.instr_8xy1(instruction),
                    0x2 => self.instr_8xy2(instruction),
                    0x3 => self.instr_8xy3(instruction),
                    0x4 => self.instr_8xy4(instruction),
                    0x5 => self.instr_8xy5(instruction),
                    0x6 => self.instr_8xy6(instruction),
                    0x7 => self.instr_8xy7(instruction),
                    0xE => self.instr_8xye(instruction),
                    _ => {},
                }
            },
            0x9 => self.instr_9xy0(instruction),
            0xA => self.instr_annn(instruction),
            0xB => self.instr_bnnn(instruction),
            0xC => self.instr_cxkk(instruction, random_byte),
            0xD => self.instr_dxyn(instruction),
            0xE => {
                if first_bits == 0xE {
                    self.instr_ex9e(instruction);
                } else if first_bits == 0x1 {
                    self.instr_exa1(instruction);
                } else {
                    return Err(ExecutionError::UnknownOpCode(op, fetch_pc));
                }
            },
            _ => {
                let b = instruction.byte();
                match b {
                    0x07 => self.instr_fx07(instruction),
                    0x0A => self.instr_fx0a(instruction),
                    0x15 => self.instr_fx15(instruction),
                    0x18 => self.instr_fx18(instruction),
                    0x1E => self.instr_fx1e(instruction),
                    0x29 => self.instr_fx29(instruction),
                    0x33 => self.instr_fx33(instruction),
                    0x55 => self.instr_fx55(instruction),
                    0x65 => self.instr_fx65(instruction),
                    _ => {
                        return Err(ExecutionError::UnknownOpCode(op, fetch_pc));
                    },
                }
            },
        }
        Ok(())
    }

    fn fetch(&self) -> (r: Instruction)
        requires
            self@.pc + 1 < RAM_SIZE,
        ensures
            r@ == fetch_spec(self@),
    {
        let hi = self.ram[self.cpu.pc as usize];
        let lo = self.ram[self.cpu.pc as usize + 1];
        assert(((hi as u16) << 8u16) | (lo as u16) == (hi * 256 + lo) as u16) by (bit_vector);
        Instruction::new(((hi as u16) << 8u16) | lo as u16)
    }

    /// One tick, with `random_byte` as the byte that `Cxkk` draws: count
    /// the timers down, fetch the opcode at the program counter, move the
    /// program counter past it and execute it.
    pub fn clock_with_random(&mut self, random_byte: u8) -> (r: Result<(), ExecutionError>)
        requires
            tick_defined(old(self)@),
        ensures
            (final(self)@, r) == tick_spec(old(self)@, random_byte),
            final(self)@.wf(),
    {
        proof {
            use_type_invariant(&self.cpu);
        }
        if self.cpu.delay_timer > 0 {
            self.cpu.delay_timer = self.cpu.delay_timer - 1;
        }
        if self.cpu.sound_timer > 0 {
            self.cpu.sound_timer = self.cpu.sound_timer - 1;
        }
        let fetch_pc = self.cpu.pc;
        let instruction = self.fetch();
        self.cpu.pc = self.cpu.pc + 2;
        self.last_instruction = instruction;
        proof {
            self.lemma_wf();
            assert(self@ == fetched(old(self)@));
        }
        let r = self.execute(instruction, random_byte, fetch_pc);
        proof {
            use_type_invariant(&self.cpu);
            self.lemma_wf();
        }
        r
    }

    /// One tick, with a fresh random byte for `Cxkk`.
    pub fn clock(&mut self) -> (r: Result<(), ExecutionError>)
        requires
            tick_defined(old(self)@),
        ensures
            exists|b: u8| (final(self)@, r) == tick_spec(old(self)@, b),
            final(self)@.wf(),
    {
        let b = random_byte();
        self.clock_with_random(b)
    }

    /// Whether one tick from the current state stays within what the machine
    /// defines, so that `clock` may be called.
    pub fn can_clock(&self) -> (r: bool)
        ensures
            r == tick_defined(self@),
            self@.wf(),
    {
        proof {
            use_type_invariant(&self.cpu);
            self.lemma_wf();
        }
        let pc = self.cpu.pc as usize;
        if pc + 1 >= RAM_SIZE {
            return false;
        }
        let op = self.fetch().raw();
        let instr = Instruction::new(op);
        let g = op >> 12u16;
        assert(op >> 12u16 == op / 4096) by (bit_vector);
        let x = instr.x();
        let vx = self.cpu.registers[x as usize];
        let vy = self.cpu.registers[instr.y() as usize];
        let n = instr.nibble();
        let b = instr.byte();
        let i = self.cpu.register_i as usize;
        let next_pc = self.cpu.pc + 2;
        if next_pc > 0xFFFD {
            return false;
        }
        if g == 0x0 && n == 0xE && self.cpu.sp < 0 {
            return false;
        }
        if g == 0x2 && self.cpu.sp >= STACK_SIZE as i8 - 1 {
            return false;
        }
        if g == 0xD {
            let ypos_limit: u16 = SCREEN_HEIGHT as u16;
            let drawn: u16 = if vy as u16 >= ypos_limit {
                0
            } else if n as u16 <= ypos_limit - vy as u16 {
                n as u16
            } else {
                ypos_limit - vy as u16
            };
            let read: u16 = if drawn < n as u16 { drawn + 1 } else { n as u16 };
            if i + read as usize > RAM_SIZE {
                return false;
            }
        }
        if g == 0xE && (n == 0xE || n == 0x1) && vx >= 16 {
            return false;
        }
        if g == 0xF && b == 0x1E && i + vx as usize > 0xFFFF {
            return false;
        }
        if g == 0xF && b == 0x33 && i + 2 >= RAM_SIZE {
            return false;
        }
        if g == 0xF && (b == 0x55 || b == 0x65) && i + x as usize >= RAM_SIZE {
            return false;
        }
        true
    }
}

} // verus!
