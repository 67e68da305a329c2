use vstd::prelude::*;
use crate::instruction::{Instruction, decode, decoded};
use crate::state::{
    Fault, MachineView, key_down, MEMORY_SIZE, PROGRAM_START, MAX_PROGRAM_SIZE,
    STACK_CAPACITY, REGISTER_COUNT, FLAG_REGISTER, FONT_BASE,
};

verus! {

/// What the caller owes the outside world after an instruction ran.
#[derive(Clone, Debug, PartialEq, Eq)]
pub enum Effect {
    /// Nothing: go on with the next cycle.
    Continue,
    /// Clear the display.
    ClearScreen,
    /// Blit `sprite` at (`x`, `y`), then hand the collision back through
    /// `Machine::report_collision`.
    Draw { x: u8, y: u8, sprite: Vec<u8> },
    /// A key wait is pending: hand a key over through `Machine::supply_key`.
    AwaitingKey,
}

/// What `e` must be after `ins` ran on `s` without fault.
pub open spec fn effect_matches(s: MachineView, ins: Instruction, e: Effect) -> bool {
    match ins {
        Instruction::ClearScreen => e is ClearScreen,
        Instruction::DrawSprite { x, y, height } => e matches Effect::Draw { x: ex, y: ey, sprite }
            && ex == s.reg(x) && ey == s.reg(y) && s.sprite_bytes(height) == Ok::<Seq<u8>, Fault>(
            sprite@,
        ),
        Instruction::WaitForKeyInto { .. } => e is AwaitingKey,
        _ => e is Continue,
    }
}

/// `r` is what running `ins` on `before` with these inputs gives, and `after`
/// the state it leaves; a fault leaves the state as it was.
pub open spec fn execute_outcome(
    before: MachineView,
    after: MachineView,
    ins: Instruction,
    random: u8,
    keys: Seq<bool>,
    r: Result<Effect, Fault>,
) -> bool {
    match before.execute(ins, random, keys) {
        Ok(s) => after == s && (r matches Ok(e) && effect_matches(before, ins, e)),
        Err(f) => after == before && r == Err::<Effect, Fault>(f),
    }
}

/// `r` is what one cycle on `before` with these inputs gives, and `after` the
/// state it leaves; a fault leaves the state as it was.
pub open spec fn cycle_outcome(
    before: MachineView,
    after: MachineView,
    random: u8,
    keys: Seq<bool>,
    r: Result<Effect, Fault>,
) -> bool {
    match before.cycle(random, keys) {
        Ok(s) => after == s && (r matches Ok(e) && if before.waiting is Some {
            e is AwaitingKey
        } else {
            decoded(before.fetched_word()) matches Some(ins) && effect_matches(
                before.with_pc((before.pc + 2) as u16),
                ins,
                e,
            )
        }),
        Err(f) => after == before && r == Err::<Effect, Fault>(f),
    }
}

/// Relies on rand::random: a byte drawn from the thread-local generator.
/// Nothing is promised of its value.
#[verifier::external_body]
fn random_byte() -> (r: u8) {
    rand::random::<u8>()
}

/// `memory` with the first `k` bytes of `p` copied from `PROGRAM_START` on.
spec fn image_prefix(memory: Seq<u8>, p: Seq<u8>, k: int) -> Seq<u8> {
    Seq::new(
        MEMORY_SIZE as nat,
        |a: int|
            if PROGRAM_START <= a < PROGRAM_START + k {
                p[a - PROGRAM_START]
            } else {
                memory[a]
            },
    )
}

/// A vector of `n` zero bytes.
fn zeroed(n: usize) -> (r: Vec<u8>)
    ensures
        r@ == Seq::new(n as nat, |k: int| 0u8),
{
    let mut r: Vec<u8> = Vec::new();
    let mut k: usize = 0;
    while k < n
        invariant
            k <= n,
            r@ == Seq::new(k as nat, |j: int| 0u8),
        decreases n - k,
    {
        r.push(0u8);
        k = k + 1;
        assert(r@ =~= Seq::new(k as nat, |j: int| 0u8));
    }
    r
}

/// A read-only copy of a machine's state, for debugging and tests.
#[derive(Clone, Debug, PartialEq, Eq)]
pub struct Snapshot {
    pub memory: Vec<u8>,
    /// V0..VF.
    pub registers: Vec<u8>,
    pub index: u16,
    pub program_counter: u16,
    /// Return addresses, the most recent last.
    pub stack: Vec<u16>,
    pub delay_timer: u8,
    pub sound_timer: u8,
    /// The register that a pending key wait will fill.
    pub awaiting_key: Option<u8>,
}

/// A CHIP-8 machine: memory, registers, call stack and timers.
pub struct Machine {
    memory: Vec<u8>,
    v: Vec<u8>,
    i: u16,
    pc: u16,
    stack: Vec<u16>,
    delay: u8,
    sound: u8,
    waiting: Option<u8>,
}

impl View for Machine {
    type V = MachineView;

    closed spec fn view(&self) -> MachineView {
        MachineView {
            memory: self.memory@,
            v: self.v@,
            i: self.i,
            pc: self.pc,
            stack: self.stack@,
            delay: self.delay,
            sound: self.sound,
            waiting: self.waiting,
        }
    }
}

impl Machine {
    pub open spec fn wf(&self) -> bool {
        self@.wf()
    }

    /// A machine in its power-on state.
    pub fn new() -> (m: Machine)
        ensures
            m@ == MachineView::initial(),
            m.wf(),
    {
        let m = Machine {
            memory: zeroed(MEMORY_SIZE),
            v: zeroed(REGISTER_COUNT),
            i: 0,
            pc: 0,
            stack: Vec::new(),
            delay: 0,
            sound: 0,
            waiting: None,
        };
        assert(m@.stack =~= Seq::<u16>::empty());
        m
    }

    /// Brings the machine back to its power-on state.
    pub fn reset(&mut self)
        ensures
            final(self)@ == MachineView::initial(),
            final(self).wf(),
    {
        *self = Machine::new();
    }

    /// Copies `program` verbatim to memory from `PROGRAM_START` on and points
    /// the counter there; all else stays as it was (call `reset` first for a
    /// clean machine). An image over `MAX_PROGRAM_SIZE` bytes is refused and
    /// the machine left as it was.
    pub fn load_program(&mut self, program: &[u8]) -> (r: Result<(), Fault>)
        requires
            old(self).wf(),
        ensures
            program@.len() <= MAX_PROGRAM_SIZE ==> r is Ok && final(self)@ == old(self)@.loaded(
                program@,
            ),
            program@.len() > MAX_PROGRAM_SIZE ==> r == Err::<(), Fault>(Fault::ProgramTooLarge)
                && final(self)@ == old(self)@,
            final(self).wf(),
    {
        if program.len() > MAX_PROGRAM_SIZE {
            return Err(Fault::ProgramTooLarge);
        }
        let ghost s0 = self@;
        let ghost p = program@;
        let mut k: usize = 0;
        assert(self.memory@ =~= image_prefix(s0.memory, p, 0));
        while k < program.len()
            invariant
                s0.wf(),
                p == program@,
                p.len() <= MAX_PROGRAM_SIZE,
                k <= p.len(),
                self@ == (MachineView { memory: image_prefix(s0.memory, p, k as int), ..s0 }),
            decreases p.len() - k,
        {
            self.memory.set(PROGRAM_START as usize + k, program[k]);
            k = k + 1;
            assert(self.memory@ =~= image_prefix(s0.memory, p, k as int));
        }
        self.pc = PROGRAM_START;
        assert(self.memory@ =~= s0.loaded(p).memory);
        Ok(())
    }

    /// A copy of the whole state.
    pub fn inspect_state(&self) -> (r: Snapshot)
        ensures
            r.memory@ == self@.memory,
            r.registers@ == self@.v,
            r.index == self@.i,
            r.program_counter == self@.pc,
            r.stack@ == self@.stack,
            r.delay_timer == self@.delay,
            r.sound_timer == self@.sound,
            r.awaiting_key == self@.waiting,
    {
        let memory = self.memory.clone();
        let registers = self.v.clone();
        let stack = self.stack.clone();
        assert(memory@ =~= self.memory@);
        assert(registers@ =~= self.v@);
        assert(stack@ =~= self.stack@);
        Snapshot {
            memory,
            registers,
            index: self.i,
            program_counter: self.pc,
            stack,
            delay_timer: self.delay,
            sound_timer: self.sound,
            awaiting_key: self.waiting,
        }
    }

    /// The value of register V`x`.
    pub fn register(&self, x: u8) -> (r: u8)
        requires
            self.wf(),
            x < REGISTER_COUNT,
        ensures
            r == self@.reg(x),
    {
        self.v[x as usize]
    }

    /// The index register I.
    pub fn index_register(&self) -> (r: u16)
        ensures
            r == self@.i,
    {
        self.i
    }

    /// The program counter.
    pub fn program_counter(&self) -> (r: u16)
        ensures
            r == self@.pc,
    {
        self.pc
    }

    /// How many return addresses the stack holds.
    pub fn stack_depth(&self) -> (r: usize)
        ensures
            r == self@.stack.len(),
    {
        self.stack.len()
    }

    pub fn delay_timer(&self) -> (r: u8)
        ensures
            r == self@.delay,
    {
        self.delay
    }

    pub fn sound_timer(&self) -> (r: u8)
        ensures
            r == self@.sound,
    {
        self.sound
    }

    /// The byte at `address`, or `None` past the end of memory.
    pub fn memory_byte(&self, address: u16) -> (r: Option<u8>)
        requires
            self.wf(),
        ensures
            address < MEMORY_SIZE ==> r == Some(self@.memory[address as int]),
            address >= MEMORY_SIZE ==> r is None,
    {
        if (address as usize) < MEMORY_SIZE {
            Some(self.memory[address as usize])
        } else {
            None
        }
    }

    /// Whether a key wait is pending.
    pub fn is_awaiting_key(&self) -> (r: bool)
        ensures
            r == self@.waiting is Some,
    {
        self.waiting.is_some()
    }

    fn write_register(&mut self, x: u8, value: u8)
        requires
            old(self).wf(),
            x < REGISTER_COUNT,
        ensures
            final(self)@ == old(self)@.set_reg(x, value),
    {
        self.v.set(x as usize, value);
    }

    fn skip_if(&mut self, cond: bool)
        ensures
            final(self)@ == old(self)@.skip_if(cond),
    {
        if cond {
            self.pc = self.pc.wrapping_add(2);
        }
    }

    /// 00EE: the counter takes the most recent return address.
    pub fn ret(&mut self) -> (r: Result<(), Fault>)
        requires
            old(self).wf(),
        ensures
            old(self)@.stack.len() == 0 ==> r == Err::<(), Fault>(Fault::StackUnderflow),
            match old(self)@.ret() {
                Ok(s) => r is Ok && final(self)@ == s,
                Err(f) => r == Err::<(), Fault>(f) && final(self)@ == old(self)@,
            },
            final(self).wf(),
    {
        match self.stack.pop() {
            Some(address) => {
                self.pc = address;
                Ok(())
            },
            None => Err(Fault::StackUnderflow),
        }
    }

    /// 2NNN: pushes the counter and jumps to `address`.
    pub fn call(&mut self, address: u16) -> (r: Result<(), Fault>)
        requires
            old(self).wf(),
        ensures
            match old(self)@.call(address) {
                Ok(s) => r is Ok && final(self)@ == s,
                Err(f) => r == Err::<(), Fault>(f) && final(self)@ == old(self)@,
            },
            final(self).wf(),
    {
        if self.stack.len() >= STACK_CAPACITY {
            return Err(Fault::StackOverflow);
        }
        self.stack.push(self.pc);
        self.pc = address;
        Ok(())
    }

    /// 1NNN.
    pub fn jump(&mut self, address: u16)
        ensures
            final(self)@ == old(self)@.with_pc(address),
    {
        self.pc = address;
    }

    /// BNNN.
    pub fn jump_plus_v0(&mut self, address: u16)
        requires
            old(self).wf(),
        ensures
            final(self)@ == old(self)@.jump_plus_v0(address),
    {
        self.pc = address.wrapping_add(self.v[0] as u16);
    }

    /// 3XKK.
    pub fn skip_if_equal(&mut self, x: u8, value: u8)
        requires
            old(self).wf(),
            x < REGISTER_COUNT,
        ensures
            final(self)@ == old(self)@.skip_if(old(self)@.reg(x) == value),
    {
        let cond = self.v[x as usize] == value;
        self.skip_if(cond);
    }

    /// 4XKK.
    pub fn skip_if_not_equal(&mut self, x: u8, value: u8)
        requires
            old(self).wf(),
            x < REGISTER_COUNT,
        ensures
            final(self)@ == old(self)@.skip_if(old(self)@.reg(x) != value),
    {
        let cond = self.v[x as usize] != value;
        self.skip_if(cond);
    }

    /// 5XY0.
    pub fn skip_if_registers_equal(&mut self, x: u8, y: u8)
        requires
            old(self).wf(),
            x < REGISTER_COUNT,
            y < REGISTER_COUNT,
        ensures
            final(self)@ == old(self)@.skip_if(old(self)@.reg(x) == old(self)@.reg(y)),
    {
        let cond = self.v[x as usize] == self.v[y as usize];
        self.skip_if(cond);
    }

    /// 9XY0.
    pub fn skip_if_registers_not_equal(&mut self, x: u8, y: u8)
        requires
            old(self).wf(),
            x < REGISTER_COUNT,
            y < REGISTER_COUNT,
        ensures
            final(self)@ == old(self)@.skip_if(old(self)@.reg(x) != old(self)@.reg(y)),
    {
        let cond = self.v[x as usize] != self.v[y as usize];
        self.skip_if(cond);
    }

    /// Whether `keys` reports the key named by V`x` down.
    fn key_named_by_down(&self, x: u8, keys: &[bool]) -> (r: bool)
        requires
            self.wf(),
            x < REGISTER_COUNT,
        ensures
            r == key_down(keys@, self@.reg(x)),
    {
        let k = self.v[x as usize] as usize;
        k < keys.len() && keys[k]
    }

    /// EX9E.
    pub fn skip_if_key_down(&mut self, x: u8, keys: &[bool])
        requires
            old(self).wf(),
            x < REGISTER_COUNT,
        ensures
            final(self)@ == old(self)@.skip_if(key_down(keys@, old(self)@.reg(x))),
    {
        let cond = self.key_named_by_down(x, keys);
        self.skip_if(cond);
    }

    /// EXA1.
    pub fn skip_if_key_up(&mut self, x: u8, keys: &[bool])
        requires
            old(self).wf(),
            x < REGISTER_COUNT,
        ensures
            final(self)@ == old(self)@.skip_if(!key_down(keys@, old(self)@.reg(x))),
    {
        let cond = !self.key_named_by_down(x, keys);
        self.skip_if(cond);
    }

    /// 6XKK.
    pub fn set_immediate(&mut self, x: u8, value: u8)
        requires
            old(self).wf(),
            x < REGISTER_COUNT,
        ensures
            final(self)@ == old(self)@.set_reg(x, value),
    {
        self.write_register(x, value);
    }

    /// 7XKK: wraps at 256 and leaves VF alone.
    pub fn add_immediate(&mut self, x: u8, value: u8)
        requires
            old(self).wf(),
            x < REGISTER_COUNT,
        ensures
            final(self)@ == old(self)@.add_immediate(x, value),
    {
        let sum = self.v[x as usize].wrapping_add(value);
        self.write_register(x, sum);
    }

    /// 8XY0.
    pub fn copy_register(&mut self, x: u8, y: u8)
        requires
            old(self).wf(),
            x < REGISTER_COUNT,
            y < REGISTER_COUNT,
        ensures
            final(self)@ == old(self)@.set_reg(x, old(self)@.reg(y)),
    {
        let value = self.v[y as usize];
        self.write_register(x, value);
    }

    /// 8XY1.
    pub fn bitwise_or(&mut self, x: u8, y: u8)
        requires
            old(self).wf(),
            x < REGISTER_COUNT,
            y < REGISTER_COUNT,
        ensures
            final(self)@ == old(self)@.set_reg(x, old(self)@.reg(x) | old(self)@.reg(y)),
    {
        let value = self.v[x as usize] | self.v[y as usize];
        self.write_register(x, value);
    }

    /// 8XY2.
    pub fn bitwise_and(&mut self, x: u8, y: u8)
        requires
            old(self).wf(),
            x < REGISTER_COUNT,
            y < REGISTER_COUNT,
        ensures
            final(self)@ == old(self)@.set_reg(x, old(self)@.reg(x) & old(self)@.reg(y)),
    {
        let value = self.v[x as usize] & self.v[y as usize];
        self.write_register(x, value);
    }

    /// 8XY3.
    pub fn bitwise_xor(&mut self, x: u8, y: u8)
        requires
            old(self).wf(),
            x < REGISTER_COUNT,
            y < REGISTER_COUNT,
        ensures
            final(self)@ == old(self)@.set_reg(x, old(self)@.reg(x) ^ old(self)@.reg(y)),
    {
        let value = self.v[x as usize] ^ self.v[y as usize];
        self.write_register(x, value);
    }

    /// 8XY4: VX gets the sum modulo 256; VF becomes 1 on a carry and is left
    /// as it was otherwise.
    pub fn add_with_carry(&mut self, x: u8, y: u8)
        requires
            old(self).wf(),
            x < REGISTER_COUNT,
            y < REGISTER_COUNT,
        ensures
            final(self)@ == old(self)@.add_with_carry(x, y),
    {
        let sum: u16 = self.v[x as usize] as u16 + self.v[y as usize] as u16;
        self.write_register(x, (sum % 0x100) as u8);
        if sum > 0xFF {
            self.write_register(FLAG_REGISTER, 1);
        }
    }

    /// 8XY5: VX gets VX - VY modulo 256; VF becomes 1 on a borrow and is left
    /// as it was otherwise.
    pub fn sub_with_borrow(&mut self, x: u8, y: u8)
        requires
            old(self).wf(),
            x < REGISTER_COUNT,
            y < REGISTER_COUNT,
        ensures
            final(self)@ == old(self)@.sub_with_borrow(x, y),
    {
        let a = self.v[x as usize];
        let b = self.v[y as usize];
        self.write_register(x, a.wrapping_sub(b));
        if a < b {
            self.write_register(FLAG_REGISTER, 1);
        }
    }

    /// 8XY7: VX gets VY - VX modulo 256; VF becomes 1 on a borrow and is left
    /// as it was otherwise.
    pub fn reverse_subtract(&mut self, x: u8, y: u8)
        requires
            old(self).wf(),
            x < REGISTER_COUNT,
            y < REGISTER_COUNT,
        ensures
            final(self)@ == old(self)@.reverse_subtract(x, y),
    {
        let a = self.v[x as usize];
        let b = self.v[y as usize];
        self.write_register(x, b.wrapping_sub(a));
        if b < a {
            self.write_register(FLAG_REGISTER, 1);
        }
    }

    /// 8XY6: VX gets VY shifted right by one; then VF gets the bit shifted out.
    pub fn shift_right(&mut self, x: u8, y: u8)
        requires
            old(self).wf(),
            x < REGISTER_COUNT,
            y < REGISTER_COUNT,
        ensures
            final(self)@ == old(self)@.shift_right(x, y),
    {
        let src = self.v[y as usize];
        self.write_register(x, src / 2);
        self.write_register(FLAG_REGISTER, src % 2);
    }

    /// 8XYE: VX gets VY shifted left by one; then VF gets the bit shifted out.
    pub fn shift_left(&mut self, x: u8, y: u8)
        requires
            old(self).wf(),
            x < REGISTER_COUNT,
            y < REGISTER_COUNT,
        ensures
            final(self)@ == old(self)@.shift_left(x, y),
    {
        let src = self.v[y as usize];
        self.write_register(x, ((src as u16 * 2) % 0x100) as u8);
        self.write_register(FLAG_REGISTER, src / 0x80);
    }

    /// ANNN.
    pub fn set_index_immediate(&mut self, address: u16)
        ensures
            final(self)@ == old(self)@.with_index(address),
    {
        self.i = address;
    }

    /// FX1E: I := I + VX as a plain 16-bit sum, not masked to 12 bits.
    pub fn add_to_index(&mut self, x: u8)
        requires
            old(self).wf(),
            x < REGISTER_COUNT,
        ensures
            final(self)@ == old(self)@.add_to_index(x),
    {
        self.i = self.i.wrapping_add(self.v[x as usize] as u16);
    }

    /// CXKK, with `random` as the byte source's draw.
    pub fn random_masked(&mut self, x: u8, mask: u8, random: u8)
        requires
            old(self).wf(),
            x < REGISTER_COUNT,
        ensures
            final(self)@ == old(self)@.set_reg(x, random & mask),
    {
        self.write_register(x, random & mask);
    }

    /// DXYN: reads the `height` sprite bytes at I for the display; the
    /// machine itself does not change until the collision is reported.
    pub fn draw_sprite(&self, x: u8, y: u8, height: u8) -> (r: Result<Effect, Fault>)
        requires
            self.wf(),
            x < REGISTER_COUNT,
            y < REGISTER_COUNT,
        ensures
            match self@.sprite_bytes(height) {
                Ok(bytes) => r matches Ok(Effect::Draw { x: ex, y: ey, sprite }) && ex == self@.reg(
                    x,
                ) && ey == self@.reg(y) && sprite@ == bytes,
                Err(f) => r == Err::<Effect, Fault>(f),
            },
    {
        let start = self.i as usize;
        if start + height as usize > MEMORY_SIZE {
            return Err(Fault::OutOfBoundsAccess { address: self.i });
        }
        let mut sprite: Vec<u8> = Vec::new();
        let mut k: usize = 0;
        while k < height as usize
            invariant
                self.wf(),
                start == self@.i,
                start + height <= MEMORY_SIZE,
                k <= height,
                sprite@ == self@.memory.subrange(start as int, start + k),
            decreases height - k,
        {
            sprite.push(self.memory[start + k]);
            k = k + 1;
            assert(sprite@ =~= self@.memory.subrange(start as int, start + k));
        }
        Ok(Effect::Draw { x: self.v[x as usize], y: self.v[y as usize], sprite })
    }

    /// FX07.
    pub fn set_register_from_delay(&mut self, x: u8)
        requires
            old(self).wf(),
            x < REGISTER_COUNT,
        ensures
            final(self)@ == old(self)@.set_reg(x, old(self)@.delay),
    {
        let value = self.delay;
        self.write_register(x, value);
    }

    /// FX0A: the machine waits until `supply_key` hands over a key.
    pub fn wait_for_key_into(&mut self, x: u8)
        requires
            x < REGISTER_COUNT,
        ensures
            final(self)@ == (MachineView { waiting: Some(x), ..old(self)@ }),
    {
        self.waiting = Some(x);
    }

    /// FX15.
    pub fn set_delay_from_register(&mut self, x: u8)
        requires
            old(self).wf(),
            x < REGISTER_COUNT,
        ensures
            final(self)@ == (MachineView { delay: old(self)@.reg(x), ..old(self)@ }),
    {
        self.delay = self.v[x as usize];
    }

    /// FX18.
    pub fn set_sound_from_register(&mut self, x: u8)
        requires
            old(self).wf(),
            x < REGISTER_COUNT,
        ensures
            final(self)@ == (MachineView { sound: old(self)@.reg(x), ..old(self)@ }),
    {
        self.sound = self.v[x as usize];
    }

    /// FX29: I := the address of the glyph for the digit in VX.
    pub fn load_sprite_address(&mut self, x: u8)
        requires
            old(self).wf(),
            x < REGISTER_COUNT,
        ensures
            final(self)@ == old(self)@.load_sprite_address(x),
    {
        self.i = FONT_BASE + 5 * (self.v[x as usize] as u16);
    }

    /// FX33: hundreds, tens and units of VX at I, I+1 and I+2.
    pub fn store_bcd(&mut self, x: u8) -> (r: Result<(), Fault>)
        requires
            old(self).wf(),
            x < REGISTER_COUNT,
        ensures
            match old(self)@.store_bcd(x) {
                Ok(s) => r is Ok && final(self)@ == s,
                Err(f) => r == Err::<(), Fault>(f) && final(self)@ == old(self)@,
            },
            final(self).wf(),
    {
        let start = self.i as usize;
        if start + 3 > MEMORY_SIZE {
            return Err(Fault::OutOfBoundsAccess { address: self.i });
        }
        let d = self.v[x as usize];
        self.memory.set(start, d / 100);
        self.memory.set(start + 1, (d / 10) % 10);
        self.memory.set(start + 2, d % 10);
        Ok(())
    }

    /// FX55: V0..=VX to memory from I on; I stays.
    pub fn dump_registers(&mut self, x: u8) -> (r: Result<(), Fault>)
        requires
            old(self).wf(),
            x < REGISTER_COUNT,
        ensures
            match old(self)@.dump_registers(x) {
                Ok(s) => r is Ok && final(self)@ == s,
                Err(f) => r == Err::<(), Fault>(f) && final(self)@ == old(self)@,
            },
            final(self).wf(),
    {
        let start = self.i as usize;
        if start + x as usize + 1 > MEMORY_SIZE {
            return Err(Fault::OutOfBoundsAccess { address: self.i });
        }
        let ghost s0 = self@;
        let mut k: usize = 0;
        while k <= x as usize
            invariant
                s0.wf(),
                start == s0.i,
                start + x + 1 <= MEMORY_SIZE,
                x < REGISTER_COUNT,
                k <= x + 1,
                self@ == (MachineView { memory: self@.memory, ..s0 }),
                self@.memory.len() == MEMORY_SIZE,
                forall|a: int|
                    0 <= a < MEMORY_SIZE ==> #[trigger] self@.memory[a] == if start <= a < start
                        + k {
                        s0.v[a - start]
                    } else {
                        s0.memory[a]
                    },
            decreases x + 1 - k,
        {
            let value = self.v[k];
            self.memory.set(start + k, value);
            k = k + 1;
        }
        proof {
            let want = s0.dump_registers(x)->Ok_0;
            assert(self@.memory =~= want.memory);
        }
        Ok(())
    }

    /// FX65: V0..=VX from memory from I on; I stays.
    pub fn load_registers(&mut self, x: u8) -> (r: Result<(), Fault>)
        requires
            old(self).wf(),
            x < REGISTER_COUNT,
        ensures
            match old(self)@.load_registers(x) {
                Ok(s) => r is Ok && final(self)@ == s,
                Err(f) => r == Err::<(), Fault>(f) && final(self)@ == old(self)@,
            },
            final(self).wf(),
    {
        let start = self.i as usize;
        if start + x as usize + 1 > MEMORY_SIZE {
            return Err(Fault::OutOfBoundsAccess { address: self.i });
        }
        let ghost s0 = self@;
        let mut k: usize = 0;
        while k <= x as usize
            invariant
                s0.wf(),
                start == s0.i,
                start + x + 1 <= MEMORY_SIZE,
                x < REGISTER_COUNT,
                k <= x + 1,
                self@ == (MachineView { v: self@.v, ..s0 }),
                self@.v.len() == REGISTER_COUNT,
                forall|j: int|
                    0 <= j < REGISTER_COUNT ==> #[trigger] self@.v[j] == if j < k {
                        s0.memory[start + j]
                    } else {
                        s0.v[j]
                    },
            decreases x + 1 - k,
        {
            let value = self.memory[start + k];
            self.v.set(k, value);
            k = k + 1;
        }
        proof {
            let want = s0.load_registers(x)->Ok_0;
            assert(self@.v =~= want.v);
        }
        Ok(())
    }

    /// Runs one decoded instruction. `random` is the byte that a masked
    /// random instruction uses; `keys[k]` tells whether key `k` is down.
    pub fn execute(&mut self, ins: Instruction, random: u8, keys: &[bool]) -> (r: Result<
        Effect,
        Fault,
    >)
        requires
            old(self).wf(),
            ins.wf(),
        ensures
            execute_outcome(old(self)@, final(self)@, ins, random, keys@, r),
            final(self).wf(),
    {
        match ins {
            Instruction::CallNative { .. } => {},
            Instruction::ClearScreen => {
                return Ok(Effect::ClearScreen);
            },
            Instruction::Return => {
                if let Err(f) = self.ret() {
                    return Err(f);
                }
            },
            Instruction::Jump { address } => self.jump(address),
            Instruction::Call { address } => {
                if let Err(f) = self.call(address) {
                    return Err(f);
                }
            },
            Instruction::SkipIfEqual { x, value } => self.skip_if_equal(x, value),
            Instruction::SkipIfNotEqual { x, value } => self.skip_if_not_equal(x, value),
            Instruction::SkipIfRegistersEqual { x, y } => self.skip_if_registers_equal(x, y),
            Instruction::SetImmediate { x, value } => self.set_immediate(x, value),
            Instruction::AddImmediate { x, value } => self.add_immediate(x, value),
            Instruction::CopyRegister { x, y } => self.copy_register(x, y),
            Instruction::BitwiseOr { x, y } => self.bitwise_or(x, y),
            Instruction::BitwiseAnd { x, y } => self.bitwise_and(x, y),
            Instruction::BitwiseXor { x, y } => self.bitwise_xor(x, y),
            Instruction::AddWithCarry { x, y } => self.add_with_carry(x, y),
            Instruction::SubWithBorrow { x, y } => self.sub_with_borrow(x, y),
            Instruction::ShiftRight { x, y } => self.shift_right(x, y),
            Instruction::ReverseSubtract { x, y } => self.reverse_subtract(x, y),
            Instruction::ShiftLeft { x, y } => self.shift_left(x, y),
            Instruction::SkipIfRegistersNotEqual { x, y } => self.skip_if_registers_not_equal(
                x,
                y,
            ),
            Instruction::SetIndexImmediate { address } => self.set_index_immediate(address),
            Instruction::JumpPlusV0 { address } => self.jump_plus_v0(address),
            Instruction::RandomMasked { x, mask } => self.random_masked(x, mask, random),
            Instruction::DrawSprite { x, y, height } => {
                return self.draw_sprite(x, y, height);
            },
            Instruction::SkipIfKeyDown { x } => self.skip_if_key_down(x, keys),
            Instruction::SkipIfKeyUp { x } => self.skip_if_key_up(x, keys),
            Instruction::SetRegisterFromDelay { x } => self.set_register_from_delay(x),
            Instruction::WaitForKeyInto { x } => {
                self.wait_for_key_into(x);
                return Ok(Effect::AwaitingKey);
            },
            Instruction::SetDelayFromRegister { x } => self.set_delay_from_register(x),
            Instruction::SetSoundFromRegister { x } => self.set_sound_from_register(x),
            Instruction::AddToIndex { x } => self.add_to_index(x),
            Instruction::LoadSpriteAddress { x } => self.load_sprite_address(x),
            Instruction::StoreBcd { x } => {
                if let Err(f) = self.store_bcd(x) {
                    return Err(f);
                }
            },
            Instruction::DumpRegisters { x } => {
                if let Err(f) = self.dump_registers(x) {
                    return Err(f);
                }
            },
            Instruction::LoadRegisters { x } => {
                if let Err(f) = self.load_registers(x) {
                    return Err(f);
                }
            },
        }
        Ok(Effect::Continue)
    }

    /// The big-endian instruction word at the counter; the counter stays.
    pub fn fetch(&self) -> (r: Result<u16, Fault>)
        requires
            self.wf(),
        ensures
            self@.pc + 2 > MEMORY_SIZE ==> r == Err::<u16, Fault>(
                Fault::OutOfBoundsAccess { address: self@.pc },
            ),
            self@.pc + 2 <= MEMORY_SIZE ==> r == Ok::<u16, Fault>(self@.fetched_word()),
    {
        let pc = self.pc as usize;
        if pc + 2 > MEMORY_SIZE {
            return Err(Fault::OutOfBoundsAccess { address: self.pc });
        }
        Ok(self.memory[pc] as u16 * 0x100 + self.memory[pc + 1] as u16)
    }

    /// One fetch-decode-execute cycle: reads the big-endian word at the
    /// counter, advances the counter by 2 and runs the word's instruction.
    /// A fault leaves the machine as it was before the cycle; while a key
    /// wait is pending nothing runs.
    pub fn step(&mut self, random: u8, keys: &[bool]) -> (r: Result<Effect, Fault>)
        requires
            old(self).wf(),
        ensures
            cycle_outcome(old(self)@, final(self)@, random, keys@, r),
            final(self).wf(),
    {
        if self.waiting.is_some() {
            return Ok(Effect::AwaitingKey);
        }
        let pc = self.pc;
        let word = match self.fetch() {
            Ok(word) => word,
            Err(f) => {
                return Err(f);
            },
        };
        match decode(word) {
            None => Err(Fault::DecodeFailure { word, address: pc }),
            Some(ins) => {
                self.pc = pc + 2;
                let r = self.execute(ins, random, keys);
                if r.is_err() {
                    self.pc = pc;
                }
                r
            },
        }
    }

    /// One cycle, with a fresh draw of the random byte source.
    pub fn run_one_cycle(&mut self, keys: &[bool]) -> (r: Result<Effect, Fault>)
        requires
            old(self).wf(),
        ensures
            exists|random: u8| cycle_outcome(old(self)@, final(self)@, random, keys@, r),
            final(self).wf(),
    {
        let random = random_byte();
        self.step(random, keys)
    }

    /// Counts each nonzero timer down by one.
    pub fn tick_timers(&mut self)
        ensures
            final(self)@ == old(self)@.tick(),
    {
        if self.delay > 0 {
            self.delay = self.delay - 1;
        }
        if self.sound > 0 {
            self.sound = self.sound - 1;
        }
    }

    /// Ends a pending key wait: the waiting register receives `key`. Returns
    /// whether a wait was pending; without one nothing changes.
    pub fn supply_key(&mut self, key: u8) -> (r: bool)
        requires
            old(self).wf(),
        ensures
            r == old(self)@.waiting is Some,
            match old(self)@.waiting {
                Some(x) => final(self)@ == (MachineView {
                    waiting: None,
                    ..old(self)@.set_reg(x, key)
                }),
                None => final(self)@ == old(self)@,
            },
            final(self).wf(),
    {
        match self.waiting {
            Some(x) => {
                self.write_register(x, key);
                self.waiting = None;
                true
            },
            None => false,
        }
    }

    /// Writes the display's collision report of the last drawing into VF.
    pub fn report_collision(&mut self, collided: bool)
        requires
            old(self).wf(),
        ensures
            final(self)@ == old(self)@.set_reg(FLAG_REGISTER, if collided { 1 } else { 0 }),
            final(self).wf(),
    {
        self.write_register(FLAG_REGISTER, if collided { 1 } else { 0 });
    }
}

} // verus!
