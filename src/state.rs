use vstd::prelude::*;
use crate::instruction::{Instruction, decoded};

verus! {

/// Number of byte cells of memory.
pub const MEMORY_SIZE: usize = 4096;

/// Address at which a program image is loaded and execution starts.
pub const PROGRAM_START: u16 = 0x200;

/// Largest program image that fits between `PROGRAM_START` and the end of memory.
pub const MAX_PROGRAM_SIZE: usize = 3584;

/// Number of return addresses the call stack holds.
pub const STACK_CAPACITY: usize = 16;

/// Number of general registers V0..VF.
pub const REGISTER_COUNT: usize = 16;

/// Index of VF, the carry / borrow / collision flag register.
pub const FLAG_REGISTER: u8 = 15;

/// Address of the glyph of digit 0; each glyph takes 5 bytes.
pub const FONT_BASE: u16 = 0;

/// Why an operation or a cycle did not complete. A failed cycle leaves the
/// machine as it was before the cycle.
#[derive(Clone, Copy, Debug, PartialEq, Eq, Structural)]
pub enum Fault {
    /// The word fetched at `address` matches no instruction pattern.
    DecodeFailure { word: u16, address: u16 },
    /// A call with a full stack.
    StackOverflow,
    /// A return with an empty stack.
    StackUnderflow,
    /// An access from `address` on runs past the end of memory.
    OutOfBoundsAccess { address: u16 },
    /// A program image larger than `MAX_PROGRAM_SIZE`.
    ProgramTooLarge,
}

/// The whole state of a machine, as mathematical values.
pub struct MachineView {
    pub memory: Seq<u8>,
    /// V0..VF.
    pub v: Seq<u8>,
    /// The index register I.
    pub i: u16,
    /// The program counter.
    pub pc: u16,
    /// Return addresses, the most recent last.
    pub stack: Seq<u16>,
    pub delay: u8,
    pub sound: u8,
    /// The register that a pending key wait will fill.
    pub waiting: Option<u8>,
}

/// A 16-bit register's value after adding `n`, wrapping at 0x10000.
pub open spec fn wrap16(n: int) -> u16 {
    (n % 0x10000) as u16
}

/// An 8-bit register's value after adding `n`, wrapping at 0x100.
pub open spec fn wrap8(n: int) -> u8 {
    (n % 0x100) as u8
}

/// Whether key `k` is reported down; keys beyond the pad are up.
pub open spec fn key_down(keys: Seq<bool>, k: u8) -> bool {
    k < keys.len() && keys[k as int]
}

impl MachineView {
    pub open spec fn wf(self) -> bool {
        &&& self.memory.len() == MEMORY_SIZE
        &&& self.v.len() == REGISTER_COUNT
        &&& self.stack.len() <= STACK_CAPACITY
        &&& (self.waiting matches Some(x) ==> x < REGISTER_COUNT)
    }

    /// The power-on state: everything zero, nothing pending.
    pub open spec fn initial() -> MachineView {
        MachineView {
            memory: Seq::new(MEMORY_SIZE as nat, |a: int| 0u8),
            v: Seq::new(REGISTER_COUNT as nat, |k: int| 0u8),
            i: 0,
            pc: 0,
            stack: Seq::empty(),
            delay: 0,
            sound: 0,
            waiting: None,
        }
    }

    /// This state with `program` copied to `PROGRAM_START` on and the counter
    /// there; every other byte and register stays as it is.
    pub open spec fn loaded(self, program: Seq<u8>) -> MachineView {
        MachineView {
            memory: Seq::new(
                MEMORY_SIZE as nat,
                |a: int|
                    if PROGRAM_START <= a < PROGRAM_START + program.len() {
                        program[a - PROGRAM_START]
                    } else {
                        self.memory[a]
                    },
            ),
            pc: PROGRAM_START,
            ..self
        }
    }

    pub open spec fn reg(self, x: u8) -> u8 {
        self.v[x as int]
    }

    pub open spec fn set_reg(self, x: u8, value: u8) -> MachineView {
        MachineView { v: self.v.update(x as int, value), ..self }
    }

    pub open spec fn with_pc(self, pc: u16) -> MachineView {
        MachineView { pc, ..self }
    }

    pub open spec fn with_index(self, i: u16) -> MachineView {
        MachineView { i, ..self }
    }

    /// Passes over the next instruction word where `cond` holds.
    pub open spec fn skip_if(self, cond: bool) -> MachineView {
        if cond {
            self.with_pc(wrap16(self.pc + 2))
        } else {
            self
        }
    }

    /// Sets VF to 1 where `cond` holds and leaves it as it is otherwise.
    pub open spec fn raise_flag_if(self, cond: bool) -> MachineView {
        if cond {
            self.set_reg(FLAG_REGISTER, 1)
        } else {
            self
        }
    }

    pub open spec fn call(self, address: u16) -> Result<MachineView, Fault> {
        if self.stack.len() >= STACK_CAPACITY {
            Err(Fault::StackOverflow)
        } else {
            Ok(MachineView { pc: address, stack: self.stack.push(self.pc), ..self })
        }
    }

    pub open spec fn ret(self) -> Result<MachineView, Fault> {
        if self.stack.len() == 0 {
            Err(Fault::StackUnderflow)
        } else {
            Ok(MachineView { pc: self.stack.last(), stack: self.stack.drop_last(), ..self })
        }
    }

    pub open spec fn jump_plus_v0(self, address: u16) -> MachineView {
        self.with_pc(wrap16(address + self.reg(0)))
    }

    pub open spec fn add_immediate(self, x: u8, value: u8) -> MachineView {
        self.set_reg(x, wrap8(self.reg(x) + value))
    }

    pub open spec fn add_with_carry(self, x: u8, y: u8) -> MachineView {
        let sum = self.reg(x) + self.reg(y);
        self.set_reg(x, wrap8(sum)).raise_flag_if(sum > 0xFF)
    }

    pub open spec fn sub_with_borrow(self, x: u8, y: u8) -> MachineView {
        let a = self.reg(x);
        let b = self.reg(y);
        self.set_reg(x, wrap8(0x100 + a - b)).raise_flag_if(a < b)
    }

    pub open spec fn reverse_subtract(self, x: u8, y: u8) -> MachineView {
        let a = self.reg(x);
        let b = self.reg(y);
        self.set_reg(x, wrap8(0x100 + b - a)).raise_flag_if(b < a)
    }

    pub open spec fn shift_right(self, x: u8, y: u8) -> MachineView {
        let src = self.reg(y);
        self.set_reg(x, (src / 2) as u8).set_reg(FLAG_REGISTER, (src % 2) as u8)
    }

    pub open spec fn shift_left(self, x: u8, y: u8) -> MachineView {
        let src = self.reg(y);
        self.set_reg(x, wrap8(2 * src)).set_reg(FLAG_REGISTER, (src / 0x80) as u8)
    }

    pub open spec fn add_to_index(self, x: u8) -> MachineView {
        self.with_index(wrap16(self.i + self.reg(x)))
    }

    pub open spec fn load_sprite_address(self, x: u8) -> MachineView {
        self.with_index((FONT_BASE + 5 * self.reg(x)) as u16)
    }

    /// Memory from I on, `len` bytes; fails where it runs past the end.
    pub open spec fn sprite_bytes(self, len: u8) -> Result<Seq<u8>, Fault> {
        if self.i + len > MEMORY_SIZE {
            Err(Fault::OutOfBoundsAccess { address: self.i })
        } else {
            Ok(self.memory.subrange(self.i as int, self.i + len))
        }
    }

    pub open spec fn store_bcd(self, x: u8) -> Result<MachineView, Fault> {
        let d = self.reg(x);
        let i = self.i as int;
        if i + 3 > MEMORY_SIZE {
            Err(Fault::OutOfBoundsAccess { address: self.i })
        } else {
            Ok(
                MachineView {
                    memory: self.memory.update(i, (d / 100) as u8).update(
                        i + 1,
                        ((d / 10) % 10) as u8,
                    ).update(i + 2, (d % 10) as u8),
                    ..self
                },
            )
        }
    }

    pub open spec fn dump_registers(self, x: u8) -> Result<MachineView, Fault> {
        let i = self.i as int;
        if i + x + 1 > MEMORY_SIZE {
            Err(Fault::OutOfBoundsAccess { address: self.i })
        } else {
            Ok(
                MachineView {
                    memory: Seq::new(
                        MEMORY_SIZE as nat,
                        |a: int|
                            if i <= a <= i + x {
                                self.v[a - i]
                            } else {
                                self.memory[a]
                            },
                    ),
                    ..self
                },
            )
        }
    }

    pub open spec fn load_registers(self, x: u8) -> Result<MachineView, Fault> {
        let i = self.i as int;
        if i + x + 1 > MEMORY_SIZE {
            Err(Fault::OutOfBoundsAccess { address: self.i })
        } else {
            Ok(
                MachineView {
                    v: Seq::new(
                        REGISTER_COUNT as nat,
                        |k: int|
                            if k <= x {
                                self.memory[i + k]
                            } else {
                                self.v[k]
                            },
                    ),
                    ..self
                },
            )
        }
    }

    /// Whether a skip instruction's condition holds; false for any other.
    pub open spec fn skip_condition(self, ins: Instruction, keys: Seq<bool>) -> bool {
        match ins {
            Instruction::SkipIfEqual { x, value } => self.reg(x) == value,
            Instruction::SkipIfNotEqual { x, value } => self.reg(x) != value,
            Instruction::SkipIfRegistersEqual { x, y } => self.reg(x) == self.reg(y),
            Instruction::SkipIfRegistersNotEqual { x, y } => self.reg(x) != self.reg(y),
            Instruction::SkipIfKeyDown { x } => key_down(keys, self.reg(x)),
            Instruction::SkipIfKeyUp { x } => !key_down(keys, self.reg(x)),
            _ => false,
        }
    }

    /// The state after `ins` runs on this one, with `random` as the byte
    /// source's draw and `keys` as the keys held down. A drawing instruction
    /// changes nothing here: its flag comes when the display reports back.
    pub open spec fn execute(self, ins: Instruction, random: u8, keys: Seq<bool>) -> Result<
        MachineView,
        Fault,
    > {
        match ins {
            Instruction::CallNative { .. } => Ok(self),
            Instruction::ClearScreen => Ok(self),
            Instruction::Return => self.ret(),
            Instruction::Jump { address } => Ok(self.with_pc(address)),
            Instruction::Call { address } => self.call(address),
            Instruction::SkipIfEqual { .. } => Ok(self.skip_if(self.skip_condition(ins, keys))),
            Instruction::SkipIfNotEqual { .. } => Ok(self.skip_if(self.skip_condition(ins, keys))),
            Instruction::SkipIfRegistersEqual { .. } => Ok(
                self.skip_if(self.skip_condition(ins, keys)),
            ),
            Instruction::SetImmediate { x, value } => Ok(self.set_reg(x, value)),
            Instruction::AddImmediate { x, value } => Ok(self.add_immediate(x, value)),
            Instruction::CopyRegister { x, y } => Ok(self.set_reg(x, self.reg(y))),
            Instruction::BitwiseOr { x, y } => Ok(self.set_reg(x, self.reg(x) | self.reg(y))),
            Instruction::BitwiseAnd { x, y } => Ok(self.set_reg(x, self.reg(x) & self.reg(y))),
            Instruction::BitwiseXor { x, y } => Ok(self.set_reg(x, self.reg(x) ^ self.reg(y))),
            Instruction::AddWithCarry { x, y } => Ok(self.add_with_carry(x, y)),
            Instruction::SubWithBorrow { x, y } => Ok(self.sub_with_borrow(x, y)),
            Instruction::ShiftRight { x, y } => Ok(self.shift_right(x, y)),
            Instruction::ReverseSubtract { x, y } => Ok(self.reverse_subtract(x, y)),
            Instruction::ShiftLeft { x, y } => Ok(self.shift_left(x, y)),
            Instruction::SkipIfRegistersNotEqual { .. } => Ok(
                self.skip_if(self.skip_condition(ins, keys)),
            ),
            Instruction::SetIndexImmediate { address } => Ok(self.with_index(address)),
            Instruction::JumpPlusV0 { address } => Ok(self.jump_plus_v0(address)),
            Instruction::RandomMasked { x, mask } => Ok(self.set_reg(x, random & mask)),
            Instruction::DrawSprite { height, .. } => match self.sprite_bytes(height) {
                Ok(_) => Ok(self),
                Err(f) => Err(f),
            },
            Instruction::SkipIfKeyDown { .. } => Ok(self.skip_if(self.skip_condition(ins, keys))),
            Instruction::SkipIfKeyUp { .. } => Ok(self.skip_if(self.skip_condition(ins, keys))),
            Instruction::SetRegisterFromDelay { x } => Ok(self.set_reg(x, self.delay)),
            Instruction::WaitForKeyInto { x } => Ok(MachineView { waiting: Some(x), ..self }),
            Instruction::SetDelayFromRegister { x } => Ok(
                MachineView { delay: self.reg(x), ..self },
            ),
            Instruction::SetSoundFromRegister { x } => Ok(
                MachineView { sound: self.reg(x), ..self },
            ),
            Instruction::AddToIndex { x } => Ok(self.add_to_index(x)),
            Instruction::LoadSpriteAddress { x } => Ok(self.load_sprite_address(x)),
            Instruction::StoreBcd { x } => self.store_bcd(x),
            Instruction::DumpRegisters { x } => self.dump_registers(x),
            Instruction::LoadRegisters { x } => self.load_registers(x),
        }
    }

    /// The big-endian word at the program counter.
    pub open spec fn fetched_word(self) -> u16 {
        (self.memory[self.pc as int] * 0x100 + self.memory[self.pc + 1]) as u16
    }

    /// The state after one fetch-decode-execute cycle. While a key wait is
    /// pending the cycle does nothing.
    pub open spec fn cycle(self, random: u8, keys: Seq<bool>) -> Result<MachineView, Fault> {
        if self.waiting is Some {
            Ok(self)
        } else if self.pc + 2 > MEMORY_SIZE {
            Err(Fault::OutOfBoundsAccess { address: self.pc })
        } else {
            match decoded(self.fetched_word()) {
                None => Err(Fault::DecodeFailure { word: self.fetched_word(), address: self.pc }),
                Some(ins) => self.with_pc((self.pc + 2) as u16).execute(ins, random, keys),
            }
        }
    }

    /// One tick of the 60 Hz pacer: each nonzero timer counts down by one.
    pub open spec fn tick(self) -> MachineView {
        MachineView {
            delay: if self.delay > 0 {
                (self.delay - 1) as u8
            } else {
                0
            },
            sound: if self.sound > 0 {
                (self.sound - 1) as u8
            } else {
                0
            },
            ..self
        }
    }
}

} // verus!
