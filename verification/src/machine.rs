use crate::cpu::ProgramCounter;
use crate::fault::Fault;
use crate::font::{glyph_address, glyph_table};
use vstd::prelude::*;

verus! {

/// The top four bits of an instruction word, which select its family.
pub open spec fn family(op: u16) -> int {
    op as int / 4096
}

/// The register selector `x`: bits 11 to 8 of an instruction word.
pub open spec fn field_x(op: u16) -> int {
    (op as int / 256) % 16
}

/// The register selector `y`: bits 7 to 4 of an instruction word.
pub open spec fn field_y(op: u16) -> int {
    (op as int / 16) % 16
}

/// The four-bit count `n`: the lowest four bits of an instruction word.
pub open spec fn field_n(op: u16) -> int {
    op as int % 16
}

/// The immediate `kk`: the low byte of an instruction word.
pub open spec fn field_kk(op: u16) -> u8 {
    (op % 256) as u8
}

/// The address `nnn`: the low twelve bits of an instruction word.
pub open spec fn field_nnn(op: u16) -> u16 {
    op % 4096
}

/// Whether `sub` selects a defined instruction of the register-to-register
/// arithmetic family.
pub open spec fn alu_defined(sub: int) -> bool {
    0 <= sub <= 7 || sub == 14
}

/// The value that the arithmetic instruction `sub` leaves in `Vx`, given
/// `a`, the old value of `Vx`, and `b`, the value of `Vy`. Sums, differences
/// and the left shift are taken modulo 256; the shifts use `a` alone.
pub open spec fn alu_value(sub: int, a: u8, b: u8) -> u8 {
    if sub == 0 {
        b
    } else if sub == 1 {
        a | b
    } else if sub == 2 {
        a & b
    } else if sub == 3 {
        a ^ b
    } else if sub == 4 {
        ((a + b) % 256) as u8
    } else if sub == 5 {
        ((a - b) % 256) as u8
    } else if sub == 6 {
        a / 2
    } else if sub == 7 {
        ((b - a) % 256) as u8
    } else {
        ((a * 2) % 256) as u8
    }
}

/// The flag that the arithmetic instruction `sub` writes to `VF`, if it
/// writes one: the carry of a sum, 1 for a difference whose minuend is the
/// strictly greater operand, and the bit that a shift pushes out.
pub open spec fn alu_flag(sub: int, a: u8, b: u8) -> Option<u8> {
    if sub == 4 {
        Some(if a + b > 255 { 1u8 } else { 0u8 })
    } else if sub == 5 {
        Some(if a > b { 1u8 } else { 0u8 })
    } else if sub == 6 {
        Some(a % 2)
    } else if sub == 7 {
        Some(if b > a { 1u8 } else { 0u8 })
    } else if sub == 14 {
        Some(a / 128)
    } else {
        None
    }
}

/// Pixel `col` of a sprite row, column 0 being the most significant bit.
pub open spec fn sprite_row_bit(row: u8, col: int) -> bool {
    (row >> ((7 - col) as u8)) & 1 == 1
}

/// No key of the snapshot is down.
pub open spec fn no_key_pressed(keys: Seq<bool>) -> bool {
    forall|k: int| 0 <= k < keys.len() ==> !keys[k]
}

/// Key `k` is down and no key of lower index is.
pub open spec fn is_first_pressed(keys: Seq<bool>, k: int) -> bool {
    &&& 0 <= k < keys.len()
    &&& keys[k]
    &&& forall|j: int| 0 <= j < k ==> !keys[j]
}

/// The lowest index of a key that is down. Meaningful when some key is.
pub open spec fn first_pressed(keys: Seq<bool>) -> int {
    choose|k: int| is_first_pressed(keys, k)
}

/// Exactly one key is the first that is down, where any is.
pub proof fn lemma_first_pressed(keys: Seq<bool>, k: int)
    requires
        is_first_pressed(keys, k),
    ensures
        first_pressed(keys) == k,
        !no_key_pressed(keys),
{
    let chosen = first_pressed(keys);
    assert(is_first_pressed(keys, chosen));
}

/// The CHIP-8 machine as a mathematical value.
#[verifier::ext_equal]
pub struct Machine {
    /// The instruction word most recently fetched.
    pub opcode: u16,
    /// The index register `I`.
    pub index: u16,
    /// Address of the next instruction to fetch.
    pub program_counter: u16,
    /// The 4096 bytes of memory.
    pub memory: Seq<u8>,
    /// The sixteen general registers `V0` to `VF`.
    pub registers: Seq<u8>,
    /// The sixteen slots for return addresses.
    pub stack: Seq<u16>,
    /// Number of return addresses held in `stack`.
    pub stack_pointer: u8,
    pub delay_timer: u8,
    pub sound_timer: u8,
    /// Thirty-two rows of sixty-four pixels; `true` is a lit pixel.
    pub display: Seq<Seq<bool>>,
    /// Set by every instruction that changes the display.
    pub redraw_pending: bool,
    /// The sixteen keys as of the current tick; `true` is a key held down.
    pub input_state: Seq<bool>,
    /// The machine is blocked until a key is pressed.
    pub awaiting_key: bool,
    /// The register that receives the key that ends the wait.
    pub key_target: u16,
}

impl Machine {
    /// The shape that every machine has: the fixed sizes of its parts, a
    /// stack pointer within the stack, and a key target that is a register.
    pub open spec fn wf(self) -> bool {
        &&& self.memory.len() == 4096
        &&& self.registers.len() == 16
        &&& self.stack.len() == 16
        &&& self.stack_pointer <= 16
        &&& self.display.len() == 32
        &&& forall|r: int| 0 <= r < 32 ==> (#[trigger] self.display[r]).len() == 64
        &&& self.input_state.len() == 16
        &&& self.key_target < 16
    }

    /// The machine as built: the font at the bottom of memory, everything
    /// else cleared, execution about to begin at 0x200.
    pub open spec fn initial() -> Machine {
        Machine {
            opcode: 0,
            index: 0x200,
            program_counter: 0x200,
            memory: Seq::new(4096, |a: int| if a < 80 { glyph_table()[a] } else { 0u8 }),
            registers: Seq::new(16, |r: int| 0u8),
            stack: Seq::new(16, |s: int| 0u16),
            stack_pointer: 0,
            delay_timer: 0,
            sound_timer: 0,
            display: Seq::new(32, |r: int| Seq::new(64, |c: int| false)),
            redraw_pending: false,
            input_state: Seq::new(16, |k: int| false),
            awaiting_key: false,
            key_target: 0,
        }
    }

    /// Whether `len` bytes starting at `start` all lie in memory. An empty
    /// range reads nothing and lies in memory wherever it starts.
    pub open spec fn in_memory(start: int, len: int) -> bool {
        len <= 0 || (0 <= start && start + len <= 4096)
    }

    /// The machine with `program` copied to memory from 0x200 upward, or
    /// unchanged beside the fault raised when the image does not fit.
    pub open spec fn load(self, program: Seq<u8>) -> (Machine, Result<(), Fault>) {
        if program.len() > 4096 - 0x200 {
            (self, Err(Fault::AddressOutOfRange))
        } else {
            (
                Machine {
                    memory: Seq::new(
                        4096,
                        |a: int|
                            if 0x200 <= a < 0x200 + program.len() {
                                program[a - 0x200]
                            } else {
                                self.memory[a]
                            },
                    ),
                    ..self
                },
                Ok(()),
            )
        }
    }

    /// The value of the register that field `x` of the current instruction
    /// selects.
    pub open spec fn vx(self) -> u8 {
        self.registers[field_x(self.opcode)]
    }

    /// The value of the register that field `y` of the current instruction
    /// selects.
    pub open spec fn vy(self) -> u8 {
        self.registers[field_y(self.opcode)]
    }

    /// The machine with register `r` holding `value`.
    pub open spec fn set_register(self, r: int, value: u8) -> Machine {
        Machine { registers: self.registers.update(r, value), ..self }
    }

    /// This machine as the outcome of an instruction that asks for `action`.
    pub open spec fn proceed(self, action: ProgramCounter) -> (
        Machine,
        Result<ProgramCounter, Fault>,
    ) {
        (self, Ok(action))
    }

    /// This machine, untouched, as the outcome of an instruction that raised
    /// `fault`.
    pub open spec fn stop(self, fault: Fault) -> (Machine, Result<ProgramCounter, Fault>) {
        (self, Err(fault))
    }

    /// The fault that names the current instruction as undefined.
    pub open spec fn unknown(self) -> Fault {
        Fault::UnknownInstruction { opcode: self.opcode, address: self.program_counter }
    }

    /// `00E0`: every pixel goes dark and a redraw is due.
    pub open spec fn clear_screen(self) -> (Machine, Result<ProgramCounter, Fault>) {
        Machine {
            display: Seq::new(32, |r: int| Seq::new(64, |c: int| false)),
            redraw_pending: true,
            ..self
        }.proceed(ProgramCounter::Next)
    }

    /// `00EE`: pop the most recent return address and continue there.
    pub open spec fn subroutine_return(self) -> (Machine, Result<ProgramCounter, Fault>) {
        if self.stack_pointer == 0 {
            self.stop(Fault::StackUnderflow)
        } else {
            Machine { stack_pointer: (self.stack_pointer - 1) as u8, ..self }.proceed(
                ProgramCounter::Jump(self.stack[self.stack_pointer - 1]),
            )
        }
    }

    /// Family `0`: the word `00E0` clears the screen and the word `00EE`
    /// returns; no other word of the family is an instruction.
    pub open spec fn system(self) -> (Machine, Result<ProgramCounter, Fault>) {
        if self.opcode == 0x00E0 {
            self.clear_screen()
        } else if self.opcode == 0x00EE {
            self.subroutine_return()
        } else {
            self.stop(self.unknown())
        }
    }

    /// `1nnn`: continue at `nnn`.
    pub open spec fn jump(self) -> (Machine, Result<ProgramCounter, Fault>) {
        self.proceed(ProgramCounter::Jump(field_nnn(self.opcode)))
    }

    /// `2nnn`: push the address of the following instruction and continue
    /// at `nnn`.
    pub open spec fn call(self) -> (Machine, Result<ProgramCounter, Fault>) {
        if self.stack_pointer >= 16 {
            self.stop(Fault::StackOverflow)
        } else {
            Machine {
                stack: self.stack.update(
                    self.stack_pointer as int,
                    (self.program_counter + 2) as u16,
                ),
                stack_pointer: (self.stack_pointer + 1) as u8,
                ..self
            }.proceed(ProgramCounter::Jump(field_nnn(self.opcode)))
        }
    }

    /// `3xkk`: skip when `Vx` equals `kk`.
    pub open spec fn skip_equal_immediate(self) -> (Machine, Result<ProgramCounter, Fault>) {
        self.proceed(ProgramCounter::skip_when(self.vx() == field_kk(self.opcode)))
    }

    /// `4xkk`: skip when `Vx` differs from `kk`.
    pub open spec fn skip_unequal_immediate(self) -> (Machine, Result<ProgramCounter, Fault>) {
        self.proceed(ProgramCounter::skip_when(self.vx() != field_kk(self.opcode)))
    }

    /// `5xy0`: skip when `Vx` equals `Vy`.
    pub open spec fn skip_equal_registers(self) -> (Machine, Result<ProgramCounter, Fault>) {
        self.proceed(ProgramCounter::skip_when(self.vx() == self.vy()))
    }

    /// `9xy0`: skip when `Vx` differs from `Vy`.
    pub open spec fn skip_unequal_registers(self) -> (Machine, Result<ProgramCounter, Fault>) {
        self.proceed(ProgramCounter::skip_when(self.vx() != self.vy()))
    }

    /// `6xkk`: `Vx` becomes `kk`.
    pub open spec fn load_immediate(self) -> (Machine, Result<ProgramCounter, Fault>) {
        self.set_register(field_x(self.opcode), field_kk(self.opcode)).proceed(
            ProgramCounter::Next,
        )
    }

    /// `7xkk`: `Vx` becomes `Vx + kk` modulo 256; no flag is written.
    pub open spec fn add_immediate(self) -> (Machine, Result<ProgramCounter, Fault>) {
        self.set_register(
            field_x(self.opcode),
            ((self.vx() + field_kk(self.opcode)) % 256) as u8,
        ).proceed(ProgramCounter::Next)
    }

    /// The machine with `VF` holding the flag of arithmetic instruction
    /// `sub` applied to registers `x` and `y`, where it writes one.
    pub open spec fn alu_flagged(self, sub: int, x: int, y: int) -> Machine {
        match alu_flag(sub, self.registers[x], self.registers[y]) {
            Some(flag) => self.set_register(15, flag),
            None => self,
        }
    }

    /// Family `8`: register-to-register arithmetic and logic. The flag is
    /// written first and the result second, so with `x` = 15 the result is
    /// what `VF` holds afterwards.
    pub open spec fn arithmetic(self) -> (Machine, Result<ProgramCounter, Fault>) {
        let sub = field_n(self.opcode);
        let x = field_x(self.opcode);
        let y = field_y(self.opcode);
        if alu_defined(sub) {
            self.alu_flagged(sub, x, y).set_register(
                x,
                alu_value(sub, self.vx(), self.vy()),
            ).proceed(ProgramCounter::Next)
        } else {
            self.stop(self.unknown())
        }
    }

    /// `Annn`: `I` becomes `nnn`.
    pub open spec fn load_index(self) -> (Machine, Result<ProgramCounter, Fault>) {
        Machine { index: field_nnn(self.opcode), ..self }.proceed(ProgramCounter::Next)
    }

    /// `Bnnn`: continue at `nnn + V0`.
    pub open spec fn jump_indexed(self) -> (Machine, Result<ProgramCounter, Fault>) {
        self.proceed(ProgramCounter::Jump((field_nnn(self.opcode) + self.registers[0]) as u16))
    }

    /// `Cxkk`: `Vx` becomes the drawn byte `entropy` masked by `kk`.
    pub open spec fn random(self, entropy: u8) -> (Machine, Result<ProgramCounter, Fault>) {
        self.set_register(field_x(self.opcode), entropy & field_kk(self.opcode)).proceed(
            ProgramCounter::Next,
        )
    }

    /// Whether drawing the current sprite inverts the pixel at row `r`,
    /// column `c`. The sprite's top left corner lies at column `Vx`, row
    /// `Vy`, both taken modulo the size of the display; its `n` rows are the
    /// bytes at `I`, and what passes an edge continues at the opposite one.
    pub open spec fn sprite_covers(self, r: int, c: int) -> bool {
        let row = (r - self.vy()) % 32;
        let col = (c - self.vx()) % 64;
        &&& row < field_n(self.opcode)
        &&& col < 8
        &&& sprite_row_bit(self.memory[self.index + row], col)
    }

    /// The display after the current sprite has been drawn onto it.
    pub open spec fn drawn_display(self) -> Seq<Seq<bool>> {
        Seq::new(
            32,
            |r: int| Seq::new(64, |c: int| self.display[r][c] != self.sprite_covers(r, c)),
        )
    }

    /// Whether drawing the current sprite turns off a pixel that was lit.
    pub open spec fn sprite_collides(self) -> bool {
        exists|r: int, c: int|
            0 <= r < 32 && 0 <= c < 64 && self.display[r][c] && #[trigger] self.sprite_covers(r, c)
    }

    /// `Dxyn`: draw the sprite by exclusive or, `VF` telling whether a lit
    /// pixel went dark; a redraw is due. Column and row are those that `Vx`
    /// and `Vy` hold before `VF` is written.
    pub open spec fn draw(self) -> (Machine, Result<ProgramCounter, Fault>) {
        if !Self::in_memory(self.index as int, field_n(self.opcode)) {
            self.stop(Fault::AddressOutOfRange)
        } else {
            Machine {
                display: self.drawn_display(),
                registers: self.registers.update(15, if self.sprite_collides() { 1u8 } else { 0u8 }),
                redraw_pending: true,
                ..self
            }.proceed(ProgramCounter::Next)
        }
    }

    /// `Ex9E` and `ExA1`: skip when the key that register `x` names is down,
    /// or when it is up, according to `when_down`.
    pub open spec fn skip_on_key(self, x: int, when_down: bool) -> (
        Machine,
        Result<ProgramCounter, Fault>,
    ) {
        let key = self.registers[x];
        if key >= 16 {
            self.stop(Fault::KeyOutOfRange)
        } else {
            self.proceed(ProgramCounter::skip_when(self.input_state[key as int] == when_down))
        }
    }

    /// Family `E`: the two key skips, selected by the low byte.
    pub open spec fn key_skip(self) -> (Machine, Result<ProgramCounter, Fault>) {
        if field_kk(self.opcode) == 0x9E {
            self.skip_on_key(field_x(self.opcode), true)
        } else if field_kk(self.opcode) == 0xA1 {
            self.skip_on_key(field_x(self.opcode), false)
        } else {
            self.stop(self.unknown())
        }
    }

    /// `Fx07`: `Vx` becomes the delay timer.
    pub open spec fn read_delay(self, x: int) -> Machine {
        self.set_register(x, self.delay_timer)
    }

    /// `Fx0A`: block until a key is pressed, which then goes to `Vx`.
    pub open spec fn await_key(self, x: int) -> Machine {
        Machine { awaiting_key: true, key_target: x as u16, ..self }
    }

    /// `Fx15`: the delay timer becomes `Vx`.
    pub open spec fn set_delay(self, x: int) -> Machine {
        Machine { delay_timer: self.registers[x], ..self }
    }

    /// `Fx18`: the sound timer becomes `Vx`.
    pub open spec fn set_sound(self, x: int) -> Machine {
        Machine { sound_timer: self.registers[x], ..self }
    }

    /// `Fx1E`: `I` grows by `Vx`, and `VF` tells whether it now exceeds
    /// 0x0F00. A sum that no longer fits in `I` is a fault.
    pub open spec fn add_to_index(self, x: int) -> (Machine, Result<(), Fault>) {
        let sum = self.index + self.registers[x];
        if sum > 0xFFFF {
            (self, Err(Fault::AddressOutOfRange))
        } else {
            (
                Machine {
                    index: sum as u16,
                    registers: self.registers.update(15, if sum > 0x0F00 { 1u8 } else { 0u8 }),
                    ..self
                },
                Ok(()),
            )
        }
    }

    /// `Fx29`: `I` becomes the address of the glyph for `Vx`.
    pub open spec fn point_at_glyph(self, x: int) -> Machine {
        Machine { index: glyph_address(self.registers[x] as int) as u16, ..self }
    }

    /// `Fx30`: `I` becomes the address of the large glyph for `Vx`, ten
    /// bytes per glyph.
    pub open spec fn point_at_large_glyph(self, x: int) -> Machine {
        Machine { index: (self.registers[x] * 10) as u16, ..self }
    }

    /// `Fx33`: the hundreds, tens and units of `Vx` go to memory at `I`,
    /// `I + 1` and `I + 2`.
    pub open spec fn store_decimal(self, x: int) -> (Machine, Result<(), Fault>) {
        let value = self.registers[x];
        let at = self.index as int;
        if !Self::in_memory(at, 3) {
            (self, Err(Fault::AddressOutOfRange))
        } else {
            (
                Machine {
                    memory: self.memory.update(at, value / 100).update(
                        at + 1,
                        (value % 100) / 10,
                    ).update(at + 2, value % 10),
                    ..self
                },
                Ok(()),
            )
        }
    }

    /// `Fx55`: registers `V0` to `Vx` go to memory from `I` upward.
    pub open spec fn store_registers(self, x: int) -> (Machine, Result<(), Fault>) {
        let at = self.index as int;
        if !Self::in_memory(at, x + 1) {
            (self, Err(Fault::AddressOutOfRange))
        } else {
            (
                Machine {
                    memory: Seq::new(
                        4096,
                        |a: int|
                            if at <= a <= at + x {
                                self.registers[a - at]
                            } else {
                                self.memory[a]
                            },
                    ),
                    ..self
                },
                Ok(()),
            )
        }
    }

    /// `Fx65`: registers `V0` to `Vx` are read from memory at `I` upward.
    pub open spec fn load_registers(self, x: int) -> (Machine, Result<(), Fault>) {
        let at = self.index as int;
        if !Self::in_memory(at, x + 1) {
            (self, Err(Fault::AddressOutOfRange))
        } else {
            (
                Machine {
                    registers: Seq::new(
                        16,
                        |r: int|
                            if r <= x {
                                self.memory[at + r]
                            } else {
                                self.registers[r]
                            },
                    ),
                    ..self
                },
                Ok(()),
            )
        }
    }

    /// The effect of the instruction of family `F` that the low byte
    /// selects.
    pub open spec fn miscellaneous_effect(self) -> (Machine, Result<(), Fault>) {
        let x = field_x(self.opcode);
        let low = field_kk(self.opcode);
        if low == 0x07 {
            (self.read_delay(x), Ok(()))
        } else if low == 0x0A {
            (self.await_key(x), Ok(()))
        } else if low == 0x15 {
            (self.set_delay(x), Ok(()))
        } else if low == 0x18 {
            (self.set_sound(x), Ok(()))
        } else if low == 0x1E {
            self.add_to_index(x)
        } else if low == 0x29 {
            (self.point_at_glyph(x), Ok(()))
        } else if low == 0x30 {
            (self.point_at_large_glyph(x), Ok(()))
        } else if low == 0x33 {
            self.store_decimal(x)
        } else if low == 0x55 {
            self.store_registers(x)
        } else if low == 0x65 {
            self.load_registers(x)
        } else {
            (self, Err(self.unknown()))
        }
    }

    /// Family `F`: timers, key wait, index arithmetic and memory transfer.
    /// Every instruction of the family is followed by the next one.
    pub open spec fn miscellaneous(self) -> (Machine, Result<ProgramCounter, Fault>) {
        let (m, result) = self.miscellaneous_effect();
        match result {
            Ok(_) => m.proceed(ProgramCounter::Next),
            Err(fault) => self.stop(fault),
        }
    }

    /// The effect of the current instruction and the action it asks for, or
    /// the machine unchanged and the fault it raises. `entropy` is the byte
    /// drawn for this instruction should it be `Cxkk`; no other instruction
    /// looks at it.
    pub open spec fn execute(self, entropy: u8) -> (Machine, Result<ProgramCounter, Fault>) {
        let f = family(self.opcode);
        if f == 0x0 {
            self.system()
        } else if f == 0x1 {
            self.jump()
        } else if f == 0x2 {
            self.call()
        } else if f == 0x3 {
            self.skip_equal_immediate()
        } else if f == 0x4 {
            self.skip_unequal_immediate()
        } else if f == 0x5 {
            self.skip_equal_registers()
        } else if f == 0x6 {
            self.load_immediate()
        } else if f == 0x7 {
            self.add_immediate()
        } else if f == 0x8 {
            self.arithmetic()
        } else if f == 0x9 {
            self.skip_unequal_registers()
        } else if f == 0xA {
            self.load_index()
        } else if f == 0xB {
            self.jump_indexed()
        } else if f == 0xC {
            self.random(entropy)
        } else if f == 0xD {
            self.draw()
        } else if f == 0xE {
            self.key_skip()
        } else {
            self.miscellaneous()
        }
    }

    /// The machine with `action` applied to its program counter.
    pub open spec fn advance(self, action: ProgramCounter) -> Machine {
        match action {
            ProgramCounter::Next => Machine {
                program_counter: (self.program_counter + 2) as u16,
                ..self
            },
            ProgramCounter::Skip => Machine {
                program_counter: (self.program_counter + 4) as u16,
                ..self
            },
            ProgramCounter::Jump(address) => Machine { program_counter: address, ..self },
        }
    }

    /// The machine once the current instruction has executed and its action
    /// has been applied, or unchanged beside the fault it raised.
    pub open spec fn process(self, entropy: u8) -> (Machine, Result<(), Fault>) {
        let (m, result) = self.execute(entropy);
        match result {
            Ok(action) => (m.advance(action), Ok(())),
            Err(fault) => (self, Err(fault)),
        }
    }

    /// The fault, if any, that keeps an instruction from being fetched at
    /// the program counter: both of its bytes must lie in memory, and its
    /// address must be even.
    pub open spec fn fetch_fault(self) -> Option<Fault> {
        if self.program_counter + 1 >= 4096 {
            Some(Fault::AddressOutOfRange)
        } else if self.program_counter % 2 != 0 {
            Some(Fault::MisalignedProgramCounter)
        } else {
            None
        }
    }

    /// The big-endian word at the program counter.
    pub open spec fn word_at_program_counter(self) -> u16 {
        (self.memory[self.program_counter as int] * 256 + self.memory[self.program_counter + 1]) as u16
    }

    /// One fetch-decode-execute cycle. A fetch fault leaves the machine as
    /// it was; a fault of the instruction leaves it as it was but for the
    /// fetched word in `opcode`.
    pub open spec fn step(self, entropy: u8) -> (Machine, Result<(), Fault>) {
        match self.fetch_fault() {
            Some(fault) => (self, Err(fault)),
            None => Machine { opcode: self.word_at_program_counter(), ..self }.process(entropy),
        }
    }

    /// Both timers one lower, each stopping at zero.
    pub open spec fn count_down(self) -> Machine {
        Machine {
            delay_timer: if self.delay_timer > 0 {
                (self.delay_timer - 1) as u8
            } else {
                0u8
            },
            sound_timer: if self.sound_timer > 0 {
                (self.sound_timer - 1) as u8
            } else {
                0u8
            },
            ..self
        }
    }

    /// One tick with the key snapshot `keys`. The redraw flag is cleared and
    /// the snapshot taken. A machine that awaits a key then only looks for
    /// the lowest key that is down: if there is one, its index goes to the
    /// target register and the wait ends. Any other machine performs one
    /// step and, where that raised no fault, counts both timers down.
    pub open spec fn tick(self, keys: Seq<bool>, entropy: u8) -> (Machine, Result<(), Fault>) {
        let taken = Machine { redraw_pending: false, input_state: keys, ..self };
        if taken.awaiting_key {
            if no_key_pressed(keys) {
                (taken, Ok(()))
            } else {
                (
                    Machine {
                        awaiting_key: false,
                        registers: taken.registers.update(
                            taken.key_target as int,
                            first_pressed(keys) as u8,
                        ),
                        ..taken
                    },
                    Ok(()),
                )
            }
        } else {
            let (stepped, result) = taken.step(entropy);
            match result {
                Ok(_) => (stepped.count_down(), Ok(())),
                Err(fault) => (stepped, Err(fault)),
            }
        }
    }
}

} // verus!
