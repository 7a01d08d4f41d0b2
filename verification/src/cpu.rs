use crate::fault::Fault;
use crate::font::FONT_SET;
use crate::decode::lemma_fields_by_mask;
use crate::machine::{
    first_pressed, is_first_pressed, lemma_first_pressed, no_key_pressed, Machine,
};
use vstd::prelude::*;

verus! {

/// Width of one instruction in bytes.
pub const OPCODE_SIZE: u16 = 2;

/// Number of pixel columns of the display.
pub const SCREEN_WIDTH: usize = 64;

/// Number of pixel rows of the display.
pub const SCREEN_HEIGHT: usize = 32;

/// Number of bytes of memory.
pub const RAM: usize = 4096;

/// Address at which a program image is placed and execution begins.
pub const PROGRAM_START: u16 = 0x200;

/// What happens to the program counter once an instruction has executed.
#[derive(Clone, Copy, Debug, PartialEq, Eq, Structural)]
pub enum ProgramCounter {
    /// Move on to the following instruction.
    Next,
    /// Pass over the following instruction.
    Skip,
    /// Continue at the given address.
    Jump(u16),
}

impl ProgramCounter {
    /// The action of a conditional skip whose condition evaluated to `cond`.
    pub open spec fn skip_when(cond: bool) -> ProgramCounter {
        if cond {
            ProgramCounter::Skip
        } else {
            ProgramCounter::Next
        }
    }

    /// `Skip` when `cond` holds, `Next` otherwise.
    pub fn skip_if(cond: bool) -> (action: ProgramCounter)
        ensures
            action == ProgramCounter::skip_when(cond),
    {
        if cond {
            ProgramCounter::Skip
        } else {
            ProgramCounter::Next
        }
    }
}

/// The machine as it is held in memory. Every field is open to the driver,
/// which hands over the keys and reads the display between ticks.
pub struct CPU {
    /// The instruction word most recently fetched.
    pub opcode: u16,
    /// The index register `I`.
    pub i: u16,
    /// Address of the next instruction to fetch.
    pub pc: u16,
    pub memory: [u8; RAM],
    /// The general registers `V0` to `VF`.
    pub v: [u8; 16],
    /// Return addresses of the calls that are outstanding.
    pub stack: [u16; 16],
    /// Number of return addresses held in `stack`.
    pub sp: u8,
    pub delay_timer: u8,
    pub sound_timer: u8,
    /// One byte per pixel, row by row: 1 is lit, 0 is dark.
    pub display: [[u8; SCREEN_WIDTH]; SCREEN_HEIGHT],
    /// Set by every instruction that changes the display, cleared by `tick`.
    pub draw_screen: bool,
    /// The keys as of the current tick.
    pub keypad: [bool; 16],
    /// The machine is blocked until a key is pressed.
    pub keypad_waiting: bool,
    /// The register that receives the key that ends the wait.
    pub keypad_register: u16,
}

impl View for CPU {
    type V = Machine;

    open spec fn view(&self) -> Machine {
        Machine {
            opcode: self.opcode,
            index: self.i,
            program_counter: self.pc,
            memory: self.memory@,
            registers: self.v@,
            stack: self.stack@,
            stack_pointer: self.sp,
            delay_timer: self.delay_timer,
            sound_timer: self.sound_timer,
            display: Seq::new(32, |r: int| Seq::new(64, |c: int| self.display[r][c] != 0)),
            redraw_pending: self.draw_screen,
            input_state: self.keypad@,
            awaiting_key: self.keypad_waiting,
            key_target: self.keypad_register,
        }
    }
}

impl CPU {
    /// What holds of every machine between two operations: the stack pointer
    /// lies within the stack, the key target is a register, and every pixel
    /// is 0 or 1.
    pub open spec fn wf(&self) -> bool {
        &&& self.sp <= 16
        &&& self.keypad_register < 16
        &&& forall|r: int, c: int|
            0 <= r < 32 && 0 <= c < 64 ==> #[trigger] self.display[r][c] <= 1
    }

    /// A well-formed machine has a well-formed model.
    pub proof fn lemma_view_wf(&self)
        requires
            self.wf(),
        ensures
            self@.wf(),
    {
    }

    /// Tests `wf`, for a driver that has written to the fields.
    pub fn well_formed(&self) -> (ok: bool)
        ensures
            ok == self.wf(),
    {
        if self.sp > 16 || self.keypad_register >= 16 {
            return false;
        }
        let mut r: usize = 0;
        while r < 32
            invariant
                r <= 32,
                forall|a: int, c: int|
                    0 <= a < r && 0 <= c < 64 ==> #[trigger] self.display[a][c] <= 1,
            decreases 32 - r,
        {
            let mut c: usize = 0;
            while c < 64
                invariant
                    r < 32,
                    c <= 64,
                    forall|a: int, b: int|
                        0 <= a < r && 0 <= b < 64 ==> #[trigger] self.display[a][b] <= 1,
                    forall|b: int| 0 <= b < c ==> #[trigger] self.display[r as int][b] <= 1,
                decreases 64 - c,
            {
                if self.display[r][c] > 1 {
                    return false;
                }
                c += 1;
            }
            r += 1;
        }
        true
    }

    /// A machine with the font at the bottom of memory, everything else
    /// cleared, and execution about to begin at 0x200.
    pub fn new() -> (cpu: CPU)
        ensures
            cpu.wf(),
            cpu@ == Machine::initial(),
    {
        let mut mem = [0u8; 4096];
        let mut i: usize = 0;
        while i < 80
            invariant
                i <= 80,
                forall|a: int| 0 <= a < i ==> mem[a] == FONT_SET[a],
                forall|a: int| i <= a < 4096 ==> mem[a] == 0,
            decreases 80 - i,
        {
            mem[i] = FONT_SET[i];
            i += 1;
        }
        let cpu = CPU {
            opcode: 0,
            i: 0x200,
            pc: 0x200,
            memory: mem,
            v: [0u8; 16],
            stack: [0u16; 16],
            sp: 0,
            delay_timer: 0,
            sound_timer: 0,
            display: [[0u8; 64]; 32],
            draw_screen: false,
            keypad: [false; 16],
            keypad_waiting: false,
            keypad_register: 0,
        };
        assert(cpu@ =~~= Machine::initial());
        cpu
    }

    /// Copies `program` into memory from 0x200 upward. An image of more
    /// than 3584 bytes does not fit: it is reported and nothing is copied.
    pub fn load_program(&mut self, program: Vec<u8>) -> (res: Result<(), Fault>)
        requires
            old(self).wf(),
        ensures
            final(self).wf(),
            (final(self)@, res) == old(self)@.load(program@),
    {
        let len = program.len();
        if len > RAM - 0x200 {
            return Err(Fault::AddressOutOfRange);
        }
        let mut idx: usize = 0;
        while idx < len
            invariant
                len == program.len(),
                len <= 4096 - 0x200,
                idx <= len,
                *self == (CPU { memory: self.memory, ..*old(self) }),
                forall|a: int|
                    0 <= a < 4096 ==> self.memory[a] == if 0x200 <= a < 0x200 + idx {
                        program[a - 0x200]
                    } else {
                        old(self).memory[a]
                    },
            decreases len - idx,
        {
            self.memory[0x200 + idx] = program[idx];
            idx += 1;
        }
        assert(self@.memory =~= old(self)@.load(program@).0.memory);
        Ok(())
    }

    /// Executes the instruction in `opcode` and applies the action it asks
    /// for to the program counter. A fault leaves the machine as it was.
    /// Where the instruction draws a random byte, the outcome is that of
    /// the model on the byte drawn; no other instruction depends on it.
    pub fn process_opcode(&mut self) -> (res: Result<(), Fault>)
        requires
            old(self).wf(),
            old(self).pc + 2 * OPCODE_SIZE <= u16::MAX,
        ensures
            final(self).wf(),
            exists|entropy: u8| (final(self)@, res) == #[trigger] old(self)@.process(entropy),
    {
        proof {
            lemma_fields_by_mask(self.opcode);
        }
        let ghost mut entropy: u8 = 0;
        let outcome = match self.opcode & 0xF000 {
            0x0000 => self.x0nnn(),
            0x1000 => Ok(self.x1nnn()),
            0x2000 => self.x2nnn(),
            0x3000 => Ok(self.x3xkk()),
            0x4000 => Ok(self.x4xkk()),
            0x5000 => Ok(self.x5xy0()),
            0x6000 => Ok(self.x6xkk()),
            0x7000 => Ok(self.x7xkk()),
            0x8000 => self.x8xyn(),
            0x9000 => Ok(self.x9xy0()),
            0xA000 => Ok(self.xannn()),
            0xB000 => Ok(self.xbnnn()),
            0xC000 => {
                let action = self.xcxkk();
                proof {
                    entropy = choose|e: u8|
                        (self@, Ok::<ProgramCounter, Fault>(action)) == #[trigger] old(
                            self,
                        )@.random(e);
                }
                Ok(action)
            },
            0xD000 => self.xdxyn(),
            0xE000 => self.xennn(),
            _ => self.xfnnn(),
        };
        assert((self@, outcome) == old(self)@.execute(entropy));
        let res = match outcome {
            Ok(ProgramCounter::Next) => {
                self.pc += OPCODE_SIZE;
                Ok(())
            },
            Ok(ProgramCounter::Skip) => {
                self.pc += 2 * OPCODE_SIZE;
                Ok(())
            },
            Ok(ProgramCounter::Jump(addr)) => {
                self.pc = addr;
                Ok(())
            },
            Err(fault) => Err(fault),
        };
        assert((self@, res) == old(self)@.process(entropy));
        res
    }

    /// One fetch-decode-execute cycle: reads the big-endian word at the
    /// program counter into `opcode`, executes it and moves the program
    /// counter. A program counter that is odd, or at which no whole
    /// instruction lies in memory, is reported and nothing changes; a fault
    /// of the instruction leaves the fetched word in `opcode` and nothing
    /// else changed.
    pub fn fetch_and_process_opcode(&mut self) -> (res: Result<(), Fault>)
        requires
            old(self).wf(),
        ensures
            final(self).wf(),
            exists|entropy: u8| (final(self)@, res) == #[trigger] old(self)@.step(entropy),
    {
        let at = self.pc as usize;
        if at + 1 >= RAM {
            assert((self@, Err::<(), Fault>(Fault::AddressOutOfRange)) == old(self)@.step(0));
            return Err(Fault::AddressOutOfRange);
        }
        if at % 2 != 0 {
            assert((self@, Err::<(), Fault>(Fault::MisalignedProgramCounter)) == old(self)@.step(
                0,
            ));
            return Err(Fault::MisalignedProgramCounter);
        }
        let high = self.memory[at] as u16;
        let low = self.memory[at + 1] as u16;
        assert((high << 8 | low) == high * 256 + low) by (bit_vector)
            requires
                high < 256,
                low < 256,
        ;
        let opcode = high << 8 | low;
        self.opcode = opcode;
        let ghost fetched = self@;
        let res = self.process_opcode();
        proof {
            let entropy = choose|e: u8| (self@, res) == #[trigger] fetched.process(e);
            assert((self@, res) == old(self)@.step(entropy));
        }
        res
    }

    /// The lowest key of `keypad` that is down, if any is.
    pub fn first_key_down(keypad: &[bool; 16]) -> (key: Option<u8>)
        ensures
            key is None <==> no_key_pressed(keypad@),
            key matches Some(k) ==> is_first_pressed(keypad@, k as int) && first_pressed(keypad@)
                == k,
    {
        let mut i: u8 = 0;
        while i < 16
            invariant
                i <= 16,
                forall|j: int| 0 <= j < i ==> !keypad[j],
            decreases 16 - i,
        {
            if keypad[i as usize] {
                proof {
                    lemma_first_pressed(keypad@, i as int);
                }
                return Some(i);
            }
            i += 1;
        }
        None
    }

    /// Advances the machine by one tick, given the keys as they are now.
    /// The redraw flag is cleared and the keys are taken over. A machine
    /// that awaits a key then looks for the lowest key that is down: if
    /// there is one, its index goes to the awaited register and the wait is
    /// over; no instruction executes and no timer moves on such a tick. Any
    /// other machine performs one fetch-decode-execute cycle and then lowers
    /// each timer that is above zero by one. A fault of that cycle is
    /// returned at once, the timers untouched.
    pub fn tick(&mut self, keypad: [bool; 16]) -> (res: Result<(), Fault>)
        requires
            old(self).wf(),
        ensures
            final(self).wf(),
            exists|entropy: u8|
                (final(self)@, res) == #[trigger] old(self)@.tick(keypad@, entropy),
    {
        self.draw_screen = false;
        self.keypad = keypad;
        let ghost taken = self@;
        if self.keypad_waiting {
            match Self::first_key_down(&keypad) {
                Some(key) => {
                    self.keypad_waiting = false;
                    self.v[self.keypad_register as usize] = key;
                },
                None => {},
            }
            assert((self@, Ok::<(), Fault>(())) == old(self)@.tick(keypad@, 0));
            Ok(())
        } else {
            let stepped = self.fetch_and_process_opcode();
            let ghost entropy = choose|e: u8| (self@, stepped) == #[trigger] taken.step(e);
            match stepped {
                Ok(_) => {
                    if self.delay_timer > 0 {
                        self.delay_timer -= 1;
                    }
                    if self.sound_timer > 0 {
                        self.sound_timer -= 1;
                    }
                    assert((self@, Ok::<(), Fault>(())) == old(self)@.tick(keypad@, entropy));
                    Ok(())
                },
                Err(fault) => {
                    assert((self@, Err::<(), Fault>(fault)) == old(self)@.tick(keypad@, entropy));
                    Err(fault)
                },
            }
        }
    }
}

} // verus!
