use crate::cpu::{ProgramCounter, CPU};
use crate::fault::Fault;
use vstd::prelude::*;

verus! {

impl CPU {
    /// Family `F`: performs the instruction that the low byte selects and
    /// moves on to the next one. A low byte that selects nothing is reported
    /// as unknown.
    pub fn xfnnn(&mut self) -> (res: Result<ProgramCounter, Fault>)
        requires
            old(self).wf(),
        ensures
            final(self).wf(),
            (final(self)@, res) == old(self)@.miscellaneous(),
    {
        let x = self.op_0n00() as usize;
        let done: Result<(), Fault> = match self.op_00nn() {
            0x0007 => {
                self.xfx07(x);
                Ok(())
            },
            0x000A => {
                self.xfx0a(x);
                Ok(())
            },
            0x0015 => {
                self.xfx15(x);
                Ok(())
            },
            0x0018 => {
                self.xfx18(x);
                Ok(())
            },
            0x001E => self.xfx1e(x),
            0x0029 => {
                self.xfx29(x);
                Ok(())
            },
            0x0030 => {
                self.xfx30(x);
                Ok(())
            },
            0x0033 => self.xfx33(x),
            0x0055 => self.xfx55(x),
            0x0065 => self.xfx65(x),
            _ => Err(Fault::UnknownInstruction { opcode: self.opcode, address: self.pc }),
        };
        match done {
            Ok(_) => Ok(ProgramCounter::Next),
            Err(fault) => Err(fault),
        }
    }

    /// `Fx07`: loads the delay timer into `Vx`.
    pub fn xfx07(&mut self, x: usize)
        requires
            old(self).wf(),
            x < 16,
        ensures
            final(self).wf(),
            final(self)@ == old(self)@.read_delay(x as int),
    {
        self.v[x] = self.delay_timer;
    }

    /// `Fx0A`: blocks the machine until a key is pressed, and names `Vx` as
    /// the register that the key goes to.
    pub fn xfx0a(&mut self, x: usize)
        requires
            old(self).wf(),
            x < 16,
        ensures
            final(self).wf(),
            final(self)@ == old(self)@.await_key(x as int),
    {
        self.keypad_waiting = true;
        self.keypad_register = x as u16;
    }

    /// `Fx15`: loads `Vx` into the delay timer.
    pub fn xfx15(&mut self, x: usize)
        requires
            old(self).wf(),
            x < 16,
        ensures
            final(self).wf(),
            final(self)@ == old(self)@.set_delay(x as int),
    {
        self.delay_timer = self.v[x];
    }

    /// `Fx18`: loads `Vx` into the sound timer.
    pub fn xfx18(&mut self, x: usize)
        requires
            old(self).wf(),
            x < 16,
        ensures
            final(self).wf(),
            final(self)@ == old(self)@.set_sound(x as int),
    {
        self.sound_timer = self.v[x];
    }

    /// `Fx1E`: adds `Vx` to `I`; `VF` becomes 1 when `I` then exceeds 0x0F00
    /// and 0 otherwise. A sum beyond sixteen bits is reported instead.
    pub fn xfx1e(&mut self, x: usize) -> (res: Result<(), Fault>)
        requires
            old(self).wf(),
            x < 16,
        ensures
            final(self).wf(),
            (final(self)@, res) == old(self)@.add_to_index(x as int),
    {
        match self.i.checked_add(self.v[x] as u16) {
            Some(sum) => {
                self.i = sum;
                self.v[0x0F] = if sum > 0x0F00 { 1 } else { 0 };
                Ok(())
            },
            None => Err(Fault::AddressOutOfRange),
        }
    }

    /// `Fx29`: points `I` at the glyph for the digit in `Vx`.
    pub fn xfx29(&mut self, x: usize)
        requires
            old(self).wf(),
            x < 16,
        ensures
            final(self).wf(),
            final(self)@ == old(self)@.point_at_glyph(x as int),
    {
        self.i = (self.v[x] as u16) * 5;
    }

    /// `Fx30`: points `I` at the large glyph for the digit in `Vx`.
    pub fn xfx30(&mut self, x: usize)
        requires
            old(self).wf(),
            x < 16,
        ensures
            final(self).wf(),
            final(self)@ == old(self)@.point_at_large_glyph(x as int),
    {
        self.i = (self.v[x] as u16) * 10;
    }

    /// `Fx33`: stores the decimal digits of `Vx`, hundreds first, in the
    /// three bytes at `I`. Bytes beyond the end of memory are reported and
    /// nothing is stored.
    pub fn xfx33(&mut self, x: usize) -> (res: Result<(), Fault>)
        requires
            old(self).wf(),
            x < 16,
        ensures
            final(self).wf(),
            (final(self)@, res) == old(self)@.store_decimal(x as int),
    {
        let vx = self.v[x];
        let i = self.i as usize;
        if i + 3 > 4096 {
            return Err(Fault::AddressOutOfRange);
        }
        self.memory[i] = vx / 100;
        self.memory[i + 1] = (vx % 100) / 10;
        self.memory[i + 2] = vx % 10;
        Ok(())
    }

    /// `Fx55`: stores `V0` to `Vx` in memory from `I` upward. Bytes beyond
    /// the end of memory are reported and nothing is stored.
    pub fn xfx55(&mut self, x: usize) -> (res: Result<(), Fault>)
        requires
            old(self).wf(),
            x < 16,
        ensures
            final(self).wf(),
            (final(self)@, res) == old(self)@.store_registers(x as int),
    {
        let at = self.i as usize;
        if at + x + 1 > 4096 {
            return Err(Fault::AddressOutOfRange);
        }
        let mut i: usize = 0;
        while i <= x
            invariant
                x < 16,
                at + x + 1 <= 4096,
                i <= x + 1,
                at == old(self).i,
                *self == (CPU { memory: self.memory, ..*old(self) }),
                forall|a: int|
                    0 <= a < 4096 ==> self.memory[a] == if at <= a < at + i {
                        old(self).v[a - at]
                    } else {
                        old(self).memory[a]
                    },
            decreases x + 1 - i,
        {
            self.memory[at + i] = self.v[i];
            i += 1;
        }
        assert(self@.memory =~= old(self)@.store_registers(x as int).0.memory);
        Ok(())
    }

    /// `Fx65`: loads `V0` to `Vx` from memory at `I` upward. Bytes beyond
    /// the end of memory are reported and nothing is loaded.
    pub fn xfx65(&mut self, x: usize) -> (res: Result<(), Fault>)
        requires
            old(self).wf(),
            x < 16,
        ensures
            final(self).wf(),
            (final(self)@, res) == old(self)@.load_registers(x as int),
    {
        let at = self.i as usize;
        if at + x + 1 > 4096 {
            return Err(Fault::AddressOutOfRange);
        }
        let mut i: usize = 0;
        while i <= x
            invariant
                x < 16,
                at + x + 1 <= 4096,
                i <= x + 1,
                at == old(self).i,
                *self == (CPU { v: self.v, ..*old(self) }),
                forall|r: int|
                    0 <= r < 16 ==> self.v[r] == if r < i {
                        old(self).memory[at + r]
                    } else {
                        old(self).v[r]
                    },
            decreases x + 1 - i,
        {
            self.v[i] = self.memory[at + i];
            i += 1;
        }
        assert(self@.registers =~= old(self)@.load_registers(x as int).0.registers);
        Ok(())
    }
}

} // verus!
