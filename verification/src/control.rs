use crate::cpu::{ProgramCounter, CPU, OPCODE_SIZE};
use crate::fault::Fault;
use vstd::prelude::*;

verus! {

impl CPU {
    /// Family `0`: clears the screen for the word `00E0`, returns from a
    /// subroutine for the word `00EE`, and reports any other word as
    /// unknown, whatever its low byte.
    pub fn x0nnn(&mut self) -> (res: Result<ProgramCounter, Fault>)
        requires
            old(self).wf(),
        ensures
            final(self).wf(),
            (final(self)@, res) == old(self)@.system(),
    {
        match self.opcode {
            0x00E0 => Ok(self.x00e0()),
            0x00EE => self.x00ee(),
            _ => Err(Fault::UnknownInstruction { opcode: self.opcode, address: self.pc }),
        }
    }

    /// `00E0`: darkens every pixel and asks for a redraw.
    pub fn x00e0(&mut self) -> (action: ProgramCounter)
        requires
            old(self).wf(),
        ensures
            final(self).wf(),
            (final(self)@, Ok::<ProgramCounter, Fault>(action)) == old(self)@.clear_screen(),
            forall|r: int, c: int| 0 <= r < 32 && 0 <= c < 64 ==> final(self).display[r][c] == 0,
            final(self).draw_screen,
    {
        self.display = [[0u8; 64]; 32];
        self.draw_screen = true;
        assert(self@.display =~~= old(self)@.clear_screen().0.display);
        ProgramCounter::Next
    }

    /// `00EE`: pops the most recent return address and jumps to it; with no
    /// call outstanding it reports a stack underflow.
    pub fn x00ee(&mut self) -> (res: Result<ProgramCounter, Fault>)
        requires
            old(self).wf(),
        ensures
            final(self).wf(),
            (final(self)@, res) == old(self)@.subroutine_return(),
    {
        if self.sp == 0 {
            return Err(Fault::StackUnderflow);
        }
        self.sp -= 1;
        Ok(ProgramCounter::Jump(self.stack[self.sp as usize]))
    }

    /// `1nnn`: jumps to `nnn`.
    pub fn x1nnn(&mut self) -> (action: ProgramCounter)
        ensures
            *final(self) == *old(self),
            (final(self)@, Ok::<ProgramCounter, Fault>(action)) == old(self)@.jump(),
    {
        ProgramCounter::Jump(self.op_0nnn())
    }

    /// `2nnn`: pushes the address of the following instruction and jumps to
    /// `nnn`; with the stack full it reports a stack overflow.
    pub fn x2nnn(&mut self) -> (res: Result<ProgramCounter, Fault>)
        requires
            old(self).wf(),
            old(self).pc + OPCODE_SIZE <= u16::MAX,
        ensures
            final(self).wf(),
            (final(self)@, res) == old(self)@.call(),
    {
        if self.sp >= 16 {
            return Err(Fault::StackOverflow);
        }
        self.stack[self.sp as usize] = self.pc + OPCODE_SIZE;
        self.sp += 1;
        Ok(ProgramCounter::Jump(self.op_0nnn()))
    }

    /// `3xkk`: skips the next instruction when `Vx` equals `kk`.
    pub fn x3xkk(&mut self) -> (action: ProgramCounter)
        ensures
            *final(self) == *old(self),
            (final(self)@, Ok::<ProgramCounter, Fault>(action))
                == old(self)@.skip_equal_immediate(),
    {
        let x = self.op_0n00() as usize;
        let kk = self.op_00nn() as u8;
        ProgramCounter::skip_if(self.v[x] == kk)
    }

    /// `4xkk`: skips the next instruction when `Vx` differs from `kk`.
    pub fn x4xkk(&mut self) -> (action: ProgramCounter)
        ensures
            *final(self) == *old(self),
            (final(self)@, Ok::<ProgramCounter, Fault>(action))
                == old(self)@.skip_unequal_immediate(),
    {
        let x = self.op_0n00() as usize;
        let kk = self.op_00nn() as u8;
        ProgramCounter::skip_if(self.v[x] != kk)
    }

    /// `5xy0`: skips the next instruction when `Vx` equals `Vy`.
    pub fn x5xy0(&mut self) -> (action: ProgramCounter)
        ensures
            *final(self) == *old(self),
            (final(self)@, Ok::<ProgramCounter, Fault>(action))
                == old(self)@.skip_equal_registers(),
    {
        let x = self.op_0n00() as usize;
        let y = self.op_00n0() as usize;
        ProgramCounter::skip_if(self.v[x] == self.v[y])
    }

    /// `9xy0`: skips the next instruction when `Vx` differs from `Vy`.
    pub fn x9xy0(&mut self) -> (action: ProgramCounter)
        ensures
            *final(self) == *old(self),
            (final(self)@, Ok::<ProgramCounter, Fault>(action))
                == old(self)@.skip_unequal_registers(),
    {
        let x = self.op_0n00() as usize;
        let y = self.op_00n0() as usize;
        ProgramCounter::skip_if(self.v[x] != self.v[y])
    }

    /// `Bnnn`: jumps to `nnn + V0`.
    pub fn xbnnn(&mut self) -> (action: ProgramCounter)
        ensures
            *final(self) == *old(self),
            (final(self)@, Ok::<ProgramCounter, Fault>(action)) == old(self)@.jump_indexed(),
    {
        let addr = self.op_0nnn() + (self.v[0] as u16);
        ProgramCounter::Jump(addr)
    }

    /// Family `E`: skips on a key that is down for low byte `9E`, on a key
    /// that is up for low byte `A1`, and reports any other word as unknown.
    pub fn xennn(&mut self) -> (res: Result<ProgramCounter, Fault>)
        ensures
            *final(self) == *old(self),
            (final(self)@, res) == old(self)@.key_skip(),
    {
        let x = self.op_0n00() as usize;
        let low = self.op_00nn();
        if low == 0x009E {
            self.xex9e(x)
        } else if low == 0x00A1 {
            self.xexa1(x)
        } else {
            Err(Fault::UnknownInstruction { opcode: self.opcode, address: self.pc })
        }
    }

    /// `Ex9E`: skips the next instruction when the key that `Vx` names is
    /// down. A value of 16 or more names no key and is reported.
    pub fn xex9e(&mut self, x: usize) -> (res: Result<ProgramCounter, Fault>)
        requires
            x < 16,
        ensures
            *final(self) == *old(self),
            (final(self)@, res) == old(self)@.skip_on_key(x as int, true),
    {
        let vx = self.v[x] as usize;
        if vx >= 16 {
            return Err(Fault::KeyOutOfRange);
        }
        Ok(ProgramCounter::skip_if(self.keypad[vx]))
    }

    /// `ExA1`: skips the next instruction when the key that `Vx` names is
    /// up. A value of 16 or more names no key and is reported.
    pub fn xexa1(&mut self, x: usize) -> (res: Result<ProgramCounter, Fault>)
        requires
            x < 16,
        ensures
            *final(self) == *old(self),
            (final(self)@, res) == old(self)@.skip_on_key(x as int, false),
    {
        let vx = self.v[x] as usize;
        if vx >= 16 {
            return Err(Fault::KeyOutOfRange);
        }
        Ok(ProgramCounter::skip_if(!self.keypad[vx]))
    }
}

} // verus!
