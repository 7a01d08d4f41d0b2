use crate::cpu::{ProgramCounter, CPU};
use crate::fault::Fault;
use crate::machine::{alu_value, field_kk, field_x};
use vstd::prelude::*;

verus! {

/// One byte from the thread-local generator of the `rand` crate, by its
/// function `random`. The generator is seeded from the operating system, so
/// nothing is claimed of the byte.
#[verifier::external_body]
fn random_byte() -> (byte: u8) {
    rand::random::<u8>()
}

impl CPU {
    /// `6xkk`: loads `kk` into `Vx`.
    pub fn x6xkk(&mut self) -> (action: ProgramCounter)
        requires
            old(self).wf(),
        ensures
            final(self).wf(),
            (final(self)@, Ok::<ProgramCounter, Fault>(action)) == old(self)@.load_immediate(),
            final(self).v[field_x(old(self).opcode)] == field_kk(old(self).opcode),
    {
        let x = self.op_0n00() as usize;
        let kk = self.op_00nn() as u8;
        self.v[x] = kk;
        ProgramCounter::Next
    }

    /// `7xkk`: adds `kk` to `Vx`, wrapping at 256 and writing no flag.
    pub fn x7xkk(&mut self) -> (action: ProgramCounter)
        requires
            old(self).wf(),
        ensures
            final(self).wf(),
            (final(self)@, Ok::<ProgramCounter, Fault>(action)) == old(self)@.add_immediate(),
    {
        let x = self.op_0n00() as usize;
        let kk = self.op_00nn() as u8;
        let vx = self.v[x];
        self.v[x] = vx.wrapping_add(kk);
        ProgramCounter::Next
    }

    /// Family `8`: computes the result of the arithmetic instruction that
    /// the low nibble selects and stores it in `Vx`, after the flag. Low
    /// nibbles 8 to D and F select nothing and are reported as unknown.
    pub fn x8xyn(&mut self) -> (res: Result<ProgramCounter, Fault>)
        requires
            old(self).wf(),
        ensures
            final(self).wf(),
            (final(self)@, res) == old(self)@.arithmetic(),
    {
        let x = self.op_0n00() as usize;
        let y = self.op_00n0() as usize;
        let val = match self.op_000n() {
            0x0000 => self.x8xy0(x, y),
            0x0001 => self.x8xy1(x, y),
            0x0002 => self.x8xy2(x, y),
            0x0003 => self.x8xy3(x, y),
            0x0004 => self.x8xy4(x, y),
            0x0005 => self.x8xy5(x, y),
            0x0006 => self.x8xy6(x, y),
            0x0007 => self.x8xy7(x, y),
            0x000E => self.x8xye(x, y),
            _ => {
                return Err(Fault::UnknownInstruction { opcode: self.opcode, address: self.pc });
            },
        };
        self.v[x] = val;
        Ok(ProgramCounter::Next)
    }

    /// `8xy0`: the value of `Vy`.
    pub fn x8xy0(&mut self, x: usize, y: usize) -> (val: u8)
        requires
            x < 16,
            y < 16,
        ensures
            *final(self) == *old(self),
            val == alu_value(0, old(self).v[x as int], old(self).v[y as int]),
    {
        self.v[y]
    }

    /// `8xy1`: the bitwise or of `Vx` and `Vy`.
    pub fn x8xy1(&mut self, x: usize, y: usize) -> (val: u8)
        requires
            x < 16,
            y < 16,
        ensures
            *final(self) == *old(self),
            val == alu_value(1, old(self).v[x as int], old(self).v[y as int]),
    {
        self.v[x] | self.v[y]
    }

    /// `8xy2`: the bitwise and of `Vx` and `Vy`.
    pub fn x8xy2(&mut self, x: usize, y: usize) -> (val: u8)
        requires
            x < 16,
            y < 16,
        ensures
            *final(self) == *old(self),
            val == alu_value(2, old(self).v[x as int], old(self).v[y as int]),
    {
        self.v[x] & self.v[y]
    }

    /// `8xy3`: the bitwise exclusive or of `Vx` and `Vy`.
    pub fn x8xy3(&mut self, x: usize, y: usize) -> (val: u8)
        requires
            x < 16,
            y < 16,
        ensures
            *final(self) == *old(self),
            val == alu_value(3, old(self).v[x as int], old(self).v[y as int]),
    {
        self.v[x] ^ self.v[y]
    }

    /// `8xy4`: the sum of `Vx` and `Vy` modulo 256; `VF` becomes 1 when the
    /// sum exceeds 255 and 0 otherwise.
    pub fn x8xy4(&mut self, x: usize, y: usize) -> (val: u8)
        requires
            old(self).wf(),
            x < 16,
            y < 16,
        ensures
            final(self).wf(),
            final(self)@ == old(self)@.alu_flagged(4, x as int, y as int),
            val == alu_value(4, old(self).v[x as int], old(self).v[y as int]),
    {
        let vx = self.v[x] as u16;
        let vy = self.v[y] as u16;
        let sum: u16 = vx + vy;
        self.v[0x0F] = if sum > 0xFF { 1 } else { 0 };
        assert(0x00FF & sum == sum % 256) by (bit_vector);
        (0x00FF & sum) as u8
    }

    /// `8xy5`: `Vx - Vy` modulo 256; `VF` becomes 1 when `Vx` is strictly
    /// greater than `Vy` and 0 otherwise.
    pub fn x8xy5(&mut self, x: usize, y: usize) -> (val: u8)
        requires
            old(self).wf(),
            x < 16,
            y < 16,
        ensures
            final(self).wf(),
            final(self)@ == old(self)@.alu_flagged(5, x as int, y as int),
            val == alu_value(5, old(self).v[x as int], old(self).v[y as int]),
    {
        let vx = self.v[x];
        let vy = self.v[y];
        self.v[0x0F] = if vx > vy { 1 } else { 0 };
        vx.wrapping_sub(vy)
    }

    /// `8xy6`: `Vx` shifted right by one; `VF` becomes the bit shifted out.
    /// `Vy` takes no part.
    pub fn x8xy6(&mut self, x: usize, _y: usize) -> (val: u8)
        requires
            old(self).wf(),
            x < 16,
        ensures
            final(self).wf(),
            final(self)@ == old(self)@.alu_flagged(6, x as int, _y as int),
            val == alu_value(6, old(self).v[x as int], old(self).v[_y as int]),
    {
        let vx = self.v[x];
        assert(vx & 0x01 == vx % 2 && vx >> 1 == vx / 2) by (bit_vector);
        self.v[0x0F] = vx & 0x0001;
        vx >> 1
    }

    /// `8xy7`: `Vy - Vx` modulo 256; `VF` becomes 1 when `Vy` is strictly
    /// greater than `Vx` and 0 otherwise.
    pub fn x8xy7(&mut self, x: usize, y: usize) -> (val: u8)
        requires
            old(self).wf(),
            x < 16,
            y < 16,
        ensures
            final(self).wf(),
            final(self)@ == old(self)@.alu_flagged(7, x as int, y as int),
            val == alu_value(7, old(self).v[x as int], old(self).v[y as int]),
    {
        let vx = self.v[x];
        let vy = self.v[y];
        self.v[0x0F] = if vy > vx { 1 } else { 0 };
        vy.wrapping_sub(vx)
    }

    /// `8xyE`: `Vx` shifted left by one, modulo 256; `VF` becomes the bit
    /// shifted out. `Vy` takes no part.
    pub fn x8xye(&mut self, x: usize, _y: usize) -> (val: u8)
        requires
            old(self).wf(),
            x < 16,
        ensures
            final(self).wf(),
            final(self)@ == old(self)@.alu_flagged(14, x as int, _y as int),
            val == alu_value(14, old(self).v[x as int], old(self).v[_y as int]),
    {
        let vx = self.v[x];
        assert((vx & 0x80) >> 7 == vx / 128 && vx << 1 == (vx * 2) % 256) by (bit_vector);
        self.v[0x0F] = (vx & 0b1000_0000) >> 7;
        vx << 1
    }

    /// `Annn`: loads `nnn` into `I`.
    pub fn xannn(&mut self) -> (action: ProgramCounter)
        requires
            old(self).wf(),
        ensures
            final(self).wf(),
            (final(self)@, Ok::<ProgramCounter, Fault>(action)) == old(self)@.load_index(),
    {
        self.i = self.op_0nnn();
        ProgramCounter::Next
    }

    /// `Cxkk`: draws a random byte and loads it, masked by `kk`, into `Vx`.
    /// Whatever byte is drawn, the outcome is that of `xcxkk_from` on it.
    pub fn xcxkk(&mut self) -> (action: ProgramCounter)
        requires
            old(self).wf(),
        ensures
            final(self).wf(),
            exists|entropy: u8|
                (final(self)@, Ok::<ProgramCounter, Fault>(action)) == #[trigger] old(
                    self,
                )@.random(entropy),
    {
        let r = random_byte();
        let action = self.xcxkk_from(r);
        assert((self@, Ok::<ProgramCounter, Fault>(action)) == old(self)@.random(r));
        action
    }

    /// `Cxkk` once the byte `r` has been drawn: loads `r & kk` into `Vx`.
    pub fn xcxkk_from(&mut self, r: u8) -> (action: ProgramCounter)
        requires
            old(self).wf(),
        ensures
            final(self).wf(),
            (final(self)@, Ok::<ProgramCounter, Fault>(action)) == old(self)@.random(r),
    {
        let x = self.op_0n00() as usize;
        let kk = self.op_00nn();
        self.v[x] = r & (kk as u8);
        ProgramCounter::Next
    }
}

} // verus!
