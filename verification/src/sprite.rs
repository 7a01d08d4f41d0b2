use crate::cpu::{ProgramCounter, CPU};
use crate::fault::Fault;
use crate::machine::{field_n, sprite_row_bit, Machine};
use vstd::prelude::*;

verus! {

/// Whether the sprite of `m` inverts the pixel at row `r`, column `c`, and
/// does so through one of its pixels that come before pixel `bits` of its
/// row `rows`, rows counted from the top and pixels from the left.
#[verifier::opaque]
spec fn covered_before(m: Machine, r: int, c: int, rows: int, bits: int) -> bool {
    let row = (r - m.vy()) % 32;
    let col = (c - m.vx()) % 64;
    m.sprite_covers(r, c) && (row < rows || (row == rows && col < bits))
}

/// Pixel `bits` of sprite row `rows` lands on row `r0`, column `c0` of the
/// display and on no other pixel, and no earlier sprite pixel lands there.
proof fn lemma_cover_step(m: Machine, rows: int, bits: int, r0: int, c0: int)
    requires
        0 <= rows < field_n(m.opcode),
        0 <= bits < 8,
        r0 == (m.vy() + rows) % 32,
        c0 == (m.vx() + bits) % 64,
    ensures
        0 <= r0 < 32,
        0 <= c0 < 64,
        (r0 - m.vy()) % 32 == rows,
        (c0 - m.vx()) % 64 == bits,
        m.sprite_covers(r0, c0) == sprite_row_bit(m.memory[m.index + rows], bits),
        !covered_before(m, r0, c0, rows, bits),
        covered_before(m, r0, c0, rows, bits + 1) == m.sprite_covers(r0, c0),
        forall|r: int, c: int|
            0 <= r < 32 && 0 <= c < 64 && !(r == r0 && c == c0) ==> #[trigger] covered_before(
                m,
                r,
                c,
                rows,
                bits + 1,
            ) == covered_before(m, r, c, rows, bits),
{
    reveal(covered_before);
}

/// Whether one of the sprite pixels before pixel `bits` of row `rows` falls
/// on a pixel of the display that is lit.
#[verifier::opaque]
spec fn collides_before(m: Machine, rows: int, bits: int) -> bool {
    exists|r: int, c: int|
        0 <= r < 32 && 0 <= c < 64 && m.display[r][c] && #[trigger] covered_before(
            m,
            r,
            c,
            rows,
            bits,
        )
}

/// Taking in one more sprite pixel adds a collision exactly when that pixel
/// is set and lands on a lit pixel.
proof fn lemma_collision_step(m: Machine, rows: int, bits: int, r0: int, c0: int)
    requires
        0 <= rows < 32,
        0 <= bits < 8,
        0 <= r0 < 32,
        0 <= c0 < 64,
        (r0 - m.vy()) % 32 == rows,
        (c0 - m.vx()) % 64 == bits,
    ensures
        collides_before(m, rows, bits + 1) == (collides_before(m, rows, bits) || (m.display[r0][c0]
            && m.sprite_covers(r0, c0))),
{
    reveal(covered_before);
    reveal(collides_before);
    if collides_before(m, rows, bits + 1) {
        let (r, c) = choose|r: int, c: int|
            0 <= r < 32 && 0 <= c < 64 && m.display[r][c] && #[trigger] covered_before(
                m,
                r,
                c,
                rows,
                bits + 1,
            );
        if (r - m.vy()) % 32 == rows && (c - m.vx()) % 64 == bits {
            assert(r == r0);
            assert(c == c0);
        } else {
            assert(covered_before(m, r, c, rows, bits));
        }
    }
    if collides_before(m, rows, bits) {
        let (r, c) = choose|r: int, c: int|
            0 <= r < 32 && 0 <= c < 64 && m.display[r][c] && #[trigger] covered_before(
                m,
                r,
                c,
                rows,
                bits,
            );
        assert(covered_before(m, r, c, rows, bits + 1));
    }
    if m.display[r0][c0] && m.sprite_covers(r0, c0) {
        assert(covered_before(m, r0, c0, rows, bits + 1));
    }
}

/// A row that has been taken in whole is the start of the next one.
proof fn lemma_collision_next_row(m: Machine, rows: int)
    ensures
        collides_before(m, rows, 8) == collides_before(m, rows + 1, 0),
        forall|r: int, c: int| #[trigger]
            covered_before(m, r, c, rows, 8) == covered_before(m, r, c, rows + 1, 0),
{
    reveal(covered_before);
    reveal(collides_before);
    if collides_before(m, rows, 8) {
        let (r, c) = choose|r: int, c: int|
            0 <= r < 32 && 0 <= c < 64 && m.display[r][c] && #[trigger] covered_before(
                m,
                r,
                c,
                rows,
                8,
            );
        assert(covered_before(m, r, c, rows + 1, 0));
    }
    if collides_before(m, rows + 1, 0) {
        let (r, c) = choose|r: int, c: int|
            0 <= r < 32 && 0 <= c < 64 && m.display[r][c] && #[trigger] covered_before(
                m,
                r,
                c,
                rows + 1,
                0,
            );
        assert(covered_before(m, r, c, rows, 8));
    }
}

/// Once every row has been taken in, the collisions found are those of the
/// whole sprite; before the first, there is none.
proof fn lemma_collision_ends(m: Machine)
    ensures
        !collides_before(m, 0, 0),
        collides_before(m, field_n(m.opcode), 0) == m.sprite_collides(),
        forall|r: int, c: int| !#[trigger] covered_before(m, r, c, 0, 0),
        forall|r: int, c: int| #[trigger]
            covered_before(m, r, c, field_n(m.opcode), 0) == m.sprite_covers(r, c),
{
    reveal(covered_before);
    reveal(collides_before);
    let n = field_n(m.opcode);
    if collides_before(m, n, 0) {
        let (r, c) = choose|r: int, c: int|
            0 <= r < 32 && 0 <= c < 64 && m.display[r][c] && #[trigger] covered_before(
                m,
                r,
                c,
                n,
                0,
            );
        assert(m.sprite_covers(r, c));
    }
    if m.sprite_collides() {
        let (r, c) = choose|r: int, c: int|
            0 <= r < 32 && 0 <= c < 64 && m.display[r][c] && #[trigger] m.sprite_covers(r, c);
        assert(covered_before(m, r, c, n, 0));
    }
}

/// Exclusive or, and, and or on pixel values, which are 0 or 1.
proof fn lemma_pixel_bits(row: u8, shift: u8, pixel: u8, flag: u8)
    requires
        shift < 8,
        pixel <= 1,
        flag <= 1,
    ensures
        ({
            let color = (row >> shift) & 1;
            &&& color <= 1
            &&& pixel ^ color <= 1
            &&& (pixel ^ color != 0) == ((pixel != 0) != (color == 1))
            &&& flag | (color & pixel) <= 1
            &&& (flag | (color & pixel) == 1) == (flag == 1 || (color == 1 && pixel != 0))
        }),
{
    assert({
        let color = (row >> shift) & 1;
        &&& color <= 1
        &&& pixel ^ color <= 1
        &&& (pixel ^ color != 0) == ((pixel != 0) != (color == 1))
        &&& flag | (color & pixel) <= 1
        &&& (flag | (color & pixel) == 1) == (flag == 1 || (color == 1 && pixel != 0))
    }) by (bit_vector)
        requires
            shift < 8,
            pixel <= 1,
            flag <= 1,
    ;
}

impl CPU {
    /// `Dxyn`: draws the `n`-row sprite at `I` with its top left corner at
    /// column `Vx`, row `Vy`. Each set sprite pixel inverts the pixel it
    /// lands on, wrapping round both edges of the display; `VF` becomes 1
    /// when a lit pixel went dark and 0 otherwise, and a redraw is due.
    /// Sprite rows beyond the end of memory are reported and nothing is
    /// drawn.
    pub fn xdxyn(&mut self) -> (res: Result<ProgramCounter, Fault>)
        requires
            old(self).wf(),
        ensures
            final(self).wf(),
            (final(self)@, res) == old(self)@.draw(),
    {
        let x = self.op_0n00() as usize;
        let y = self.op_00n0() as usize;
        let n = self.op_000n() as usize;
        let at = self.i as usize;
        if n > 0 && at + n > 4096 {
            return Err(Fault::AddressOutOfRange);
        }
        let vx = self.v[x] as usize;
        let vy = self.v[y] as usize;
        let ghost m = old(self)@;
        self.v[0x0f] = 0;
        proof {
            lemma_collision_ends(m);
        }
        let mut byte: usize = 0;
        while byte < n
            invariant
                old(self).wf(),
                m == old(self)@,
                n == field_n(m.opcode),
                n < 16,
                n == 0 || at + n <= 4096,
                at == m.index,
                vx == m.vx(),
                vy == m.vy(),
                byte <= n,
                *self == (CPU { v: self.v, display: self.display, ..*old(self) }),
                self.v@ == old(self).v@.update(15, self.v[15]),
                self.v[15] <= 1,
                (self.v[15] == 1) == collides_before(m, byte as int, 0),
                forall|r: int, c: int|
                    0 <= r < 32 && 0 <= c < 64 ==> #[trigger] self.display[r][c] <= 1 && (
                    self.display[r][c] != 0) == (m.display[r][c] != covered_before(
                        m,
                        r,
                        c,
                        byte as int,
                        0,
                    )),
            decreases n - byte,
        {
            let row = (vy + byte) % 32;
            let mut bit: u8 = 0;
            while bit < 8
                invariant
                    old(self).wf(),
                    m == old(self)@,
                    n == field_n(m.opcode),
                    n < 16,
                    at + n <= 4096,
                    at == m.index,
                    vx == m.vx(),
                    vy == m.vy(),
                    byte < n,
                    bit <= 8,
                    row == (vy + byte) % 32,
                    *self == (CPU { v: self.v, display: self.display, ..*old(self) }),
                    self.v@ == old(self).v@.update(15, self.v[15]),
                    self.v[15] <= 1,
                    (self.v[15] == 1) == collides_before(m, byte as int, bit as int),
                    forall|r: int, c: int|
                        0 <= r < 32 && 0 <= c < 64 ==> #[trigger] self.display[r][c] <= 1 && (
                        self.display[r][c] != 0) == (m.display[r][c] != covered_before(
                            m,
                            r,
                            c,
                            byte as int,
                            bit as int,
                        )),
                decreases 8 - bit,
            {
                let col = (vx + bit as usize) % 64;
                let sprite_row = self.memory[at + byte];
                let pixel = self.display[row][col];
                let flag = self.v[0x0f];
                let color = (sprite_row >> (7 - bit)) & 1;
                proof {
                    lemma_pixel_bits(sprite_row, (7 - bit) as u8, pixel, flag);
                    lemma_cover_step(m, byte as int, bit as int, row as int, col as int);
                    lemma_collision_step(m, byte as int, bit as int, row as int, col as int);
                }
                self.v[0x0f] = flag | (color & pixel);
                self.display[row][col] = pixel ^ color;
                bit += 1;
            }
            proof {
                lemma_collision_next_row(m, byte as int);
            }
            byte += 1;
        }
        self.draw_screen = true;
        proof {
            assert(self@.display =~~= m.drawn_display());
            assert(self@.registers =~= m.draw().0.registers);
        }
        Ok(ProgramCounter::Next)
    }
}

} // verus!
