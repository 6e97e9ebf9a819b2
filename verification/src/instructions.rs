//! The instructions, one function each.
//!
//! Each function changes the machine as its instruction says and returns what
//! is to be done with the program counter; none moves the program counter
//! itself. Register selectors are below 16. An instruction that cannot be
//! executed leaves the machine as it was.

use vstd::prelude::*;
use crate::cpu::{display_view, Cpu, WaitState};
use crate::display::{
    display_wf, lemma_blit_wf, lemma_partial_collides_rows, lemma_partial_collides_step,
    lemma_partial_pixel_rows, lemma_partial_pixel_step, lemma_pixel_xor, lemma_sprite_bit_range,
    partial_collides, partial_pixel, sprite_bit, SCREEN_HEIGHT, SCREEN_WIDTH, SPRITE_WIDTH,
};
use crate::font::GLYPH_SIZE;
use crate::machine::{
    skip_if, Fault, MachineState, ProgramCounterChange, FLAG_REGISTER, MEMORY_SIZE, STACK_LIMIT,
};
use crate::keyboard::is_pressed;
use crate::random::random_byte;

verus! {

/// The lowest bit, the highest bit and the low nibble of a byte, as
/// arithmetic.
proof fn lemma_byte_bits(a: u8)
    by (bit_vector)
    ensures
        a & 1 == a % 2,
        (a & 0x80) >> 7 == a / 128,
        a & 0x0F == a % 16,
{
}

/// Truncating a 16-bit value to a byte keeps it modulo 256.
proof fn lemma_truncate(w: u16)
    by (bit_vector)
    ensures
        w as u8 == w % 256,
{
}

impl Cpu {
    /// `00E0`: a call into machine code. Nothing happens.
    pub fn op_00e0(&mut self) -> (change: ProgramCounterChange)
        ensures
            change == ProgramCounterChange::Next,
            *final(self) == *old(self),
    {
        ProgramCounterChange::Next
    }

    /// `00EE`: takes the top of the stack off and jumps to it. On an empty
    /// stack: `StackUnderflow`.
    pub fn op_00ee(&mut self) -> (change: Result<ProgramCounterChange, Fault>)
        requires
            old(self).wf(),
        ensures
            final(self).wf(),
            old(self)@.can_return() ==> change == Ok::<ProgramCounterChange, Fault>(
                ProgramCounterChange::Jump(old(self)@.return_address()),
            ) && final(self)@ == old(self)@.popped(),
            !old(self)@.can_return() ==> change == Err::<ProgramCounterChange, Fault>(
                Fault::StackUnderflow,
            ) && final(self)@ == old(self)@,
    {
        if self.sp == 0 {
            return Err(Fault::StackUnderflow);
        }
        self.sp = self.sp - 1;
        Ok(ProgramCounterChange::Jump(self.stack[self.sp as usize]))
    }

    /// `1nnn`: jumps to `nnn`.
    pub fn op_1nnn(&mut self, nnn: usize) -> (change: ProgramCounterChange)
        requires
            nnn < 0x1000,
        ensures
            change == ProgramCounterChange::Jump(nnn as u16),
            *final(self) == *old(self),
    {
        ProgramCounterChange::Jump(nnn as u16)
    }

    /// `2nnn`: puts the program counter on the stack and jumps to `nnn`.
    /// With the stack pointer at its limit: `StackOverflow`.
    pub fn op_2nnn(&mut self, nnn: usize) -> (change: Result<ProgramCounterChange, Fault>)
        requires
            old(self).wf(),
            nnn < 0x1000,
        ensures
            final(self).wf(),
            old(self)@.can_call() ==> change == Ok::<ProgramCounterChange, Fault>(
                ProgramCounterChange::Jump(nnn as u16),
            ) && final(self)@ == old(self)@.pushed(),
            !old(self)@.can_call() ==> change == Err::<ProgramCounterChange, Fault>(
                Fault::StackOverflow,
            ) && final(self)@ == old(self)@,
    {
        if self.sp >= STACK_LIMIT {
            return Err(Fault::StackOverflow);
        }
        self.stack[self.sp as usize] = self.pc;
        self.sp = self.sp + 1;
        Ok(ProgramCounterChange::Jump(nnn as u16))
    }

    /// `3xkk`: skip if `Vx == kk`.
    pub fn op_3xkk(&mut self, x: usize, kk: u8) -> (change: ProgramCounterChange)
        requires
            x < 16,
        ensures
            change == skip_if(old(self).v[x as int] == kk),
            *final(self) == *old(self),
    {
        if self.v[x] == kk {
            return ProgramCounterChange::Skip;
        }
        ProgramCounterChange::Next
    }

    /// `4xkk`: skip if `Vx != kk`.
    pub fn op_4xkk(&mut self, x: usize, kk: u8) -> (change: ProgramCounterChange)
        requires
            x < 16,
        ensures
            change == skip_if(old(self).v[x as int] != kk),
            *final(self) == *old(self),
    {
        if self.v[x] != kk {
            return ProgramCounterChange::Skip;
        }
        ProgramCounterChange::Next
    }

    /// `5xy0`: skip if `Vx == Vy`.
    pub fn op_5xy0(&mut self, x: usize, y: usize) -> (change: ProgramCounterChange)
        requires
            x < 16,
            y < 16,
        ensures
            change == skip_if(old(self).v[x as int] == old(self).v[y as int]),
            *final(self) == *old(self),
    {
        if self.v[x] == self.v[y] {
            return ProgramCounterChange::Skip;
        }
        ProgramCounterChange::Next
    }

    /// `6xkk`: `Vx = kk`.
    pub fn op_6xkk(&mut self, x: usize, kk: u8) -> (change: ProgramCounterChange)
        requires
            old(self).wf(),
            x < 16,
        ensures
            final(self).wf(),
            change == ProgramCounterChange::Next,
            final(self)@ == old(self)@.with_register(x as int, kk),
    {
        self.v[x] = kk;
        ProgramCounterChange::Next
    }

    /// `7xkk`: `Vx = Vx + kk` modulo 256. The flag is not touched.
    pub fn op_7xkk(&mut self, x: usize, kk: u8) -> (change: ProgramCounterChange)
        requires
            old(self).wf(),
            x < 16,
        ensures
            final(self).wf(),
            change == ProgramCounterChange::Next,
            final(self)@ == old(self)@.add_byte(x as int, kk),
    {
        self.v[x] = self.v[x].wrapping_add(kk);
        ProgramCounterChange::Next
    }

    /// `8xy0`: `Vx = Vy`.
    pub fn op_8xy0(&mut self, x: usize, y: usize) -> (change: ProgramCounterChange)
        requires
            old(self).wf(),
            x < 16,
            y < 16,
        ensures
            final(self).wf(),
            change == ProgramCounterChange::Next,
            final(self)@ == old(self)@.with_register(x as int, old(self).v[y as int]),
    {
        self.v[x] = self.v[y];
        ProgramCounterChange::Next
    }

    /// `8xy1`: `Vx = Vx | Vy`. The flag is not touched.
    pub fn op_8xy1(&mut self, x: usize, y: usize) -> (change: ProgramCounterChange)
        requires
            old(self).wf(),
            x < 16,
            y < 16,
        ensures
            final(self).wf(),
            change == ProgramCounterChange::Next,
            final(self)@ == old(self)@.with_register(
                x as int,
                old(self).v[x as int] | old(self).v[y as int],
            ),
    {
        self.v[x] = self.v[x] | self.v[y];
        ProgramCounterChange::Next
    }

    /// `8xy2`: `Vx = Vx & Vy`. The flag is not touched.
    pub fn op_8xy2(&mut self, x: usize, y: usize) -> (change: ProgramCounterChange)
        requires
            old(self).wf(),
            x < 16,
            y < 16,
        ensures
            final(self).wf(),
            change == ProgramCounterChange::Next,
            final(self)@ == old(self)@.with_register(
                x as int,
                old(self).v[x as int] & old(self).v[y as int],
            ),
    {
        self.v[x] = self.v[x] & self.v[y];
        ProgramCounterChange::Next
    }

    /// `8xy3`: `Vx = Vx ^ Vy`. The flag is not touched.
    pub fn op_8xy3(&mut self, x: usize, y: usize) -> (change: ProgramCounterChange)
        requires
            old(self).wf(),
            x < 16,
            y < 16,
        ensures
            final(self).wf(),
            change == ProgramCounterChange::Next,
            final(self)@ == old(self)@.with_register(
                x as int,
                old(self).v[x as int] ^ old(self).v[y as int],
            ),
    {
        self.v[x] = self.v[x] ^ self.v[y];
        ProgramCounterChange::Next
    }

    /// `8xy4`: `Vx = Vx + Vy` modulo 256; the flag is 1 exactly if the sum
    /// exceeds 255. The flag is written last: with `x = 0xF` it is the flag
    /// that stays.
    pub fn op_8xy4(&mut self, x: usize, y: usize) -> (change: ProgramCounterChange)
        requires
            old(self).wf(),
            x < 16,
            y < 16,
        ensures
            final(self).wf(),
            change == ProgramCounterChange::Next,
            final(self)@ == old(self)@.add_registers(x as int, y as int),
            final(self).v[0xF] == 1 <==> old(self).v[x as int] + old(self).v[y as int] >= 256,
            final(self).v[0xF] == 0 <==> old(self).v[x as int] + old(self).v[y as int] < 256,
            x != 0xF ==> final(self).v[x as int] == (old(self).v[x as int] + old(self).v[y as int])
                % 256,
    {
        let a = self.v[x];
        let b = self.v[y];
        match a.checked_add(b) {
            Some(sum) => {
                self.v[x] = sum;
                self.v[FLAG_REGISTER] = 0;
            },
            None => {
                let wide: u16 = a as u16 + b as u16;
                proof {
                    lemma_truncate(wide);
                }
                self.v[x] = #[verifier::truncate]
                (wide as u8);
                self.v[FLAG_REGISTER] = 1;
            },
        }
        ProgramCounterChange::Next
    }

    /// `8xy5`: `Vx = Vx - Vy` modulo 256; the flag is 1 exactly if there was
    /// no borrow, that is if `Vx >= Vy`. The flag is written last.
    pub fn op_8xy5(&mut self, x: usize, y: usize) -> (change: ProgramCounterChange)
        requires
            old(self).wf(),
            x < 16,
            y < 16,
        ensures
            final(self).wf(),
            change == ProgramCounterChange::Next,
            final(self)@ == old(self)@.sub_registers(x as int, y as int),
            final(self).v[0xF] == 1 <==> old(self).v[x as int] >= old(self).v[y as int],
            final(self).v[0xF] == 0 <==> old(self).v[x as int] < old(self).v[y as int],
            x != 0xF ==> final(self).v[x as int] == (old(self).v[x as int] - old(self).v[y as int])
                % 256,
    {
        let a = self.v[x];
        let b = self.v[y];
        self.v[x] = a.wrapping_sub(b);
        self.v[FLAG_REGISTER] = if a >= b {
            1
        } else {
            0
        };
        ProgramCounterChange::Next
    }

    /// `8xy6`: `Vx = Vx / 2`, rounded down; the flag is the lowest bit that
    /// `Vx` had. The flag is written last.
    pub fn op_8x06(&mut self, x: usize) -> (change: ProgramCounterChange)
        requires
            old(self).wf(),
            x < 16,
        ensures
            final(self).wf(),
            change == ProgramCounterChange::Next,
            final(self)@ == old(self)@.shift_right(x as int),
            final(self).v[0xF] == old(self).v[x as int] % 2,
            x != 0xF ==> final(self).v[x as int] == old(self).v[x as int] / 2,
    {
        let a = self.v[x];
        proof {
            lemma_byte_bits(a);
        }
        self.v[x] = a / 2;
        self.v[FLAG_REGISTER] = a & 1;
        ProgramCounterChange::Next
    }

    /// `8xy7`: `Vx = Vy - Vx` modulo 256; the flag is 1 exactly if there was
    /// no borrow, that is if `Vy >= Vx`. The flag is written last.
    pub fn op_8xy7(&mut self, x: usize, y: usize) -> (change: ProgramCounterChange)
        requires
            old(self).wf(),
            x < 16,
            y < 16,
        ensures
            final(self).wf(),
            change == ProgramCounterChange::Next,
            final(self)@ == old(self)@.sub_reverse(x as int, y as int),
            final(self).v[0xF] == 1 <==> old(self).v[y as int] >= old(self).v[x as int],
            final(self).v[0xF] == 0 <==> old(self).v[y as int] < old(self).v[x as int],
            x != 0xF ==> final(self).v[x as int] == (old(self).v[y as int] - old(self).v[x as int])
                % 256,
    {
        let a = self.v[y];
        let b = self.v[x];
        self.v[x] = a.wrapping_sub(b);
        self.v[FLAG_REGISTER] = if a >= b {
            1
        } else {
            0
        };
        ProgramCounterChange::Next
    }

    /// `8xyE`: `Vx = 2 * Vx` modulo 256; the flag is the highest bit that
    /// `Vx` had. The flag is written last.
    pub fn op_8x0e(&mut self, x: usize) -> (change: ProgramCounterChange)
        requires
            old(self).wf(),
            x < 16,
        ensures
            final(self).wf(),
            change == ProgramCounterChange::Next,
            final(self)@ == old(self)@.shift_left(x as int),
            final(self).v[0xF] == old(self).v[x as int] / 128,
            x != 0xF ==> final(self).v[x as int] == (old(self).v[x as int] * 2) % 256,
    {
        let a = self.v[x];
        let wide: u16 = a as u16 * 2;
        proof {
            lemma_byte_bits(a);
            lemma_truncate(wide);
        }
        self.v[x] = #[verifier::truncate]
        (wide as u8);
        self.v[FLAG_REGISTER] = (a & 0x80) >> 7;
        ProgramCounterChange::Next
    }

    /// `9xy0`: skip if `Vx != Vy`.
    pub fn op_9xy0(&mut self, x: usize, y: usize) -> (change: ProgramCounterChange)
        requires
            x < 16,
            y < 16,
        ensures
            change == skip_if(old(self).v[x as int] != old(self).v[y as int]),
            *final(self) == *old(self),
    {
        if self.v[x] != self.v[y] {
            return ProgramCounterChange::Skip;
        }
        ProgramCounterChange::Next
    }

    /// `Annn`: `I = nnn`.
    pub fn op_annn(&mut self, nnn: usize) -> (change: ProgramCounterChange)
        requires
            old(self).wf(),
            nnn < 0x1000,
        ensures
            final(self).wf(),
            change == ProgramCounterChange::Next,
            final(self)@ == (MachineState { i: nnn as u16, ..old(self)@ }),
    {
        self.i = nnn as u16;
        ProgramCounterChange::Next
    }

    /// `Bnnn`: jumps to `nnn + V0`.
    pub fn op_bnnn(&mut self, nnn: usize) -> (change: ProgramCounterChange)
        requires
            nnn < 0x1000,
        ensures
            change == ProgramCounterChange::Jump((old(self).v[0] + nnn) as u16),
            *final(self) == *old(self),
    {
        ProgramCounterChange::Jump(self.v[0x0] as u16 + nnn as u16)
    }

    /// `Cxkk`: draws a random byte and sets `Vx` to its bits that are also in
    /// `kk`. Whatever the byte, no bit outside `kk` is set.
    pub fn op_cxkk(&mut self, x: usize, kk: u8) -> (change: ProgramCounterChange)
        requires
            old(self).wf(),
            x < 16,
        ensures
            final(self).wf(),
            change == ProgramCounterChange::Next,
            exists|random: u8| final(self)@ == old(self)@.with_register(x as int, kk & random),
    {
        let random = random_byte();
        self.op_cxkk_with(x, kk, random)
    }

    /// What `Cxkk` does once the byte `random` is drawn: `Vx = kk & random`.
    pub fn op_cxkk_with(&mut self, x: usize, kk: u8, random: u8) -> (change: ProgramCounterChange)
        requires
            old(self).wf(),
            x < 16,
        ensures
            final(self).wf(),
            change == ProgramCounterChange::Next,
            final(self)@ == old(self)@.with_register(x as int, kk & random),
    {
        self.v[x] = kk & random;
        ProgramCounterChange::Next
    }

    /// `Dxyn`: draws the sprite of `n` rows at `I` with its top left corner at
    /// `(Vx, Vy)`. Each pixel of the sprite that is on flips the cell it lands
    /// on; coordinates wrap around both edges of the display. The flag is 1
    /// if a lit cell was turned off, else 0. Where the sprite does not lie in
    /// memory, nothing is drawn and `None` is returned.
    pub fn op_dxyn(&mut self, x: usize, y: usize, n: usize) -> (change: Option<
        ProgramCounterChange,
    >)
        requires
            old(self).wf(),
            x < 16,
            y < 16,
            n < 16,
        ensures
            final(self).wf(),
            old(self)@.in_memory(n as int) ==> change == Some(ProgramCounterChange::Next)
                && final(self)@ == old(self)@.draw(x as int, y as int, n as int),
            !old(self)@.in_memory(n as int) ==> change.is_none() && final(self)@ == old(self)@,
    {
        let at = self.i as usize;
        if at + n > MEMORY_SIZE {
            return None;
        }
        let left = self.v[x] as usize;
        let top = self.v[y] as usize;
        let ghost sprite = old(self)@.sprite(n as int);
        let ghost before = old(self)@.display;
        let mut collided = false;
        let mut j: usize = 0;
        proof {
            lemma_partial_collides_rows(before, sprite, left as int, top as int, 0);
            assert forall|r: int, c: int| 0 <= r < 32 && 0 <= c < 64 implies self.display[r][c]
                == before[r][c] ^ #[trigger] partial_pixel(
                sprite,
                left as int,
                top as int,
                0,
                0,
                r,
                c,
            ) by {
                lemma_pixel_xor(before[r][c], 0);
            }
        }
        while j < n
            invariant
                j <= n < 16,
                at == old(self).i,
                at + n <= 4096,
                left < 256,
                top < 256,
                sprite == old(self)@.sprite(n as int),
                before == old(self)@.display,
                display_wf(before),
                self.memory == old(self).memory,
                self@ == (MachineState { display: display_view(self.display), ..old(self)@ }),
                forall|r: int, c: int|
                    0 <= r < 32 && 0 <= c < 64 ==> self.display[r][c] == before[r][c]
                        ^ #[trigger] partial_pixel(sprite, left as int, top as int, j as int, 0, r, c),
                collided == partial_collides(before, sprite, left as int, top as int, j as int, 0),
            decreases n - j,
        {
            let byte = self.memory[at + j];
            let row = (top + j) % SCREEN_HEIGHT;
            let mut k: usize = 0;
            while k < SPRITE_WIDTH
                invariant
                    k <= 8,
                    j < n < 16,
                    at == old(self).i,
                    at + n <= 4096,
                    left < 256,
                    top < 256,
                    row == (top + j) % 32,
                    byte == sprite[j as int],
                    sprite.len() == n,
                    before == old(self)@.display,
                    display_wf(before),
                    self.memory == old(self).memory,
                    self@ == (MachineState { display: display_view(self.display), ..old(self)@ }),
                    forall|r: int, c: int|
                        0 <= r < 32 && 0 <= c < 64 ==> self.display[r][c] == before[r][c]
                            ^ #[trigger] partial_pixel(
                            sprite,
                            left as int,
                            top as int,
                            j as int,
                            k as int,
                            r,
                            c,
                        ),
                    collided == partial_collides(
                        before,
                        sprite,
                        left as int,
                        top as int,
                        j as int,
                        k as int,
                    ),
                decreases 8 - k,
            {
                let shift: u8 = 7 - k as u8;
                let bit = (byte >> shift) & 1;
                let column = (left + k) % SCREEN_WIDTH;
                let pixel = self.display[row][column];
                proof {
                    lemma_sprite_bit_range(byte, shift);
                    lemma_partial_pixel_step(
                        sprite,
                        left as int,
                        top as int,
                        j as int,
                        k as int,
                        row as int,
                        column as int,
                    );
                    lemma_pixel_xor(before[row as int][column as int], 0);
                    lemma_pixel_xor(pixel, bit);
                    lemma_partial_collides_step(
                        before,
                        sprite,
                        left as int,
                        top as int,
                        j as int,
                        k as int,
                    );
                    assert(bit == sprite_bit(sprite[j as int], k as int));
                    assert(pixel == before[row as int][column as int]);
                }
                if pixel & bit == 1 {
                    collided = true;
                }
                self.display[row][column] = pixel ^ bit;
                proof {
                    assert forall|r: int, c: int|
                        0 <= r < 32 && 0 <= c < 64 implies self.display[r][c] == before[r][c]
                        ^ #[trigger] partial_pixel(
                        sprite,
                        left as int,
                        top as int,
                        j as int,
                        k + 1,
                        r,
                        c,
                    ) by {
                        lemma_partial_pixel_step(
                            sprite,
                            left as int,
                            top as int,
                            j as int,
                            k as int,
                            r,
                            c,
                        );
                    }
                }
                k += 1;
            }
            proof {
                lemma_partial_collides_rows(before, sprite, left as int, top as int, j as int);
                assert forall|r: int, c: int|
                    0 <= r < 32 && 0 <= c < 64 implies self.display[r][c] == before[r][c]
                    ^ #[trigger] partial_pixel(
                    sprite,
                    left as int,
                    top as int,
                    j + 1,
                    0,
                    r,
                    c,
                ) by {
                    lemma_partial_pixel_rows(sprite, left as int, top as int, j as int, r, c);
                }
            }
            j += 1;
        }
        proof {
            lemma_partial_collides_rows(before, sprite, left as int, top as int, n as int);
            let drawn = old(self)@.draw(x as int, y as int, n as int).display;
            assert forall|r: int, c: int| 0 <= r < 32 && 0 <= c < 64 implies display_view(
                self.display,
            )[r][c] == #[trigger] drawn[r][c] by {
                lemma_partial_pixel_rows(sprite, left as int, top as int, n as int, r, c);
            }
            assert(display_view(self.display) =~~= drawn);
            lemma_blit_wf(before, sprite, left as int, top as int);
        }
        self.v[FLAG_REGISTER] = if collided {
            1
        } else {
            0
        };
        Some(ProgramCounterChange::Next)
    }

    /// `Ex9E`: skip if `Vx` names a key that is held down.
    pub fn op_ex9e(&mut self, x: usize) -> (change: ProgramCounterChange)
        requires
            x < 16,
        ensures
            change == skip_if(is_pressed(old(self).keyboard@, old(self).v[x as int])),
            *final(self) == *old(self),
    {
        if self.keyboard.key_is_pressed(self.v[x]) {
            return ProgramCounterChange::Skip;
        }
        ProgramCounterChange::Next
    }

    /// `ExA1`: skip if `Vx` names no key that is held down.
    pub fn op_exa1(&mut self, x: usize) -> (change: ProgramCounterChange)
        requires
            x < 16,
        ensures
            change == skip_if(!is_pressed(old(self).keyboard@, old(self).v[x as int])),
            *final(self) == *old(self),
    {
        if !self.keyboard.key_is_pressed(self.v[x]) {
            return ProgramCounterChange::Skip;
        }
        ProgramCounterChange::Next
    }

    /// `Fx07`: `Vx = delay timer`.
    pub fn op_fx07(&mut self, x: usize) -> (change: ProgramCounterChange)
        requires
            old(self).wf(),
            x < 16,
        ensures
            final(self).wf(),
            change == ProgramCounterChange::Next,
            final(self)@ == old(self)@.with_register(x as int, old(self).dt),
    {
        self.v[x] = self.dt;
        ProgramCounterChange::Next
    }

    /// `Fx0A`: suspends the machine until a key goes down that is up now;
    /// its index will go to `Vx`.
    pub fn op_fx0a(&mut self, x: usize) -> (change: ProgramCounterChange)
        requires
            old(self).wf(),
            x < 16,
        ensures
            final(self).wf(),
            change == ProgramCounterChange::Next,
            final(self)@ == old(self)@.wait_for_key(x as int),
    {
        self.wait = WaitState::WaitingForKey { register: x as u8, snapshot: self.keyboard.keys };
        ProgramCounterChange::Next
    }

    /// `Fx15`: `delay timer = Vx`.
    pub fn op_fx15(&mut self, x: usize) -> (change: ProgramCounterChange)
        requires
            old(self).wf(),
            x < 16,
        ensures
            final(self).wf(),
            change == ProgramCounterChange::Next,
            final(self)@ == (MachineState { dt: old(self).v[x as int], ..old(self)@ }),
    {
        self.dt = self.v[x];
        ProgramCounterChange::Next
    }

    /// `Fx18`: `sound timer = Vx`.
    pub fn op_fx18(&mut self, x: usize) -> (change: ProgramCounterChange)
        requires
            old(self).wf(),
            x < 16,
        ensures
            final(self).wf(),
            change == ProgramCounterChange::Next,
            final(self)@ == (MachineState { st: old(self).v[x as int], ..old(self)@ }),
    {
        self.st = self.v[x];
        ProgramCounterChange::Next
    }

    /// `Fx1E`: `I = I + Vx` modulo 65536.
    pub fn op_fx1e(&mut self, x: usize) -> (change: ProgramCounterChange)
        requires
            old(self).wf(),
            x < 16,
        ensures
            final(self).wf(),
            change == ProgramCounterChange::Next,
            final(self)@ == old(self)@.add_index(x as int),
    {
        self.i = self.i.wrapping_add(self.v[x] as u16);
        ProgramCounterChange::Next
    }

    /// `Fx29`: `I =` the address of the glyph of the low nibble of `Vx`:
    /// five times the nibble.
    pub fn op_fx29(&mut self, x: usize) -> (change: ProgramCounterChange)
        requires
            old(self).wf(),
            x < 16,
        ensures
            final(self).wf(),
            change == ProgramCounterChange::Next,
            final(self)@ == old(self)@.load_glyph(x as int),
    {
        let nibble = self.v[x] & 0x0F;
        proof {
            lemma_byte_bits(self.v[x as int]);
        }
        self.i = nibble as u16 * GLYPH_SIZE;
        ProgramCounterChange::Next
    }

    /// `Fx33`: stores the hundreds, tens and units of `Vx` at `I`, `I + 1`
    /// and `I + 2`. Where these do not all lie in memory, nothing is stored
    /// and `None` is returned.
    pub fn op_fx33(&mut self, x: usize) -> (change: Option<ProgramCounterChange>)
        requires
            old(self).wf(),
            x < 16,
        ensures
            final(self).wf(),
            old(self)@.in_memory(3) ==> change == Some(ProgramCounterChange::Next) && final(self)@
                == old(self)@.store_bcd(x as int),
            !old(self)@.in_memory(3) ==> change.is_none() && final(self)@ == old(self)@,
    {
        let at = self.i as usize;
        if at + 3 > MEMORY_SIZE {
            return None;
        }
        let value = self.v[x];
        self.memory[at] = value / 100;
        self.memory[at + 1] = (value / 10) % 10;
        self.memory[at + 2] = value % 10;
        Some(ProgramCounterChange::Next)
    }

    /// `Fx55`: stores `V0..=Vx` at `I` onwards; `I` stays. Where these do not
    /// all lie in memory, nothing is stored and `None` is returned.
    pub fn op_fx55(&mut self, x: usize) -> (change: Option<ProgramCounterChange>)
        requires
            old(self).wf(),
            x < 16,
        ensures
            final(self).wf(),
            old(self)@.in_memory(x + 1) ==> change == Some(ProgramCounterChange::Next)
                && final(self)@ == old(self)@.store_registers(x as int),
            !old(self)@.in_memory(x + 1) ==> change.is_none() && final(self)@ == old(self)@,
    {
        let at = self.i as usize;
        if at + x + 1 > MEMORY_SIZE {
            return None;
        }
        let mut k: usize = 0;
        while k <= x
            invariant
                k <= x + 1,
                x < 16,
                at == old(self).i,
                at + x + 1 <= 4096,
                self.v == old(self).v,
                forall|a: int|
                    0 <= a < 4096 ==> self.memory[a] == (if at <= a < at + k {
                        old(self).v[a - at]
                    } else {
                        old(self).memory[a]
                    }),
                self@ == (MachineState { memory: self.memory@, ..old(self)@ }),
            decreases x + 1 - k,
        {
            self.memory[at + k] = self.v[k];
            k += 1;
        }
        assert(self.memory@ =~= old(self)@.store_registers(x as int).memory);
        Some(ProgramCounterChange::Next)
    }

    /// `Fx65`: loads `V0..=Vx` from `I` onwards; `I` stays. Where these do
    /// not all lie in memory, nothing is loaded and `None` is returned.
    pub fn op_fx65(&mut self, x: usize) -> (change: Option<ProgramCounterChange>)
        requires
            old(self).wf(),
            x < 16,
        ensures
            final(self).wf(),
            old(self)@.in_memory(x + 1) ==> change == Some(ProgramCounterChange::Next)
                && final(self)@ == old(self)@.load_registers(x as int),
            !old(self)@.in_memory(x + 1) ==> change.is_none() && final(self)@ == old(self)@,
    {
        let at = self.i as usize;
        if at + x + 1 > MEMORY_SIZE {
            return None;
        }
        let mut k: usize = 0;
        while k <= x
            invariant
                k <= x + 1,
                x < 16,
                at == old(self).i,
                at + x + 1 <= 4096,
                self.memory == old(self).memory,
                forall|j: int|
                    0 <= j < 16 ==> self.v[j] == (if j < k {
                        old(self).memory[at + j]
                    } else {
                        old(self).v[j]
                    }),
                self@ == (MachineState { v: self.v@, ..old(self)@ }),
            decreases x + 1 - k,
        {
            self.v[k] = self.memory[at + k];
            k += 1;
        }
        assert(self.v@ =~= old(self)@.load_registers(x as int).v);
        Some(ProgramCounterChange::Next)
    }
}

} // verus!
