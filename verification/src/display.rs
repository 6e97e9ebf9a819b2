//! The display surface and the sprite blit, as mathematics.
//!
//! A display is a sequence of 32 rows of 64 cells, each cell 0 (off) or 1
//! (on). A sprite is a sequence of bytes, one per row, whose bits are pixels,
//! most significant bit leftmost.

use vstd::prelude::*;

verus! {

/// Width of the display in pixels.
pub const SCREEN_WIDTH: usize = 64;

/// Height of the display in pixels.
pub const SCREEN_HEIGHT: usize = 32;

/// Width of a sprite in pixels: the bits of one byte.
pub const SPRITE_WIDTH: usize = 8;

/// A display of the right shape whose cells are all 0 or 1.
pub open spec fn display_wf(display: Seq<Seq<u8>>) -> bool {
    &&& display.len() == 32
    &&& forall|r: int| 0 <= r < 32 ==> (#[trigger] display[r]).len() == 64
    &&& forall|r: int, c: int| 0 <= r < 32 && 0 <= c < 64 ==> #[trigger] display[r][c] <= 1
}

/// The display with every pixel off.
pub open spec fn blank_display() -> Seq<Seq<u8>> {
    Seq::new(32, |r: int| Seq::new(64, |c: int| 0u8))
}

/// Pixel `column` (0 is leftmost) of the sprite row `row`: bit `7 - column`
/// of the byte.
pub open spec fn sprite_bit(row: u8, column: int) -> u8 {
    (row >> ((7 - column) as u8)) & 1
}

/// What the sprite puts on the cell `(row, column)` when its top left corner
/// is drawn at `(left, top)`: the sprite's pixel that lands there, coordinates
/// wrapping around both edges; 0 where no pixel of the sprite lands.
pub open spec fn sprite_pixel(sprite: Seq<u8>, left: int, top: int, row: int, column: int) -> u8 {
    let dy = (row - top) % 32;
    let dx = (column - left) % 64;
    if dy < sprite.len() && dx < 8 {
        sprite_bit(sprite[dy], dx)
    } else {
        0
    }
}

/// The display after the sprite is drawn at `(left, top)`: every cell is the
/// exclusive or of what it held and what the sprite puts on it.
pub open spec fn blit(display: Seq<Seq<u8>>, sprite: Seq<u8>, left: int, top: int) -> Seq<Seq<u8>> {
    Seq::new(
        32,
        |r: int| Seq::new(64, |c: int| display[r][c] ^ sprite_pixel(sprite, left, top, r, c)),
    )
}

/// Whether drawing the sprite at `(left, top)` turns a lit pixel off: some
/// cell is on and the sprite puts an on pixel on it.
pub open spec fn collides(display: Seq<Seq<u8>>, sprite: Seq<u8>, left: int, top: int) -> bool {
    exists|r: int, c: int|
        0 <= r < 32 && 0 <= c < 64 && display[r][c] == 1 && #[trigger] sprite_pixel(
            sprite,
            left,
            top,
            r,
            c,
        ) == 1
}

/// Exclusive or of two pixels is a pixel, and undoes itself.
pub proof fn lemma_pixel_xor(p: u8, b: u8)
    by (bit_vector)
    ensures
        (p ^ b) ^ b == p,
        p <= 1 && b <= 1 ==> p ^ b <= 1,
        p <= 1 && b <= 1 ==> (p & b == 1 <==> p == 1 && b == 1),
        p ^ 0 == p,
{
}

/// A sprite pixel is 0 or 1.
pub proof fn lemma_sprite_bit_range(row: u8, shift: u8)
    by (bit_vector)
    ensures
        (row >> shift) & 1 <= 1,
{
}

/// Drawing the same sprite twice at the same place restores the display.
pub proof fn lemma_blit_twice(display: Seq<Seq<u8>>, sprite: Seq<u8>, left: int, top: int)
    requires
        display_wf(display),
    ensures
        blit(blit(display, sprite, left, top), sprite, left, top) == display,
{
    let once = blit(display, sprite, left, top);
    let twice = blit(once, sprite, left, top);
    assert forall|r: int, c: int| 0 <= r < 32 && 0 <= c < 64 implies #[trigger] twice[r][c]
        == display[r][c] by {
        lemma_pixel_xor(display[r][c], sprite_pixel(sprite, left, top, r, c));
    }
    assert(twice =~~= display);
}

/// Drawing keeps the display well formed.
pub proof fn lemma_blit_wf(display: Seq<Seq<u8>>, sprite: Seq<u8>, left: int, top: int)
    requires
        display_wf(display),
    ensures
        display_wf(blit(display, sprite, left, top)),
{
    let once = blit(display, sprite, left, top);
    assert forall|r: int, c: int| 0 <= r < 32 && 0 <= c < 64 implies #[trigger] once[r][c]
        <= 1 by {
        let dy = (r - top) % 32;
        let dx = (c - left) % 64;
        if dy < sprite.len() && dx < 8 {
            lemma_sprite_bit_range(sprite[dy], (7 - dx) as u8);
        }
        lemma_pixel_xor(display[r][c], sprite_pixel(sprite, left, top, r, c));
    }
}

/// What the part of a sprite that is drawn first puts on the cell
/// `(row, column)`: the part is the sprite's first `rows` rows and, of the
/// row after them, the first `columns` pixels.
pub open spec fn partial_pixel(
    sprite: Seq<u8>,
    left: int,
    top: int,
    rows: int,
    columns: int,
    row: int,
    column: int,
) -> u8 {
    let dy = (row - top) % 32;
    let dx = (column - left) % 64;
    if dy < sprite.len() && dx < 8 && (dy < rows || (dy == rows && dx < columns)) {
        sprite_bit(sprite[dy], dx)
    } else {
        0
    }
}

/// Whether the part of a sprite that is drawn first turns a lit pixel off.
pub open spec fn partial_collides(
    display: Seq<Seq<u8>>,
    sprite: Seq<u8>,
    left: int,
    top: int,
    rows: int,
    columns: int,
) -> bool {
    exists|r: int, c: int|
        0 <= r < 32 && 0 <= c < 64 && display[r][c] == 1 && #[trigger] partial_pixel(
            sprite,
            left,
            top,
            rows,
            columns,
            r,
            c,
        ) == 1
}

/// One more pixel of the sprite: pixel `k` of row `j` lands on the cell
/// `((top + j) % 32, (left + k) % 64)`, on which nothing of the sprite has
/// landed before, and every other cell gets what it had.
pub proof fn lemma_partial_pixel_step(
    sprite: Seq<u8>,
    left: int,
    top: int,
    j: int,
    k: int,
    r: int,
    c: int,
)
    requires
        0 <= j < sprite.len() <= 32,
        0 <= k < 8,
        0 <= r < 32,
        0 <= c < 64,
        0 <= left,
        0 <= top,
    ensures
        r == (top + j) % 32 && c == (left + k) % 64 ==> partial_pixel(sprite, left, top, j, k, r, c)
            == 0 && partial_pixel(sprite, left, top, j, k + 1, r, c) == sprite_bit(sprite[j], k),
        !(r == (top + j) % 32 && c == (left + k) % 64) ==> partial_pixel(
            sprite,
            left,
            top,
            j,
            k + 1,
            r,
            c,
        ) == partial_pixel(sprite, left, top, j, k, r, c),
{
}

/// A whole row is the start of the next, and all rows are the sprite.
pub proof fn lemma_partial_pixel_rows(
    sprite: Seq<u8>,
    left: int,
    top: int,
    j: int,
    r: int,
    c: int,
)
    requires
        0 <= j,
    ensures
        partial_pixel(sprite, left, top, j, 8, r, c) == partial_pixel(
            sprite,
            left,
            top,
            j + 1,
            0,
            r,
            c,
        ),
        partial_pixel(sprite, left, top, 0, 0, r, c) == 0,
        j >= sprite.len() ==> partial_pixel(sprite, left, top, j, 0, r, c) == sprite_pixel(
            sprite,
            left,
            top,
            r,
            c,
        ),
{
}

/// One more pixel of the sprite collides exactly if the part before it did
/// or the pixel is on and lands on a lit cell.
pub proof fn lemma_partial_collides_step(
    display: Seq<Seq<u8>>,
    sprite: Seq<u8>,
    left: int,
    top: int,
    j: int,
    k: int,
)
    requires
        0 <= j < sprite.len() <= 32,
        0 <= k < 8,
        0 <= left,
        0 <= top,
    ensures
        partial_collides(display, sprite, left, top, j, k + 1) <==> partial_collides(
            display,
            sprite,
            left,
            top,
            j,
            k,
        ) || (display[(top + j) % 32][(left + k) % 64] == 1 && sprite_bit(sprite[j], k) == 1),
{
    let row = (top + j) % 32;
    let column = (left + k) % 64;
    if partial_collides(display, sprite, left, top, j, k + 1) {
        let (r, c) = choose|r: int, c: int|
            0 <= r < 32 && 0 <= c < 64 && display[r][c] == 1 && #[trigger] partial_pixel(
                sprite,
                left,
                top,
                j,
                k + 1,
                r,
                c,
            ) == 1;
        lemma_partial_pixel_step(sprite, left, top, j, k, r, c);
        if !(r == row && c == column) {
            assert(partial_pixel(sprite, left, top, j, k, r, c) == 1);
        }
    }
    if partial_collides(display, sprite, left, top, j, k) {
        let (r, c) = choose|r: int, c: int|
            0 <= r < 32 && 0 <= c < 64 && display[r][c] == 1 && #[trigger] partial_pixel(
                sprite,
                left,
                top,
                j,
                k,
                r,
                c,
            ) == 1;
        lemma_partial_pixel_step(sprite, left, top, j, k, r, c);
        assert(partial_pixel(sprite, left, top, j, k + 1, r, c) == 1);
    }
    if display[row][column] == 1 && sprite_bit(sprite[j], k) == 1 {
        lemma_partial_pixel_step(sprite, left, top, j, k, row, column);
        assert(partial_pixel(sprite, left, top, j, k + 1, row, column) == 1);
    }
}

/// A whole row collides as the start of the next does; nothing of the sprite
/// collides with nothing; all rows collide as the sprite does.
pub proof fn lemma_partial_collides_rows(
    display: Seq<Seq<u8>>,
    sprite: Seq<u8>,
    left: int,
    top: int,
    j: int,
)
    requires
        0 <= j,
    ensures
        partial_collides(display, sprite, left, top, j, 8) == partial_collides(
            display,
            sprite,
            left,
            top,
            j + 1,
            0,
        ),
        !partial_collides(display, sprite, left, top, 0, 0),
        j >= sprite.len() ==> partial_collides(display, sprite, left, top, j, 0) == collides(
            display,
            sprite,
            left,
            top,
        ),
{
    assert forall|r: int, c: int|
        partial_pixel(sprite, left, top, j, 8, r, c) == #[trigger] partial_pixel(
            sprite,
            left,
            top,
            j + 1,
            0,
            r,
            c,
        ) by {
        lemma_partial_pixel_rows(sprite, left, top, j, r, c);
    }
    assert forall|r: int, c: int|
        partial_pixel(sprite, left, top, j + 1, 0, r, c) == #[trigger] partial_pixel(
            sprite,
            left,
            top,
            j,
            8,
            r,
            c,
        ) by {
        lemma_partial_pixel_rows(sprite, left, top, j, r, c);
    }
    if j >= sprite.len() {
        assert forall|r: int, c: int|
            sprite_pixel(sprite, left, top, r, c) == #[trigger] partial_pixel(
                sprite,
                left,
                top,
                j,
                0,
                r,
                c,
            ) by {
            lemma_partial_pixel_rows(sprite, left, top, j, r, c);
        }
        assert forall|r: int, c: int|
            partial_pixel(sprite, left, top, j, 0, r, c) == #[trigger] sprite_pixel(
                sprite,
                left,
                top,
                r,
                c,
            ) by {
            lemma_partial_pixel_rows(sprite, left, top, j, r, c);
        }
    }
}

} // verus!
