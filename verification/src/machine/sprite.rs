use vstd::prelude::*;

verus! {

/// Number of pixels in one display row.
pub const ROW_PIXELS: u16 = 64;

/// Number of display rows.
pub const ROWS: u16 = 32;

/// Whether a sprite row has a pixel in column `col`, counted from the left:
/// the most significant bit of `row_byte` is column 0.
pub open spec fn sprite_bit(row_byte: u8, col: int) -> bool {
    row_byte & (0x80u8 >> (col as u8)) != 0
}

/// Whether display position `p` lies among the pixels of a sprite placed with
/// its top left corner at column `x0` of row `y0`, counting only the sprite's
/// first `rows` rows and, of the row after those, its first `cols` columns.
pub open spec fn in_sprite_part(p: int, x0: int, y0: int, rows: int, cols: int) -> bool {
    let r = p / (ROW_PIXELS as int);
    let c = p % (ROW_PIXELS as int);
    &&& x0 <= c < x0 + 8
    &&& (y0 <= r < y0 + rows || (r == y0 + rows && c < x0 + cols))
}

/// Whether display position `p` lies under a sprite of `rows` rows placed with
/// its top left corner at column `x0` of row `y0`.
pub open spec fn in_sprite(p: int, x0: int, y0: int, rows: int) -> bool {
    in_sprite_part(p, x0, y0, rows, 0)
}

/// The sprite's own pixel at display position `p`, for a sprite whose row bytes
/// start at `base` in `memory`.
pub open spec fn sprite_pixel(memory: Seq<u8>, base: int, p: int, x0: int, y0: int) -> bool {
    sprite_bit(memory[base + (p / (ROW_PIXELS as int) - y0)], p % (ROW_PIXELS as int) - x0)
}

/// The display after the given part of a sprite was combined into it by
/// exclusive or. Pixels of the sprite that would fall beyond the right or the
/// bottom edge are not drawn.
pub open spec fn sprite_part_drawn(
    display: Seq<bool>,
    memory: Seq<u8>,
    base: int,
    x0: int,
    y0: int,
    rows: int,
    cols: int,
) -> Seq<bool> {
    Seq::new(
        display.len(),
        |p: int|
            if in_sprite_part(p, x0, y0, rows, cols) {
                display[p] ^ sprite_pixel(memory, base, p, x0, y0)
            } else {
                display[p]
            },
    )
}

/// Whether the given part of a sprite has a pixel where the display has one
/// already, so that drawing it unsets a pixel.
pub open spec fn sprite_part_collides(
    display: Seq<bool>,
    memory: Seq<u8>,
    base: int,
    x0: int,
    y0: int,
    rows: int,
    cols: int,
) -> bool {
    exists|p: int|
        0 <= p < display.len() && #[trigger] in_sprite_part(p, x0, y0, rows, cols) && display[p]
            && sprite_pixel(memory, base, p, x0, y0)
}

/// The display after a sprite of `rows` rows was drawn at column `x0` of row `y0`.
pub open spec fn sprite_drawn(
    display: Seq<bool>,
    memory: Seq<u8>,
    base: int,
    x0: int,
    y0: int,
    rows: int,
) -> Seq<bool> {
    sprite_part_drawn(display, memory, base, x0, y0, rows, 0)
}

/// Whether drawing a sprite of `rows` rows at column `x0` of row `y0` unsets a
/// pixel that was set.
pub open spec fn sprite_collides(
    display: Seq<bool>,
    memory: Seq<u8>,
    base: int,
    x0: int,
    y0: int,
    rows: int,
) -> bool {
    sprite_part_collides(display, memory, base, x0, y0, rows, 0)
}

/// Number of sprite rows that are on the display when a sprite of `rows` rows is
/// placed at row `y0`.
pub open spec fn visible_rows(y0: int, rows: int) -> int {
    if y0 + rows <= ROWS {
        rows
    } else {
        ROWS - y0
    }
}

/// Drawing one more pixel of a sprite row: the part grows by the position of
/// that pixel, the display changes there alone, and a collision is either one of
/// the part before or one at that position.
pub(crate) proof fn lemma_sprite_step(
    display: Seq<bool>,
    memory: Seq<u8>,
    base: int,
    x0: int,
    y0: int,
    i: int,
    j: int,
)
    requires
        display.len() == 2048,
        0 <= x0,
        0 <= y0,
        0 <= i,
        0 <= j < 8,
        x0 + j < 64,
        y0 + i < 32,
    ensures
        ({
            let p = (y0 + i) * 64 + x0 + j;
            let bit = sprite_bit(memory[base + i], j);
            let before = sprite_part_drawn(display, memory, base, x0, y0, i, j);
            let after = sprite_part_drawn(display, memory, base, x0, y0, i, j + 1);
            let collided = sprite_part_collides(display, memory, base, x0, y0, i, j);
            let collides = sprite_part_collides(display, memory, base, x0, y0, i, j + 1);
            &&& 0 <= p < 2048
            &&& !in_sprite_part(p, x0, y0, i, j)
            &&& before[p] == display[p]
            &&& sprite_pixel(memory, base, p, x0, y0) == bit
            &&& after == before.update(p, display[p] ^ bit)
            &&& collides == (collided || (display[p] && bit))
        }),
{
    let p = (y0 + i) * 64 + x0 + j;
    assert(in_sprite_part(p, x0, y0, i, j + 1));
    if sprite_part_collides(display, memory, base, x0, y0, i, j + 1) {
        let q = choose|q: int|
            0 <= q < display.len() && #[trigger] in_sprite_part(q, x0, y0, i, j + 1) && display[q]
                && sprite_pixel(memory, base, q, x0, y0);
        if q != p {
            assert(in_sprite_part(q, x0, y0, i, j));
        }
    }
    if sprite_part_collides(display, memory, base, x0, y0, i, j) {
        let q = choose|q: int|
            0 <= q < display.len() && #[trigger] in_sprite_part(q, x0, y0, i, j) && display[q]
                && sprite_pixel(memory, base, q, x0, y0);
        assert(in_sprite_part(q, x0, y0, i, j + 1));
    }
}

/// Once a sprite row has been drawn up to its eighth pixel or up to the right
/// edge, the part drawn is that of one more whole row.
pub(crate) proof fn lemma_sprite_row_done(
    display: Seq<bool>,
    memory: Seq<u8>,
    base: int,
    x0: int,
    y0: int,
    i: int,
    j: int,
)
    requires
        display.len() == 2048,
        0 <= x0 < 64,
        0 <= y0,
        0 <= i,
        j == 8 || x0 + j == 64,
    ensures
        sprite_part_drawn(display, memory, base, x0, y0, i, j) == sprite_part_drawn(
            display,
            memory,
            base,
            x0,
            y0,
            i + 1,
            0,
        ),
        sprite_part_collides(display, memory, base, x0, y0, i, j) == sprite_part_collides(
            display,
            memory,
            base,
            x0,
            y0,
            i + 1,
            0,
        ),
{
    if sprite_part_collides(display, memory, base, x0, y0, i, j) {
        let q = choose|q: int|
            0 <= q < display.len() && #[trigger] in_sprite_part(q, x0, y0, i, j) && display[q]
                && sprite_pixel(memory, base, q, x0, y0);
        assert(in_sprite_part(q, x0, y0, i + 1, 0));
    }
    if sprite_part_collides(display, memory, base, x0, y0, i + 1, 0) {
        let q = choose|q: int|
            0 <= q < display.len() && #[trigger] in_sprite_part(q, x0, y0, i + 1, 0) && display[q]
                && sprite_pixel(memory, base, q, x0, y0);
        assert(in_sprite_part(q, x0, y0, i, j));
    }
}

/// Once the rows of a sprite have been drawn up to its last one or up to the
/// bottom edge, the whole sprite has been drawn.
pub(crate) proof fn lemma_sprite_rows_done(
    display: Seq<bool>,
    memory: Seq<u8>,
    base: int,
    x0: int,
    y0: int,
    i: int,
    rows: int,
)
    requires
        display.len() == 2048,
        0 <= x0,
        0 <= y0,
        0 <= i <= rows,
        i == rows || y0 + i == 32,
    ensures
        sprite_part_drawn(display, memory, base, x0, y0, i, 0) == sprite_drawn(
            display,
            memory,
            base,
            x0,
            y0,
            rows,
        ),
        sprite_part_collides(display, memory, base, x0, y0, i, 0) == sprite_collides(
            display,
            memory,
            base,
            x0,
            y0,
            rows,
        ),
{
    if sprite_part_collides(display, memory, base, x0, y0, i, 0) {
        let q = choose|q: int|
            0 <= q < display.len() && #[trigger] in_sprite_part(q, x0, y0, i, 0) && display[q]
                && sprite_pixel(memory, base, q, x0, y0);
        assert(in_sprite_part(q, x0, y0, rows, 0));
    }
    if sprite_part_collides(display, memory, base, x0, y0, rows, 0) {
        let q = choose|q: int|
            0 <= q < display.len() && #[trigger] in_sprite_part(q, x0, y0, rows, 0) && display[q]
                && sprite_pixel(memory, base, q, x0, y0);
        assert(in_sprite_part(q, x0, y0, i, 0));
    }
}

/// Whether a sprite shows a pixel anywhere on a display of `len` pixels.
pub open spec fn sprite_shows(
    len: nat,
    memory: Seq<u8>,
    base: int,
    x0: int,
    y0: int,
    rows: int,
) -> bool {
    exists|p: int|
        0 <= p < len && #[trigger] in_sprite_part(p, x0, y0, rows, 0) && sprite_pixel(
            memory,
            base,
            p,
            x0,
            y0,
        )
}

/// Drawing a sprite a second time at the same place takes it away again: the
/// display is as it was before the first drawing.
pub proof fn lemma_sprite_twice(
    display: Seq<bool>,
    memory: Seq<u8>,
    base: int,
    x0: int,
    y0: int,
    rows: int,
)
    ensures
        sprite_drawn(sprite_drawn(display, memory, base, x0, y0, rows), memory, base, x0, y0, rows)
            == display,
{
}

/// On a blank display a sprite collides with nothing, and what is then on the
/// display is the sprite alone: drawing it once more collides exactly where the
/// sprite shows a pixel at all.
pub proof fn lemma_sprite_on_blank(
    display: Seq<bool>,
    memory: Seq<u8>,
    base: int,
    x0: int,
    y0: int,
    rows: int,
)
    requires
        forall|p: int| 0 <= p < display.len() ==> !display[p],
    ensures
        !sprite_collides(display, memory, base, x0, y0, rows),
        sprite_collides(
            sprite_drawn(display, memory, base, x0, y0, rows),
            memory,
            base,
            x0,
            y0,
            rows,
        ) == sprite_shows(display.len(), memory, base, x0, y0, rows),
{
}

} // verus!
