//! The 64x32 one-bit framebuffer. Sprites are drawn by XOR and wrap around
//! both edges.

use vstd::prelude::*;

verus! {

/// Pixels in one row.
pub const WIDTH: usize = 64;

/// Rows on the screen.
pub const HEIGHT: usize = 32;

/// Pixels on the screen.
pub const PIXEL_COUNT: usize = 2048;

/// Pixels in one row of a sprite.
pub const SPRITE_WIDTH: usize = 8;

/// A grid on which no pixel is lit. A grid lists the pixels row by row.
pub open spec fn blank_grid() -> Seq<bool> {
    Seq::new(PIXEL_COUNT as nat, |i: int| false)
}

/// The place in a grid of the pixel in column `x` and row `y`, both taken
/// around the edges of the screen.
pub open spec fn cell_of(x: int, y: int) -> int {
    (y % (HEIGHT as int)) * (WIDTH as int) + x % (WIDTH as int)
}

/// Whether pixel `col` of a sprite row is set. The leftmost pixel is the most
/// significant bit.
pub open spec fn sprite_bit(row: u8, col: int) -> bool {
    0 <= col < SPRITE_WIDTH && (row >> ((7 - col) as u8)) & 1u8 == 1u8
}

/// Whether a sprite row whose leftmost pixel is in column `x` has a set pixel
/// in column `px` of the screen.
pub open spec fn row_covers(row: u8, x: int, px: int) -> bool {
    sprite_bit(row, (px - x) % (WIDTH as int))
}

/// The grid after the first `cols` pixels of a sprite row have been drawn in
/// row `y` of the screen, the leftmost in column `x`: every pixel under a set
/// sprite pixel is flipped.
#[verifier::opaque]
pub open spec fn row_drawn_upto(grid: Seq<bool>, x: int, y: int, row: u8, cols: int) -> Seq<bool> {
    Seq::new(
        PIXEL_COUNT as nat,
        |i: int|
            if i / (WIDTH as int) == y % (HEIGHT as int) && (i % (WIDTH as int) - x) % (
            WIDTH as int) < cols && row_covers(row, x, i % (WIDTH as int)) {
                !grid[i]
            } else {
                grid[i]
            },
    )
}

/// Whether one of the first `cols` pixels of a sprite row is set where the
/// grid is lit already.
#[verifier::opaque]
pub open spec fn row_hits_upto(grid: Seq<bool>, x: int, y: int, row: u8, cols: int) -> bool {
    exists|c: int| 0 <= c < cols && #[trigger] sprite_bit(row, c) && grid[cell_of(x + c, y)]
}

/// The grid after a whole sprite row has been drawn.
pub open spec fn row_drawn(grid: Seq<bool>, x: int, y: int, row: u8) -> Seq<bool> {
    row_drawn_upto(grid, x, y, row, SPRITE_WIDTH as int)
}

/// Whether drawing a sprite row turns a lit pixel off.
pub open spec fn row_hits(grid: Seq<bool>, x: int, y: int, row: u8) -> bool {
    row_hits_upto(grid, x, y, row, SPRITE_WIDTH as int)
}

/// The grid after the first `rows` rows of a sprite have been drawn, one
/// below the other from row `y` of the screen.
pub open spec fn rows_drawn(grid: Seq<bool>, x: int, y: int, sprite: Seq<u8>, rows: int) -> Seq<
    bool,
>
    decreases rows,
{
    if rows <= 0 {
        grid
    } else {
        row_drawn(rows_drawn(grid, x, y, sprite, rows - 1), x, y + rows - 1, sprite[rows - 1])
    }
}

/// Whether drawing the first `rows` rows of a sprite turns a lit pixel off.
pub open spec fn rows_hit(grid: Seq<bool>, x: int, y: int, sprite: Seq<u8>, rows: int) -> bool
    decreases rows,
{
    rows > 0 && (rows_hit(grid, x, y, sprite, rows - 1) || row_hits(
        rows_drawn(grid, x, y, sprite, rows - 1),
        x,
        y + rows - 1,
        sprite[rows - 1],
    ))
}

/// The grid after a sprite has been drawn with its top left pixel at
/// `(x, y)`.
pub open spec fn sprite_drawn(grid: Seq<bool>, x: int, y: int, sprite: Seq<u8>) -> Seq<bool> {
    rows_drawn(grid, x, y, sprite, sprite.len() as int)
}

/// The collision flag of a draw: whether it turns a lit pixel off.
pub open spec fn sprite_hits(grid: Seq<bool>, x: int, y: int, sprite: Seq<u8>) -> bool {
    rows_hit(grid, x, y, sprite, sprite.len() as int)
}

/// Whether one of the first `rows` rows of a sprite drawn at `(x, y)` has a
/// set pixel at `(px, py)` of the screen. This speaks of at most `HEIGHT`
/// rows, which come to each pixel at most once.
pub open spec fn rows_cover(sprite: Seq<u8>, rows: int, x: int, y: int, px: int, py: int) -> bool {
    let r = (py - y) % (HEIGHT as int);
    r < rows && row_covers(sprite[r], x, px)
}

/// Whether a sprite of at most `HEIGHT` rows drawn at `(x, y)` has a set
/// pixel at `(px, py)` of the screen.
pub open spec fn sprite_covers(sprite: Seq<u8>, x: int, y: int, px: int, py: int) -> bool {
    rows_cover(sprite, sprite.len() as int, x, y, px, py)
}

/// Whether the pixel in column `px` and row `py` of a grid is lit.
pub open spec fn lit(grid: Seq<bool>, px: int, py: int) -> bool {
    grid[py * (WIDTH as int) + px]
}

/// Whether `(px, py)` is a pixel of the screen.
pub open spec fn on_screen(px: int, py: int) -> bool {
    0 <= px < WIDTH && 0 <= py < HEIGHT
}

/// A sprite row drawn in row `y` lands where one drawn `HEIGHT` rows further
/// down or up lands: only `y` taken around the edge counts.
pub proof fn row_goes_around(grid: Seq<bool>, x: int, y: int, wrapped: int, row: u8)
    requires
        wrapped == y % (HEIGHT as int),
    ensures
        row_drawn(grid, x, wrapped, row) == row_drawn(grid, x, y, row),
        row_hits(grid, x, wrapped, row) == row_hits(grid, x, y, row),
{
    reveal(row_drawn_upto);
    reveal(row_hits_upto);
    assert(wrapped % (HEIGHT as int) == y % (HEIGHT as int));
    assert(row_drawn(grid, x, wrapped, row) =~= row_drawn(grid, x, y, row));
    assert forall|c: int| #[trigger] sprite_bit(row, c) implies cell_of(x + c, wrapped) == cell_of(
        x + c,
        y,
    ) by {}
}

/// Drawing one more row of a sprite: it is drawn in the screen row that
/// `y + rows` comes to around the edge, onto what the rows above it left.
proof fn next_row_drawn(grid: Seq<bool>, x: int, y: int, sprite: Seq<u8>, rows: int, py: int)
    requires
        0 <= rows < sprite.len(),
        py == (y + rows) % (HEIGHT as int),
    ensures
        rows_drawn(grid, x, y, sprite, rows + 1) == row_drawn(
            rows_drawn(grid, x, y, sprite, rows),
            x,
            py,
            sprite[rows],
        ),
        rows_hit(grid, x, y, sprite, rows + 1) == (rows_hit(grid, x, y, sprite, rows) || row_hits(
            rows_drawn(grid, x, y, sprite, rows),
            x,
            py,
            sprite[rows],
        )),
{
    row_goes_around(rows_drawn(grid, x, y, sprite, rows), x, y + rows, py, sprite[rows]);
}

/// Before the first pixel of a sprite row is drawn, the grid is as it was
/// and nothing has collided.
proof fn no_pixel_drawn(grid: Seq<bool>, x: int, y: int, row: u8)
    requires
        grid.len() == PIXEL_COUNT,
    ensures
        row_drawn_upto(grid, x, y, row, 0) == grid,
        !row_hits_upto(grid, x, y, row, 0),
{
    reveal(row_drawn_upto);
    reveal(row_hits_upto);
    assert(row_drawn_upto(grid, x, y, row, 0) =~= grid);
}

/// The one place in the grid that pixel `col` of a sprite row comes to: the
/// place in screen row `y` that lies `col` columns to the right of column
/// `x`, around the edge.
proof fn cell_of_sprite_pixel(x: int, y: int, col: int, i: int)
    requires
        0 <= y < HEIGHT,
        0 <= col < SPRITE_WIDTH,
        0 <= i < PIXEL_COUNT,
    ensures
        y % 32 == y,
        0 <= cell_of(x + col, y) < PIXEL_COUNT,
        cell_of(x + col, y) == y * 64 + (x % 64 + col) % 64,
        (i / 64 == y && (i % 64 - x) % 64 == col) <==> i == cell_of(x + col, y),
{
}

/// Drawing one more pixel of a sprite row: where the pixel is set, the
/// screen pixel under it, which the row has not come to before, is flipped.
proof fn next_pixel_drawn(grid: Seq<bool>, x: int, y: int, row: u8, col: int)
    requires
        grid.len() == PIXEL_COUNT,
        0 <= y < HEIGHT,
        0 <= col < SPRITE_WIDTH,
    ensures
        cell_of(x + col, y) == y * 64 + (x % 64 + col) % 64,
        0 <= cell_of(x + col, y) < PIXEL_COUNT,
        row_drawn_upto(grid, x, y, row, col)[cell_of(x + col, y)] == grid[cell_of(x + col, y)],
        row_drawn_upto(grid, x, y, row, col + 1) == if sprite_bit(row, col) {
            row_drawn_upto(grid, x, y, row, col).update(
                cell_of(x + col, y),
                !grid[cell_of(x + col, y)],
            )
        } else {
            row_drawn_upto(grid, x, y, row, col)
        },
{
    reveal(row_drawn_upto);
    let at = cell_of(x + col, y);
    cell_of_sprite_pixel(x, y, col, at);
    let sofar = row_drawn_upto(grid, x, y, row, col);
    let next = row_drawn_upto(grid, x, y, row, col + 1);
    let stepped = if sprite_bit(row, col) {
        sofar.update(at, !grid[at])
    } else {
        sofar
    };
    assert forall|i: int| 0 <= i < PIXEL_COUNT implies next[i] == stepped[i] by {
        cell_of_sprite_pixel(x, y, col, i);
    }
    assert(next =~= stepped);
}

/// Drawing one more pixel of a sprite row collides where the pixel is set and
/// the screen pixel under it is lit.
proof fn next_pixel_hits(grid: Seq<bool>, x: int, y: int, row: u8, col: int)
    requires
        0 <= col < SPRITE_WIDTH,
    ensures
        row_hits_upto(grid, x, y, row, col + 1) == (row_hits_upto(grid, x, y, row, col) || (
        sprite_bit(row, col) && grid[cell_of(x + col, y)])),
{
    reveal(row_hits_upto);
    if row_hits_upto(grid, x, y, row, col) {
        let c = choose|c: int|
            0 <= c < col && #[trigger] sprite_bit(row, c) && grid[cell_of(x + c, y)];
        assert(0 <= c < col + 1 && sprite_bit(row, c));
    }
    if row_hits_upto(grid, x, y, row, col + 1) {
        let c = choose|c: int|
            0 <= c < col + 1 && #[trigger] sprite_bit(row, c) && grid[cell_of(x + c, y)];
        if c < col {
            assert(row_hits_upto(grid, x, y, row, col));
        }
    }
}

/// The screen of one machine. Its view is the grid, row by row. Nothing but
/// `clear` writes a pixel outright: every other write is an XOR.
pub struct Framebuffer {
    pixels: [bool; 2048],
}

impl View for Framebuffer {
    type V = Seq<bool>;

    closed spec fn view(&self) -> Seq<bool> {
        self.pixels@
    }
}

impl Framebuffer {
    /// The view always has one entry per pixel.
    pub proof fn view_len(&self)
        ensures
            self@.len() == PIXEL_COUNT,
    {
    }

    /// A blank screen.
    pub fn new() -> (r: Self)
        ensures
            r@ == blank_grid(),
    {
        let r = Framebuffer { pixels: [false; 2048] };
        assert(r@ =~= blank_grid());
        r
    }

    /// Turns every pixel off.
    pub fn clear(&mut self)
        ensures
            final(self)@ == blank_grid(),
    {
        self.pixels = [false; 2048];
        assert(self@ =~= blank_grid());
    }

    /// The whole grid, for the host to render.
    pub fn snapshot(&self) -> (r: [bool; 2048])
        ensures
            r@ == self@,
    {
        self.pixels
    }

    /// Whether the pixel in column `x` and row `y` is lit, or `None` where the
    /// screen has no such pixel.
    pub fn pixel(&self, x: usize, y: usize) -> (r: Option<bool>)
        ensures
            x < WIDTH && y < HEIGHT ==> r == Some(self@[y * WIDTH + x]),
            x >= WIDTH || y >= HEIGHT ==> r is None,
    {
        if x < WIDTH && y < HEIGHT {
            Some(self.pixels[y * WIDTH + x])
        } else {
            None
        }
    }

    /// Draws one sprite row in row `y` of the screen.
    fn draw_row(&mut self, x: u8, y: usize, row: u8) -> (hit: bool)
        requires
            y < HEIGHT,
        ensures
            final(self)@ == row_drawn(old(self)@, x as int, y as int, row),
            hit == row_hits(old(self)@, x as int, y as int, row),
    {
        let left: usize = (x as usize) % WIDTH;
        let mut hit: bool = false;
        let mut col: u8 = 0;
        proof {
            self.view_len();
            no_pixel_drawn(self@, x as int, y as int, row);
        }
        while col < 8
            invariant
                col <= 8,
                y < HEIGHT,
                left == x as int % 64,
                old(self)@.len() == PIXEL_COUNT,
                self@ == row_drawn_upto(old(self)@, x as int, y as int, row, col as int),
                hit == row_hits_upto(old(self)@, x as int, y as int, row, col as int),
            decreases 8 - col,
        {
            let px: usize = (left + col as usize) % WIDTH;
            let at: usize = y * WIDTH + px;
            let set: bool = (row >> (7 - col)) & 1u8 == 1u8;
            proof {
                next_pixel_drawn(old(self)@, x as int, y as int, row, col as int);
                next_pixel_hits(old(self)@, x as int, y as int, row, col as int);
            }
            if set {
                if self.pixels[at] {
                    hit = true;
                }
                self.pixels[at] = !self.pixels[at];
            }
            col = col + 1;
        }
        hit
    }

    /// Draws a sprite with its top left pixel at `(x, y)`, taken around the
    /// edges of the screen: each set sprite pixel flips the pixel under it.
    /// Says whether a set sprite pixel met a pixel that was lit.
    pub fn draw_sprite(&mut self, x: u8, y: u8, sprite: &[u8]) -> (collision: bool)
        ensures
            final(self)@ == sprite_drawn(old(self)@, x as int, y as int, sprite@),
            collision == sprite_hits(old(self)@, x as int, y as int, sprite@),
    {
        let mut collision: bool = false;
        let mut py: usize = (y as usize) % HEIGHT;
        let mut r: usize = 0;
        while r < sprite.len()
            invariant
                r <= sprite@.len(),
                py == (y as int + r as int) % 32,
                self@ == rows_drawn(old(self)@, x as int, y as int, sprite@, r as int),
                collision == rows_hit(old(self)@, x as int, y as int, sprite@, r as int),
            decreases sprite@.len() - r,
        {
            proof {
                next_row_drawn(old(self)@, x as int, y as int, sprite@, r as int, py as int);
            }
            let hit: bool = self.draw_row(x, py, sprite[r]);
            if hit {
                collision = true;
            }
            py = (py + 1) % HEIGHT;
            r = r + 1;
        }
        collision
    }
}

/// Drawing keeps the size of the grid.
pub proof fn drawing_keeps_size(grid: Seq<bool>, x: int, y: int, sprite: Seq<u8>, rows: int)
    requires
        grid.len() == PIXEL_COUNT,
    ensures
        rows_drawn(grid, x, y, sprite, rows).len() == PIXEL_COUNT,
    decreases rows,
{
    reveal(row_drawn_upto);
    if rows > 0 {
        drawing_keeps_size(grid, x, y, sprite, rows - 1);
    }
}

/// One sprite row flips exactly the pixels of its screen row that it covers.
pub proof fn row_drawn_pixelwise(grid: Seq<bool>, x: int, y: int, row: u8)
    requires
        grid.len() == PIXEL_COUNT,
    ensures
        forall|px: int, py: int|
            on_screen(px, py) ==> #[trigger] lit(row_drawn(grid, x, y, row), px, py) == (lit(
                grid,
                px,
                py,
            ) != (py == y % (HEIGHT as int) && row_covers(row, x, px))),
{
    reveal(row_drawn_upto);
    assert forall|px: int, py: int| on_screen(px, py) implies #[trigger] lit(
        row_drawn(grid, x, y, row),
        px,
        py,
    ) == (lit(grid, px, py) != (py == y % (HEIGHT as int) && row_covers(row, x, px))) by {
        let i = py * (WIDTH as int) + px;
        assert(i / (WIDTH as int) == py && i % (WIDTH as int) == px);
    }
}

/// Pixel `col` of a sprite row that starts in column `x` comes to column
/// `(x + col) mod WIDTH`, and the way back from that column gives `col`.
pub proof fn column_of_sprite_pixel(x: int, col: int)
    requires
        0 <= col < WIDTH,
    ensures
        0 <= (x + col) % 64 < 64,
        ((x + col) % 64 - x) % 64 == col,
{
}

/// Column `px` of the screen lies `(px - x) mod WIDTH` pixels to the right of
/// column `x`, around the edge.
pub proof fn sprite_pixel_of_column(x: int, px: int)
    requires
        0 <= px < WIDTH,
    ensures
        0 <= (px - x) % 64 < 64,
        (x + (px - x) % 64) % 64 == px,
{
}

/// Where one sprite row collides, it covers a lit pixel of its screen row.
proof fn row_hit_is_covered(grid: Seq<bool>, x: int, y: int, row: u8) -> (px: int)
    requires
        row_hits(grid, x, y, row),
    ensures
        0 <= px < WIDTH,
        lit(grid, px, y % (HEIGHT as int)),
        row_covers(row, x, px),
{
    reveal(row_hits_upto);
    let c = choose|c: int|
        0 <= c < SPRITE_WIDTH && #[trigger] sprite_bit(row, c) && grid[cell_of(x + c, y)];
    column_of_sprite_pixel(x, c);
    (x + c) % 64
}

/// Where one sprite row covers a lit pixel of its screen row, it collides.
proof fn covered_is_row_hit(grid: Seq<bool>, x: int, y: int, row: u8, px: int)
    requires
        0 <= px < WIDTH,
        lit(grid, px, y % (HEIGHT as int)),
        row_covers(row, x, px),
    ensures
        row_hits(grid, x, y, row),
{
    reveal(row_hits_upto);
    let c = (px - x) % 64;
    sprite_pixel_of_column(x, px);
    assert(sprite_bit(row, c));
    assert(cell_of(x + c, y) == (y % (HEIGHT as int)) * (WIDTH as int) + px);
    assert(grid[cell_of(x + c, y)]);
}

/// One sprite row collides exactly where it covers a lit pixel of its screen
/// row.
pub proof fn row_hits_pixelwise(grid: Seq<bool>, x: int, y: int, row: u8)
    ensures
        row_hits(grid, x, y, row) <==> exists|px: int|
            0 <= px < WIDTH && lit(grid, px, y % (HEIGHT as int)) && #[trigger] row_covers(
                row,
                x,
                px,
            ),
{
    let here = y % (HEIGHT as int);
    if row_hits(grid, x, y, row) {
        let px = row_hit_is_covered(grid, x, y, row);
        assert(0 <= px < WIDTH && lit(grid, px, here) && row_covers(row, x, px));
    }
    if exists|px: int|
        0 <= px < WIDTH && lit(grid, px, here) && #[trigger] row_covers(row, x, px) {
        let px = choose|px: int|
            0 <= px < WIDTH && lit(grid, px, here) && #[trigger] row_covers(row, x, px);
        covered_is_row_hit(grid, x, y, row, px);
    }
}

/// Among at most `HEIGHT` rows, the one that comes to screen row `py` is row
/// `(py - y) mod HEIGHT` of the sprite.
pub proof fn row_of_screen_row(y: int, r: int, py: int)
    requires
        0 <= r < HEIGHT,
        0 <= py < HEIGHT,
    ensures
        (py == (y + r) % (HEIGHT as int)) == ((py - y) % (HEIGHT as int) == r),
{
}

/// The first `rows` rows of a sprite, at most `HEIGHT` of them, flip exactly
/// the pixels that they cover.
pub proof fn rows_drawn_pixelwise(grid: Seq<bool>, x: int, y: int, sprite: Seq<u8>, rows: int)
    requires
        grid.len() == PIXEL_COUNT,
        0 <= rows <= HEIGHT,
    ensures
        forall|px: int, py: int|
            on_screen(px, py) ==> #[trigger] lit(rows_drawn(grid, x, y, sprite, rows), px, py) == (
            lit(grid, px, py) != rows_cover(sprite, rows, x, y, px, py)),
    decreases rows,
{
    if rows > 0 {
        rows_drawn_pixelwise(grid, x, y, sprite, rows - 1);
        drawing_keeps_size(grid, x, y, sprite, rows - 1);
        let below = rows_drawn(grid, x, y, sprite, rows - 1);
        let row = sprite[rows - 1];
        row_drawn_pixelwise(below, x, y + rows - 1, row);
        assert forall|px: int, py: int| on_screen(px, py) implies #[trigger] lit(
            rows_drawn(grid, x, y, sprite, rows),
            px,
            py,
        ) == (lit(grid, px, py) != rows_cover(sprite, rows, x, y, px, py)) by {
            row_of_screen_row(y, rows - 1, py);
            assert(lit(row_drawn(below, x, y + rows - 1, row), px, py) == (lit(below, px, py) != (
            py == (y + rows - 1) % (HEIGHT as int) && row_covers(row, x, px))));
            assert(lit(below, px, py) == (lit(grid, px, py) != rows_cover(
                sprite,
                rows - 1,
                x,
                y,
                px,
                py,
            )));
        }
    }
}

/// The first `rows` rows of a sprite, at most `HEIGHT` of them, collide
/// exactly where they cover a pixel that was lit before the draw.
pub proof fn rows_hit_pixelwise(grid: Seq<bool>, x: int, y: int, sprite: Seq<u8>, rows: int)
    requires
        grid.len() == PIXEL_COUNT,
        0 <= rows <= HEIGHT,
    ensures
        rows_hit(grid, x, y, sprite, rows) <==> exists|px: int, py: int|
            on_screen(px, py) && lit(grid, px, py) && #[trigger] rows_cover(
                sprite,
                rows,
                x,
                y,
                px,
                py,
            ),
    decreases rows,
{
    if rows > 0 {
        rows_hit_pixelwise(grid, x, y, sprite, rows - 1);
        rows_drawn_pixelwise(grid, x, y, sprite, rows - 1);
        let below = rows_drawn(grid, x, y, sprite, rows - 1);
        let row = sprite[rows - 1];
        let here = (y + rows - 1) % (HEIGHT as int);
        row_hits_pixelwise(below, x, y + rows - 1, row);
        row_of_screen_row(y, rows - 1, here);
        let newly = row_hits(below, x, y + rows - 1, row);
        let covered = exists|px: int, py: int|
            on_screen(px, py) && lit(grid, px, py) && #[trigger] rows_cover(
                sprite,
                rows,
                x,
                y,
                px,
                py,
            );
        if newly {
            let px = choose|px: int|
                0 <= px < WIDTH && lit(below, px, here) && #[trigger] row_covers(row, x, px);
            assert(on_screen(px, here));
            assert(!rows_cover(sprite, rows - 1, x, y, px, here));
            assert(lit(grid, px, here) && rows_cover(sprite, rows, x, y, px, here));
            assert(covered);
        }
        if rows_hit(grid, x, y, sprite, rows - 1) {
            let (px, py) = choose|px: int, py: int|
                on_screen(px, py) && lit(grid, px, py) && #[trigger] rows_cover(
                    sprite,
                    rows - 1,
                    x,
                    y,
                    px,
                    py,
                );
            assert(rows_cover(sprite, rows, x, y, px, py));
            assert(covered);
        }
        if covered {
            let (px, py) = choose|px: int, py: int|
                on_screen(px, py) && lit(grid, px, py) && #[trigger] rows_cover(
                    sprite,
                    rows,
                    x,
                    y,
                    px,
                    py,
                );
            row_of_screen_row(y, rows - 1, py);
            if (py - y) % (HEIGHT as int) == rows - 1 {
                assert(py == here);
                assert(!rows_cover(sprite, rows - 1, x, y, px, py));
                assert(lit(below, px, here) && row_covers(row, x, px));
                assert(newly);
            } else {
                assert(rows_cover(sprite, rows - 1, x, y, px, py));
                assert(rows_hit(grid, x, y, sprite, rows - 1));
            }
        }
    }
}

/// A sprite of at most `HEIGHT` rows flips exactly the pixels that it
/// covers, and its collision flag says whether one of them was lit.
pub proof fn sprite_drawn_pixelwise(grid: Seq<bool>, x: int, y: int, sprite: Seq<u8>)
    requires
        grid.len() == PIXEL_COUNT,
        sprite.len() <= HEIGHT,
    ensures
        sprite_drawn(grid, x, y, sprite).len() == PIXEL_COUNT,
        forall|px: int, py: int|
            on_screen(px, py) ==> #[trigger] lit(sprite_drawn(grid, x, y, sprite), px, py) == (lit(
                grid,
                px,
                py,
            ) != sprite_covers(sprite, x, y, px, py)),
        sprite_hits(grid, x, y, sprite) <==> exists|px: int, py: int|
            on_screen(px, py) && lit(grid, px, py) && #[trigger] sprite_covers(
                sprite,
                x,
                y,
                px,
                py,
            ),
{
    rows_drawn_pixelwise(grid, x, y, sprite, sprite.len() as int);
    rows_hit_pixelwise(grid, x, y, sprite, sprite.len() as int);
    drawing_keeps_size(grid, x, y, sprite, sprite.len() as int);
    if sprite_hits(grid, x, y, sprite) {
        let (px, py) = choose|px: int, py: int|
            on_screen(px, py) && lit(grid, px, py) && #[trigger] rows_cover(
                sprite,
                sprite.len() as int,
                x,
                y,
                px,
                py,
            );
        assert(sprite_covers(sprite, x, y, px, py));
    }
}

/// Pixel `col` of row `r` of a sprite lands in column `x + col` and row
/// `y + r`, both taken around the edges of the screen: a sprite that sticks
/// out on the right or at the bottom comes back in on the left or at the
/// top.
pub proof fn sprite_wraps_around(sprite: Seq<u8>, x: int, y: int, r: int, col: int)
    requires
        sprite.len() <= HEIGHT,
        0 <= r < sprite.len(),
        0 <= col < SPRITE_WIDTH,
    ensures
        on_screen((x + col) % (WIDTH as int), (y + r) % (HEIGHT as int)),
        sprite_covers(sprite, x, y, (x + col) % (WIDTH as int), (y + r) % (HEIGHT as int))
            == sprite_bit(sprite[r], col),
{
    column_of_sprite_pixel(x, col);
    row_of_screen_row(y, r, (y + r) % (HEIGHT as int));
}

/// Drawing the same sprite twice in the same place gives back the grid as it
/// was, and the second draw collides exactly where the sprite covers a pixel
/// that was off before the first.
pub proof fn drawing_twice_restores(grid: Seq<bool>, x: int, y: int, sprite: Seq<u8>)
    requires
        grid.len() == PIXEL_COUNT,
        sprite.len() <= HEIGHT,
    ensures
        sprite_drawn(sprite_drawn(grid, x, y, sprite), x, y, sprite) == grid,
        sprite_hits(sprite_drawn(grid, x, y, sprite), x, y, sprite) <==> exists|px: int, py: int|
            on_screen(px, py) && !lit(grid, px, py) && #[trigger] sprite_covers(
                sprite,
                x,
                y,
                px,
                py,
            ),
{
    let once = sprite_drawn(grid, x, y, sprite);
    let twice = sprite_drawn(once, x, y, sprite);
    sprite_drawn_pixelwise(grid, x, y, sprite);
    sprite_drawn_pixelwise(once, x, y, sprite);
    assert forall|i: int| 0 <= i < PIXEL_COUNT implies twice[i] == grid[i] by {
        let px = i % (WIDTH as int);
        let py = i / (WIDTH as int);
        assert(on_screen(px, py));
        assert(lit(twice, px, py) == (lit(once, px, py) != sprite_covers(sprite, x, y, px, py)));
        assert(lit(once, px, py) == (lit(grid, px, py) != sprite_covers(sprite, x, y, px, py)));
    }
    assert(twice =~= grid);
    let unlit_covered = exists|px: int, py: int|
        on_screen(px, py) && !lit(grid, px, py) && #[trigger] sprite_covers(sprite, x, y, px, py);
    if sprite_hits(once, x, y, sprite) {
        let (px, py) = choose|px: int, py: int|
            on_screen(px, py) && lit(once, px, py) && #[trigger] sprite_covers(
                sprite,
                x,
                y,
                px,
                py,
            );
        assert(!lit(grid, px, py));
        assert(unlit_covered);
    }
    if unlit_covered {
        let (px, py) = choose|px: int, py: int|
            on_screen(px, py) && !lit(grid, px, py) && #[trigger] sprite_covers(
                sprite,
                x,
                y,
                px,
                py,
            );
        assert(lit(once, px, py));
    }
}

/// On a blank screen, a sprite with a set pixel leaves the screen blank when
/// it is drawn twice in the same place, and the second draw collides.
pub proof fn drawing_twice_on_blank(x: int, y: int, sprite: Seq<u8>, r: int, col: int)
    requires
        sprite.len() <= HEIGHT,
        0 <= r < sprite.len(),
        sprite_bit(sprite[r], col),
    ensures
        sprite_drawn(sprite_drawn(blank_grid(), x, y, sprite), x, y, sprite) == blank_grid(),
        sprite_hits(sprite_drawn(blank_grid(), x, y, sprite), x, y, sprite),
        !sprite_hits(blank_grid(), x, y, sprite),
{
    let grid = blank_grid();
    drawing_twice_restores(grid, x, y, sprite);
    sprite_drawn_pixelwise(grid, x, y, sprite);
    sprite_wraps_around(sprite, x, y, r, col);
    let px = (x + col) % (WIDTH as int);
    let py = (y + r) % (HEIGHT as int);
    assert(on_screen(px, py) && !lit(grid, px, py) && sprite_covers(sprite, x, y, px, py));
    assert forall|px: int, py: int| on_screen(px, py) implies !lit(grid, px, py) by {}
}

} // verus!
