use vstd::prelude::*;

verus! {

/// Horizontal pixel count of the monochrome grid.
pub const WIDTH: usize = 64;

/// Vertical pixel count of the monochrome grid.
pub const HEIGHT: usize = 32;

/// Total cell count of the grid, row-major.
pub const SCREEN_PIXELS: usize = WIDTH * HEIGHT;

/// Rendering back end: receives a full grid snapshot whenever the grid has
/// changed since it was last drawn. It has no access to any other state.
pub trait DisplayDriver {
    fn draw_pixels(&mut self, data: [bool; SCREEN_PIXELS]);
}

/// Ghost image of the display: the grid (row-major, `true` = lit), the
/// dirty flag owed to the renderer, and the per-draw collision accumulator.
pub struct DisplayView {
    pub screen: Seq<bool>,
    pub dirty: bool,
    pub collision: bool,
}

/// Pixel buffer with XOR-blit drawing, collision detection and a dirty flag
/// for the rendering adapter.
pub struct Display<DisplayDriverT: DisplayDriver> {
    screen: [bool; SCREEN_PIXELS],
    display_driver: DisplayDriverT,
    dirty: bool,
    collision: bool,
}

impl<DisplayDriverT: DisplayDriver> View for Display<DisplayDriverT> {
    type V = DisplayView;

    closed spec fn view(&self) -> DisplayView {
        DisplayView { screen: self.screen@, dirty: self.dirty, collision: self.collision }
    }
}

/// A grid with every cell off.
pub open spec fn blank_screen() -> Seq<bool> {
    Seq::new(SCREEN_PIXELS as nat, |p: int| false)
}

/// Bit `i` of a sprite row byte, counting the most significant bit as bit 0
/// (the leftmost pixel of the row).
pub open spec fn bit_of(bits: u8, i: int) -> bool {
    bits & (1u8 << ((7 - i) as u8)) != 0
}

/// Whether a sprite row at raw vertical position `y` is drawn at all: rows
/// are clipped once the sprite runs past the wrap boundary below its start
/// row `start_y` (a sprite wraps as a whole, never mid-sprite).
pub open spec fn row_visible(y: u8, start_y: u8) -> bool {
    (y as int) < ((start_y as int / HEIGHT as int) + 1) * (HEIGHT as int)
}

/// The grid cell hit by pixel `i` of a row whose start lands at column
/// `x % WIDTH` of grid row `y % HEIGHT`.
pub open spec fn row_cell(x: u8, y: u8, i: int) -> int {
    (y as int % HEIGHT as int) * (WIDTH as int) + (x as int % WIDTH as int) + i
}

/// The grid after XOR-blitting the first `k` pixels of a sprite row byte at
/// `(x, y)`: a pixel lands at column `(x % WIDTH) + i` of row `y % HEIGHT`
/// and is clipped, not wrapped, where that column runs past the right edge.
pub open spec fn blit_row_upto(screen: Seq<bool>, x: u8, y: u8, bits: u8, k: int) -> Seq<bool> {
    Seq::new(
        screen.len(),
        |p: int|
            {
                let c0 = x as int % WIDTH as int;
                if row_cell(x, y, 0) <= p < row_cell(x, y, k) && c0 + (p - row_cell(x, y, 0))
                    < WIDTH as int {
                    screen[p] != bit_of(bits, p - row_cell(x, y, 0))
                } else {
                    screen[p]
                }
            },
    )
}

/// The grid after XOR-blitting a whole sprite row byte at `(x, y)`.
pub open spec fn blit_row(screen: Seq<bool>, x: u8, y: u8, bits: u8) -> Seq<bool> {
    blit_row_upto(screen, x, y, bits, 8)
}

/// Whether one of the first `k` pixels of the row byte turns a lit cell off:
/// a set sprite bit that lands, unclipped, on a cell already on.
pub open spec fn row_collides_upto(screen: Seq<bool>, x: u8, y: u8, bits: u8, k: int) -> bool {
    exists|i: int|
        0 <= i < k && (x as int % WIDTH as int) + i < WIDTH as int && bit_of(bits, i)
            && screen[row_cell(x, y, i)]
}

/// Whether blitting the row byte at `(x, y)` turns any lit cell off.
pub open spec fn row_collides(screen: Seq<bool>, x: u8, y: u8, bits: u8) -> bool {
    row_collides_upto(screen, x, y, bits, 8)
}

/// XOR self-cancels: blitting the same sprite row twice at the same spot
/// restores the grid exactly.
pub proof fn lemma_blit_row_self_inverse(screen: Seq<bool>, x: u8, y: u8, bits: u8)
    ensures
        blit_row(blit_row(screen, x, y, bits), x, y, bits) == screen,
{
    assert(blit_row(blit_row(screen, x, y, bits), x, y, bits) =~= screen);
}

/// A draw collides only through the cells of its own row: on a grid that is
/// off at every unclipped cell the row touches, no collision is reported.
/// In particular a draw on a blank grid, or of two rows that share no cell,
/// reports none.
pub proof fn lemma_disjoint_row_no_collision(screen: Seq<bool>, x: u8, y: u8, bits: u8)
    requires
        forall|i: int|
            0 <= i < 8 && (x as int % WIDTH as int) + i < WIDTH as int ==> !screen[row_cell(
                x,
                y,
                i,
            )],
    ensures
        !row_collides(screen, x, y, bits),
{
}

/// The second draw of a row on a formerly blank grid reports a collision
/// exactly when the row has at least one set bit that is not clipped.
pub proof fn lemma_redraw_collides(x: u8, y: u8, bits: u8)
    requires
        exists|i: int|
            0 <= i < 8 && (x as int % WIDTH as int) + i < WIDTH as int && bit_of(bits, i),
    ensures
        row_collides(blit_row(blank_screen(), x, y, bits), x, y, bits),
{
    let i = choose|i: int|
        0 <= i < 8 && (x as int % WIDTH as int) + i < WIDTH as int && bit_of(bits, i);
    assert(blit_row(blank_screen(), x, y, bits)[row_cell(x, y, i)]);
}

impl<DisplayDriverT: DisplayDriver> Display<DisplayDriverT> {
    /// A blank display that owes the renderer a first frame.
    pub fn new(display_driver: DisplayDriverT) -> (d: Display<DisplayDriverT>)
        ensures
            d@ == (DisplayView { screen: blank_screen(), dirty: true, collision: false }),
    {
        let d = Display {
            screen: [false; SCREEN_PIXELS],
            display_driver,
            dirty: true,
            collision: false,
        };
        proof {
            assert(d@.screen =~= blank_screen());
        }
        d
    }

    /// Turns every cell off and marks the grid dirty.
    pub fn clear(&mut self)
        ensures
            final(self)@ == (DisplayView {
                screen: blank_screen(),
                dirty: true,
                collision: old(self)@.collision,
            }),
    {
        self.screen = [false; SCREEN_PIXELS];
        self.dirty = true;
        proof {
            assert(self@.screen =~= blank_screen());
        }
    }

    /// Hands the renderer a snapshot if the grid changed since the last
    /// draw, and clears the dirty flag; the grid itself is untouched.
    pub fn draw_if_dirty(&mut self)
        ensures
            final(self)@ == (DisplayView { dirty: false, ..old(self)@ }),
    {
        if self.dirty {
            let snapshot = self.screen;
            self.display_driver.draw_pixels(snapshot);
            self.dirty = false;
        }
    }

    /// Whether any blit since the last `begin_draw` turned a lit cell off.
    pub fn did_collide(&self) -> (r: bool)
        ensures
            r == self@.collision,
    {
        self.collision
    }

    /// XOR-blits one sprite row byte whose sprite started at row `start_y`.
    /// A row past the wrap boundary below `start_y` is clipped whole (the
    /// display is then left untouched); otherwise the eight pixels land at
    /// `(x % WIDTH) + i` of row `y % HEIGHT`, clipped at the right edge,
    /// collisions are accumulated, and the grid is marked dirty.
    pub fn set_pixels(&mut self, x: u8, y: u8, pixels: u8, start_y: u8)
        ensures
            row_visible(y, start_y) ==> final(self)@ == (DisplayView {
                screen: blit_row(old(self)@.screen, x, y, pixels),
                dirty: true,
                collision: old(self)@.collision || row_collides(old(self)@.screen, x, y, pixels),
            }),
            !row_visible(y, start_y) ==> final(self)@ == old(self)@,
    {
        let clip_y: u16 = (((start_y as usize / HEIGHT) + 1) * HEIGHT) as u16;

        if (y as u16) >= clip_y {
            return ;
        }
        let ix: usize = (x as usize % WIDTH) + ((y as usize % HEIGHT) * WIDTH);
        let ghost first = row_cell(x, y, 0);
        assert(ix == first);

        let mut i: usize = 0;
        while i < 8
            invariant
                i <= 8,
                ix == first,
                first == row_cell(x, y, 0),
                0 <= first,
                first + 8 <= (HEIGHT as int) * (WIDTH as int) + (WIDTH as int),
                self@.screen.len() == SCREEN_PIXELS,
                old(self)@.screen.len() == SCREEN_PIXELS,
                self@.screen =~= blit_row_upto(old(self)@.screen, x, y, pixels, i as int),
                self@.collision == (old(self)@.collision || row_collides_upto(
                    old(self)@.screen,
                    x,
                    y,
                    pixels,
                    i as int,
                )),
                self@.dirty == old(self)@.dirty,
            decreases 8 - i,
        {
            let shift: u8 = (7 - i) as u8;
            let pixel: bool = pixels & (1u8 << shift) != 0;
            let clip_x: usize = WIDTH + ((y as usize % HEIGHT) * WIDTH);
            let pixel_pos: usize = ix + i;

            proof {
                assert(bit_of(pixels, i as int) == pixel);
                assert(pixel_pos < clip_x <==> (x as int % WIDTH as int) + i < WIDTH as int);
            }
            if pixel_pos < clip_x {
                let was_on: bool = self.screen[pixel_pos];
                self.collision = self.collision || (was_on && pixel);
                self.screen[pixel_pos] = was_on != pixel;
                proof {
                    assert(blit_row_upto(old(self)@.screen, x, y, pixels, i as int)[pixel_pos
                        as int] == old(self)@.screen[pixel_pos as int]);
                    assert(self@.screen =~= blit_row_upto(
                        old(self)@.screen,
                        x,
                        y,
                        pixels,
                        i as int + 1,
                    ));
                    if was_on && pixel {
                        assert(row_collides_upto(old(self)@.screen, x, y, pixels, i as int + 1));
                    }
                    assert(row_collides_upto(old(self)@.screen, x, y, pixels, i as int + 1)
                        ==> (row_collides_upto(old(self)@.screen, x, y, pixels, i as int) || (
                    was_on && pixel)));
                }
            } else {
                proof {
                    assert(self@.screen =~= blit_row_upto(
                        old(self)@.screen,
                        x,
                        y,
                        pixels,
                        i as int + 1,
                    ));
                    assert(row_collides_upto(old(self)@.screen, x, y, pixels, i as int + 1)
                        == row_collides_upto(old(self)@.screen, x, y, pixels, i as int));
                }
            }
            i = i + 1;
        }

        self.dirty = true;
        proof {
            assert(self@.screen =~= blit_row(old(self)@.screen, x, y, pixels));
        }
    }

    /// Resets the per-draw collision accumulator; called once before the
    /// row blits of each draw instruction.
    pub fn begin_draw(&mut self)
        ensures
            final(self)@ == (DisplayView { collision: false, ..old(self)@ }),
    {
        self.collision = false;
    }
}

} // verus!
