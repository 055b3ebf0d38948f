use vstd::prelude::*;

verus! {

pub const SCREEN_WIDTH: u8 = 64;

pub const SCREEN_HEIGHT: u8 = 32;

/// Number of cells of the framebuffer: `SCREEN_WIDTH * SCREEN_HEIGHT`.
pub const SCREEN_SIZE: usize = 2048;

/// What a framebuffer holds: its cells, row-major, and whether it changed
/// since the host last consumed it.
pub ghost struct DisplayState {
    pub screen: Seq<u8>,
    pub dirty: bool,
}

/// Number of sprite rows that land on the screen when a sprite of `n` rows
/// is drawn at row `vy` (rows at or past the bottom edge are clipped).
pub open spec fn drawn_rows(vy: u8, n: u8) -> int {
    if vy >= SCREEN_HEIGHT {
        0
    } else if n <= SCREEN_HEIGHT - vy {
        n as int
    } else {
        SCREEN_HEIGHT - vy
    }
}

/// Number of sprite rows read from memory: the drawn rows, plus the row
/// whose position stops the drawing, if there is one.
pub open spec fn rows_read(vy: u8, n: u8) -> int {
    if drawn_rows(vy, n) < n {
        drawn_rows(vy, n) + 1
    } else {
        n as int
    }
}

/// Number of sprite columns that land on the screen when a sprite is drawn
/// at column `vx` (columns at or past the right edge are clipped).
pub open spec fn drawn_cols(vx: u8) -> int {
    if vx >= SCREEN_WIDTH {
        0
    } else if 8 <= SCREEN_WIDTH - vx {
        8
    } else {
        SCREEN_WIDTH - vx
    }
}

/// Pixel `c` (0 = leftmost) of a sprite row: bit `7 - c` of the byte.
pub open spec fn sprite_bit(row: u8, c: int) -> u8 {
    (row >> ((7 - c) as u8)) & 1
}

/// Whether cell `i` is drawn once the first `full` rows of the sprite are
/// complete and `extra` columns of the next row are done.
pub open spec fn covered(i: int, vx: u8, vy: u8, full: int, extra: int) -> bool {
    let px = i % (SCREEN_WIDTH as int);
    let py = i / (SCREEN_WIDTH as int);
    vx <= px && ((vy <= py < vy + full && px < vx + drawn_cols(vx)) || (py == vy + full && px
        < vx + extra))
}

/// The screen once part of a sprite is XOR-ed into it; sprite row `r` is
/// `rows[base + r]`.
pub open spec fn blit_partial(
    screen: Seq<u8>,
    rows: Seq<u8>,
    base: int,
    vx: u8,
    vy: u8,
    full: int,
    extra: int,
) -> Seq<u8> {
    Seq::new(
        screen.len(),
        |i: int|
            if covered(i, vx, vy, full, extra) {
                screen[i] ^ sprite_bit(
                    rows[base + i / (SCREEN_WIDTH as int) - vy],
                    i % (SCREEN_WIDTH as int) - vx,
                )
            } else {
                screen[i]
            },
    )
}

/// The screen once an `n`-row sprite at `(vx, vy)` is XOR-ed into it,
/// clipped at the right and bottom edges.
pub open spec fn blit(screen: Seq<u8>, rows: Seq<u8>, base: int, vx: u8, vy: u8, n: u8) -> Seq<
    u8,
> {
    blit_partial(screen, rows, base, vx, vy, drawn_rows(vy, n), 0)
}

/// The cell index of `(x, y)`.
pub open spec fn cell_index(x: int, y: int) -> int {
    y * SCREEN_WIDTH + x
}

/// A framebuffer of `SCREEN_WIDTH * SCREEN_HEIGHT` cells with a dirty flag.
pub struct Display {
    screen: [u8; SCREEN_SIZE],
    is_updated: bool,
}

impl View for Display {
    type V = DisplayState;

    closed spec fn view(&self) -> DisplayState {
        DisplayState { screen: self.screen@, dirty: self.is_updated }
    }
}

pub proof fn lemma_screen_len(d: &Display)
    ensures
        d@.screen.len() == SCREEN_SIZE,
{
}

impl Display {
    pub(crate) fn new() -> (r: Display)
        ensures
            r@.screen == Seq::new(SCREEN_SIZE as nat, |i: int| 0u8),
            r@.dirty,
    {
        let r = Display { screen: [0u8; SCREEN_SIZE], is_updated: true };
        assert(r@.screen =~= Seq::new(SCREEN_SIZE as nat, |i: int| 0u8));
        r
    }

    pub fn width(&self) -> (r: u8)
        ensures
            r == SCREEN_WIDTH,
    {
        SCREEN_WIDTH
    }

    pub fn height(&self) -> (r: u8)
        ensures
            r == SCREEN_HEIGHT,
    {
        SCREEN_HEIGHT
    }

    /// The cells, row-major, one byte each.
    pub fn data(&self) -> (r: &[u8])
        ensures
            r@ == self@.screen,
    {
        self.screen.as_slice()
    }

    pub(crate) fn clear(&mut self)
        ensures
            final(self)@.screen == Seq::new(SCREEN_SIZE as nat, |i: int| 0u8),
            final(self)@.dirty,
    {
        self.screen = [0u8; SCREEN_SIZE];
        self.is_updated = true;
        assert(self@.screen =~= Seq::new(SCREEN_SIZE as nat, |i: int| 0u8));
    }

    /// XOR-s `byte` into the cell at `(x, y)`.
    pub(crate) fn draw(&mut self, x: usize, y: usize, byte: u8)
        requires
            cell_index(x as int, y as int) < SCREEN_SIZE,
        ensures
            final(self)@.screen == old(self)@.screen.update(
                cell_index(x as int, y as int),
                old(self)@.screen[cell_index(x as int, y as int)] ^ byte,
            ),
            final(self)@.dirty == old(self)@.dirty,
    {
        let i = y * SCREEN_WIDTH as usize + x;
        self.screen[i] = self.screen[i] ^ byte;
    }

    pub fn set_is_updated(&mut self, is_updated: bool)
        ensures
            final(self)@ == (DisplayState { dirty: is_updated, ..old(self)@ }),
    {
        self.is_updated = is_updated;
    }

    pub fn is_updated(&self) -> (r: bool)
        ensures
            r == self@.dirty,
    {
        self.is_updated
    }

    /// Whether the cell at `(x, y)` is off.
    pub fn is_empty(&self, x: usize, y: usize) -> (r: bool)
        requires
            cell_index(x as int, y as int) < SCREEN_SIZE,
        ensures
            r == (self@.screen[cell_index(x as int, y as int)] == 0),
    {
        self.screen[y * SCREEN_WIDTH as usize + x] == 0
    }
}

} // verus!
