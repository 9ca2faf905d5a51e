use vstd::prelude::*;

verus! {

/// Number of pixel columns.
pub const SCREEN_WIDTH: usize = 64;

/// Number of pixel rows.
pub const SCREEN_HEIGHT: usize = 32;

/// A grid shaped like the display: `SCREEN_WIDTH` columns of `SCREEN_HEIGHT` pixels.
pub open spec fn grid_wf(g: Seq<Seq<bool>>) -> bool {
    &&& g.len() == SCREEN_WIDTH
    &&& forall|x: int| 0 <= x < SCREEN_WIDTH ==> (#[trigger] g[x]).len() == SCREEN_HEIGHT
}

/// The grid with every pixel off.
pub open spec fn blank_grid() -> Seq<Seq<bool>> {
    Seq::new(SCREEN_WIDTH as nat, |x: int| Seq::new(SCREEN_HEIGHT as nat, |y: int| false))
}

/// Monochrome framebuffer.
pub struct Screen {
    pixels: [bool; 2048],
}

impl View for Screen {
    type V = Seq<Seq<bool>>;

    /// The pixels by column, then row: `self@[x][y]` is the pixel at `(x, y)`.
    closed spec fn view(&self) -> Seq<Seq<bool>> {
        Seq::new(
            SCREEN_WIDTH as nat,
            |x: int| Seq::new(SCREEN_HEIGHT as nat, |y: int| self.pixels@[x * SCREEN_HEIGHT + y]),
        )
    }
}

impl Screen {
    /// A screen with every pixel off.
    pub fn new() -> (s: Screen)
        ensures
            s@ == blank_grid(),
            grid_wf(s@),
    {
        let s = Screen { pixels: [false; 2048] };
        assert(s@ =~~= blank_grid());
        s
    }

    /// The view always has the display's shape.
    pub proof fn lemma_shape(&self)
        ensures
            grid_wf(self@),
    {
    }

    /// Writes one pixel and leaves the others as they were.
    pub fn set_pixel(&mut self, pos: (usize, usize), val: bool)
        requires
            pos.0 < SCREEN_WIDTH,
            pos.1 < SCREEN_HEIGHT,
        ensures
            final(self)@ == old(self)@.update(
                pos.0 as int,
                old(self)@[pos.0 as int].update(pos.1 as int, val),
            ),
            grid_wf(final(self)@),
    {
        self.pixels[pos.0 * SCREEN_HEIGHT + pos.1] = val;
        assert(self@ =~~= old(self)@.update(
            pos.0 as int,
            old(self)@[pos.0 as int].update(pos.1 as int, val),
        ));
    }

    /// Reads one pixel.
    pub fn get_pixel(&self, pos: (usize, usize)) -> (lit: bool)
        requires
            pos.0 < SCREEN_WIDTH,
            pos.1 < SCREEN_HEIGHT,
        ensures
            lit == self@[pos.0 as int][pos.1 as int],
    {
        self.pixels[pos.0 * SCREEN_HEIGHT + pos.1]
    }
}

} // verus!
