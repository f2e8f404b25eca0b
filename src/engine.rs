//! View state and escape-time cache of the explorer.
use vstd::prelude::*;

use crate::colour::{grey, grey_level};

verus! {

/// A pan command: which way the view centre moves.
#[derive(Clone, Copy, Debug, PartialEq, Eq, Structural)]
pub enum Direction {
    Up,
    Down,
    Left,
    Right,
}

impl Direction {
    /// Unit move of the view centre, as (real, imaginary). The imaginary axis
    /// grows downwards on screen, so `Up` lowers it.
    pub open spec fn unit(self) -> (int, int) {
        match self {
            Direction::Up => (0, -1),
            Direction::Down => (0, 1),
            Direction::Left => (-1, 0),
            Direction::Right => (1, 0),
        }
    }

    /// The command that undoes this one.
    pub open spec fn opposite(self) -> Direction {
        match self {
            Direction::Up => Direction::Down,
            Direction::Down => Direction::Up,
            Direction::Left => Direction::Right,
            Direction::Right => Direction::Left,
        }
    }

    /// The unit move of this command: the centre moves by `unit * 0.05 * zoom`.
    pub fn unit_step(self) -> (r: (i32, i32))
        ensures
            (r.0 as int, r.1 as int) == self.unit(),
    {
        match self {
            Direction::Up => (0, -1),
            Direction::Down => (0, 1),
            Direction::Left => (-1, 0),
            Direction::Right => (1, 0),
        }
    }
}

/// The abstract state of a [`Mandelbrot`].
///
/// `zoom_level` counts how many times the initial zoom has been halved
/// (negative when it has been doubled): the zoom is `initial / 2^zoom_level`,
/// which keeps halving and doubling exact. `cache` holds, for each pixel in
/// row-major order, the number of iterations its orbit survived.
pub struct RenderState {
    pub max_iterations: u32,
    pub zoom_level: i32,
    pub width: u32,
    pub height: u32,
    pub cache: Seq<u32>,
    pub changed: bool,
    pub resized: bool,
}

impl RenderState {
    /// Number of pixels of the viewport.
    pub open spec fn pixels(self) -> int {
        self.width as int * self.height as int
    }

    /// Well-formedness: a positive bound and viewport, a cache sized for the
    /// viewport whenever no resize is pending, a pending resize counting as a
    /// change, and every cached count within the bound.
    pub open spec fn wf(self) -> bool {
        &&& 0 < self.max_iterations
        &&& 0 < self.width
        &&& 0 < self.height
        &&& self.pixels() <= usize::MAX
        &&& (!self.resized ==> self.cache.len() == self.pixels())
        &&& (self.resized ==> self.changed)
        &&& forall|k: int| 0 <= k < self.cache.len() ==> #[trigger] self.cache[k] <= self.max_iterations
    }

    /// State after a zoom-in command.
    pub open spec fn zoomed_in(self) -> RenderState {
        RenderState { zoom_level: (self.zoom_level + 1) as i32, changed: true, ..self }
    }

    /// State after a zoom-out command.
    pub open spec fn zoomed_out(self) -> RenderState {
        RenderState { zoom_level: (self.zoom_level - 1) as i32, changed: true, ..self }
    }

    /// State after a pan command: only the rendered image is out of date.
    pub open spec fn panned(self) -> RenderState {
        RenderState { changed: true, ..self }
    }

    /// State after the viewport became `width` by `height` pixels.
    pub open spec fn resized_to(self, width: u32, height: u32) -> RenderState {
        RenderState { width, height, changed: true, resized: true, ..self }
    }

    /// State after the cache was recomputed to `counts`.
    pub open spec fn updated_with(self, counts: Seq<u32>) -> RenderState {
        RenderState { cache: counts, changed: false, resized: false, ..self }
    }

    /// State after a draw: a dirty cache is first recomputed to `counts`; a
    /// clean one is kept and `counts` is not read.
    pub open spec fn drawn(self, counts: Seq<u32>) -> RenderState {
        if self.changed {
            self.updated_with(counts)
        } else {
            self
        }
    }

    /// What a draw asks of the counts it is handed: on a dirty state, one
    /// count within the bound for each pixel of the viewport.
    pub open spec fn counts_fit(self, counts: Seq<u32>) -> bool {
        self.changed ==> {
            &&& counts.len() == self.pixels()
            &&& forall|k: int| 0 <= k < counts.len() ==> #[trigger] counts[k] <= self.max_iterations
        }
    }

    /// The RGBA8 frame of the cache: each pixel grey, fully opaque.
    pub open spec fn frame(self) -> Seq<u8> {
        Seq::new(
            (4 * self.cache.len()) as nat,
            |k: int|
                if k % 4 == 3 {
                    255u8
                } else {
                    grey(self.cache[k / 4] as int, self.max_iterations as int) as u8
                },
        )
    }
}

/// The explorer's view state together with its escape-time cache.
pub struct Mandelbrot {
    max_iterations: u32,
    zoom_level: i32,
    width: u32,
    height: u32,
    cache: Vec<u32>,
    changed: bool,
    resized: bool,
}

impl View for Mandelbrot {
    type V = RenderState;

    closed spec fn view(&self) -> RenderState {
        RenderState {
            max_iterations: self.max_iterations,
            zoom_level: self.zoom_level,
            width: self.width,
            height: self.height,
            cache: self.cache@,
            changed: self.changed,
            resized: self.resized,
        }
    }
}

impl Mandelbrot {
    /// A fresh explorer: zoom at its initial value, nothing cached yet, and
    /// both dirty flags set so that the first draw computes every pixel.
    pub fn new(max_iterations: u32, width: u32, height: u32) -> (r: Self)
        requires
            0 < max_iterations,
            0 < width,
            0 < height,
            width as int * height as int <= usize::MAX,
        ensures
            r@ == (RenderState {
                max_iterations,
                zoom_level: 0,
                width,
                height,
                cache: Seq::empty(),
                changed: true,
                resized: true,
            }),
            r@.wf(),
    {
        Mandelbrot {
            max_iterations,
            zoom_level: 0,
            width,
            height,
            cache: Vec::new(),
            changed: true,
            resized: true,
        }
    }

    /// Number of pixels of the viewport.
    pub fn pixel_count(&self) -> (r: usize)
        requires
            self@.wf(),
        ensures
            r as int == self@.pixels(),
    {
        (self.width as usize) * (self.height as usize)
    }

    /// Column and row of the pixel at row-major index `i`.
    pub fn pixel_position(&self, i: usize) -> (r: (u32, u32))
        requires
            self@.wf(),
            i < self@.pixels(),
        ensures
            r.0 as int == i as int % self@.width as int,
            r.1 as int == i as int / self@.width as int,
            r.0 < self@.width,
            r.1 < self@.height,
            r.0 as int + r.1 as int * self@.width as int == i as int,
    {
        let w = self.width as usize;
        let x = i % w;
        let y = i / w;
        proof {
            vstd::arithmetic::div_mod::lemma_fundamental_div_mod(i as int, w as int);
            let h = self.height as int;
            assert(y < h) by (nonlinear_arith)
                requires
                    i as int == w * y + x,
                    0 <= x,
                    i < w * h,
                    0 < w,
            ;
        }
        (x as u32, y as u32)
    }

    /// Recompute step: stores the escape-time count of every pixel.
    ///
    /// When a resize is pending the cache is first reallocated to the new
    /// pixel count, dropping every old value. Both dirty flags are cleared.
    pub fn update(&mut self, counts: &[u32])
        requires
            old(self)@.wf(),
            counts@.len() == old(self)@.pixels(),
            forall|k: int| 0 <= k < counts@.len() ==> #[trigger] counts@[k] <= old(self)@.max_iterations,
        ensures
            final(self)@ == old(self)@.updated_with(counts@),
            final(self)@.wf(),
    {
        let n = self.pixel_count();
        if self.resized {
            self.cache.clear();
            self.cache.resize(n, 0);
            self.resized = false;
        }
        let mut i: usize = 0;
        while i < n
            invariant
                n == counts@.len(),
                self.cache@.len() == n,
                i <= n,
                !self.resized,
                self.max_iterations == old(self).max_iterations,
                self.zoom_level == old(self).zoom_level,
                self.width == old(self).width,
                self.height == old(self).height,
                self.changed == old(self).changed,
                forall|k: int| 0 <= k < i ==> #[trigger] self.cache@[k] == counts@[k],
            decreases n - i,
        {
            self.cache[i] = counts[i];
            i = i + 1;
        }
        self.changed = false;
        assert(self.cache@ =~= counts@);
    }

    /// Draw step: when the view changed since the last recompute, stores
    /// `counts` as by [`Mandelbrot::update`] (the escape-time count of every
    /// pixel); then, dirty or not, writes the grey RGBA8 value of every cached
    /// pixel to `screen`, row-major, four bytes per pixel. On a clean state
    /// `counts` is not read and may be empty.
    pub fn draw(&mut self, screen: &mut [u8], counts: &[u32])
        requires
            old(self)@.wf(),
            old(screen)@.len() == 4 * old(self)@.pixels(),
            old(self)@.counts_fit(counts@),
        ensures
            final(self)@ == old(self)@.drawn(counts@),
            final(self)@.wf(),
            !final(self)@.changed,
            !final(self)@.resized,
            final(screen)@ == final(self)@.frame(),
    {
        if self.changed {
            self.update(counts);
        }
        self.rasterise(screen);
    }

    /// Writes the grey RGBA8 value of every cached pixel of a clean state to
    /// `screen`, row-major, four bytes per pixel.
    fn rasterise(&self, screen: &mut [u8])
        requires
            self@.wf(),
            !self@.changed,
            old(screen)@.len() == 4 * self@.pixels(),
        ensures
            final(screen)@ == self@.frame(),
    {
        let n = self.pixel_count();
        let w = self.width as usize;
        let total = screen.len();
        let mut i: usize = 0;
        while i < n
            invariant
                self@.wf(),
                total == screen@.len(),
                !self@.changed,
                n == self@.pixels(),
                n == self.cache@.len(),
                w == self.width,
                screen@.len() == 4 * n,
                i <= n,
                forall|k: int| 0 <= k < 4 * i ==> #[trigger] screen@[k] == self@.frame()[k],
            decreases n - i,
        {
            let (x, y) = self.pixel_position(i);
            let count = self.cache[x as usize + y as usize * w];
            let g = grey_level(count, self.max_iterations);
            screen[4 * i] = g;
            screen[4 * i + 1] = g;
            screen[4 * i + 2] = g;
            screen[4 * i + 3] = 255;
            proof {
                assert forall|k: int| 0 <= k < 4 * (i + 1) implies #[trigger] screen@[k]
                    == self@.frame()[k] by {
                    if k >= 4 * i {
                        assert(k / 4 == i);
                    }
                }
            }
            i = i + 1;
        }
        assert(screen@ =~= self@.frame());
    }
    /// Zoom-in command: halves the zoom.
    pub fn zoom_in(&mut self)
        requires
            old(self)@.wf(),
            old(self)@.zoom_level < i32::MAX,
        ensures
            final(self)@ == old(self)@.zoomed_in(),
            final(self)@.wf(),
    {
        self.zoom_level = self.zoom_level + 1;
        self.changed = true;
    }

    /// Zoom-out command: doubles the zoom.
    pub fn zoom_out(&mut self)
        requires
            old(self)@.wf(),
            old(self)@.zoom_level > i32::MIN,
        ensures
            final(self)@ == old(self)@.zoomed_out(),
            final(self)@.wf(),
    {
        self.zoom_level = self.zoom_level - 1;
        self.changed = true;
    }

    /// Pan command: marks the image out of date and returns the unit move of
    /// the view centre, which the caller scales by `0.05 * zoom`.
    pub fn pan(&mut self, direction: Direction) -> (r: (i32, i32))
        requires
            old(self)@.wf(),
        ensures
            (r.0 as int, r.1 as int) == direction.unit(),
            final(self)@ == old(self)@.panned(),
            final(self)@.wf(),
    {
        self.changed = true;
        direction.unit_step()
    }

    /// The viewport became `width` by `height` pixels: both dirty flags are
    /// set, and the next update reallocates the cache.
    pub fn resize(&mut self, width: u32, height: u32)
        requires
            old(self)@.wf(),
            0 < width,
            0 < height,
            width as int * height as int <= usize::MAX,
        ensures
            final(self)@ == old(self)@.resized_to(width, height),
            final(self)@.wf(),
    {
        self.width = width;
        self.height = height;
        self.changed = true;
        self.resized = true;
    }

    /// Iteration bound of the escape-time computation.
    pub fn max_iterations(&self) -> (r: u32)
        ensures
            r == self@.max_iterations,
    {
        self.max_iterations
    }

    /// Number of halvings of the initial zoom (negative for doublings).
    pub fn zoom_level(&self) -> (r: i32)
        ensures
            r == self@.zoom_level,
    {
        self.zoom_level
    }

    /// Viewport width in pixels.
    pub fn width(&self) -> (r: u32)
        ensures
            r == self@.width,
    {
        self.width
    }

    /// Viewport height in pixels.
    pub fn height(&self) -> (r: u32)
        ensures
            r == self@.height,
    {
        self.height
    }

    /// Whether the cache is out of date, so that an update must precede the
    /// next draw.
    pub fn changed(&self) -> (r: bool)
        ensures
            r == self@.changed,
    {
        self.changed
    }

    /// Whether the viewport size changed since the cache was last allocated.
    pub fn resized(&self) -> (r: bool)
        ensures
            r == self@.resized,
    {
        self.resized
    }

    /// The cached escape-time counts, row-major.
    pub fn cache(&self) -> (r: &[u32])
        ensures
            r@ == self@.cache,
    {
        self.cache.as_slice()
    }
}


} // verus!
