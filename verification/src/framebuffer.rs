use vstd::prelude::*;

verus! {

/// A `width` x `height` grid of packed `0x00RRGGBB` pixels, stored row by
/// row, with the colour that `clear` fills it with and the colour that
/// `point` draws with.
pub struct Framebuffer {
    pub width: usize,
    pub height: usize,
    pub buffer: Vec<u32>,
    pub background_color: u32,
    pub current_color: u32,
}

impl Framebuffer {
    /// The buffer holds exactly one pixel for each cell of the grid.
    pub open spec fn wf(&self) -> bool {
        self.buffer@.len() == self.width * self.height
    }

    /// Whether `(x, y)` names a cell of the grid.
    pub open spec fn in_bounds(&self, x: usize, y: usize) -> bool {
        x < self.width && y < self.height
    }

    /// The place of cell `(x, y)` in the buffer.
    pub open spec fn index_of(&self, x: usize, y: usize) -> int {
        y * self.width + x
    }

    /// The pixel at `(x, y)`; black outside the grid.
    pub open spec fn pixel(&self, x: usize, y: usize) -> u32 {
        if self.in_bounds(x, y) {
            self.buffer@[self.index_of(x, y)]
        } else {
            0
        }
    }

    /// A cell inside the grid has its place inside the buffer, and two
    /// different cells have different places.
    pub proof fn lemma_index_of(&self, x: usize, y: usize)
        requires
            self.wf(),
            self.in_bounds(x, y),
        ensures
            0 <= y * self.width <= self.index_of(x, y) < self.buffer@.len() <= usize::MAX,
            forall|x2: usize, y2: usize|
                self.in_bounds(x2, y2) && (x2 != x || y2 != y) ==> #[trigger] self.index_of(x2, y2)
                    != self.index_of(x, y),
    {
        let w = self.width as int;
        assert(self.buffer@.len() == self.buffer.len());
        assert(0 <= y * w <= y * w + x < w * self.height) by (nonlinear_arith)
            requires
                0 <= x < w,
                0 <= y < self.height,
        ;
        assert forall|x2: usize, y2: usize|
            self.in_bounds(x2, y2) && (x2 != x || y2 != y) implies #[trigger] self.index_of(x2, y2)
            != self.index_of(x, y) by {
            assert(y2 * w + x2 != y * w + x) by (nonlinear_arith)
                requires
                    0 <= x < w,
                    0 <= x2 < w,
                    0 <= y,
                    0 <= y2,
                    x2 != x || y2 != y,
            ;
        }
    }

    /// A black buffer of the given size that clears to black and draws in
    /// white.
    pub fn new(width: usize, height: usize) -> (fb: Framebuffer)
        requires
            width * height <= usize::MAX,
        ensures
            fb.wf(),
            fb.width == width,
            fb.height == height,
            fb.background_color == 0x000000,
            fb.current_color == 0xFFFFFF,
            forall|i: int| 0 <= i < fb.buffer@.len() ==> fb.buffer@[i] == 0,
    {
        Framebuffer {
            width,
            height,
            buffer: vec![0; width * height],
            background_color: 0x000000,
            current_color: 0xFFFFFF,
        }
    }

    /// The pixel at `(x, y)`, or black if `(x, y)` is outside the grid.
    pub fn get_pixel_color(&self, x: usize, y: usize) -> (color: u32)
        requires
            self.wf(),
        ensures
            color == self.pixel(x, y),
    {
        if x < self.width && y < self.height {
            proof {
                self.lemma_index_of(x, y);
            }
            let index = y * self.width + x;
            self.buffer[index]
        } else {
            0x000000
        }
    }

    /// Fills every pixel with the background colour.
    pub fn clear(&mut self)
        ensures
            old(self).wf() ==> final(self).wf(),
            final(self).width == old(self).width,
            final(self).height == old(self).height,
            final(self).background_color == old(self).background_color,
            final(self).current_color == old(self).current_color,
            final(self).buffer@.len() == old(self).buffer@.len(),
            forall|i: int|
                0 <= i < final(self).buffer@.len() ==> final(self).buffer@[i] == old(self).background_color,
    {
        let n = self.buffer.len();
        let mut i: usize = 0;
        while i < n
            invariant
                i <= n,
                n == self.buffer@.len(),
                self.width == old(self).width,
                self.height == old(self).height,
                self.background_color == old(self).background_color,
                self.current_color == old(self).current_color,
                self.buffer@.len() == old(self).buffer@.len(),
                forall|j: int| 0 <= j < i ==> self.buffer@[j] == self.background_color,
            decreases n - i,
        {
            let color = self.background_color;
            self.buffer.set(i, color);
            i += 1;
        }
    }

    /// Draws the current colour at `(x, y)`. Outside the grid nothing
    /// changes.
    pub fn point(&mut self, x: usize, y: usize)
        requires
            old(self).wf(),
        ensures
            final(self).wf(),
            final(self).width == old(self).width,
            final(self).height == old(self).height,
            final(self).background_color == old(self).background_color,
            final(self).current_color == old(self).current_color,
            old(self).in_bounds(x, y) ==> final(self).buffer@ == old(self).buffer@.update(
                old(self).index_of(x, y),
                old(self).current_color,
            ),
            !old(self).in_bounds(x, y) ==> final(self).buffer@ == old(self).buffer@,
    {
        if x < self.width && y < self.height {
            proof {
                self.lemma_index_of(x, y);
            }
            let index = y * self.width + x;
            let color = self.current_color;
            self.buffer.set(index, color);
        }
    }

    /// Sets the colour that `clear` fills with.
    pub fn set_background_color(&mut self, color: u32)
        ensures
            *final(self) == (Framebuffer { background_color: color, ..*old(self) }),
    {
        self.background_color = color;
    }

    /// Sets the colour that `point` draws with.
    pub fn set_current_color(&mut self, color: u32)
        ensures
            *final(self) == (Framebuffer { current_color: color, ..*old(self) }),
    {
        self.current_color = color;
    }
}

} // verus!
