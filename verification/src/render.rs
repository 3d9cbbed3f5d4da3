use vstd::prelude::*;

verus! {

/// One opaque colour, as the gradient evaluation hands it back.
#[derive(Clone, Copy, Debug, PartialEq, Eq, Structural)]
pub struct Rgb {
    pub r: u8,
    pub g: u8,
    pub b: u8,
}

/// The renderer's internally owned RGBA pixel buffer, one texel per matrix
/// cell. The pixel order is row-major over the matrix as stored: pixel `i`
/// shows cell `(i / cols, i % cols)`, so the image is `cols` wide and
/// `rows` high; this one orientation is applied uniformly. The buffer is
/// allocated once and rewritten in place on every frame; its alpha bytes
/// are set to fully opaque at construction and never touched again.
pub struct Renderer {
    /// Height of the image: the matrix row count.
    pub rows: usize,
    /// Width of the image: the matrix column count.
    pub cols: usize,
    /// The RGBA bytes, `rows * cols * 4` of them.
    pub buf: Vec<u8>,
}

impl Renderer {
    /// The buffer has exactly four bytes per cell and every alpha byte is
    /// fully opaque.
    pub open spec fn wf(self) -> bool {
        &&& self.buf@.len() == self.rows * self.cols * 4
        &&& forall|i: int| 0 <= i < self.buf@.len() && i % 4 == 3 ==> self.buf@[i] == 255
    }

    /// Allocates the buffer for a `rows` by `cols` matrix, every byte fully
    /// opaque white until the first frame is written.
    pub fn new(rows: usize, cols: usize) -> (r: Renderer)
        requires
            rows * cols * 4 <= usize::MAX,
        ensures
            r.wf(),
            r.rows == rows,
            r.cols == cols,
            forall|i: int| 0 <= i < r.buf@.len() ==> r.buf@[i] == 255,
    {
        let cells = rows * cols;
        let buf = vec![255u8; cells * 4];
        Renderer { rows, cols, buf }
    }

    /// Writes one frame: colour `i` goes to bytes `4i, 4i+1, 4i+2` of the
    /// buffer, and the alpha byte after them stays fully opaque. The buffer
    /// is updated in place and keeps its length.
    pub fn write_pixels(&mut self, colors: &Vec<Rgb>)
        requires
            old(self).wf(),
            colors@.len() == old(self).rows * old(self).cols,
        ensures
            final(self).wf(),
            final(self).rows == old(self).rows,
            final(self).cols == old(self).cols,
            final(self).buf@.len() == old(self).buf@.len(),
            forall|i: int|
                0 <= i < colors@.len() ==> {
                    &&& final(self).buf@[4 * i] == colors@[i].r
                    &&& final(self).buf@[4 * i + 1] == colors@[i].g
                    &&& final(self).buf@[4 * i + 2] == colors@[i].b
                    &&& final(self).buf@[4 * i + 3] == 255
                },
    {
        let n = colors.len();
        proof {
            assert(self.buf.len() == self.buf@.len());
            assert(n * 4 <= usize::MAX);
        }
        let mut i: usize = 0;
        while i < n
            invariant
                n == colors@.len(),
                n * 4 <= usize::MAX,
                i <= n,
                self.rows == old(self).rows,
                self.cols == old(self).cols,
                self.buf@.len() == old(self).buf@.len(),
                old(self).wf(),
                n * 4 <= self.buf@.len(),
                forall|k: int| 0 <= k < self.buf@.len() && k % 4 == 3 ==> self.buf@[k] == 255,
                forall|k: int|
                    0 <= k < i ==> {
                        &&& self.buf@[4 * k] == colors@[k].r
                        &&& self.buf@[4 * k + 1] == colors@[k].g
                        &&& self.buf@[4 * k + 2] == colors@[k].b
                    },
            decreases n - i,
        {
            let base = i * 4;
            let c = colors[i];
            self.buf[base] = c.r;
            self.buf[base + 1] = c.g;
            self.buf[base + 2] = c.b;
            i = i + 1;
        }
    }

    /// The rendered RGBA bytes of the latest frame.
    pub fn image_bytes(&self) -> (r: &Vec<u8>)
        ensures
            r == self.buf,
    {
        &self.buf
    }
}

} // verus!
