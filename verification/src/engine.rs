use vstd::prelude::*;

use crate::chain::{spec_step_backward, spec_step_forward, StepAction, TransformChain};
use crate::errors::EngineError;
use crate::gradient::{default_gradient_name, is_gradient_name, select_gradient};
use crate::keys::KeySeries;
use crate::render::{Renderer, Rgb};

verus! {

/// The pixel dimensions of the rendered image: as wide as the matrix has
/// columns and as high as it has rows.
#[derive(Clone, Copy, Debug, PartialEq, Eq, Structural)]
pub struct Size {
    pub width: usize,
    pub height: usize,
}

/// The control core of one animation session: the stepping chain, the
/// renderer's pixel buffer, and the active gradient name. The owner of the
/// numeric matrices drives it: every step hands back the action to perform
/// on the current matrix, after which the owner evaluates the gradient on
/// each cell and hands the colours to `render_bytes`.
pub struct AnimState {
    /// The stepping state machine over the key series.
    pub chain: TransformChain,
    /// The RGBA buffer of the latest rendered frame.
    pub renderer: Renderer,
    /// The active gradient name, always a member of the registry.
    pub gradient: String,
}

impl AnimState {
    pub open spec fn wf(self) -> bool {
        &&& self.chain.wf()
        &&& self.renderer.wf()
        &&& self.renderer.rows == self.chain.rows
        &&& self.renderer.cols == self.chain.cols
        &&& is_gradient_name(self.gradient@)
    }

    /// Builds a session at the start state from the plaintext shape and a
    /// key series, with the default gradient active and the image fully
    /// opaque white until the first frame is written. A series whose
    /// dimension differs from the row count is rejected with
    /// `ShapeMismatch`.
    pub fn new(rows: usize, cols: usize, series: KeySeries) -> (r: Result<AnimState, EngineError>)
        requires
            series.wf(),
            rows * cols * 4 <= usize::MAX,
        ensures
            series.dim == rows ==> (r matches Ok(a) && a.wf() && a.chain == (TransformChain {
                rows,
                cols,
                series,
                index: 0,
            }) && a.gradient@ == default_gradient_name()),
            series.dim != rows ==> (r matches Err(e) && e is ShapeMismatch),
    {
        let chain = match TransformChain::new(rows, cols, series) {
            Ok(c) => c,
            Err(e) => {
                return Err(e);
            },
        };
        let renderer = Renderer::new(rows, cols);
        let gradient = select_gradient("RAINBOW");
        Ok(AnimState { chain, renderer, gradient })
    }

    /// Selects the active gradient: a registered name is taken as given,
    /// any other name silently falls back to the default — never an error.
    pub fn set_gradient(&mut self, name: &str)
        requires
            old(self).wf(),
        ensures
            final(self).wf(),
            final(self).chain == old(self).chain,
            final(self).renderer == old(self).renderer,
            is_gradient_name(name@) ==> final(self).gradient@ == name@,
            !is_gradient_name(name@) ==> final(self).gradient@ == default_gradient_name(),
    {
        self.gradient = select_gradient(name);
    }

    /// Writes one frame from the colour of every cell, row-major over the
    /// matrix: colour `i` goes to bytes `4i .. 4i+2` and every alpha byte
    /// stays fully opaque.
    pub fn render_bytes(&mut self, colors: &Vec<Rgb>)
        requires
            old(self).wf(),
            colors@.len() == old(self).chain.rows * old(self).chain.cols,
        ensures
            final(self).wf(),
            final(self).chain == old(self).chain,
            final(self).gradient == old(self).gradient,
            final(self).renderer.buf@.len() == old(self).renderer.buf@.len(),
            forall|i: int|
                0 <= i < colors@.len() ==> {
                    &&& final(self).renderer.buf@[4 * i] == colors@[i].r
                    &&& final(self).renderer.buf@[4 * i + 1] == colors@[i].g
                    &&& final(self).renderer.buf@[4 * i + 2] == colors@[i].b
                    &&& final(self).renderer.buf@[4 * i + 3] == 255
                },
    {
        self.renderer.write_pixels(colors);
    }

    /// Back to the start state; the caller reloads the plaintext snapshot
    /// as the current matrix and renders it.
    pub fn reset(&mut self)
        requires
            old(self).wf(),
        ensures
            final(self).wf(),
            final(self).chain == old(self).chain.with_index(0),
            final(self).renderer == old(self).renderer,
            final(self).gradient == old(self).gradient,
    {
        self.chain.reset();
    }

    /// To the end state; the caller loads the precomputed ciphertext as the
    /// current matrix and renders it.
    pub fn goto_end(&mut self)
        requires
            old(self).wf(),
        ensures
            final(self).wf(),
            final(self).chain.index == old(self).chain.series.spec_len(),
            final(self).chain == old(self).chain.with_index(final(self).chain.index),
            final(self).renderer == old(self).renderer,
            final(self).gradient == old(self).gradient,
    {
        self.chain.goto_end();
    }

    /// One forward step, a no-op at the end boundary: the returned action
    /// names the key to apply to the current matrix, if any.
    pub fn next_step(&mut self) -> (a: StepAction)
        requires
            old(self).wf(),
        ensures
            final(self).wf(),
            (final(self).chain, a) == spec_step_forward(old(self).chain),
            final(self).renderer == old(self).renderer,
            final(self).gradient == old(self).gradient,
    {
        self.chain.step_forward()
    }

    /// One backward step, a no-op at the start boundary: the returned
    /// action names the key whose inverse to apply to the current matrix,
    /// if any.
    pub fn prev_step(&mut self) -> (a: StepAction)
        requires
            old(self).wf(),
        ensures
            final(self).wf(),
            (final(self).chain, a) == spec_step_backward(old(self).chain),
            final(self).renderer == old(self).renderer,
            final(self).gradient == old(self).gradient,
    {
        self.chain.step_backward()
    }

    /// The image dimensions: `cols` wide, `rows` high.
    pub fn size(&self) -> (r: Size)
        ensures
            r.width == self.chain.cols,
            r.height == self.chain.rows,
    {
        Size { width: self.chain.cols, height: self.chain.rows }
    }

    /// The RGBA bytes of the latest rendered frame.
    pub fn image_data(&self) -> (r: &Vec<u8>)
        ensures
            r == self.renderer.buf,
    {
        self.renderer.image_bytes()
    }

    /// How many RGBA bytes the image holds: four per matrix cell.
    pub fn image_data_len(&self) -> (n: usize)
        ensures
            n == self.renderer.buf@.len(),
    {
        self.renderer.image_bytes().len()
    }

    /// How many cells the plaintext matrix holds.
    pub fn plaintext_len(&self) -> (n: usize)
        requires
            self.wf(),
        ensures
            n == self.chain.rows * self.chain.cols,
    {
        proof {
            assert(self.renderer.buf.len() == self.renderer.buf@.len());
            assert(self.chain.rows * self.chain.cols * 4 <= usize::MAX);
        }
        self.chain.rows * self.chain.cols
    }
}

} // verus!
