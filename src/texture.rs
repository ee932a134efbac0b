use vstd::prelude::*;

verus! {

/// Which of a texture's two images the shaders sample.
#[derive(Clone, Copy, PartialEq, Eq, Structural, Debug)]
pub enum SampledImage {
    /// The host-visible, linearly tiled image that uploads are written to.
    Mappable,
    /// The device-optimal image that the mappable one is copied into.
    Optimal,
}

/// What the mappable image is created for.
#[derive(Clone, Copy, PartialEq, Eq, Structural, Debug)]
pub enum MappableUsage {
    /// The source of a copy into the optimal image.
    TransferSource,
    /// Sampled by the shaders directly.
    Sampled,
}

/// A texture on the GPU, as the library tracks it.
#[derive(Clone, Copy, PartialEq, Eq, Structural, Debug)]
pub struct Texture {
    pub w: u32,
    pub h: u32,
    /// Bytes from one row of the mappable image to the next; at least
    /// four per pixel, and possibly more for the device's alignment.
    pub pitch: u32,
    /// The device cannot sample host-visible images, so each upload is
    /// copied into an optimal image.
    pub staged: bool,
}

/// What one upload of pixels into a texture consists of.
#[derive(Debug)]
pub struct TextureUpload {
    /// The words to write into the mappable image's memory, row by row
    /// at the texture's pitch.
    pub words: Vec<u32>,
    /// Whether the mappable image is then copied into the optimal one.
    pub copy_to_optimal: bool,
}

impl Texture {
    pub open spec fn wf(self) -> bool {
        &&& self.pitch % 4 == 0
        &&& self.w <= self.pitch / 4
        &&& self.h * (self.pitch / 4) <= usize::MAX
        &&& self.w * self.h <= usize::MAX
    }

    /// Words per row of the mappable image.
    pub open spec fn row_words(self) -> nat {
        (self.pitch / 4) as nat
    }

    /// The mappable image's memory after writing `rgba` (one word per
    /// pixel, rows of `w` pixels) into it: each row starts at a multiple of
    /// the pitch, and the words past a row's end are zero.
    pub open spec fn spec_layout(self, rgba: Seq<u32>) -> Seq<u32> {
        let pw = self.row_words() as int;
        Seq::new(
            (self.h * pw) as nat,
            |k: int| if k % pw < self.w { rgba[(k / pw) * self.w + k % pw] } else { 0u32 },
        )
    }

    pub open spec fn spec_sampled(self) -> SampledImage {
        if self.staged {
            SampledImage::Optimal
        } else {
            SampledImage::Mappable
        }
    }

    /// Builds the record of a texture.
    pub fn new(w: u32, h: u32, pitch: u32, staged: bool) -> (r: Texture)
        ensures
            r == (Texture { w, h, pitch, staged }),
    {
        Texture { w, h, pitch, staged }
    }

    /// The image that shapes using this texture sample.
    pub fn sampled(&self) -> (r: SampledImage)
        ensures
            r == self.spec_sampled(),
    {
        if self.staged {
            SampledImage::Optimal
        } else {
            SampledImage::Mappable
        }
    }

    /// The usage that the mappable image of a texture is created with: a
    /// staged texture only copies out of it.
    pub fn mappable_usage(staged: bool) -> (r: MappableUsage)
        ensures
            r == (if staged { MappableUsage::TransferSource } else { MappableUsage::Sampled }),
    {
        if staged {
            MappableUsage::TransferSource
        } else {
            MappableUsage::Sampled
        }
    }

    /// Lays `rgba` out at the texture's pitch.
    pub fn layout(&self, rgba: &Vec<u32>) -> (r: Vec<u32>)
        requires
            self.wf(),
            rgba@.len() == self.w * self.h,
        ensures
            r@ == self.spec_layout(rgba@),
    {
        let pw: usize = (self.pitch / 4) as usize;
        let w: usize = self.w as usize;
        let h: usize = self.h as usize;
        let total: usize = h * pw;
        let mut r: Vec<u32> = Vec::new();
        let n: usize = rgba.len();
        let mut k: usize = 0;
        while k < total
            invariant
                k <= total,
                total == h * pw,
                pw == self.row_words(),
                w == self.w,
                h == self.h,
                w <= pw,
                rgba@.len() == w * h,
                n == rgba@.len(),
                r@ =~= self.spec_layout(rgba@).subrange(0, k as int),
            decreases total - k,
        {
            let y: usize = k / pw;
            let x: usize = k % pw;
            proof {
                assert(pw > 0) by (nonlinear_arith)
                    requires k < total, total == h * pw;
                assert(y < h) by (nonlinear_arith)
                    requires k < h * pw, pw > 0, y == k / pw;
            }
            if x < w {
                proof {
                    assert(y * w + x < w * h && y * w <= y * w + x) by (nonlinear_arith)
                        requires y < h, x < w;
                    assert(y * w + x < rgba@.len());
                }
                r.push(rgba[y * w + x]);
            } else {
                r.push(0);
            }
            k += 1;
        }
        r
    }

    /// What writing `rgba` into this texture takes: the words laid out at
    /// the pitch, and for a staged texture a copy into the optimal image.
    pub fn upload(&self, rgba: &Vec<u32>) -> (r: TextureUpload)
        requires
            self.wf(),
            rgba@.len() == self.w * self.h,
        ensures
            r.words@ == self.spec_layout(rgba@),
            r.copy_to_optimal == self.staged,
    {
        TextureUpload { words: self.layout(rgba), copy_to_optimal: self.staged }
    }
}

/// The pixel at column `x` of row `y` sits, after an upload, at the word
/// that starts row `y` plus `x`, and holds what `rgba` gives for it.
pub proof fn lemma_layout_pixel(t: Texture, rgba: Seq<u32>, x: int, y: int)
    requires
        t.wf(),
        rgba.len() == t.w * t.h,
        0 <= x < t.w,
        0 <= y < t.h,
    ensures
        y * t.row_words() + x < t.spec_layout(rgba).len(),
        t.spec_layout(rgba)[y * t.row_words() + x] == rgba[y * t.w + x],
{
    let pw = t.row_words() as int;
    let k = y * pw + x;
    assert(k < t.h * pw) by (nonlinear_arith)
        requires k == y * pw + x, 0 <= x < t.w, t.w <= pw, 0 <= y < t.h;
    vstd::arithmetic::div_mod::lemma_fundamental_div_mod_converse(k, pw, y, x);
}

impl Texture {
    /// The pixels that sampling reads from the mappable image's memory
    /// `mem`, row by row.
    pub open spec fn spec_pixels(self, mem: Seq<u32>) -> Seq<u32> {
        Seq::new(
            (self.w * self.h) as nat,
            |i: int| mem[(i / self.w as int) * self.row_words() + i % (self.w as int)],
        )
    }
}

/// Sampling a texture after an upload of `rgba` reads exactly `rgba`,
/// whatever the memory held before. So uploading the same pixels again
/// leaves the sampled output as a single upload made it.
pub proof fn lemma_texture_round_trip(t: Texture, rgba: Seq<u32>)
    requires
        t.wf(),
        rgba.len() == t.w * t.h,
    ensures
        t.spec_pixels(t.spec_layout(rgba)) == rgba,
        t.spec_pixels(t.spec_layout(t.spec_pixels(t.spec_layout(rgba)))) == rgba,
{
    let px = t.spec_pixels(t.spec_layout(rgba));
    assert forall|i: int| 0 <= i < rgba.len() implies #[trigger] px[i] == rgba[i] by {
        let w = t.w as int;
        assert(w > 0) by (nonlinear_arith)
            requires 0 <= i < t.w * t.h, w == t.w;
        let y = i / w;
        let x = i % w;
        vstd::arithmetic::div_mod::lemma_fundamental_div_mod(i, w);
        vstd::arithmetic::div_mod::lemma_mod_pos_bound(i, w);
        assert(0 <= y < t.h) by (nonlinear_arith)
            requires 0 <= i < w * t.h, w > 0, i == w * y + x, 0 <= x < w;
        lemma_layout_pixel(t, rgba, x, y);
        assert(y * w + x == i) by (nonlinear_arith)
            requires i == w * y + x;
    }
    assert(px =~= rgba);
}

} // verus!
