use vstd::prelude::*;

verus! {

/// Bit pattern of the single-precision number 1.0.
pub const ONE_BITS: u32 = 0x3f80_0000;

/// A 4×4 transformation matrix as a uniform buffer holds it: sixteen words,
/// each the bit pattern of one single-precision entry, in column order.
/// The library moves matrices around; it never computes with them.
#[derive(Clone, Copy, Debug)]
pub struct Matrix {
    pub words: [u32; 16],
}

impl Matrix {
    pub open spec fn view(self) -> Seq<u32> {
        self.words@
    }

    /// The matrix as the words of a transform-only uniform.
    pub fn to_words(&self) -> (r: Vec<u32>)
        ensures
            r@ == self.view(),
    {
        let mut r: Vec<u32> = Vec::new();
        let mut i: usize = 0;
        while i < 16
            invariant
                i <= 16,
                r@ == self.view().subrange(0, i as int),
            decreases 16 - i,
        {
            r.push(self.words[i]);
            i += 1;
        }
        assert(r@ =~= self.view());
        r
    }

    /// The identity matrix.
    pub fn identity() -> (r: Matrix)
        ensures
            r.view().len() == 16,
            forall|i: int| 0 <= i < 16 ==> #[trigger] r.view()[i] == if i % 5 == 0 { ONE_BITS } else { 0u32 },
    {
        let r = Matrix {
            words: [ONE_BITS, 0, 0, 0, 0, ONE_BITS, 0, 0, 0, 0, ONE_BITS, 0, 0, 0, 0, ONE_BITS],
        };
        assert(r.view() =~= seq![ONE_BITS, 0u32, 0u32, 0u32, 0u32, ONE_BITS, 0u32, 0u32,
            0u32, 0u32, ONE_BITS, 0u32, 0u32, 0u32, 0u32, ONE_BITS]);
        r
    }
}

/// The camera/fog flag word of a shape's uniform: how many of the two
/// shared effects apply to it.
pub open spec fn spec_hcam(fog: bool, camera: bool) -> u32 {
    ((if fog { 1int } else { 0int }) + (if camera { 1int } else { 0int })) as u32
}

pub fn hcam(fog: bool, camera: bool) -> (r: u32)
    ensures
        r == spec_hcam(fog, camera),
        r <= 2,
{
    let f: u32 = if fog { 1 } else { 0 };
    let c: u32 = if camera { 1 } else { 0 };
    f + c
}

/// The per-shape uniform payload, one of three layouts. Colors and the fade
/// factor are held as the bit patterns of single-precision numbers.
#[derive(Clone, Copy, Debug)]
pub enum Uniform {
    /// Transform and flags.
    Transform { mat: Matrix, hcam: u32 },
    /// Transform, fade factor and flags.
    TransformAndFade { mat: Matrix, fade: u32, hcam: u32 },
    /// Transform, RGBA color and flags.
    TransformAndColor { mat: Matrix, color: [u32; 4], hcam: u32 },
}

impl Uniform {
    pub open spec fn matrix(self) -> Matrix {
        match self {
            Uniform::Transform { mat, .. } => mat,
            Uniform::TransformAndFade { mat, .. } => mat,
            Uniform::TransformAndColor { mat, .. } => mat,
        }
    }

    /// The words of the payload in buffer order; every field is a whole
    /// number of 32-bit words, so the layout has no padding.
    pub open spec fn view(self) -> Seq<u32> {
        match self {
            Uniform::Transform { mat, hcam } => mat.view().push(hcam),
            Uniform::TransformAndFade { mat, fade, hcam } => mat.view().push(fade).push(hcam),
            Uniform::TransformAndColor { mat, color, hcam } => mat.view() + color@ + seq![hcam],
        }
    }

    /// The same payload with its matrix replaced.
    pub open spec fn spec_with_matrix(self, m: Matrix) -> Uniform {
        match self {
            Uniform::Transform { hcam, .. } => Uniform::Transform { mat: m, hcam },
            Uniform::TransformAndFade { fade, hcam, .. } => Uniform::TransformAndFade { mat: m, fade, hcam },
            Uniform::TransformAndColor { color, hcam, .. } => Uniform::TransformAndColor { mat: m, color, hcam },
        }
    }

    pub fn matrix_of(&self) -> (r: Matrix)
        ensures
            r == self.matrix(),
    {
        match self {
            Uniform::Transform { mat, .. } => *mat,
            Uniform::TransformAndFade { mat, .. } => *mat,
            Uniform::TransformAndColor { mat, .. } => *mat,
        }
    }

    pub fn with_matrix(&self, m: Matrix) -> (r: Uniform)
        ensures
            r == self.spec_with_matrix(m),
    {
        match *self {
            Uniform::Transform { hcam, .. } => Uniform::Transform { mat: m, hcam },
            Uniform::TransformAndFade { fade, hcam, .. } => Uniform::TransformAndFade { mat: m, fade, hcam },
            Uniform::TransformAndColor { color, hcam, .. } => Uniform::TransformAndColor { mat: m, color, hcam },
        }
    }

    /// The payload as the words to copy into the shape's uniform buffer.
    pub fn to_words(&self) -> (r: Vec<u32>)
        ensures
            r@ == self.view(),
    {
        let mat = self.matrix_of();
        let mut r = mat.to_words();
        match self {
            Uniform::Transform { hcam, .. } => {
                r.push(*hcam);
            },
            Uniform::TransformAndFade { fade, hcam, .. } => {
                r.push(*fade);
                r.push(*hcam);
            },
            Uniform::TransformAndColor { color, hcam, .. } => {
                r.push(color[0]);
                r.push(color[1]);
                r.push(color[2]);
                r.push(color[3]);
                r.push(*hcam);
                assert(r@ =~= mat.view() + color@ + seq![*hcam]);
            },
        }
        r
    }
}

/// The fog uniform: the fog color (the clear color, opaque) then the near
/// and far distances of the fog range.
pub open spec fn spec_fog_words(clear: [u32; 3], near: u32, far: u32) -> Seq<u32> {
    seq![clear[0], clear[1], clear[2], ONE_BITS, near, far]
}

pub fn fog_words(clear: [u32; 3], near: u32, far: u32) -> (r: Vec<u32>)
    ensures
        r@ == spec_fog_words(clear, near, far),
{
    let r = vec![clear[0], clear[1], clear[2], ONE_BITS, near, far];
    assert(r@ =~= spec_fog_words(clear, near, far));
    r
}

} // verus!
