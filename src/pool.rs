use vstd::prelude::*;

verus! {

/// A model: its vertices live in a device buffer of four floats per
/// vertex; the library keeps their count and the triangle fans, each a
/// start index and a vertex count.
#[derive(Debug)]
pub struct Model {
    pub vertex_count: u32,
    pub fans: Vec<(u32, u32)>,
}

/// Texture coordinates paired with a model's vertices.
#[derive(Clone, Copy, PartialEq, Eq, Structural, Debug)]
pub struct TexCoords {
    pub vertex_count: u32,
}

/// Per-vertex colors paired with a model's vertices.
#[derive(Clone, Copy, PartialEq, Eq, Structural, Debug)]
pub struct Gradient {
    pub vertex_count: u32,
}

/// A vertex buffer that a shape binds, by the pool entry that owns it.
#[derive(Clone, Copy, PartialEq, Eq, Structural, Debug)]
pub enum VertexBuffer {
    Model(usize),
    TexCoords(usize),
    Gradient(usize),
}

/// Vertices held by a flat buffer of `len` floats, four per vertex.
pub open spec fn spec_vertex_count(len: nat) -> u32 {
    ((len as u32) / 4) as u32
}

pub fn vertex_count(len: usize) -> (r: u32)
    requires
        len <= u32::MAX,
    ensures
        r == spec_vertex_count(len as nat),
        r == len / 4,
{
    len as u32 / 4
}

/// An element-by-element copy of a vector of plain values.
pub fn copied<T: Copy>(v: &Vec<T>) -> (r: Vec<T>)
    ensures
        r@ == v@,
{
    let mut r: Vec<T> = Vec::new();
    let mut i: usize = 0;
    while i < v.len()
        invariant
            i <= v@.len(),
            r@ == v@.subrange(0, i as int),
        decreases v@.len() - i,
    {
        r.push(v[i]);
        i += 1;
        assert(r@ =~= v@.subrange(0, i as int));
    }
    assert(r@ =~= v@);
    r
}

} // verus!
