//! The geometry that is drawn: a quad of four vertices, as two triangles.
//!
//! A vertex is a position followed by a color, three 32-bit floats each. Its
//! values are supplied by the caller; what is fixed here is how a vertex is
//! laid out, how many there are, and the indices that join them.

use vstd::prelude::*;

verus! {

/// The number of vertices of the quad.
pub const VERTEX_COUNT: usize = 4;

/// The number of indices of the quad.
pub const INDEX_COUNT: usize = 6;

/// The number of indices that make one triangle.
pub const INDICES_PER_TRIANGLE: u32 = 3;

/// The size of one index in bytes.
pub const INDEX_SIZE: u64 = 2;

/// The indices of the quad, three for each triangle.
pub const INDICES: [u16; 6] = [2, 1, 0, 3, 1, 2];

/// The type of one attribute of a vertex: 32-bit floats, one to four of them.
#[derive(Clone, Copy, Debug, PartialEq, Eq, Structural)]
pub enum VertexFormat {
    Float32,
    Float32x2,
    Float32x3,
    Float32x4,
}

impl VertexFormat {
    /// The number of bytes that an attribute of this format takes.
    pub open spec fn spec_size(self) -> u64 {
        match self {
            VertexFormat::Float32 => 4,
            VertexFormat::Float32x2 => 8,
            VertexFormat::Float32x3 => 12,
            VertexFormat::Float32x4 => 16,
        }
    }

    /// The number of bytes that an attribute of this format takes.
    #[verifier::when_used_as_spec(spec_size)]
    pub fn size(self) -> (r: u64)
        ensures
            r == self.spec_size(),
    {
        match self {
            VertexFormat::Float32 => 4,
            VertexFormat::Float32x2 => 8,
            VertexFormat::Float32x3 => 12,
            VertexFormat::Float32x4 => 16,
        }
    }
}

/// Whether a vertex buffer advances once for each vertex or once for each
/// instance.
#[derive(Clone, Copy, Debug, PartialEq, Eq, Structural)]
pub enum VertexStepMode {
    Vertex,
    Instance,
}

/// One attribute of a vertex: its format, where it starts within the vertex,
/// and the shader input it feeds.
#[derive(Clone, Copy, Debug, PartialEq, Eq, Structural)]
pub struct VertexAttribute {
    pub format: VertexFormat,
    pub offset: u64,
    pub shader_location: u32,
}

/// How the vertices lie in a vertex buffer.
#[derive(Debug)]
pub struct VertexBufferLayout {
    pub array_stride: u64,
    pub step_mode: VertexStepMode,
    pub attributes: Vec<VertexAttribute>,
}

/// The number of bytes that the first `n` of `formats` take together.
pub open spec fn extent(formats: Seq<VertexFormat>, n: int) -> int
    decreases n,
{
    if n <= 0 {
        0
    } else {
        extent(formats, n - 1) + formats[n - 1].size()
    }
}

impl VertexBufferLayout {
    /// The layout holds one attribute for each of `formats`, in order and
    /// without gaps: each starts where the one before it ends and feeds the
    /// shader input of its own position, and a vertex ends with the last.
    pub open spec fn packs(&self, formats: Seq<VertexFormat>) -> bool {
        &&& self.step_mode == VertexStepMode::Vertex
        &&& self.array_stride == extent(formats, formats.len() as int)
        &&& self.attributes@.len() == formats.len()
        &&& forall|i: int|
            0 <= i < formats.len() ==> #[trigger] self.attributes@[i] == (VertexAttribute {
                format: formats[i],
                offset: extent(formats, i) as u64,
                shader_location: i as u32,
            })
    }
}

/// No format takes more than sixteen bytes.
pub proof fn lemma_extent_bound(formats: Seq<VertexFormat>, n: int)
    requires
        0 <= n <= formats.len(),
    ensures
        0 <= extent(formats, n) <= 16 * n,
    decreases n,
{
    if n > 0 {
        lemma_extent_bound(formats, n - 1);
    }
}

/// Lays the attributes of a vertex out one after the other, in the order of
/// `formats`. `None` exactly when there are more attributes than shader
/// inputs can be numbered.
pub fn packed_layout(formats: &Vec<VertexFormat>) -> (r: Option<VertexBufferLayout>)
    ensures
        formats.len() > u32::MAX ==> r is None,
        formats.len() <= u32::MAX ==> r is Some && r->0.packs(formats@),
{
    if formats.len() > u32::MAX as usize {
        return None;
    }
    let mut attributes: Vec<VertexAttribute> = Vec::new();
    let mut offset: u64 = 0;
    let mut i: usize = 0;
    while i < formats.len()
        invariant
            0 <= i <= formats.len() <= u32::MAX,
            offset == extent(formats@, i as int),
            attributes@.len() == i,
            forall|j: int|
                0 <= j < i ==> #[trigger] attributes@[j] == (VertexAttribute {
                    format: formats@[j],
                    offset: extent(formats@, j) as u64,
                    shader_location: j as u32,
                }),
        decreases formats.len() - i,
    {
        let format = formats[i];
        proof {
            lemma_extent_bound(formats@, i as int);
        }
        attributes.push(VertexAttribute { format, offset, shader_location: i as u32 });
        offset = offset + format.size();
        i += 1;
    }
    Some(VertexBufferLayout { array_stride: offset, step_mode: VertexStepMode::Vertex, attributes })
}

/// The attributes of a vertex of the quad: a position, then a color.
pub open spec fn vertex_formats() -> Seq<VertexFormat> {
    seq![VertexFormat::Float32x3, VertexFormat::Float32x3]
}

/// The layout of the quad's vertex buffer: 24 bytes to a vertex, the position
/// at offset 0 for shader input 0, the color at offset 12 for shader input 1.
pub fn vertex_layout() -> (r: VertexBufferLayout)
    ensures
        r.packs(vertex_formats()),
        r.step_mode == VertexStepMode::Vertex,
        r.array_stride == 24,
        r.attributes@ == seq![
            VertexAttribute { format: VertexFormat::Float32x3, offset: 0, shader_location: 0 },
            VertexAttribute { format: VertexFormat::Float32x3, offset: 12, shader_location: 1 },
        ],
{
    let mut formats: Vec<VertexFormat> = Vec::new();
    formats.push(VertexFormat::Float32x3);
    formats.push(VertexFormat::Float32x3);
    assert(formats@ =~= vertex_formats());
    let layout = packed_layout(&formats).unwrap();
    proof {
        reveal_with_fuel(extent, 3);
        assert(layout.attributes@[0].offset == 0);
        assert(layout.attributes@[1].offset == 12);
        assert(layout.attributes@ =~= seq![
            VertexAttribute { format: VertexFormat::Float32x3, offset: 0, shader_location: 0 },
            VertexAttribute { format: VertexFormat::Float32x3, offset: 12, shader_location: 1 },
        ]);
    }
    layout
}

/// A count does not fit the 32 bits in which the GPU takes it.
#[derive(Clone, Copy, Debug, PartialEq, Eq, Structural)]
pub struct ConversionError {
    /// The count that was too large.
    pub count: usize,
}

/// A number of vertices or indices as the 32-bit count that a draw takes.
/// Fails exactly when the number is above `u32::MAX`.
pub fn count(len: usize) -> (r: Result<u32, ConversionError>)
    ensures
        len <= u32::MAX ==> r == Ok::<u32, ConversionError>(len as u32),
        len > u32::MAX ==> r == Err::<u32, ConversionError>(ConversionError { count: len }),
{
    if len <= u32::MAX as usize {
        Ok(len as u32)
    } else {
        Err(ConversionError { count: len })
    }
}

/// Every index names one of `vertex_count` vertices.
pub open spec fn in_range(indices: Seq<u16>, vertex_count: int) -> bool {
    forall|i: int| 0 <= i < indices.len() ==> (#[trigger] indices[i]) < vertex_count
}

/// Whether every index names one of `vertex_count` vertices.
pub fn indices_in_range(indices: &[u16], vertex_count: usize) -> (r: bool)
    ensures
        r == in_range(indices@, vertex_count as int),
{
    let mut i: usize = 0;
    while i < indices.len()
        invariant
            0 <= i <= indices.len(),
            forall|j: int| 0 <= j < i ==> (#[trigger] indices@[j]) < vertex_count,
        decreases indices.len() - i,
    {
        if indices[i] as usize >= vertex_count {
            return false;
        }
        i += 1;
    }
    true
}

/// The number of whole triangles that a triangle list of `index_count`
/// indices draws.
pub open spec fn spec_triangle_count(index_count: u32) -> u32 {
    index_count / INDICES_PER_TRIANGLE
}

/// The number of whole triangles that a triangle list of `index_count`
/// indices draws.
#[verifier::when_used_as_spec(spec_triangle_count)]
pub fn triangle_count(index_count: u32) -> (r: u32)
    ensures
        r == spec_triangle_count(index_count),
{
    index_count / INDICES_PER_TRIANGLE
}

/// The two bytes of each index, low byte first.
pub open spec fn little_endian(indices: Seq<u16>) -> Seq<u8> {
    Seq::new(
        2 * indices.len(),
        |k: int|
            if k % 2 == 0 {
                (indices[k / 2] % 256) as u8
            } else {
                (indices[k / 2] / 256) as u8
            },
    )
}

/// The two bytes of each index, high byte first.
pub open spec fn big_endian(indices: Seq<u16>) -> Seq<u8> {
    Seq::new(
        2 * indices.len(),
        |k: int|
            if k % 2 == 0 {
                (indices[k / 2] / 256) as u8
            } else {
                (indices[k / 2] % 256) as u8
            },
    )
}

/// The bytes of `indices` as they lie in this machine's memory: two for each
/// index, in the byte order of the machine.
pub open spec fn in_memory(indices: Seq<u16>, bytes: Seq<u8>) -> bool {
    bytes == little_endian(indices) || bytes == big_endian(indices)
}

/// Trusted: calls `bytemuck::cast_slice` from `u16` to `u8`, which views the
/// same memory as bytes and cannot fail for this pair of types, and copies the
/// view. The contract claims two bytes for each index, in one of the two byte
/// orders throughout.
#[verifier::external_body]
pub(crate) fn cast_slice(indices: &[u16]) -> (r: Vec<u8>)
    ensures
        in_memory(indices@, r@),
{
    bytemuck::cast_slice::<u16, u8>(indices).to_vec()
}

/// The contents of the index buffer: the quad's indices as bytes.
pub fn index_buffer_contents() -> (r: Vec<u8>)
    ensures
        in_memory(INDICES@, r@),
        r@.len() == INDEX_COUNT * INDEX_SIZE,
{
    let indices = INDICES;
    cast_slice(indices.as_slice())
}

/// The quad has six indices, each of which names one of its four vertices,
/// so that drawing them as a triangle list gives exactly two triangles.
pub proof fn lemma_quad_geometry()
    ensures
        INDICES@.len() == INDEX_COUNT,
        INDICES@ == seq![2u16, 1u16, 0u16, 3u16, 1u16, 2u16],
        in_range(INDICES@, VERTEX_COUNT as int),
        INDEX_COUNT == 2 * INDICES_PER_TRIANGLE,
        triangle_count(INDEX_COUNT as u32) == 2,
{
    assert(INDICES@ =~= seq![2u16, 1u16, 0u16, 3u16, 1u16, 2u16]);
}

} // verus!
