//! Vertex data, its buffer layout, and the screen-size payload.

use vstd::prelude::*;

verus! {

/// Bit pattern of the single-precision number 1.0.
pub const ONE: u32 = 0x3F80_0000;

/// Bit pattern of the single-precision number 0.0.
pub const ZERO: u32 = 0;

/// How often the vertex fetch advances.
#[derive(Copy, Clone, Debug, PartialEq, Eq)]
pub enum VertexStepMode {
    Vertex,
    Instance,
}

/// The shape of one vertex attribute.
#[derive(Copy, Clone, Debug, PartialEq, Eq)]
pub enum VertexFormat {
    Float32,
    Float32x2,
    Float32x3,
    Float32x4,
}

impl VertexFormat {
    /// Bytes that one attribute of this shape takes.
    pub open spec fn spec_size(self) -> u64 {
        match self {
            VertexFormat::Float32 => 4,
            VertexFormat::Float32x2 => 8,
            VertexFormat::Float32x3 => 12,
            VertexFormat::Float32x4 => 16,
        }
    }

    #[verifier::when_used_as_spec(spec_size)]
    pub fn size(self) -> (n: u64)
        ensures
            n == self.spec_size(),
    {
        match self {
            VertexFormat::Float32 => 4,
            VertexFormat::Float32x2 => 8,
            VertexFormat::Float32x3 => 12,
            VertexFormat::Float32x4 => 16,
        }
    }
}

/// One attribute inside a vertex.
#[derive(Copy, Clone, Debug, PartialEq, Eq)]
pub struct VertexAttribute {
    pub format: VertexFormat,
    pub offset: u64,
    pub shader_location: u32,
}

/// How a vertex buffer is cut into vertices and attributes.
#[derive(Clone, Debug, PartialEq, Eq)]
pub struct VertexBufferLayout {
    pub array_stride: u64,
    pub step_mode: VertexStepMode,
    pub attributes: Vec<VertexAttribute>,
}

/// A position of three single-precision coordinates, each held as its IEEE-754 bit pattern.
#[derive(Copy, Clone, Debug, PartialEq, Eq)]
pub struct Vertex {
    pub position: [u32; 3],
}

impl Vertex {
    /// The vertex with the given coordinates.
    pub open spec fn spec_at(x: u32, y: u32, z: u32) -> Vertex {
        Vertex { position: [x, y, z] }
    }

    /// The position attribute: three floats at the start of the vertex, shader location 0.
    pub open spec fn position_attribute() -> VertexAttribute {
        VertexAttribute { format: VertexFormat::Float32x3, offset: 0, shader_location: 0 }
    }

    #[verifier::when_used_as_spec(spec_at)]
    pub fn at(x: u32, y: u32, z: u32) -> (v: Self)
        ensures
            v == Self::spec_at(x, y, z),
            v.position@ == seq![x, y, z],
    {
        Self { position: [x, y, z] }
    }

    pub fn x(&self) -> (r: u32)
        ensures
            r == self.position@[0],
    {
        self.position[0]
    }

    pub fn y(&self) -> (r: u32)
        ensures
            r == self.position@[1],
    {
        self.position[1]
    }

    pub fn z(&self) -> (r: u32)
        ensures
            r == self.position@[2],
    {
        self.position[2]
    }

    /// `layout` is that of a buffer of vertices: tightly packed, stepped per
    /// vertex, with the position as the only attribute.
    pub open spec fn is_desc(layout: VertexBufferLayout) -> bool {
        &&& layout.array_stride == VertexFormat::Float32x3.spec_size()
        &&& layout.step_mode == VertexStepMode::Vertex
        &&& layout.attributes@ == seq![Self::position_attribute()]
    }

    /// The layout of a buffer of vertices.
    pub fn desc() -> (layout: VertexBufferLayout)
        ensures
            Self::is_desc(layout),
    {
        let mut attributes: Vec<VertexAttribute> = Vec::new();
        attributes.push(
            VertexAttribute { format: VertexFormat::Float32x3, offset: 0, shader_location: 0 },
        );
        VertexBufferLayout {
            array_stride: VertexFormat::Float32x3.size(),
            step_mode: VertexStepMode::Vertex,
            attributes,
        }
    }
}

/// Width and height of the screen in pixels, in the shape a uniform takes.
#[derive(Copy, Clone, Debug, PartialEq, Eq)]
pub struct ScreenSize {
    pub size: [u32; 2],
}

impl ScreenSize {
    pub open spec fn spec_new(width: u32, height: u32) -> ScreenSize {
        ScreenSize { size: [width, height] }
    }

    pub open spec fn spec_width(&self) -> u32 {
        self.size@[0]
    }

    pub open spec fn spec_height(&self) -> u32 {
        self.size@[1]
    }

    #[verifier::when_used_as_spec(spec_new)]
    pub fn new(width: u32, height: u32) -> (s: Self)
        ensures
            s == Self::spec_new(width, height),
            s.spec_width() == width,
            s.spec_height() == height,
    {
        Self { size: [width, height] }
    }

    #[verifier::when_used_as_spec(spec_width)]
    pub fn width(&self) -> (w: u32)
        ensures
            w == self.spec_width(),
    {
        self.size[0]
    }

    #[verifier::when_used_as_spec(spec_height)]
    pub fn height(&self) -> (h: u32)
        ensures
            h == self.spec_height(),
    {
        self.size[1]
    }

    /// The payload: width, then height.
    pub fn size(&self) -> (words: &[u32; 2])
        ensures
            words@ == seq![self.spec_width(), self.spec_height()],
    {
        &self.size
    }
}

} // verus!
