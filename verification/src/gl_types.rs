//! The numbers and small value types of the OpenGL interface.

use vstd::bytes::{
    lemma_auto_spec_u32_to_from_le_bytes, spec_u32_from_le_bytes, spec_u32_to_le_bytes,
    u32_to_le_bytes,
};
use vstd::prelude::*;

verus! {

/// An OpenGL enumerant.
pub type GlEnum = u32;

/// The name of a vertex array object.
pub type VaoIdType = u32;

/// The name of a buffer object.
pub type BufferIdType = u32;

/// A single-precision value, carried by its IEEE-754 bit pattern.
///
/// The library never computes with such a value; it passes it on, bit for bit.
#[derive(Clone, Copy, Debug, PartialEq, Eq)]
pub struct GlFloat {
    pub bits: u32,
}

impl DeepView for GlFloat {
    type V = GlFloat;

    open spec fn deep_view(&self) -> GlFloat {
        *self
    }
}

impl GlFloat {
    /// The value with the given bit pattern.
    pub fn from_bits(bits: u32) -> (value: GlFloat)
        ensures
            value.bits == bits,
    {
        GlFloat { bits }
    }

    /// The bit pattern of the value.
    pub fn to_bits(self) -> (bits: u32)
        ensures
            bits == self.bits,
    {
        self.bits
    }

    /// Positive zero.
    pub fn zero() -> (value: GlFloat)
        ensures
            value.bits == 0,
    {
        GlFloat { bits: 0 }
    }
}

/// The four bytes of a value in a buffer, least significant byte first.
pub open spec fn word(value: GlFloat) -> Seq<u8> {
    spec_u32_to_le_bytes(value.bits)
}

/// The value whose four bytes start at `offset`.
pub open spec fn word_at(bytes: Seq<u8>, offset: int) -> GlFloat {
    GlFloat { bits: spec_u32_from_le_bytes(bytes.subrange(offset, offset + 4)) }
}

/// The bytes of the first `count` of `words`, one value after the other.
pub open spec fn words_image(words: Seq<GlFloat>, count: int) -> Seq<u8>
    decreases count,
{
    if count <= 0 {
        Seq::empty()
    } else {
        words_image(words, count - 1) + word(words[count - 1])
    }
}

/// The first `count` values take four bytes each, and each value can be read
/// back where it was written.
pub proof fn lemma_words_image(words: Seq<GlFloat>, count: int)
    requires
        0 <= count <= words.len(),
    ensures
        words_image(words, count).len() == 4 * count,
        forall|i: int|
            0 <= i < count ==> word_at(words_image(words, count), 4 * i) == #[trigger] words[i],
    decreases count,
{
    lemma_auto_spec_u32_to_from_le_bytes();
    if count > 0 {
        lemma_words_image(words, count - 1);
        let front = words_image(words, count - 1);
        let all = words_image(words, count);
        assert forall|i: int| 0 <= i < count implies word_at(all, 4 * i) == #[trigger] words[i] by {
            if i < count - 1 {
                assert(all.subrange(4 * i, 4 * i + 4) =~= front.subrange(4 * i, 4 * i + 4));
            } else {
                assert(all.subrange(4 * i, 4 * i + 4) =~= word(words[i]));
            }
        }
    }
}

/// Appends the four bytes of a value to a buffer image.
pub(crate) fn push_word(image: &mut Vec<u8>, value: GlFloat)
    ensures
        final(image)@ == old(image)@ + word(value),
{
    let mut bytes = u32_to_le_bytes(value.bits);
    image.append(&mut bytes);
}

/// The bytes of `words`, one value after the other.
pub fn words_to_bytes(words: &Vec<GlFloat>) -> (image: Vec<u8>)
    ensures
        image@ == words_image(words@, words.len() as int),
{
    let mut image: Vec<u8> = Vec::new();
    let mut i: usize = 0;
    while i < words.len()
        invariant
            i <= words.len(),
            image@ == words_image(words@, i as int),
        decreases words.len() - i,
    {
        push_word(&mut image, words[i]);
        i += 1;
    }
    image
}

pub const NO_ERROR: u32 = 0;

pub const INVALID_ENUM: u32 = 0x0500;

pub const INVALID_VALUE: u32 = 0x0501;

pub const INVALID_OPERATION: u32 = 0x0502;

pub const STACK_OVERFLOW: u32 = 0x0503;

pub const STACK_UNDERFLOW: u32 = 0x0504;

pub const OUT_OF_MEMORY: u32 = 0x0505;

pub const INVALID_FRAMEBUFFER_OPERATION: u32 = 0x0506;

pub const CONTEXT_LOST: u32 = 0x0507;

pub const TRUE: i32 = 1;

pub const POINTS: u32 = 0x0000;

pub const LINES: u32 = 0x0001;

pub const LINE_LOOP: u32 = 0x0002;

pub const LINE_STRIP: u32 = 0x0003;

pub const TRIANGLES: u32 = 0x0004;

pub const TRIANGLE_STRIP: u32 = 0x0005;

pub const TRIANGLE_FAN: u32 = 0x0006;

pub const LINES_ADJACENCY: u32 = 0x000A;

pub const LINE_STRIP_ADJACENCY: u32 = 0x000B;

pub const TRIANGLES_ADJACENCY: u32 = 0x000C;

pub const TRIANGLE_STRIP_ADJACENCY: u32 = 0x000D;

pub const PATCHES: u32 = 0x000E;

pub const INT: u32 = 0x1404;

pub const FLOAT: u32 = 0x1406;

pub const FLOAT_VEC2: u32 = 0x8B50;

pub const FLOAT_VEC3: u32 = 0x8B51;

pub const FLOAT_VEC4: u32 = 0x8B52;

pub const FLOAT_MAT2: u32 = 0x8B5A;

pub const FLOAT_MAT3: u32 = 0x8B5B;

pub const FLOAT_MAT4: u32 = 0x8B5C;

pub const SAMPLER_2D: u32 = 0x8B5E;

pub const FRAGMENT_SHADER: u32 = 0x8B30;

pub const VERTEX_SHADER: u32 = 0x8B31;

pub const GEOMETRY_SHADER: u32 = 0x8DD9;

pub const TESS_EVALUATION_SHADER: u32 = 0x8E87;

pub const TESS_CONTROL_SHADER: u32 = 0x8E88;

pub const COMPUTE_SHADER: u32 = 0x91B9;

pub const COMPILE_STATUS: u32 = 0x8B81;

pub const LINK_STATUS: u32 = 0x8B82;

pub const INFO_LOG_LENGTH: u32 = 0x8B84;

pub const ACTIVE_UNIFORMS: u32 = 0x8B86;

pub const ACTIVE_UNIFORM_MAX_LENGTH: u32 = 0x8B87;

pub const ARRAY_BUFFER: u32 = 0x8892;

pub const SHADER_STORAGE_BUFFER: u32 = 0x90D2;

pub const STATIC_DRAW: u32 = 0x88E4;

pub const DYNAMIC_DRAW: u32 = 0x88E8;

pub const ALL_BARRIER_BITS: u32 = 0xFFFF_FFFF;

pub const DEPTH_BUFFER_BIT: u32 = 0x0000_0100;

pub const COLOR_BUFFER_BIT: u32 = 0x0000_4000;

/// How the vertices of a draw call are assembled into primitives.
#[derive(Clone, Copy, Debug, PartialEq, Eq)]
pub enum DrawMode {
    Triangles,
    TrianglesAdjacency,
    TriangleStrip,
    TriangleStripAdjacency,
    TriangleFan,
    Lines,
    LinesAdjacency,
    LineStrip,
    LineStripAdjacency,
    LineLoop,
    Points,
    Patches,
}

impl Default for DrawMode {
    fn default() -> (mode: DrawMode)
        ensures
            mode == DrawMode::Triangles,
    {
        DrawMode::Triangles
    }
}

impl DrawMode {
    /// The enumerant that OpenGL knows the mode by.
    pub open spec fn constant(self) -> u32 {
        match self {
            DrawMode::Triangles => TRIANGLES,
            DrawMode::TrianglesAdjacency => TRIANGLES_ADJACENCY,
            DrawMode::TriangleStrip => TRIANGLE_STRIP,
            DrawMode::TriangleStripAdjacency => TRIANGLE_STRIP_ADJACENCY,
            DrawMode::TriangleFan => TRIANGLE_FAN,
            DrawMode::Lines => LINES,
            DrawMode::LinesAdjacency => LINES_ADJACENCY,
            DrawMode::LineStrip => LINE_STRIP,
            DrawMode::LineStripAdjacency => LINE_STRIP_ADJACENCY,
            DrawMode::LineLoop => LINE_LOOP,
            DrawMode::Points => POINTS,
            DrawMode::Patches => PATCHES,
        }
    }

    /// The enumerant to hand to a draw call for this mode.
    pub fn gl_constant(&self) -> (constant: GlEnum)
        ensures
            constant == self.constant(),
    {
        match *self {
            DrawMode::Triangles => TRIANGLES,
            DrawMode::TrianglesAdjacency => TRIANGLES_ADJACENCY,
            DrawMode::TriangleStrip => TRIANGLE_STRIP,
            DrawMode::TriangleStripAdjacency => TRIANGLE_STRIP_ADJACENCY,
            DrawMode::TriangleFan => TRIANGLE_FAN,
            DrawMode::Lines => LINES,
            DrawMode::LinesAdjacency => LINES_ADJACENCY,
            DrawMode::LineStrip => LINE_STRIP,
            DrawMode::LineStripAdjacency => LINE_STRIP_ADJACENCY,
            DrawMode::LineLoop => LINE_LOOP,
            DrawMode::Points => POINTS,
            DrawMode::Patches => PATCHES,
        }
    }

    /// No two modes share an enumerant, and each fits the four bits that
    /// the primitive types occupy.
    pub proof fn lemma_constant_injective(a: DrawMode, b: DrawMode)
        ensures
            a.constant() == b.constant() ==> a == b,
            a.constant() <= 0xE,
    {
    }
}

} // verus!
