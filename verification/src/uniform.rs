//! The data blocks that the shaders read, word for word.
//!
//! A uniform is handed to the graphics device as a run of 32-bit words in a
//! fixed layout, with padding where the device's alignment rules ask for
//! it. The layouts are stated here; the caller copies the words into a
//! buffer.

use crate::camera::CameraUniform;
use crate::lights::PointLight;
use crate::lights::PointLightsUniform;
use crate::object::ObjectGeometry;
use crate::scalar::Scalar;
use crate::scene::Light;
use crate::vertex::Vertex;
use vstd::prelude::*;

verus! {

/// The number of words of a vertex in a vertex buffer.
pub const VERTEX_WORDS: usize = 11;

/// The number of words of a point light.
pub const POINT_LIGHT_WORDS: usize = 8;

/// The directional light of a scene as the fragment stage reads it.
#[derive(Clone, Copy, Debug, PartialEq, Eq)]
pub struct LightUniform {
    pub direction: [Scalar; 3],
    pub color: [Scalar; 3],
    pub intensity: Scalar,
    pub ambient_strength: Scalar,
}

/// The model matrix, column by column, and the glow of one instance.
#[derive(Clone, Copy, Debug, PartialEq, Eq)]
pub struct ModelUniform {
    pub model: [[Scalar; 4]; 4],
    pub emissive: Scalar,
}

/// Byte `j` of a word, counted from the low end.
pub open spec fn word_byte(word: u32, j: int) -> u8 {
    if j == 0 {
        (word % 0x100) as u8
    } else if j == 1 {
        (word / 0x100 % 0x100) as u8
    } else if j == 2 {
        (word / 0x1_0000 % 0x100) as u8
    } else {
        (word / 0x100_0000 % 0x100) as u8
    }
}

/// The bytes of the words, low byte of each word first.
pub open spec fn little_endian(words: Seq<u32>) -> Seq<u8> {
    Seq::new(4 * words.len(), |k: int| word_byte(words[k / 4], k % 4))
}

/// The bytes of the words, high byte of each word first.
pub open spec fn big_endian(words: Seq<u32>) -> Seq<u8> {
    Seq::new(4 * words.len(), |k: int| word_byte(words[k / 4], 3 - k % 4))
}

/// Whether the bytes are the words as a machine holds them in memory: four
/// bytes for each word, in one of the two byte orders.
pub open spec fn in_memory(words: Seq<u32>, bytes: Seq<u8>) -> bool {
    bytes == little_endian(words) || bytes == big_endian(words)
}

/// The bytes of the words as this machine holds them.
///
/// Trusted: `bytemuck::cast_slice` from `u32` to `u8` shows the memory of
/// the words as bytes. A byte needs no alignment and every length in bytes
/// is a whole number of bytes, so the cast does not fail; the order of the
/// four bytes of a word is the machine's.
#[verifier::external_body]
fn native_bytes(words: &Vec<u32>) -> (bytes: Vec<u8>)
    ensures
        in_memory(words@, bytes@),
{
    bytemuck::cast_slice::<u32, u8>(words.as_slice()).to_vec()
}

/// The words of a matrix: its sixteen values, column after column.
pub open spec fn matrix_words(m: [[Scalar; 4]; 4]) -> Seq<u32> {
    Seq::new(16, |k: int| m[k / 4][k % 4].bits)
}

/// The twelve words of the directional light: the direction, padded to four
/// words; the colour, padded to four words; intensity and ambient share,
/// padded to four words.
pub open spec fn light_words(u: LightUniform) -> Seq<u32> {
    seq![
        u.direction[0].bits,
        u.direction[1].bits,
        u.direction[2].bits,
        0,
        u.color[0].bits,
        u.color[1].bits,
        u.color[2].bits,
        0,
        u.intensity.bits,
        u.ambient_strength.bits,
        0,
        0,
    ]
}

/// The twenty words of an instance's model uniform: the matrix, then the
/// glow, padded to four words.
pub open spec fn model_words(u: ModelUniform) -> Seq<u32> {
    matrix_words(u.model) + seq![u.emissive.bits, 0, 0, 0]
}

/// Word `j` of the eight words of a point light: the position and the
/// intensity, then the colour, padded to four words.
pub open spec fn point_light_word(l: PointLight, j: int) -> u32 {
    if 0 <= j < 3 {
        l.position[j].bits
    } else if j == 3 {
        l.intensity.bits
    } else if 4 <= j < 7 {
        l.color[j - 4].bits
    } else {
        0
    }
}

/// The sixty-eight words of the point lights: eight lights of eight words,
/// then the count, padded to four words.
pub open spec fn point_lights_words(u: PointLightsUniform) -> Seq<u32> {
    Seq::new(64, |k: int| point_light_word(u.lights[k / 8], k % 8)) + seq![u.count, 0, 0, 0]
}

/// Word `j` of the eleven words of a vertex: position, colour, normal and
/// texture coordinates, without padding.
pub open spec fn vertex_word(v: Vertex, j: int) -> u32 {
    if 0 <= j < 3 {
        v.position[j].bits
    } else if 3 <= j < 6 {
        v.color[j - 3].bits
    } else if 6 <= j < 9 {
        v.normal[j - 6].bits
    } else {
        v.uv[j - 9].bits
    }
}

/// The words of a vertex buffer: eleven for each vertex, one vertex after the
/// other.
pub open spec fn vertex_words(vertices: Seq<Vertex>) -> Seq<u32> {
    Seq::new(11 * vertices.len(), |k: int| vertex_word(vertices[k / 11], k % 11))
}

/// The words of a matrix.
fn words_of_matrix(m: &[[Scalar; 4]; 4]) -> (r: Vec<u32>)
    ensures
        r@ == matrix_words(*m),
{
    let mut r: Vec<u32> = Vec::new();
    let mut c: usize = 0;
    while c < 4
        invariant
            c <= 4,
            r@.len() == 4 * c,
            forall|k: int| 0 <= k < r@.len() ==> #[trigger] r@[k] == m[k / 4][k % 4].bits,
        decreases 4 - c,
    {
        let column = &m[c];
        r.push(column[0].bits);
        r.push(column[1].bits);
        r.push(column[2].bits);
        r.push(column[3].bits);
        c += 1;
    }
    r
}

impl LightUniform {
    /// The uniform of a scene's light.
    pub fn from_light(light: &Light) -> (u: LightUniform)
        ensures
            u == (LightUniform {
                direction: light.direction,
                color: light.color,
                intensity: light.intensity,
                ambient_strength: light.ambient_strength,
            }),
    {
        LightUniform {
            direction: light.direction,
            color: light.color,
            intensity: light.intensity,
            ambient_strength: light.ambient_strength,
        }
    }

    /// The uniform's words.
    pub fn words(&self) -> (r: Vec<u32>)
        ensures
            r@ == light_words(*self),
    {
        let mut r: Vec<u32> = Vec::new();
        r.push(self.direction[0].bits);
        r.push(self.direction[1].bits);
        r.push(self.direction[2].bits);
        r.push(0);
        r.push(self.color[0].bits);
        r.push(self.color[1].bits);
        r.push(self.color[2].bits);
        r.push(0);
        r.push(self.intensity.bits);
        r.push(self.ambient_strength.bits);
        r.push(0);
        r.push(0);
        r
    }
}

impl LightUniform {
    /// The uniform as the bytes of a buffer.
    pub fn bytes(&self) -> (r: Vec<u8>)
        ensures
            in_memory(light_words(*self), r@),
    {
        native_bytes(&self.words())
    }
}

impl ModelUniform {
    /// The uniform as the bytes of a buffer.
    pub fn bytes(&self) -> (r: Vec<u8>)
        ensures
            in_memory(model_words(*self), r@),
    {
        native_bytes(&self.words())
    }
}

impl CameraUniform {
    /// The uniform as the bytes of a buffer.
    pub fn bytes(&self) -> (r: Vec<u8>)
        ensures
            in_memory(matrix_words(self.view_proj), r@),
    {
        native_bytes(&self.words())
    }
}

impl PointLightsUniform {
    /// The uniform as the bytes of a buffer.
    pub fn bytes(&self) -> (r: Vec<u8>)
        ensures
            in_memory(point_lights_words(*self), r@),
    {
        native_bytes(&self.words())
    }
}

impl ObjectGeometry {
    /// The geometry's vertices as the bytes of a vertex buffer.
    pub fn vertex_bytes(&self) -> (r: Vec<u8>)
        ensures
            in_memory(vertex_words(self.vertices@), r@),
    {
        native_bytes(&self.vertex_words())
    }
}

impl ModelUniform {
    /// The uniform of an instance with the given model matrix and glow.
    pub fn new(model: [[Scalar; 4]; 4], emissive: Scalar) -> (u: ModelUniform)
        ensures
            u == (ModelUniform { model, emissive }),
    {
        ModelUniform { model, emissive }
    }

    /// The uniform's words.
    pub fn words(&self) -> (r: Vec<u32>)
        ensures
            r@ == model_words(*self),
    {
        let mut r = words_of_matrix(&self.model);
        r.push(self.emissive.bits);
        r.push(0);
        r.push(0);
        r.push(0);
        r
    }
}

impl CameraUniform {
    /// The uniform's words.
    pub fn words(&self) -> (r: Vec<u32>)
        ensures
            r@ == matrix_words(self.view_proj),
    {
        words_of_matrix(&self.view_proj)
    }
}

impl PointLightsUniform {
    /// The uniform's words.
    pub fn words(&self) -> (r: Vec<u32>)
        ensures
            r@ == point_lights_words(*self),
    {
        let mut r: Vec<u32> = Vec::new();
        let mut i: usize = 0;
        while i < 8
            invariant
                i <= 8,
                r@.len() == 8 * i,
                forall|k: int|
                    0 <= k < r@.len() ==> #[trigger] r@[k] == point_light_word(
                        self.lights[k / 8],
                        k % 8,
                    ),
            decreases 8 - i,
        {
            let l = &self.lights[i];
            r.push(l.position[0].bits);
            r.push(l.position[1].bits);
            r.push(l.position[2].bits);
            r.push(l.intensity.bits);
            r.push(l.color[0].bits);
            r.push(l.color[1].bits);
            r.push(l.color[2].bits);
            r.push(0);
            i += 1;
        }
        r.push(self.count);
        r.push(0);
        r.push(0);
        r.push(0);
        r
    }
}

impl ObjectGeometry {
    /// The words of the geometry's vertex buffer.
    pub fn vertex_words(&self) -> (r: Vec<u32>)
        ensures
            r@ == vertex_words(self.vertices@),
    {
        let mut r: Vec<u32> = Vec::new();
        let mut i: usize = 0;
        while i < self.vertices.len()
            invariant
                i <= self.vertices.len(),
                r@.len() == 11 * i,
                forall|k: int|
                    0 <= k < r@.len() ==> #[trigger] r@[k] == vertex_word(
                        self.vertices@[k / 11],
                        k % 11,
                    ),
            decreases self.vertices.len() - i,
        {
            let v = &self.vertices[i];
            r.push(v.position[0].bits);
            r.push(v.position[1].bits);
            r.push(v.position[2].bits);
            r.push(v.color[0].bits);
            r.push(v.color[1].bits);
            r.push(v.color[2].bits);
            r.push(v.normal[0].bits);
            r.push(v.normal[1].bits);
            r.push(v.normal[2].bits);
            r.push(v.uv[0].bits);
            r.push(v.uv[1].bits);
            i += 1;
        }
        r
    }
}

/// Every uniform fills a whole number of sixteen-byte blocks, as the
/// graphics device asks of uniform buffers: twelve words for the directional
/// light, twenty for a model, sixty-eight for the point lights, sixteen for
/// the camera. A vertex buffer holds eleven words for each vertex.
pub proof fn lemma_sizes(
    light: LightUniform,
    model: ModelUniform,
    camera: CameraUniform,
    lights: PointLightsUniform,
    vertices: Seq<Vertex>,
)
    ensures
        light_words(light).len() == 12,
        model_words(model).len() == 20,
        matrix_words(camera.view_proj).len() == 16,
        point_lights_words(lights).len() == 68,
        vertex_words(vertices).len() == VERTEX_WORDS * vertices.len(),
        point_lights_words(lights)[64] == lights.count,
        model_words(model)[16] == model.emissive.bits,
{
}

/// The bytes of words in memory are four for each word, whatever the byte
/// order.
pub proof fn lemma_in_memory(words: Seq<u32>, bytes: Seq<u8>)
    requires
        in_memory(words, bytes),
    ensures
        bytes.len() == 4 * words.len(),
{
}

} // verus!
