//! The particle of the fire effect and its place in the buffer.

use crate::gl_call::{GlCall, GlCallView};
use crate::gl_types::{lemma_words_image, push_word, word_at, words_image, GlFloat, FLOAT};
use crate::traits::ParticleLike;
use vstd::prelude::*;

verus! {

/// The number of bytes of a [`FireParticle`] in the buffer.
pub const FIRE_PARTICLE_SIZE: usize = 64;

/// One particle of the fire.
///
/// The fields lie in the buffer in the order in which they are declared,
/// four bytes each, least significant byte first. The padding makes each
/// vector of three start at a multiple of sixteen bytes, and the record a
/// multiple of sixteen bytes long, as the shaders' structured buffers want.
#[derive(Clone, Copy, Debug, PartialEq, Eq)]
pub struct FireParticle {
    pub lifetime: GlFloat,
    pub rotation: GlFloat,
    pub pad_1: GlFloat,
    pub pad_2: GlFloat,
    pub position: [GlFloat; 3],
    pub angular_velocity: GlFloat,
    pub velocity: [GlFloat; 3],
    pub pad_3: GlFloat,
    pub initial_position: [GlFloat; 3],
}

/// The call that describes the attribute `index`, of `size` components, at
/// `offset` in a record.
pub open spec fn attribute_pointer(index: u32, size: i32, offset: usize) -> GlCallView {
    GlCallView::VertexAttribPointer {
        index,
        size,
        component_type: FLOAT,
        normalized: false,
        stride: FIRE_PARTICLE_SIZE as i32,
        offset,
    }
}

impl FireParticle {
    /// A particle at `position`, which is also where it starts again. The
    /// padding is zero.
    pub fn new(
        lifetime: GlFloat,
        rotation: GlFloat,
        position: [GlFloat; 3],
        angular_velocity: GlFloat,
        velocity: [GlFloat; 3],
    ) -> (particle: FireParticle)
        ensures
            particle == (FireParticle {
                lifetime,
                rotation,
                pad_1: GlFloat { bits: 0 },
                pad_2: GlFloat { bits: 0 },
                position,
                angular_velocity,
                velocity,
                pad_3: GlFloat { bits: 0 },
                initial_position: position,
            }),
    {
        FireParticle {
            lifetime,
            rotation,
            pad_1: GlFloat::zero(),
            pad_2: GlFloat::zero(),
            position,
            angular_velocity,
            velocity,
            pad_3: GlFloat::zero(),
            initial_position: position,
        }
    }

    /// The fields of the record in the order of the buffer, with the padding
    /// that ends the record.
    pub open spec fn words(self) -> Seq<GlFloat> {
        seq![
            self.lifetime,
            self.rotation,
            self.pad_1,
            self.pad_2,
            self.position[0],
            self.position[1],
            self.position[2],
            self.angular_velocity,
            self.velocity[0],
            self.velocity[1],
            self.velocity[2],
            self.pad_3,
            self.initial_position[0],
            self.initial_position[1],
            self.initial_position[2],
            GlFloat { bits: 0 },
        ]
    }

    /// The layout of the record: it is sixty-four bytes long, the lifetime
    /// lies at 0, the rotation at 4, the position at 16, the angular
    /// velocity at 28, the velocity at 32 and the initial position at 48.
    pub proof fn lemma_layout(self)
        ensures
            self.encoding().len() == FIRE_PARTICLE_SIZE,
            word_at(self.encoding(), 0) == self.lifetime,
            word_at(self.encoding(), 4) == self.rotation,
            word_at(self.encoding(), 8) == self.pad_1,
            word_at(self.encoding(), 12) == self.pad_2,
            forall|i: int| 0 <= i < 3 ==> word_at(self.encoding(), 16 + 4 * i) == self.position[i],
            word_at(self.encoding(), 28) == self.angular_velocity,
            forall|i: int| 0 <= i < 3 ==> word_at(self.encoding(), 32 + 4 * i) == self.velocity[i],
            word_at(self.encoding(), 44) == self.pad_3,
            forall|i: int|
                0 <= i < 3 ==> word_at(self.encoding(), 48 + 4 * i) == self.initial_position[i],
    {
        let words = self.words();
        lemma_words_image(words, 16);
        assert(words[0] == self.lifetime);
        assert(words[1] == self.rotation);
        assert(words[2] == self.pad_1);
        assert(words[3] == self.pad_2);
        assert(words[4] == self.position[0]);
        assert(words[5] == self.position[1]);
        assert(words[6] == self.position[2]);
        assert(words[7] == self.angular_velocity);
        assert(words[8] == self.velocity[0]);
        assert(words[9] == self.velocity[1]);
        assert(words[10] == self.velocity[2]);
        assert(words[11] == self.pad_3);
        assert(words[12] == self.initial_position[0]);
        assert(words[13] == self.initial_position[1]);
        assert(words[14] == self.initial_position[2]);
        assert forall|i: int| 0 <= i < 3 implies word_at(self.encoding(), 16 + 4 * i)
            == self.position[i] by {
            assert(words[4 + i] == self.position[i]);
            assert(16 + 4 * i == 4 * (4 + i));
        }
        assert forall|i: int| 0 <= i < 3 implies word_at(self.encoding(), 32 + 4 * i)
            == self.velocity[i] by {
            assert(words[8 + i] == self.velocity[i]);
            assert(32 + 4 * i == 4 * (8 + i));
        }
        assert forall|i: int| 0 <= i < 3 implies word_at(self.encoding(), 48 + 4 * i)
            == self.initial_position[i] by {
            assert(words[12 + i] == self.initial_position[i]);
            assert(48 + 4 * i == 4 * (12 + i));
        }
    }

    /// The bytes of the record as they lie in the buffer.
    pub fn to_bytes(&self) -> (bytes: Vec<u8>)
        ensures
            bytes@ == self.encoding(),
            bytes.len() == FIRE_PARTICLE_SIZE,
    {
        let mut bytes: Vec<u8> = Vec::new();
        self.write_to(&mut bytes);
        proof {
            self.lemma_layout();
            assert(bytes@ =~= self.encoding());
        }
        bytes
    }
}

impl ParticleLike for FireParticle {
    open spec fn encoding(&self) -> Seq<u8> {
        words_image(self.words(), 16)
    }

    open spec fn record_size() -> nat {
        FIRE_PARTICLE_SIZE as nat
    }

    open spec fn attribute_calls() -> Seq<GlCallView> {
        seq![
            attribute_pointer(1, 1, 0),
            attribute_pointer(2, 1, 4),
            attribute_pointer(3, 3, 16),
            attribute_pointer(4, 1, 28),
            attribute_pointer(5, 3, 32),
            attribute_pointer(6, 3, 48),
            GlCallView::EnableVertexAttribArray { index: 1 },
            GlCallView::EnableVertexAttribArray { index: 2 },
            GlCallView::EnableVertexAttribArray { index: 3 },
            GlCallView::EnableVertexAttribArray { index: 4 },
            GlCallView::EnableVertexAttribArray { index: 5 },
            GlCallView::EnableVertexAttribArray { index: 6 },
        ]
    }

    proof fn lemma_record_size(&self) {
        self.lemma_layout();
    }

    fn stride() -> (stride: usize) {
        FIRE_PARTICLE_SIZE
    }

    fn write_to(&self, image: &mut Vec<u8>) {
        let ghost before = image@;
        let ghost words = self.words();
        push_word(image, self.lifetime);
        push_word(image, self.rotation);
        push_word(image, self.pad_1);
        push_word(image, self.pad_2);
        assert(image@ =~= before + words_image(words, 4)) by {
            reveal_with_fuel(words_image, 5);
        }
        push_word(image, self.position[0]);
        push_word(image, self.position[1]);
        push_word(image, self.position[2]);
        push_word(image, self.angular_velocity);
        assert(image@ =~= before + words_image(words, 8)) by {
            reveal_with_fuel(words_image, 5);
        }
        push_word(image, self.velocity[0]);
        push_word(image, self.velocity[1]);
        push_word(image, self.velocity[2]);
        push_word(image, self.pad_3);
        assert(image@ =~= before + words_image(words, 12)) by {
            reveal_with_fuel(words_image, 5);
        }
        push_word(image, self.initial_position[0]);
        push_word(image, self.initial_position[1]);
        push_word(image, self.initial_position[2]);
        push_word(image, GlFloat::zero());
        assert(image@ =~= before + words_image(words, 16)) by {
            reveal_with_fuel(words_image, 5);
        }
    }

    fn setup_attributes() -> (calls: Vec<GlCall>) {
        let stride: i32 = 64;
        let mut calls: Vec<GlCall> = Vec::new();
        calls.push(pointer(1, 1, 0));
        calls.push(pointer(2, 1, 4));
        calls.push(pointer(3, 3, 16));
        calls.push(pointer(4, 1, 28));
        calls.push(pointer(5, 3, 32));
        calls.push(pointer(6, 3, 48));
        calls.push(GlCall::EnableVertexAttribArray { index: 1 });
        calls.push(GlCall::EnableVertexAttribArray { index: 2 });
        calls.push(GlCall::EnableVertexAttribArray { index: 3 });
        calls.push(GlCall::EnableVertexAttribArray { index: 4 });
        calls.push(GlCall::EnableVertexAttribArray { index: 5 });
        calls.push(GlCall::EnableVertexAttribArray { index: 6 });
        assert(calls.deep_view() =~= FireParticle::attribute_calls());
        calls
    }
}

/// The call that describes the attribute `index`, of `size` components, at
/// `offset` in a record.
fn pointer(index: u32, size: i32, offset: usize) -> (call: GlCall)
    ensures
        call@ == attribute_pointer(index, size, offset),
{
    GlCall::VertexAttribPointer {
        index,
        size,
        component_type: FLOAT,
        normalized: false,
        stride: 64,
        offset,
    }
}

} // verus!
