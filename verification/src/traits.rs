//! What the particle system asks of a particle record.

use crate::gl_call::{GlCall, GlCallView};
use crate::gl_types::GlFloat;
use crate::program::uniform::{UniformError, UniformErrorView};
use crate::program::ProgramRegistry;
use vstd::prelude::*;

verus! {

/// Why an object issued no calls.
#[derive(Debug, PartialEq, Eq)]
pub enum RenderError {
    /// A program that the object works with is no longer in the registry.
    ProgramDestroyed,
    /// A uniform refused its value.
    Uniform(UniformError),
}

pub enum RenderErrorView {
    ProgramDestroyed,
    Uniform(UniformErrorView),
}

impl View for RenderError {
    type V = RenderErrorView;

    open spec fn view(&self) -> RenderErrorView {
        match *self {
            RenderError::ProgramDestroyed => RenderErrorView::ProgramDestroyed,
            RenderError::Uniform(error) => RenderErrorView::Uniform(error@),
        }
    }
}

/// The view of the calls of a frame, or of why there are none.
pub open spec fn render_result_view(result: Result<Vec<GlCall>, RenderError>) -> Result<
    Seq<GlCallView>,
    RenderErrorView,
> {
    match result {
        Ok(calls) => Ok(calls.deep_view()),
        Err(error) => Err(error@),
    }
}

/// Something that is drawn each frame.
pub trait Drawable {
    /// The calls that draw the object, or why it cannot be drawn.
    fn draw(&self, programs: &ProgramRegistry) -> Result<Vec<GlCall>, RenderError>;
}

/// Something that changes with time.
pub trait Updatable {
    /// Moves the object on by the time since the last frame, in seconds: the
    /// calls that do so, or why it cannot be done.
    fn update(&mut self, programs: &ProgramRegistry, delta_time: GlFloat) -> Result<
        Vec<GlCall>,
        RenderError,
    >;
}

/// A record of the particle buffer.
///
/// The buffer is read by the shaders, which declare the record on their
/// side: the encoding here and the declaration there have to agree byte for
/// byte.
pub trait ParticleLike: Sized {
    /// The bytes of the record as they lie in the buffer.
    spec fn encoding(&self) -> Seq<u8>;

    /// The number of bytes from one record of the buffer to the next.
    spec fn record_size() -> nat;

    /// The calls that describe the fields of a record to the bound vertex
    /// array, for the buffer bound as the array buffer.
    spec fn attribute_calls() -> Seq<GlCallView>;

    /// Every record has the same size, which is not zero.
    proof fn lemma_record_size(&self)
        ensures
            self.encoding().len() == Self::record_size(),
            Self::record_size() > 0,
    ;

    /// The number of bytes from one record of the buffer to the next.
    fn stride() -> (stride: usize)
        ensures
            stride == Self::record_size(),
    ;

    /// Appends the record to a buffer image.
    fn write_to(&self, image: &mut Vec<u8>)
        ensures
            final(image)@ == old(image)@ + self.encoding(),
    ;

    /// The calls that describe the fields of a record to the bound vertex
    /// array, for the buffer bound as the array buffer.
    fn setup_attributes() -> (calls: Vec<GlCall>)
        ensures
            calls.deep_view() == Self::attribute_calls(),
    ;
}

/// The image of a buffer that holds `particles` in order, one record after
/// the other.
pub open spec fn buffer_image<P: ParticleLike>(particles: Seq<P>) -> Seq<u8>
    decreases particles.len(),
{
    if particles.len() == 0 {
        Seq::empty()
    } else {
        buffer_image(particles.drop_last()) + particles.last().encoding()
    }
}

/// Whether the record of the particle `index` lies in the image of
/// `particles` at `index` times the record size.
pub open spec fn record_in_place<P: ParticleLike>(particles: Seq<P>, index: int) -> bool {
    &&& 0 <= index * P::record_size()
    &&& (index + 1) * P::record_size() <= buffer_image(particles).len()
    &&& particles[index].encoding() == buffer_image(particles).subrange(
        index * P::record_size(),
        (index + 1) * P::record_size(),
    )
}

/// The image takes the record size for each particle, and the record `i`
/// lies at `i` times the record size.
pub proof fn lemma_buffer_image<P: ParticleLike>(particles: Seq<P>)
    ensures
        buffer_image(particles).len() == particles.len() * P::record_size(),
        forall|i: int| 0 <= i < particles.len() ==> #[trigger] record_in_place(particles, i),
    decreases particles.len(),
{
    let size = P::record_size() as int;
    if particles.len() > 0 {
        let front = particles.drop_last();
        let count = front.len() as int;
        let image = buffer_image(particles);
        let front_image = buffer_image(front);
        lemma_buffer_image(front);
        particles.last().lemma_record_size();
        assert(front_image.len() == count * size);
        assert((count + 1) * size == count * size + size) by (nonlinear_arith);
        assert(image.len() == (count + 1) * size);
        assert forall|i: int| 0 <= i < particles.len() implies #[trigger] record_in_place(
            particles,
            i,
        ) by {
            assert(i * P::record_size() == i * size);
            assert((i + 1) * P::record_size() == (i + 1) * size);
            assert(0 <= i * size <= (i + 1) * size && (i + 1) * size <= (count + 1) * size && (i
                < count ==> (i + 1) * size <= count * size) && (i == count ==> i * size == count
                * size)) by (nonlinear_arith)
                requires
                    0 <= i <= count,
                    size > 0,
            ;
            if i < count {
                assert(front[i] == particles[i]);
                assert(record_in_place(front, i));
                assert(front[i].encoding() == front_image.subrange(i * size, (i + 1) * size));
                assert(front_image.subrange(i * size, (i + 1) * size) =~= image.subrange(
                    i * size,
                    (i + 1) * size,
                ));
            } else {
                assert(particles[i] == particles.last());
                assert(particles[i].encoding() =~= image.subrange(i * size, (i + 1) * size));
            }
        }
    } else {
        assert(particles.len() * P::record_size() == 0) by (nonlinear_arith)
            requires
                particles.len() == 0,
        ;
    }
}

} // verus!
