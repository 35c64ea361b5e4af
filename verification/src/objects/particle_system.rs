//! A particle system that lives in one buffer of the GPU: a compute program
//! moves the particles on in place, and a display program draws them as
//! points from the same buffer.

use crate::conversation::{Step, StepView};
use crate::definitions::DELTA_TIME_UNIFORM_NAME;
use crate::extensions::{ceil_quotient, CeilDiv};
use crate::gl_call::{GlCall, GlCallView, GlReply, GlReplyView};
use crate::gl_types::{
    BufferIdType, GlFloat, VaoIdType, ALL_BARRIER_BITS, ARRAY_BUFFER, DYNAMIC_DRAW, POINTS,
    SHADER_STORAGE_BUFFER,
};
use crate::program::uniform::UniformKind;
use crate::program::{
    Program, ProgramHandle, ProgramIdType, ProgramRegistry, RegistryView, Release,
};
use crate::traits::{
    buffer_image, render_result_view, Drawable, ParticleLike, RenderError,
    RenderErrorView, Updatable,
};
use vstd::prelude::*;

verus! {

/// The size of a work group where the builder is given none.
pub const DEFAULT_GROUP_SIZE: usize = 1024;

/// The smallest size of a work group that the builder accepts.
pub const MIN_GROUP_SIZE: usize = 1;

/// The largest size of a work group that the builder accepts.
pub const MAX_GROUP_SIZE: usize = 1024;

/// The binding point of the particle buffer where the builder is given none.
pub const DEFAULT_BUFFER_BASE: u32 = 1;

/// The largest number of particles of a system: the largest count of a
/// draw call.
pub const MAX_PARTICLES: usize = 0x7FFF_FFFF;

/// What is wrong with the description of a particle system.
#[derive(Clone, Copy, Debug, PartialEq, Eq, Structural)]
pub enum ParticleSystemIssue {
    /// No initial particles were given.
    MissingInitialParticles,
    /// There are more than [`MAX_PARTICLES`] particles, or their bytes are
    /// more than the largest size of an object in memory.
    TooManyParticles,
    /// The simulation program has no compute stage.
    ComputeProgramNotCompute,
    /// No simulation program was given, or it is no longer in the registry.
    MissingComputeProgram,
    /// The display program has no geometry stage. This may be a mistake,
    /// and is no error.
    DisplayProgramWithoutGeometry,
    /// No display program was given, or it is no longer in the registry.
    MissingDisplayProgram,
    /// The size of the work groups is below [`MIN_GROUP_SIZE`] or beyond
    /// [`MAX_GROUP_SIZE`].
    GroupSizeOutOfRange,
}

impl ParticleSystemIssue {
    /// Whether the issue keeps the system from being built.
    pub open spec fn fatal(self) -> bool {
        self != ParticleSystemIssue::DisplayProgramWithoutGeometry
    }

    /// Whether the issue keeps the system from being built.
    pub fn is_error(self) -> (fatal: bool)
        ensures
            fatal == self.fatal(),
    {
        match self {
            ParticleSystemIssue::DisplayProgramWithoutGeometry => false,
            _ => true,
        }
    }
}

/// Whether one of the issues keeps the system from being built.
pub open spec fn any_fatal(issues: Seq<ParticleSystemIssue>) -> bool {
    exists|i: int| 0 <= i < issues.len() && #[trigger] issues[i].fatal()
}

/// The description of a particle system to build.
pub struct ParticleSystemBuilder<ParticleType: ParticleLike> {
    compute_program: Option<ProgramHandle>,
    display_program: Option<ProgramHandle>,
    initial_particles: Option<Vec<ParticleType>>,
    group_size: Option<usize>,
    buffer_base: Option<u32>,
}

pub struct ParticleSystemBuilderView<ParticleType> {
    pub compute_program: Option<ProgramHandle>,
    pub display_program: Option<ProgramHandle>,
    pub initial_particles: Option<Seq<ParticleType>>,
    pub group_size: Option<usize>,
    pub buffer_base: Option<u32>,
}

impl<ParticleType: ParticleLike> View for ParticleSystemBuilder<ParticleType> {
    type V = ParticleSystemBuilderView<ParticleType>;

    closed spec fn view(&self) -> ParticleSystemBuilderView<ParticleType> {
        ParticleSystemBuilderView {
            compute_program: self.compute_program,
            display_program: self.display_program,
            initial_particles: match self.initial_particles {
                Some(particles) => Some(particles@),
                None => None,
            },
            group_size: self.group_size,
            buffer_base: self.buffer_base,
        }
    }
}

impl<ParticleType: ParticleLike> ParticleSystemBuilderView<ParticleType> {
    /// What is wrong with the initial particles.
    pub open spec fn particle_issues(self) -> Seq<ParticleSystemIssue> {
        match self.initial_particles {
            None => seq![ParticleSystemIssue::MissingInitialParticles],
            Some(particles) => if particles.len() > MAX_PARTICLES || particles.len()
                * ParticleType::record_size() > isize::MAX {
                seq![ParticleSystemIssue::TooManyParticles]
            } else {
                Seq::empty()
            },
        }
    }

    /// What is wrong with the simulation program.
    pub open spec fn compute_issues(self, programs: RegistryView) -> Seq<ParticleSystemIssue> {
        match self.compute_program {
            Some(handle) if programs.is_live(handle) => if programs.program(handle).is_compute() {
                Seq::empty()
            } else {
                seq![ParticleSystemIssue::ComputeProgramNotCompute]
            },
            _ => seq![ParticleSystemIssue::MissingComputeProgram],
        }
    }

    /// What is wrong with the display program.
    pub open spec fn display_issues(self, programs: RegistryView) -> Seq<ParticleSystemIssue> {
        match self.display_program {
            Some(handle) if programs.is_live(handle) => if programs.program(handle).has_geometry() {
                Seq::empty()
            } else {
                seq![ParticleSystemIssue::DisplayProgramWithoutGeometry]
            },
            _ => seq![ParticleSystemIssue::MissingDisplayProgram],
        }
    }

    /// What is wrong with the size of the work groups.
    pub open spec fn group_issues(self) -> Seq<ParticleSystemIssue> {
        match self.group_size {
            Some(size) if size < MIN_GROUP_SIZE || size > MAX_GROUP_SIZE => seq![
                ParticleSystemIssue::GroupSizeOutOfRange,
            ],
            _ => Seq::empty(),
        }
    }

    /// Everything that is wrong with the description, not only the first
    /// thing: the particles, the simulation program, the display program
    /// and the size of the work groups, in this order.
    pub open spec fn issues(self, programs: RegistryView) -> Seq<ParticleSystemIssue> {
        self.particle_issues() + self.compute_issues(programs) + self.display_issues(programs)
            + self.group_issues()
    }

    /// The building of the system that is described, before the driver has
    /// answered anything. Meaningful where no issue is fatal.
    pub open spec fn begin(self) -> ParticleSystemBuildView {
        ParticleSystemBuildView {
            compute_program: self.compute_program->0,
            display_program: self.display_program->0,
            image: buffer_image(self.initial_particles->0),
            attributes: ParticleType::attribute_calls(),
            particle_count: self.initial_particles->0.len() as usize,
            group_size: match self.group_size {
                Some(size) => size,
                None => DEFAULT_GROUP_SIZE,
            },
            buffer_base: match self.buffer_base {
                Some(base) => base,
                None => DEFAULT_BUFFER_BASE,
            },
            vertex_array: None,
        }
    }
}

/// A description that can be built: the building, the calls that start it,
/// and what was noticed though it is no error.
pub struct ParticleSystemStart {
    pub build: ParticleSystemBuild,
    pub calls: Vec<GlCall>,
    pub warnings: Vec<ParticleSystemIssue>,
}

impl<ParticleType: ParticleLike> ParticleSystemBuilder<ParticleType> {
    pub fn compute_program(self, program: ProgramHandle) -> (builder: Self)
        ensures
            builder@ == (ParticleSystemBuilderView { compute_program: Some(program), ..self@ }),
    {
        let mut builder = self;
        builder.compute_program = Some(program);
        builder
    }

    pub fn display_program(self, program: ProgramHandle) -> (builder: Self)
        ensures
            builder@ == (ParticleSystemBuilderView { display_program: Some(program), ..self@ }),
    {
        let mut builder = self;
        builder.display_program = Some(program);
        builder
    }

    pub fn initial_particles(self, particles: Vec<ParticleType>) -> (builder: Self)
        ensures
            builder@ == (ParticleSystemBuilderView {
                initial_particles: Some(particles@),
                ..self@
            }),
    {
        let mut builder = self;
        builder.initial_particles = Some(particles);
        builder
    }

    pub fn buffer_base(self, base_binding: u32) -> (builder: Self)
        ensures
            builder@ == (ParticleSystemBuilderView { buffer_base: Some(base_binding), ..self@ }),
    {
        let mut builder = self;
        builder.buffer_base = Some(base_binding);
        builder
    }

    pub fn group_size(self, group_size: usize) -> (builder: Self)
        ensures
            builder@ == (ParticleSystemBuilderView { group_size: Some(group_size), ..self@ }),
    {
        let mut builder = self;
        builder.group_size = Some(group_size);
        builder
    }

    /// Everything that is wrong with the description.
    pub fn assert_integrity(&self, programs: &ProgramRegistry) -> (issues: Vec<ParticleSystemIssue>)
        ensures
            issues@ == self@.issues(programs@),
    {
        let mut issues: Vec<ParticleSystemIssue> = Vec::new();
        match &self.initial_particles {
            None => {
                issues.push(ParticleSystemIssue::MissingInitialParticles);
            },
            Some(particles) => {
                let count = particles.len();
                let stride = ParticleType::stride();
                proof {
                    if 0 < count {
                        let limit = isize::MAX as int;
                        vstd::arithmetic::div_mod::lemma_fundamental_div_mod(limit, count as int);
                        vstd::arithmetic::div_mod::lemma_mod_bound(limit, count as int);
                        let quotient = limit / (count as int);
                        assert(stride > quotient ==> count * stride > limit) by (nonlinear_arith)
                            requires
                                limit == count * quotient + limit % (count as int),
                                0 <= limit % (count as int) < count,
                                0 < count,
                        ;
                        assert(stride <= quotient ==> count * stride <= limit) by (nonlinear_arith)
                            requires
                                limit == count * quotient + limit % (count as int),
                                0 <= limit % (count as int) < count,
                                0 < count,
                                0 <= stride,
                        ;
                    }
                    if count == 0 {
                        assert(count * stride == 0) by (nonlinear_arith)
                            requires
                                count == 0,
                        ;
                    }
                }
                if count > MAX_PARTICLES || (count > 0 && stride > (isize::MAX as usize) / count) {
                    issues.push(ParticleSystemIssue::TooManyParticles);
                }
            },
        }
        assert(issues@ =~= self@.particle_issues());
        match self.compute_program {
            Some(handle) => match programs.get(handle) {
                Some(program) => {
                    if !program.is_compute() {
                        issues.push(ParticleSystemIssue::ComputeProgramNotCompute);
                    }
                },
                None => {
                    issues.push(ParticleSystemIssue::MissingComputeProgram);
                },
            },
            None => {
                issues.push(ParticleSystemIssue::MissingComputeProgram);
            },
        }
        assert(issues@ =~= self@.particle_issues() + self@.compute_issues(programs@));
        match self.display_program {
            Some(handle) => match programs.get(handle) {
                Some(program) => {
                    if !program.has_geometry() {
                        issues.push(ParticleSystemIssue::DisplayProgramWithoutGeometry);
                    }
                },
                None => {
                    issues.push(ParticleSystemIssue::MissingDisplayProgram);
                },
            },
            None => {
                issues.push(ParticleSystemIssue::MissingDisplayProgram);
            },
        }
        assert(issues@ =~= self@.particle_issues() + self@.compute_issues(programs@)
            + self@.display_issues(programs@));
        match self.group_size {
            Some(size) => {
                if size < MIN_GROUP_SIZE || size > MAX_GROUP_SIZE {
                    issues.push(ParticleSystemIssue::GroupSizeOutOfRange);
                }
            },
            None => {},
        }
        assert(issues@ =~= self@.issues(programs@));
        issues
    }

    /// Checks the description and, if nothing fatal is wrong with it, starts
    /// the building: asks for a vertex array. Otherwise the result is
    /// everything that is wrong, and nothing is to be issued.
    pub fn build(self, programs: &ProgramRegistry) -> (start: Result<
        ParticleSystemStart,
        Vec<ParticleSystemIssue>,
    >)
        ensures
            match start {
                Ok(start) => {
                    &&& !any_fatal(self@.issues(programs@))
                    &&& start.warnings@ == self@.issues(programs@)
                    &&& start.build@ == self@.begin()
                    &&& start.calls.deep_view() == seq![GlCallView::GenVertexArrays { count: 1 }]
                },
                Err(issues) => any_fatal(issues@) && issues@ == self@.issues(programs@),
            },
    {
        let issues = self.assert_integrity(programs);
        let mut i: usize = 0;
        while i < issues.len()
            invariant
                i <= issues.len(),
                issues@ == self@.issues(programs@),
                forall|j: int| 0 <= j < i ==> !(#[trigger] issues[j].fatal()),
            decreases issues.len() - i,
        {
            if issues[i].is_error() {
                assert(issues@[i as int].fatal());
                return Err(issues);
            }
            i += 1;
        }
        let ParticleSystemBuilder {
            compute_program,
            display_program,
            initial_particles,
            group_size,
            buffer_base,
        } = self;
        proof {
            let view = self@;
            assert(view.particle_issues() =~= Seq::empty()) by {
                if view.particle_issues().len() > 0 {
                    assert(issues[0].fatal());
                }
            }
            assert(view.compute_issues(programs@) =~= Seq::empty()) by {
                if view.compute_issues(programs@).len() > 0 {
                    assert(issues[0].fatal());
                }
            }
            assert(view.display_issues(programs@).len() <= 1);
            assert(view.group_issues() =~= Seq::empty()) by {
                if view.group_issues().len() > 0 {
                    assert(issues[view.display_issues(programs@).len() as int].fatal());
                }
            }
            assert(view.display_program is Some && programs@.is_live(view.display_program->0)) by {
                if !(view.display_program is Some && programs@.is_live(view.display_program->0)) {
                    assert(issues[0].fatal());
                }
            }
        }
        let particles = initial_particles.unwrap();
        let stride = ParticleType::stride();
        let mut image: Vec<u8> = Vec::new();
        let mut k: usize = 0;
        while k < particles.len()
            invariant
                k <= particles.len(),
                image@ == buffer_image(particles@.subrange(0, k as int)),
            decreases particles.len() - k,
        {
            particles[k].write_to(&mut image);
            proof {
                assert(particles@.subrange(0, k + 1).drop_last() =~= particles@.subrange(
                    0,
                    k as int,
                ));
            }
            k += 1;
        }
        assert(particles@.subrange(0, k as int) =~= particles@);
        let mut calls: Vec<GlCall> = Vec::new();
        calls.push(GlCall::GenVertexArrays { count: 1 });
        assert(calls.deep_view() =~= seq![GlCallView::GenVertexArrays { count: 1 }]);
        Ok(
            ParticleSystemStart {
                build: ParticleSystemBuild {
                    compute_program: compute_program.unwrap(),
                    display_program: display_program.unwrap(),
                    image,
                    attributes: ParticleType::setup_attributes(),
                    particle_count: particles.len(),
                    group_size: match group_size {
                        Some(size) => size,
                        None => DEFAULT_GROUP_SIZE,
                    },
                    buffer_base: match buffer_base {
                        Some(base) => base,
                        None => DEFAULT_BUFFER_BASE,
                    },
                    vertex_array: None,
                },
                calls,
                warnings: issues,
            },
        )
    }
}

/// The building of one particle system, under way.
pub struct ParticleSystemBuild {
    compute_program: ProgramHandle,
    display_program: ProgramHandle,
    image: Vec<u8>,
    attributes: Vec<GlCall>,
    particle_count: usize,
    group_size: usize,
    buffer_base: u32,
    /// The vertex array, once the driver has named it.
    vertex_array: Option<VaoIdType>,
}

pub struct ParticleSystemBuildView {
    pub compute_program: ProgramHandle,
    pub display_program: ProgramHandle,
    pub image: Seq<u8>,
    pub attributes: Seq<GlCallView>,
    pub particle_count: usize,
    pub group_size: usize,
    pub buffer_base: u32,
    pub vertex_array: Option<VaoIdType>,
}

impl View for ParticleSystemBuild {
    type V = ParticleSystemBuildView;

    closed spec fn view(&self) -> ParticleSystemBuildView {
        ParticleSystemBuildView {
            compute_program: self.compute_program,
            display_program: self.display_program,
            image: self.image@,
            attributes: self.attributes.deep_view(),
            particle_count: self.particle_count,
            group_size: self.group_size,
            buffer_base: self.buffer_base,
            vertex_array: self.vertex_array,
        }
    }
}

/// A particle system on the GPU.
pub struct ParticleSystem {
    compute_program: ProgramHandle,
    display_program: ProgramHandle,
    vao_id: VaoIdType,
    buffer_id: BufferIdType,
    particle_count: usize,
    group_size: usize,
}

pub struct ParticleSystemView {
    pub compute_program: ProgramHandle,
    pub display_program: ProgramHandle,
    pub vao_id: VaoIdType,
    pub buffer_id: BufferIdType,
    pub particle_count: usize,
    pub group_size: usize,
}

impl View for ParticleSystem {
    type V = ParticleSystemView;

    closed spec fn view(&self) -> ParticleSystemView {
        ParticleSystemView {
            compute_program: self.compute_program,
            display_program: self.display_program,
            vao_id: self.vao_id,
            buffer_id: self.buffer_id,
            particle_count: self.particle_count,
            group_size: self.group_size,
        }
    }
}

impl ParticleSystemView {
    /// The calls that draw the particles: with the vertex array and the
    /// display program bound, one point for each particle; then nothing is
    /// left bound.
    pub open spec fn draw_calls(self, programs: RegistryView) -> Result<
        Seq<GlCallView>,
        RenderErrorView,
    > {
        if !programs.is_live(self.display_program) {
            Err(RenderErrorView::ProgramDestroyed)
        } else {
            Ok(
                seq![
                    GlCallView::BindVertexArray { array: self.vao_id },
                    GlCallView::UseProgram { program: programs.program(self.display_program).id },
                    GlCallView::DrawArrays {
                        mode: POINTS,
                        first: 0,
                        count: self.particle_count as i32,
                    },
                    GlCallView::BindVertexArray { array: 0 },
                    Program::unbind_call(),
                ],
            )
        }
    }

    /// The number of work groups of one simulation step: as many as it
    /// takes to give each particle an invocation, and no more. The work
    /// groups of a system are never empty.
    pub open spec fn group_count(self) -> nat {
        ceil_quotient(self.particle_count as nat, self.group_size as nat)
    }

    /// The calls of one simulation step, after the write of the time, if
    /// there is one: with the vertex array and the simulation program bound,
    /// the work groups are launched, and a barrier makes what they write
    /// visible to whatever reads the buffer next; then nothing is left bound.
    pub open spec fn simulate(self, program: ProgramIdType, time: Seq<GlCallView>) -> Seq<
        GlCallView,
    > {
        seq![GlCallView::BindVertexArray { array: self.vao_id }] + time + seq![
            GlCallView::UseProgram { program },
            GlCallView::DispatchCompute {
                groups_x: self.group_count() as u32,
                groups_y: 1,
                groups_z: 1,
            },
            GlCallView::MemoryBarrier { barriers: ALL_BARRIER_BITS },
            GlCallView::BindVertexArray { array: 0 },
            Program::unbind_call(),
        ]
    }

    /// The calls of one simulation step over `delta_time`.
    ///
    /// The time is written to the uniform of the simulation program that is
    /// named for it, if the program has one; a program without it is
    /// simulated all the same. Nothing is issued if the program is gone or
    /// the uniform refuses the time.
    pub open spec fn update_calls(self, programs: RegistryView, delta_time: GlFloat) -> Result<
        Seq<GlCallView>,
        RenderErrorView,
    > {
        if !programs.is_live(self.compute_program) {
            Err(RenderErrorView::ProgramDestroyed)
        } else {
            let program = programs.program(self.compute_program);
            match program.uniform(DELTA_TIME_UNIFORM_NAME@) {
                Some(uniform) => match uniform.write(
                    programs,
                    UniformKind::Float,
                    |target: ProgramIdType|
                        GlCallView::ProgramUniform1f {
                            program: target,
                            location: uniform.location,
                            v0: delta_time,
                        },
                ) {
                    Ok(call) => Ok(self.simulate(program.id, seq![call])),
                    Err(error) => Err(RenderErrorView::Uniform(error)),
                },
                None => Ok(self.simulate(program.id, Seq::empty())),
            }
        }
    }

    /// The calls that give the system up, where `current_program` is the
    /// program that the context has current: the buffer and the vertex
    /// array are deleted, and then the simulation program, which is the
    /// system's own, is given up if it is still there.
    pub open spec fn release_calls(self, programs: RegistryView, current_program: ProgramIdType)
        -> Seq<GlCallView> {
        seq![
            GlCallView::DeleteBuffers { buffers: seq![self.buffer_id] },
            GlCallView::DeleteVertexArrays { arrays: seq![self.vao_id] },
        ] + (if programs.is_live(self.compute_program) {
            Program::release_calls(programs.program(self.compute_program), current_program)
        } else {
            Seq::empty()
        })
    }
}

impl ParticleSystem {
    /// The particles fit a draw call, and the work groups are not empty.
    #[verifier::type_invariant]
    spec fn bounded(self) -> bool {
        &&& self.particle_count <= MAX_PARTICLES
        &&& MIN_GROUP_SIZE <= self.group_size <= MAX_GROUP_SIZE
    }

    /// Starts the description of a particle system.
    pub fn builder<ParticleType: ParticleLike>() -> (builder: ParticleSystemBuilder<ParticleType>)
        ensures
            builder@ == (ParticleSystemBuilderView::<ParticleType> {
                compute_program: None,
                display_program: None,
                initial_particles: None,
                group_size: None,
                buffer_base: None,
            }),
    {
        ParticleSystemBuilder {
            compute_program: None,
            display_program: None,
            initial_particles: None,
            group_size: None,
            buffer_base: None,
        }
    }

    /// The handle of the simulation program, which is the system's own.
    pub fn compute_program(&self) -> (program: ProgramHandle)
        ensures
            program == self@.compute_program,
    {
        self.compute_program
    }

    /// The handle of the display program, which others may use too.
    pub fn display_program(&self) -> (program: ProgramHandle)
        ensures
            program == self@.display_program,
    {
        self.display_program
    }

    pub fn particle_count(&self) -> (count: usize)
        ensures
            count == self@.particle_count,
            count <= MAX_PARTICLES,
    {
        proof {
            use_type_invariant(self);
        }
        self.particle_count
    }

    pub fn group_size(&self) -> (size: usize)
        ensures
            size == self@.group_size,
            MIN_GROUP_SIZE <= size <= MAX_GROUP_SIZE,
    {
        proof {
            use_type_invariant(self);
        }
        self.group_size
    }

    /// Gives the system up, where `current_program` is the program that
    /// the context has current. The simulation program leaves the
    /// registry with it; the display program, which others may use, stays.
    pub fn release(self, programs: &mut ProgramRegistry, current_program: ProgramIdType) -> (release:
        Release)
        ensures
            release.calls.deep_view() == self@.release_calls(old(programs)@, current_program),
            release.was_current == (old(programs)@.is_live(self@.compute_program)
                && current_program == old(programs)@.program(self@.compute_program).id),
            final(programs)@.slots == if old(programs)@.is_live(self@.compute_program) {
                old(programs)@.slots.update(self@.compute_program.index as int, None)
            } else {
                old(programs)@.slots
            },
            old(programs)@.well_formed() ==> final(programs)@.well_formed(),
    {
        let mut buffers: Vec<u32> = Vec::new();
        buffers.push(self.buffer_id);
        let mut arrays: Vec<u32> = Vec::new();
        arrays.push(self.vao_id);
        assert(buffers@ =~= seq![self.buffer_id]);
        assert(arrays@ =~= seq![self.vao_id]);
        let mut calls: Vec<GlCall> = Vec::new();
        calls.push(GlCall::DeleteBuffers { buffers });
        calls.push(GlCall::DeleteVertexArrays { arrays });
        let ghost own = calls.deep_view();
        assert(own =~= seq![
            GlCallView::DeleteBuffers { buffers: seq![self.buffer_id] },
            GlCallView::DeleteVertexArrays { arrays: seq![self.vao_id] },
        ]);
        match programs.remove(self.compute_program, current_program) {
            Some(program) => {
                let Release { calls: more, was_current } = program;
                let mut more = more;
                let ghost given_up = more.deep_view();
                calls.append(&mut more);
                assert(calls.deep_view() =~= own + given_up);
                Release { calls, was_current }
            },
            None => {
                assert(calls.deep_view() =~= own + Seq::empty());
                Release { calls, was_current: false }
            },
        }
    }
}

impl Drawable for ParticleSystem {
    fn draw(&self, programs: &ProgramRegistry) -> (drawn: Result<Vec<GlCall>, RenderError>)
        ensures
            render_result_view(drawn) == self@.draw_calls(programs@),
    {
        proof {
            use_type_invariant(self);
        }
        match programs.get(self.display_program) {
            None => Err(RenderError::ProgramDestroyed),
            Some(program) => {
                let mut calls: Vec<GlCall> = Vec::new();
                calls.push(GlCall::BindVertexArray { array: self.vao_id });
                calls.push(program.bind());
                calls.push(
                    GlCall::DrawArrays { mode: POINTS, first: 0, count: self.particle_count as i32 },
                );
                calls.push(GlCall::BindVertexArray { array: 0 });
                calls.push(Program::unbind());
                assert(calls.deep_view() =~= self@.draw_calls(programs@)->Ok_0);
                Ok(calls)
            },
        }
    }
}

impl Updatable for ParticleSystem {
    fn update(&mut self, programs: &ProgramRegistry, delta_time: GlFloat) -> (updated: Result<
        Vec<GlCall>,
        RenderError,
    >)
        ensures
            final(self)@ == old(self)@,
            render_result_view(updated) == old(self)@.update_calls(programs@, delta_time),
    {
        proof {
            use_type_invariant(&*self);
        }
        let program = match programs.get(self.compute_program) {
            None => {
                return Err(RenderError::ProgramDestroyed);
            },
            Some(program) => program,
        };
        let mut calls: Vec<GlCall> = Vec::new();
        calls.push(GlCall::BindVertexArray { array: self.vao_id });
        let ghost time: Seq<GlCallView>;
        match program.uniform(DELTA_TIME_UNIFORM_NAME) {
            Some(uniform) => match uniform.set_float(programs, delta_time) {
                Ok(call) => {
                    proof {
                        time = seq![call@];
                    }
                    calls.push(call);
                },
                Err(error) => {
                    return Err(RenderError::Uniform(error));
                },
            },
            None => {
                proof {
                    time = Seq::empty();
                }
            },
        }
        let group_count = self.particle_count.ceil_div(self.group_size);
        proof {
            crate::extensions::lemma_ceil_quotient_is_least(
                self.particle_count as nat,
                self.group_size as nat,
            );
        }
        calls.push(program.bind());
        calls.push(
            GlCall::DispatchCompute { groups_x: group_count as u32, groups_y: 1, groups_z: 1 },
        );
        calls.push(GlCall::MemoryBarrier { barriers: ALL_BARRIER_BITS });
        calls.push(GlCall::BindVertexArray { array: 0 });
        calls.push(Program::unbind());
        assert(calls.deep_view() =~= self@.simulate(program@.id, time));
        Ok(calls)
    }
}

/// The view of one step of the building of a particle system.
pub open spec fn particle_step_view(step: Step<ParticleSystemBuild, ParticleSystem>) -> StepView<
    ParticleSystemBuildView,
    ParticleSystemView,
> {
    match step {
        Step::Call { next, calls } => StepView::Call { next: next@, calls: calls.deep_view() },
        Step::Done { calls, result } => StepView::Done { calls: calls.deep_view(), result: result@ },
        Step::OutOfTurn { state } => StepView::OutOfTurn { state: state@ },
    }
}

impl ParticleSystemBuildView {
    /// What the building does with an answer.
    ///
    /// The new vertex array is bound and a buffer is asked for. The new
    /// buffer is filled with the particles, bound as the storage buffer of
    /// the binding point and as the array buffer, and described to the
    /// vertex array; then no vertex array is left bound.
    pub open spec fn after(self, reply: GlReplyView) -> StepView<
        ParticleSystemBuildView,
        ParticleSystemView,
    > {
        match (self.vertex_array, reply) {
            (None, GlReplyView::Names(names)) if names.len() == 1 => StepView::Call {
                next: ParticleSystemBuildView { vertex_array: Some(names[0]), ..self },
                calls: seq![
                    GlCallView::BindVertexArray { array: names[0] },
                    GlCallView::GenBuffers { count: 1 },
                ],
            },
            (Some(vao_id), GlReplyView::Names(names)) if names.len() == 1 => StepView::Done {
                calls: seq![
                    GlCallView::NamedBufferData {
                        buffer: names[0],
                        data: self.image,
                        usage: DYNAMIC_DRAW,
                    },
                    GlCallView::BindBuffer { target: SHADER_STORAGE_BUFFER, buffer: names[0] },
                    GlCallView::BindBufferBase {
                        target: SHADER_STORAGE_BUFFER,
                        index: self.buffer_base,
                        buffer: names[0],
                    },
                    GlCallView::BindBuffer { target: ARRAY_BUFFER, buffer: names[0] },
                ] + self.attributes + seq![GlCallView::BindVertexArray { array: 0 }],
                result: ParticleSystemView {
                    compute_program: self.compute_program,
                    display_program: self.display_program,
                    vao_id,
                    buffer_id: names[0],
                    particle_count: self.particle_count,
                    group_size: self.group_size,
                },
            },
            _ => StepView::OutOfTurn { state: self },
        }
    }
}

impl ParticleSystemBuild {
    /// The particles fit a draw call, and the work groups are not empty.
    #[verifier::type_invariant]
    spec fn bounded(self) -> bool {
        &&& self.particle_count <= MAX_PARTICLES
        &&& MIN_GROUP_SIZE <= self.group_size <= MAX_GROUP_SIZE
    }

    /// Takes the answer to the last call and says what to do next.
    pub fn resume(self, reply: GlReply) -> (step: Step<ParticleSystemBuild, ParticleSystem>)
        ensures
            particle_step_view(step) == self@.after(reply@),
    {
        proof {
            use_type_invariant(&self);
        }
        let ParticleSystemBuild {
            compute_program,
            display_program,
            image,
            attributes,
            particle_count,
            group_size,
            buffer_base,
            vertex_array,
        } = self;
        match (vertex_array, reply) {
            (None, GlReply::Names(names)) if names.len() == 1 => {
                let vao_id = names[0];
                let mut calls: Vec<GlCall> = Vec::new();
                calls.push(GlCall::BindVertexArray { array: vao_id });
                calls.push(GlCall::GenBuffers { count: 1 });
                assert(calls.deep_view() =~= seq![
                    GlCallView::BindVertexArray { array: vao_id },
                    GlCallView::GenBuffers { count: 1 },
                ]);
                Step::Call {
                    next: ParticleSystemBuild {
                        compute_program,
                        display_program,
                        image,
                        attributes,
                        particle_count,
                        group_size,
                        buffer_base,
                        vertex_array: Some(vao_id),
                    },
                    calls,
                }
            },
            (Some(vao_id), GlReply::Names(names)) if names.len() == 1 => {
                let buffer_id = names[0];
                let mut calls: Vec<GlCall> = Vec::new();
                calls.push(GlCall::NamedBufferData { buffer: buffer_id, data: image, usage: DYNAMIC_DRAW });
                calls.push(GlCall::BindBuffer { target: SHADER_STORAGE_BUFFER, buffer: buffer_id });
                calls.push(
                    GlCall::BindBufferBase {
                        target: SHADER_STORAGE_BUFFER,
                        index: buffer_base,
                        buffer: buffer_id,
                    },
                );
                calls.push(GlCall::BindBuffer { target: ARRAY_BUFFER, buffer: buffer_id });
                let ghost head = calls.deep_view();
                let mut attributes = attributes;
                let ghost described = attributes.deep_view();
                calls.append(&mut attributes);
                calls.push(GlCall::BindVertexArray { array: 0 });
                assert(calls.deep_view() =~= head + described + seq![
                    GlCallView::BindVertexArray { array: 0 },
                ]);
                assert(head =~= seq![
                    GlCallView::NamedBufferData { buffer: buffer_id, data: image@, usage: DYNAMIC_DRAW },
                    GlCallView::BindBuffer { target: SHADER_STORAGE_BUFFER, buffer: buffer_id },
                    GlCallView::BindBufferBase {
                        target: SHADER_STORAGE_BUFFER,
                        index: buffer_base,
                        buffer: buffer_id,
                    },
                    GlCallView::BindBuffer { target: ARRAY_BUFFER, buffer: buffer_id },
                ]);
                Step::Done {
                    calls,
                    result: ParticleSystem {
                        compute_program,
                        display_program,
                        vao_id,
                        buffer_id,
                        particle_count,
                        group_size,
                    },
                }
            },
            (vertex_array, reply) => Step::OutOfTurn {
                state: ParticleSystemBuild {
                    compute_program,
                    display_program,
                    image,
                    attributes,
                    particle_count,
                    group_size,
                    buffer_base,
                    vertex_array,
                },
            },
        }
    }
}

} // verus!
