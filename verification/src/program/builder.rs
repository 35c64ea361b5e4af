//! The building of a program: compile each shader, link what compiled, and
//! read the uniforms that the linker kept.

use crate::conversation::{Step, StepView};
use crate::gl_call::{GlCall, GlCallView, GlReply, GlReplyView};
use crate::gl_types::{
    ACTIVE_UNIFORMS, ACTIVE_UNIFORM_MAX_LENGTH, INFO_LOG_LENGTH, LINK_STATUS, TRUE,
};
use crate::program::shader::{
    has_stage, Shader, ShaderCompilation, ShaderCompilationView,
    ShaderCompileError, ShaderHandle, ShaderType, ShaderView,
};
use crate::program::uniform::{ActiveUniform, ActiveUniformView};
use crate::program::{
    last_report, lemma_uniform_map_owned, named_shaders_view, release_shaders, slot_of,
    uniform_map, Program,
    ProgramBuildError, ProgramBuildErrorView, ProgramBuilderView, ProgramHandle, ProgramIdType,
    ProgramRegistry, ProgramView, RegistryView,
};
use vstd::prelude::*;

verus! {

/// What went wrong, short of failure, while a program was built.
#[derive(Debug, PartialEq, Eq)]
pub enum BuildDiagnostic {
    /// A shader of this stage was added before. Both are compiled and attached.
    DuplicateStage { stage: ShaderType },
    /// The shader added under the name `shader` did not compile and is left
    /// out of the link; `log` is what the compiler said.
    CompilationFailed { shader: String, log: String },
}

pub enum BuildDiagnosticView {
    DuplicateStage { stage: ShaderType },
    CompilationFailed { shader: Seq<char>, log: Seq<char> },
}

impl View for BuildDiagnostic {
    type V = BuildDiagnosticView;

    open spec fn view(&self) -> BuildDiagnosticView {
        match *self {
            BuildDiagnostic::DuplicateStage { stage } => BuildDiagnosticView::DuplicateStage {
                stage,
            },
            BuildDiagnostic::CompilationFailed { shader, log } => {
                BuildDiagnosticView::CompilationFailed { shader: shader@, log: log@ }
            },
        }
    }
}

impl DeepView for BuildDiagnostic {
    type V = BuildDiagnosticView;

    open spec fn deep_view(&self) -> BuildDiagnosticView {
        self@
    }
}

/// How the building of a program ended.
#[derive(Debug, PartialEq, Eq)]
pub struct BuildReport {
    /// The handle of the new program in the registry, or why there is none.
    pub result: Result<ProgramHandle, ProgramBuildError>,
    /// What was noticed on the way, in the order in which it was noticed.
    pub diagnostics: Vec<BuildDiagnostic>,
}

/// A [`BuildReport`] over views: in place of the handle, the program itself.
pub struct BuildReportView {
    pub result: Result<ProgramView, ProgramBuildErrorView>,
    pub diagnostics: Seq<BuildDiagnosticView>,
}

/// What the building of a program is waiting for.
pub enum BuildPhase {
    /// The name of the new program object.
    Program,
    /// An answer to the compilation of the shader added under `name`.
    Shader { name: String, compilation: ShaderCompilation },
    /// The link status.
    LinkStatus,
    /// The length of the linker's log.
    LinkLogLength,
    /// The linker's log.
    LinkLog,
    /// The length of the longest uniform name.
    NameLength,
    /// The number of active uniforms.
    UniformCount { capacity: i32 },
    /// The description of the uniform `index`, of `count`.
    Uniform { capacity: i32, count: u32, index: u32 },
    /// The location of the uniform `index`, which was described as given.
    Location { capacity: i32, count: u32, index: u32, name: String, size: i32, value_type: u32 },
}

pub enum BuildPhaseView {
    Program,
    Shader { name: Seq<char>, compilation: ShaderCompilationView },
    LinkStatus,
    LinkLogLength,
    LinkLog,
    NameLength,
    UniformCount { capacity: i32 },
    Uniform { capacity: i32, count: u32, index: u32 },
    Location { capacity: i32, count: u32, index: u32, name: Seq<char>, size: i32, value_type: u32 },
}

impl View for BuildPhase {
    type V = BuildPhaseView;

    open spec fn view(&self) -> BuildPhaseView {
        match *self {
            BuildPhase::Program => BuildPhaseView::Program,
            BuildPhase::Shader { name, compilation } => BuildPhaseView::Shader {
                name: name@,
                compilation: compilation@,
            },
            BuildPhase::LinkStatus => BuildPhaseView::LinkStatus,
            BuildPhase::LinkLogLength => BuildPhaseView::LinkLogLength,
            BuildPhase::LinkLog => BuildPhaseView::LinkLog,
            BuildPhase::NameLength => BuildPhaseView::NameLength,
            BuildPhase::UniformCount { capacity } => BuildPhaseView::UniformCount { capacity },
            BuildPhase::Uniform { capacity, count, index } => BuildPhaseView::Uniform {
                capacity,
                count,
                index,
            },
            BuildPhase::Location { capacity, count, index, name, size, value_type } => {
                BuildPhaseView::Location { capacity, count, index, name: name@, size, value_type }
            },
        }
    }
}

/// The building of one program, under way.
pub struct ProgramBuild {
    name: String,
    /// The shaders that are not compiled yet.
    shaders: Vec<(String, Shader)>,
    phase: BuildPhase,
    program: ProgramIdType,
    /// The stages of the shaders that compiled, one bit each.
    shader_flags: u8,
    /// The stages of the shaders that were turned to, one bit each.
    added_flags: u8,
    /// The shaders that compiled, in the order in which they were added.
    compiled: Vec<ShaderHandle>,
    diagnostics: Vec<BuildDiagnostic>,
    /// The uniforms that the driver has described, in its order.
    uniforms: Vec<ActiveUniform>,
}

pub struct ProgramBuildView {
    pub name: Seq<char>,
    pub shaders: Seq<(Seq<char>, ShaderView)>,
    pub phase: BuildPhaseView,
    pub program: ProgramIdType,
    pub shader_flags: u8,
    pub added_flags: u8,
    pub compiled: Seq<ShaderHandle>,
    pub diagnostics: Seq<BuildDiagnosticView>,
    pub uniforms: Seq<ActiveUniformView>,
}

impl View for ProgramBuild {
    type V = ProgramBuildView;

    closed spec fn view(&self) -> ProgramBuildView {
        ProgramBuildView {
            name: self.name@,
            shaders: named_shaders_view(self.shaders@),
            phase: self.phase@,
            program: self.program,
            shader_flags: self.shader_flags,
            added_flags: self.added_flags,
            compiled: self.compiled@,
            diagnostics: self.diagnostics.deep_view(),
            uniforms: self.uniforms.deep_view(),
        }
    }
}

/// The calls that attach the shaders `handles` to `program`, in order.
pub open spec fn attach_shaders(program: ProgramIdType, handles: Seq<ShaderHandle>) -> Seq<
    GlCallView,
> {
    Seq::new(handles.len(), |i: int| GlCallView::AttachShader { program, shader: handles[i].id })
}

/// One more than `length`, or the largest integer if there is none larger:
/// the room for a name of `length` characters and its terminator.
pub open spec fn name_capacity(length: i32) -> i32 {
    if length < i32::MAX {
        (length + 1) as i32
    } else {
        i32::MAX
    }
}

impl ProgramBuildView {
    /// The program that the building has come to, in the slot `handle`.
    pub open spec fn program_built(self, handle: ProgramHandle) -> ProgramView {
        ProgramView {
            id: self.program,
            shaders: self.compiled,
            shader_flags: self.shader_flags,
            name: self.name,
            uniforms: uniform_map(self.uniforms, handle),
        }
    }

    /// Turns to the next shader, or to the link if none is left.
    ///
    /// A shader whose stage was turned to before, whether that shader
    /// compiled or not, is noted as a duplicate.
    pub open spec fn next_shader(self) -> StepView<ProgramBuildView, BuildReportView> {
        if self.shaders.len() > 0 {
            let (name, shader) = self.shaders.first();
            let stage = shader.shader_type;
            StepView::Call {
                next: ProgramBuildView {
                    shaders: self.shaders.drop_first(),
                    phase: BuildPhaseView::Shader {
                        name,
                        compilation: ShaderCompilation::begin(shader),
                    },
                    added_flags: self.added_flags | stage.bit(),
                    diagnostics: if has_stage(self.added_flags, stage) {
                        self.diagnostics.push(BuildDiagnosticView::DuplicateStage { stage })
                    } else {
                        self.diagnostics
                    },
                    ..self
                },
                calls: seq![GlCallView::CreateShader { stage: stage.constant() }],
            }
        } else {
            StepView::Call {
                next: ProgramBuildView { phase: BuildPhaseView::LinkStatus, ..self },
                calls: attach_shaders(self.program, self.compiled) + seq![
                    GlCallView::LinkProgram { program: self.program },
                    GlCallView::GetProgramiv { program: self.program, parameter: LINK_STATUS },
                ],
            }
        }
    }

    /// Turns to the uniform `index`, or ends the building with the program
    /// if all `count` have been read.
    pub open spec fn next_uniform(self, capacity: i32, count: u32, index: u32, handle: ProgramHandle)
        -> StepView<ProgramBuildView, BuildReportView> {
        if index < count {
            StepView::Call {
                next: ProgramBuildView {
                    phase: BuildPhaseView::Uniform { capacity, count, index },
                    ..self
                },
                calls: seq![
                    GlCallView::GetActiveUniform { program: self.program, index, capacity },
                ],
            }
        } else {
            StepView::Done {
                calls: Seq::empty(),
                result: BuildReportView {
                    result: Ok(self.program_built(handle)),
                    diagnostics: self.diagnostics,
                },
            }
        }
    }

    /// What the building does with an answer, where `handle` is the slot
    /// that a new program would get.
    ///
    /// Without a program object nothing is built. Each shader is compiled in
    /// turn; one that does not compile is noted and left out. What compiled
    /// is attached in order, and the program is linked. If the link fails its
    /// log is read, the program and the compiled shaders are deleted, and the
    /// log is the error. Otherwise each active uniform is described and
    /// located in turn, and the program with these uniforms is the result.
    /// The number of active uniforms is taken as an unsigned number.
    pub open spec fn after(self, reply: GlReplyView, handle: ProgramHandle) -> StepView<
        ProgramBuildView,
        BuildReportView,
    > {
        match (self.phase, reply) {
            (BuildPhaseView::Program, GlReplyView::Name(id)) => if id == 0 {
                StepView::Done {
                    calls: Seq::empty(),
                    result: BuildReportView {
                        result: Err(ProgramBuildErrorView::CreationFailed),
                        diagnostics: self.diagnostics,
                    },
                }
            } else {
                ProgramBuildView { program: id, ..self }.next_shader()
            },
            (BuildPhaseView::Shader { name, compilation }, reply) => match ShaderCompilation::after(
                compilation,
                reply,
            ) {
                StepView::Call { next, calls } => StepView::Call {
                    next: ProgramBuildView {
                        phase: BuildPhaseView::Shader { name, compilation: next },
                        ..self
                    },
                    calls,
                },
                StepView::Done { calls, result: Ok(shader) } => ProgramBuildView {
                    compiled: self.compiled.push(shader),
                    shader_flags: self.shader_flags | shader.shader_type.bit(),
                    ..self
                }.next_shader().preceded_by(calls),
                StepView::Done { calls, result: Err(log) } => ProgramBuildView {
                    diagnostics: self.diagnostics.push(
                        BuildDiagnosticView::CompilationFailed { shader: name, log },
                    ),
                    ..self
                }.next_shader().preceded_by(calls),
                StepView::OutOfTurn { .. } => StepView::OutOfTurn { state: self },
            },
            (BuildPhaseView::LinkStatus, GlReplyView::Integer(status)) => if status == TRUE {
                StepView::Call {
                    next: ProgramBuildView { phase: BuildPhaseView::NameLength, ..self },
                    calls: seq![
                        GlCallView::GetProgramiv {
                            program: self.program,
                            parameter: ACTIVE_UNIFORM_MAX_LENGTH,
                        },
                    ],
                }
            } else {
                StepView::Call {
                    next: ProgramBuildView { phase: BuildPhaseView::LinkLogLength, ..self },
                    calls: seq![
                        GlCallView::GetProgramiv { program: self.program, parameter: INFO_LOG_LENGTH },
                    ],
                }
            },
            (BuildPhaseView::LinkLogLength, GlReplyView::Integer(length)) => StepView::Call {
                next: ProgramBuildView { phase: BuildPhaseView::LinkLog, ..self },
                calls: seq![
                    GlCallView::GetProgramInfoLog { program: self.program, capacity: length },
                ],
            },
            (BuildPhaseView::LinkLog, GlReplyView::Text(log)) => StepView::Done {
                calls: seq![GlCallView::DeleteProgram { program: self.program }] + release_shaders(
                    self.compiled,
                ),
                result: BuildReportView {
                    result: Err(ProgramBuildErrorView::LinkFail(log)),
                    diagnostics: self.diagnostics,
                },
            },
            (BuildPhaseView::NameLength, GlReplyView::Integer(length)) => StepView::Call {
                next: ProgramBuildView {
                    phase: BuildPhaseView::UniformCount { capacity: name_capacity(length) },
                    ..self
                },
                calls: seq![
                    GlCallView::GetProgramiv { program: self.program, parameter: ACTIVE_UNIFORMS },
                ],
            },
            (BuildPhaseView::UniformCount { capacity }, GlReplyView::Integer(count)) => {
                self.next_uniform(capacity, count as u32, 0, handle)
            },
            (
                BuildPhaseView::Uniform { capacity, count, index },
                GlReplyView::ActiveUniform { name, size, value_type },
            ) => StepView::Call {
                next: ProgramBuildView {
                    phase: BuildPhaseView::Location {
                        capacity,
                        count,
                        index,
                        name,
                        size,
                        value_type,
                    },
                    ..self
                },
                calls: seq![GlCallView::GetUniformLocation { program: self.program, name }],
            },
            (
                BuildPhaseView::Location { capacity, count, index, name, size, value_type },
                GlReplyView::Integer(location),
            ) => ProgramBuildView {
                uniforms: self.uniforms.push(
                    ActiveUniformView { name, location, value_type, size },
                ),
                ..self
            }.next_uniform(capacity, count, (index + 1) as u32, handle),
            _ => StepView::OutOfTurn { state: self },
        }
    }
}

/// Whether `step` is the step `expected`, and has changed the registry
/// accordingly: a program that was built has entered it, under the handle
/// that the step reports, and nothing else has changed.
pub open spec fn build_step_matches(
    step: Step<ProgramBuild, BuildReport>,
    expected: StepView<ProgramBuildView, BuildReportView>,
    before: RegistryView,
    after: RegistryView,
) -> bool {
    match (step, expected) {
        (Step::Call { next, calls }, StepView::Call { next: expected_next, calls: expected_calls }) => {
            &&& next@ == expected_next
            &&& calls.deep_view() == expected_calls
            &&& after == before
        },
        (
            Step::Done { calls, result },
            StepView::Done { calls: expected_calls, result: expected_result },
        ) => {
            &&& calls.deep_view() == expected_calls
            &&& result.diagnostics.deep_view() == expected_result.diagnostics
            &&& match (result.result, expected_result.result) {
                (Ok(handle), Ok(program)) => {
                    &&& handle.index == before.slots.len()
                    &&& after.slots == before.slots.push(Some(program))
                },
                (Err(error), Err(expected_error)) => error@ == expected_error && after == before,
                _ => false,
            }
        },
        (Step::OutOfTurn { state }, StepView::OutOfTurn { state: expected_state }) => {
            &&& state@ == expected_state
            &&& after == before
        },
        _ => false,
    }
}

impl ProgramBuild {
    /// The mask holds the stages of the shaders that compiled, and a uniform
    /// that is being read is one of those that the driver counted.
    #[verifier::type_invariant]
    spec fn counted(self) -> bool {
        &&& self.shader_flags == stages_present(self.compiled@)
        &&& match self.phase {
            BuildPhase::Uniform { count, index, .. } => index < count,
            BuildPhase::Location { count, index, .. } => index < count,
            _ => true,
        }
    }

    /// The building of what `builder` describes, before the driver has
    /// answered anything.
    pub open spec fn begin(builder: ProgramBuilderView) -> ProgramBuildView {
        ProgramBuildView {
            name: builder.name,
            shaders: builder.shaders,
            phase: BuildPhaseView::Program,
            program: 0,
            shader_flags: 0,
            added_flags: 0,
            compiled: Seq::empty(),
            diagnostics: Seq::empty(),
            uniforms: Seq::empty(),
        }
    }

    pub(crate) fn start(name: String, shaders: Vec<(String, Shader)>) -> (build: ProgramBuild)
        ensures
            build@ == ProgramBuild::begin(
                ProgramBuilderView { name: name@, shaders: named_shaders_view(shaders@) },
            ),
    {
        let build = ProgramBuild {
            name,
            shaders,
            phase: BuildPhase::Program,
            program: 0,
            shader_flags: 0,
            added_flags: 0,
            compiled: Vec::new(),
            diagnostics: Vec::new(),
            uniforms: Vec::new(),
        };
        assert(build.diagnostics.deep_view() =~= Seq::empty());
        assert(build.uniforms.deep_view() =~= Seq::empty());
        build
    }

    fn next_shader(self, first: Vec<GlCall>) -> (step: Step<ProgramBuild, BuildReport>)
        ensures
            step is Call,
            step->Call_next@ == self@.next_shader()->Call_next,
            step->Call_calls.deep_view() == first.deep_view() + self@.next_shader()->Call_calls,
    {
        proof {
            use_type_invariant(&self);
        }
        let ProgramBuild {
            name,
            shaders,
            phase: _,
            program,
            shader_flags,
            added_flags,
            compiled,
            diagnostics,
            uniforms,
        } = self;
        let mut shaders = shaders;
        let mut diagnostics = diagnostics;
        let mut calls = first;
        if shaders.len() > 0 {
            let (shader_name, shader) = shaders.remove(0);
            let stage = shader.shader_type();
            let mask = stage.mask();
            if added_flags & mask != 0 {
                diagnostics.push(BuildDiagnostic::DuplicateStage { stage });
            }
            let (compilation, create) = shader.compile();
            calls.push(GlCall::CreateShader { stage: stage.gl_constant() });
            let next = ProgramBuild {
                name,
                shaders,
                phase: BuildPhase::Shader { name: shader_name, compilation },
                program,
                shader_flags,
                added_flags: added_flags | mask,
                compiled,
                diagnostics,
                uniforms,
            };
            proof {
                assert(named_shaders_view(next.shaders@) =~= self@.shaders.drop_first());
                assert(next.diagnostics.deep_view() =~= if has_stage(self@.added_flags, stage) {
                    self@.diagnostics.push(BuildDiagnosticView::DuplicateStage { stage })
                } else {
                    self@.diagnostics
                });
                assert(calls.deep_view() =~= first.deep_view() + seq![
                    GlCallView::CreateShader { stage: stage.constant() },
                ]);
            }
            Step::Call { next, calls }
        } else {
            let ghost issued = calls.deep_view();
            let mut i: usize = 0;
            while i < compiled.len()
                invariant
                    i <= compiled.len(),
                    calls.deep_view() == issued + attach_shaders(
                        program,
                        compiled@.subrange(0, i as int),
                    ),
                decreases compiled.len() - i,
            {
                let ghost so_far = calls.deep_view();
                calls.push(GlCall::AttachShader { program, shader: compiled[i].id });
                proof {
                    let attach = GlCallView::AttachShader { program, shader: compiled[i as int].id };
                    assert(calls.deep_view() =~= so_far.push(attach));
                    assert(attach_shaders(program, compiled@.subrange(0, i + 1))
                        =~= attach_shaders(program, compiled@.subrange(0, i as int)).push(attach));
                }
                i += 1;
            }
            let ghost attached = calls.deep_view();
            calls.push(GlCall::LinkProgram { program });
            calls.push(GlCall::GetProgramiv { program, parameter: LINK_STATUS });
            proof {
                assert(compiled@.subrange(0, i as int) =~= compiled@);
                assert(calls.deep_view() =~= attached + seq![
                    GlCallView::LinkProgram { program },
                    GlCallView::GetProgramiv { program, parameter: LINK_STATUS },
                ]);
                assert(calls.deep_view() =~= first.deep_view() + (attach_shaders(program, compiled@)
                    + seq![
                    GlCallView::LinkProgram { program },
                    GlCallView::GetProgramiv { program, parameter: LINK_STATUS },
                ]));
            }
            Step::Call {
                next: ProgramBuild {
                    name,
                    shaders,
                    phase: BuildPhase::LinkStatus,
                    program,
                    shader_flags,
                    added_flags,
                    compiled,
                    diagnostics,
                    uniforms,
                },
                calls,
            }
        }
    }

    fn next_uniform(
        self,
        capacity: i32,
        count: u32,
        index: u32,
        programs: &mut ProgramRegistry,
    ) -> (step: Step<ProgramBuild, BuildReport>)
        ensures
            build_step_matches(
                step,
                self@.next_uniform(
                    capacity,
                    count,
                    index,
                    ProgramHandle { index: old(programs)@.slots.len() as usize },
                ),
                old(programs)@,
                final(programs)@,
            ),
            old(programs)@.well_formed() ==> final(programs)@.well_formed(),
    {
        proof {
            use_type_invariant(&self);
        }
        proof {
            use_type_invariant(&self);
        }
        let ProgramBuild {
            name,
            shaders,
            phase: _,
            program,
            shader_flags,
            added_flags,
            compiled,
            diagnostics,
            uniforms,
        } = self;
        let mut calls: Vec<GlCall> = Vec::new();
        if index < count {
            calls.push(GlCall::GetActiveUniform { program, index, capacity });
            assert(calls.deep_view() =~= seq![
                GlCallView::GetActiveUniform { program, index, capacity },
            ]);
            Step::Call {
                next: ProgramBuild {
                    name,
                    shaders,
                    phase: BuildPhase::Uniform { capacity, count, index },
                    program,
                    shader_flags,
                    added_flags,
                    compiled,
                    diagnostics,
                    uniforms,
                },
                calls,
            }
        } else {
            let handle = programs.next_handle();
            let built = Program::assemble(program, name, shader_flags, compiled, &uniforms, handle);
            proof {
                lemma_uniform_map_owned(uniforms.deep_view(), handle);
                assert(calls.deep_view() =~= Seq::empty());
            }
            let handle = programs.insert(built);
            Step::Done { calls, result: BuildReport { result: Ok(handle), diagnostics } }
        }
    }

    /// Takes the answer to the last call and says what to do next. A program
    /// that is built enters `programs`.
    pub fn resume(self, reply: GlReply, programs: &mut ProgramRegistry) -> (step: Step<
        ProgramBuild,
        BuildReport,
    >)
        ensures
            build_step_matches(
                step,
                self@.after(reply@, ProgramHandle { index: old(programs)@.slots.len() as usize }),
                old(programs)@,
                final(programs)@,
            ),
            old(programs)@.well_formed() ==> final(programs)@.well_formed(),
    {
        proof {
            use_type_invariant(&self);
        }
        let ProgramBuild {
            name,
            shaders,
            phase,
            program,
            shader_flags,
            added_flags,
            compiled,
            diagnostics,
            uniforms,
        } = self;
        let mut compiled = compiled;
        let mut diagnostics = diagnostics;
        let mut uniforms = uniforms;
        match (phase, reply) {
            (BuildPhase::Program, GlReply::Name(id)) => {
                if id == 0 {
                    let calls: Vec<GlCall> = Vec::new();
                    assert(calls.deep_view() =~= Seq::empty());
                    Step::Done {
                        calls,
                        result: BuildReport {
                            result: Err(ProgramBuildError::CreationFailed),
                            diagnostics,
                        },
                    }
                } else {
                    let calls: Vec<GlCall> = Vec::new();
                    assert(calls.deep_view() =~= Seq::empty());
                    let state = ProgramBuild {
                        name,
                        shaders,
                        phase: BuildPhase::Program,
                        program: id,
                        shader_flags,
                        added_flags,
                        compiled,
                        diagnostics,
                        uniforms,
                    };
                    let step = state.next_shader(calls);
                    assert(step->Call_calls.deep_view() =~= state@.next_shader()->Call_calls);
                    step
                }
            },
            (BuildPhase::Shader { name: shader_name, compilation }, reply) => {
                match compilation.resume(reply) {
                    Step::Call { next, calls } => Step::Call {
                        next: ProgramBuild {
                            name,
                            shaders,
                            phase: BuildPhase::Shader { name: shader_name, compilation: next },
                            program,
                            shader_flags,
                            added_flags,
                            compiled,
                            diagnostics,
                            uniforms,
                        },
                        calls,
                    },
                    Step::Done { calls, result: Ok(shader) } => {
                        let shader_flags = shader_flags | shader.shader_type.mask();
                        let ghost held = compiled@;
                        compiled.push(shader);
                        assert(compiled@.drop_last() =~= held);
                        let state = ProgramBuild {
                            name,
                            shaders,
                            phase: BuildPhase::Program,
                            program,
                            shader_flags,
                            added_flags,
                            compiled,
                            diagnostics,
                            uniforms,
                        };
                        state.next_shader(calls)
                    },
                    Step::Done { calls, result: Err(ShaderCompileError::CompilationError(log)) } => {
                        diagnostics.push(
                            BuildDiagnostic::CompilationFailed { shader: shader_name, log },
                        );
                        assert(diagnostics.deep_view() =~= self@.diagnostics.push(
                            BuildDiagnosticView::CompilationFailed { shader: shader_name@, log: log@ },
                        ));
                        let state = ProgramBuild {
                            name,
                            shaders,
                            phase: BuildPhase::Program,
                            program,
                            shader_flags,
                            added_flags,
                            compiled,
                            diagnostics,
                            uniforms,
                        };
                        state.next_shader(calls)
                    },
                    Step::OutOfTurn { state } => Step::OutOfTurn {
                        state: ProgramBuild {
                            name,
                            shaders,
                            phase: BuildPhase::Shader { name: shader_name, compilation: state },
                            program,
                            shader_flags,
                            added_flags,
                            compiled,
                            diagnostics,
                            uniforms,
                        },
                    },
                }
            },
            (BuildPhase::LinkStatus, GlReply::Integer(status)) => {
                let mut calls: Vec<GlCall> = Vec::new();
                if status == TRUE {
                    calls.push(GlCall::GetProgramiv { program, parameter: ACTIVE_UNIFORM_MAX_LENGTH });
                    assert(calls.deep_view() =~= seq![
                        GlCallView::GetProgramiv { program, parameter: ACTIVE_UNIFORM_MAX_LENGTH },
                    ]);
                    Step::Call {
                        next: ProgramBuild {
                            name,
                            shaders,
                            phase: BuildPhase::NameLength,
                            program,
                            shader_flags,
                            added_flags,
                            compiled,
                            diagnostics,
                            uniforms,
                        },
                        calls,
                    }
                } else {
                    calls.push(GlCall::GetProgramiv { program, parameter: INFO_LOG_LENGTH });
                    assert(calls.deep_view() =~= seq![
                        GlCallView::GetProgramiv { program, parameter: INFO_LOG_LENGTH },
                    ]);
                    Step::Call {
                        next: ProgramBuild {
                            name,
                            shaders,
                            phase: BuildPhase::LinkLogLength,
                            program,
                            shader_flags,
                            added_flags,
                            compiled,
                            diagnostics,
                            uniforms,
                        },
                        calls,
                    }
                }
            },
            (BuildPhase::LinkLogLength, GlReply::Integer(length)) => {
                let mut calls: Vec<GlCall> = Vec::new();
                calls.push(GlCall::GetProgramInfoLog { program, capacity: length });
                assert(calls.deep_view() =~= seq![
                    GlCallView::GetProgramInfoLog { program, capacity: length },
                ]);
                Step::Call {
                    next: ProgramBuild {
                        name,
                        shaders,
                        phase: BuildPhase::LinkLog,
                        program,
                        shader_flags,
                        added_flags,
                        compiled,
                        diagnostics,
                        uniforms,
                    },
                    calls,
                }
            },
            (BuildPhase::LinkLog, GlReply::Text(log)) => {
                let mut calls: Vec<GlCall> = Vec::new();
                calls.push(GlCall::DeleteProgram { program });
                let ghost deleted = calls.deep_view();
                assert(deleted =~= seq![GlCallView::DeleteProgram { program }]);
                let mut i: usize = 0;
                while i < compiled.len()
                    invariant
                        i <= compiled.len(),
                        calls.deep_view() == deleted + release_shaders(
                            compiled@.subrange(0, i as int),
                        ),
                    decreases compiled.len() - i,
                {
                    let ghost so_far = calls.deep_view();
                    calls.push(GlCall::DeleteShader { shader: compiled[i].id });
                    proof {
                        let delete = GlCallView::DeleteShader { shader: compiled[i as int].id };
                        assert(calls.deep_view() =~= so_far.push(delete));
                        assert(release_shaders(compiled@.subrange(0, i + 1)) =~= release_shaders(
                            compiled@.subrange(0, i as int),
                        ).push(delete));
                    }
                    i += 1;
                }
                assert(compiled@.subrange(0, i as int) =~= compiled@);
                Step::Done {
                    calls,
                    result: BuildReport { result: Err(ProgramBuildError::LinkFail(log)), diagnostics },
                }
            },
            (BuildPhase::NameLength, GlReply::Integer(length)) => {
                let capacity: i32 = if length < i32::MAX {
                    length + 1
                } else {
                    i32::MAX
                };
                let mut calls: Vec<GlCall> = Vec::new();
                calls.push(GlCall::GetProgramiv { program, parameter: ACTIVE_UNIFORMS });
                assert(calls.deep_view() =~= seq![
                    GlCallView::GetProgramiv { program, parameter: ACTIVE_UNIFORMS },
                ]);
                Step::Call {
                    next: ProgramBuild {
                        name,
                        shaders,
                        phase: BuildPhase::UniformCount { capacity },
                        program,
                        shader_flags,
                        added_flags,
                        compiled,
                        diagnostics,
                        uniforms,
                    },
                    calls,
                }
            },
            (BuildPhase::UniformCount { capacity }, GlReply::Integer(count)) => {
                let state = ProgramBuild {
                    name,
                    shaders,
                    phase: BuildPhase::Program,
                    program,
                    shader_flags,
                    added_flags,
                    compiled,
                    diagnostics,
                    uniforms,
                };
                state.next_uniform(capacity, #[verifier::truncate] (count as u32), 0, programs)
            },
            (
                BuildPhase::Uniform { capacity, count, index },
                GlReply::ActiveUniform { name: uniform_name, size, value_type },
            ) => {
                let mut calls: Vec<GlCall> = Vec::new();
                calls.push(GlCall::GetUniformLocation { program, name: uniform_name.clone() });
                assert(calls.deep_view() =~= seq![
                    GlCallView::GetUniformLocation { program, name: uniform_name@ },
                ]);
                Step::Call {
                    next: ProgramBuild {
                        name,
                        shaders,
                        phase: BuildPhase::Location {
                            capacity,
                            count,
                            index,
                            name: uniform_name,
                            size,
                            value_type,
                        },
                        program,
                        shader_flags,
                        added_flags,
                        compiled,
                        diagnostics,
                        uniforms,
                    },
                    calls,
                }
            },
            (
                BuildPhase::Location { capacity, count, index, name: uniform_name, size, value_type },
                GlReply::Integer(location),
            ) => {
                uniforms.push(ActiveUniform { name: uniform_name, location, value_type, size });
                assert(uniforms.deep_view() =~= self@.uniforms.push(
                    ActiveUniformView { name: uniform_name@, location, value_type, size },
                ));
                let state = ProgramBuild {
                    name,
                    shaders,
                    phase: BuildPhase::Program,
                    program,
                    shader_flags,
                    added_flags,
                    compiled,
                    diagnostics,
                    uniforms,
                };
                state.next_uniform(capacity, count, index + 1, programs)
            },
            (phase, reply) => Step::OutOfTurn {
                state: ProgramBuild {
                    name,
                    shaders,
                    phase,
                    program,
                    shader_flags,
                    added_flags,
                    compiled,
                    diagnostics,
                    uniforms,
                },
            },
        }
    }
}

/// The stages of the shader objects, one bit each.
pub open spec fn stages_present(handles: Seq<ShaderHandle>) -> u8
    decreases handles.len(),
{
    if handles.len() == 0 {
        0
    } else {
        stages_present(handles.drop_last()) | handles.last().shader_type.bit()
    }
}

/// A stage is in the mask of the shader objects exactly if one of them is
/// of that stage.
pub proof fn lemma_stages_present(handles: Seq<ShaderHandle>, stage: ShaderType)
    ensures
        has_stage(stages_present(handles), stage) <==> exists|i: int|
            0 <= i < handles.len() && (#[trigger] handles[i]).shader_type == stage,
    decreases handles.len(),
{
    if handles.len() == 0 {
        let bit = stage.bit();
        assert(0u8 & bit == 0) by (bit_vector);
    } else {
        let front = handles.drop_last();
        let last = handles.last().shader_type;
        lemma_stages_present(front, stage);
        lemma_bit_in_mask(stages_present(front), last, stage);
        if exists|i: int| 0 <= i < front.len() && (#[trigger] front[i]).shader_type == stage {
            let i = choose|i: int| 0 <= i < front.len() && (#[trigger] front[i]).shader_type == stage;
            assert(handles[i].shader_type == stage);
        }
        if exists|i: int| 0 <= i < handles.len() && (#[trigger] handles[i]).shader_type == stage {
            let i = choose|i: int|
                0 <= i < handles.len() && (#[trigger] handles[i]).shader_type == stage;
            if i < front.len() {
                assert(front[i].shader_type == stage);
            }
        }
        if last == stage {
            assert(handles[handles.len() - 1].shader_type == stage);
        }
    }
}

/// A stage is in a mask with one more bit exactly if it was in the mask or
/// the bit is its own.
proof fn lemma_bit_in_mask(mask: u8, added: ShaderType, stage: ShaderType)
    ensures
        has_stage(mask | added.bit(), stage) <==> has_stage(mask, stage) || added == stage,
{
    ShaderType::lemma_one_constant_one_bit(added, stage);
    ShaderType::lemma_one_constant_one_bit(stage, added);
    let bit = added.bit();
    let probe = stage.bit();
    assert((mask | bit) & probe != 0 <==> (mask & probe != 0 || bit & probe != 0)) by (bit_vector);
    assert(probe & probe == probe ==> (probe == 0 <==> probe & probe == 0)) by (bit_vector);
    assert(probe != 0);
}

/// The stages of the shaders, one bit each.
pub open spec fn stages_of(shaders: Seq<(Seq<char>, ShaderView)>) -> u8
    decreases shaders.len(),
{
    if shaders.len() == 0 {
        0
    } else {
        stages_of(shaders.drop_last()) | shaders.last().1.shader_type.bit()
    }
}

/// A stage is in the mask of the shaders exactly if one of them is of that stage.
pub proof fn lemma_stages_of(shaders: Seq<(Seq<char>, ShaderView)>, stage: ShaderType)
    ensures
        has_stage(stages_of(shaders), stage) <==> exists|i: int|
            0 <= i < shaders.len() && (#[trigger] shaders[i]).1.shader_type == stage,
    decreases shaders.len(),
{
    if shaders.len() == 0 {
        let bit = stage.bit();
        assert(0u8 & bit == 0) by (bit_vector);
    } else {
        let front = shaders.drop_last();
        let last = shaders.last().1.shader_type;
        lemma_stages_of(front, stage);
        lemma_bit_in_mask(stages_of(front), last, stage);
        if exists|i: int| 0 <= i < front.len() && (#[trigger] front[i]).1.shader_type == stage {
            let i = choose|i: int| 0 <= i < front.len() && (#[trigger] front[i]).1.shader_type == stage;
            assert(shaders[i].1.shader_type == stage);
        }
        if exists|i: int| 0 <= i < shaders.len() && (#[trigger] shaders[i]).1.shader_type == stage {
            let i = choose|i: int|
                0 <= i < shaders.len() && (#[trigger] shaders[i]).1.shader_type == stage;
            if i < front.len() {
                assert(front[i].1.shader_type == stage);
            }
        }
        if last == stage {
            assert(shaders[shaders.len() - 1].1.shader_type == stage);
        }
    }
}

impl ProgramBuildView {
    /// The uniforms that the driver has described once `reply` is taken.
    pub open spec fn reported_after(self, reply: GlReplyView) -> Seq<ActiveUniformView> {
        match (self.phase, reply) {
            (
                BuildPhaseView::Location { name, size, value_type, .. },
                GlReplyView::Integer(location),
            ) => self.uniforms.push(ActiveUniformView { name, location, value_type, size }),
            _ => self.uniforms,
        }
    }

    /// Whether the building is one of what `builder` describes: it has the
    /// builder's name, the shaders that are left are the last of the
    /// builder's, the stages that were turned to are those of the shaders
    /// that are not left, the mask holds the stages of the shaders that
    /// compiled, and once there is a program object its name is not zero
    /// and every shader that compiled is one of those that are not left.
    pub open spec fn builds(self, builder: ProgramBuilderView) -> bool {
        let done = builder.shaders.len() - self.shaders.len();
        &&& self.name == builder.name
        &&& 0 <= done
        &&& self.shaders == builder.shaders.subrange(done, builder.shaders.len() as int)
        &&& self.added_flags == stages_of(builder.shaders.subrange(0, done))
        &&& self.shader_flags == stages_present(self.compiled)
        &&& self.compiled.len() <= done
        &&& match self.phase {
            BuildPhaseView::Program => done == 0,
            BuildPhaseView::Shader { compilation, .. } => {
                &&& self.program != 0
                &&& done > 0
                &&& self.compiled.len() < done
                &&& compilation.shader == builder.shaders[done - 1].1
            },
            _ => self.program != 0 && self.shaders.len() == 0,
        }
    }

    /// The building starts as one of what the builder describes, and every
    /// answer leaves it one. A program that is built has a name that is not
    /// zero, is called as the builder says, and has in its mask the stages
    /// of the shaders that it holds, which are those that compiled, and no
    /// others; and it holds no more shaders than the builder had.
    pub proof fn lemma_builds(self, builder: ProgramBuilderView, reply: GlReplyView, handle: ProgramHandle)
        requires
            self.builds(builder),
        ensures
            ProgramBuild::begin(builder).builds(builder),
            self.after(reply, handle) matches StepView::Call { next, .. } ==> next.builds(builder),
            self.after(reply, handle) matches StepView::Done { result, .. } ==> (
            result.result matches Ok(program) ==> {
                &&& program.id != 0
                &&& program.name == builder.name
                &&& program.shader_flags == stages_present(program.shaders)
                &&& program.shaders.len() <= builder.shaders.len()
                &&& program.uniforms == uniform_map(self.reported_after(reply), handle)
            }),
    {
        let all = builder.shaders;
        let count = all.len() as int;
        assert(all.subrange(0, count) =~= all);
        assert(all.subrange(0, 0) =~= Seq::empty());
        assert(ProgramBuild::begin(builder).shaders =~= all.subrange(0, count));
        let done = count - self.shaders.len();
        // What turning to the next shader does to a building of the builder.
        assert forall|state: ProgramBuildView|
            #![trigger state.next_shader()]
            state.name == builder.name && state.shaders == self.shaders && state.added_flags
                == self.added_flags && state.shader_flags == stages_present(state.compiled)
                && state.program != 0 && state.compiled.len()
                <= done implies state.next_shader() matches StepView::Call { next, .. }
            && next.builds(builder) by {
            if state.shaders.len() > 0 {
                let next = state.next_shader()->Call_next;
                assert(next.shaders =~= all.subrange(done + 1, count));
                assert(state.shaders.first() == all[done]);
                assert(all.subrange(0, done + 1).drop_last() =~= all.subrange(0, done));
                assert(all.subrange(0, done + 1).last() == all[done]);
            }
        }
        match (self.phase, reply) {
            (BuildPhaseView::Program, GlReplyView::Name(id)) => {
                if id != 0 {
                    let state = ProgramBuildView { program: id, ..self };
                    assert(state.next_shader() matches StepView::Call { next, .. } && next.builds(
                        builder,
                    ));
                }
            },
            (BuildPhaseView::Shader { name, compilation }, reply) => {
                match ShaderCompilation::after(compilation, reply) {
                    StepView::Call { next, calls } => {},
                    StepView::Done { calls, result: Ok(shader) } => {
                        let state = ProgramBuildView {
                            compiled: self.compiled.push(shader),
                            shader_flags: self.shader_flags | shader.shader_type.bit(),
                            ..self
                        };
                        assert(self.compiled.push(shader).drop_last() =~= self.compiled);
                        assert(state.next_shader() matches StepView::Call { next, .. }
                            && next.builds(builder));
                    },
                    StepView::Done { calls, result: Err(log) } => {
                        let state = ProgramBuildView {
                            diagnostics: self.diagnostics.push(
                                BuildDiagnosticView::CompilationFailed { shader: name, log },
                            ),
                            ..self
                        };
                        assert(state.next_shader() matches StepView::Call { next, .. }
                            && next.builds(builder));
                    },
                    StepView::OutOfTurn { .. } => {},
                }
            },
            _ => {},
        }
    }

    /// A name has a slot in a program that is built exactly if the driver
    /// reported a uniform under that name, and the slot has the type, the
    /// location and the size of the last report under the name. Every slot
    /// belongs to the program.
    pub proof fn lemma_built_uniforms(self, reply: GlReplyView, handle: ProgramHandle, name: Seq<char>)
        requires
            self.after(reply, handle) matches StepView::Done { result, .. } && result.result is Ok,
        ensures
            ({
                let program = self.after(reply, handle)->Done_result.result->Ok_0;
                let reported = self.reported_after(reply);
                &&& program.uniform(name) == match last_report(reported, name) {
                    Some(report) => Some(slot_of(report, handle)),
                    None => None,
                }
                &&& program.owns_slots(handle)
            }),
    {
        let reported = self.reported_after(reply);
        crate::program::lemma_uniform_map(reported, handle, name);
        lemma_uniform_map_owned(reported, handle);
        let program = self.after(reply, handle)->Done_result.result->Ok_0;
        assert(program.uniforms == uniform_map(reported, handle)) by {
            match (self.phase, reply) {
                (BuildPhaseView::Shader { name, compilation }, reply) => {
                    match ShaderCompilation::after(compilation, reply) {
                        StepView::Done { calls, result: Ok(shader) } => {
                            let state = ProgramBuildView {
                                compiled: self.compiled.push(shader),
                                shader_flags: self.shader_flags | shader.shader_type.bit(),
                                ..self
                            };
                            assert(state.next_shader() is Call);
                        },
                        StepView::Done { calls, result: Err(log) } => {
                            let state = ProgramBuildView {
                                diagnostics: self.diagnostics.push(
                                    BuildDiagnosticView::CompilationFailed { shader: name, log },
                                ),
                                ..self
                            };
                            assert(state.next_shader() is Call);
                        },
                        _ => {},
                    }
                },
                (BuildPhaseView::Program, GlReplyView::Name(id)) => {
                    assert(ProgramBuildView { program: id, ..self }.next_shader() is Call);
                },
                _ => {},
            }
        }
    }
}

} // verus!
