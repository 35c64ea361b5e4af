//! Shader stages, their sources, and the compilation of one shader.

use crate::conversation::{Step, StepView};
use crate::gl_call::{clone_strings, GlCall, GlCallView, GlReply, GlReplyView};
use crate::gl_types::{
    GlEnum, COMPILE_STATUS, COMPUTE_SHADER, FRAGMENT_SHADER, GEOMETRY_SHADER, INFO_LOG_LENGTH,
    TESS_CONTROL_SHADER, TESS_EVALUATION_SHADER, TRUE, VERTEX_SHADER,
};
use vstd::prelude::*;
use vstd::string::StringExecFns;

verus! {

/// The programmable stages of the pipeline.
#[derive(Clone, Copy, Debug, PartialEq, Eq, Structural)]
pub enum ShaderType {
    Vertex,
    TesselationControl,
    TesselationEvaluation,
    Geometry,
    Fragment,
    Compute,
}

impl ShaderType {
    /// The enumerant that OpenGL knows the stage by.
    pub open spec fn constant(self) -> u32 {
        match self {
            ShaderType::Vertex => VERTEX_SHADER,
            ShaderType::TesselationControl => TESS_CONTROL_SHADER,
            ShaderType::TesselationEvaluation => TESS_EVALUATION_SHADER,
            ShaderType::Geometry => GEOMETRY_SHADER,
            ShaderType::Fragment => FRAGMENT_SHADER,
            ShaderType::Compute => COMPUTE_SHADER,
        }
    }

    /// The position of the stage's bit in a mask of stages.
    pub open spec fn bit_index(self) -> nat {
        match self {
            ShaderType::Vertex => 0,
            ShaderType::TesselationControl => 1,
            ShaderType::TesselationEvaluation => 2,
            ShaderType::Geometry => 3,
            ShaderType::Fragment => 4,
            ShaderType::Compute => 5,
        }
    }

    /// The stage's bit in a mask of stages.
    pub open spec fn bit(self) -> u8 {
        match self {
            ShaderType::Vertex => 0x01,
            ShaderType::TesselationControl => 0x02,
            ShaderType::TesselationEvaluation => 0x04,
            ShaderType::Geometry => 0x08,
            ShaderType::Fragment => 0x10,
            ShaderType::Compute => 0x20,
        }
    }

    /// The name of the stage in diagnostics.
    pub open spec fn label(self) -> Seq<char> {
        match self {
            ShaderType::Vertex => "vertex"@,
            ShaderType::TesselationControl => "tess_control"@,
            ShaderType::TesselationEvaluation => "tess_evaluation"@,
            ShaderType::Geometry => "geometry"@,
            ShaderType::Fragment => "fragment"@,
            ShaderType::Compute => "compute"@,
        }
    }

    /// The enumerant to create a shader of this stage with.
    pub fn gl_constant(self) -> (constant: GlEnum)
        ensures
            constant == self.constant(),
    {
        match self {
            ShaderType::Vertex => VERTEX_SHADER,
            ShaderType::TesselationControl => TESS_CONTROL_SHADER,
            ShaderType::TesselationEvaluation => TESS_EVALUATION_SHADER,
            ShaderType::Geometry => GEOMETRY_SHADER,
            ShaderType::Fragment => FRAGMENT_SHADER,
            ShaderType::Compute => COMPUTE_SHADER,
        }
    }

    /// The stage's bit in a mask of stages.
    pub fn mask(self) -> (mask: u8)
        ensures
            mask == self.bit(),
    {
        match self {
            ShaderType::Vertex => 0x01,
            ShaderType::TesselationControl => 0x02,
            ShaderType::TesselationEvaluation => 0x04,
            ShaderType::Geometry => 0x08,
            ShaderType::Fragment => 0x10,
            ShaderType::Compute => 0x20,
        }
    }

    /// The name of the stage in diagnostics.
    pub fn to_string(&self) -> (label: String)
        ensures
            label@ == self.label(),
    {
        match *self {
            ShaderType::Vertex => String::from_str("vertex"),
            ShaderType::TesselationControl => String::from_str("tess_control"),
            ShaderType::TesselationEvaluation => String::from_str("tess_evaluation"),
            ShaderType::Geometry => String::from_str("geometry"),
            ShaderType::Fragment => String::from_str("fragment"),
            ShaderType::Compute => String::from_str("compute"),
        }
    }

    /// A stage has one enumerant and one bit of the mask, its own: the bit is
    /// `1 << bit_index`, and two stages that agree on the enumerant or on the
    /// bit are the same stage.
    pub proof fn lemma_one_constant_one_bit(a: ShaderType, b: ShaderType)
        ensures
            a.bit() == 1u8 << (a.bit_index() as u8),
            a.bit_index() < 8,
            a.constant() == b.constant() ==> a == b,
            a.bit() == b.bit() ==> a == b,
            a != b ==> a.bit() & b.bit() == 0,
            a.bit() & a.bit() == a.bit(),
    {
        assert(0x01u8 == 1u8 << 0u8) by (bit_vector);
        assert(0x02u8 == 1u8 << 1u8) by (bit_vector);
        assert(0x04u8 == 1u8 << 2u8) by (bit_vector);
        assert(0x08u8 == 1u8 << 3u8) by (bit_vector);
        assert(0x10u8 == 1u8 << 4u8) by (bit_vector);
        assert(0x20u8 == 1u8 << 5u8) by (bit_vector);
        let x = a.bit();
        let y = b.bit();
        assert((x == 1 || x == 2 || x == 4 || x == 8 || x == 16 || x == 32) && (y == 1 || y == 2
            || y == 4 || y == 8 || y == 16 || y == 32) ==> (x != y ==> x & y == 0) && x & x == x)
            by (bit_vector);
    }
}

/// Whether the stage's bit is set in a mask of stages.
pub open spec fn has_stage(flags: u8, stage: ShaderType) -> bool {
    flags & stage.bit() != 0
}

/// The source of one shader: a stage and the fragments of its text, which are
/// compiled as one text, in the order in which they were added.
pub struct Shader {
    shader_type: ShaderType,
    sources: Vec<String>,
}

pub struct ShaderView {
    pub shader_type: ShaderType,
    pub sources: Seq<Seq<char>>,
}

impl View for Shader {
    type V = ShaderView;

    closed spec fn view(&self) -> ShaderView {
        ShaderView { shader_type: self.shader_type, sources: self.sources.deep_view() }
    }
}

/// A compiled shader object. Whoever holds the handle owns the object and
/// releases it once.
#[derive(Debug, PartialEq, Eq)]
pub struct ShaderHandle {
    pub shader_type: ShaderType,
    pub id: u32,
}

impl ShaderHandle {
    /// Gives the object up: the call that deletes it.
    pub fn release(self) -> (call: GlCall)
        ensures
            call@ == (GlCallView::DeleteShader { shader: self.id }),
    {
        GlCall::DeleteShader { shader: self.id }
    }
}

/// Why a shader did not compile.
#[derive(Debug, PartialEq, Eq)]
pub enum ShaderCompileError {
    /// The compiler rejected the source; the text is its log.
    CompilationError(String),
}

impl Shader {
    pub fn shader_type(&self) -> (shader_type: ShaderType)
        ensures
            shader_type == self@.shader_type,
    {
        self.shader_type
    }

    /// A shader of the given stage, without source.
    pub fn new(shader_type: ShaderType) -> (shader: Shader)
        ensures
            shader@ == (ShaderView { shader_type, sources: Seq::empty() }),
    {
        let shader = Shader { shader_type, sources: Vec::new() };
        assert(shader.sources.deep_view() =~= Seq::empty());
        shader
    }

    /// Appends a fragment to the source.
    pub fn source(self, source: &str) -> (shader: Shader)
        ensures
            shader@ == (ShaderView {
                shader_type: self@.shader_type,
                sources: self@.sources.push(source@),
            }),
    {
        let mut shader = self;
        shader.sources.push(String::from_str(source));
        assert(shader.sources.deep_view() =~= self.sources.deep_view().push(source@));
        shader
    }

    /// A copy of the shader.
    pub fn duplicate(&self) -> (shader: Shader)
        ensures
            shader@ == self@,
    {
        Shader { shader_type: self.shader_type, sources: clone_strings(&self.sources) }
    }

    /// Starts the compilation: asks for a shader object of the stage.
    pub fn compile(self) -> (start: (ShaderCompilation, Vec<GlCall>))
        ensures
            start.0@ == ShaderCompilation::begin(self@),
            start.1.deep_view() == seq![
                GlCallView::CreateShader { stage: self@.shader_type.constant() },
            ],
    {
        let mut calls: Vec<GlCall> = Vec::new();
        calls.push(GlCall::CreateShader { stage: self.shader_type.gl_constant() });
        assert(calls.deep_view() =~= seq![
            GlCallView::CreateShader { stage: self@.shader_type.constant() },
        ]);
        (ShaderCompilation { shader: self, awaiting: Awaiting::Object }, calls)
    }
}

/// What a compilation is waiting for.
#[derive(Clone, Copy, Debug, PartialEq, Eq)]
pub enum Awaiting {
    /// The name of the new shader object.
    Object,
    /// The compile status of the object.
    Status { id: u32 },
    /// The length of the compiler's log.
    LogLength { id: u32 },
    /// The compiler's log.
    Log { id: u32 },
}

/// The compilation of one shader, under way.
pub struct ShaderCompilation {
    shader: Shader,
    awaiting: Awaiting,
}

pub struct ShaderCompilationView {
    pub shader: ShaderView,
    pub awaiting: Awaiting,
}

impl View for ShaderCompilation {
    type V = ShaderCompilationView;

    closed spec fn view(&self) -> ShaderCompilationView {
        ShaderCompilationView { shader: self.shader@, awaiting: self.awaiting }
    }
}

/// The outcome of a compilation, over views.
pub type CompileOutcome = Result<ShaderHandle, Seq<char>>;

/// The view of what a compilation returns.
pub open spec fn compile_result_view(result: Result<ShaderHandle, ShaderCompileError>)
    -> CompileOutcome {
    match result {
        Ok(handle) => Ok(handle),
        Err(ShaderCompileError::CompilationError(log)) => Err(log@),
    }
}

/// The view of one step of a compilation.
pub open spec fn compile_step_view(
    step: Step<ShaderCompilation, Result<ShaderHandle, ShaderCompileError>>,
) -> StepView<ShaderCompilationView, CompileOutcome> {
    match step {
        Step::Call { next, calls } => StepView::Call { next: next@, calls: calls.deep_view() },
        Step::Done { calls, result } => StepView::Done {
            calls: calls.deep_view(),
            result: compile_result_view(result),
        },
        Step::OutOfTurn { state } => StepView::OutOfTurn { state: state@ },
    }
}

impl ShaderCompilation {
    /// The compilation of `shader` before the driver has answered anything.
    pub open spec fn begin(shader: ShaderView) -> ShaderCompilationView {
        ShaderCompilationView { shader, awaiting: Awaiting::Object }
    }

    /// What the compilation does with an answer.
    ///
    /// The new object gets the source and is compiled. A status of `TRUE` ends
    /// the compilation with the handle. Any other status has the log read and
    /// the object deleted, and ends it with the log as the error.
    pub open spec fn after(state: ShaderCompilationView, reply: GlReplyView) -> StepView<
        ShaderCompilationView,
        CompileOutcome,
    > {
        match (state.awaiting, reply) {
            (Awaiting::Object, GlReplyView::Name(id)) => StepView::Call {
                next: ShaderCompilationView { awaiting: Awaiting::Status { id }, ..state },
                calls: seq![
                    GlCallView::ShaderSource { shader: id, sources: state.shader.sources },
                    GlCallView::CompileShader { shader: id },
                    GlCallView::GetShaderiv { shader: id, parameter: COMPILE_STATUS },
                ],
            },
            (Awaiting::Status { id }, GlReplyView::Integer(status)) => if status == TRUE {
                StepView::Done {
                    calls: Seq::empty(),
                    result: Ok(ShaderHandle { shader_type: state.shader.shader_type, id }),
                }
            } else {
                StepView::Call {
                    next: ShaderCompilationView { awaiting: Awaiting::LogLength { id }, ..state },
                    calls: seq![GlCallView::GetShaderiv { shader: id, parameter: INFO_LOG_LENGTH }],
                }
            },
            (Awaiting::LogLength { id }, GlReplyView::Integer(length)) => StepView::Call {
                next: ShaderCompilationView { awaiting: Awaiting::Log { id }, ..state },
                calls: seq![GlCallView::GetShaderInfoLog { shader: id, capacity: length }],
            },
            (Awaiting::Log { id }, GlReplyView::Text(log)) => StepView::Done {
                calls: seq![GlCallView::DeleteShader { shader: id }],
                result: Err(log),
            },
            _ => StepView::OutOfTurn { state },
        }
    }

    /// A compilation ends in one of two ways, and the shader object goes one
    /// of two ways with it: either the handle of the object is the result,
    /// it is of the shader's stage, and nothing more is issued; or the
    /// object is deleted and the result is the log.
    pub proof fn lemma_object_is_kept_or_deleted(state: ShaderCompilationView, reply: GlReplyView)
        ensures
            ShaderCompilation::after(state, reply) matches StepView::Done { calls, result } ==> {
                match result {
                    Ok(handle) => {
                        &&& state.awaiting == Awaiting::Status { id: handle.id }
                        &&& handle.shader_type == state.shader.shader_type
                        &&& calls.len() == 0
                    },
                    Err(log) => {
                        &&& state.awaiting matches Awaiting::Log { id }
                        &&& calls == seq![GlCallView::DeleteShader { shader: id }]
                    },
                }
            },
    {
    }

    /// Takes the answer to the last call and says what to do next.
    pub fn resume(self, reply: GlReply) -> (step: Step<
        ShaderCompilation,
        Result<ShaderHandle, ShaderCompileError>,
    >)
        ensures
            compile_step_view(step) == ShaderCompilation::after(self@, reply@),
    {
        match (self.awaiting, reply) {
            (Awaiting::Object, GlReply::Name(id)) => {
                let mut calls: Vec<GlCall> = Vec::new();
                calls.push(GlCall::ShaderSource { shader: id, sources: clone_strings(&self.shader.sources) });
                calls.push(GlCall::CompileShader { shader: id });
                calls.push(GlCall::GetShaderiv { shader: id, parameter: COMPILE_STATUS });
                assert(calls.deep_view() =~= seq![
                    GlCallView::ShaderSource { shader: id, sources: self@.shader.sources },
                    GlCallView::CompileShader { shader: id },
                    GlCallView::GetShaderiv { shader: id, parameter: COMPILE_STATUS },
                ]);
                Step::Call {
                    next: ShaderCompilation { shader: self.shader, awaiting: Awaiting::Status { id } },
                    calls,
                }
            },
            (Awaiting::Status { id }, GlReply::Integer(status)) => {
                if status == TRUE {
                    let calls: Vec<GlCall> = Vec::new();
                    assert(calls.deep_view() =~= Seq::empty());
                    Step::Done {
                        calls,
                        result: Ok(ShaderHandle { shader_type: self.shader.shader_type, id }),
                    }
                } else {
                    let mut calls: Vec<GlCall> = Vec::new();
                    calls.push(GlCall::GetShaderiv { shader: id, parameter: INFO_LOG_LENGTH });
                    assert(calls.deep_view() =~= seq![
                        GlCallView::GetShaderiv { shader: id, parameter: INFO_LOG_LENGTH },
                    ]);
                    Step::Call {
                        next: ShaderCompilation {
                            shader: self.shader,
                            awaiting: Awaiting::LogLength { id },
                        },
                        calls,
                    }
                }
            },
            (Awaiting::LogLength { id }, GlReply::Integer(length)) => {
                let mut calls: Vec<GlCall> = Vec::new();
                calls.push(GlCall::GetShaderInfoLog { shader: id, capacity: length });
                assert(calls.deep_view() =~= seq![
                    GlCallView::GetShaderInfoLog { shader: id, capacity: length },
                ]);
                Step::Call {
                    next: ShaderCompilation { shader: self.shader, awaiting: Awaiting::Log { id } },
                    calls,
                }
            },
            (Awaiting::Log { id }, GlReply::Text(log)) => {
                let mut calls: Vec<GlCall> = Vec::new();
                calls.push(GlCall::DeleteShader { shader: id });
                assert(calls.deep_view() =~= seq![GlCallView::DeleteShader { shader: id }]);
                Step::Done { calls, result: Err(ShaderCompileError::CompilationError(log)) }
            },
            (_, reply) => Step::OutOfTurn { state: self },
        }
    }
}

} // verus!
