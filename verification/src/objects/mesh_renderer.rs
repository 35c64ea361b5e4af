//! A mesh drawn from vertex buffers with one program.

use crate::conversation::{Step, StepView};
use crate::definitions::MODEL_TRANSFORM_UNIFORM_NAME;
use crate::engine::matrix_write;
use crate::gl_call::{clone_names, GlCall, GlCallView, GlReply, GlReplyView};
use crate::gl_types::{
    words_image, words_to_bytes, BufferIdType, DrawMode, GlEnum, GlFloat, VaoIdType, ARRAY_BUFFER,
    FLOAT, FLOAT_MAT4, STATIC_DRAW,
};
use crate::program::uniform::{Uniform, UniformView};
use crate::program::{ProgramHandle, ProgramIdType, ProgramRegistry, RegistryView};
use crate::traits::{render_result_view, Drawable, RenderError, RenderErrorView};
use std::collections::HashMap;
use vstd::prelude::*;
use vstd::string::StringExecFns;

verus! {


broadcast use vstd::std_specs::hash::group_hash_axioms;

/// The largest number of values from one vertex of a buffer to the next.
pub const MAX_STRIDE: usize = 0x1FFF_FFFF;

/// The largest number of vertices of a mesh: the largest count of a draw call.
pub const MAX_VERTICES: usize = 0x7FFF_FFFF;

/// The largest number of vertex buffers of a mesh.
pub const MAX_BUFFERS: usize = 0x7FFF_FFFF;

/// The bit pattern of the number one.
pub const ONE: u32 = 0x3F80_0000;

/// The matrix that changes nothing.
pub open spec fn identity() -> [GlFloat; 16] {
    let o = GlFloat { bits: 0 };
    let i = GlFloat { bits: ONE };
    [i, o, o, o, o, i, o, o, o, o, i, o, o, o, o, i]
}

/// The attributes of the vertices of one buffer, in the order in which they
/// were added: of each its name in the program and the number of its values.
pub type Attributes = Seq<(Seq<char>, i32)>;

/// The attributes of the buffers, by buffer, over views.
pub open spec fn attribute_lists(lists: Map<usize, Vec<(String, i32)>>) -> Map<usize, Attributes> {
    lists.map_values(|list: Vec<(String, i32)>| list.deep_view())
}

/// The number of values of a vertex with these attributes, where none has a
/// negative number of values and the sum is no more than [`MAX_STRIDE`].
pub open spec fn stride_of(attributes: Attributes) -> Option<nat>
    decreases attributes.len(),
{
    if attributes.len() == 0 {
        Some(0)
    } else {
        match stride_of(attributes.drop_last()) {
            Some(stride) if attributes.last().1 >= 0 && stride + attributes.last().1
                <= MAX_STRIDE => Some((stride + attributes.last().1) as nat),
            _ => None,
        }
    }
}

/// What is wrong with the description of a mesh renderer.
#[derive(Clone, Copy, Debug, PartialEq, Eq, Structural)]
pub enum MeshRendererIssue {
    /// There is no vertex buffer.
    NoVertexBuffers,
    /// No program was given, or it is no longer in the registry.
    NoProgram,
    /// The program has no active uniform for the model transform. No error.
    NoModelTransform,
    /// The model transform of the program has the type `actual`, which is
    /// no four-by-four matrix. No error.
    ModelTransformNotMat4 { actual: GlEnum },
    /// No attribute was specified at all.
    NoAttributes,
    /// The buffer `buffer` has no attribute. A detail of
    /// [`MeshRendererIssue::BuffersWithoutAttributes`].
    MissingAttributeConfig { buffer: usize },
    /// Some buffers have no attribute.
    BuffersWithoutAttributes,
    /// There are more than [`MAX_BUFFERS`] buffers.
    TooManyBuffers,
    /// The mesh has more than [`MAX_VERTICES`] vertices.
    TooManyVertices,
    /// The attributes of the buffer `buffer` have no values at all, or one
    /// has a negative number of them, or they have more than [`MAX_STRIDE`].
    UnusableStride { buffer: usize },
}

impl MeshRendererIssue {
    /// Whether the issue keeps the renderer from being built.
    pub open spec fn fatal(self) -> bool {
        match self {
            MeshRendererIssue::NoModelTransform => false,
            MeshRendererIssue::ModelTransformNotMat4 { .. } => false,
            MeshRendererIssue::MissingAttributeConfig { .. } => false,
            _ => true,
        }
    }

    /// Whether the issue keeps the renderer from being built.
    pub fn is_error(self) -> (fatal: bool)
        ensures
            fatal == self.fatal(),
    {
        match self {
            MeshRendererIssue::NoModelTransform => false,
            MeshRendererIssue::ModelTransformNotMat4 { .. } => false,
            MeshRendererIssue::MissingAttributeConfig { .. } => false,
            _ => true,
        }
    }
}

/// Whether one of the issues keeps the renderer from being built.
pub open spec fn any_fatal(issues: Seq<MeshRendererIssue>) -> bool {
    exists|i: int| 0 <= i < issues.len() && #[trigger] issues[i].fatal()
}


/// The description of a mesh renderer to build.
pub struct MeshRendererBuilder {
    buffers: Vec<Vec<GlFloat>>,
    shader: Option<ProgramHandle>,
    draw_mode: Option<DrawMode>,
    attribute_config: HashMap<usize, Vec<(String, i32)>>,
    transform: Option<[GlFloat; 16]>,
}

pub struct MeshRendererBuilderView {
    pub buffers: Seq<Seq<GlFloat>>,
    pub shader: Option<ProgramHandle>,
    pub draw_mode: Option<DrawMode>,
    /// The attributes of each buffer that has any.
    pub attribute_config: Map<usize, Attributes>,
    pub transform: Option<[GlFloat; 16]>,
}

impl View for MeshRendererBuilder {
    type V = MeshRendererBuilderView;

    closed spec fn view(&self) -> MeshRendererBuilderView {
        MeshRendererBuilderView {
            buffers: self.buffers.deep_view(),
            shader: self.shader,
            draw_mode: self.draw_mode,
            attribute_config: attribute_lists(self.attribute_config@),
            transform: self.transform,
        }
    }
}

/// One piece of work of the building, in the order of the work.
#[derive(Debug, PartialEq, Eq)]
pub enum PlanItem {
    /// Bind the buffer `buffer` and fill it.
    Upload { buffer: usize },
    /// Look up the attribute `name`, of `size` values, in vertices that are
    /// `stride` bytes apart, and describe it if the program has it.
    Locate { name: String, size: i32, stride: i32 },
}

pub enum PlanItemView {
    Upload { buffer: usize },
    Locate { name: Seq<char>, size: i32, stride: i32 },
}

impl View for PlanItem {
    type V = PlanItemView;

    open spec fn view(&self) -> PlanItemView {
        match *self {
            PlanItem::Upload { buffer } => PlanItemView::Upload { buffer },
            PlanItem::Locate { name, size, stride } => PlanItemView::Locate {
                name: name@,
                size,
                stride,
            },
        }
    }
}

impl DeepView for PlanItem {
    type V = PlanItemView;

    open spec fn deep_view(&self) -> PlanItemView {
        self@
    }
}

/// The look-ups of the attributes among `config` that belong to `buffer`,

/// The look-ups of the attributes, in order.
pub open spec fn attribute_plan(attributes: Attributes, stride: i32) -> Seq<PlanItemView>
    decreases attributes.len(),
{
    if attributes.len() == 0 {
        Seq::empty()
    } else {
        attribute_plan(attributes.drop_last(), stride).push(
            PlanItemView::Locate {
                name: attributes.last().0,
                size: attributes.last().1,
                stride,
            },
        )
    }
}

/// The number of bytes from one vertex with these attributes to the next.
pub open spec fn stride_bytes(attributes: Attributes) -> i32 {
    match stride_of(attributes) {
        Some(stride) => (4 * stride) as i32,
        None => 0,
    }
}

impl MeshRendererBuilderView {
    /// The attributes of the buffer `buffer`; none if it was given none.
    pub open spec fn attributes_of(self, buffer: usize) -> Attributes {
        if self.attribute_config.contains_key(buffer) {
            self.attribute_config[buffer]
        } else {
            Seq::empty()
        }
    }

    /// The buffers among the first `count` that have no attribute.
    pub open spec fn missing(self, count: int) -> Seq<MeshRendererIssue>
        decreases count,
    {
        if count <= 0 {
            Seq::empty()
        } else {
            let rest = self.missing(count - 1);
            if !self.attribute_config.contains_key((count - 1) as usize) {
                rest.push(MeshRendererIssue::MissingAttributeConfig { buffer: (count - 1) as usize })
            } else {
                rest
            }
        }
    }

    /// Whether the attributes of the buffer `index`, if it has any, make a
    /// stride that is not zero.
    pub open spec fn within_limits(self, index: int) -> bool {
        self.attribute_config.contains_key(index as usize) ==> {
            &&& stride_of(self.attributes_of(index as usize)) is Some
            &&& stride_of(self.attributes_of(index as usize))->0 > 0
        }
    }

    /// Those of the first `count` buffers whose attributes make no stride.
    pub open spec fn beyond_limits(self, count: int) -> Seq<MeshRendererIssue>
        decreases count,
    {
        if count <= 0 {
            Seq::empty()
        } else {
            let rest = self.beyond_limits(count - 1);
            if !self.within_limits(count - 1) {
                rest.push(MeshRendererIssue::UnusableStride { buffer: (count - 1) as usize })
            } else {
                rest
            }
        }
    }

    /// The number of vertices of the mesh: as many as the first buffer has
    /// whole vertices. Zero where there is no first buffer or its
    /// attributes make no stride.
    pub open spec fn vertices(self) -> nat {
        match stride_of(self.attributes_of(0)) {
            Some(stride) if stride > 0 && self.buffers.len() > 0 => self.buffers[0].len() / stride,
            _ => 0,
        }
    }

    /// What is wrong with the program.
    pub open spec fn program_issues(self, programs: RegistryView) -> Seq<MeshRendererIssue> {
        match self.shader {
            Some(handle) if programs.is_live(handle) => match programs.program(handle).uniform(
                MODEL_TRANSFORM_UNIFORM_NAME@,
            ) {
                None => seq![MeshRendererIssue::NoModelTransform],
                Some(uniform) => if uniform.value_type != FLOAT_MAT4 {
                    seq![MeshRendererIssue::ModelTransformNotMat4 { actual: uniform.value_type }]
                } else {
                    Seq::empty()
                },
            },
            _ => seq![MeshRendererIssue::NoProgram],
        }
    }

    /// Everything that is wrong with the description, not only the first
    /// thing.
    pub open spec fn issues(self, programs: RegistryView) -> Seq<MeshRendererIssue> {
        let count = self.buffers.len() as int;
        (if count == 0 {
            seq![MeshRendererIssue::NoVertexBuffers]
        } else {
            Seq::empty()
        }) + self.program_issues(programs) + (if self.attribute_config.is_empty() {
            seq![MeshRendererIssue::NoAttributes]
        } else {
            Seq::empty()
        }) + self.missing(count) + (if self.missing(count).len() > 0 {
            seq![MeshRendererIssue::BuffersWithoutAttributes]
        } else {
            Seq::empty()
        }) + (if count > MAX_BUFFERS {
            seq![MeshRendererIssue::TooManyBuffers]
        } else {
            Seq::empty()
        }) + self.beyond_limits(count) + (if self.vertices() > MAX_VERTICES {
            seq![MeshRendererIssue::TooManyVertices]
        } else {
            Seq::empty()
        })
    }

    /// The work for the first `count` buffers: each buffer is filled, then
    /// its attributes are looked up in the order in which they were added.
    pub open spec fn plan(self, count: int) -> Seq<PlanItemView>
        decreases count,
    {
        if count <= 0 {
            Seq::empty()
        } else {
            let buffer = (count - 1) as usize;
            self.plan(count - 1) + seq![PlanItemView::Upload { buffer }] + attribute_plan(
                self.attributes_of(buffer),
                stride_bytes(self.attributes_of(buffer)),
            )
        }
    }

    /// The building of the renderer that is described, with the program
    /// `programs`, before the driver has answered anything. Meaningful
    /// where no issue is fatal.
    pub open spec fn begin(self, programs: RegistryView) -> MeshRendererBuildView {
        let program = programs.program(self.shader->0);
        MeshRendererBuildView {
            program: program.id,
            shader: self.shader->0,
            draw_mode: match self.draw_mode {
                Some(mode) => mode.constant(),
                None => DrawMode::Triangles.constant(),
            },
            transform: match self.transform {
                Some(transform) => transform,
                None => identity(),
            },
            transform_uniform: program.uniform(MODEL_TRANSFORM_UNIFORM_NAME@),
            buffers: self.buffers,
            plan: self.plan(self.buffers.len() as int),
            vertex_count: self.vertices() as usize,
            phase: MeshPhase::VertexArray,
            vao_id: 0,
            buffer_ids: Seq::empty(),
            diagnostics: Seq::empty(),
        }
    }
}

#[derive(Clone, Copy, Debug, PartialEq, Eq)]
pub enum MeshPhase {
    /// The name of the vertex array.
    VertexArray,
    /// The names of the buffers.
    Buffers,
    /// The answer to the piece of work `cursor`.
    Item { cursor: usize },
}

/// What went wrong, short of failure, while a mesh renderer was built.
#[derive(Debug, PartialEq, Eq)]
pub enum MeshDiagnostic {
    /// The program has no attribute called `name`. The attribute is left out.
    AttributeNotFound { name: String },
}

pub enum MeshDiagnosticView {
    AttributeNotFound { name: Seq<char> },
}

impl View for MeshDiagnostic {
    type V = MeshDiagnosticView;

    open spec fn view(&self) -> MeshDiagnosticView {
        match *self {
            MeshDiagnostic::AttributeNotFound { name } => MeshDiagnosticView::AttributeNotFound {
                name: name@,
            },
        }
    }
}

impl DeepView for MeshDiagnostic {
    type V = MeshDiagnosticView;

    open spec fn deep_view(&self) -> MeshDiagnosticView {
        self@
    }
}

/// The building of one mesh renderer, under way.
pub struct MeshRendererBuild {
    program: ProgramIdType,
    shader: ProgramHandle,
    draw_mode: GlEnum,
    transform: [GlFloat; 16],
    transform_uniform: Option<Uniform>,
    buffers: Vec<Vec<GlFloat>>,
    plan: Vec<PlanItem>,
    vertex_count: usize,
    phase: MeshPhase,
    vao_id: VaoIdType,
    buffer_ids: Vec<BufferIdType>,
    diagnostics: Vec<MeshDiagnostic>,
}

pub struct MeshRendererBuildView {
    pub program: ProgramIdType,
    pub shader: ProgramHandle,
    pub draw_mode: GlEnum,
    pub transform: [GlFloat; 16],
    pub transform_uniform: Option<UniformView>,
    pub buffers: Seq<Seq<GlFloat>>,
    pub plan: Seq<PlanItemView>,
    pub vertex_count: usize,
    pub phase: MeshPhase,
    pub vao_id: VaoIdType,
    pub buffer_ids: Seq<BufferIdType>,
    pub diagnostics: Seq<MeshDiagnosticView>,
}

/// The view of a slot that may be there.
pub open spec fn slot_view(slot: Option<Uniform>) -> Option<UniformView> {
    match slot {
        Some(uniform) => Some(uniform@),
        None => None,
    }
}

impl View for MeshRendererBuild {
    type V = MeshRendererBuildView;

    closed spec fn view(&self) -> MeshRendererBuildView {
        MeshRendererBuildView {
            program: self.program,
            shader: self.shader,
            draw_mode: self.draw_mode,
            transform: self.transform,
            transform_uniform: slot_view(self.transform_uniform),
            buffers: self.buffers.deep_view(),
            plan: self.plan.deep_view(),
            vertex_count: self.vertex_count,
            phase: self.phase,
            vao_id: self.vao_id,
            buffer_ids: self.buffer_ids@,
            diagnostics: self.diagnostics.deep_view(),
        }
    }
}

/// A mesh on the GPU.
pub struct MeshRenderer {
    shader: ProgramHandle,
    vao_id: VaoIdType,
    draw_mode: GlEnum,
    vertex_count: usize,
    buffer_ids: Vec<BufferIdType>,
    transform: [GlFloat; 16],
    transform_uniform: Option<Uniform>,
}

pub struct MeshRendererView {
    pub shader: ProgramHandle,
    pub vao_id: VaoIdType,
    pub draw_mode: GlEnum,
    pub vertex_count: usize,
    pub buffer_ids: Seq<BufferIdType>,
    pub transform: [GlFloat; 16],
    pub transform_uniform: Option<UniformView>,
}

impl View for MeshRenderer {
    type V = MeshRendererView;

    closed spec fn view(&self) -> MeshRendererView {
        MeshRendererView {
            shader: self.shader,
            vao_id: self.vao_id,
            draw_mode: self.draw_mode,
            vertex_count: self.vertex_count,
            buffer_ids: self.buffer_ids@,
            transform: self.transform,
            transform_uniform: slot_view(self.transform_uniform),
        }
    }
}

/// How the building of a mesh renderer ended.
pub struct MeshRendererReport {
    pub renderer: MeshRenderer,
    /// What was noticed on the way, in the order in which it was noticed.
    pub diagnostics: Vec<MeshDiagnostic>,
}

pub struct MeshRendererReportView {
    pub renderer: MeshRendererView,
    pub diagnostics: Seq<MeshDiagnosticView>,
}

/// The view of one step of the building of a mesh renderer.
pub open spec fn mesh_step_view(step: Step<MeshRendererBuild, MeshRendererReport>) -> StepView<
    MeshRendererBuildView,
    MeshRendererReportView,
> {
    match step {
        Step::Call { next, calls } => StepView::Call { next: next@, calls: calls.deep_view() },
        Step::Done { calls, result } => StepView::Done {
            calls: calls.deep_view(),
            result: MeshRendererReportView {
                renderer: result.renderer@,
                diagnostics: result.diagnostics.deep_view(),
            },
        },
        Step::OutOfTurn { state } => StepView::OutOfTurn { state: state@ },
    }
}

impl MeshRendererBuildView {
    /// The calls of the piece of work `index`.
    pub open spec fn item_calls(self, index: int) -> Seq<GlCallView> {
        match self.plan[index] {
            PlanItemView::Upload { buffer } => seq![
                GlCallView::BindBuffer {
                    target: ARRAY_BUFFER,
                    buffer: self.buffer_ids[buffer as int],
                },
                GlCallView::NamedBufferData {
                    buffer: self.buffer_ids[buffer as int],
                    data: words_image(
                        self.buffers[buffer as int],
                        self.buffers[buffer as int].len() as int,
                    ),
                    usage: STATIC_DRAW,
                },
            ],
            PlanItemView::Locate { name, .. } => seq![
                GlCallView::GetAttribLocation { program: self.program, name },
            ],
        }
    }

    /// The renderer that the building has come to.
    pub open spec fn renderer(self) -> MeshRendererView {
        MeshRendererView {
            shader: self.shader,
            vao_id: self.vao_id,
            draw_mode: self.draw_mode,
            vertex_count: self.vertex_count,
            buffer_ids: self.buffer_ids,
            transform: self.transform,
            transform_uniform: self.transform_uniform,
        }
    }

    /// Goes on to the piece of work `index` after the calls `first`, or
    /// ends the building if no work is left: then nothing is left bound.
    pub open spec fn proceed(self, first: Seq<GlCallView>, index: int) -> StepView<
        MeshRendererBuildView,
        MeshRendererReportView,
    > {
        if index < self.plan.len() {
            StepView::Call {
                next: MeshRendererBuildView {
                    phase: MeshPhase::Item { cursor: index as usize },
                    ..self
                },
                calls: first + self.item_calls(index),
            }
        } else {
            StepView::Done {
                calls: first + seq![
                    GlCallView::BindBuffer { target: ARRAY_BUFFER, buffer: 0 },
                    GlCallView::BindVertexArray { array: 0 },
                ],
                result: MeshRendererReportView {
                    renderer: self.renderer(),
                    diagnostics: self.diagnostics,
                },
            }
        }
    }

    /// What the building does with an answer.
    ///
    /// The new vertex array is bound and the buffers are asked for. Then
    /// the work is done piece by piece. An attribute that the program has
    /// is described, from the start of each vertex, and enabled; one that
    /// the program does not have, which the location -1 says, is noted and
    /// left out.
    pub open spec fn after(self, reply: GlReplyView) -> StepView<
        MeshRendererBuildView,
        MeshRendererReportView,
    > {
        match (self.phase, reply) {
            (MeshPhase::VertexArray, GlReplyView::Names(names)) if names.len() == 1 => {
                StepView::Call {
                    next: MeshRendererBuildView {
                        phase: MeshPhase::Buffers,
                        vao_id: names[0],
                        ..self
                    },
                    calls: seq![
                        GlCallView::BindVertexArray { array: names[0] },
                        GlCallView::GenBuffers { count: self.buffers.len() as i32 },
                    ],
                }
            },
            (MeshPhase::Buffers, GlReplyView::Names(names)) if names.len()
                == self.buffers.len() => MeshRendererBuildView { buffer_ids: names, ..self }.proceed(
                Seq::empty(),
                0,
            ),
            (MeshPhase::Item { cursor }, reply) => match (self.plan[cursor as int], reply) {
                (PlanItemView::Upload { .. }, GlReplyView::Done) => self.proceed(
                    Seq::empty(),
                    cursor + 1,
                ),
                (PlanItemView::Locate { name, size, stride }, GlReplyView::Integer(location)) => {
                    if location == -1 {
                        MeshRendererBuildView {
                            diagnostics: self.diagnostics.push(
                                MeshDiagnosticView::AttributeNotFound { name },
                            ),
                            ..self
                        }.proceed(Seq::empty(), cursor + 1)
                    } else {
                        self.proceed(
                            seq![
                                GlCallView::VertexAttribPointer {
                                    index: location as u32,
                                    size,
                                    component_type: FLOAT,
                                    normalized: false,
                                    stride,
                                    offset: 0,
                                },
                                GlCallView::EnableVertexArrayAttrib {
                                    array: self.vao_id,
                                    index: location as u32,
                                },
                            ],
                            cursor + 1,
                        )
                    }
                },
                _ => StepView::OutOfTurn { state: self },
            },
            _ => StepView::OutOfTurn { state: self },
        }
    }
}

impl MeshRendererView {
    /// The calls that draw the mesh: with the program current, the model
    /// transform is written if the program has it, and the vertices are
    /// drawn with the vertex array bound, which is then unbound. Nothing is
    /// issued if the program is gone or the uniform refuses the transform.
    pub open spec fn draw_calls(self, programs: RegistryView) -> Result<
        Seq<GlCallView>,
        RenderErrorView,
    > {
        if !programs.is_live(self.shader) {
            Err(RenderErrorView::ProgramDestroyed)
        } else {
            let draw = seq![
                GlCallView::BindVertexArray { array: self.vao_id },
                GlCallView::DrawArrays {
                    mode: self.draw_mode,
                    first: 0,
                    count: self.vertex_count as i32,
                },
                GlCallView::BindVertexArray { array: 0 },
            ];
            let bind = seq![GlCallView::UseProgram { program: programs.program(self.shader).id }];
            match self.transform_uniform {
                None => Ok(bind + draw),
                Some(uniform) => match matrix_write(uniform, programs, self.transform) {
                    Ok(call) => Ok(bind + seq![call] + draw),
                    Err(error) => Err(RenderErrorView::Uniform(error)),
                },
            }
        }
    }

    /// The calls that give the buffers and the vertex array up.
    pub open spec fn release_calls(self) -> Seq<GlCallView> {
        seq![
            GlCallView::DeleteBuffers { buffers: self.buffer_ids },
            GlCallView::DeleteVertexArrays { arrays: seq![self.vao_id] },
        ]
    }
}

/// A list of issues holds a fatal one exactly if one of its two parts does.
pub proof fn lemma_any_fatal_concat(first: Seq<MeshRendererIssue>, second: Seq<MeshRendererIssue>)
    ensures
        any_fatal(first + second) <==> any_fatal(first) || any_fatal(second),
{
    let all = first + second;
    if any_fatal(first) {
        let i = choose|i: int| 0 <= i < first.len() && #[trigger] first[i].fatal();
        assert(all[i].fatal());
    }
    if any_fatal(second) {
        let i = choose|i: int| 0 <= i < second.len() && #[trigger] second[i].fatal();
        assert(all[first.len() + i].fatal());
    }
    if any_fatal(all) {
        let i = choose|i: int| 0 <= i < all.len() && #[trigger] all[i].fatal();
        if i < first.len() {
            assert(first[i].fatal());
        } else {
            assert(second[i - first.len()].fatal());
        }
    }
}


impl MeshRendererBuilderView {
    /// No buffer is reported as missing attributes exactly if each of the
    /// first `count` buffers has some.
    pub proof fn lemma_missing(self, count: int)
        ensures
            self.missing(count).len() == 0 <==> forall|i: int|
                0 <= i < count ==> #[trigger] self.attribute_config.contains_key(i as usize),
        decreases count,
    {
        if count > 0 {
            self.lemma_missing(count - 1);
            if self.missing(count).len() == 0 {
                assert forall|i: int| 0 <= i < count implies #[trigger] self.attribute_config.contains_key(
                    i as usize,
                ) by {
                    if i == count - 1 {
                    }
                }
            } else if self.missing(count - 1).len() == 0 {
                assert(!self.attribute_config.contains_key((count - 1) as usize));
            }
        }
    }

    /// No stride is reported as unusable exactly if each of the first
    /// `count` buffers is within the limits.
    pub proof fn lemma_beyond_limits(self, count: int)
        ensures
            self.beyond_limits(count).len() == 0 <==> forall|i: int|
                0 <= i < count ==> #[trigger] self.within_limits(i),
            forall|k: int|
                0 <= k < self.beyond_limits(count).len() ==> (#[trigger] self.beyond_limits(
                    count,
                )[k]).fatal(),
        decreases count,
    {
        if count > 0 {
            self.lemma_beyond_limits(count - 1);
            if self.beyond_limits(count).len() == 0 {
                assert forall|i: int| 0 <= i < count implies #[trigger] self.within_limits(i) by {
                    if i == count - 1 {
                    }
                }
            } else if self.beyond_limits(count - 1).len() == 0 {
                assert(!self.within_limits(count - 1));
            }
        }
    }

    /// A description without a fatal issue has a buffer, a program that is
    /// in the registry, for each buffer attributes that make a stride, and
    /// no more vertices than a draw call takes.
    pub proof fn lemma_sound(self, programs: RegistryView)
        requires
            !any_fatal(self.issues(programs)),
        ensures
            0 < self.buffers.len() <= MAX_BUFFERS,
            self.shader is Some,
            programs.is_live(self.shader->0),
            self.vertices() <= MAX_VERTICES,
            forall|i: int|
                0 <= i < self.buffers.len() ==> #[trigger] self.within_limits(i)
                    && self.attribute_config.contains_key(i as usize),
    {
        let count = self.buffers.len() as int;
        let none = if count == 0 {
            seq![MeshRendererIssue::NoVertexBuffers]
        } else {
            Seq::empty()
        };
        let program = self.program_issues(programs);
        let attributes = if self.attribute_config.is_empty() {
            seq![MeshRendererIssue::NoAttributes]
        } else {
            Seq::empty()
        };
        let missing = self.missing(count);
        let without = if missing.len() > 0 {
            seq![MeshRendererIssue::BuffersWithoutAttributes]
        } else {
            Seq::empty()
        };
        let many = if count > MAX_BUFFERS {
            seq![MeshRendererIssue::TooManyBuffers]
        } else {
            Seq::empty()
        };
        let limits = self.beyond_limits(count);
        let vertices = if self.vertices() > MAX_VERTICES {
            seq![MeshRendererIssue::TooManyVertices]
        } else {
            Seq::empty()
        };
        lemma_any_fatal_concat(none, program);
        lemma_any_fatal_concat(none + program, attributes);
        lemma_any_fatal_concat(none + program + attributes, missing);
        lemma_any_fatal_concat(none + program + attributes + missing, without);
        lemma_any_fatal_concat(none + program + attributes + missing + without, many);
        lemma_any_fatal_concat(none + program + attributes + missing + without + many, limits);
        lemma_any_fatal_concat(
            none + program + attributes + missing + without + many + limits,
            vertices,
        );
        if none.len() > 0 {
            assert(none[0].fatal());
        }
        if !(self.shader is Some && programs.is_live(self.shader->0)) {
            assert(program[0].fatal());
        }
        if without.len() > 0 {
            assert(without[0].fatal());
        }
        if many.len() > 0 {
            assert(many[0].fatal());
        }
        if vertices.len() > 0 {
            assert(vertices[0].fatal());
        }
        self.lemma_missing(count);
        self.lemma_beyond_limits(count);
        if limits.len() > 0 {
            assert(limits[0].fatal());
        }
    }
}

/// What the attributes come to.
fn stride(attributes: &Vec<(String, i32)>) -> (stride: Option<usize>)
    ensures
        match stride {
            Some(stride) => stride_of(attributes.deep_view()) == Some(stride as nat) && stride
                <= MAX_STRIDE,
            None => stride_of(attributes.deep_view()) is None,
        },
{
    let ghost all = attributes.deep_view();
    let mut stride: Option<usize> = Some(0);
    let mut i: usize = 0;
    assert(all.take(0) =~= Seq::empty());
    while i < attributes.len()
        invariant
            i <= attributes.len(),
            all == attributes.deep_view(),
            match stride {
                Some(total) => stride_of(all.take(i as int)) == Some(total as nat) && total
                    <= MAX_STRIDE,
                None => stride_of(all.take(i as int)) is None,
            },
        decreases attributes.len() - i,
    {
        proof {
            assert(all.take(i + 1).drop_last() =~= all.take(i as int));
            assert(all.take(i + 1).last() == attributes[i as int].deep_view());
        }
        let size = attributes[i].1;
        stride = match stride {
            Some(total) => if size >= 0 && size as usize <= MAX_STRIDE - total {
                Some(total + size as usize)
            } else {
                None
            },
            None => None,
        };
        i += 1;
    }
    assert(all.take(i as int) =~= all);
    stride
}

/// Appends the look-ups of the attributes.
fn plan_attributes(plan: &mut Vec<PlanItem>, attributes: &Vec<(String, i32)>, stride: i32)
    ensures
        final(plan).deep_view() == old(plan).deep_view() + attribute_plan(
            attributes.deep_view(),
            stride,
        ),
        forall|k: int| old(plan).len() <= k < final(plan).len() ==> final(plan)[k] is Locate,
        forall|k: int| 0 <= k < old(plan).len() ==> final(plan)[k] == old(plan)[k],
        final(plan).len() >= old(plan).len(),
{
    let ghost all = attributes.deep_view();
    let ghost before = plan.deep_view();
    let mut i: usize = 0;
    assert(all.take(0) =~= Seq::empty());
    assert(plan.deep_view() =~= before + attribute_plan(all.take(0), stride));
    while i < attributes.len()
        invariant
            i <= attributes.len(),
            all == attributes.deep_view(),
            before == old(plan).deep_view(),
            plan.deep_view() == before + attribute_plan(all.take(i as int), stride),
            plan.len() >= old(plan).len(),
            forall|k: int| old(plan).len() <= k < plan.len() ==> plan[k] is Locate,
            forall|k: int| 0 <= k < old(plan).len() ==> plan[k] == old(plan)[k],
        decreases attributes.len() - i,
    {
        proof {
            assert(all.take(i + 1).drop_last() =~= all.take(i as int));
            assert(all.take(i + 1).last() == attributes[i as int].deep_view());
        }
        let ghost planned = plan.deep_view();
        plan.push(
            PlanItem::Locate { name: attributes[i].0.clone(), size: attributes[i].1, stride },
        );
        assert(plan.deep_view() =~= planned.push(
            PlanItemView::Locate {
                name: attributes[i as int].0@,
                size: attributes[i as int].1,
                stride,
            },
        ));
        assert(plan.deep_view() =~= before + attribute_plan(all.take(i + 1), stride));
        i += 1;
    }
    assert(all.take(i as int) =~= all);
}

/// A description that can be built: the building, the calls that start it,
/// and what was noticed though it is no error.
pub struct MeshRendererStart {
    pub build: MeshRendererBuild,
    pub calls: Vec<GlCall>,
    pub warnings: Vec<MeshRendererIssue>,
}


impl MeshRendererBuilder {
    /// Adds a vertex buffer. The first buffer is the buffer 0, the second
    /// the buffer 1, and so on.
    pub fn add_buffer(self, buffer: Vec<GlFloat>) -> (builder: MeshRendererBuilder)
        ensures
            builder@ == (MeshRendererBuilderView { buffers: self@.buffers.push(buffer@), ..self@ }),
    {
        let mut builder = self;
        builder.buffers.push(buffer);
        assert(builder@.buffers =~= self@.buffers.push(buffer@)) by {
            assert(buffer.deep_view() =~= buffer@);
            assert forall|i: int| 0 <= i < self@.buffers.len() implies builder@.buffers[i]
                == self@.buffers[i] by {
                assert(builder.buffers[i] == self.buffers[i]);
            }
        }
        builder
    }

    /// Names the program that draws the mesh.
    pub fn shader(self, program: ProgramHandle) -> (builder: MeshRendererBuilder)
        ensures
            builder@ == (MeshRendererBuilderView { shader: Some(program), ..self@ }),
    {
        let mut builder = self;
        builder.shader = Some(program);
        builder
    }

    /// Says how the vertices are assembled into primitives.
    pub fn draw_mode(self, mode: DrawMode) -> (builder: MeshRendererBuilder)
        ensures
            builder@ == (MeshRendererBuilderView { draw_mode: Some(mode), ..self@ }),
    {
        let mut builder = self;
        builder.draw_mode = Some(mode);
        builder
    }

    /// Adds an attribute after those that the buffer has: `name` is its
    /// name in the program, `size` the number of its values, `buffer_id`
    /// the buffer that holds it.
    pub fn add_attribute(self, name: &str, size: i32, buffer_id: usize) -> (builder:
        MeshRendererBuilder)
        ensures
            builder@ == (MeshRendererBuilderView {
                attribute_config: self@.attribute_config.insert(
                    buffer_id,
                    self@.attributes_of(buffer_id).push((name@, size)),
                ),
                ..self@
            }),
    {
        let mut builder = self;
        let taken = builder.attribute_config.remove(&buffer_id);
        let ghost without = builder.attribute_config@;
        assert(without == self.attribute_config@.remove(buffer_id));
        let mut attributes: Vec<(String, i32)> = match taken {
            Some(attributes) => attributes,
            None => Vec::new(),
        };
        let ghost before = attributes.deep_view();
        assert(before =~= self@.attributes_of(buffer_id));
        attributes.push((String::from_str(name), size));
        assert(attributes.deep_view() =~= before.push((name@, size)));
        builder.attribute_config.insert(buffer_id, attributes);
        proof {
            let old_lists = self@.attribute_config;
            let new_lists = builder@.attribute_config;
            assert(builder.attribute_config@ == without.insert(buffer_id, attributes));
            assert(new_lists.dom() =~= old_lists.dom().insert(buffer_id));
            assert forall|other: usize|
                new_lists.contains_key(other) && other != buffer_id implies new_lists[other]
                == old_lists[other] by {
                assert(builder.attribute_config@[other] == self.attribute_config@[other]);
            }
            assert(new_lists =~= old_lists.insert(buffer_id, before.push((name@, size))));
        }
        builder
    }

    /// Gives the mesh its model transform.
    pub fn transform(self, mat: [GlFloat; 16]) -> (builder: MeshRendererBuilder)
        ensures
            builder@ == (MeshRendererBuilderView { transform: Some(mat), ..self@ }),
    {
        let mut builder = self;
        builder.transform = Some(mat);
        builder
    }

    /// Appends what is wrong with the program.
    fn check_program(&self, programs: &ProgramRegistry, issues: &mut Vec<MeshRendererIssue>)
        ensures
            final(issues)@ == old(issues)@ + self@.program_issues(programs@),
    {
        match self.shader {
            Some(handle) => match programs.get(handle) {
                Some(program) => match program.uniform(MODEL_TRANSFORM_UNIFORM_NAME) {
                    None => {
                        issues.push(MeshRendererIssue::NoModelTransform);
                    },
                    Some(uniform) => {
                        if uniform.value_type() != FLOAT_MAT4 {
                            issues.push(
                                MeshRendererIssue::ModelTransformNotMat4 {
                                    actual: uniform.value_type(),
                                },
                            );
                        }
                    },
                },
                None => {
                    issues.push(MeshRendererIssue::NoProgram);
                },
            },
            None => {
                issues.push(MeshRendererIssue::NoProgram);
            },
        }
        assert(issues@ =~= old(issues)@ + self@.program_issues(programs@));
    }

    /// Appends the buffers that have no attribute, and says whether there
    /// are any.
    fn check_missing(&self, issues: &mut Vec<MeshRendererIssue>) -> (missing: bool)
        ensures
            final(issues)@ == old(issues)@ + self@.missing(self@.buffers.len() as int),
            missing == (self@.missing(self@.buffers.len() as int).len() > 0),
    {
        let ghost view = self@;
        let ghost head = issues@;
        let count = self.buffers.len();
        let mut missing = false;
        let mut i: usize = 0;
        assert(issues@ =~= head + view.missing(0));
        while i < count
            invariant
                i <= count,
                count == self.buffers.len(),
                view == self@,
                issues@ == head + view.missing(i as int),
                missing == (view.missing(i as int).len() > 0),
            decreases count - i,
        {
            if !self.attribute_config.contains_key(&i) {
                missing = true;
                issues.push(MeshRendererIssue::MissingAttributeConfig { buffer: i });
            }
            assert(issues@ =~= head + view.missing(i + 1));
            i += 1;
        }
        missing
    }

    /// The stride of the buffer `buffer`, where its attributes make one.
    fn stride_of_buffer(&self, buffer: usize) -> (stride: Option<usize>)
        ensures
            match stride {
                Some(stride) => stride_of(self@.attributes_of(buffer)) == Some(stride as nat)
                    && stride <= MAX_STRIDE,
                None => stride_of(self@.attributes_of(buffer)) is None,
            },
    {
        match self.attribute_config.get(&buffer) {
            Some(attributes) => stride(attributes),
            None => Some(0),
        }
    }

    /// Appends the buffers whose attributes make no stride.
    fn check_limits(&self, issues: &mut Vec<MeshRendererIssue>)
        ensures
            final(issues)@ == old(issues)@ + self@.beyond_limits(self@.buffers.len() as int),
    {
        let ghost view = self@;
        let ghost head = issues@;
        let count = self.buffers.len();
        let mut i: usize = 0;
        assert(issues@ =~= head + view.beyond_limits(0));
        while i < count
            invariant
                i <= count,
                count == self.buffers.len(),
                view == self@,
                issues@ == head + view.beyond_limits(i as int),
            decreases count - i,
        {
            let unusable = match self.stride_of_buffer(i) {
                Some(total) => total == 0,
                None => true,
            };
            if self.attribute_config.contains_key(&i) && unusable {
                issues.push(MeshRendererIssue::UnusableStride { buffer: i });
            }
            assert(issues@ =~= head + view.beyond_limits(i + 1));
            i += 1;
        }
    }

    /// The number of vertices of the mesh.
    fn vertices(&self) -> (vertices: usize)
        ensures
            vertices == self@.vertices(),
    {
        if self.buffers.len() == 0 {
            return 0;
        }
        proof {
            assert(self.buffers[0].deep_view() =~= self.buffers[0]@);
        }
        match self.stride_of_buffer(0) {
            Some(stride) => if stride > 0 {
                self.buffers[0].len() / stride
            } else {
                0
            },
            None => 0,
        }
    }

    /// Everything that is wrong with the description.
    pub fn assert_integrity(&self, programs: &ProgramRegistry) -> (issues: Vec<MeshRendererIssue>)
        ensures
            issues@ == self@.issues(programs@),
    {
        let mut issues: Vec<MeshRendererIssue> = Vec::new();
        if self.buffers.len() == 0 {
            issues.push(MeshRendererIssue::NoVertexBuffers);
        }
        self.check_program(programs, &mut issues);
        proof {
            assert(self@.attribute_config.dom() =~= self.attribute_config@.dom());
        }
        if self.attribute_config.is_empty() {
            issues.push(MeshRendererIssue::NoAttributes);
        }
        let missing_attribute_configs = self.check_missing(&mut issues);
        if missing_attribute_configs {
            issues.push(MeshRendererIssue::BuffersWithoutAttributes);
        }
        if self.buffers.len() > MAX_BUFFERS {
            issues.push(MeshRendererIssue::TooManyBuffers);
        }
        self.check_limits(&mut issues);
        if self.vertices() > MAX_VERTICES {
            issues.push(MeshRendererIssue::TooManyVertices);
        }
        assert(issues@ =~= self@.issues(programs@));
        issues
    }
}

impl MeshRendererBuilder {
    /// The work for the buffers, in order.
    fn plan(&self) -> (plan: Vec<PlanItem>)
        ensures
            plan.deep_view() == self@.plan(self@.buffers.len() as int),
            forall|k: int|
                0 <= k < plan.len() ==> (#[trigger] plan[k] matches PlanItem::Upload { buffer }
                    ==> buffer < self@.buffers.len()),
    {
        let ghost view = self@;
        let count = self.buffers.len();
        let mut plan: Vec<PlanItem> = Vec::new();
        let mut i: usize = 0;
        assert(plan.deep_view() =~= view.plan(0));
        while i < count
            invariant
                i <= count,
                count == self.buffers.len(),
                view == self@,
                plan.deep_view() == view.plan(i as int),
                forall|k: int|
                    0 <= k < plan.len() ==> (#[trigger] plan[k] matches PlanItem::Upload { buffer }
                        ==> buffer < count),
            decreases count - i,
        {
            let ghost planned = plan.deep_view();
            let bytes: i32 = match self.stride_of_buffer(i) {
                Some(total) => (4 * total) as i32,
                None => 0,
            };
            assert(bytes == stride_bytes(view.attributes_of(i)));
            plan.push(PlanItem::Upload { buffer: i });
            assert(plan.deep_view() =~= planned + seq![PlanItemView::Upload { buffer: i }]);
            match self.attribute_config.get(&i) {
                Some(attributes) => {
                    plan_attributes(&mut plan, attributes, bytes);
                },
                None => {
                    assert(plan.deep_view() =~= planned + seq![PlanItemView::Upload { buffer: i }]
                        + attribute_plan(view.attributes_of(i), bytes));
                },
            }
            i += 1;
        }
        plan
    }

    /// Checks the description. If nothing fatal is wrong with it, starts the
    /// building, with the program as it is in `programs`: asks for a
    /// vertex array. Otherwise the result is everything that is wrong, and
    /// nothing is to be issued.
    pub fn build(self, programs: &ProgramRegistry) -> (start: Result<
        MeshRendererStart,
        Vec<MeshRendererIssue>,
    >)
        ensures
            match start {
                Ok(start) => {
                    &&& !any_fatal(self@.issues(programs@))
                    &&& start.warnings@ == self@.issues(programs@)
                    &&& start.build@ == self@.begin(programs@)
                    &&& start.calls.deep_view() == seq![GlCallView::GenVertexArrays { count: 1 }]
                },
                Err(issues) => any_fatal(issues@) && issues@ == self@.issues(programs@),
            },
    {
        let issues = self.assert_integrity(programs);
        let mut i: usize = 0;
        while i < issues.len()
            invariant
                i <= issues.len(),
                issues@ == self@.issues(programs@),
                forall|j: int| 0 <= j < i ==> !(#[trigger] issues[j].fatal()),
            decreases issues.len() - i,
        {
            if issues[i].is_error() {
                assert(issues@[i as int].fatal());
                return Err(issues);
            }
            i += 1;
        }
        proof {
            self@.lemma_sound(programs@);
        }
        let plan = self.plan();
        let vertex_count = self.vertices();
        let MeshRendererBuilder { buffers, shader, draw_mode, attribute_config, transform } = self;
        let handle = shader.unwrap();
        let program = programs.get(handle).unwrap();
        let transform_uniform = match program.uniform(MODEL_TRANSFORM_UNIFORM_NAME) {
            Some(uniform) => Some(uniform.duplicate()),
            None => None,
        };
        let mut calls: Vec<GlCall> = Vec::new();
        calls.push(GlCall::GenVertexArrays { count: 1 });
        assert(calls.deep_view() =~= seq![GlCallView::GenVertexArrays { count: 1 }]);
        let o = GlFloat::zero();
        let l = GlFloat::from_bits(ONE);
        let build = MeshRendererBuild {
            program: program.id(),
            shader: handle,
            draw_mode: match draw_mode {
                Some(mode) => mode.gl_constant(),
                None => DrawMode::Triangles.gl_constant(),
            },
            transform: match transform {
                Some(transform) => transform,
                None => [l, o, o, o, o, l, o, o, o, o, l, o, o, o, o, l],
            },
            transform_uniform,
            buffers,
            plan,
            vertex_count,
            phase: MeshPhase::VertexArray,
            vao_id: 0,
            buffer_ids: Vec::new(),
            diagnostics: Vec::new(),
        };
        proof {
            assert(build.transform =~= build@.transform);
            assert(transform is None ==> build.transform =~= identity());
            assert(build.diagnostics.deep_view() =~= Seq::empty());
            assert(build.buffer_ids@ =~= Seq::empty());
        }
        Ok(MeshRendererStart { build, calls, warnings: issues })
    }
}


impl MeshRendererBuild {
    /// The work refers to buffers that are there, a piece of work that is
    /// waited for is one of the plan, and the vertices fit a draw call.
    #[verifier::type_invariant]
    spec fn sound(self) -> bool {
        &&& self.vertex_count <= MAX_VERTICES
        &&& self.buffers.len() <= MAX_BUFFERS
        &&& forall|k: int|
            0 <= k < self.plan.len() ==> (#[trigger] self.plan[k] matches PlanItem::Upload {
                buffer,
            } ==> buffer < self.buffers.len())
        &&& self.phase matches MeshPhase::Item { cursor } ==> cursor < self.plan.len()
            && self.buffer_ids.len() == self.buffers.len()
    }

    /// Goes on to the piece of work `index` after the calls `first`, or
    /// ends the building if no work is left.
    fn proceed(self, first: Vec<GlCall>, index: usize) -> (step: Step<
        MeshRendererBuild,
        MeshRendererReport,
    >)
        requires
            self.buffer_ids.len() == self.buffers.len(),
        ensures
            mesh_step_view(step) == self@.proceed(first.deep_view(), index as int),
    {
        proof {
            use_type_invariant(&self);
        }
        let MeshRendererBuild {
            program,
            shader,
            draw_mode,
            transform,
            transform_uniform,
            buffers,
            plan,
            vertex_count,
            phase: _,
            vao_id,
            buffer_ids,
            diagnostics,
        } = self;
        let mut calls = first;
        let ghost issued = calls.deep_view();
        if index < plan.len() {
            match &plan[index] {
                PlanItem::Upload { buffer } => {
                    let id = buffer_ids[*buffer];
                    let data = words_to_bytes(&buffers[*buffer]);
                    proof {
                        assert(buffers[*buffer as int].deep_view() =~= buffers[*buffer as int]@);
                    }
                    calls.push(GlCall::BindBuffer { target: ARRAY_BUFFER, buffer: id });
                    calls.push(GlCall::NamedBufferData { buffer: id, data, usage: STATIC_DRAW });
                    assert(calls.deep_view() =~= issued + self@.item_calls(index as int));
                },
                PlanItem::Locate { name, .. } => {
                    calls.push(GlCall::GetAttribLocation { program, name: name.clone() });
                    assert(calls.deep_view() =~= issued + self@.item_calls(index as int));
                },
            }
            Step::Call {
                next: MeshRendererBuild {
                    program,
                    shader,
                    draw_mode,
                    transform,
                    transform_uniform,
                    buffers,
                    plan,
                    vertex_count,
                    phase: MeshPhase::Item { cursor: index },
                    vao_id,
                    buffer_ids,
                    diagnostics,
                },
                calls,
            }
        } else {
            calls.push(GlCall::BindBuffer { target: ARRAY_BUFFER, buffer: 0 });
            calls.push(GlCall::BindVertexArray { array: 0 });
            assert(calls.deep_view() =~= issued + seq![
                GlCallView::BindBuffer { target: ARRAY_BUFFER, buffer: 0 },
                GlCallView::BindVertexArray { array: 0 },
            ]);
            Step::Done {
                calls,
                result: MeshRendererReport {
                    renderer: MeshRenderer {
                        shader,
                        vao_id,
                        draw_mode,
                        vertex_count,
                        buffer_ids,
                        transform,
                        transform_uniform,
                    },
                    diagnostics,
                },
            }
        }
    }

    /// Takes the answer to the last call and says what to do next.
    pub fn resume(self, reply: GlReply) -> (step: Step<MeshRendererBuild, MeshRendererReport>)
        ensures
            mesh_step_view(step) == self@.after(reply@),
    {
        proof {
            use_type_invariant(&self);
        }
        let MeshRendererBuild {
            program,
            shader,
            draw_mode,
            transform,
            transform_uniform,
            buffers,
            plan,
            vertex_count,
            phase,
            vao_id,
            buffer_ids,
            diagnostics,
        } = self;
        let mut diagnostics = diagnostics;
        match (phase, reply) {
            (MeshPhase::VertexArray, GlReply::Names(names)) if names.len() == 1 => {
                let mut calls: Vec<GlCall> = Vec::new();
                calls.push(GlCall::BindVertexArray { array: names[0] });
                calls.push(GlCall::GenBuffers { count: buffers.len() as i32 });
                assert(calls.deep_view() =~= seq![
                    GlCallView::BindVertexArray { array: names[0] },
                    GlCallView::GenBuffers { count: buffers.len() as i32 },
                ]);
                assert(self@.buffers.len() == buffers.len());
                Step::Call {
                    next: MeshRendererBuild {
                        program,
                        shader,
                        draw_mode,
                        transform,
                        transform_uniform,
                        buffers,
                        plan,
                        vertex_count,
                        phase: MeshPhase::Buffers,
                        vao_id: names[0],
                        buffer_ids,
                        diagnostics,
                    },
                    calls,
                }
            },
            (MeshPhase::Buffers, GlReply::Names(names)) if names.len() == buffers.len() => {
                let calls: Vec<GlCall> = Vec::new();
                assert(calls.deep_view() =~= Seq::empty());
                assert(self@.buffers.len() == buffers.len());
                let state = MeshRendererBuild {
                    program,
                    shader,
                    draw_mode,
                    transform,
                    transform_uniform,
                    buffers,
                    plan,
                    vertex_count,
                    phase: MeshPhase::Buffers,
                    vao_id,
                    buffer_ids: names,
                    diagnostics,
                };
                state.proceed(calls, 0)
            },
            (MeshPhase::Item { cursor }, reply) => {
                let ghost item = plan[cursor as int]@;
                assert(item == self@.plan[cursor as int]);
                let mut calls: Vec<GlCall> = Vec::new();
                assert(calls.deep_view() =~= Seq::empty());
                let known = match (&plan[cursor], &reply) {
                    (PlanItem::Upload { .. }, GlReply::Done) => true,
                    (PlanItem::Locate { name, size, stride }, GlReply::Integer(location)) => {
                        if *location == -1 {
                            diagnostics.push(MeshDiagnostic::AttributeNotFound { name: name.clone() });
                            assert(diagnostics.deep_view() =~= self@.diagnostics.push(
                                MeshDiagnosticView::AttributeNotFound { name: name@ },
                            ));
                        } else {
                            let index = #[verifier::truncate] (*location as u32);
                            calls.push(
                                GlCall::VertexAttribPointer {
                                    index,
                                    size: *size,
                                    component_type: FLOAT,
                                    normalized: false,
                                    stride: *stride,
                                    offset: 0,
                                },
                            );
                            calls.push(GlCall::EnableVertexArrayAttrib { array: vao_id, index });
                            assert(calls.deep_view() =~= seq![
                                GlCallView::VertexAttribPointer {
                                    index,
                                    size: *size,
                                    component_type: FLOAT,
                                    normalized: false,
                                    stride: *stride,
                                    offset: 0,
                                },
                                GlCallView::EnableVertexArrayAttrib { array: vao_id, index },
                            ]);
                        }
                        true
                    },
                    _ => false,
                };
                let state = MeshRendererBuild {
                    program,
                    shader,
                    draw_mode,
                    transform,
                    transform_uniform,
                    buffers,
                    plan,
                    vertex_count,
                    phase: MeshPhase::Item { cursor },
                    vao_id,
                    buffer_ids,
                    diagnostics,
                };
                if known {
                    state.proceed(calls, cursor + 1)
                } else {
                    Step::OutOfTurn { state }
                }
            },
            (phase, _) => Step::OutOfTurn {
                state: MeshRendererBuild {
                    program,
                    shader,
                    draw_mode,
                    transform,
                    transform_uniform,
                    buffers,
                    plan,
                    vertex_count,
                    phase,
                    vao_id,
                    buffer_ids,
                    diagnostics,
                },
            },
        }
    }
}

impl MeshRenderer {
    /// The vertices fit a draw call.
    #[verifier::type_invariant]
    spec fn bounded(self) -> bool {
        self.vertex_count <= MAX_VERTICES
    }

    /// Starts the description of a mesh renderer.
    pub fn builder() -> (builder: MeshRendererBuilder)
        ensures
            builder@ == (MeshRendererBuilderView {
                buffers: Seq::empty(),
                shader: None,
                draw_mode: None,
                attribute_config: Map::empty(),
                transform: None,
            }),
    {
        let builder = MeshRendererBuilder {
            buffers: Vec::new(),
            shader: None,
            draw_mode: None,
            attribute_config: HashMap::new(),
            transform: None,
        };
        assert(builder@.buffers =~= Seq::empty());
        assert(builder@.attribute_config =~= Map::empty());
        builder
    }

    pub fn vertex_count(&self) -> (count: usize)
        ensures
            count == self@.vertex_count,
    {
        self.vertex_count
    }

    /// Gives the buffers and the vertex array up: the calls that delete
    /// them. The program stays in the registry.
    pub fn release(self) -> (calls: Vec<GlCall>)
        ensures
            calls.deep_view() == self@.release_calls(),
    {
        let mut arrays: Vec<u32> = Vec::new();
        arrays.push(self.vao_id);
        assert(arrays@ =~= seq![self.vao_id]);
        let mut calls: Vec<GlCall> = Vec::new();
        calls.push(GlCall::DeleteBuffers { buffers: clone_names(&self.buffer_ids) });
        calls.push(GlCall::DeleteVertexArrays { arrays });
        assert(calls.deep_view() =~= self@.release_calls());
        calls
    }
}

impl Drawable for MeshRenderer {
    fn draw(&self, programs: &ProgramRegistry) -> (drawn: Result<Vec<GlCall>, RenderError>)
        ensures
            render_result_view(drawn) == self@.draw_calls(programs@),
    {
        proof {
            use_type_invariant(self);
        }
        let program = match programs.get(self.shader) {
            None => {
                return Err(RenderError::ProgramDestroyed);
            },
            Some(program) => program,
        };
        let mut calls: Vec<GlCall> = Vec::new();
        calls.push(program.bind());
        match &self.transform_uniform {
            Some(uniform) => match uniform.set_mat4(programs, &self.transform) {
                Ok(call) => {
                    calls.push(call);
                },
                Err(error) => {
                    return Err(RenderError::Uniform(error));
                },
            },
            None => {},
        }
        calls.push(GlCall::BindVertexArray { array: self.vao_id });
        calls.push(
            GlCall::DrawArrays { mode: self.draw_mode, first: 0, count: self.vertex_count as i32 },
        );
        calls.push(GlCall::BindVertexArray { array: 0 });
        assert(calls.deep_view() =~= self@.draw_calls(programs@)->Ok_0);
        Ok(calls)
    }
}

} // verus!
