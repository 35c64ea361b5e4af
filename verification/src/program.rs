//! Shader programs, the registry that owns them, and how one is built.

pub mod builder;
pub mod run;
pub mod shader;
pub mod uniform;

use crate::gl_call::{GlCall, GlCallView};
use crate::program::builder::{lemma_stages_present, stages_present, ProgramBuild};
use crate::program::shader::{has_stage, Shader, ShaderHandle, ShaderType, ShaderView};
use crate::program::uniform::{ActiveUniform, ActiveUniformView, Uniform, UniformView};
use vstd::hash_map::StringHashMap;
use vstd::prelude::*;
use vstd::string::StringExecFns;

verus! {

/// The name that OpenGL gives a program object.
pub type ProgramIdType = u32;

/// The place of a program in a [`ProgramRegistry`].
///
/// A handle is a plain number: copying it shares the program without keeping
/// it alive, and it still exists after the program is gone.
#[derive(Clone, Copy, Debug, PartialEq, Eq, Structural)]
pub struct ProgramHandle {
    pub index: usize,
}

/// A linked program.
pub struct Program {
    id: ProgramIdType,
    shaders: Vec<ShaderHandle>,
    shader_flags: u8,
    name: String,
    uniforms: StringHashMap<Uniform>,
}

pub struct ProgramView {
    pub id: ProgramIdType,
    pub shaders: Seq<ShaderHandle>,
    pub shader_flags: u8,
    pub name: Seq<char>,
    pub uniforms: Map<Seq<char>, UniformView>,
}

impl View for Program {
    type V = ProgramView;

    closed spec fn view(&self) -> ProgramView {
        ProgramView {
            id: self.id,
            shaders: self.shaders@,
            shader_flags: self.shader_flags,
            name: self.name@,
            uniforms: self.uniforms@.map_values(|uniform: Uniform| uniform@),
        }
    }
}

/// The slot that stands for one reported uniform of the program at `program`.
pub open spec fn slot_of(reported: ActiveUniformView, program: ProgramHandle) -> UniformView {
    UniformView {
        location: reported.location,
        size: reported.size,
        value_type: reported.value_type,
        name: reported.name,
        program,
    }
}

/// The slots of a program by name, given what the driver reported in order.
/// Of two reports under one name the later stands.
pub open spec fn uniform_map(reported: Seq<ActiveUniformView>, program: ProgramHandle) -> Map<
    Seq<char>,
    UniformView,
>
    decreases reported.len(),
{
    if reported.len() == 0 {
        Map::empty()
    } else {
        uniform_map(reported.drop_last(), program).insert(
            reported.last().name,
            slot_of(reported.last(), program),
        )
    }
}

/// The last of the reports that is under `name`, if there is one.
pub open spec fn last_report(reported: Seq<ActiveUniformView>, name: Seq<char>) -> Option<
    ActiveUniformView,
>
    decreases reported.len(),
{
    if reported.len() == 0 {
        None
    } else if reported.last().name == name {
        Some(reported.last())
    } else {
        last_report(reported.drop_last(), name)
    }
}

/// Whether the report `index` is under `name` and no later report is.
pub open spec fn is_last_under(reported: Seq<ActiveUniformView>, name: Seq<char>, index: int)
    -> bool {
    &&& 0 <= index < reported.len()
    &&& reported[index].name == name
    &&& forall|later: int| index < later < reported.len() ==> (#[trigger] reported[later]).name != name
}

/// The last report under a name is one of the reports, under that name,
/// with no report under the name after it; and there is none exactly if no
/// report is under the name.
pub proof fn lemma_last_report(reported: Seq<ActiveUniformView>, name: Seq<char>)
    ensures
        match last_report(reported, name) {
            Some(report) => exists|index: int| #[trigger]
                is_last_under(reported, name, index) && reported[index] == report,
            None => forall|index: int|
                0 <= index < reported.len() ==> (#[trigger] reported[index]).name != name,
        },
    decreases reported.len(),
{
    if reported.len() > 0 {
        let front = reported.drop_last();
        let end = reported.len() - 1;
        if reported.last().name == name {
            assert(is_last_under(reported, name, end));
        } else {
            lemma_last_report(front, name);
            match last_report(front, name) {
                Some(report) => {
                    let index = choose|index: int| #[trigger]
                        is_last_under(front, name, index) && front[index] == report;
                    assert forall|later: int| index < later < reported.len() implies (
                    #[trigger] reported[later]).name != name by {
                        if later < end {
                            assert(front[later].name != name);
                        }
                    }
                    assert(is_last_under(reported, name, index));
                },
                None => {
                    assert forall|index: int| 0 <= index < reported.len() implies (
                    #[trigger] reported[index]).name != name by {
                        if index < end {
                            assert(front[index].name != name);
                        }
                    }
                },
            }
        }
    }
}

/// A name has a slot exactly if the driver reported a uniform under it, and
/// the slot says what the last report under the name said.
pub proof fn lemma_uniform_map(
    reported: Seq<ActiveUniformView>,
    program: ProgramHandle,
    name: Seq<char>,
)
    ensures
        uniform_map(reported, program).contains_key(name) <==> last_report(reported, name) is Some,
        last_report(reported, name) matches Some(report) ==> uniform_map(reported, program)[name]
            == slot_of(report, program),
    decreases reported.len(),
{
    if reported.len() > 0 {
        lemma_uniform_map(reported.drop_last(), program, name);
    }
}

/// Every slot of [`uniform_map`] is filed under its own name and carries `program`.
pub proof fn lemma_uniform_map_owned(reported: Seq<ActiveUniformView>, program: ProgramHandle)
    ensures
        forall|name: Seq<char>| #[trigger]
            uniform_map(reported, program).contains_key(name) ==> uniform_map(
                reported,
                program,
            )[name].name == name && uniform_map(reported, program)[name].program == program,
    decreases reported.len(),
{
    if reported.len() > 0 {
        let front = uniform_map(reported.drop_last(), program);
        let all = uniform_map(reported, program);
        lemma_uniform_map_owned(reported.drop_last(), program);
        assert forall|name: Seq<char>| #[trigger] all.contains_key(name) implies all[name].name
            == name && all[name].program == program by {
            if name != reported.last().name {
                assert(front.contains_key(name));
            }
        }
    }
}

impl ProgramView {
    /// Whether the program was built with a compute stage.
    pub open spec fn is_compute(self) -> bool {
        has_stage(self.shader_flags, ShaderType::Compute)
    }

    /// Whether a geometry shader is among the shaders that the program holds.
    pub open spec fn has_geometry(self) -> bool {
        has_stage(self.shader_flags, ShaderType::Geometry)
    }

    /// The slot of the uniform `name`, if the program has one.
    pub open spec fn uniform(self, name: Seq<char>) -> Option<UniformView> {
        if self.uniforms.contains_key(name) {
            Some(self.uniforms[name])
        } else {
            None
        }
    }

    /// Whether the mask holds the stages of the shaders that the program
    /// holds, and no others.
    pub open spec fn masks_its_shaders(self) -> bool {
        self.shader_flags == stages_present(self.shaders)
    }

    /// Every slot is filed under its own name and belongs to the program at `handle`.
    pub open spec fn owns_slots(self, handle: ProgramHandle) -> bool {
        forall|name: Seq<char>| #[trigger]
            self.uniforms.contains_key(name) ==> self.uniforms[name].name == name
                && self.uniforms[name].program == handle
    }
}

/// What remains to be done when a program is given up.
pub struct Release {
    /// The calls that delete the program and the shaders that it held.
    pub calls: Vec<GlCall>,
    /// Whether the program was the current one, and is unbound first. A
    /// program should not be given up while it is in use.
    pub was_current: bool,
}

/// The calls that delete the shaders `handles`, in order.
pub open spec fn release_shaders(handles: Seq<ShaderHandle>) -> Seq<GlCallView> {
    Seq::new(handles.len(), |i: int| GlCallView::DeleteShader { shader: handles[i].id })
}

impl Program {
    /// The program `id` called `name`, built with the stages `shader_flags`,
    /// which holds the shaders `shaders` and has the uniforms `reported`.
    pub(crate) fn assemble(
        id: ProgramIdType,
        name: String,
        shader_flags: u8,
        shaders: Vec<ShaderHandle>,
        reported: &Vec<ActiveUniform>,
        handle: ProgramHandle,
    ) -> (program: Program)
        ensures
            program@ == (ProgramView {
                id,
                shaders: shaders@,
                shader_flags,
                name: name@,
                uniforms: uniform_map(reported.deep_view(), handle),
            }),
    {
        let mut uniforms: StringHashMap<Uniform> = StringHashMap::new();
        let ghost slot = |uniform: Uniform| uniform@;
        let mut i: usize = 0;
        assert(uniforms@.map_values(slot) =~= uniform_map(reported.deep_view().take(0), handle));
        while i < reported.len()
            invariant
                i <= reported.len(),
                slot == |uniform: Uniform| uniform@,
                uniforms@.map_values(slot) == uniform_map(
                    reported.deep_view().take(i as int),
                    handle,
                ),
            decreases reported.len() - i,
        {
            let ghost before = uniforms@;
            let entry = &reported[i];
            let uniform = Uniform::new(
                entry.name.clone(),
                entry.location,
                entry.value_type,
                entry.size,
                handle,
            );
            uniforms.insert(entry.name.clone(), uniform);
            proof {
                let views = reported.deep_view();
                assert(views.take(i + 1).drop_last() =~= views.take(i as int));
                assert(views.take(i + 1).last() == reported[i as int]@);
                assert(uniforms@.map_values(slot) =~= before.map_values(slot).insert(
                    entry.name@,
                    slot_of(reported[i as int]@, handle),
                ));
            }
            i += 1;
        }
        assert(reported.deep_view().take(i as int) =~= reported.deep_view());
        Program { id, shaders, shader_flags, name, uniforms }
    }

    /// Starts the description of a program called `name`.
    pub fn builder(name: &str) -> (builder: ProgramBuilder)
        ensures
            builder@ == (ProgramBuilderView { name: name@, shaders: Seq::empty() }),
    {
        let builder = ProgramBuilder { name: String::from_str(name), shaders: Vec::new() };
        assert(builder@.shaders =~= Seq::empty());
        builder
    }

    /// The call that leaves no program current.
    pub open spec fn unbind_call() -> GlCallView {
        GlCallView::UseProgram { program: 0 }
    }

    /// The call that leaves no program current. It speaks of the context, not
    /// of any one program.
    pub fn unbind() -> (call: GlCall)
        ensures
            call@ == Program::unbind_call(),
    {
        GlCall::UseProgram { program: 0 }
    }

    /// The call that makes this program the current one.
    pub fn bind(&self) -> (call: GlCall)
        ensures
            call@ == (GlCallView::UseProgram { program: self@.id }),
    {
        GlCall::UseProgram { program: self.id }
    }

    pub fn is_compute(&self) -> (compute: bool)
        ensures
            compute == self@.is_compute(),
    {
        self.shader_flags & ShaderType::Compute.mask() != 0
    }

    pub fn has_geometry(&self) -> (geometry: bool)
        ensures
            geometry == self@.has_geometry(),
    {
        self.shader_flags & ShaderType::Geometry.mask() != 0
    }

    /// The slot of the uniform called exactly `name`, if the program has one.
    pub fn uniform(&self, name: &str) -> (slot: Option<&Uniform>)
        ensures
            match slot {
                Some(uniform) => self@.uniform(name@) == Some(uniform@),
                None => self@.uniform(name@) is None,
            },
    {
        self.uniforms.get(name)
    }

    pub fn id(&self) -> (id: ProgramIdType)
        ensures
            id == self@.id,
    {
        self.id
    }

    pub fn name(&self) -> (name: &String)
        ensures
            name@ == self@.name,
    {
        &self.name
    }

    /// The stages of the shaders that the program holds, one bit each.
    pub fn shader_flags(&self) -> (flags: u8)
        ensures
            flags == self@.shader_flags,
    {
        self.shader_flags
    }

    /// What giving the program up comes to, where `current_program` is the
    /// program that the context has current.
    pub open spec fn release_calls(program: ProgramView, current_program: ProgramIdType) -> Seq<
        GlCallView,
    > {
        let unbind = if current_program == program.id {
            seq![Program::unbind_call()]
        } else {
            Seq::empty()
        };
        unbind + seq![GlCallView::DeleteProgram { program: program.id }] + release_shaders(
            program.shaders,
        )
    }

    /// Gives the program up. If it is the current program it is unbound
    /// first. Then the program is deleted, and then each shader that it held.
    pub fn release(self, current_program: ProgramIdType) -> (release: Release)
        ensures
            release.calls.deep_view() == Program::release_calls(self@, current_program),
            release.was_current == (current_program == self@.id),
    {
        let mut calls: Vec<GlCall> = Vec::new();
        let was_current = current_program == self.id;
        if was_current {
            calls.push(Program::unbind());
        }
        calls.push(GlCall::DeleteProgram { program: self.id });
        let ghost before = calls.deep_view();
        let mut i: usize = 0;
        while i < self.shaders.len()
            invariant
                i <= self.shaders.len(),
                calls.deep_view() == before + release_shaders(self.shaders@.subrange(0, i as int)),
            decreases self.shaders.len() - i,
        {
            let ghost issued = calls.deep_view();
            calls.push(GlCall::DeleteShader { shader: self.shaders[i].id });
            assert(calls.deep_view() =~= issued.push(
                GlCallView::DeleteShader { shader: self.shaders[i as int].id },
            ));
            assert(release_shaders(self.shaders@.subrange(0, i + 1)) =~= release_shaders(
                self.shaders@.subrange(0, i as int),
            ).push(GlCallView::DeleteShader { shader: self.shaders[i as int].id }));
            i += 1;
        }
        assert(self.shaders@.subrange(0, i as int) =~= self.shaders@);
        Release { calls, was_current }
    }
}

/// The description of a program to build: its name, and its shaders by name
/// in the order in which they were added.
pub struct ProgramBuilder {
    name: String,
    shaders: Vec<(String, Shader)>,
}

pub struct ProgramBuilderView {
    pub name: Seq<char>,
    pub shaders: Seq<(Seq<char>, ShaderView)>,
}

impl View for ProgramBuilder {
    type V = ProgramBuilderView;

    closed spec fn view(&self) -> ProgramBuilderView {
        ProgramBuilderView {
            name: self.name@,
            shaders: named_shaders_view(self.shaders@),
        }
    }
}

/// The views of named shaders, in order.
pub open spec fn named_shaders_view(shaders: Seq<(String, Shader)>) -> Seq<(Seq<char>, ShaderView)> {
    Seq::new(shaders.len(), |i: int| (shaders[i].0@, shaders[i].1@))
}

/// Why a program could not be built.
#[derive(Debug, PartialEq, Eq)]
pub enum ProgramBuildError {
    /// The driver gave no program object.
    CreationFailed,
    /// The linker rejected the program; the text is its log.
    LinkFail(String),
}

pub enum ProgramBuildErrorView {
    CreationFailed,
    LinkFail(Seq<char>),
}

impl View for ProgramBuildError {
    type V = ProgramBuildErrorView;

    open spec fn view(&self) -> ProgramBuildErrorView {
        match *self {
            ProgramBuildError::CreationFailed => ProgramBuildErrorView::CreationFailed,
            ProgramBuildError::LinkFail(log) => ProgramBuildErrorView::LinkFail(log@),
        }
    }
}

impl ProgramBuildErrorView {
    /// The line that reports the error.
    pub open spec fn message(self) -> Seq<char> {
        match self {
            ProgramBuildErrorView::CreationFailed => "program creation failed"@,
            ProgramBuildErrorView::LinkFail(log) => "Program linking failed, link log:\n"@ + log,
        }
    }
}

impl ProgramBuildError {
    /// The line to log for the error, at the level of an error.
    pub fn log_error(&self) -> (message: String)
        ensures
            message@ == self@.message(),
    {
        match self {
            ProgramBuildError::CreationFailed => String::from_str("program creation failed"),
            ProgramBuildError::LinkFail(log) => String::from_str(
                "Program linking failed, link log:\n",
            ).concat(log.as_str()),
        }
    }
}

impl ProgramBuilder {
    /// Starts the building: asks for a program object.
    pub fn build(self) -> (start: (ProgramBuild, Vec<GlCall>))
        ensures
            start.0@ == ProgramBuild::begin(self@),
            start.1.deep_view() == seq![GlCallView::CreateProgram],
    {
        let mut calls: Vec<GlCall> = Vec::new();
        calls.push(GlCall::CreateProgram);
        assert(calls.deep_view() =~= seq![GlCallView::CreateProgram]);
        (ProgramBuild::start(self.name, self.shaders), calls)
    }

    /// Adds a shader under a name. Nothing is compiled yet.
    pub fn add_shader(self, name: &str, shader: Shader) -> (builder: ProgramBuilder)
        ensures
            builder@ == (ProgramBuilderView {
                name: self@.name,
                shaders: self@.shaders.push((name@, shader@)),
            }),
    {
        let mut builder = self;
        builder.shaders.push((String::from_str(name), shader));
        assert(builder@.shaders =~= self@.shaders.push((name@, shader@)));
        builder
    }
}

/// The programs that exist, each in a slot of its own.
///
/// A slot is never used twice: once its program is removed the slot stays
/// empty, so a handle never comes to name another program.
pub struct ProgramRegistry {
    slots: Vec<Option<Program>>,
}

/// The slots of a registry, in order.
pub struct RegistryView {
    pub slots: Seq<Option<ProgramView>>,
}

impl RegistryView {
    /// Whether `handle` names a program that is in the registry.
    pub open spec fn is_live(self, handle: ProgramHandle) -> bool {
        handle.index < self.slots.len() && self.slots[handle.index as int] is Some
    }

    /// The program that `handle` names. Meaningful for a live handle.
    pub open spec fn program(self, handle: ProgramHandle) -> ProgramView {
        self.slots[handle.index as int]->0
    }

    /// Every program owns its slots: they are filed under their names and
    /// carry the handle of the program's place. And the mask of every
    /// program holds the stages of the shaders that the program holds, and
    /// no others.
    pub open spec fn well_formed(self) -> bool {
        forall|index: usize| #[trigger]
            self.is_live(ProgramHandle { index }) ==> self.program(
                ProgramHandle { index },
            ).owns_slots(ProgramHandle { index }) && self.program(
                ProgramHandle { index },
            ).masks_its_shaders()
    }

    /// In a registry of this kind a program is a compute program exactly
    /// if it holds a compute shader, and has geometry exactly if it holds a
    /// geometry shader.
    pub proof fn lemma_stages(self, handle: ProgramHandle)
        requires
            self.well_formed(),
            self.is_live(handle),
        ensures
            self.program(handle).is_compute() <==> exists|i: int|
                0 <= i < self.program(handle).shaders.len() && (#[trigger] self.program(
                    handle,
                ).shaders[i]).shader_type == ShaderType::Compute,
            self.program(handle).has_geometry() <==> exists|i: int|
                0 <= i < self.program(handle).shaders.len() && (#[trigger] self.program(
                    handle,
                ).shaders[i]).shader_type == ShaderType::Geometry,
    {
        assert(self.is_live(ProgramHandle { index: handle.index }));
        lemma_stages_present(self.program(handle).shaders, ShaderType::Compute);
        lemma_stages_present(self.program(handle).shaders, ShaderType::Geometry);
    }
}

impl View for ProgramRegistry {
    type V = RegistryView;

    closed spec fn view(&self) -> RegistryView {
        RegistryView {
            slots: Seq::new(
                self.slots.len() as nat,
                |i: int|
                    match self.slots[i] {
                        Some(program) => Some(program@),
                        None => None,
                    },
            ),
        }
    }
}

impl ProgramRegistry {
    /// A registry without programs.
    pub fn new() -> (registry: ProgramRegistry)
        ensures
            registry@.slots == Seq::<Option<ProgramView>>::empty(),
            registry@.well_formed(),
    {
        let registry = ProgramRegistry { slots: Vec::new() };
        assert(registry@.slots =~= Seq::<Option<ProgramView>>::empty());
        registry
    }

    /// The handle that the next program to enter the registry will get.
    pub fn next_handle(&self) -> (handle: ProgramHandle)
        ensures
            handle.index == self@.slots.len(),
    {
        ProgramHandle { index: self.slots.len() }
    }

    /// Puts a program into a slot of its own.
    pub(crate) fn insert(&mut self, program: Program) -> (handle: ProgramHandle)
        ensures
            handle.index == old(self)@.slots.len(),
            final(self)@.slots == old(self)@.slots.push(Some(program@)),
            old(self)@.well_formed() && program@.owns_slots(handle) && program@.masks_its_shaders()
                ==> final(self)@.well_formed(),
    {
        let handle = ProgramHandle { index: self.slots.len() };
        self.slots.push(Some(program));
        proof {
            assert(self@.slots =~= old(self)@.slots.push(Some(program@)));
            if old(self)@.well_formed() && program@.owns_slots(handle)
                && program@.masks_its_shaders() {
                assert forall|index: usize| #[trigger]
                    self@.is_live(ProgramHandle { index }) implies self@.program(
                    ProgramHandle { index },
                ).owns_slots(ProgramHandle { index }) && self@.program(
                    ProgramHandle { index },
                ).masks_its_shaders() by {
                    if index != handle.index {
                        assert(old(self)@.is_live(ProgramHandle { index }));
                    }
                }
            }
        }
        handle
    }

    /// Takes the program that `handle` names out of the registry and gives it
    /// up, where `current_program` is the program that the context has
    /// current. The slot stays empty: every slot of the program is stale
    /// from now on.
    pub fn remove(&mut self, handle: ProgramHandle, current_program: ProgramIdType) -> (release:
        Option<Release>)
        ensures
            match release {
                Some(release) => old(self)@.is_live(handle) && final(self)@.slots == old(
                    self,
                )@.slots.update(handle.index as int, None) && release.calls.deep_view()
                    == Program::release_calls(old(self)@.program(handle), current_program)
                    && release.was_current == (current_program == old(self)@.program(handle).id),
                None => !old(self)@.is_live(handle) && final(self)@ == old(self)@,
            },
            old(self)@.well_formed() ==> final(self)@.well_formed(),
    {
        if handle.index >= self.slots.len() {
            return None;
        }
        let mut slot: Option<Program> = None;
        core::mem::swap(&mut slot, &mut self.slots[handle.index]);
        proof {
            assert(self@.slots =~= old(self)@.slots.update(handle.index as int, None));
            if old(self)@.well_formed() {
                assert forall|index: usize| #[trigger]
                    self@.is_live(ProgramHandle { index }) implies self@.program(
                    ProgramHandle { index },
                ).owns_slots(ProgramHandle { index }) && self@.program(
                    ProgramHandle { index },
                ).masks_its_shaders() by {
                    assert(old(self)@.is_live(ProgramHandle { index }));
                }
            }
        }
        match slot {
            Some(program) => Some(program.release(current_program)),
            None => {
                assert(self@.slots =~= old(self)@.slots);
                None
            },
        }
    }

    /// The program that `handle` names, if it is in the registry.
    pub fn get(&self, handle: ProgramHandle) -> (program: Option<&Program>)
        ensures
            match program {
                Some(program) => self@.is_live(handle) && program@ == self@.program(handle),
                None => !self@.is_live(handle),
            },
    {
        if handle.index < self.slots.len() {
            self.slots[handle.index].as_ref()
        } else {
            None
        }
    }
}

} // verus!
