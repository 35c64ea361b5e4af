//! What the render loop keeps between frames: the programs by name, the
//! uniforms that follow the camera, and the time of the last frame.

use crate::definitions::{PROJECTION_UNIFORM_NAME, VIEW_TRANSFORM_UNIFORM_NAME};
use crate::gl_call::{GlCall, GlCallView};
use crate::gl_types::{GlFloat, COLOR_BUFFER_BIT, DEPTH_BUFFER_BIT, FLOAT_MAT4};
use crate::program::uniform::{
    Uniform, UniformError, UniformErrorView, UniformKind, UniformView,
};
use crate::program::{ProgramHandle, ProgramIdType, ProgramRegistry, ProgramView, RegistryView};
use vstd::hash_map::StringHashMap;
use vstd::prelude::*;
use vstd::string::StringExecFns;

verus! {

/// What is wrong with the camera uniforms of a program.
#[derive(Clone, Copy, Debug, PartialEq, Eq, Structural)]
pub enum RegistrationWarning {
    /// The program has the projection or the view transform, and not both.
    OneButNotBoth,
    /// The projection is no four-by-four matrix.
    ProjectionNotMat4,
    /// The view transform is no four-by-four matrix.
    ViewTransformNotMat4,
}

/// What became of a program that was handed to the engine.
#[derive(Clone, Copy, Debug, PartialEq, Eq, Structural)]
pub enum Registration {
    /// The handle names no program of the registry. Nothing was registered.
    Unknown,
    /// The program has neither camera uniform: it is drawn the same from
    /// everywhere.
    ViewIndependent,
    /// The program has both camera uniforms, and follows the camera from now on.
    CameraDriven,
    /// The camera uniforms of the program are wrong. It is known by its name
    /// and will not follow the camera.
    Rejected,
}

/// The outcome of a registration and what was noticed about the program.
#[derive(Debug, PartialEq, Eq)]
pub struct RegistrationReport {
    pub outcome: Registration,
    pub warnings: Vec<RegistrationWarning>,
}

/// The two slots of a program that follows the camera. Each takes a
/// four-by-four matrix.
pub struct CameraUniforms {
    view_transform: Uniform,
    projection: Uniform,
}

impl CameraUniforms {
    #[verifier::type_invariant]
    spec fn matrices(self) -> bool {
        &&& self.view_transform@.value_type == FLOAT_MAT4
        &&& self.projection@.value_type == FLOAT_MAT4
    }
}

impl ProgramView {
    /// What is wrong with the camera uniforms of the program.
    pub open spec fn camera_warnings(self) -> Seq<RegistrationWarning> {
        let projection = self.uniform(PROJECTION_UNIFORM_NAME@);
        let view_transform = self.uniform(VIEW_TRANSFORM_UNIFORM_NAME@);
        (if (projection is Some) != (view_transform is Some) {
            seq![RegistrationWarning::OneButNotBoth]
        } else {
            Seq::empty()
        }) + (if projection is Some && projection->0.value_type != FLOAT_MAT4 {
            seq![RegistrationWarning::ProjectionNotMat4]
        } else {
            Seq::empty()
        }) + (if view_transform is Some && view_transform->0.value_type != FLOAT_MAT4 {
            seq![RegistrationWarning::ViewTransformNotMat4]
        } else {
            Seq::empty()
        })
    }

    /// Whether the program follows the camera.
    pub open spec fn registration(self) -> Registration {
        if self.uniform(PROJECTION_UNIFORM_NAME@) is None && self.uniform(
            VIEW_TRANSFORM_UNIFORM_NAME@,
        ) is None {
            Registration::ViewIndependent
        } else if self.camera_warnings().len() == 0 {
            Registration::CameraDriven
        } else {
            Registration::Rejected
        }
    }

    /// A program with exactly one of the two camera uniforms is warned about
    /// and does not follow the camera. One that follows it has both, and
    /// both are four-by-four matrices.
    pub proof fn lemma_registration(self)
        ensures
            (self.uniform(PROJECTION_UNIFORM_NAME@) is Some) != (self.uniform(
                VIEW_TRANSFORM_UNIFORM_NAME@,
            ) is Some) ==> self.registration() == Registration::Rejected
                && self.camera_warnings()[0] == RegistrationWarning::OneButNotBoth,
            self.registration() == Registration::CameraDriven <==> {
                &&& self.uniform(PROJECTION_UNIFORM_NAME@) is Some
                &&& self.uniform(VIEW_TRANSFORM_UNIFORM_NAME@) is Some
                &&& self.uniform(PROJECTION_UNIFORM_NAME@)->0.value_type == FLOAT_MAT4
                &&& self.uniform(VIEW_TRANSFORM_UNIFORM_NAME@)->0.value_type == FLOAT_MAT4
            },
    {
    }
}

/// The write of `matrix` through `slot`.
pub open spec fn matrix_write(slot: UniformView, programs: RegistryView, matrix: [GlFloat; 16])
    -> Result<GlCallView, UniformErrorView> {
    slot.write(
        programs,
        UniformKind::Mat4,
        |program: ProgramIdType|
            GlCallView::ProgramUniformMatrix4fv {
                program,
                location: slot.location,
                count: 1,
                transpose: false,
                matrix,
            },
    )
}

/// The writes of `matrix` through each of `slots`, in order; or the first
/// refusal, and then nothing is to be written.
pub open spec fn matrix_writes(
    slots: Seq<UniformView>,
    programs: RegistryView,
    matrix: [GlFloat; 16],
) -> Result<Seq<GlCallView>, UniformErrorView>
    decreases slots.len(),
{
    if slots.len() == 0 {
        Ok(Seq::empty())
    } else {
        match matrix_writes(slots.drop_last(), programs, matrix) {
            Err(error) => Err(error),
            Ok(calls) => match matrix_write(slots.last(), programs, matrix) {
                Ok(call) => Ok(calls.push(call)),
                Err(error) => Err(error),
            },
        }
    }
}

/// Where the writes are made there is one for each slot, in order, and it
/// goes to the slot's program at the slot's location. Nothing is written
/// through a slot that is not in the list.
pub proof fn lemma_matrix_writes(
    slots: Seq<UniformView>,
    programs: RegistryView,
    matrix: [GlFloat; 16],
)
    requires
        matrix_writes(slots, programs, matrix) is Ok,
    ensures
        matrix_writes(slots, programs, matrix)->Ok_0.len() == slots.len(),
        forall|i: int|
            0 <= i < slots.len() ==> (#[trigger] matrix_writes(slots, programs, matrix)->Ok_0[i])
                == (GlCallView::ProgramUniformMatrix4fv {
                program: programs.program(slots[i].program).id,
                location: slots[i].location,
                count: 1,
                transpose: false,
                matrix,
            }) && programs.is_live(slots[i].program),
    decreases slots.len(),
{
    if slots.len() > 0 {
        lemma_matrix_writes(slots.drop_last(), programs, matrix);
    }
}

/// Whether every one of the slots takes a four-by-four matrix.
pub open spec fn all_matrices(slots: Seq<UniformView>) -> bool {
    forall|i: int| 0 <= i < slots.len() ==> (#[trigger] slots[i]).value_type == FLOAT_MAT4
}

/// Slots that take matrices refuse a matrix only where a program is gone:
/// the writes are made exactly if the program of every slot is in the
/// registry, and otherwise the refusal is that of the first slot whose
/// program is not.
pub proof fn lemma_matrix_refusal(
    slots: Seq<UniformView>,
    programs: RegistryView,
    matrix: [GlFloat; 16],
)
    requires
        all_matrices(slots),
    ensures
        match matrix_writes(slots, programs, matrix) {
            Ok(_) => forall|i: int|
                0 <= i < slots.len() ==> programs.is_live((#[trigger] slots[i]).program),
            Err(error) => exists|i: int| #[trigger]
                is_first_gone(slots, programs, i) && error == (UniformErrorView::ProgramDestroyed {
                    name: slots[i].name,
                }),
        },
    decreases slots.len(),
{
    if slots.len() > 0 {
        let front = slots.drop_last();
        let end = slots.len() - 1;
        assert(all_matrices(front)) by {
            assert forall|i: int| 0 <= i < front.len() implies (#[trigger] front[i]).value_type
                == FLOAT_MAT4 by {
                assert(slots[i].value_type == FLOAT_MAT4);
            }
        }
        lemma_matrix_refusal(front, programs, matrix);
        assert(slots[end].value_type == FLOAT_MAT4);
        match matrix_writes(front, programs, matrix) {
            Ok(_) => {
                assert forall|i: int| 0 <= i < front.len() implies programs.is_live(
                    (#[trigger] slots[i]).program,
                ) by {
                    assert(programs.is_live(front[i].program));
                }
                if !programs.is_live(slots[end].program) {
                    assert(is_first_gone(slots, programs, end));
                }
            },
            Err(error) => {
                let i = choose|i: int| #[trigger]
                    is_first_gone(front, programs, i) && error == (
                    UniformErrorView::ProgramDestroyed { name: front[i].name });
                assert forall|earlier: int| 0 <= earlier < i implies programs.is_live(
                    (#[trigger] slots[earlier]).program,
                ) by {
                    assert(programs.is_live(front[earlier].program));
                }
                assert(is_first_gone(slots, programs, i));
            },
        }
    }
}

/// Whether the slot `index` is the first whose program is not in the registry.
pub open spec fn is_first_gone(slots: Seq<UniformView>, programs: RegistryView, index: int) -> bool {
    &&& 0 <= index < slots.len()
    &&& !programs.is_live(slots[index].program)
    &&& forall|earlier: int|
        0 <= earlier < index ==> programs.is_live((#[trigger] slots[earlier]).program)
}

/// The view-transform slots of the pairs, in order.
spec fn view_slots(pairs: Seq<CameraUniforms>) -> Seq<UniformView> {
    Seq::new(pairs.len(), |i: int| pairs[i].view_transform@)
}

/// The projection slots of the pairs, in order.
spec fn projection_slots(pairs: Seq<CameraUniforms>) -> Seq<UniformView> {
    Seq::new(pairs.len(), |i: int| pairs[i].projection@)
}

/// The state of the render loop.
pub struct Engine {
    programs: StringHashMap<ProgramHandle>,
    camera_uniforms: Vec<CameraUniforms>,
    last_frame_time: Option<u64>,
}

pub struct EngineView {
    /// The programs that were registered, by the name they were registered under.
    pub programs: Map<Seq<char>, ProgramHandle>,
    /// The view-transform slot of each program that follows the camera.
    pub view_transform_uniforms: Seq<UniformView>,
    /// The projection slot of each program that follows the camera.
    pub projection_uniforms: Seq<UniformView>,
    /// When the last frame was, if there was one.
    pub last_frame_time: Option<u64>,
}

impl View for Engine {
    type V = EngineView;

    closed spec fn view(&self) -> EngineView {
        EngineView {
            programs: self.programs@,
            view_transform_uniforms: view_slots(self.camera_uniforms@),
            projection_uniforms: projection_slots(self.camera_uniforms@),
            last_frame_time: self.last_frame_time,
        }
    }
}

impl EngineView {
    /// Whether the lists are of the programs of `programs`: each pair of
    /// slots carries the handle of one program that is or was in the
    /// registry, and if it still is, the two slots are the camera uniforms
    /// that the program has.
    pub open spec fn agrees_with(self, programs: RegistryView) -> bool {
        &&& self.view_transform_uniforms.len() == self.projection_uniforms.len()
        &&& forall|i: int|
            0 <= i < self.view_transform_uniforms.len() ==> #[trigger] self.pair_agrees(
                programs,
                i,
            )
    }

    /// Whether the pair of slots `index` is of a program of `programs`.
    pub open spec fn pair_agrees(self, programs: RegistryView, index: int) -> bool {
        let handle = self.view_transform_uniforms[index].program;
        &&& self.projection_uniforms[index].program == handle
        &&& handle.index < programs.slots.len()
        &&& programs.is_live(handle) ==> {
            &&& programs.program(handle).uniform(VIEW_TRANSFORM_UNIFORM_NAME@) == Some(
                self.view_transform_uniforms[index],
            )
            &&& programs.program(handle).uniform(PROJECTION_UNIFORM_NAME@) == Some(
                self.projection_uniforms[index],
            )
        }
    }

    /// Lists that are of the programs of a registry are still of them
    /// after programs have entered the registry and others have left it.
    pub proof fn lemma_agreement_lasts(self, before: RegistryView, after: RegistryView)
        requires
            self.agrees_with(before),
            before.slots.len() <= after.slots.len(),
            forall|i: int|
                0 <= i < before.slots.len() ==> #[trigger] after.slots[i] == before.slots[i]
                    || after.slots[i] is None,
        ensures
            self.agrees_with(after),
    {
        assert forall|i: int| 0 <= i < self.view_transform_uniforms.len() implies #[trigger] self.pair_agrees(
            after,
            i,
        ) by {
            assert(self.pair_agrees(before, i));
            let handle = self.view_transform_uniforms[i].program;
            assert(after.slots[handle.index as int] == before.slots[handle.index as int]
                || after.slots[handle.index as int] is None);
        }
    }

    /// Where the programs of a registry own their slots, lists that are of
    /// its programs are still of them after one of them is registered.
    pub proof fn lemma_registration_agrees(
        self,
        programs: RegistryView,
        name: Seq<char>,
        handle: ProgramHandle,
    )
        requires
            programs.well_formed(),
            self.agrees_with(programs),
            programs.is_live(handle),
        ensures
            self.with_program(name, handle, programs.program(handle)).agrees_with(programs),
    {
        let program = programs.program(handle);
        let after = self.with_program(name, handle, program);
        let count = self.view_transform_uniforms.len() as int;
        assert(programs.is_live(ProgramHandle { index: handle.index }));
        assert(program.owns_slots(handle));
        program.lemma_registration();
        assert forall|i: int| 0 <= i < after.view_transform_uniforms.len() implies #[trigger] after.pair_agrees(
            programs,
            i,
        ) by {
            if i < count {
                assert(self.pair_agrees(programs, i));
            } else {
                assert(program.uniforms.contains_key(VIEW_TRANSFORM_UNIFORM_NAME@));
                assert(program.uniforms.contains_key(PROJECTION_UNIFORM_NAME@));
            }
        }
    }

    /// A program with exactly one of the two camera uniforms is not taken
    /// into the lists when it is registered, and no slot of the lists is
    /// its own: whatever is written through the lists, nothing is written
    /// to this program.
    pub proof fn lemma_half_camera_program_gets_no_write(
        self,
        programs: RegistryView,
        name: Seq<char>,
        handle: ProgramHandle,
    )
        requires
            self.agrees_with(programs),
            programs.is_live(handle),
            (programs.program(handle).uniform(PROJECTION_UNIFORM_NAME@) is Some) != (
            programs.program(handle).uniform(VIEW_TRANSFORM_UNIFORM_NAME@) is Some),
        ensures
            ({
                let after = self.with_program(name, handle, programs.program(handle));
                &&& after.view_transform_uniforms == self.view_transform_uniforms
                &&& after.projection_uniforms == self.projection_uniforms
                &&& after.agrees_with(programs)
                &&& forall|i: int|
                    0 <= i < after.view_transform_uniforms.len() ==> (
                    #[trigger] after.view_transform_uniforms[i]).program != handle
                &&& forall|i: int|
                    0 <= i < after.projection_uniforms.len() ==> (
                    #[trigger] after.projection_uniforms[i]).program != handle
            }),
    {
        programs.program(handle).lemma_registration();
        let after = self.with_program(name, handle, programs.program(handle));
        assert forall|i: int| 0 <= i < after.view_transform_uniforms.len() implies #[trigger] after.pair_agrees(
            programs,
            i,
        ) by {
            assert(self.pair_agrees(programs, i));
        }
        assert forall|i: int| 0 <= i < after.view_transform_uniforms.len() implies (
        #[trigger] after.view_transform_uniforms[i]).program != handle by {
            assert(self.pair_agrees(programs, i));
        }
        assert forall|i: int| 0 <= i < after.projection_uniforms.len() implies (
        #[trigger] after.projection_uniforms[i]).program != handle by {
            assert(self.pair_agrees(programs, i));
        }
    }

    /// The engine after the program `program`, which is the one at
    /// `handle`, was registered as `name`: it is known by the name, and if
    /// it follows the camera its two slots are the last of the lists.
    pub open spec fn with_program(self, name: Seq<char>, handle: ProgramHandle, program: ProgramView)
        -> EngineView {
        let known = EngineView { programs: self.programs.insert(name, handle), ..self };
        if program.registration() == Registration::CameraDriven {
            EngineView {
                view_transform_uniforms: self.view_transform_uniforms.push(
                    program.uniform(VIEW_TRANSFORM_UNIFORM_NAME@)->0,
                ),
                projection_uniforms: self.projection_uniforms.push(
                    program.uniform(PROJECTION_UNIFORM_NAME@)->0,
                ),
                ..known
            }
        } else {
            known
        }
    }

    /// The writes that give the first `count` programs that follow the
    /// camera their first matrices: each program the projection, then the
    /// view transform; or the first refusal.
    pub open spec fn first_writes(
        self,
        programs: RegistryView,
        projection: [GlFloat; 16],
        view_transform: [GlFloat; 16],
        count: int,
    ) -> Result<Seq<GlCallView>, UniformErrorView>
        decreases count,
    {
        if count <= 0 {
            Ok(Seq::empty())
        } else {
            match self.first_writes(programs, projection, view_transform, count - 1) {
                Err(error) => Err(error),
                Ok(calls) => match matrix_write(
                    self.projection_uniforms[count - 1],
                    programs,
                    projection,
                ) {
                    Err(error) => Err(error),
                    Ok(first) => match matrix_write(
                        self.view_transform_uniforms[count - 1],
                        programs,
                        view_transform,
                    ) {
                        Err(error) => Err(error),
                        Ok(second) => Ok(calls.push(first).push(second)),
                    },
                },
            }
        }
    }

    /// A refusal among the first `count` programs is the outcome for more of them.
    pub proof fn lemma_first_refusal_stands(
        self,
        programs: RegistryView,
        projection: [GlFloat; 16],
        view_transform: [GlFloat; 16],
        count: int,
        more: int,
    )
        requires
            count <= more,
            self.first_writes(programs, projection, view_transform, count) is Err,
        ensures
            self.first_writes(programs, projection, view_transform, more) == self.first_writes(
                programs,
                projection,
                view_transform,
                count,
            ),
        decreases more - count,
    {
        if count < more {
            self.lemma_first_refusal_stands(programs, projection, view_transform, count, more - 1);
        }
    }

    /// The elapsed time that a frame at `now` is given.
    pub open spec fn delta(self, now: u64) -> u64 {
        match self.last_frame_time {
            Some(last) if now >= last => (now - last) as u64,
            _ => 0,
        }
    }
}

/// Appends the writes of `matrix` through the projection slots, or through
/// the view-transform slots, of each of the pairs.
fn write_all(
    slots: &Vec<CameraUniforms>,
    projection: bool,
    programs: &ProgramRegistry,
    matrix: &[GlFloat; 16],
    calls: &mut Vec<GlCall>,
) -> (written: Result<(), UniformError>)
    ensures
        match matrix_writes(
            if projection {
                projection_slots(slots@)
            } else {
                view_slots(slots@)
            },
            programs@,
            *matrix,
        ) {
            Ok(writes) => written is Ok && final(calls).deep_view() == old(calls).deep_view() + writes,
            Err(error) => written is Err && written->Err_0@ == error && error is ProgramDestroyed,
        },
{
    let ghost all = if projection {
        projection_slots(slots@)
    } else {
        view_slots(slots@)
    };
    let ghost before = calls.deep_view();
    let mut i: usize = 0;
    assert(all.take(0) =~= Seq::empty());
    assert(calls.deep_view() =~= before + Seq::empty());
    while i < slots.len()
        invariant
            i <= slots.len(),
            all == if projection {
                projection_slots(slots@)
            } else {
                view_slots(slots@)
            },
            matrix_writes(all.take(i as int), programs@, *matrix) is Ok,
            calls.deep_view() == before + matrix_writes(all.take(i as int), programs@, *matrix)->Ok_0,
        decreases slots.len() - i,
    {
        let pair = &slots[i];
        let slot = if projection {
            &pair.projection
        } else {
            &pair.view_transform
        };
        proof {
            use_type_invariant(pair);
            assert(all.take(i + 1).drop_last() =~= all.take(i as int));
            assert(all.take(i + 1).last() == slot@);
        }
        let ghost issued = calls.deep_view();
        match slot.set_mat4(programs, matrix) {
            Ok(call) => {
                calls.push(call);
                assert(calls.deep_view() =~= issued.push(call@));
                assert(calls.deep_view() =~= before + matrix_writes(
                    all.take(i + 1),
                    programs@,
                    *matrix,
                )->Ok_0);
            },
            Err(error) => {
                proof {
                    lemma_refusal_stands(all, i + 1, programs@, *matrix);
                }
                return Err(error);
            },
        }
        i += 1;
    }
    assert(all.take(i as int) =~= all);
    Ok(())
}

/// A refusal among the first `count` slots is the outcome for all of them.
proof fn lemma_refusal_stands(
    slots: Seq<UniformView>,
    count: int,
    programs: RegistryView,
    matrix: [GlFloat; 16],
)
    requires
        0 <= count <= slots.len(),
        matrix_writes(slots.take(count), programs, matrix) is Err,
    ensures
        matrix_writes(slots, programs, matrix) == matrix_writes(slots.take(count), programs, matrix),
    decreases slots.len() - count,
{
    if count < slots.len() {
        assert(slots.take(count + 1).drop_last() =~= slots.take(count));
        lemma_refusal_stands(slots, count + 1, programs, matrix);
    } else {
        assert(slots.take(count) =~= slots);
    }
}

impl Engine {
    /// An engine that knows no program and has seen no frame.
    pub fn new() -> (engine: Engine)
        ensures
            engine@ == (EngineView {
                programs: Map::empty(),
                view_transform_uniforms: Seq::empty(),
                projection_uniforms: Seq::empty(),
                last_frame_time: None,
            }),
            forall|programs: RegistryView| #[trigger] engine@.agrees_with(programs),
    {
        let engine = Engine {
            programs: StringHashMap::new(),
            camera_uniforms: Vec::new(),
            last_frame_time: None,
        };
        assert(engine@.view_transform_uniforms =~= Seq::empty());
        assert(engine@.projection_uniforms =~= Seq::empty());
        engine
    }

    /// The program that was registered as `name`, if there is one.
    pub fn program(&self, name: &str) -> (handle: Option<ProgramHandle>)
        ensures
            handle == if self@.programs.contains_key(name@) {
                Some(self@.programs[name@])
            } else {
                None
            },
    {
        match self.programs.get(name) {
            Some(handle) => Some(*handle),
            None => None,
        }
    }

    /// Makes a program known by a name and, if it has the two camera
    /// uniforms as four-by-four matrices, has it follow the camera. A
    /// program with neither is drawn the same from everywhere. Any other
    /// program is warned about and does not follow the camera.
    pub fn register_program(&mut self, name: &str, handle: ProgramHandle, programs: &ProgramRegistry)
        -> (report: RegistrationReport)
        ensures
            if programs@.is_live(handle) {
                &&& report.outcome == programs@.program(handle).registration()
                &&& report.warnings@ == programs@.program(handle).camera_warnings()
                &&& final(self)@ == old(self)@.with_program(name@, handle, programs@.program(handle))
            } else {
                &&& report.outcome == Registration::Unknown
                &&& report.warnings@ == Seq::<RegistrationWarning>::empty()
                &&& final(self)@ == old(self)@
            },
            programs@.well_formed() && old(self)@.agrees_with(programs@) ==> final(self)@.agrees_with(
                programs@,
            ),
    {
        let mut warnings: Vec<RegistrationWarning> = Vec::new();
        let program = match programs.get(handle) {
            None => {
                return RegistrationReport { outcome: Registration::Unknown, warnings };
            },
            Some(program) => program,
        };
        self.programs.insert(String::from_str(name), handle);
        let projection = program.uniform(PROJECTION_UNIFORM_NAME);
        let view_transform = program.uniform(VIEW_TRANSFORM_UNIFORM_NAME);
        let has_projection = projection.is_some();
        let is_projection_type_ok = match projection {
            Some(uniform) => uniform.value_type() == FLOAT_MAT4,
            None => false,
        };
        let has_view_transform = view_transform.is_some();
        let is_view_transform_type_ok = match view_transform {
            Some(uniform) => uniform.value_type() == FLOAT_MAT4,
            None => false,
        };
        if has_projection != has_view_transform {
            warnings.push(RegistrationWarning::OneButNotBoth);
        }
        if has_projection && !is_projection_type_ok {
            warnings.push(RegistrationWarning::ProjectionNotMat4);
        }
        if has_view_transform && !is_view_transform_type_ok {
            warnings.push(RegistrationWarning::ViewTransformNotMat4);
        }
        assert(warnings@ =~= program@.camera_warnings());
        proof {
            if programs@.well_formed() && old(self)@.agrees_with(programs@) {
                old(self)@.lemma_registration_agrees(programs@, name@, handle);
            }
        }
        if !(has_projection || has_view_transform) {
            assert(self@.view_transform_uniforms =~= old(self)@.view_transform_uniforms);
            assert(self@.projection_uniforms =~= old(self)@.projection_uniforms);
            return RegistrationReport { outcome: Registration::ViewIndependent, warnings };
        }
        if warnings.len() == 0 {
            let pair = CameraUniforms {
                view_transform: view_transform.unwrap().duplicate(),
                projection: projection.unwrap().duplicate(),
            };
            self.camera_uniforms.push(pair);
            assert(self@.view_transform_uniforms =~= old(self)@.view_transform_uniforms.push(
                program@.uniform(VIEW_TRANSFORM_UNIFORM_NAME@)->0,
            ));
            assert(self@.projection_uniforms =~= old(self)@.projection_uniforms.push(
                program@.uniform(PROJECTION_UNIFORM_NAME@)->0,
            ));
            RegistrationReport { outcome: Registration::CameraDriven, warnings }
        } else {
            assert(self@.view_transform_uniforms =~= old(self)@.view_transform_uniforms);
            assert(self@.projection_uniforms =~= old(self)@.projection_uniforms);
            RegistrationReport { outcome: Registration::Rejected, warnings }
        }
    }

    /// The calls that give every program that follows the camera its first
    /// matrices, program by program: the projection, then the view
    /// transform; or the first refusal, and then nothing is to be issued. A slot of the
    /// engine refuses only where its program is gone.
    pub fn init_point_of_view(
        &self,
        programs: &ProgramRegistry,
        projection: &[GlFloat; 16],
        view_transform: &[GlFloat; 16],
    ) -> (calls: Result<Vec<GlCall>, UniformError>)
        ensures
            match self@.first_writes(
                programs@,
                *projection,
                *view_transform,
                self@.projection_uniforms.len() as int,
            ) {
                Ok(writes) => calls is Ok && calls->Ok_0.deep_view() == writes,
                Err(error) => calls is Err && calls->Err_0@ == error
                    && error is ProgramDestroyed,
            },
    {
        let mut calls: Vec<GlCall> = Vec::new();
        let ghost view = self@;
        let mut i: usize = 0;
        assert(calls.deep_view() =~= Seq::empty());
        while i < self.camera_uniforms.len()
            invariant
                i <= self.camera_uniforms.len(),
                view == self@,
                view.first_writes(programs@, *projection, *view_transform, i as int) == Ok::<
                    Seq<GlCallView>,
                    UniformErrorView,
                >(calls.deep_view()),
            decreases self.camera_uniforms.len() - i,
        {
            let pair = &self.camera_uniforms[i];
            proof {
                use_type_invariant(pair);
            }
            let ghost issued = calls.deep_view();
            match pair.projection.set_mat4(programs, projection) {
                Ok(call) => {
                    calls.push(call);
                    assert(calls.deep_view() =~= issued.push(call@));
                },
                Err(error) => {
                    proof {
                        view.lemma_first_refusal_stands(
                            programs@,
                            *projection,
                            *view_transform,
                            i + 1,
                            view.projection_uniforms.len() as int,
                        );
                    }
                    return Err(error);
                },
            }
            let ghost issued = calls.deep_view();
            match pair.view_transform.set_mat4(programs, view_transform) {
                Ok(call) => {
                    calls.push(call);
                    assert(calls.deep_view() =~= issued.push(call@));
                },
                Err(error) => {
                    proof {
                        view.lemma_first_refusal_stands(
                            programs@,
                            *projection,
                            *view_transform,
                            i + 1,
                            view.projection_uniforms.len() as int,
                        );
                    }
                    return Err(error);
                },
            }
            i += 1;
        }
        Ok(calls)
    }

    /// The calls that give a new projection to every program that follows
    /// the camera; or the first refusal, and then nothing is to be issued. A slot of the
    /// engine refuses only where its program is gone.
    pub fn update_perspective(&self, programs: &ProgramRegistry, projection: &[GlFloat; 16]) -> (calls:
        Result<Vec<GlCall>, UniformError>)
        ensures
            match matrix_writes(self@.projection_uniforms, programs@, *projection) {
                Ok(writes) => calls is Ok && calls->Ok_0.deep_view() == writes,
                Err(error) => calls is Err && calls->Err_0@ == error
                    && error is ProgramDestroyed,
            },
    {
        let mut calls: Vec<GlCall> = Vec::new();
        assert(calls.deep_view() =~= Seq::empty());
        match write_all(&self.camera_uniforms, true, programs, projection, &mut calls) {
            Ok(()) => {
                assert(calls.deep_view() =~= matrix_writes(
                    self@.projection_uniforms,
                    programs@,
                    *projection,
                )->Ok_0);
                Ok(calls)
            },
            Err(error) => Err(error),
        }
    }

    /// The calls that start a frame: the frame is cleared, colour and depth,
    /// and every program that follows the camera is given the view
    /// transform; or the first refusal, and then nothing is to be issued. A slot of the
    /// engine refuses only where its program is gone.
    pub fn display(&self, programs: &ProgramRegistry, view_transform: &[GlFloat; 16]) -> (calls:
        Result<Vec<GlCall>, UniformError>)
        ensures
            match matrix_writes(self@.view_transform_uniforms, programs@, *view_transform) {
                Ok(writes) => calls is Ok && calls->Ok_0.deep_view() == seq![
                    GlCallView::Clear { mask: COLOR_BUFFER_BIT | DEPTH_BUFFER_BIT },
                ] + writes,
                Err(error) => calls is Err && calls->Err_0@ == error
                    && error is ProgramDestroyed,
            },
    {
        let mut calls: Vec<GlCall> = Vec::new();
        calls.push(GlCall::Clear { mask: COLOR_BUFFER_BIT | DEPTH_BUFFER_BIT });
        assert(calls.deep_view() =~= seq![
            GlCallView::Clear { mask: COLOR_BUFFER_BIT | DEPTH_BUFFER_BIT },
        ]);
        match write_all(&self.camera_uniforms, false, programs, view_transform, &mut calls) {
            Ok(()) => Ok(calls),
            Err(error) => Err(error),
        }
    }

    /// The time since the last frame for a frame at `now`, on a clock that
    /// does not run backwards, in the unit of the clock. The first frame is
    /// given no time at all. `now` is the last frame from here on.
    pub fn update(&mut self, now: u64) -> (delta: u64)
        ensures
            delta == old(self)@.delta(now),
            final(self)@ == (EngineView { last_frame_time: Some(now), ..old(self)@ }),
    {
        let delta = match self.last_frame_time {
            Some(last) => if now >= last {
                now - last
            } else {
                0
            },
            None => 0,
        };
        self.last_frame_time = Some(now);
        delta
    }
}

} // verus!
