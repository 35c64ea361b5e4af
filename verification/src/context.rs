//! What the calls do to the bindings of the context.
//!
//! The context has one current program and one bound vertex array. This
//! module states what a list of calls leaves current, so that the lists that
//! the library returns can be held to it.

use crate::gl_call::GlCallView;
use crate::gl_types::GlFloat;
use crate::objects::particle_system::ParticleSystemView;
use crate::program::{Program, RegistryView};
use vstd::prelude::*;

verus! {

/// The bindings of a context: the name of the current program and of the
/// bound vertex array, zero for none.
pub struct Bindings {
    pub program: u32,
    pub vertex_array: u32,
}

impl Bindings {
    /// The bindings after one call.
    pub open spec fn after(self, call: GlCallView) -> Bindings {
        match call {
            GlCallView::UseProgram { program } => Bindings { program, ..self },
            GlCallView::BindVertexArray { array } => Bindings { vertex_array: array, ..self },
            _ => self,
        }
    }

    /// The bindings after the first `count` of `calls`, issued in order.
    pub open spec fn after_first(self, calls: Seq<GlCallView>, count: int) -> Bindings
        decreases count,
    {
        if count <= 0 {
            self
        } else {
            self.after_first(calls, count - 1).after(calls[count - 1])
        }
    }

    /// The bindings after `calls`, issued in order.
    pub open spec fn after_all(self, calls: Seq<GlCallView>) -> Bindings {
        self.after_first(calls, calls.len() as int)
    }

    /// Unbinding leaves no program current, whatever was current before, and
    /// unbinding again changes nothing.
    pub proof fn lemma_unbind_idempotent(self)
        ensures
            self.after(Program::unbind_call()).program == 0,
            self.after(Program::unbind_call()).after(Program::unbind_call()) == self.after(
                Program::unbind_call(),
            ),
            self.program == 0 ==> self.after(Program::unbind_call()) == self,
    {
    }

    /// A frame of a particle system is drawn with its vertex array bound and
    /// its display program current, and leaves nothing bound.
    pub proof fn lemma_draw_is_bracketed(self, system: ParticleSystemView, programs: RegistryView)
        requires
            system.draw_calls(programs) is Ok,
        ensures
            ({
                let calls = system.draw_calls(programs)->Ok_0;
                let display = programs.program(system.display_program).id;
                &&& calls[2] is DrawArrays
                &&& forall|i: int| 0 <= i < calls.len() && i != 2 ==> !(calls[i] is DrawArrays)
                &&& self.after_first(calls, 2) == (Bindings {
                    program: display,
                    vertex_array: system.vao_id,
                })
                &&& self.after_all(calls) == (Bindings { program: 0, vertex_array: 0 })
            }),
    {
        let calls = system.draw_calls(programs)->Ok_0;
        reveal_with_fuel(Bindings::after_first, 6);
        assert(calls.len() == 5);
    }

    /// A simulation step launches its work groups once, with the simulation
    /// program current; the barrier is the next call; and the step leaves
    /// nothing bound.
    pub proof fn lemma_update_is_bracketed(
        self,
        system: ParticleSystemView,
        programs: RegistryView,
        delta_time: GlFloat,
    )
        requires
            system.update_calls(programs, delta_time) is Ok,
        ensures
            ({
                let calls = system.update_calls(programs, delta_time)->Ok_0;
                let compute = programs.program(system.compute_program).id;
                let dispatch = calls.len() - 4;
                &&& dispatch >= 2
                &&& calls[dispatch] is DispatchCompute
                &&& calls[dispatch + 1] is MemoryBarrier
                &&& forall|i: int|
                    0 <= i < calls.len() && i != dispatch ==> !(calls[i] is DispatchCompute)
                &&& self.after_first(calls, dispatch).program == compute
                &&& self.after_first(calls, dispatch).vertex_array == system.vao_id
                &&& self.after_all(calls) == (Bindings { program: 0, vertex_array: 0 })
            }),
    {
        let calls = system.update_calls(programs, delta_time)->Ok_0;
        reveal_with_fuel(Bindings::after_first, 8);
        let program = programs.program(system.compute_program);
        if program.uniform(crate::definitions::DELTA_TIME_UNIFORM_NAME@) is Some {
            assert(calls.len() == 7);
        } else {
            assert(calls.len() == 6);
        }
    }
}

} // verus!
