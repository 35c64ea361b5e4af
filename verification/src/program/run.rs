//! What the building of a program comes to, for everything that the driver
//! may answer.

use crate::conversation::StepView;
use crate::gl_call::GlReplyView;
use crate::gl_types::TRUE;
use crate::program::builder::{
    name_capacity, stages_of, stages_present, BuildDiagnosticView, BuildPhaseView, BuildReportView, ProgramBuild,
    ProgramBuildView,
};
use crate::program::shader::{
    has_stage, Awaiting, ShaderCompilation, ShaderCompilationView, ShaderHandle, ShaderView,
};
use crate::program::uniform::ActiveUniformView;
use crate::program::{
    uniform_map, ProgramBuildErrorView, ProgramBuilderView, ProgramHandle, ProgramView,
};
use vstd::prelude::*;

verus! {

/// What the driver answers in the course of one compilation. The log and
/// its length are asked for only if the status is not `TRUE`.
pub struct CompileAnswers {
    pub id: u32,
    pub status: i32,
    pub log_length: i32,
    pub log: Seq<char>,
}

/// What the driver answers in the course of one build, as far as it is
/// asked: the compilations in the order of the shaders, and the uniforms
/// in the order of their indices.
pub struct BuildAnswers {
    pub program: u32,
    pub shaders: Seq<CompileAnswers>,
    pub link_status: i32,
    pub link_log_length: i32,
    pub link_log: Seq<char>,
    pub name_length: i32,
    pub uniform_count: i32,
    pub uniforms: Seq<ActiveUniformView>,
}

/// Where a conversation stands after some answers.
pub enum Run {
    /// It waits for the next answer.
    Waiting(ProgramBuildView),
    /// It ended with the last answer.
    Finished(BuildReportView),
    /// An answer came out of turn, or after the end.
    Astray,
}

/// Where the building stands after the answers `replies`, one after the
/// other, where `handle` is the slot that a new program would get.
pub open spec fn run(state: ProgramBuildView, replies: Seq<GlReplyView>, handle: ProgramHandle)
    -> Run
    decreases replies.len(),
{
    if replies.len() == 0 {
        Run::Waiting(state)
    } else {
        match state.after(replies.first(), handle) {
            StepView::Call { next, .. } => run(next, replies.drop_first(), handle),
            StepView::Done { result, .. } => if replies.len() == 1 {
                Run::Finished(result)
            } else {
                Run::Astray
            },
            StepView::OutOfTurn { .. } => Run::Astray,
        }
    }
}

/// The answers of one compilation, in the order in which they are given.
pub open spec fn compile_replies(answers: CompileAnswers) -> Seq<GlReplyView> {
    if answers.status == TRUE {
        seq![GlReplyView::Name(answers.id), GlReplyView::Integer(answers.status)]
    } else {
        seq![
            GlReplyView::Name(answers.id),
            GlReplyView::Integer(answers.status),
            GlReplyView::Integer(answers.log_length),
            GlReplyView::Text(answers.log),
        ]
    }
}

/// The answers of the first `count` compilations.
pub open spec fn shader_replies(answers: Seq<CompileAnswers>, count: int) -> Seq<GlReplyView>
    decreases count,
{
    if count <= 0 {
        Seq::empty()
    } else {
        shader_replies(answers, count - 1) + compile_replies(answers[count - 1])
    }
}

/// The two answers about the uniform `index`: its description, then its
/// location.
pub open spec fn uniform_pair(uniforms: Seq<ActiveUniformView>, index: int) -> Seq<GlReplyView> {
    seq![
        GlReplyView::ActiveUniform {
            name: uniforms[index].name,
            size: uniforms[index].size,
            value_type: uniforms[index].value_type,
        },
        GlReplyView::Integer(uniforms[index].location),
    ]
}

/// The answers about the first `count` uniforms.
pub open spec fn uniform_replies(uniforms: Seq<ActiveUniformView>, count: int) -> Seq<GlReplyView>
    decreases count,
{
    if count <= 0 {
        Seq::empty()
    } else {
        uniform_replies(uniforms, count - 1) + uniform_pair(uniforms, count - 1)
    }
}

/// The answers of a whole build, in the order in which they are given.
pub open spec fn replies(answers: BuildAnswers) -> Seq<GlReplyView> {
    let count = answers.shaders.len() as int;
    if answers.program == 0 {
        seq![GlReplyView::Name(answers.program)]
    } else if answers.link_status != TRUE {
        seq![GlReplyView::Name(answers.program)] + shader_replies(answers.shaders, count) + seq![
            GlReplyView::Integer(answers.link_status),
            GlReplyView::Integer(answers.link_log_length),
            GlReplyView::Text(answers.link_log),
        ]
    } else {
        seq![GlReplyView::Name(answers.program)] + shader_replies(answers.shaders, count) + seq![
            GlReplyView::Integer(answers.link_status),
            GlReplyView::Integer(answers.name_length),
            GlReplyView::Integer(answers.uniform_count),
        ] + uniform_replies(answers.uniforms, answers.uniforms.len() as int)
    }
}

/// The handles of those of the first `count` shaders that compiled.
pub open spec fn compiled(
    shaders: Seq<(Seq<char>, ShaderView)>,
    answers: Seq<CompileAnswers>,
    count: int,
) -> Seq<ShaderHandle>
    decreases count,
{
    if count <= 0 {
        Seq::empty()
    } else {
        let rest = compiled(shaders, answers, count - 1);
        if answers[count - 1].status == TRUE {
            rest.push(
                ShaderHandle {
                    shader_type: shaders[count - 1].1.shader_type,
                    id: answers[count - 1].id,
                },
            )
        } else {
            rest
        }
    }
}

/// What is noticed about the first `count` shaders: of each that its stage
/// was there before, if it was, and then that it did not compile, if it
/// did not.
pub open spec fn noticed(
    shaders: Seq<(Seq<char>, ShaderView)>,
    answers: Seq<CompileAnswers>,
    count: int,
) -> Seq<BuildDiagnosticView>
    decreases count, 0int,
{
    if count <= 0 {
        Seq::empty()
    } else {
        let entered = entering(shaders, answers, count - 1);
        if answers[count - 1].status == TRUE {
            entered
        } else {
            entered.push(
                BuildDiagnosticView::CompilationFailed {
                    shader: shaders[count - 1].0,
                    log: answers[count - 1].log,
                },
            )
        }
    }
}

/// What is noticed by the time the shader `index` is turned to.
pub open spec fn entering(
    shaders: Seq<(Seq<char>, ShaderView)>,
    answers: Seq<CompileAnswers>,
    index: int,
) -> Seq<BuildDiagnosticView>
    decreases index, 1int,
{
    if index < 0 {
        Seq::empty()
    } else {
        let stage = shaders[index].1.shader_type;
        if has_stage(stages_of(shaders.subrange(0, index)), stage) {
            noticed(shaders, answers, index).push(BuildDiagnosticView::DuplicateStage { stage })
        } else {
            noticed(shaders, answers, index)
        }
    }
}

/// What a build comes to.
pub open spec fn outcome(builder: ProgramBuilderView, answers: BuildAnswers, handle: ProgramHandle)
    -> BuildReportView {
    let count = builder.shaders.len() as int;
    if answers.program == 0 {
        BuildReportView {
            result: Err(ProgramBuildErrorView::CreationFailed),
            diagnostics: Seq::empty(),
        }
    } else if answers.link_status != TRUE {
        BuildReportView {
            result: Err(ProgramBuildErrorView::LinkFail(answers.link_log)),
            diagnostics: noticed(builder.shaders, answers.shaders, count),
        }
    } else {
        BuildReportView {
            result: Ok(
                ProgramView {
                    id: answers.program,
                    shaders: compiled(builder.shaders, answers.shaders, count),
                    shader_flags: stages_present(
                        compiled(builder.shaders, answers.shaders, count),
                    ),
                    name: builder.name,
                    uniforms: uniform_map(answers.uniforms, handle),
                },
            ),
            diagnostics: noticed(builder.shaders, answers.shaders, count),
        }
    }
}

/// The building between two shaders: the first `count` of them are done.
pub open spec fn between(builder: ProgramBuilderView, answers: BuildAnswers, count: int)
    -> ProgramBuildView {
    ProgramBuildView {
        name: builder.name,
        shaders: builder.shaders.subrange(count, builder.shaders.len() as int),
        phase: BuildPhaseView::Program,
        program: answers.program,
        shader_flags: stages_present(compiled(builder.shaders, answers.shaders, count)),
        added_flags: stages_of(builder.shaders.subrange(0, count)),
        compiled: compiled(builder.shaders, answers.shaders, count),
        diagnostics: noticed(builder.shaders, answers.shaders, count),
        uniforms: Seq::empty(),
    }
}

/// The building once the first `count` shaders are done and it has turned
/// to the next, or to the link if there is none.
pub open spec fn turned(builder: ProgramBuilderView, answers: BuildAnswers, count: int)
    -> ProgramBuildView {
    between(builder, answers, count).next_shader()->Call_next
}

/// The building while it reads the uniform `index`, of `count`.
pub open spec fn scanning(
    builder: ProgramBuilderView,
    answers: BuildAnswers,
    count: u32,
    index: u32,
) -> ProgramBuildView {
    ProgramBuildView {
        phase: BuildPhaseView::Uniform {
            capacity: name_capacity(answers.name_length),
            count,
            index,
        },
        uniforms: answers.uniforms.take(index as int),
        ..turned(builder, answers, builder.shaders.len() as int)
    }
}

/// Answers are taken one after the other: where the building waits after
/// some of them, the rest are taken from there.
pub proof fn lemma_run_on(
    state: ProgramBuildView,
    first: Seq<GlReplyView>,
    rest: Seq<GlReplyView>,
    handle: ProgramHandle,
)
    requires
        run(state, first, handle) is Waiting,
    ensures
        run(state, first + rest, handle) == run(run(state, first, handle)->Waiting_0, rest, handle),
    decreases first.len(),
{
    if first.len() == 0 {
        assert(first + rest =~= rest);
    } else {
        assert((first + rest).first() == first.first());
        assert((first + rest).drop_first() =~= first.drop_first() + rest);
        match state.after(first.first(), handle) {
            StepView::Call { next, .. } => {
                lemma_run_on(next, first.drop_first(), rest, handle);
            },
            _ => {},
        }
    }
}

/// The answers of one compilation take the building from one shader to the next.
proof fn lemma_one_shader(
    builder: ProgramBuilderView,
    answers: BuildAnswers,
    index: int,
    handle: ProgramHandle,
)
    requires
        answers.shaders.len() == builder.shaders.len(),
        answers.program != 0,
        0 <= index < builder.shaders.len(),
    ensures
        run(turned(builder, answers, index), compile_replies(answers.shaders[index]), handle)
            == Run::Waiting(turned(builder, answers, index + 1)),
{
    let all = builder.shaders;
    let count = all.len() as int;
    let answer = answers.shaders[index];
    let start = turned(builder, answers, index);
    let shader = all[index].1;
    let name = all[index].0;
    assert(between(builder, answers, index).shaders.first() == all[index]);
    assert(all.subrange(index, count).drop_first() =~= all.subrange(index + 1, count));
    assert(all.subrange(0, index + 1).drop_last() =~= all.subrange(0, index));
    assert(all.subrange(0, index + 1).last() == all[index]);
    assert(start.phase == BuildPhaseView::Shader {
        name,
        compilation: ShaderCompilation::begin(shader),
    });
    assert(start.diagnostics == entering(all, answers.shaders, index));
    let replies = compile_replies(answer);
    let checking = ProgramBuildView {
        phase: BuildPhaseView::Shader {
            name,
            compilation: ShaderCompilationView {
                shader,
                awaiting: Awaiting::Status { id: answer.id },
            },
        },
        ..start
    };
    assert(start.after(replies[0], handle) matches StepView::Call { next, .. } && next == checking);
    let next = turned(builder, answers, index + 1);
    if answer.status == TRUE {
        let handle_made = ShaderHandle { shader_type: shader.shader_type, id: answer.id };
        let done = ProgramBuildView {
            compiled: checking.compiled.push(handle_made),
            shader_flags: checking.shader_flags | shader.shader_type.bit(),
            ..checking
        };
        assert(checking.compiled.push(handle_made).drop_last() =~= checking.compiled);
        assert(done.next_shader() == between(builder, answers, index + 1).next_shader());
        assert(checking.after(replies[1], handle) matches StepView::Call { next: after, .. }
            && after == next);
        assert(replies.drop_first().drop_first() =~= Seq::empty());
        assert(run(next, replies.drop_first().drop_first(), handle) == Run::Waiting(next));
        assert(run(checking, replies.drop_first(), handle) == Run::Waiting(next));
    } else {
        let measuring = ProgramBuildView {
            phase: BuildPhaseView::Shader {
                name,
                compilation: ShaderCompilationView {
                    shader,
                    awaiting: Awaiting::LogLength { id: answer.id },
                },
            },
            ..start
        };
        let reading = ProgramBuildView {
            phase: BuildPhaseView::Shader {
                name,
                compilation: ShaderCompilationView {
                    shader,
                    awaiting: Awaiting::Log { id: answer.id },
                },
            },
            ..start
        };
        let failed = ProgramBuildView {
            diagnostics: reading.diagnostics.push(
                BuildDiagnosticView::CompilationFailed { shader: name, log: answer.log },
            ),
            ..reading
        };
        assert(failed.next_shader() == between(builder, answers, index + 1).next_shader());
        let second = replies.drop_first();
        let third = second.drop_first();
        let fourth = third.drop_first();
        assert(second.first() == replies[1]);
        assert(third.first() == replies[2]);
        assert(fourth.first() == replies[3]);
        assert(fourth.drop_first() =~= Seq::empty());
        assert(checking.after(replies[1], handle) matches StepView::Call { next: after, .. }
            && after == measuring);
        assert(measuring.after(replies[2], handle) matches StepView::Call { next: after, .. }
            && after == reading);
        assert(reading.after(replies[3], handle) matches StepView::Call { next: after, .. }
            && after == next);
        assert(run(next, fourth.drop_first(), handle) == Run::Waiting(next));
        assert(run(reading, fourth, handle) == Run::Waiting(next));
        assert(run(measuring, third, handle) == Run::Waiting(next));
        assert(run(checking, second, handle) == Run::Waiting(next));
    }
}

/// The answers of the first `count` compilations take the building to the
/// shader after them.
proof fn lemma_shaders(
    builder: ProgramBuilderView,
    answers: BuildAnswers,
    count: int,
    handle: ProgramHandle,
)
    requires
        answers.shaders.len() == builder.shaders.len(),
        answers.program != 0,
        0 <= count <= builder.shaders.len(),
    ensures
        run(turned(builder, answers, 0), shader_replies(answers.shaders, count), handle)
            == Run::Waiting(turned(builder, answers, count)),
    decreases count,
{
    if count > 0 {
        lemma_shaders(builder, answers, count - 1, handle);
        lemma_one_shader(builder, answers, count - 1, handle);
        lemma_run_on(
            turned(builder, answers, 0),
            shader_replies(answers.shaders, count - 1),
            compile_replies(answers.shaders[count - 1]),
            handle,
        );
    }
}

/// The two answers about one uniform take the building to the next
/// uniform, or end it with the program if it was the last.
proof fn lemma_one_uniform(
    builder: ProgramBuilderView,
    answers: BuildAnswers,
    total: u32,
    index: int,
    handle: ProgramHandle,
)
    requires
        answers.uniforms.len() == total,
        0 <= index < total,
    ensures
        run(scanning(builder, answers, total, index as u32), uniform_pair(answers.uniforms, index), handle)
            == if index + 1 < total {
            Run::Waiting(scanning(builder, answers, total, (index + 1) as u32))
        } else {
            Run::Finished(
                BuildReportView {
                    result: Ok(
                        scanning(builder, answers, total, total).program_built(handle),
                    ),
                    diagnostics: scanning(builder, answers, total, total).diagnostics,
                },
            )
        },
{
    let start = scanning(builder, answers, total, index as u32);
    let pair = uniform_pair(answers.uniforms, index);
    let report = answers.uniforms[index];
    let capacity = name_capacity(answers.name_length);
    let locating = ProgramBuildView {
        phase: BuildPhaseView::Location {
            capacity,
            count: total,
            index: index as u32,
            name: report.name,
            size: report.size,
            value_type: report.value_type,
        },
        ..start
    };
    assert(start.after(pair[0], handle) matches StepView::Call { next, .. } && next == locating);
    let located = ProgramBuildView { uniforms: start.uniforms.push(report), ..locating };
    assert(answers.uniforms.take(index).push(report) =~= answers.uniforms.take(index + 1));
    assert(pair.drop_first().first() == pair[1]);
    assert(pair.drop_first().drop_first() =~= Seq::empty());
    assert((index + 1) as u32 == index + 1);
    assert(locating.after(pair[1], handle) == located.next_uniform(
        capacity,
        total,
        (index + 1) as u32,
        handle,
    ));
    if index + 1 < total {
        let next = scanning(builder, answers, total, (index + 1) as u32);
        assert(locating.after(pair[1], handle) matches StepView::Call { next: after, .. } && after
            == next);
        assert(run(next, pair.drop_first().drop_first(), handle) == Run::Waiting(next));
        assert(run(locating, pair.drop_first(), handle) == Run::Waiting(next));
    } else {
        let last = scanning(builder, answers, total, total);
        assert(located.program_built(handle) == last.program_built(handle));
        assert(locating.after(pair[1], handle) is Done);
        assert(run(locating, pair.drop_first(), handle) == Run::Finished(
            BuildReportView {
                result: Ok(last.program_built(handle)),
                diagnostics: last.diagnostics,
            },
        ));
    }
}

/// The answers about the first `count` uniforms take the building to the
/// uniform after them.
proof fn lemma_uniforms(
    builder: ProgramBuilderView,
    answers: BuildAnswers,
    total: u32,
    count: int,
    handle: ProgramHandle,
)
    requires
        answers.uniforms.len() == total,
        0 <= count < total,
    ensures
        run(scanning(builder, answers, total, 0), uniform_replies(answers.uniforms, count), handle)
            == Run::Waiting(scanning(builder, answers, total, count as u32)),
    decreases count,
{
    if count > 0 {
        lemma_uniforms(builder, answers, total, count - 1, handle);
        lemma_one_uniform(builder, answers, total, count - 1, handle);
        lemma_run_on(
            scanning(builder, answers, total, 0),
            uniform_replies(answers.uniforms, count - 1),
            uniform_pair(answers.uniforms, count - 1),
            handle,
        );
    }
}

/// A build comes to what [`outcome`] says, whatever the driver answers:
/// taking the answers one after the other ends the building, with the last
/// of them, in that report.
///
/// Without a program object the build fails at once. Otherwise the report
/// notes each shader whose stage was there before and each that did not
/// compile. If the link fails the linker's log is the error. If it
/// succeeds the program is the result: it holds the shaders that compiled,
/// in order, its mask has their stages and no others, and it has the
/// uniforms that the driver described.
pub proof fn lemma_build_outcome(
    builder: ProgramBuilderView,
    answers: BuildAnswers,
    handle: ProgramHandle,
)
    requires
        answers.shaders.len() == builder.shaders.len(),
        answers.program != 0 && answers.link_status == TRUE ==> answers.uniforms.len()
            == answers.uniform_count as u32,
    ensures
        run(ProgramBuild::begin(builder), replies(answers), handle) == Run::Finished(
            outcome(builder, answers, handle),
        ),
{
    let start = ProgramBuild::begin(builder);
    let all = builder.shaders;
    let count = all.len() as int;
    let created = seq![GlReplyView::Name(answers.program)];
    assert(created.drop_first() =~= Seq::empty());
    if answers.program == 0 {
        assert(start.after(created[0], handle) is Done);
    } else {
        let first = turned(builder, answers, 0);
        let linking = turned(builder, answers, count);
        assert(all.subrange(0, count) =~= all);
        assert(all.subrange(0, 0) =~= Seq::empty());
        assert(start.shaders =~= all.subrange(0, count));
        assert(ProgramBuildView { program: answers.program, ..start }.next_shader() == between(
            builder,
            answers,
            0,
        ).next_shader());
        assert(start.after(created[0], handle) matches StepView::Call { next, .. } && next == first);
        assert(run(first, created.drop_first(), handle) == Run::Waiting(first));
        assert(run(start, created, handle) == Run::Waiting(first));
        let compiling = shader_replies(answers.shaders, count);
        lemma_shaders(builder, answers, count, handle);
        lemma_run_on(start, created, compiling, handle);
        assert(run(start, created + compiling, handle) == Run::Waiting(linking));
        assert(linking.phase == BuildPhaseView::LinkStatus);
        assert(linking.added_flags == stages_of(all));
        assert(linking.uniforms =~= Seq::empty());
        if answers.link_status != TRUE {
            let failing = seq![
                GlReplyView::Integer(answers.link_status),
                GlReplyView::Integer(answers.link_log_length),
                GlReplyView::Text(answers.link_log),
            ];
            let measuring = ProgramBuildView { phase: BuildPhaseView::LinkLogLength, ..linking };
            let reading = ProgramBuildView { phase: BuildPhaseView::LinkLog, ..linking };
            let second = failing.drop_first();
            let third = second.drop_first();
            assert(second.first() == failing[1]);
            assert(third.first() == failing[2]);
            assert(third.len() == 1);
            assert(linking.after(failing[0], handle) matches StepView::Call { next, .. } && next
                == measuring);
            assert(measuring.after(failing[1], handle) matches StepView::Call { next, .. } && next
                == reading);
            assert(reading.after(failing[2], handle) is Done);
            assert(run(reading, third, handle) == Run::Finished(outcome(builder, answers, handle)));
            assert(run(measuring, second, handle) == Run::Finished(
                outcome(builder, answers, handle),
            ));
            assert(run(linking, failing, handle) == Run::Finished(
                outcome(builder, answers, handle),
            ));
            lemma_run_on(start, created + compiling, failing, handle);
            assert(replies(answers) =~= created + compiling + failing);
        } else {
            let total = answers.uniform_count as u32;
            let linked = seq![
                GlReplyView::Integer(answers.link_status),
                GlReplyView::Integer(answers.name_length),
                GlReplyView::Integer(answers.uniform_count),
            ];
            let describing = uniform_replies(answers.uniforms, total as int);
            let measuring = ProgramBuildView { phase: BuildPhaseView::NameLength, ..linking };
            let counting = ProgramBuildView {
                phase: BuildPhaseView::UniformCount {
                    capacity: name_capacity(answers.name_length),
                },
                ..linking
            };
            let second = linked.drop_first();
            let third = second.drop_first();
            assert(second.first() == linked[1]);
            assert(third.first() == linked[2]);
            assert(third.len() == 1);
            assert(third.drop_first() =~= Seq::empty());
            assert(linking.after(linked[0], handle) matches StepView::Call { next, .. } && next
                == measuring);
            assert(measuring.after(linked[1], handle) matches StepView::Call { next, .. } && next
                == counting);
            assert(replies(answers) =~= created + compiling + linked + describing);
            if total == 0 {
                assert(describing =~= Seq::empty());
                assert(answers.uniforms =~= Seq::empty());
                assert(counting.after(linked[2], handle) is Done);
                assert(run(counting, third, handle) == Run::Finished(
                    outcome(builder, answers, handle),
                ));
                assert(run(measuring, second, handle) == Run::Finished(
                    outcome(builder, answers, handle),
                ));
                assert(run(linking, linked, handle) == Run::Finished(
                    outcome(builder, answers, handle),
                ));
                lemma_run_on(start, created + compiling, linked, handle);
                assert(created + compiling + linked + describing =~= created + compiling + linked);
            } else {
                let scan = scanning(builder, answers, total, 0);
                assert(answers.uniforms.take(0) =~= Seq::empty());
                assert(counting.after(linked[2], handle) matches StepView::Call { next, .. } && next
                    == scan);
                assert(run(scan, third.drop_first(), handle) == Run::Waiting(scan));
                assert(run(counting, third, handle) == Run::Waiting(scan));
                assert(run(measuring, second, handle) == Run::Waiting(scan));
                assert(run(linking, linked, handle) == Run::Waiting(scan));
                lemma_run_on(start, created + compiling, linked, handle);
                let before = uniform_replies(answers.uniforms, total - 1);
                let pair = uniform_pair(answers.uniforms, total - 1);
                lemma_uniforms(builder, answers, total, total - 1, handle);
                lemma_one_uniform(builder, answers, total, total - 1, handle);
                lemma_run_on(scan, before, pair, handle);
                assert(describing == before + pair);
                assert(answers.uniforms.take(total as int) =~= answers.uniforms);
                assert(run(scan, describing, handle) == Run::Finished(
                    outcome(builder, answers, handle),
                ));
                lemma_run_on(start, created + compiling + linked, describing, handle);
            }
        }
    }
}

} // verus!
