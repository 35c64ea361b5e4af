use pogla::conversation::Step;
use pogla::extensions::CeilDiv;
use pogla::gl_call::{GlCall, GlReply};
use pogla::gl_types::GlFloat;
use pogla::objects::particle_system::{
    ParticleSystem, ParticleSystemBuilder, ParticleSystemIssue, DEFAULT_GROUP_SIZE,
};
use pogla::particles::{FireParticle, FIRE_PARTICLE_SIZE};
use pogla::program::shader::{Shader, ShaderType};
use pogla::program::{Program, ProgramHandle, ProgramRegistry};
use pogla::traits::{Drawable, ParticleLike, RenderError, Updatable};
use pogla::program::uniform::{UniformError, UniformKind};

fn flt(value: f32) -> GlFloat {
    GlFloat::from_bits(value.to_bits())
}

fn sample_particle() -> FireParticle {
    FireParticle::new(
        flt(1.5),
        flt(0.25),
        [flt(-1.0), flt(2.0), flt(0.0)],
        flt(0.5),
        [flt(0.1), flt(0.2), flt(1.75)],
    )
}

fn read_float(bytes: &[u8], offset: usize) -> f32 {
    f32::from_le_bytes([bytes[offset], bytes[offset + 1], bytes[offset + 2], bytes[offset + 3]])
}

/// Links a program of the given stages with the given uniforms.
fn link_program(
    registry: &mut ProgramRegistry,
    id: u32,
    stages: &[ShaderType],
    uniforms: &[(&str, u32, i32)],
) -> ProgramHandle {
    let mut builder = Program::builder("particles");
    for stage in stages {
        builder = builder.add_shader("stage", Shader::new(*stage).source("void main() {}"));
    }
    let mut replies = vec![GlReply::Name(id)];
    for (i, _) in stages.iter().enumerate() {
        replies.push(GlReply::Name(id + 1 + i as u32));
        replies.push(GlReply::Integer(1));
    }
    replies.push(GlReply::Integer(1));
    replies.push(GlReply::Integer(32));
    replies.push(GlReply::Integer(uniforms.len() as i32));
    for (name, value_type, location) in uniforms {
        replies.push(GlReply::ActiveUniform {
            name: name.to_string(),
            size: 1,
            value_type: *value_type,
        });
        replies.push(GlReply::Integer(*location));
    }
    let (mut state, _) = builder.build();
    for reply in replies {
        match state.resume(reply, registry) {
            Step::Call { next, .. } => state = next,
            Step::Done { result, .. } => return result.result.expect("the program links"),
            Step::OutOfTurn { .. } => panic!("the script does not fit the conversation"),
        }
    }
    panic!("the script ended before the build");
}

struct Programs {
    registry: ProgramRegistry,
    compute: ProgramHandle,
    display: ProgramHandle,
}

fn fire_programs(delta_time_type: Option<u32>) -> Programs {
    let mut registry = ProgramRegistry::new();
    let uniforms: Vec<(&str, u32, i32)> = match delta_time_type {
        Some(value_type) => vec![("max_lifetime", gl::FLOAT, 0), ("uDeltaTime", value_type, 2)],
        None => vec![("max_lifetime", gl::FLOAT, 0)],
    };
    let compute = link_program(&mut registry, 50, &[ShaderType::Compute], &uniforms);
    let display = link_program(
        &mut registry,
        60,
        &[ShaderType::Vertex, ShaderType::Geometry, ShaderType::Fragment],
        &[("fire_color", gl::FLOAT_VEC4, 0)],
    );
    Programs { registry, compute, display }
}

/// Builds a system of `count` particles with work groups of `group_size`.
fn fire_system(programs: &Programs, count: usize, group_size: Option<usize>) -> ParticleSystem {
    let mut builder: ParticleSystemBuilder<FireParticle> = ParticleSystem::builder()
        .display_program(programs.display)
        .compute_program(programs.compute)
        .initial_particles(vec![sample_particle(); count]);
    if let Some(size) = group_size {
        builder = builder.group_size(size);
    }
    let start = builder.build(&programs.registry).expect("the description is sound");
    let state = match start.build.resume(GlReply::Names(vec![7])) {
        Step::Call { next, .. } => next,
        _ => panic!("a buffer should be asked for"),
    };
    match state.resume(GlReply::Names(vec![9])) {
        Step::Done { result, .. } => result,
        _ => panic!("the building should be over"),
    }
}

#[test]
fn ceil_div_rounds_up() {
    assert_eq!(4000usize.ceil_div(1024), 4);
    assert_eq!(1024usize.ceil_div(1024), 1);
    assert_eq!(0usize.ceil_div(1024), 0);
    assert_eq!(1usize.ceil_div(1024), 1);
    assert_eq!(1025usize.ceil_div(1024), 2);
    assert_eq!(7usize.ceil_div(1), 7);
    assert_eq!(usize::MAX.ceil_div(1), usize::MAX);
    assert_eq!(usize::MAX.ceil_div(2), usize::MAX / 2 + 1);
    assert_eq!(usize::MAX.ceil_div(usize::MAX), 1);
}

#[test]
fn a_new_particle_starts_where_it_is_and_has_zero_padding() {
    let particle = sample_particle();
    assert_eq!(particle.initial_position, particle.position);
    assert_eq!(particle.pad_1, flt(0.0));
    assert_eq!(particle.pad_2, flt(0.0));
    assert_eq!(particle.pad_3, flt(0.0));
    assert_eq!(particle.lifetime, flt(1.5));
    assert_eq!(particle.velocity, [flt(0.1), flt(0.2), flt(1.75)]);
}

#[test]
fn the_record_has_the_documented_layout() {
    let bytes = sample_particle().to_bytes();
    assert_eq!(bytes.len(), 64);
    assert_eq!(FIRE_PARTICLE_SIZE, 64);
    assert_eq!(FireParticle::stride(), 64);
    assert_eq!(read_float(&bytes, 0), 1.5);
    assert_eq!(read_float(&bytes, 4), 0.25);
    assert_eq!(read_float(&bytes, 8), 0.0);
    assert_eq!(read_float(&bytes, 12), 0.0);
    assert_eq!(read_float(&bytes, 16), -1.0);
    assert_eq!(read_float(&bytes, 20), 2.0);
    assert_eq!(read_float(&bytes, 24), 0.0);
    assert_eq!(read_float(&bytes, 28), 0.5);
    assert_eq!(read_float(&bytes, 32), 0.1);
    assert_eq!(read_float(&bytes, 36), 0.2);
    assert_eq!(read_float(&bytes, 40), 1.75);
    assert_eq!(read_float(&bytes, 44), 0.0);
    assert_eq!(read_float(&bytes, 48), -1.0);
    assert_eq!(read_float(&bytes, 52), 2.0);
    assert_eq!(read_float(&bytes, 56), 0.0);
    assert_eq!(&bytes[60..64], &[0u8, 0, 0, 0]);
    assert_eq!(&bytes[0..4], &[0x00u8, 0x00, 0xC0, 0x3F]);
}

#[test]
fn write_to_appends_one_record() {
    let mut image = vec![0xAAu8, 0xBB];
    sample_particle().write_to(&mut image);
    assert_eq!(image.len(), 66);
    assert_eq!(&image[0..2], &[0xAAu8, 0xBB]);
    assert_eq!(&image[2..], &sample_particle().to_bytes()[..]);
}

#[test]
fn the_attributes_point_at_the_fields() {
    let pointer = |index: u32, size: i32, offset: usize| GlCall::VertexAttribPointer {
        index,
        size,
        component_type: gl::FLOAT,
        normalized: false,
        stride: 64,
        offset,
    };
    let mut expected = vec![
        pointer(1, 1, 0),
        pointer(2, 1, 4),
        pointer(3, 3, 16),
        pointer(4, 1, 28),
        pointer(5, 3, 32),
        pointer(6, 3, 48),
    ];
    for index in 1..=6 {
        expected.push(GlCall::EnableVertexAttribArray { index });
    }
    assert_eq!(FireParticle::setup_attributes(), expected);
}

#[test]
fn the_system_is_built_in_one_buffer() {
    let programs = fire_programs(Some(gl::FLOAT));
    let mut second = sample_particle();
    second.lifetime = flt(3.0);
    let builder: ParticleSystemBuilder<FireParticle> = ParticleSystem::builder()
        .display_program(programs.display)
        .compute_program(programs.compute)
        .buffer_base(3)
        .group_size(256)
        .initial_particles(vec![sample_particle(), second]);
    let start = builder.build(&programs.registry).expect("the description is sound");
    assert!(start.warnings.is_empty());
    assert_eq!(start.calls, vec![GlCall::GenVertexArrays { count: 1 }]);
    let state = match start.build.resume(GlReply::Names(vec![7])) {
        Step::Call { next, calls } => {
            assert_eq!(
                calls,
                vec![GlCall::BindVertexArray { array: 7 }, GlCall::GenBuffers { count: 1 }]
            );
            next
        }
        _ => panic!("a buffer should be asked for"),
    };
    let (calls, system) = match state.resume(GlReply::Names(vec![9])) {
        Step::Done { calls, result } => (calls, result),
        _ => panic!("the building should be over"),
    };
    let mut image = sample_particle().to_bytes();
    image.extend(second.to_bytes());
    assert_eq!(image.len(), 2 * 64);
    let mut expected = vec![
        GlCall::NamedBufferData { buffer: 9, data: image, usage: gl::DYNAMIC_DRAW },
        GlCall::BindBuffer { target: gl::SHADER_STORAGE_BUFFER, buffer: 9 },
        GlCall::BindBufferBase { target: gl::SHADER_STORAGE_BUFFER, index: 3, buffer: 9 },
        GlCall::BindBuffer { target: gl::ARRAY_BUFFER, buffer: 9 },
    ];
    expected.extend(FireParticle::setup_attributes());
    expected.push(GlCall::BindVertexArray { array: 0 });
    assert_eq!(calls, expected);
    assert_eq!(system.particle_count(), 2);
    assert_eq!(system.group_size(), 256);
    assert_eq!(system.compute_program(), programs.compute);
    assert_eq!(system.display_program(), programs.display);
    let mut programs = programs;
    let release = system.release(&mut programs.registry, 50);
    assert!(release.was_current);
    assert_eq!(
        release.calls,
        vec![
            GlCall::DeleteBuffers { buffers: vec![9] },
            GlCall::DeleteVertexArrays { arrays: vec![7] },
            GlCall::UseProgram { program: 0 },
            GlCall::DeleteProgram { program: 50 },
            GlCall::DeleteShader { shader: 51 },
        ]
    );
    assert!(programs.registry.get(programs.compute).is_none());
    assert!(programs.registry.get(programs.display).is_some());
}

#[test]
fn a_system_whose_program_is_gone_gives_up_its_buffer_only() {
    let mut programs = fire_programs(None);
    let system = fire_system(&programs, 2, None);
    assert!(programs.registry.remove(programs.compute, 0).is_some());
    let release = system.release(&mut programs.registry, 50);
    assert!(!release.was_current);
    assert_eq!(
        release.calls,
        vec![
            GlCall::DeleteBuffers { buffers: vec![9] },
            GlCall::DeleteVertexArrays { arrays: vec![7] },
        ]
    );
}

#[test]
fn the_defaults_are_a_group_of_1024_at_binding_point_1() {
    let programs = fire_programs(None);
    let builder: ParticleSystemBuilder<FireParticle> = ParticleSystem::builder()
        .display_program(programs.display)
        .compute_program(programs.compute)
        .initial_particles(vec![]);
    let start = builder.build(&programs.registry).expect("the description is sound");
    let state = match start.build.resume(GlReply::Names(vec![1])) {
        Step::Call { next, .. } => next,
        _ => panic!("a buffer should be asked for"),
    };
    match state.resume(GlReply::Names(vec![2])) {
        Step::Done { calls, result } => {
            assert_eq!(
                calls[0],
                GlCall::NamedBufferData { buffer: 2, data: vec![], usage: gl::DYNAMIC_DRAW }
            );
            assert_eq!(
                calls[2],
                GlCall::BindBufferBase { target: gl::SHADER_STORAGE_BUFFER, index: 1, buffer: 2 }
            );
            assert_eq!(result.group_size(), DEFAULT_GROUP_SIZE);
            assert_eq!(result.group_size(), 1024);
            assert_eq!(result.particle_count(), 0);
        }
        _ => panic!("the building should be over"),
    }
}

#[test]
fn the_building_takes_one_name_at_a_time() {
    let programs = fire_programs(None);
    let builder: ParticleSystemBuilder<FireParticle> = ParticleSystem::builder()
        .display_program(programs.display)
        .compute_program(programs.compute)
        .initial_particles(vec![sample_particle()]);
    let start = builder.build(&programs.registry).unwrap();
    let state = match start.build.resume(GlReply::Names(vec![1, 2])) {
        Step::OutOfTurn { state } => state,
        _ => panic!("two names are no answer"),
    };
    let state = match state.resume(GlReply::Name(1)) {
        Step::OutOfTurn { state } => state,
        _ => panic!("a single name is no list of names"),
    };
    assert!(matches!(state.resume(GlReply::Names(vec![1])), Step::Call { .. }));
}

#[test]
fn every_fault_of_a_description_is_reported() {
    let programs = fire_programs(None);
    let nothing: ParticleSystemBuilder<FireParticle> = ParticleSystem::builder();
    assert_eq!(
        nothing.assert_integrity(&programs.registry),
        vec![
            ParticleSystemIssue::MissingInitialParticles,
            ParticleSystemIssue::MissingComputeProgram,
            ParticleSystemIssue::MissingDisplayProgram,
        ]
    );
    let swapped: ParticleSystemBuilder<FireParticle> = ParticleSystem::builder()
        .compute_program(programs.display)
        .display_program(programs.compute)
        .group_size(1025);
    let issues = vec![
        ParticleSystemIssue::MissingInitialParticles,
        ParticleSystemIssue::ComputeProgramNotCompute,
        ParticleSystemIssue::DisplayProgramWithoutGeometry,
        ParticleSystemIssue::GroupSizeOutOfRange,
    ];
    assert_eq!(swapped.assert_integrity(&programs.registry), issues);
    match swapped.build(&programs.registry) {
        Err(reported) => assert_eq!(reported, issues),
        Ok(_) => panic!("the description is not sound"),
    }
    let stale: ParticleSystemBuilder<FireParticle> = ParticleSystem::builder()
        .compute_program(ProgramHandle { index: 17 })
        .display_program(programs.display)
        .initial_particles(vec![sample_particle()]);
    assert_eq!(
        stale.assert_integrity(&programs.registry),
        vec![ParticleSystemIssue::MissingComputeProgram]
    );
}

#[test]
fn the_group_size_may_be_anything_from_1_to_1024() {
    let programs = fire_programs(None);
    for size in [1usize, 2, 512, 1024] {
        let builder: ParticleSystemBuilder<FireParticle> = ParticleSystem::builder()
            .display_program(programs.display)
            .compute_program(programs.compute)
            .initial_particles(vec![sample_particle()])
            .group_size(size);
        assert!(builder.assert_integrity(&programs.registry).is_empty());
    }
    for size in [0usize, 1025, usize::MAX] {
        let builder: ParticleSystemBuilder<FireParticle> = ParticleSystem::builder()
            .display_program(programs.display)
            .compute_program(programs.compute)
            .initial_particles(vec![sample_particle()])
            .group_size(size);
        assert_eq!(
            builder.assert_integrity(&programs.registry),
            vec![ParticleSystemIssue::GroupSizeOutOfRange]
        );
        assert!(builder.build(&programs.registry).is_err());
    }
}

#[test]
fn a_display_program_without_geometry_is_only_warned_about() {
    let mut programs = fire_programs(None);
    let flat = link_program(
        &mut programs.registry,
        70,
        &[ShaderType::Vertex, ShaderType::Fragment],
        &[],
    );
    let builder: ParticleSystemBuilder<FireParticle> = ParticleSystem::builder()
        .display_program(flat)
        .compute_program(programs.compute)
        .initial_particles(vec![sample_particle()]);
    let start = builder.build(&programs.registry).expect("a warning is no error");
    assert_eq!(start.warnings, vec![ParticleSystemIssue::DisplayProgramWithoutGeometry]);
    assert!(!ParticleSystemIssue::DisplayProgramWithoutGeometry.is_error());
    assert!(ParticleSystemIssue::MissingInitialParticles.is_error());
    assert!(ParticleSystemIssue::TooManyParticles.is_error());
    assert!(ParticleSystemIssue::ComputeProgramNotCompute.is_error());
    assert!(ParticleSystemIssue::MissingComputeProgram.is_error());
    assert!(ParticleSystemIssue::MissingDisplayProgram.is_error());
    assert!(ParticleSystemIssue::GroupSizeOutOfRange.is_error());
}

#[test]
fn a_frame_is_simulated_then_drawn() {
    let programs = fire_programs(Some(gl::FLOAT));
    let mut system = fire_system(&programs, 3, Some(2));
    assert_eq!(
        system.update(&programs.registry, flt(0.016)),
        Ok(vec![
            GlCall::BindVertexArray { array: 7 },
            GlCall::ProgramUniform1f { program: 50, location: 2, v0: flt(0.016) },
            GlCall::UseProgram { program: 50 },
            GlCall::DispatchCompute { groups_x: 2, groups_y: 1, groups_z: 1 },
            GlCall::MemoryBarrier { barriers: gl::ALL_BARRIER_BITS },
            GlCall::BindVertexArray { array: 0 },
            GlCall::UseProgram { program: 0 },
        ])
    );
    assert_eq!(
        system.draw(&programs.registry),
        Ok(vec![
            GlCall::BindVertexArray { array: 7 },
            GlCall::UseProgram { program: 60 },
            GlCall::DrawArrays { mode: gl::POINTS, first: 0, count: 3 },
            GlCall::BindVertexArray { array: 0 },
            GlCall::UseProgram { program: 0 },
        ])
    );
}

#[test]
fn a_program_without_the_time_uniform_is_simulated_all_the_same() {
    let programs = fire_programs(None);
    let mut system = fire_system(&programs, 5, None);
    assert_eq!(
        system.update(&programs.registry, flt(0.5)),
        Ok(vec![
            GlCall::BindVertexArray { array: 7 },
            GlCall::UseProgram { program: 50 },
            GlCall::DispatchCompute { groups_x: 1, groups_y: 1, groups_z: 1 },
            GlCall::MemoryBarrier { barriers: gl::ALL_BARRIER_BITS },
            GlCall::BindVertexArray { array: 0 },
            GlCall::UseProgram { program: 0 },
        ])
    );
}

fn groups_dispatched(count: usize, group_size: usize) -> u32 {
    let programs = fire_programs(None);
    let mut system = fire_system(&programs, count, Some(group_size));
    let calls = system.update(&programs.registry, flt(0.0)).expect("the step is issued");
    for call in calls {
        if let GlCall::DispatchCompute { groups_x, groups_y, groups_z } = call {
            assert_eq!((groups_y, groups_z), (1, 1));
            return groups_x;
        }
    }
    panic!("nothing was dispatched");
}

#[test]
fn as_many_groups_are_dispatched_as_hold_the_particles() {
    assert_eq!(groups_dispatched(4000, 1024), 4);
    assert_eq!(groups_dispatched(1024, 1024), 1);
    assert_eq!(groups_dispatched(0, 1024), 0);
    assert_eq!(groups_dispatched(1025, 1024), 2);
    assert_eq!(groups_dispatched(10, 1), 10);
}

#[test]
fn a_time_uniform_of_the_wrong_type_is_refused() {
    let programs = fire_programs(Some(gl::FLOAT_VEC3));
    let mut system = fire_system(&programs, 4, None);
    assert_eq!(
        system.update(&programs.registry, flt(0.1)),
        Err(RenderError::Uniform(UniformError::TypeMismatch {
            name: "uDeltaTime".to_string(),
            attempted: UniformKind::Float,
            actual: gl::FLOAT_VEC3,
        }))
    );
}

#[test]
fn a_system_whose_program_is_gone_issues_nothing() {
    let mut programs = fire_programs(Some(gl::FLOAT));
    let mut system = fire_system(&programs, 4, None);
    assert!(programs.registry.remove(programs.compute, 0).is_some());
    assert_eq!(system.update(&programs.registry, flt(0.1)), Err(RenderError::ProgramDestroyed));
    assert!(system.draw(&programs.registry).is_ok());
    assert!(programs.registry.remove(programs.display, 0).is_some());
    assert_eq!(system.draw(&programs.registry), Err(RenderError::ProgramDestroyed));
}
