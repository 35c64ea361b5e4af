use pogla::conversation::Step;
use pogla::engine::{Engine, Registration, RegistrationWarning};
use pogla::gl_call::{GlCall, GlReply};
use pogla::gl_types::GlFloat;
use pogla::program::shader::{Shader, ShaderType};
use pogla::program::uniform::UniformError;
use pogla::program::{Program, ProgramHandle, ProgramRegistry};

fn number(value: f32) -> GlFloat {
    GlFloat::from_bits(value.to_bits())
}

fn matrix(seed: f32) -> [GlFloat; 16] {
    let mut entries = [number(0.0); 16];
    for (i, entry) in entries.iter_mut().enumerate() {
        *entry = number(seed + i as f32);
    }
    entries
}

fn link_display_program(
    registry: &mut ProgramRegistry,
    id: u32,
    uniforms: &[(&str, u32, i32)],
) -> ProgramHandle {
    let builder = Program::builder("display")
        .add_shader("vertex", Shader::new(ShaderType::Vertex).source("void main() {}"))
        .add_shader("fragment", Shader::new(ShaderType::Fragment).source("void main() {}"));
    let mut replies = vec![
        GlReply::Name(id),
        GlReply::Name(id + 1),
        GlReply::Integer(1),
        GlReply::Name(id + 2),
        GlReply::Integer(1),
        GlReply::Integer(1),
        GlReply::Integer(32),
        GlReply::Integer(uniforms.len() as i32),
    ];
    for (name, value_type, location) in uniforms {
        replies.push(GlReply::ActiveUniform {
            name: name.to_string(),
            size: 1,
            value_type: *value_type,
        });
        replies.push(GlReply::Integer(*location));
    }
    let (mut state, _) = builder.build();
    for reply in replies {
        match state.resume(reply, registry) {
            Step::Call { next, .. } => state = next,
            Step::Done { result, .. } => return result.result.expect("the program links"),
            Step::OutOfTurn { .. } => panic!("the script does not fit the conversation"),
        }
    }
    panic!("the script ended before the build");
}

fn matrix_write(program: u32, location: i32, matrix: [GlFloat; 16]) -> GlCall {
    GlCall::ProgramUniformMatrix4fv { program, location, count: 1, transpose: false, matrix }
}

#[test]
fn a_program_with_both_camera_uniforms_follows_the_camera() {
    let mut registry = ProgramRegistry::new();
    let handle = link_display_program(
        &mut registry,
        10,
        &[("projection", gl::FLOAT_MAT4, 0), ("view_transform", gl::FLOAT_MAT4, 1)],
    );
    let mut engine = Engine::new();
    let report = engine.register_program("uniform", handle, &registry);
    assert_eq!(report.outcome, Registration::CameraDriven);
    assert!(report.warnings.is_empty());
    assert_eq!(engine.program("uniform"), Some(handle));
    assert_eq!(engine.program("basic"), None);
    assert_eq!(
        engine.display(&registry, &matrix(1.0)),
        Ok(vec![
            GlCall::Clear { mask: gl::COLOR_BUFFER_BIT | gl::DEPTH_BUFFER_BIT },
            matrix_write(10, 1, matrix(1.0)),
        ])
    );
    assert_eq!(
        engine.update_perspective(&registry, &matrix(2.0)),
        Ok(vec![matrix_write(10, 0, matrix(2.0))])
    );
}

#[test]
fn a_program_with_neither_camera_uniform_is_view_independent() {
    let mut registry = ProgramRegistry::new();
    let handle = link_display_program(&mut registry, 10, &[("object_color", gl::FLOAT_VEC4, 0)]);
    let mut engine = Engine::new();
    let report = engine.register_program("basic", handle, &registry);
    assert_eq!(report.outcome, Registration::ViewIndependent);
    assert!(report.warnings.is_empty());
    assert_eq!(engine.program("basic"), Some(handle));
    assert_eq!(
        engine.display(&registry, &matrix(1.0)),
        Ok(vec![GlCall::Clear { mask: 0x4100 }])
    );
    assert_eq!(engine.update_perspective(&registry, &matrix(1.0)), Ok(vec![]));
}

#[test]
fn a_program_with_one_camera_uniform_gets_no_matrix() {
    let mut registry = ProgramRegistry::new();
    let good = link_display_program(
        &mut registry,
        10,
        &[("projection", gl::FLOAT_MAT4, 0), ("view_transform", gl::FLOAT_MAT4, 1)],
    );
    let only_projection =
        link_display_program(&mut registry, 20, &[("projection", gl::FLOAT_MAT4, 0)]);
    let only_view =
        link_display_program(&mut registry, 30, &[("view_transform", gl::FLOAT_MAT4, 5)]);
    let mut engine = Engine::new();
    assert_eq!(engine.register_program("good", good, &registry).outcome, Registration::CameraDriven);

    let report = engine.register_program("half", only_projection, &registry);
    assert_eq!(report.outcome, Registration::Rejected);
    assert_eq!(report.warnings, vec![RegistrationWarning::OneButNotBoth]);
    let report = engine.register_program("other_half", only_view, &registry);
    assert_eq!(report.outcome, Registration::Rejected);
    assert_eq!(report.warnings, vec![RegistrationWarning::OneButNotBoth]);
    assert_eq!(engine.program("half"), Some(only_projection));

    let mut issued = engine.display(&registry, &matrix(3.0)).unwrap();
    issued.extend(engine.update_perspective(&registry, &matrix(4.0)).unwrap());
    issued.extend(engine.init_point_of_view(&registry, &matrix(5.0), &matrix(6.0)).unwrap());
    assert_eq!(
        issued,
        vec![
            GlCall::Clear { mask: 0x4100 },
            matrix_write(10, 1, matrix(3.0)),
            matrix_write(10, 0, matrix(4.0)),
            matrix_write(10, 0, matrix(5.0)),
            matrix_write(10, 1, matrix(6.0)),
        ]
    );
    for call in issued {
        if let GlCall::ProgramUniformMatrix4fv { program, .. } = call {
            assert_eq!(program, 10);
        }
    }
}

#[test]
fn camera_uniforms_of_the_wrong_type_are_warned_about() {
    let mut registry = ProgramRegistry::new();
    let handle = link_display_program(
        &mut registry,
        10,
        &[("projection", gl::FLOAT_MAT3, 0), ("view_transform", gl::FLOAT_VEC4, 1)],
    );
    let lonely = link_display_program(&mut registry, 20, &[("view_transform", gl::FLOAT, 1)]);
    let mut engine = Engine::new();
    let report = engine.register_program("wrong", handle, &registry);
    assert_eq!(report.outcome, Registration::Rejected);
    assert_eq!(
        report.warnings,
        vec![RegistrationWarning::ProjectionNotMat4, RegistrationWarning::ViewTransformNotMat4]
    );
    let report = engine.register_program("lonely", lonely, &registry);
    assert_eq!(
        report.warnings,
        vec![RegistrationWarning::OneButNotBoth, RegistrationWarning::ViewTransformNotMat4]
    );
    assert_eq!(engine.display(&registry, &matrix(0.0)).map(|calls| calls.len()), Ok(1));
}

#[test]
fn a_stale_handle_is_not_registered() {
    let registry = ProgramRegistry::new();
    let mut engine = Engine::new();
    let report = engine.register_program("ghost", ProgramHandle { index: 0 }, &registry);
    assert_eq!(report.outcome, Registration::Unknown);
    assert!(report.warnings.is_empty());
    assert_eq!(engine.program("ghost"), None);
}

#[test]
fn the_first_matrices_go_to_each_program_in_turn() {
    let mut registry = ProgramRegistry::new();
    let first = link_display_program(
        &mut registry,
        10,
        &[("view_transform", gl::FLOAT_MAT4, 3), ("projection", gl::FLOAT_MAT4, 4)],
    );
    let second = link_display_program(
        &mut registry,
        20,
        &[("projection", gl::FLOAT_MAT4, 0), ("view_transform", gl::FLOAT_MAT4, 1)],
    );
    let mut engine = Engine::new();
    engine.register_program("first", first, &registry);
    engine.register_program("second", second, &registry);
    assert_eq!(
        engine.init_point_of_view(&registry, &matrix(1.0), &matrix(2.0)),
        Ok(vec![
            matrix_write(10, 4, matrix(1.0)),
            matrix_write(10, 3, matrix(2.0)),
            matrix_write(20, 0, matrix(1.0)),
            matrix_write(20, 1, matrix(2.0)),
        ])
    );
    assert_eq!(
        engine.display(&registry, &matrix(7.0)),
        Ok(vec![
            GlCall::Clear { mask: 0x4100 },
            matrix_write(10, 3, matrix(7.0)),
            matrix_write(20, 1, matrix(7.0)),
        ])
    );
}

#[test]
fn a_program_that_is_gone_stops_the_camera_writes() {
    let mut registry = ProgramRegistry::new();
    let first = link_display_program(
        &mut registry,
        10,
        &[("view_transform", gl::FLOAT_MAT4, 3), ("projection", gl::FLOAT_MAT4, 4)],
    );
    let mut engine = Engine::new();
    engine.register_program("first", first, &registry);
    assert!(registry.remove(first, 0).is_some());
    assert_eq!(
        engine.display(&registry, &matrix(7.0)),
        Err(UniformError::ProgramDestroyed { name: "view_transform".to_string() })
    );
    assert_eq!(
        engine.update_perspective(&registry, &matrix(7.0)),
        Err(UniformError::ProgramDestroyed { name: "projection".to_string() })
    );
    assert_eq!(
        engine.init_point_of_view(&registry, &matrix(7.0), &matrix(8.0)),
        Err(UniformError::ProgramDestroyed { name: "projection".to_string() })
    );
}

#[test]
fn the_first_frame_is_given_no_time() {
    let mut engine = Engine::new();
    assert_eq!(engine.update(5_000_000), 0);
    assert_eq!(engine.update(5_016_000), 16_000);
    assert_eq!(engine.update(5_016_000), 0);
    assert_eq!(engine.update(6_000_000), 984_000);
}

#[test]
fn a_clock_that_runs_backwards_gives_no_time() {
    let mut engine = Engine::new();
    assert_eq!(engine.update(100), 0);
    assert_eq!(engine.update(40), 0);
    assert_eq!(engine.update(70), 30);
    assert_eq!(engine.update(u64::MAX), u64::MAX - 70);
}
