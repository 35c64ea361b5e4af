use pogla::conversation::Step;
use pogla::gl_call::{GlCall, GlReply};
use pogla::gl_types::{words_to_bytes, DrawMode, GlFloat};
use pogla::objects::mesh_renderer::{
    MeshDiagnostic, MeshRenderer, MeshRendererBuilder, MeshRendererIssue, MeshRendererReport,
};
use pogla::program::shader::{Shader, ShaderType};
use pogla::program::uniform::{UniformError, UniformKind};
use pogla::program::{Program, ProgramHandle, ProgramRegistry};
use pogla::traits::{Drawable, RenderError};

fn val(value: f32) -> GlFloat {
    GlFloat::from_bits(value.to_bits())
}

fn values(list: &[f32]) -> Vec<GlFloat> {
    list.iter().map(|v| val(*v)).collect()
}

fn identity_matrix() -> [GlFloat; 16] {
    let identity: cgmath::Matrix4<f32> = cgmath::SquareMatrix::identity();
    let entries: &[f32; 16] = identity.as_ref();
    entries.map(val)
}

fn link_mesh_program(
    registry: &mut ProgramRegistry,
    id: u32,
    uniforms: &[(&str, u32, i32)],
) -> ProgramHandle {
    let builder = Program::builder("uniform")
        .add_shader("uniform_vertex", Shader::new(ShaderType::Vertex).source("void main() {}"))
        .add_shader("uniform_fragment", Shader::new(ShaderType::Fragment).source("void main() {}"));
    let mut replies = vec![
        GlReply::Name(id),
        GlReply::Name(id + 1),
        GlReply::Integer(1),
        GlReply::Name(id + 2),
        GlReply::Integer(1),
        GlReply::Integer(1),
        GlReply::Integer(32),
        GlReply::Integer(uniforms.len() as i32),
    ];
    for (name, value_type, location) in uniforms {
        replies.push(GlReply::ActiveUniform {
            name: name.to_string(),
            size: 1,
            value_type: *value_type,
        });
        replies.push(GlReply::Integer(*location));
    }
    let (mut state, _) = builder.build();
    for reply in replies {
        match state.resume(reply, registry) {
            Step::Call { next, .. } => state = next,
            Step::Done { result, .. } => return result.result.expect("the program links"),
            Step::OutOfTurn { .. } => panic!("the script does not fit the conversation"),
        }
    }
    panic!("the script ended before the build");
}

/// Builds a renderer against scripted answers. Returns the report and the
/// batches of calls.
fn run_mesh_build(
    builder: MeshRendererBuilder,
    registry: &ProgramRegistry,
    replies: Vec<GlReply>,
) -> (MeshRendererReport, Vec<Vec<GlCall>>) {
    let start = match builder.build(registry) {
        Ok(start) => start,
        Err(issues) => panic!("the description is not sound: {:?}", issues),
    };
    let mut batches = vec![start.calls];
    let mut state = start.build;
    for reply in replies {
        match state.resume(reply) {
            Step::Call { next, calls } => {
                batches.push(calls);
                state = next;
            }
            Step::Done { calls, result } => {
                batches.push(calls);
                return (result, batches);
            }
            Step::OutOfTurn { .. } => panic!("the script does not fit the conversation"),
        }
    }
    panic!("the script ended before the build");
}

fn triangle() -> Vec<GlFloat> {
    values(&[0.0, 0.0, 0.0, 1.0, 0.0, 0.0, 0.0, 1.0, 0.0])
}

#[test]
fn a_mesh_of_one_buffer_is_built_and_drawn() {
    let mut registry = ProgramRegistry::new();
    let program =
        link_mesh_program(&mut registry, 10, &[("model_transform", gl::FLOAT_MAT4, 2)]);
    let mut transform = identity_matrix();
    transform[14] = val(-1.0);
    let builder = MeshRenderer::builder()
        .shader(program)
        .add_buffer(triangle())
        .add_attribute("position", 3, 0)
        .draw_mode(DrawMode::TriangleStrip)
        .transform(transform);
    let (report, batches) = run_mesh_build(
        builder,
        &registry,
        vec![
            GlReply::Names(vec![4]),
            GlReply::Names(vec![5]),
            GlReply::Done,
            GlReply::Integer(0),
        ],
    );
    assert!(report.diagnostics.is_empty());
    assert_eq!(
        batches,
        vec![
            vec![GlCall::GenVertexArrays { count: 1 }],
            vec![GlCall::BindVertexArray { array: 4 }, GlCall::GenBuffers { count: 1 }],
            vec![
                GlCall::BindBuffer { target: gl::ARRAY_BUFFER, buffer: 5 },
                GlCall::NamedBufferData {
                    buffer: 5,
                    data: words_to_bytes(&triangle()),
                    usage: gl::STATIC_DRAW,
                },
            ],
            vec![GlCall::GetAttribLocation { program: 10, name: "position".to_string() }],
            vec![
                GlCall::VertexAttribPointer {
                    index: 0,
                    size: 3,
                    component_type: gl::FLOAT,
                    normalized: false,
                    stride: 12,
                    offset: 0,
                },
                GlCall::EnableVertexArrayAttrib { array: 4, index: 0 },
                GlCall::BindBuffer { target: gl::ARRAY_BUFFER, buffer: 0 },
                GlCall::BindVertexArray { array: 0 },
            ],
        ]
    );
    let renderer = report.renderer;
    assert_eq!(renderer.vertex_count(), 3);
    assert_eq!(
        renderer.draw(&registry),
        Ok(vec![
            GlCall::UseProgram { program: 10 },
            GlCall::ProgramUniformMatrix4fv {
                program: 10,
                location: 2,
                count: 1,
                transpose: false,
                matrix: transform,
            },
            GlCall::BindVertexArray { array: 4 },
            GlCall::DrawArrays { mode: gl::TRIANGLE_STRIP, first: 0, count: 3 },
            GlCall::BindVertexArray { array: 0 },
        ])
    );
    assert_eq!(
        renderer.release(),
        vec![
            GlCall::DeleteBuffers { buffers: vec![5] },
            GlCall::DeleteVertexArrays { arrays: vec![4] },
        ]
    );
}

#[test]
fn the_defaults_are_triangles_and_the_identity() {
    let mut registry = ProgramRegistry::new();
    let program =
        link_mesh_program(&mut registry, 10, &[("model_transform", gl::FLOAT_MAT4, 2)]);
    let builder =
        MeshRenderer::builder().shader(program).add_buffer(triangle()).add_attribute("position", 3, 0);
    let (report, _) = run_mesh_build(
        builder,
        &registry,
        vec![
            GlReply::Names(vec![4]),
            GlReply::Names(vec![5]),
            GlReply::Done,
            GlReply::Integer(1),
        ],
    );
    let calls = report.renderer.draw(&registry).unwrap();
    assert_eq!(
        calls[1],
        GlCall::ProgramUniformMatrix4fv {
            program: 10,
            location: 2,
            count: 1,
            transpose: false,
            matrix: identity_matrix(),
        }
    );
    assert_eq!(calls[3], GlCall::DrawArrays { mode: gl::TRIANGLES, first: 0, count: 3 });
}

#[test]
fn attributes_are_looked_up_buffer_by_buffer() {
    let mut registry = ProgramRegistry::new();
    let program = link_mesh_program(&mut registry, 10, &[]);
    let builder = MeshRenderer::builder()
        .shader(program)
        .add_buffer(values(&[0.0; 10]))
        .add_buffer(values(&[1.0; 4]))
        .add_attribute("uv", 2, 1)
        .add_attribute("position", 3, 0)
        .add_attribute("missing", 1, 1)
        .add_attribute("normal", 2, 0);
    let start = builder.build(&registry).expect("the description is sound");
    assert_eq!(start.warnings, vec![MeshRendererIssue::NoModelTransform]);
    let mut batches = vec![];
    let mut state = start.build;
    let mut report = None;
    for reply in vec![
        GlReply::Names(vec![4]),
        GlReply::Names(vec![5, 6]),
        GlReply::Done,
        GlReply::Integer(0),
        GlReply::Integer(3),
        GlReply::Done,
        GlReply::Integer(2),
        GlReply::Integer(-1),
    ] {
        match state.resume(reply) {
            Step::Call { next, calls } => {
                batches.push(calls);
                state = next;
            }
            Step::Done { calls, result } => {
                batches.push(calls);
                report = Some(result);
                break;
            }
            Step::OutOfTurn { .. } => panic!("the script does not fit the conversation"),
        }
    }
    let report = report.expect("the building ends");
    let pointer = |index: u32, size: i32, stride: i32| GlCall::VertexAttribPointer {
        index,
        size,
        component_type: gl::FLOAT,
        normalized: false,
        stride,
        offset: 0,
    };
    let enable = |index: u32| GlCall::EnableVertexArrayAttrib { array: 4, index };
    let locate = |name: &str| GlCall::GetAttribLocation { program: 10, name: name.to_string() };
    assert_eq!(
        batches,
        vec![
            vec![GlCall::BindVertexArray { array: 4 }, GlCall::GenBuffers { count: 2 }],
            vec![
                GlCall::BindBuffer { target: gl::ARRAY_BUFFER, buffer: 5 },
                GlCall::NamedBufferData {
                    buffer: 5,
                    data: words_to_bytes(&values(&[0.0; 10])),
                    usage: gl::STATIC_DRAW,
                },
            ],
            vec![locate("position")],
            vec![pointer(0, 3, 20), enable(0), locate("normal")],
            vec![
                pointer(3, 2, 20),
                enable(3),
                GlCall::BindBuffer { target: gl::ARRAY_BUFFER, buffer: 6 },
                GlCall::NamedBufferData {
                    buffer: 6,
                    data: words_to_bytes(&values(&[1.0; 4])),
                    usage: gl::STATIC_DRAW,
                },
            ],
            vec![locate("uv")],
            vec![pointer(2, 2, 12), enable(2), locate("missing")],
            vec![
                GlCall::BindBuffer { target: gl::ARRAY_BUFFER, buffer: 0 },
                GlCall::BindVertexArray { array: 0 },
            ],
        ]
    );
    assert_eq!(
        report.diagnostics,
        vec![MeshDiagnostic::AttributeNotFound { name: "missing".to_string() }]
    );
    assert_eq!(report.renderer.vertex_count(), 2);
    assert_eq!(
        report.renderer.draw(&registry),
        Ok(vec![
            GlCall::UseProgram { program: 10 },
            GlCall::BindVertexArray { array: 4 },
            GlCall::DrawArrays { mode: gl::TRIANGLES, first: 0, count: 2 },
            GlCall::BindVertexArray { array: 0 },
        ])
    );
}

#[test]
fn every_fault_of_a_mesh_is_reported() {
    let registry = ProgramRegistry::new();
    assert_eq!(
        MeshRenderer::builder().assert_integrity(&registry),
        vec![
            MeshRendererIssue::NoVertexBuffers,
            MeshRendererIssue::NoProgram,
            MeshRendererIssue::NoAttributes,
        ]
    );
    let builder = MeshRenderer::builder()
        .shader(ProgramHandle { index: 3 })
        .add_buffer(triangle())
        .add_buffer(triangle())
        .add_buffer(triangle())
        .add_attribute("position", 3, 1);
    let issues = vec![
        MeshRendererIssue::NoProgram,
        MeshRendererIssue::MissingAttributeConfig { buffer: 0 },
        MeshRendererIssue::MissingAttributeConfig { buffer: 2 },
        MeshRendererIssue::BuffersWithoutAttributes,
    ];
    assert_eq!(builder.assert_integrity(&registry), issues);
    match builder.build(&registry) {
        Err(reported) => assert_eq!(reported, issues),
        Ok(_) => panic!("the description is not sound"),
    }
}

#[test]
fn a_stride_that_cannot_be_used_is_an_error() {
    let mut registry = ProgramRegistry::new();
    let program = link_mesh_program(&mut registry, 10, &[("model_transform", gl::FLOAT_VEC3, 2)]);
    let builder = MeshRenderer::builder()
        .shader(program)
        .add_buffer(triangle())
        .add_buffer(triangle())
        .add_buffer(triangle())
        .add_attribute("nothing", 0, 0)
        .add_attribute("negative", -1, 1)
        .add_attribute("more", 3, 1)
        .add_attribute("huge", i32::MAX, 2);
    assert_eq!(
        builder.assert_integrity(&registry),
        vec![
            MeshRendererIssue::ModelTransformNotMat4 { actual: gl::FLOAT_VEC3 },
            MeshRendererIssue::UnusableStride { buffer: 0 },
            MeshRendererIssue::UnusableStride { buffer: 1 },
            MeshRendererIssue::UnusableStride { buffer: 2 },
        ]
    );
    assert!(!MeshRendererIssue::NoModelTransform.is_error());
    assert!(!MeshRendererIssue::ModelTransformNotMat4 { actual: 1 }.is_error());
    assert!(!MeshRendererIssue::MissingAttributeConfig { buffer: 0 }.is_error());
    assert!(MeshRendererIssue::NoVertexBuffers.is_error());
    assert!(MeshRendererIssue::NoProgram.is_error());
    assert!(MeshRendererIssue::NoAttributes.is_error());
    assert!(MeshRendererIssue::BuffersWithoutAttributes.is_error());
    assert!(MeshRendererIssue::TooManyBuffers.is_error());
    assert!(MeshRendererIssue::TooManyVertices.is_error());
    assert!(MeshRendererIssue::UnusableStride { buffer: 0 }.is_error());
}

#[test]
fn a_model_transform_of_the_wrong_type_is_refused_when_drawing() {
    let mut registry = ProgramRegistry::new();
    let program = link_mesh_program(&mut registry, 10, &[("model_transform", gl::FLOAT_VEC3, 2)]);
    let builder =
        MeshRenderer::builder().shader(program).add_buffer(triangle()).add_attribute("position", 3, 0);
    let (report, _) = run_mesh_build(
        builder,
        &registry,
        vec![
            GlReply::Names(vec![4]),
            GlReply::Names(vec![5]),
            GlReply::Done,
            GlReply::Integer(0),
        ],
    );
    assert_eq!(
        report.renderer.draw(&registry),
        Err(RenderError::Uniform(UniformError::TypeMismatch {
            name: "model_transform".to_string(),
            attempted: UniformKind::Mat4,
            actual: gl::FLOAT_VEC3,
        }))
    );
    assert!(registry.remove(program, 0).is_some());
    assert_eq!(report.renderer.draw(&registry), Err(RenderError::ProgramDestroyed));
}

#[test]
fn the_mesh_building_wants_as_many_names_as_buffers() {
    let mut registry = ProgramRegistry::new();
    let program = link_mesh_program(&mut registry, 10, &[]);
    let builder = MeshRenderer::builder()
        .shader(program)
        .add_buffer(triangle())
        .add_buffer(triangle())
        .add_attribute("a", 3, 0)
        .add_attribute("b", 3, 1);
    let start = builder.build(&registry).unwrap();
    let state = match start.build.resume(GlReply::Names(vec![4])) {
        Step::Call { next, .. } => next,
        _ => panic!("the buffers should be asked for"),
    };
    let state = match state.resume(GlReply::Names(vec![5])) {
        Step::OutOfTurn { state } => state,
        _ => panic!("one name is not enough for two buffers"),
    };
    let state = match state.resume(GlReply::Names(vec![5, 6])) {
        Step::Call { next, .. } => next,
        _ => panic!("the first buffer should be filled"),
    };
    assert!(matches!(state.resume(GlReply::Integer(0)), Step::OutOfTurn { .. }));
}
