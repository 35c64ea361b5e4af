use pogla::definitions::{
    DELTA_TIME_UNIFORM_NAME, MODEL_TRANSFORM_UNIFORM_NAME, PROJECTION_UNIFORM_NAME,
    VIEW_TRANSFORM_UNIFORM_NAME,
};
use pogla::gl_call::GlCall;
use pogla::gl_check::{check_gl_error, stringify_gl_error_code, GlError};
use pogla::gl_types;
use pogla::gl_types::{words_to_bytes, DrawMode, GlFloat};
use pogla::program::shader::{Shader, ShaderHandle, ShaderType};

#[test]
fn the_enumerants_are_those_of_the_bindings() {
    assert_eq!(gl_types::NO_ERROR, gl::NO_ERROR);
    assert_eq!(gl_types::INVALID_ENUM, gl::INVALID_ENUM);
    assert_eq!(gl_types::INVALID_VALUE, gl::INVALID_VALUE);
    assert_eq!(gl_types::INVALID_OPERATION, gl::INVALID_OPERATION);
    assert_eq!(gl_types::STACK_OVERFLOW, gl::STACK_OVERFLOW);
    assert_eq!(gl_types::STACK_UNDERFLOW, gl::STACK_UNDERFLOW);
    assert_eq!(gl_types::OUT_OF_MEMORY, gl::OUT_OF_MEMORY);
    assert_eq!(gl_types::INVALID_FRAMEBUFFER_OPERATION, gl::INVALID_FRAMEBUFFER_OPERATION);
    assert_eq!(gl_types::CONTEXT_LOST, gl::CONTEXT_LOST);
    assert_eq!(gl_types::TRUE, gl::TRUE as i32);
    assert_eq!(gl_types::INT, gl::INT);
    assert_eq!(gl_types::FLOAT, gl::FLOAT);
    assert_eq!(gl_types::FLOAT_VEC2, gl::FLOAT_VEC2);
    assert_eq!(gl_types::FLOAT_VEC3, gl::FLOAT_VEC3);
    assert_eq!(gl_types::FLOAT_VEC4, gl::FLOAT_VEC4);
    assert_eq!(gl_types::FLOAT_MAT2, gl::FLOAT_MAT2);
    assert_eq!(gl_types::FLOAT_MAT3, gl::FLOAT_MAT3);
    assert_eq!(gl_types::FLOAT_MAT4, gl::FLOAT_MAT4);
    assert_eq!(gl_types::SAMPLER_2D, gl::SAMPLER_2D);
    assert_eq!(gl_types::FRAGMENT_SHADER, gl::FRAGMENT_SHADER);
    assert_eq!(gl_types::VERTEX_SHADER, gl::VERTEX_SHADER);
    assert_eq!(gl_types::GEOMETRY_SHADER, gl::GEOMETRY_SHADER);
    assert_eq!(gl_types::TESS_EVALUATION_SHADER, gl::TESS_EVALUATION_SHADER);
    assert_eq!(gl_types::TESS_CONTROL_SHADER, gl::TESS_CONTROL_SHADER);
    assert_eq!(gl_types::COMPUTE_SHADER, gl::COMPUTE_SHADER);
    assert_eq!(gl_types::COMPILE_STATUS, gl::COMPILE_STATUS);
    assert_eq!(gl_types::LINK_STATUS, gl::LINK_STATUS);
    assert_eq!(gl_types::INFO_LOG_LENGTH, gl::INFO_LOG_LENGTH);
    assert_eq!(gl_types::ACTIVE_UNIFORMS, gl::ACTIVE_UNIFORMS);
    assert_eq!(gl_types::ACTIVE_UNIFORM_MAX_LENGTH, gl::ACTIVE_UNIFORM_MAX_LENGTH);
    assert_eq!(gl_types::ARRAY_BUFFER, gl::ARRAY_BUFFER);
    assert_eq!(gl_types::SHADER_STORAGE_BUFFER, gl::SHADER_STORAGE_BUFFER);
    assert_eq!(gl_types::STATIC_DRAW, gl::STATIC_DRAW);
    assert_eq!(gl_types::DYNAMIC_DRAW, gl::DYNAMIC_DRAW);
    assert_eq!(gl_types::ALL_BARRIER_BITS, gl::ALL_BARRIER_BITS);
    assert_eq!(gl_types::DEPTH_BUFFER_BIT, gl::DEPTH_BUFFER_BIT);
    assert_eq!(gl_types::COLOR_BUFFER_BIT, gl::COLOR_BUFFER_BIT);
}

#[test]
fn the_draw_modes_are_those_of_the_bindings() {
    assert_eq!(DrawMode::Triangles.gl_constant(), gl::TRIANGLES);
    assert_eq!(DrawMode::TrianglesAdjacency.gl_constant(), gl::TRIANGLES_ADJACENCY);
    assert_eq!(DrawMode::TriangleStrip.gl_constant(), gl::TRIANGLE_STRIP);
    assert_eq!(DrawMode::TriangleStripAdjacency.gl_constant(), gl::TRIANGLE_STRIP_ADJACENCY);
    assert_eq!(DrawMode::TriangleFan.gl_constant(), gl::TRIANGLE_FAN);
    assert_eq!(DrawMode::Lines.gl_constant(), gl::LINES);
    assert_eq!(DrawMode::LinesAdjacency.gl_constant(), gl::LINES_ADJACENCY);
    assert_eq!(DrawMode::LineStrip.gl_constant(), gl::LINE_STRIP);
    assert_eq!(DrawMode::LineStripAdjacency.gl_constant(), gl::LINE_STRIP_ADJACENCY);
    assert_eq!(DrawMode::LineLoop.gl_constant(), gl::LINE_LOOP);
    assert_eq!(DrawMode::Points.gl_constant(), gl::POINTS);
    assert_eq!(DrawMode::Patches.gl_constant(), gl::PATCHES);
    assert_eq!(DrawMode::default(), DrawMode::Triangles);
}

#[test]
fn the_well_known_uniforms_have_their_names() {
    assert_eq!(MODEL_TRANSFORM_UNIFORM_NAME, "model_transform");
    assert_eq!(VIEW_TRANSFORM_UNIFORM_NAME, "view_transform");
    assert_eq!(PROJECTION_UNIFORM_NAME, "projection");
    assert_eq!(DELTA_TIME_UNIFORM_NAME, "uDeltaTime");
}

#[test]
fn floats_are_carried_bit_for_bit() {
    for value in [0.0f32, -0.0, 1.0, 4.0, f32::MIN_POSITIVE, f32::INFINITY, f32::NAN, -3.25] {
        let carried = GlFloat::from_bits(value.to_bits());
        assert_eq!(carried.to_bits(), value.to_bits());
        assert_eq!(carried.bits, value.to_bits());
    }
    assert_eq!(GlFloat::zero().to_bits(), 0.0f32.to_bits());
}

#[test]
fn values_are_written_least_significant_byte_first() {
    let words = vec![
        GlFloat::from_bits(0x0403_0201),
        GlFloat::from_bits(1.0f32.to_bits()),
        GlFloat::from_bits(u32::MAX),
    ];
    assert_eq!(
        words_to_bytes(&words),
        vec![1, 2, 3, 4, 0x00, 0x00, 0x80, 0x3F, 0xFF, 0xFF, 0xFF, 0xFF]
    );
    assert_eq!(words_to_bytes(&vec![]), Vec::<u8>::new());
    let mut expected = vec![];
    for value in [1.5f32, -2.0, 1e-20] {
        expected.extend(value.to_le_bytes());
    }
    let words: Vec<GlFloat> =
        [1.5f32, -2.0, 1e-20].iter().map(|v| GlFloat::from_bits(v.to_bits())).collect();
    assert_eq!(words_to_bytes(&words), expected);
}

#[test]
fn error_codes_have_their_names() {
    assert_eq!(stringify_gl_error_code(gl::INVALID_ENUM), "GL_INVALID_ENUM");
    assert_eq!(stringify_gl_error_code(gl::INVALID_VALUE), "GL_INVALID_VALUE");
    assert_eq!(stringify_gl_error_code(gl::INVALID_OPERATION), "GL_INVALID_OPERATION");
    assert_eq!(stringify_gl_error_code(gl::STACK_OVERFLOW), "GL_STACK_OVERFLOW");
    assert_eq!(stringify_gl_error_code(gl::STACK_UNDERFLOW), "GL_STACK_UNDERFLOW");
    assert_eq!(stringify_gl_error_code(gl::OUT_OF_MEMORY), "GL_OUT_OF_MEMORY");
    assert_eq!(
        stringify_gl_error_code(gl::INVALID_FRAMEBUFFER_OPERATION),
        "GL_INVALID_FRAMEBUFFER_OPERATION"
    );
    assert_eq!(stringify_gl_error_code(gl::CONTEXT_LOST), "GL_CONTEXT_LOST");
    assert_eq!(stringify_gl_error_code(gl::NO_ERROR), "<unknown-error>");
    assert_eq!(stringify_gl_error_code(0x1234), "<unknown-error>");
}

#[test]
fn only_an_error_is_reported() {
    assert_eq!(check_gl_error(gl::NO_ERROR, "program.rs", 46, None), None);
    assert_eq!(
        check_gl_error(gl::INVALID_VALUE, "program.rs", 46, None),
        Some(GlError {
            file: "program.rs".to_string(),
            line: 46,
            sub_expression: None,
            code: 0x0501,
            name: "GL_INVALID_VALUE".to_string(),
        })
    );
    assert_eq!(
        check_gl_error(77, "mesh.rs", 1, Some(3)),
        Some(GlError {
            file: "mesh.rs".to_string(),
            line: 1,
            sub_expression: Some(3),
            code: 77,
            name: "<unknown-error>".to_string(),
        })
    );
}

#[test]
fn shaders_keep_their_stage_and_release_their_handle() {
    assert_eq!(Shader::new(ShaderType::Geometry).shader_type(), ShaderType::Geometry);
    let shader = Shader::new(ShaderType::Compute).source("a").source("b");
    assert_eq!(shader.shader_type(), ShaderType::Compute);
    assert_eq!(shader.duplicate().shader_type(), ShaderType::Compute);
    assert_eq!(
        ShaderHandle { shader_type: ShaderType::Vertex, id: 5 }.release(),
        GlCall::DeleteShader { shader: 5 }
    );
    assert_eq!(ShaderType::Vertex.to_string(), "vertex");
    assert_eq!(ShaderType::TesselationControl.to_string(), "tess_control");
    assert_eq!(ShaderType::TesselationEvaluation.to_string(), "tess_evaluation");
    assert_eq!(ShaderType::Geometry.to_string(), "geometry");
    assert_eq!(ShaderType::Fragment.to_string(), "fragment");
    assert_eq!(ShaderType::Compute.to_string(), "compute");
}
