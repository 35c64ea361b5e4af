use pogla::gl_call::{GlCall, GlReply};
use pogla::conversation::Step;
use pogla::program::shader::{Shader, ShaderCompileError, ShaderHandle, ShaderType};

#[test]
fn stage_masks_are_single_bits() {
    assert_eq!(ShaderType::Vertex.mask(), 1 << 0);
    assert_eq!(ShaderType::TesselationControl.mask(), 1 << 1);
    assert_eq!(ShaderType::TesselationEvaluation.mask(), 1 << 2);
    assert_eq!(ShaderType::Geometry.mask(), 1 << 3);
    assert_eq!(ShaderType::Fragment.mask(), 1 << 4);
    assert_eq!(ShaderType::Compute.mask(), 1 << 5);
}

#[test]
fn stage_constants_are_those_of_the_bindings() {
    assert_eq!(ShaderType::Vertex.gl_constant(), gl::VERTEX_SHADER);
    assert_eq!(ShaderType::TesselationControl.gl_constant(), gl::TESS_CONTROL_SHADER);
    assert_eq!(ShaderType::TesselationEvaluation.gl_constant(), gl::TESS_EVALUATION_SHADER);
    assert_eq!(ShaderType::Geometry.gl_constant(), gl::GEOMETRY_SHADER);
    assert_eq!(ShaderType::Fragment.gl_constant(), gl::FRAGMENT_SHADER);
    assert_eq!(ShaderType::Compute.gl_constant(), gl::COMPUTE_SHADER);
}

#[test]
fn compilation_that_succeeds_yields_the_handle() {
    let shader = Shader::new(ShaderType::Fragment).source("#version 450\n").source("void main() {}");
    let (compilation, calls) = shader.compile();
    assert_eq!(calls, vec![GlCall::CreateShader { stage: gl::FRAGMENT_SHADER }]);
    let step = compilation.resume(GlReply::Name(7));
    let compilation = match step {
        Step::Call { next, calls } => {
            assert_eq!(
                calls,
                vec![
                    GlCall::ShaderSource {
                        shader: 7,
                        sources: vec!["#version 450\n".to_string(), "void main() {}".to_string()],
                    },
                    GlCall::CompileShader { shader: 7 },
                    GlCall::GetShaderiv { shader: 7, parameter: gl::COMPILE_STATUS },
                ]
            );
            next
        }
        _ => panic!("the compilation should go on"),
    };
    match compilation.resume(GlReply::Integer(1)) {
        Step::Done { calls, result } => {
            assert!(calls.is_empty());
            assert_eq!(result, Ok(ShaderHandle { shader_type: ShaderType::Fragment, id: 7 }));
        }
        _ => panic!("the compilation should be over"),
    }
}

#[test]
fn compilation_that_fails_reads_the_log_and_deletes_the_shader() {
    let (compilation, _) = Shader::new(ShaderType::Vertex).source("oops").compile();
    let compilation = match compilation.resume(GlReply::Name(3)) {
        Step::Call { next, .. } => next,
        _ => panic!("the compilation should go on"),
    };
    let compilation = match compilation.resume(GlReply::Integer(0)) {
        Step::Call { next, calls } => {
            assert_eq!(calls, vec![GlCall::GetShaderiv { shader: 3, parameter: gl::INFO_LOG_LENGTH }]);
            next
        }
        _ => panic!("the log should be asked for"),
    };
    let compilation = match compilation.resume(GlReply::Integer(12)) {
        Step::Call { next, calls } => {
            assert_eq!(calls, vec![GlCall::GetShaderInfoLog { shader: 3, capacity: 12 }]);
            next
        }
        _ => panic!("the log should be read"),
    };
    match compilation.resume(GlReply::Text("syntax error".to_string())) {
        Step::Done { calls, result } => {
            assert_eq!(calls, vec![GlCall::DeleteShader { shader: 3 }]);
            assert_eq!(result, Err(ShaderCompileError::CompilationError("syntax error".to_string())));
        }
        _ => panic!("the compilation should be over"),
    }
}
