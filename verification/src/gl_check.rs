//! What an error code of the context means.

use crate::gl_types::{
    CONTEXT_LOST, INVALID_ENUM, INVALID_FRAMEBUFFER_OPERATION, INVALID_OPERATION, INVALID_VALUE,
    NO_ERROR, OUT_OF_MEMORY, STACK_OVERFLOW, STACK_UNDERFLOW,
};
use vstd::prelude::*;
use vstd::string::StringExecFns;

verus! {

/// The name of an error code.
pub open spec fn error_name(code: u32) -> Seq<char> {
    if code == INVALID_ENUM {
        "GL_INVALID_ENUM"@
    } else if code == INVALID_VALUE {
        "GL_INVALID_VALUE"@
    } else if code == INVALID_OPERATION {
        "GL_INVALID_OPERATION"@
    } else if code == STACK_OVERFLOW {
        "GL_STACK_OVERFLOW"@
    } else if code == STACK_UNDERFLOW {
        "GL_STACK_UNDERFLOW"@
    } else if code == OUT_OF_MEMORY {
        "GL_OUT_OF_MEMORY"@
    } else if code == INVALID_FRAMEBUFFER_OPERATION {
        "GL_INVALID_FRAMEBUFFER_OPERATION"@
    } else if code == CONTEXT_LOST {
        "GL_CONTEXT_LOST"@
    } else {
        "<unknown-error>"@
    }
}

/// The name of an error code.
pub fn stringify_gl_error_code(code: u32) -> (name: String)
    ensures
        name@ == error_name(code),
{
    if code == INVALID_ENUM {
        String::from_str("GL_INVALID_ENUM")
    } else if code == INVALID_VALUE {
        String::from_str("GL_INVALID_VALUE")
    } else if code == INVALID_OPERATION {
        String::from_str("GL_INVALID_OPERATION")
    } else if code == STACK_OVERFLOW {
        String::from_str("GL_STACK_OVERFLOW")
    } else if code == STACK_UNDERFLOW {
        String::from_str("GL_STACK_UNDERFLOW")
    } else if code == OUT_OF_MEMORY {
        String::from_str("GL_OUT_OF_MEMORY")
    } else if code == INVALID_FRAMEBUFFER_OPERATION {
        String::from_str("GL_INVALID_FRAMEBUFFER_OPERATION")
    } else if code == CONTEXT_LOST {
        String::from_str("GL_CONTEXT_LOST")
    } else {
        String::from_str("<unknown-error>")
    }
}

/// An error that the context reported, and where it was asked for.
#[derive(Debug, PartialEq, Eq)]
pub struct GlError {
    pub file: String,
    pub line: u32,
    /// The statement of a checked group of statements, counted from one.
    pub sub_expression: Option<u32>,
    pub code: u32,
    pub name: String,
}

/// What is to be reported of the error code that the context returned when
/// it was asked at `line` of `file`: nothing if the code is that of no error.
pub fn check_gl_error(error_code: u32, file: &str, line: u32, sub_expression: Option<u32>) -> (error:
    Option<GlError>)
    ensures
        error is Some <==> error_code != NO_ERROR,
        error matches Some(error) ==> {
            &&& error.file@ == file@
            &&& error.line == line
            &&& error.sub_expression == sub_expression
            &&& error.code == error_code
            &&& error.name@ == error_name(error_code)
        },
{
    if error_code != NO_ERROR {
        Some(
            GlError {
                file: String::from_str(file),
                line,
                sub_expression,
                code: error_code,
                name: stringify_gl_error_code(error_code),
            },
        )
    } else {
        None
    }
}

} // verus!
