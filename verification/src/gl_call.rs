//! The OpenGL calls that the library asks for, and what the driver answers.
//!
//! A call is a plain value. Whoever owns the context turns it into the entry
//! point of the same name, with the arguments in the order of the fields.

use crate::gl_types::GlFloat;
use vstd::prelude::*;

verus! {

/// One OpenGL call, named after its entry point.
#[derive(Debug, PartialEq, Eq)]
pub enum GlCall {
    /// Creates a program object. Answered by its name.
    CreateProgram,
    /// Creates a shader object for one stage. Answered by its name.
    CreateShader { stage: u32 },
    /// Replaces the source of a shader by the fragments, concatenated in order.
    ShaderSource { shader: u32, sources: Vec<String> },
    /// Compiles the source of a shader.
    CompileShader { shader: u32 },
    /// Reads one integer parameter of a shader. Answered by an integer.
    GetShaderiv { shader: u32, parameter: u32 },
    /// Reads the diagnostic log of a shader. Answered by a text.
    GetShaderInfoLog { shader: u32, capacity: i32 },
    /// Deletes a shader object.
    DeleteShader { shader: u32 },
    /// Attaches a shader to a program.
    AttachShader { program: u32, shader: u32 },
    /// Links the shaders attached to a program.
    LinkProgram { program: u32 },
    /// Reads one integer parameter of a program. Answered by an integer.
    GetProgramiv { program: u32, parameter: u32 },
    /// Reads the diagnostic log of a program. Answered by a text.
    GetProgramInfoLog { program: u32, capacity: i32 },
    /// Deletes a program object.
    DeleteProgram { program: u32 },
    /// Describes one active uniform of a program. Answered by a uniform description.
    GetActiveUniform { program: u32, index: u32, capacity: i32 },
    /// Looks up the location of a named uniform. Answered by an integer.
    GetUniformLocation { program: u32, name: String },
    /// Looks up the location of a named vertex attribute. Answered by an integer.
    GetAttribLocation { program: u32, name: String },
    /// Makes a program the current one; zero makes none current.
    UseProgram { program: u32 },
    /// Writes a scalar uniform of a program.
    ProgramUniform1f { program: u32, location: i32, v0: GlFloat },
    /// Writes a three-component uniform of a program.
    ProgramUniform3f { program: u32, location: i32, v0: GlFloat, v1: GlFloat, v2: GlFloat },
    /// Writes a four-component uniform of a program.
    ProgramUniform4f {
        program: u32,
        location: i32,
        v0: GlFloat,
        v1: GlFloat,
        v2: GlFloat,
        v3: GlFloat,
    },
    /// Writes an integer or sampler uniform of a program.
    ProgramUniform1i { program: u32, location: i32, value: i32 },
    /// Writes a four-by-four matrix uniform of a program.
    ProgramUniformMatrix4fv {
        program: u32,
        location: i32,
        count: i32,
        transpose: bool,
        matrix: [GlFloat; 16],
    },
    /// Reserves names for vertex array objects. Answered by the names.
    GenVertexArrays { count: i32 },
    /// Makes a vertex array object the current one; zero makes none current.
    BindVertexArray { array: u32 },
    /// Deletes vertex array objects.
    DeleteVertexArrays { arrays: Vec<u32> },
    /// Reserves names for buffer objects. Answered by the names.
    GenBuffers { count: i32 },
    /// Allocates the store of a buffer and fills it with the bytes.
    NamedBufferData { buffer: u32, data: Vec<u8>, usage: u32 },
    /// Binds a buffer to a target.
    BindBuffer { target: u32, buffer: u32 },
    /// Binds a buffer to an indexed binding point of a target.
    BindBufferBase { target: u32, index: u32, buffer: u32 },
    /// Deletes buffer objects.
    DeleteBuffers { buffers: Vec<u32> },
    /// Describes where one vertex attribute lies in the bound array buffer.
    VertexAttribPointer {
        index: u32,
        size: i32,
        component_type: u32,
        normalized: bool,
        stride: i32,
        offset: usize,
    },
    /// Enables a vertex attribute of the current vertex array object.
    EnableVertexAttribArray { index: u32 },
    /// Enables a vertex attribute of a named vertex array object.
    EnableVertexArrayAttrib { array: u32, index: u32 },
    /// Draws primitives from the enabled arrays.
    DrawArrays { mode: u32, first: i32, count: i32 },
    /// Launches a grid of compute work groups.
    DispatchCompute { groups_x: u32, groups_y: u32, groups_z: u32 },
    /// Orders memory transactions issued before the call against those after it.
    MemoryBarrier { barriers: u32 },
    /// Clears the buffers of the framebuffer that the mask names.
    Clear { mask: u32 },
}

/// What a [`GlCall`] is to a specification: the same call over sequences.
pub enum GlCallView {
    CreateProgram,
    CreateShader { stage: u32 },
    ShaderSource { shader: u32, sources: Seq<Seq<char>> },
    CompileShader { shader: u32 },
    GetShaderiv { shader: u32, parameter: u32 },
    GetShaderInfoLog { shader: u32, capacity: i32 },
    DeleteShader { shader: u32 },
    AttachShader { program: u32, shader: u32 },
    LinkProgram { program: u32 },
    GetProgramiv { program: u32, parameter: u32 },
    GetProgramInfoLog { program: u32, capacity: i32 },
    DeleteProgram { program: u32 },
    GetActiveUniform { program: u32, index: u32, capacity: i32 },
    GetUniformLocation { program: u32, name: Seq<char> },
    GetAttribLocation { program: u32, name: Seq<char> },
    UseProgram { program: u32 },
    ProgramUniform1f { program: u32, location: i32, v0: GlFloat },
    ProgramUniform3f { program: u32, location: i32, v0: GlFloat, v1: GlFloat, v2: GlFloat },
    ProgramUniform4f {
        program: u32,
        location: i32,
        v0: GlFloat,
        v1: GlFloat,
        v2: GlFloat,
        v3: GlFloat,
    },
    ProgramUniform1i { program: u32, location: i32, value: i32 },
    ProgramUniformMatrix4fv {
        program: u32,
        location: i32,
        count: i32,
        transpose: bool,
        matrix: [GlFloat; 16],
    },
    GenVertexArrays { count: i32 },
    BindVertexArray { array: u32 },
    DeleteVertexArrays { arrays: Seq<u32> },
    GenBuffers { count: i32 },
    NamedBufferData { buffer: u32, data: Seq<u8>, usage: u32 },
    BindBuffer { target: u32, buffer: u32 },
    BindBufferBase { target: u32, index: u32, buffer: u32 },
    DeleteBuffers { buffers: Seq<u32> },
    VertexAttribPointer {
        index: u32,
        size: i32,
        component_type: u32,
        normalized: bool,
        stride: i32,
        offset: usize,
    },
    EnableVertexAttribArray { index: u32 },
    EnableVertexArrayAttrib { array: u32, index: u32 },
    DrawArrays { mode: u32, first: i32, count: i32 },
    DispatchCompute { groups_x: u32, groups_y: u32, groups_z: u32 },
    MemoryBarrier { barriers: u32 },
    Clear { mask: u32 },
}

impl View for GlCall {
    type V = GlCallView;

    open spec fn view(&self) -> GlCallView {
        match *self {
            GlCall::CreateProgram => GlCallView::CreateProgram,
            GlCall::CreateShader { stage } => GlCallView::CreateShader { stage },
            GlCall::ShaderSource { shader, sources } => GlCallView::ShaderSource {
                shader,
                sources: sources.deep_view(),
            },
            GlCall::CompileShader { shader } => GlCallView::CompileShader { shader },
            GlCall::GetShaderiv { shader, parameter } => GlCallView::GetShaderiv {
                shader,
                parameter,
            },
            GlCall::GetShaderInfoLog { shader, capacity } => GlCallView::GetShaderInfoLog {
                shader,
                capacity,
            },
            GlCall::DeleteShader { shader } => GlCallView::DeleteShader { shader },
            GlCall::AttachShader { program, shader } => GlCallView::AttachShader {
                program,
                shader,
            },
            GlCall::LinkProgram { program } => GlCallView::LinkProgram { program },
            GlCall::GetProgramiv { program, parameter } => GlCallView::GetProgramiv {
                program,
                parameter,
            },
            GlCall::GetProgramInfoLog { program, capacity } => GlCallView::GetProgramInfoLog {
                program,
                capacity,
            },
            GlCall::DeleteProgram { program } => GlCallView::DeleteProgram { program },
            GlCall::GetActiveUniform { program, index, capacity } => GlCallView::GetActiveUniform {
                program,
                index,
                capacity,
            },
            GlCall::GetUniformLocation { program, name } => GlCallView::GetUniformLocation {
                program,
                name: name@,
            },
            GlCall::GetAttribLocation { program, name } => GlCallView::GetAttribLocation {
                program,
                name: name@,
            },
            GlCall::UseProgram { program } => GlCallView::UseProgram { program },
            GlCall::ProgramUniform1f { program, location, v0 } => GlCallView::ProgramUniform1f {
                program,
                location,
                v0,
            },
            GlCall::ProgramUniform3f {
                program,
                location,
                v0,
                v1,
                v2,
            } => GlCallView::ProgramUniform3f {
                program,
                location,
                v0,
                v1,
                v2,
            },
            GlCall::ProgramUniform4f {
                program,
                location,
                v0,
                v1,
                v2,
                v3,
            } => GlCallView::ProgramUniform4f {
                program,
                location,
                v0,
                v1,
                v2,
                v3,
            },
            GlCall::ProgramUniform1i { program, location, value } => GlCallView::ProgramUniform1i {
                program,
                location,
                value,
            },
            GlCall::ProgramUniformMatrix4fv {
                program,
                location,
                count,
                transpose,
                matrix,
            } => GlCallView::ProgramUniformMatrix4fv {
                program,
                location,
                count,
                transpose,
                matrix,
            },
            GlCall::GenVertexArrays { count } => GlCallView::GenVertexArrays { count },
            GlCall::BindVertexArray { array } => GlCallView::BindVertexArray { array },
            GlCall::DeleteVertexArrays { arrays } => GlCallView::DeleteVertexArrays {
                arrays: arrays@,
            },
            GlCall::GenBuffers { count } => GlCallView::GenBuffers { count },
            GlCall::NamedBufferData { buffer, data, usage } => GlCallView::NamedBufferData {
                buffer,
                data: data@,
                usage,
            },
            GlCall::BindBuffer { target, buffer } => GlCallView::BindBuffer { target, buffer },
            GlCall::BindBufferBase { target, index, buffer } => GlCallView::BindBufferBase {
                target,
                index,
                buffer,
            },
            GlCall::DeleteBuffers { buffers } => GlCallView::DeleteBuffers { buffers: buffers@ },
            GlCall::VertexAttribPointer {
                index,
                size,
                component_type,
                normalized,
                stride,
                offset,
            } => GlCallView::VertexAttribPointer {
                index,
                size,
                component_type,
                normalized,
                stride,
                offset,
            },
            GlCall::EnableVertexAttribArray { index } => GlCallView::EnableVertexAttribArray {
                index,
            },
            GlCall::EnableVertexArrayAttrib {
                array,
                index,
            } => GlCallView::EnableVertexArrayAttrib {
                array,
                index,
            },
            GlCall::DrawArrays { mode, first, count } => GlCallView::DrawArrays {
                mode,
                first,
                count,
            },
            GlCall::DispatchCompute {
                groups_x,
                groups_y,
                groups_z,
            } => GlCallView::DispatchCompute {
                groups_x,
                groups_y,
                groups_z,
            },
            GlCall::MemoryBarrier { barriers } => GlCallView::MemoryBarrier { barriers },
            GlCall::Clear { mask } => GlCallView::Clear { mask },
        }
    }
}

impl DeepView for GlCall {
    type V = GlCallView;

    open spec fn deep_view(&self) -> GlCallView {
        self@
    }
}

/// A copy of a list of strings.
pub(crate) fn clone_strings(strings: &Vec<String>) -> (copy: Vec<String>)
    ensures
        copy.deep_view() == strings.deep_view(),
{
    let mut copy: Vec<String> = Vec::new();
    let mut i: usize = 0;
    while i < strings.len()
        invariant
            i <= strings.len(),
            copy.len() == i,
            forall|j: int| 0 <= j < i ==> copy[j]@ == strings[j]@,
        decreases strings.len() - i,
    {
        copy.push(strings[i].clone());
        i += 1;
    }
    assert(copy.deep_view() =~= strings.deep_view());
    copy
}

/// A copy of a list of object names.
pub(crate) fn clone_names(names: &Vec<u32>) -> (copy: Vec<u32>)
    ensures
        copy@ == names@,
{
    let mut copy: Vec<u32> = Vec::new();
    let mut i: usize = 0;
    while i < names.len()
        invariant
            i <= names.len(),
            copy@ == names@.subrange(0, i as int),
        decreases names.len() - i,
    {
        copy.push(names[i]);
        assert(copy@ =~= names@.subrange(0, i + 1));
        i += 1;
    }
    assert(copy@ =~= names@);
    copy
}

/// What the driver answered to the last call of a batch.
#[derive(Debug, PartialEq, Eq)]
pub enum GlReply {
    /// The call returns nothing.
    Done,
    /// The name of one new object.
    Name(u32),
    /// The names of several new objects.
    Names(Vec<u32>),
    /// An integer parameter or a location.
    Integer(i32),
    /// A diagnostic log.
    Text(String),
    /// The description of one active uniform.
    ActiveUniform { name: String, size: i32, value_type: u32 },
}

/// What a [`GlReply`] is to a specification.
pub enum GlReplyView {
    Done,
    Name(u32),
    Names(Seq<u32>),
    Integer(i32),
    Text(Seq<char>),
    ActiveUniform { name: Seq<char>, size: i32, value_type: u32 },
}

impl View for GlReply {
    type V = GlReplyView;

    open spec fn view(&self) -> GlReplyView {
        match *self {
            GlReply::Done => GlReplyView::Done,
            GlReply::Name(name) => GlReplyView::Name(name),
            GlReply::Names(names) => GlReplyView::Names(names@),
            GlReply::Integer(value) => GlReplyView::Integer(value),
            GlReply::Text(text) => GlReplyView::Text(text@),
            GlReply::ActiveUniform { name, size, value_type } => GlReplyView::ActiveUniform {
                name: name@,
                size,
                value_type,
            },
        }
    }
}

} // verus!
