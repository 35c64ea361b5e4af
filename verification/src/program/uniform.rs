//! Typed slots for the active uniforms of a program.

use crate::gl_call::{GlCall, GlCallView};
use crate::gl_types::{
    GlEnum, GlFloat, FLOAT, FLOAT_MAT2, FLOAT_MAT3, FLOAT_MAT4, FLOAT_VEC2, FLOAT_VEC3, FLOAT_VEC4,
    INT, SAMPLER_2D,
};
use crate::program::{ProgramHandle, ProgramIdType, ProgramRegistry, RegistryView};
use vstd::prelude::*;
use vstd::string::StringExecFns;

verus! {

/// What the driver reports of one active uniform of a linked program.
#[derive(Debug, PartialEq, Eq)]
pub struct ActiveUniform {
    pub name: String,
    pub location: i32,
    pub value_type: GlEnum,
    pub size: i32,
}

pub struct ActiveUniformView {
    pub name: Seq<char>,
    pub location: i32,
    pub value_type: GlEnum,
    pub size: i32,
}

impl View for ActiveUniform {
    type V = ActiveUniformView;

    open spec fn view(&self) -> ActiveUniformView {
        ActiveUniformView {
            name: self.name@,
            location: self.location,
            value_type: self.value_type,
            size: self.size,
        }
    }
}

impl DeepView for ActiveUniform {
    type V = ActiveUniformView;

    open spec fn deep_view(&self) -> ActiveUniformView {
        self@
    }
}

/// One digit of a number, for digits up to fifteen.
pub open spec fn digit_label(digit: nat) -> Seq<char> {
    if digit == 0 {
        "0"@
    } else if digit == 1 {
        "1"@
    } else if digit == 2 {
        "2"@
    } else if digit == 3 {
        "3"@
    } else if digit == 4 {
        "4"@
    } else if digit == 5 {
        "5"@
    } else if digit == 6 {
        "6"@
    } else if digit == 7 {
        "7"@
    } else if digit == 8 {
        "8"@
    } else if digit == 9 {
        "9"@
    } else if digit == 10 {
        "a"@
    } else if digit == 11 {
        "b"@
    } else if digit == 12 {
        "c"@
    } else if digit == 13 {
        "d"@
    } else if digit == 14 {
        "e"@
    } else {
        "f"@
    }
}

/// A number written in the base `base`, without leading zeros.
pub open spec fn number_label(value: nat, base: nat) -> Seq<char>
    decreases value,
    via number_label_shrinks
{
    if base < 2 || value < base {
        digit_label(value)
    } else {
        number_label(value / base, base) + digit_label(value % base)
    }
}

#[via_fn]
proof fn number_label_shrinks(value: nat, base: nat) {
    if !(base < 2 || value < base) {
        lemma_quotient_smaller(value, base);
    }
}

/// Dividing by two or more makes a number that is not zero smaller.
proof fn lemma_quotient_smaller(value: nat, base: nat)
    requires
        base >= 2,
        value >= base,
    ensures
        value / base < value,
{
    vstd::arithmetic::div_mod::lemma_div_decreases(value as int, base as int);
}

/// The name of a uniform type as the shading language writes it; of a type
/// that has none here, its number in hexadecimal and in decimal.
pub open spec fn type_label(value_type: GlEnum) -> Seq<char> {
    if value_type == FLOAT {
        "float"@
    } else if value_type == FLOAT_MAT4 {
        "mat4"@
    } else if value_type == FLOAT_MAT3 {
        "mat3"@
    } else if value_type == FLOAT_MAT2 {
        "mat2"@
    } else if value_type == FLOAT_VEC4 {
        "vec4"@
    } else if value_type == FLOAT_VEC3 {
        "vec3"@
    } else if value_type == FLOAT_VEC2 {
        "vec2"@
    } else if value_type == INT {
        "int"@
    } else if value_type == SAMPLER_2D {
        "sampler2D"@
    } else {
        "<unknown type 0x"@ + number_label(value_type as nat, 16) + " ("@ + number_label(
            value_type as nat,
            10,
        ) + ")>"@
    }
}

fn digit_text(digit: u32) -> (label: &'static str)
    ensures
        label@ == digit_label(digit as nat),
{
    if digit == 0 {
        "0"
    } else if digit == 1 {
        "1"
    } else if digit == 2 {
        "2"
    } else if digit == 3 {
        "3"
    } else if digit == 4 {
        "4"
    } else if digit == 5 {
        "5"
    } else if digit == 6 {
        "6"
    } else if digit == 7 {
        "7"
    } else if digit == 8 {
        "8"
    } else if digit == 9 {
        "9"
    } else if digit == 10 {
        "a"
    } else if digit == 11 {
        "b"
    } else if digit == 12 {
        "c"
    } else if digit == 13 {
        "d"
    } else if digit == 14 {
        "e"
    } else {
        "f"
    }
}

/// Appends a number written in the base `base`.
fn append_number(text: &mut String, value: u32, base: u32)
    requires
        2 <= base <= 16,
    ensures
        final(text)@ == old(text)@ + number_label(value as nat, base as nat),
    decreases value,
{
    if value < base {
        text.append(digit_text(value));
    } else {
        proof {
            lemma_quotient_smaller(value as nat, base as nat);
        }
        append_number(text, value / base, base);
        text.append(digit_text(value % base));
    }
}

/// The name of a uniform type.
pub fn stringify_type(value_type: GlEnum) -> (label: String)
    ensures
        label@ == type_label(value_type),
{
    if value_type == FLOAT {
        String::from_str("float")
    } else if value_type == FLOAT_MAT4 {
        String::from_str("mat4")
    } else if value_type == FLOAT_MAT3 {
        String::from_str("mat3")
    } else if value_type == FLOAT_MAT2 {
        String::from_str("mat2")
    } else if value_type == FLOAT_VEC4 {
        String::from_str("vec4")
    } else if value_type == FLOAT_VEC3 {
        String::from_str("vec3")
    } else if value_type == FLOAT_VEC2 {
        String::from_str("vec2")
    } else if value_type == INT {
        String::from_str("int")
    } else if value_type == SAMPLER_2D {
        String::from_str("sampler2D")
    } else {
        let mut label = String::from_str("<unknown type 0x");
        append_number(&mut label, value_type, 16);
        label.append(" (");
        append_number(&mut label, value_type, 10);
        label.append(")>");
        label
    }
}

/// The kinds of value that a slot can be asked to take.
#[derive(Clone, Copy, Debug, PartialEq, Eq, Structural)]
pub enum UniformKind {
    Mat4,
    Float,
    Vec3,
    Vec4,
    IntOrSampler,
}

impl UniformKind {
    /// Whether a uniform of type `value_type` takes a value of this kind.
    pub open spec fn fits(self, value_type: GlEnum) -> bool {
        match self {
            UniformKind::Mat4 => value_type == FLOAT_MAT4,
            UniformKind::Float => value_type == FLOAT,
            UniformKind::Vec3 => value_type == FLOAT_VEC3,
            UniformKind::Vec4 => value_type == FLOAT_VEC4,
            UniformKind::IntOrSampler => value_type == INT || value_type == SAMPLER_2D,
        }
    }

    /// The name of the kind in diagnostics.
    pub open spec fn label(self) -> Seq<char> {
        match self {
            UniformKind::Mat4 => "mat4"@,
            UniformKind::Float => "float"@,
            UniformKind::Vec3 => "vec3"@,
            UniformKind::Vec4 => "vec4"@,
            UniformKind::IntOrSampler => "int or sampler2D"@,
        }
    }

    /// Whether a uniform of type `value_type` takes a value of this kind.
    pub fn accepts(self, value_type: GlEnum) -> (fits: bool)
        ensures
            fits == self.fits(value_type),
    {
        match self {
            UniformKind::Mat4 => value_type == FLOAT_MAT4,
            UniformKind::Float => value_type == FLOAT,
            UniformKind::Vec3 => value_type == FLOAT_VEC3,
            UniformKind::Vec4 => value_type == FLOAT_VEC4,
            UniformKind::IntOrSampler => value_type == INT || value_type == SAMPLER_2D,
        }
    }

    /// The name of the kind in diagnostics.
    pub fn to_string(&self) -> (label: String)
        ensures
            label@ == self.label(),
    {
        match *self {
            UniformKind::Mat4 => String::from_str("mat4"),
            UniformKind::Float => String::from_str("float"),
            UniformKind::Vec3 => String::from_str("vec3"),
            UniformKind::Vec4 => String::from_str("vec4"),
            UniformKind::IntOrSampler => String::from_str("int or sampler2D"),
        }
    }
}

/// Why a slot refused a value. A refused value is never written.
#[derive(Debug, PartialEq, Eq)]
pub enum UniformError {
    /// The uniform `name` has type `actual`, which takes no value of kind `attempted`.
    TypeMismatch { name: String, attempted: UniformKind, actual: GlEnum },
    /// The program that the uniform `name` belongs to is no longer in the registry.
    ProgramDestroyed { name: String },
}

pub enum UniformErrorView {
    TypeMismatch { name: Seq<char>, attempted: UniformKind, actual: GlEnum },
    ProgramDestroyed { name: Seq<char> },
}

impl View for UniformError {
    type V = UniformErrorView;

    open spec fn view(&self) -> UniformErrorView {
        match *self {
            UniformError::TypeMismatch { name, attempted, actual } => UniformErrorView::TypeMismatch {
                name: name@,
                attempted,
                actual,
            },
            UniformError::ProgramDestroyed { name } => UniformErrorView::ProgramDestroyed {
                name: name@,
            },
        }
    }
}

/// One active uniform of one program.
///
/// The slot does not hold the program. It holds the program's handle, and
/// looks the program up in the registry each time a value is written.
#[derive(Debug, PartialEq, Eq)]
pub struct Uniform {
    location: i32,
    size: i32,
    value_type: GlEnum,
    name: String,
    program: ProgramHandle,
}

pub struct UniformView {
    pub location: i32,
    pub size: i32,
    pub value_type: GlEnum,
    pub name: Seq<char>,
    pub program: ProgramHandle,
}

impl View for Uniform {
    type V = UniformView;

    closed spec fn view(&self) -> UniformView {
        UniformView {
            location: self.location,
            size: self.size,
            value_type: self.value_type,
            name: self.name@,
            program: self.program,
        }
    }
}

impl DeepView for Uniform {
    type V = UniformView;

    open spec fn deep_view(&self) -> UniformView {
        self@
    }
}

/// The view of what a setter returns.
pub open spec fn write_result_view(result: Result<GlCall, UniformError>) -> Result<
    GlCallView,
    UniformErrorView,
> {
    match result {
        Ok(call) => Ok(call@),
        Err(error) => Err(error@),
    }
}

impl UniformView {
    /// Why a value of kind `kind` cannot be written through the slot, if it
    /// cannot.
    ///
    /// The type is checked first: a kind that does not fit is refused
    /// whether or not the program is there. Then the program is looked up: a
    /// slot whose program is gone refuses every value.
    pub open spec fn refusal(self, programs: RegistryView, kind: UniformKind) -> Option<
        UniformErrorView,
    > {
        if !kind.fits(self.value_type) {
            Some(
                UniformErrorView::TypeMismatch {
                    name: self.name,
                    attempted: kind,
                    actual: self.value_type,
                },
            )
        } else if !programs.is_live(self.program) {
            Some(UniformErrorView::ProgramDestroyed { name: self.name })
        } else {
            None
        }
    }

    /// What becomes of the attempt to write a value of kind `kind` through
    /// the slot, where `call` is the write, given the name of the program:
    /// a value that is not refused is written to the slot's program, once.
    pub open spec fn write(
        self,
        programs: RegistryView,
        kind: UniformKind,
        call: spec_fn(ProgramIdType) -> GlCallView,
    ) -> Result<GlCallView, UniformErrorView> {
        match self.refusal(programs, kind) {
            Some(error) => Err(error),
            None => Ok(call(programs.program(self.program).id)),
        }
    }
}

/// In a registry whose programs own their slots, the slot that a program
/// has for a name carries that name and the program's handle, so that a
/// value of a kind that fits is written, to that program and no other.
pub proof fn lemma_slot_writes_to_its_program(
    programs: RegistryView,
    handle: ProgramHandle,
    name: Seq<char>,
    kind: UniformKind,
    call: spec_fn(ProgramIdType) -> GlCallView,
)
    requires
        programs.well_formed(),
        programs.is_live(handle),
        programs.program(handle).uniform(name) is Some,
    ensures
        ({
            let slot = programs.program(handle).uniform(name)->0;
            &&& slot.name == name
            &&& slot.program == handle
            &&& kind.fits(slot.value_type) ==> slot.write(programs, kind, call) == Ok::<
                GlCallView,
                UniformErrorView,
            >(call(programs.program(handle).id))
            &&& !kind.fits(slot.value_type) ==> slot.write(programs, kind, call) is Err
        }),
{
    assert(programs.is_live(ProgramHandle { index: handle.index }));
    assert(programs.program(handle).uniforms.contains_key(name));
}

impl Uniform {
    pub fn new(
        name: String,
        location: i32,
        value_type: GlEnum,
        size: i32,
        program: ProgramHandle,
    ) -> (uniform: Uniform)
        ensures
            uniform@ == (UniformView { location, size, value_type, name: name@, program }),
    {
        Uniform { location, size, value_type, name, program }
    }

    /// The name of the program that the slot belongs to, if the program is
    /// still in the registry.
    fn program_id(&self, programs: &ProgramRegistry) -> (id: Option<ProgramIdType>)
        ensures
            id == if programs@.is_live(self@.program) {
                Some(programs@.program(self@.program).id)
            } else {
                None
            },
    {
        match programs.get(self.program) {
            Some(program) => Some(program.id()),
            None => None,
        }
    }

    pub fn size(&self) -> (size: i32)
        ensures
            size == self@.size,
    {
        self.size
    }

    pub fn value_type(&self) -> (value_type: GlEnum)
        ensures
            value_type == self@.value_type,
    {
        self.value_type
    }

    pub fn location(&self) -> (location: i32)
        ensures
            location == self@.location,
    {
        self.location
    }

    pub fn name(&self) -> (name: &String)
        ensures
            name@ == self@.name,
    {
        &self.name
    }

    /// The handle of the program that the slot belongs to.
    pub fn program(&self) -> (program: ProgramHandle)
        ensures
            program == self@.program,
    {
        self.program
    }

    /// A copy of the slot.
    pub fn duplicate(&self) -> (uniform: Uniform)
        ensures
            uniform@ == self@,
    {
        Uniform {
            location: self.location,
            size: self.size,
            value_type: self.value_type,
            name: self.name.clone(),
            program: self.program,
        }
    }

    /// The refusal of a value whose kind does not fit the slot.
    fn type_error(&self, attempted: UniformKind) -> (error: UniformError)
        ensures
            error@ == (UniformErrorView::TypeMismatch {
                name: self@.name,
                attempted,
                actual: self@.value_type,
            }),
    {
        UniformError::TypeMismatch {
            name: self.name.clone(),
            attempted,
            actual: self.value_type,
        }
    }

    /// Checks the kind and looks up the program: the program's name, or why
    /// nothing may be written.
    fn target(&self, programs: &ProgramRegistry, kind: UniformKind) -> (target: Result<
        ProgramIdType,
        UniformError,
    >)
        ensures
            match target {
                Ok(id) => self@.refusal(programs@, kind) is None && id == programs@.program(
                    self@.program,
                ).id,
                Err(error) => self@.refusal(programs@, kind) == Some(error@),
            },
    {
        if !kind.accepts(self.value_type) {
            return Err(self.type_error(kind));
        }
        match self.program_id(programs) {
            Some(id) => Ok(id),
            None => Err(UniformError::ProgramDestroyed { name: self.name.clone() }),
        }
    }

    /// Writes a four-by-four matrix, given column by column, untransposed.
    pub fn set_mat4(&self, programs: &ProgramRegistry, mat: &[GlFloat; 16]) -> (written: Result<
        GlCall,
        UniformError,
    >)
        ensures
            write_result_view(written) == self@.write(
                programs@,
                UniformKind::Mat4,
                |program: ProgramIdType|
                    GlCallView::ProgramUniformMatrix4fv {
                        program,
                        location: self@.location,
                        count: 1,
                        transpose: false,
                        matrix: *mat,
                    },
            ),
    {
        match self.target(programs, UniformKind::Mat4) {
            Ok(program) => Ok(
                GlCall::ProgramUniformMatrix4fv {
                    program,
                    location: self.location,
                    count: 1,
                    transpose: false,
                    matrix: *mat,
                },
            ),
            Err(error) => Err(error),
        }
    }

    /// Writes a scalar.
    pub fn set_float(&self, programs: &ProgramRegistry, value: GlFloat) -> (written: Result<
        GlCall,
        UniformError,
    >)
        ensures
            write_result_view(written) == self@.write(
                programs@,
                UniformKind::Float,
                |program: ProgramIdType|
                    GlCallView::ProgramUniform1f { program, location: self@.location, v0: value },
            ),
    {
        match self.target(programs, UniformKind::Float) {
            Ok(program) => Ok(GlCall::ProgramUniform1f { program, location: self.location, v0: value }),
            Err(error) => Err(error),
        }
    }

    /// Writes a vector of three components, in their order.
    pub fn set_vec3(&self, programs: &ProgramRegistry, vec: &[GlFloat; 3]) -> (written: Result<
        GlCall,
        UniformError,
    >)
        ensures
            write_result_view(written) == self@.write(
                programs@,
                UniformKind::Vec3,
                |program: ProgramIdType|
                    GlCallView::ProgramUniform3f {
                        program,
                        location: self@.location,
                        v0: vec[0],
                        v1: vec[1],
                        v2: vec[2],
                    },
            ),
    {
        match self.target(programs, UniformKind::Vec3) {
            Ok(program) => Ok(
                GlCall::ProgramUniform3f {
                    program,
                    location: self.location,
                    v0: vec[0],
                    v1: vec[1],
                    v2: vec[2],
                },
            ),
            Err(error) => Err(error),
        }
    }

    /// Writes a vector of four components, in their order.
    pub fn set_vec4(&self, programs: &ProgramRegistry, vec: &[GlFloat; 4]) -> (written: Result<
        GlCall,
        UniformError,
    >)
        ensures
            write_result_view(written) == self@.write(
                programs@,
                UniformKind::Vec4,
                |program: ProgramIdType|
                    GlCallView::ProgramUniform4f {
                        program,
                        location: self@.location,
                        v0: vec[0],
                        v1: vec[1],
                        v2: vec[2],
                        v3: vec[3],
                    },
            ),
    {
        match self.target(programs, UniformKind::Vec4) {
            Ok(program) => Ok(
                GlCall::ProgramUniform4f {
                    program,
                    location: self.location,
                    v0: vec[0],
                    v1: vec[1],
                    v2: vec[2],
                    v3: vec[3],
                },
            ),
            Err(error) => Err(error),
        }
    }

    /// Writes an integer, or the texture unit of a two-dimensional sampler.
    pub fn set_int(&self, programs: &ProgramRegistry, value: i32) -> (written: Result<
        GlCall,
        UniformError,
    >)
        ensures
            write_result_view(written) == self@.write(
                programs@,
                UniformKind::IntOrSampler,
                |program: ProgramIdType|
                    GlCallView::ProgramUniform1i { program, location: self@.location, value },
            ),
    {
        match self.target(programs, UniformKind::IntOrSampler) {
            Ok(program) => Ok(GlCall::ProgramUniform1i { program, location: self.location, value }),
            Err(error) => Err(error),
        }
    }
}

} // verus!
