//! The vocabulary spoken with the graphics driver: the constants that name
//! object kinds and parameters, the requests the library hands out, and the
//! replies it takes back.

use vstd::prelude::*;
use crate::types::{GLboolean, GLenum, GLint, GLuint};

verus! {

/// The driver's boolean "true".
pub const TRUE: GLboolean = 1;

/// Shader type of a fragment shader.
pub const FRAGMENT_SHADER: GLenum = 0x8B30;

/// Shader type of a vertex shader.
pub const VERTEX_SHADER: GLenum = 0x8B31;

/// Parameter that holds whether a shader's last compilation succeeded.
pub const COMPILE_STATUS: GLenum = 0x8B81;

/// Parameter that holds whether a program's last link succeeded.
pub const LINK_STATUS: GLenum = 0x8B82;

/// Parameter that holds the length of an object's information log, its
/// terminating NUL included.
pub const INFO_LOG_LENGTH: GLenum = 0x8B84;

/// The byte that an information-log buffer is filled with before the driver
/// writes into it: an ASCII space.
pub const BLANK: u8 = 0x20;

/// The two kinds of object that are built and checked.
#[derive(Clone, Copy, PartialEq, Eq, Structural, Debug)]
pub enum Kind {
    Shader,
    Program,
}

/// One call that the caller is to make on the driver.
#[derive(Debug, PartialEq, Eq)]
pub enum Request {
    /// `CreateShader(shader_type)`; answered by `Reply::Object`.
    CreateShader { shader_type: GLenum },
    /// `CreateProgram()`; answered by `Reply::Object`.
    CreateProgram,
    /// `ShaderSource` with the one string `source`; answered by `Reply::Done`.
    ShaderSource { shader: GLuint, source: Vec<u8> },
    /// `CompileShader(shader)`; answered by `Reply::Done`.
    CompileShader { shader: GLuint },
    /// `AttachShader(program, shader)`; answered by `Reply::Done`.
    AttachShader { program: GLuint, shader: GLuint },
    /// `LinkProgram(program)`; answered by `Reply::Done`.
    LinkProgram { program: GLuint },
    /// `GetShaderiv` or `GetProgramiv`, by `kind`, into an integer that holds
    /// `-1` before the call; answered by `Reply::Parameter`.
    GetParameter { kind: Kind, object: GLuint, pname: GLenum },
    /// `GetShaderInfoLog` or `GetProgramInfoLog`, by `kind`, into `buffer`
    /// with the buffer's length as its size; answered by `Reply::InfoLog`.
    GetInfoLog { kind: Kind, object: GLuint, buffer: Vec<u8> },
}

/// What a `Request` is as a mathematical value.
pub enum RequestModel {
    CreateShader { shader_type: GLenum },
    CreateProgram,
    ShaderSource { shader: GLuint, source: Seq<u8> },
    CompileShader { shader: GLuint },
    AttachShader { program: GLuint, shader: GLuint },
    LinkProgram { program: GLuint },
    GetParameter { kind: Kind, object: GLuint, pname: GLenum },
    GetInfoLog { kind: Kind, object: GLuint, buffer: Seq<u8> },
}

impl View for Request {
    type V = RequestModel;

    open spec fn view(&self) -> RequestModel {
        match *self {
            Request::CreateShader { shader_type } => RequestModel::CreateShader { shader_type },
            Request::CreateProgram => RequestModel::CreateProgram,
            Request::ShaderSource { shader, source } => RequestModel::ShaderSource {
                shader,
                source: source@,
            },
            Request::CompileShader { shader } => RequestModel::CompileShader { shader },
            Request::AttachShader { program, shader } => RequestModel::AttachShader {
                program,
                shader,
            },
            Request::LinkProgram { program } => RequestModel::LinkProgram { program },
            Request::GetParameter { kind, object, pname } => RequestModel::GetParameter {
                kind,
                object,
                pname,
            },
            Request::GetInfoLog { kind, object, buffer } => RequestModel::GetInfoLog {
                kind,
                object,
                buffer: buffer@,
            },
        }
    }
}

/// What the driver gave back for the request made last.
#[derive(Debug, PartialEq, Eq)]
pub enum Reply {
    /// The name of the object that was created.
    Object(GLuint),
    /// The call returned nothing.
    Done,
    /// The integer after `GetParameter`.
    Parameter(GLint),
    /// The buffer after `GetInfoLog`.
    InfoLog(Vec<u8>),
}

/// What a `Reply` is as a mathematical value.
pub enum ReplyModel {
    Object(GLuint),
    Done,
    Parameter(GLint),
    InfoLog(Seq<u8>),
}

impl View for Reply {
    type V = ReplyModel;

    open spec fn view(&self) -> ReplyModel {
        match *self {
            Reply::Object(object) => ReplyModel::Object(object),
            Reply::Done => ReplyModel::Done,
            Reply::Parameter(value) => ReplyModel::Parameter(value),
            Reply::InfoLog(buffer) => ReplyModel::InfoLog(buffer@),
        }
    }
}

/// A buffer of `len` blanks.
pub open spec fn blanks(len: nat) -> Seq<u8> {
    Seq::new(len, |i: int| BLANK)
}

/// Whether a status parameter reports success: its low eight bits, read as
/// the driver's boolean, are `TRUE`.
pub open spec fn reports_success(status: int) -> bool {
    status % 256 == TRUE as int
}

} // verus!
