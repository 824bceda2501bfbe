//! The viewport rectangle and the handles of built driver objects.

use vstd::prelude::*;
use crate::driver::{FRAGMENT_SHADER, VERTEX_SHADER};
use crate::protocol::{Build, BuildModel, Target, TargetModel};

pub use gl::types::{GLboolean, GLenum, GLint, GLsizei, GLuint};

verus! {

/// An axis-aligned rectangle in window coordinates, given by two corners.
#[derive(Clone, Copy, Debug)]
pub struct GLRect {
    pub x0: GLint,
    pub y0: GLint,
    pub x1: GLint,
    pub y1: GLint,
}

/// What a signed 32-bit number `d` is once it is read as unsigned: itself
/// when it is not negative, else `d + 2^32`.
pub open spec fn as_unsigned(d: int) -> int {
    d % 0x1_0000_0000
}

impl GLRect {
    /// The horizontal extent `x1 - x0`, read as unsigned.
    pub fn width(&self) -> (w: u32)
        requires
            i32::MIN <= self.x1 - self.x0 <= i32::MAX,
        ensures
            w == as_unsigned(self.x1 - self.x0),
    {
        let d: i32 = self.x1 - self.x0;
        assert(d as u32 == (d as int) % 0x1_0000_0000) by (bit_vector);
        #[verifier::truncate]
        (d as u32)
    }

    /// The vertical extent `y1 - y0`, read as unsigned.
    pub fn height(&self) -> (h: u32)
        requires
            i32::MIN <= self.y1 - self.y0 <= i32::MAX,
        ensures
            h == as_unsigned(self.y1 - self.y0),
    {
        let d: i32 = self.y1 - self.y0;
        assert(d as u32 == (d as int) % 0x1_0000_0000) by (bit_vector);
        #[verifier::truncate]
        (d as u32)
    }
}

/// The handle of a shader that the driver compiled without error.
#[derive(Clone, Copy, Debug)]
pub struct Shader {
    id: GLuint,
}

impl View for Shader {
    type V = GLuint;

    /// The shader's name with the driver.
    closed spec fn view(&self) -> GLuint {
        self.id
    }
}

impl Shader {
    /// The shader's name with the driver.
    pub fn id(&self) -> (id: GLuint)
        ensures
            id == self@,
    {
        self.id
    }

    /// Begins the build of a fragment shader from `source`.
    pub fn frag_from_source(source: Vec<u8>) -> (build: Build)
        ensures
            build@ == BuildModel::start(
                TargetModel::Shader { shader_type: FRAGMENT_SHADER, source: source@ },
            ),
    {
        Self::from_source(source, FRAGMENT_SHADER)
    }

    /// Begins the build of a vertex shader from `source`.
    pub fn vert_from_source(source: Vec<u8>) -> (build: Build)
        ensures
            build@ == BuildModel::start(
                TargetModel::Shader { shader_type: VERTEX_SHADER, source: source@ },
            ),
    {
        Self::from_source(source, VERTEX_SHADER)
    }

    /// Begins the build of a shader of type `shader_type` from `source`:
    /// nothing has been asked of the driver yet.
    pub fn from_source(source: Vec<u8>, shader_type: GLenum) -> (build: Build)
        ensures
            build@ == BuildModel::start(TargetModel::Shader { shader_type, source: source@ }),
    {
        Build::new(Target::Shader { shader_type, source })
    }

    /// The handle of the shader named `id`. Only an accepted build makes one.
    pub(crate) fn accepted(id: GLuint) -> (shader: Shader)
        ensures
            shader@ == id,
    {
        Shader { id }
    }
}

/// The handle of a program that the driver linked without error.
#[derive(Clone, Copy, Debug)]
pub struct Program {
    id: GLuint,
}

impl View for Program {
    type V = GLuint;

    /// The program's name with the driver.
    closed spec fn view(&self) -> GLuint {
        self.id
    }
}

/// The names of `shaders`, in order.
pub open spec fn names(shaders: Seq<Shader>) -> Seq<GLuint> {
    Seq::new(shaders.len(), |i: int| shaders[i]@)
}

impl Program {
    /// The program's name with the driver.
    pub fn id(&self) -> (id: GLuint)
        ensures
            id == self@,
    {
        self.id
    }

    /// Begins the build of a program that links `shaders`, attached in the
    /// order given: nothing has been asked of the driver yet.
    pub fn from_shaders(shaders: &[Shader]) -> (build: Build)
        ensures
            build@ == BuildModel::start(TargetModel::Program { shaders: names(shaders@) }),
    {
        let mut ids: Vec<GLuint> = Vec::new();
        let mut i: usize = 0;
        while i < shaders.len()
            invariant
                i <= shaders.len(),
                ids@ == names(shaders@.take(i as int)),
            decreases shaders.len() - i,
        {
            ids.push(shaders[i].id());
            i += 1;
            assert(ids@ =~= names(shaders@.take(i as int)));
        }
        assert(shaders@.take(i as int) =~= shaders@);
        Build::new(Target::Program { shaders: ids })
    }

    /// The handle of the program named `id`. Only an accepted build makes
    /// one.
    pub(crate) fn accepted(id: GLuint) -> (program: Program)
        ensures
            program@ == id,
    {
        Program { id }
    }
}

} // verus!
