use vstd::prelude::*;
use vstd::string::StringSliceAdditionalSpecFns;
use crate::consts::{GL_FALSE, GL_FRAGMENT_SHADER, GL_INVALID_OPERATION, GL_VERTEX_SHADER};

verus! {

/// Where the construction of a program stands. Both stages are compiled, the
/// vertex stage first, before the program is linked; any failed step ends in
/// `Failed`.
#[derive(Clone, Copy, Debug, PartialEq, Eq, Structural)]
pub enum ProgramBuild {
    CompileVertex,
    CompileFragment,
    Link,
    Linked,
    Failed,
}

/// A step is reported as having succeeded unless its status is the driver's false.
pub open spec fn status_ok(status: i32) -> bool {
    status != GL_FALSE as i32
}

/// The state that follows once the current step reports `status`.
pub open spec fn next_build(state: ProgramBuild, status: i32) -> ProgramBuild {
    if !status_ok(status) {
        match state {
            ProgramBuild::Linked => ProgramBuild::Linked,
            _ => ProgramBuild::Failed,
        }
    } else {
        match state {
            ProgramBuild::CompileVertex => ProgramBuild::CompileFragment,
            ProgramBuild::CompileFragment => ProgramBuild::Link,
            ProgramBuild::Link => ProgramBuild::Linked,
            ProgramBuild::Linked => ProgramBuild::Linked,
            ProgramBuild::Failed => ProgramBuild::Failed,
        }
    }
}

impl ProgramBuild {
    /// The state a construction starts in.
    pub fn start() -> (r: ProgramBuild)
        ensures
            r == ProgramBuild::CompileVertex,
    {
        ProgramBuild::CompileVertex
    }

    /// The kind of shader object to create and compile in this state, if any.
    pub fn shader_kind(&self) -> (r: Option<u32>)
        ensures
            r == match *self {
                ProgramBuild::CompileVertex => Some(GL_VERTEX_SHADER),
                ProgramBuild::CompileFragment => Some(GL_FRAGMENT_SHADER),
                _ => None::<u32>,
            },
    {
        match self {
            ProgramBuild::CompileVertex => Some(GL_VERTEX_SHADER),
            ProgramBuild::CompileFragment => Some(GL_FRAGMENT_SHADER),
            _ => None,
        }
    }

    /// Whether the construction has ended, linked or failed.
    pub fn is_finished(&self) -> (r: bool)
        ensures
            r <==> (*self == ProgramBuild::Linked || *self == ProgramBuild::Failed),
    {
        match self {
            ProgramBuild::Linked | ProgramBuild::Failed => true,
            _ => false,
        }
    }

    /// The state after the current step reported the given compile or link status.
    pub fn advance(&self, status: i32) -> (r: ProgramBuild)
        ensures
            r == next_build(*self, status),
    {
        if status == GL_FALSE as i32 {
            match self {
                ProgramBuild::Linked => ProgramBuild::Linked,
                _ => ProgramBuild::Failed,
            }
        } else {
            match self {
                ProgramBuild::CompileVertex => ProgramBuild::CompileFragment,
                ProgramBuild::CompileFragment => ProgramBuild::Link,
                ProgramBuild::Link => ProgramBuild::Linked,
                ProgramBuild::Linked => ProgramBuild::Linked,
                ProgramBuild::Failed => ProgramBuild::Failed,
            }
        }
    }
}

/// Whether a compile or link status reports success.
pub fn status_succeeded(status: i32) -> (r: bool)
    ensures
        r == status_ok(status),
{
    status != GL_FALSE as i32
}

/// A construction reaches `Linked` from its start exactly when the vertex
/// compile, the fragment compile and the link all report success, in that order.
pub proof fn lemma_linked_iff_all_steps_succeed(vertex: i32, fragment: i32, link: i32)
    ensures
        next_build(next_build(next_build(ProgramBuild::CompileVertex, vertex), fragment), link)
            == ProgramBuild::Linked <==> status_ok(vertex) && status_ok(fragment) && status_ok(
            link,
        ),
{
}

/// Whether a byte string holds a zero byte.
pub open spec fn has_nul(s: Seq<u8>) -> bool {
    exists|i: int| 0 <= i < s.len() && s[i] == 0
}

/// Checks that a name can be handed to the driver as a C string: a name that
/// holds a zero byte is refused with the invalid-operation code.
pub fn check_c_name(name: &str) -> (r: Result<(), u32>)
    ensures
        r is Ok <==> !has_nul(name.spec_bytes()),
        r matches Err(e) ==> e == GL_INVALID_OPERATION,
{
    let bytes = name.as_bytes();
    let mut i: usize = 0;
    while i < bytes.len()
        invariant
            bytes@ == name.spec_bytes(),
            0 <= i <= bytes@.len(),
            forall|j: int| 0 <= j < i ==> bytes@[j] != 0,
        decreases bytes@.len() - i,
    {
        if bytes[i] == 0 {
            return Err(GL_INVALID_OPERATION);
        }
        i = i + 1;
    }
    Ok(())
}

/// The source texts of the two stages of a program.
pub struct ShaderSrc<'a> {
    pub vertex: &'a str,
    pub fragment: &'a str,
}

impl<'a> ShaderSrc<'a> {
    /// The source to compile in the given state of a construction, if any.
    pub fn source_for(&self, state: ProgramBuild) -> (r: Option<&'a str>)
        ensures
            r == match state {
                ProgramBuild::CompileVertex => Some(self.vertex),
                ProgramBuild::CompileFragment => Some(self.fragment),
                _ => None::<&'a str>,
            },
    {
        match state {
            ProgramBuild::CompileVertex => Some(self.vertex),
            ProgramBuild::CompileFragment => Some(self.fragment),
            _ => None,
        }
    }
}

} // verus!
