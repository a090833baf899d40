use vstd::prelude::*;
use crate::consts::{
    GL_BYTE, GL_DOUBLE, GL_FLOAT, GL_INT, GL_INVALID_ENUM, GL_INVALID_FRAMEBUFFER_OPERATION, GL_INVALID_OPERATION, GL_INVALID_VALUE, GL_NO_ERROR, GL_OUT_OF_MEMORY, GL_SHORT, GL_STACK_OVERFLOW, GL_STACK_UNDERFLOW, GL_UNSIGNED_BYTE, GL_UNSIGNED_INT, GL_UNSIGNED_SHORT,
};

verus! {

/// The name the OpenGL registry gives an error code, or a fixed message for
/// a value that is no error code.
pub open spec fn error_name(err: u32) -> Seq<char> {
    if err == GL_NO_ERROR {
        "GL_NO_ERROR"@
    } else if err == GL_INVALID_ENUM {
        "GL_INVALID_ENUM"@
    } else if err == GL_INVALID_VALUE {
        "GL_INVALID_VALUE"@
    } else if err == GL_INVALID_OPERATION {
        "GL_INVALID_OPERATION"@
    } else if err == GL_INVALID_FRAMEBUFFER_OPERATION {
        "GL_INVALID_FRAMEBUFFER_OPERATION"@
    } else if err == GL_OUT_OF_MEMORY {
        "GL_OUT_OF_MEMORY"@
    } else if err == GL_STACK_UNDERFLOW {
        "GL_STACK_UNDERFLOW"@
    } else if err == GL_STACK_OVERFLOW {
        "GL_STACK_OVERFLOW"@
    } else {
        "Invalid error code"@
    }
}

/// Human-readable name of a driver error code.
pub fn gl_error_str(err: u32) -> (r: &'static str)
    ensures
        r@ == error_name(err),
{
    if err == GL_NO_ERROR {
        "GL_NO_ERROR"
    } else if err == GL_INVALID_ENUM {
        "GL_INVALID_ENUM"
    } else if err == GL_INVALID_VALUE {
        "GL_INVALID_VALUE"
    } else if err == GL_INVALID_OPERATION {
        "GL_INVALID_OPERATION"
    } else if err == GL_INVALID_FRAMEBUFFER_OPERATION {
        "GL_INVALID_FRAMEBUFFER_OPERATION"
    } else if err == GL_OUT_OF_MEMORY {
        "GL_OUT_OF_MEMORY"
    } else if err == GL_STACK_UNDERFLOW {
        "GL_STACK_UNDERFLOW"
    } else if err == GL_STACK_OVERFLOW {
        "GL_STACK_OVERFLOW"
    } else {
        "Invalid error code"
    }
}

/// Turns the driver's error flag, read after a call, into a result: the call
/// succeeded exactly when the flag is clear, and otherwise the code is the error.
pub fn check_error(err: u32) -> (r: Result<(), u32>)
    ensures
        r is Ok <==> err == GL_NO_ERROR,
        r is Err ==> r == Err::<(), u32>(err),
{
    if err == GL_NO_ERROR {
        Ok(())
    } else {
        Err(err)
    }
}

/// Like `check_error`, for operations whose failures are reported as text:
/// the error is the name of the code.
pub fn check_error_as_string(err: u32) -> (r: Result<(), String>)
    ensures
        r is Ok <==> err == GL_NO_ERROR,
        r matches Err(msg) ==> msg@ == error_name(err),
{
    if err == GL_NO_ERROR {
        Ok(())
    } else {
        Err(gl_error_str(err).to_owned())
    }
}

/// The scalar types that vertex data may be made of.
pub open spec fn is_sized_type(gl_type: u32) -> bool {
    gl_type == GL_BYTE || gl_type == GL_UNSIGNED_BYTE || gl_type == GL_SHORT
        || gl_type == GL_UNSIGNED_SHORT || gl_type == GL_INT || gl_type == GL_UNSIGNED_INT
        || gl_type == GL_FLOAT || gl_type == GL_DOUBLE
}

/// Size in bytes of one value of a scalar type.
pub open spec fn type_size(gl_type: u32) -> int {
    if gl_type == GL_BYTE || gl_type == GL_UNSIGNED_BYTE {
        1
    } else if gl_type == GL_SHORT || gl_type == GL_UNSIGNED_SHORT {
        2
    } else if gl_type == GL_DOUBLE {
        8
    } else {
        4
    }
}

/// Byte size of one value of the given scalar type.
pub fn size_of_gl_type(gl_type: u32) -> (r: i32)
    requires
        is_sized_type(gl_type),
    ensures
        r == type_size(gl_type),
{
    if gl_type == GL_BYTE || gl_type == GL_UNSIGNED_BYTE {
        1
    } else if gl_type == GL_SHORT || gl_type == GL_UNSIGNED_SHORT {
        2
    } else if gl_type == GL_DOUBLE {
        8
    } else {
        4
    }
}

} // verus!
