//! Verified core of a thin OpenGL resource wrapper: error mapping, vertex
//! layout description, texture parameters, cubemap validation, the order of
//! program construction and the planning of uniform uploads. The driver
//! calls themselves are made by the caller, which hands in the plain values
//! the driver reports and carries out the calls computed here.

pub mod consts;
pub mod layout;
pub mod shader;
pub mod texture;
pub mod uniform;
pub mod util;
