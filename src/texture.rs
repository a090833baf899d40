use vstd::prelude::*;
use crate::consts::{
    GL_CLAMP_TO_EDGE, GL_INVALID_OPERATION, GL_LINEAR, GL_LINEAR_MIPMAP_LINEAR,
    GL_LINEAR_MIPMAP_NEAREST, GL_MIRRORED_REPEAT, GL_NEAREST, GL_NEAREST_MIPMAP_LINEAR,
    GL_NEAREST_MIPMAP_NEAREST, GL_REPEAT, GL_TEXTURE_CUBE_MAP_POSITIVE_X, GL_TEXTURE_MAG_FILTER,
    GL_TEXTURE_MIN_FILTER, GL_TEXTURE_WRAP_R, GL_TEXTURE_WRAP_S, GL_TEXTURE_WRAP_T,
};

verus! {

/// Minification filter of a texture.
#[derive(Clone, Copy, Debug, PartialEq, Eq, Structural)]
pub enum TexMinFilter {
    Nearest,
    Linear,
    NearestMipmapNearest,
    LinearMipmapNearest,
    NearestMipmapLinear,
    LinearMipmapLinear,
}

/// Magnification filter of a texture.
#[derive(Clone, Copy, Debug, PartialEq, Eq, Structural)]
pub enum TexMagFilter {
    Nearest,
    Linear,
}

/// Wrapping mode of a texture along one axis.
#[derive(Clone, Copy, Debug, PartialEq, Eq, Structural)]
pub enum TexWrap {
    ClampToEdge,
    Mirrored,
    Repeat,
}

/// One sampling option of a texture.
#[derive(Clone, Copy, Debug, PartialEq, Eq, Structural)]
pub enum TexParameter {
    MinFilter(TexMinFilter),
    MagFilter(TexMagFilter),
    WrapS(TexWrap),
    WrapT(TexWrap),
    WrapR(TexWrap),
}

pub open spec fn min_filter_value(f: TexMinFilter) -> i32 {
    match f {
        TexMinFilter::Nearest => GL_NEAREST as i32,
        TexMinFilter::Linear => GL_LINEAR as i32,
        TexMinFilter::NearestMipmapNearest => GL_NEAREST_MIPMAP_NEAREST as i32,
        TexMinFilter::LinearMipmapNearest => GL_LINEAR_MIPMAP_NEAREST as i32,
        TexMinFilter::NearestMipmapLinear => GL_NEAREST_MIPMAP_LINEAR as i32,
        TexMinFilter::LinearMipmapLinear => GL_LINEAR_MIPMAP_LINEAR as i32,
    }
}

pub open spec fn mag_filter_value(f: TexMagFilter) -> i32 {
    match f {
        TexMagFilter::Nearest => GL_NEAREST as i32,
        TexMagFilter::Linear => GL_LINEAR as i32,
    }
}

pub open spec fn wrap_value(w: TexWrap) -> i32 {
    match w {
        TexWrap::ClampToEdge => GL_CLAMP_TO_EDGE as i32,
        TexWrap::Mirrored => GL_MIRRORED_REPEAT as i32,
        TexWrap::Repeat => GL_REPEAT as i32,
    }
}

/// The driver's (parameter name, parameter value) pair for a sampling option.
pub open spec fn parameter_pair(p: TexParameter) -> (u32, i32) {
    match p {
        TexParameter::MinFilter(f) => (GL_TEXTURE_MIN_FILTER, min_filter_value(f)),
        TexParameter::MagFilter(f) => (GL_TEXTURE_MAG_FILTER, mag_filter_value(f)),
        TexParameter::WrapS(w) => (GL_TEXTURE_WRAP_S, wrap_value(w)),
        TexParameter::WrapT(w) => (GL_TEXTURE_WRAP_T, wrap_value(w)),
        TexParameter::WrapR(w) => (GL_TEXTURE_WRAP_R, wrap_value(w)),
    }
}

impl TexMinFilter {
    pub fn to_gl(&self) -> (r: i32)
        ensures
            r == min_filter_value(*self),
    {
        match self {
            TexMinFilter::Nearest => GL_NEAREST as i32,
            TexMinFilter::Linear => GL_LINEAR as i32,
            TexMinFilter::NearestMipmapNearest => GL_NEAREST_MIPMAP_NEAREST as i32,
            TexMinFilter::LinearMipmapNearest => GL_LINEAR_MIPMAP_NEAREST as i32,
            TexMinFilter::NearestMipmapLinear => GL_NEAREST_MIPMAP_LINEAR as i32,
            TexMinFilter::LinearMipmapLinear => GL_LINEAR_MIPMAP_LINEAR as i32,
        }
    }
}

impl TexMagFilter {
    pub fn to_gl(&self) -> (r: i32)
        ensures
            r == mag_filter_value(*self),
    {
        match self {
            TexMagFilter::Nearest => GL_NEAREST as i32,
            TexMagFilter::Linear => GL_LINEAR as i32,
        }
    }
}

impl TexWrap {
    pub fn to_gl(&self) -> (r: i32)
        ensures
            r == wrap_value(*self),
    {
        match self {
            TexWrap::ClampToEdge => GL_CLAMP_TO_EDGE as i32,
            TexWrap::Mirrored => GL_MIRRORED_REPEAT as i32,
            TexWrap::Repeat => GL_REPEAT as i32,
        }
    }
}

impl TexParameter {
    /// The pair handed to the driver's integer texture-parameter call.
    pub fn to_gl(&self) -> (r: (u32, i32))
        ensures
            r == parameter_pair(*self),
    {
        match self {
            TexParameter::MinFilter(f) => (GL_TEXTURE_MIN_FILTER, f.to_gl()),
            TexParameter::MagFilter(f) => (GL_TEXTURE_MAG_FILTER, f.to_gl()),
            TexParameter::WrapS(w) => (GL_TEXTURE_WRAP_S, w.to_gl()),
            TexParameter::WrapT(w) => (GL_TEXTURE_WRAP_T, w.to_gl()),
            TexParameter::WrapR(w) => (GL_TEXTURE_WRAP_R, w.to_gl()),
        }
    }
}

/// All faces share one width, that width is not zero, and every face is square.
/// The images are given as (width, height) pairs.
pub open spec fn faces_uniform_square(dims: Seq<(u32, u32)>) -> bool {
    &&& dims.len() > 0
    &&& dims[0].0 > 0
    &&& forall|i: int| 0 <= i < dims.len() ==> #[trigger] dims[i] == (dims[0].0, dims[0].0)
}

/// The sampling options every cubemap receives, in the order they are set.
pub open spec fn cubemap_parameters_spec() -> Seq<TexParameter> {
    seq![
        TexParameter::MagFilter(TexMagFilter::Linear),
        TexParameter::MinFilter(TexMinFilter::Linear),
        TexParameter::WrapS(TexWrap::ClampToEdge),
        TexParameter::WrapT(TexWrap::ClampToEdge),
        TexParameter::WrapR(TexWrap::ClampToEdge),
    ]
}

/// What the driver is to be told to build a cubemap from face images: the
/// edge length of every face, the upload target of each face in input order,
/// and the sampling options to set afterwards.
pub struct CubemapPlan {
    pub size: u32,
    pub face_targets: Vec<u32>,
    pub parameters: Vec<TexParameter>,
}

/// Edge length shared by all face images, or the driver's invalid-operation
/// code when there are no images, or their sizes are zero, differ, or are not square.
pub fn cubemap_face_size(dims: &Vec<(u32, u32)>) -> (r: Result<u32, u32>)
    ensures
        r is Ok <==> faces_uniform_square(dims@),
        r matches Ok(s) ==> s == dims@[0].0,
        r matches Err(e) ==> e == GL_INVALID_OPERATION,
{
    if dims.len() == 0 {
        return Err(GL_INVALID_OPERATION);
    }
    let size = dims[0].0;
    if size == 0 {
        return Err(GL_INVALID_OPERATION);
    }
    let mut i: usize = 0;
    while i < dims.len()
        invariant
            0 <= i <= dims@.len(),
            size == dims@[0].0,
            forall|j: int| 0 <= j < i ==> #[trigger] dims@[j] == (size, size),
        decreases dims@.len() - i,
    {
        let (w, h) = dims[i];
        if w != size || h != size {
            return Err(GL_INVALID_OPERATION);
        }
        i = i + 1;
    }
    Ok(size)
}

/// Plans the upload of a cubemap: faces go to the face targets in input
/// order, starting at the positive-x face, then linear filtering and
/// clamp-to-edge wrapping on all three axes are set.
pub fn plan_cubemap(dims: &Vec<(u32, u32)>) -> (r: Result<CubemapPlan, u32>)
    requires
        dims@.len() <= u32::MAX - GL_TEXTURE_CUBE_MAP_POSITIVE_X,
    ensures
        r is Ok <==> faces_uniform_square(dims@),
        r matches Ok(plan) ==> {
            &&& plan.size == dims@[0].0
            &&& plan.face_targets@.len() == dims@.len()
            &&& forall|i: int|
                0 <= i < dims@.len() ==> #[trigger] plan.face_targets@[i]
                    == GL_TEXTURE_CUBE_MAP_POSITIVE_X + i
            &&& plan.parameters@ == cubemap_parameters_spec()
        },
        r matches Err(e) ==> e == GL_INVALID_OPERATION,
{
    let size = match cubemap_face_size(dims) {
        Ok(s) => s,
        Err(e) => return Err(e),
    };
    let mut face_targets: Vec<u32> = Vec::new();
    let mut i: usize = 0;
    while i < dims.len()
        invariant
            0 <= i <= dims@.len(),
            dims@.len() <= u32::MAX - GL_TEXTURE_CUBE_MAP_POSITIVE_X,
            face_targets@.len() == i,
            forall|j: int|
                0 <= j < i ==> #[trigger] face_targets@[j] == GL_TEXTURE_CUBE_MAP_POSITIVE_X + j,
        decreases dims@.len() - i,
    {
        face_targets.push(GL_TEXTURE_CUBE_MAP_POSITIVE_X + i as u32);
        i = i + 1;
    }
    let parameters = vec![
        TexParameter::MagFilter(TexMagFilter::Linear),
        TexParameter::MinFilter(TexMinFilter::Linear),
        TexParameter::WrapS(TexWrap::ClampToEdge),
        TexParameter::WrapT(TexWrap::ClampToEdge),
        TexParameter::WrapR(TexWrap::ClampToEdge),
    ];
    assert(parameters@ == cubemap_parameters_spec());
    Ok(CubemapPlan { size, face_targets, parameters })
}

} // verus!
