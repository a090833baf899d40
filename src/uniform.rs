use vstd::prelude::*;
use crate::consts::GL_TEXTURE0;

verus! {

/// The shape of a uniform value: a float vector of one to four components, a
/// square float matrix of order two to four, or a texture.
#[derive(Clone, Copy, Debug, PartialEq, Eq, Structural)]
pub enum UniformShape {
    Vec1,
    Vec2,
    Vec3,
    Vec4,
    Mat2,
    Mat3,
    Mat4,
    Tex,
}

/// The driver calls that upload one uniform.
#[derive(Clone, Copy, Debug, PartialEq, Eq, Structural)]
pub enum UniformCall {
    /// Upload one float vector of this many components.
    Vector(u32),
    /// Upload one square float matrix of this order, not transposed.
    Matrix(u32),
    /// Make `active` the active texture unit, bind the texture there, and
    /// upload `unit` as an integer uniform.
    Texture { active: u32, unit: i32 },
}

impl UniformShape {
    /// How many values of this shape one upload carries.
    pub fn uniform_count(&self) -> (r: i32)
        ensures
            r == 1,
    {
        1
    }
}

/// Number of texture-valued uniforms in a sequence.
pub open spec fn texture_count(s: Seq<UniformShape>) -> nat
    decreases s.len(),
{
    if s.len() == 0 {
        0
    } else {
        texture_count(s.drop_last()) + if s.last() == UniformShape::Tex {
            1nat
        } else {
            0nat
        }
    }
}

/// The calls for one uniform, given the texture unit it would take.
pub open spec fn call_for(shape: UniformShape, unit: int) -> UniformCall {
    match shape {
        UniformShape::Vec1 => UniformCall::Vector(1),
        UniformShape::Vec2 => UniformCall::Vector(2),
        UniformShape::Vec3 => UniformCall::Vector(3),
        UniformShape::Vec4 => UniformCall::Vector(4),
        UniformShape::Mat2 => UniformCall::Matrix(2),
        UniformShape::Mat3 => UniformCall::Matrix(3),
        UniformShape::Mat4 => UniformCall::Matrix(4),
        UniformShape::Tex => UniformCall::Texture {
            active: (GL_TEXTURE0 + unit) as u32,
            unit: unit as i32,
        },
    }
}

/// The calls that upload a list of uniforms, one entry per uniform in order.
/// Each texture-valued uniform takes the next texture unit, counting from
/// zero in the order given; units are never shared.
pub fn plan_uniforms(shapes: &Vec<UniformShape>) -> (r: Vec<UniformCall>)
    requires
        shapes@.len() <= i32::MAX,
    ensures
        r@.len() == shapes@.len(),
        forall|i: int|
            0 <= i < shapes@.len() ==> #[trigger] r@[i] == call_for(
                shapes@[i],
                texture_count(shapes@.take(i)) as int,
            ),
{
    let mut calls: Vec<UniformCall> = Vec::new();
    let mut unit: i32 = 0;
    let mut i: usize = 0;
    while i < shapes.len()
        invariant
            shapes@.len() <= i32::MAX,
            0 <= i <= shapes@.len(),
            calls@.len() == i,
            unit == texture_count(shapes@.take(i as int)),
            unit <= i,
            forall|j: int|
                0 <= j < i ==> #[trigger] calls@[j] == call_for(
                    shapes@[j],
                    texture_count(shapes@.take(j)) as int,
                ),
        decreases shapes@.len() - i,
    {
        assert(shapes@.take(i + 1).drop_last() == shapes@.take(i as int));
        let call = match shapes[i] {
            UniformShape::Vec1 => UniformCall::Vector(1),
            UniformShape::Vec2 => UniformCall::Vector(2),
            UniformShape::Vec3 => UniformCall::Vector(3),
            UniformShape::Vec4 => UniformCall::Vector(4),
            UniformShape::Mat2 => UniformCall::Matrix(2),
            UniformShape::Mat3 => UniformCall::Matrix(3),
            UniformShape::Mat4 => UniformCall::Matrix(4),
            UniformShape::Tex => UniformCall::Texture {
                active: GL_TEXTURE0 + unit as u32,
                unit,
            },
        };
        if shapes[i] == UniformShape::Tex {
            unit = unit + 1;
        }
        calls.push(call);
        i = i + 1;
    }
    assert(shapes@.take(shapes@.len() as int) == shapes@);
    calls
}

proof fn lemma_texture_count_grows(s: Seq<UniformShape>, i: int, j: int)
    requires
        0 <= i < j <= s.len(),
        s[i] == UniformShape::Tex,
    ensures
        texture_count(s.take(i)) < texture_count(s.take(j)),
    decreases j - i,
{
    assert(s.take(j).drop_last() == s.take(j - 1));
    if j == i + 1 {
        assert(s.take(j).last() == s[i]);
    } else {
        lemma_texture_count_grows(s, i, j - 1);
    }
}

/// Texture units are handed out in increasing order and never reused: of two
/// texture-valued uniforms, the earlier one takes the smaller unit.
pub proof fn lemma_texture_units_distinct(shapes: Seq<UniformShape>, i: int, j: int)
    requires
        0 <= i < j < shapes.len(),
        shapes[i] == UniformShape::Tex,
        shapes[j] == UniformShape::Tex,
    ensures
        texture_count(shapes.take(i)) < texture_count(shapes.take(j)),
{
    lemma_texture_count_grows(shapes, i, j);
}

} // verus!
