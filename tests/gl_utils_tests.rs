use gl_utils::consts::{
    GL_CLAMP_TO_EDGE, GL_DOUBLE, GL_FLOAT, GL_FRAGMENT_SHADER, GL_INVALID_OPERATION, GL_LINEAR,
    GL_LINEAR_MIPMAP_LINEAR, GL_NO_ERROR, GL_OUT_OF_MEMORY, GL_REPEAT, GL_SHORT, GL_TEXTURE0,
    GL_TEXTURE_CUBE_MAP_POSITIVE_X, GL_TEXTURE_MAG_FILTER, GL_TEXTURE_MIN_FILTER,
    GL_TEXTURE_WRAP_R, GL_TEXTURE_WRAP_S, GL_TEXTURE_WRAP_T, GL_UNSIGNED_BYTE, GL_VERTEX_SHADER,
};
use gl_utils::layout::{AttribKind, AttribPointer, VertexAttribFields, VertexLayout};
use gl_utils::shader::{check_c_name, status_succeeded, ProgramBuild, ShaderSrc};
use gl_utils::texture::{
    cubemap_face_size, plan_cubemap, TexMagFilter, TexMinFilter, TexParameter, TexWrap,
};
use gl_utils::uniform::{plan_uniforms, UniformCall, UniformShape};
use gl_utils::util::{check_error, check_error_as_string, gl_error_str, size_of_gl_type};

#[test]
fn lib_it_works() {
    assert_eq!(check_error(GL_NO_ERROR), Ok(()));
}

#[test]
fn error_names() {
    assert_eq!(gl_error_str(GL_NO_ERROR), "GL_NO_ERROR");
    assert_eq!(gl_error_str(0x0500), "GL_INVALID_ENUM");
    assert_eq!(gl_error_str(GL_INVALID_OPERATION), "GL_INVALID_OPERATION");
    assert_eq!(gl_error_str(0x0506), "GL_INVALID_FRAMEBUFFER_OPERATION");
    assert_eq!(gl_error_str(0x0503), "GL_STACK_OVERFLOW");
    assert_eq!(gl_error_str(0x0504), "GL_STACK_UNDERFLOW");
    assert_eq!(gl_error_str(GL_OUT_OF_MEMORY), "GL_OUT_OF_MEMORY");
    assert_eq!(gl_error_str(0x1234), "Invalid error code");
}

#[test]
fn error_flag_checks() {
    assert_eq!(check_error(GL_OUT_OF_MEMORY), Err(GL_OUT_OF_MEMORY));
    assert_eq!(check_error_as_string(GL_NO_ERROR), Ok(()));
    assert_eq!(
        check_error_as_string(GL_INVALID_OPERATION),
        Err("GL_INVALID_OPERATION".to_string())
    );
}

#[test]
fn gl_type_sizes() {
    assert_eq!(size_of_gl_type(GL_UNSIGNED_BYTE), 1);
    assert_eq!(size_of_gl_type(GL_SHORT), 2);
    assert_eq!(size_of_gl_type(GL_FLOAT), 4);
    assert_eq!(size_of_gl_type(GL_DOUBLE), 8);
}

#[test]
fn texture_parameter_pairs() {
    let p = TexParameter::MinFilter(TexMinFilter::LinearMipmapLinear);
    assert_eq!(p.to_gl(), (GL_TEXTURE_MIN_FILTER, GL_LINEAR_MIPMAP_LINEAR as i32));
    let p = TexParameter::MagFilter(TexMagFilter::Linear);
    assert_eq!(p.to_gl(), (GL_TEXTURE_MAG_FILTER, GL_LINEAR as i32));
    assert_eq!(TexParameter::WrapS(TexWrap::Repeat).to_gl(), (GL_TEXTURE_WRAP_S, GL_REPEAT as i32));
    assert_eq!(TexParameter::WrapT(TexWrap::Mirrored).to_gl(), (GL_TEXTURE_WRAP_T, 0x8370));
    assert_eq!(
        TexParameter::WrapR(TexWrap::ClampToEdge).to_gl(),
        (GL_TEXTURE_WRAP_R, GL_CLAMP_TO_EDGE as i32)
    );
}

#[test]
fn cubemap_six_square_faces() {
    let dims = vec![(64u32, 64u32); 6];
    let plan = plan_cubemap(&dims).unwrap();
    assert_eq!(plan.size, 64);
    assert_eq!(
        plan.face_targets,
        vec![0x8515, 0x8516, 0x8517, 0x8518, 0x8519, 0x851A]
    );
    assert_eq!(plan.face_targets[0], GL_TEXTURE_CUBE_MAP_POSITIVE_X);
    assert_eq!(
        plan.parameters,
        vec![
            TexParameter::MagFilter(TexMagFilter::Linear),
            TexParameter::MinFilter(TexMinFilter::Linear),
            TexParameter::WrapS(TexWrap::ClampToEdge),
            TexParameter::WrapT(TexWrap::ClampToEdge),
            TexParameter::WrapR(TexWrap::ClampToEdge),
        ]
    );
}

#[test]
fn cubemap_rejects_differing_widths() {
    let mut dims = vec![(64u32, 64u32); 6];
    dims[3] = (32, 32);
    assert!(matches!(plan_cubemap(&dims), Err(GL_INVALID_OPERATION)));
    assert_eq!(cubemap_face_size(&dims), Err(GL_INVALID_OPERATION));
}

#[test]
fn cubemap_rejects_no_images() {
    let dims: Vec<(u32, u32)> = Vec::new();
    assert!(matches!(plan_cubemap(&dims), Err(GL_INVALID_OPERATION)));
}

#[test]
fn cubemap_rejects_non_square_and_empty_faces() {
    assert_eq!(cubemap_face_size(&vec![(64, 32); 6]), Err(GL_INVALID_OPERATION));
    assert_eq!(cubemap_face_size(&vec![(0, 0); 6]), Err(GL_INVALID_OPERATION));
    let mut dims = vec![(64u32, 64u32); 6];
    dims[0] = (0, 0);
    assert_eq!(cubemap_face_size(&dims), Err(GL_INVALID_OPERATION));
}

#[test]
fn cubemap_accepts_more_than_six_faces() {
    let plan = plan_cubemap(&vec![(16, 16); 7]).unwrap();
    assert_eq!(plan.size, 16);
    assert_eq!(plan.face_targets.len(), 7);
    assert_eq!(plan.face_targets[6], GL_TEXTURE_CUBE_MAP_POSITIVE_X + 6);
}

#[test]
fn two_textures_take_units_zero_and_one() {
    let calls = plan_uniforms(&vec![UniformShape::Tex, UniformShape::Tex]);
    assert_eq!(
        calls,
        vec![
            UniformCall::Texture { active: GL_TEXTURE0, unit: 0 },
            UniformCall::Texture { active: GL_TEXTURE0 + 1, unit: 1 },
        ]
    );
}

#[test]
fn uniform_calls_follow_shapes() {
    let shapes = vec![
        UniformShape::Mat4,
        UniformShape::Tex,
        UniformShape::Vec3,
        UniformShape::Vec1,
        UniformShape::Tex,
        UniformShape::Mat2,
    ];
    let calls = plan_uniforms(&shapes);
    assert_eq!(
        calls,
        vec![
            UniformCall::Matrix(4),
            UniformCall::Texture { active: 0x84C0, unit: 0 },
            UniformCall::Vector(3),
            UniformCall::Vector(1),
            UniformCall::Texture { active: 0x84C1, unit: 1 },
            UniformCall::Matrix(2),
        ]
    );
    assert_eq!(UniformShape::Mat3.uniform_count(), 1);
    assert!(plan_uniforms(&Vec::new()).is_empty());
}

struct Vertex {
    _position: [f32; 3],
    _color: [f32; 4],
    _uv: [f32; 2],
}

impl VertexAttribFields for Vertex {
    fn vertex_layout() -> VertexLayout {
        VertexLayout::new()
            .field("position", AttribKind::Vec3)
            .field("color", AttribKind::Vec4)
            .field("uv", AttribKind::Vec2)
    }
}

#[test]
fn layout_describes_each_field() {
    let layout = Vertex::vertex_layout();
    assert_eq!(layout.len(), 3);
    assert_eq!(layout.names(), vec!["position", "color", "uv"]);
    assert_eq!(layout.sizes(), vec![3, 4, 2]);
    assert_eq!(layout.types(), vec![GL_FLOAT; 3]);
    assert_eq!(layout.normalizeds(), vec![0u8; 3]);
    assert_eq!(layout.pointers(), vec![0, 12, 28]);
}

#[test]
fn stride_is_record_size() {
    let layout = Vertex::vertex_layout();
    assert_eq!(layout.stride(), 36);
    assert_eq!(layout.stride() as usize, std::mem::size_of::<Vertex>());
    assert_eq!(layout.buffer_size(3), 108);
}

#[test]
fn matrix_and_scalar_fields() {
    let layout = VertexLayout::new()
        .field("weight", AttribKind::Float)
        .field("model", AttribKind::Mat4)
        .field("normal", AttribKind::Mat3);
    assert_eq!(layout.sizes(), vec![1, 4, 3]);
    assert_eq!(layout.pointers(), vec![0, 4, 68]);
    assert_eq!(layout.stride(), 104);
    assert_eq!(AttribKind::Mat2.byte_size(), 16);
    assert_eq!(AttribKind::Vec2.gl_type(), GL_FLOAT);
}

#[test]
fn empty_layout() {
    let layout = VertexLayout::new();
    assert_eq!(layout.len(), 0);
    assert_eq!(layout.stride(), 0);
    assert!(layout.pointers().is_empty());
    assert!(layout.attrib_pointers(&Vec::new()).is_empty());
}

#[test]
fn unused_attributes_are_skipped() {
    let layout = Vertex::vertex_layout();
    let calls = layout.attrib_pointers(&vec![0, -1, 2]);
    assert_eq!(
        calls,
        vec![
            AttribPointer {
                location: 0,
                size: 3,
                gl_type: GL_FLOAT,
                normalized: 0,
                stride: 36,
                offset: 0
            },
            AttribPointer {
                location: 2,
                size: 2,
                gl_type: GL_FLOAT,
                normalized: 0,
                stride: 36,
                offset: 28
            },
        ]
    );
    assert!(layout.attrib_pointers(&vec![-1, -1, -1]).is_empty());
}

#[test]
fn every_used_attribute_is_configured() {
    let layout = Vertex::vertex_layout();
    let calls = layout.attrib_pointers(&vec![5, 3, 1]);
    assert_eq!(calls.len(), 3);
    assert_eq!(calls[0].location, 5);
    assert_eq!(calls[1].location, 3);
    assert_eq!(calls[1].size, 4);
    assert_eq!(calls[1].offset, 12);
    assert_eq!(calls[2].location, 1);
}

#[test]
fn program_build_order() {
    let s = ProgramBuild::start();
    assert_eq!(s, ProgramBuild::CompileVertex);
    assert_eq!(s.shader_kind(), Some(GL_VERTEX_SHADER));
    let s = s.advance(1);
    assert_eq!(s, ProgramBuild::CompileFragment);
    assert_eq!(s.shader_kind(), Some(GL_FRAGMENT_SHADER));
    let s = s.advance(1);
    assert_eq!(s, ProgramBuild::Link);
    assert_eq!(s.shader_kind(), None);
    assert!(!s.is_finished());
    let s = s.advance(1);
    assert_eq!(s, ProgramBuild::Linked);
    assert!(s.is_finished());
}

#[test]
fn program_build_stops_on_failed_compile() {
    let s = ProgramBuild::start().advance(0);
    assert_eq!(s, ProgramBuild::Failed);
    assert!(s.is_finished());
    assert_eq!(s.advance(1), ProgramBuild::Failed);
    let s = ProgramBuild::start().advance(1).advance(1).advance(0);
    assert_eq!(s, ProgramBuild::Failed);
    assert!(status_succeeded(1));
    assert!(!status_succeeded(0));
}

#[test]
fn shader_sources_by_stage() {
    let src = ShaderSrc { vertex: "void main() {}", fragment: "out vec4 c;" };
    assert_eq!(src.source_for(ProgramBuild::CompileVertex), Some("void main() {}"));
    assert_eq!(src.source_for(ProgramBuild::CompileFragment), Some("out vec4 c;"));
    assert_eq!(src.source_for(ProgramBuild::Link), None);
}

#[test]
fn names_with_nul_are_refused() {
    assert_eq!(check_c_name("color"), Ok(()));
    assert_eq!(check_c_name(""), Ok(()));
    assert_eq!(check_c_name("co\0lor"), Err(GL_INVALID_OPERATION));
}
