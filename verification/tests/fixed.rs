use softraster::fixed::{div_floor, product, ratio, saturate, scale_down, ONE};
use softraster::pixel::{pack, unpack};
use softraster::shader::{BasicShader, FragmentShaderInputVariables, Shader, VertexShaderInputVariables, VertexShaderOutputVariables};
use softraster::storage::Storage;
use softraster::texture2d::{Texel, Texture2D};
use softraster::vector::{weigh, Mat4, Vec2, Vec3, Vec4};

#[test]
fn wide_values_are_held_at_the_ends_of_the_range() {
    assert_eq!(saturate(0), 0);
    assert_eq!(saturate(-5), -5);
    assert_eq!(saturate(i32::MAX as i128), i32::MAX);
    assert_eq!(saturate(i32::MAX as i128 + 1), i32::MAX);
    assert_eq!(saturate(i32::MIN as i128), i32::MIN);
    assert_eq!(saturate(i32::MIN as i128 - 1), i32::MIN);
    assert_eq!(saturate(i128::MAX), i32::MAX);
    assert_eq!(saturate(i128::MIN), i32::MIN);
}

#[test]
fn division_rounds_towards_negative_infinity() {
    assert_eq!(div_floor(7, 2), 3);
    assert_eq!(div_floor(-7, 2), -4);
    assert_eq!(div_floor(7, -2), -4);
    assert_eq!(div_floor(-7, -2), 3);
    assert_eq!(div_floor(6, -2), -3);
    assert_eq!(div_floor(0, -5), 0);
    assert_eq!(scale_down(65536), 1);
    assert_eq!(scale_down(65535), 0);
    assert_eq!(scale_down(-1), -1);
    assert_eq!(scale_down(-65536), -1);
    assert_eq!(scale_down(-65537), -2);
    assert_eq!(scale_down(i128::MAX), i32::MAX);
    assert_eq!(scale_down(i128::MIN), i32::MIN);
}

#[test]
fn ratios_are_fixed_point_numbers() {
    assert_eq!(ratio(1, 2), ONE / 2);
    assert_eq!(ratio(1, 3), 21845);
    assert_eq!(ratio(-1, 3), -21846);
    assert_eq!(ratio(1, -3), -21846);
    assert_eq!(ratio(-1, -3), 21845);
    assert_eq!(ratio(5, 1), 5 * ONE);
    assert_eq!(ratio(1 << 40, 1), i32::MAX);
    assert_eq!(ratio(-(1 << 40), 1), i32::MIN);
    assert_eq!(product(i32::MIN, i32::MIN), 1i128 << 62);
    assert_eq!(product(-3, 5), -15);
}

#[test]
fn weighted_sums_are_rounded_once() {
    let thirds = Vec3::new(21845, 21845, 21846);
    assert_eq!(weigh(3 * ONE, 3 * ONE, 3 * ONE, thirds), 3 * ONE);
    assert_eq!(weigh(1, 1, 1, thirds), 1);
    assert_eq!(weigh(1, 1, 0, thirds), 0);
    assert_eq!(weigh(-1, 0, 0, thirds), -1);
    assert_eq!(weigh(i32::MAX, i32::MAX, i32::MAX, Vec3::new(ONE, ONE, ONE)), i32::MAX);
    assert_eq!(weigh(i32::MIN, i32::MIN, i32::MIN, Vec3::new(ONE, ONE, ONE)), i32::MIN);
    let w = Vec3::new(ONE / 2, ONE / 4, ONE / 4);
    assert_eq!(Vec2::blend(Vec2::new(4, 8), Vec2::new(8, 4), Vec2::new(0, 0), w), Vec2::new(4, 5));
    assert_eq!(
        Vec3::blend(Vec3::new(ONE, 0, 0), Vec3::new(0, ONE, 0), Vec3::new(0, 0, ONE), w),
        w
    );
    assert_eq!(
        Vec4::blend(Vec4::new(8, 8, 8, 8), Vec4::new(4, 4, 4, 4), Vec4::new(0, 4, 8, 12), w),
        Vec4::new(5, 6, 7, 8)
    );
}

#[test]
fn matrix_times_vector() {
    let v = Vec4::new(ONE, 2 * ONE, 3 * ONE, ONE);
    assert_eq!(Mat4::identity().transform(&v), v);
    let m = Mat4::new(
        Vec4::new(2 * ONE, 0, 0, ONE),
        Vec4::new(0, ONE / 2, 0, 0),
        Vec4::new(ONE, ONE, ONE, ONE),
        Vec4::new(0, 0, -ONE, 0),
    );
    assert_eq!(m.transform(&v), Vec4::new(3 * ONE, ONE, 7 * ONE, -3 * ONE));
    assert_eq!(v.dot(&v), 15 * ONE);
    assert_eq!(Vec4::new(1, 0, 0, 0).dot(&Vec4::new(ONE - 1, 0, 0, 0)), 0);
    assert_eq!(Vec4::new(-1, 0, 0, 0).dot(&Vec4::new(1, 0, 0, 0)), -1);
    let big = Vec4::new(i32::MAX, i32::MAX, i32::MAX, i32::MAX);
    assert_eq!(big.dot(&big), i32::MAX);
    assert_eq!(Vec3::new(1, 2, 3).push(4).xyz().xy(), Vec2::new(1, 2));
}

#[test]
fn pixels_are_packed_and_split() {
    assert_eq!(pack(0x12, 0x34, 0x56), 0x123456);
    assert_eq!(unpack(0x123456), (0x12, 0x34, 0x56));
    assert_eq!(unpack(0xff123456), (0x12, 0x34, 0x56));
    assert_eq!(pack(255, 255, 255), 0xffffff);
    assert_eq!(pack(0, 0, 0), 0);
}

fn storage() -> Storage {
    let mut storage = Storage::new();
    storage.set_mat4s(vec![Mat4::new(
        Vec4::new(2 * ONE, 0, 0, 0),
        Vec4::new(0, ONE, 0, 0),
        Vec4::new(0, 0, ONE, 0),
        Vec4::new(0, 0, 0, ONE),
    )]);
    storage.set_texture2ds(vec![Texture2D::new(
        2,
        1,
        vec![Texel { r: 255, g: 0, b: 0, a: 255 }, Texel { r: 0, g: 0, b: 255, a: 128 }],
    )
    .unwrap()]);
    storage.set_texture2d_indices(vec![0]);
    storage
}

#[test]
fn basic_shader_places_vertices_and_hands_on_texture_coordinates() {
    let storage = storage();
    let out = BasicShader.vertex(VertexShaderInputVariables {
        position: Vec4::new(ONE, ONE, ONE, ONE),
        texture_coords: Vec3::new(5, 6, 7),
        normal: Vec3::new(0, 0, ONE),
        storage: &storage,
    });
    assert_eq!(out.position, Vec4::new(2 * ONE, ONE, ONE, ONE));
    assert_eq!(out.vec2, vec![Vec2::new(5, 6)]);
    assert!(out.vec3.is_empty() && out.vec4.is_empty());
    let none = VertexShaderOutputVariables::default();
    assert_eq!(none.position, Vec4::new(0, 0, 0, 0));
    assert!(none.vec2.is_empty() && none.vec3.is_empty() && none.vec4.is_empty());
}

#[test]
fn basic_shader_colours_fragments_from_the_texture() {
    let storage = storage();
    let at = |u: i32| VertexShaderOutputVariables {
        position: Vec4::new(u, 0, 0, ONE),
        vec2: vec![Vec2::new(u, 0)],
        vec3: vec![Vec3::new(u, u, u)],
        vec4: vec![Vec4::new(0, 0, 0, 0), Vec4::new(u, 0, u, 0)],
    };
    let corners = [at(0), at(ONE), at(ONE)];
    let left = FragmentShaderInputVariables::new(&corners, Vec3::new(ONE, 0, 0), &storage);
    assert_eq!(BasicShader.fragment(left), Some(Vec4::new(ONE, 0, 0, ONE)));
    let right = FragmentShaderInputVariables::new(&corners, Vec3::new(0, ONE / 2, ONE / 2), &storage);
    assert_eq!(BasicShader.fragment(right), Some(Vec4::new(0, 0, ONE, 32897)));
    let halfway = FragmentShaderInputVariables::new(&corners, Vec3::new(ONE / 2, ONE / 4, ONE / 4), &storage);
    assert_eq!(BasicShader.fragment(halfway), Some(Vec4::new(ONE, 0, 0, ONE)));
    let middle = FragmentShaderInputVariables::new(&corners, Vec3::new(ONE / 2, ONE / 4, ONE / 4), &storage);
    assert_eq!(middle.get_input_vec2(0), Vec2::new(ONE / 2, 0));
    assert_eq!(middle.get_input_vec3(0), Vec3::new(ONE / 2, ONE / 2, ONE / 2));
    assert_eq!(middle.get_input_vec4(1), Vec4::new(ONE / 2, 0, ONE / 2, 0));
    assert_eq!(middle.get_input_vec4(0), Vec4::new(0, 0, 0, 0));
    assert_eq!(middle.get_position(), Vec4::new(ONE / 2, 0, 0, ONE));
}
