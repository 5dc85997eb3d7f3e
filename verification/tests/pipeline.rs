use softraster::fixed::ONE;
use softraster::mesh::{Face, Mesh, Vertex};
use softraster::post_processor::PostProcessorOptions;
use softraster::rasterizer::{band_rows, RasterOptions, Rasterizer};
use softraster::renderer::{Renderer, RendererOptions};
use softraster::shader::BasicShader;
use softraster::texture2d::{Texel, Texture2D};
use softraster::vector::{Mat4, Vec3, Vec4};

const BACKGROUND: u32 = 0xff007f;

fn background() -> Vec3 {
    Vec3::new(ONE, 0, ONE / 2)
}

fn solid(r: u8, g: u8, b: u8, a: u8) -> Texture2D {
    Texture2D::new(1, 1, vec![Texel { r, g, b, a }]).unwrap()
}

fn corner(x: i32, y: i32, z: i32) -> Vertex {
    Vertex::from_pos_tex(Vec4::new(x, y, z, ONE), Vec3::new(0, 0, 0))
}

/// Two triangles that fill the view volume from side to side at depth `z`.
fn quad(z: i32) -> Mesh {
    let bl = corner(-ONE, -ONE, z);
    let br = corner(ONE, -ONE, z);
    let tr = corner(ONE, ONE, z);
    let tl = corner(-ONE, ONE, z);
    Mesh::new(None, vec![Face::new([bl, br, tr]), Face::new([bl, tr, tl])])
}

fn rasterizer(width: usize, height: usize, cull_backfaces: bool, textures: Vec<Texture2D>) -> Rasterizer {
    let options = RasterOptions { cull_backfaces, background_colour: background() };
    let mut rasterizer = Rasterizer::new(width, height, options);
    rasterizer.storage_mut().set_mat4s(vec![Mat4::identity()]);
    rasterizer.storage_mut().set_texture2ds(textures);
    rasterizer.storage_mut().set_texture2d_indices(vec![0]);
    rasterizer
}

fn frame(rasterizer: &mut Rasterizer, width: usize, height: usize) -> Vec<u32> {
    let mut buffer = vec![0u32; width * height];
    rasterizer.render_to_buffer(&mut buffer);
    buffer
}

#[test]
fn full_screen_quad_fills_the_frame_with_its_colour() {
    let options = RendererOptions {
        raster_options: RasterOptions { cull_backfaces: false, background_colour: background() },
        post_processor_options: PostProcessorOptions { fxaa: false },
    };
    let mut renderer = Renderer::new(7, 5, options);
    renderer.rasterizer.storage_mut().set_mat4s(vec![Mat4::identity()]);
    renderer.rasterizer.storage_mut().set_texture2ds(vec![solid(200, 100, 50, 255)]);
    renderer.rasterizer.storage_mut().set_texture2d_indices(vec![0]);
    renderer.rasterizer.draw_mesh(&quad(0), &BasicShader);
    let mut buffer = vec![0u32; 35];
    renderer.render(&mut buffer);
    assert_eq!(buffer, vec![0xc86432; 35]);
    // The next frame starts from the background.
    renderer.render(&mut buffer);
    assert_eq!(buffer, vec![BACKGROUND; 35]);
}

#[test]
fn full_screen_quad_is_left_alone_by_smoothing() {
    let options = RendererOptions {
        raster_options: RasterOptions { cull_backfaces: true, background_colour: background() },
        post_processor_options: PostProcessorOptions { fxaa: true },
    };
    let mut renderer = Renderer::new(6, 6, options);
    renderer.rasterizer.storage_mut().set_mat4s(vec![Mat4::identity()]);
    renderer.rasterizer.storage_mut().set_texture2ds(vec![solid(1, 2, 3, 255)]);
    renderer.rasterizer.storage_mut().set_texture2d_indices(vec![0]);
    renderer.rasterizer.draw_mesh(&quad(0), &BasicShader);
    let mut buffer = vec![0u32; 36];
    renderer.render(&mut buffer);
    assert_eq!(buffer, vec![0x010203; 36]);
}

#[test]
fn nothing_drawn_gives_the_background() {
    let mut r = rasterizer(3, 2, false, vec![solid(1, 1, 1, 255)]);
    assert_eq!(frame(&mut r, 3, 2), vec![BACKGROUND; 6]);
    assert_eq!(frame(&mut r, 3, 2), vec![BACKGROUND; 6]);
}

#[test]
fn triangle_beyond_one_plane_draws_nothing() {
    // All three corners have x > w.
    let right = Mesh::new(
        None,
        vec![Face::new([corner(2 * ONE, 0, 0), corner(3 * ONE, 0, 0), corner(2 * ONE, ONE, 0)])],
    );
    // All three corners have z < -w, although they cover the screen.
    let near = quad(-2 * ONE);
    // All three corners have y > w.
    let above = Mesh::new(
        None,
        vec![Face::new([corner(-ONE, 2 * ONE, 0), corner(ONE, 2 * ONE, 0), corner(0, 3 * ONE, 0)])],
    );
    for mesh in [right, near, above] {
        let mut r = rasterizer(4, 4, false, vec![solid(9, 9, 9, 255)]);
        r.draw_mesh(&mesh, &BasicShader);
        assert_eq!(frame(&mut r, 4, 4), vec![BACKGROUND; 16]);
    }
}

#[test]
fn triangle_with_corners_beyond_different_planes_is_drawn() {
    // Each corner lies outside the view volume, but no plane has all three
    // beyond it; the triangle covers the whole screen.
    let huge = Mesh::new(
        None,
        vec![Face::new([corner(-3 * ONE, -3 * ONE, 0), corner(5 * ONE, -3 * ONE, 0), corner(-3 * ONE, 5 * ONE, 0)])],
    );
    let mut r = rasterizer(4, 4, false, vec![solid(9, 8, 7, 255)]);
    r.draw_mesh(&huge, &BasicShader);
    assert_eq!(frame(&mut r, 4, 4), vec![0x090807; 16]);
}

#[test]
fn triangle_that_faces_away_is_culled_only_on_request() {
    let bl = corner(-ONE, -ONE, 0);
    let br = corner(ONE, -ONE, 0);
    let tr = corner(ONE, ONE, 0);
    let tl = corner(-ONE, ONE, 0);
    let away = Mesh::new(None, vec![Face::new([bl, tr, br]), Face::new([bl, tl, tr])]);
    let mut culling = rasterizer(4, 4, true, vec![solid(10, 20, 30, 255)]);
    culling.draw_mesh(&away, &BasicShader);
    assert_eq!(frame(&mut culling, 4, 4), vec![BACKGROUND; 16]);
    let mut drawing = rasterizer(4, 4, false, vec![solid(10, 20, 30, 255)]);
    drawing.draw_mesh(&away, &BasicShader);
    assert_eq!(frame(&mut drawing, 4, 4), vec![0x0a141e; 16]);
    // A triangle that faces the viewer is drawn either way.
    let mut culling = rasterizer(4, 4, true, vec![solid(10, 20, 30, 255)]);
    culling.draw_mesh(&quad(0), &BasicShader);
    assert_eq!(frame(&mut culling, 4, 4), vec![0x0a141e; 16]);
}

#[test]
fn triangle_without_area_draws_nothing() {
    let line = Mesh::new(
        None,
        vec![Face::new([corner(-ONE, -ONE, 0), corner(0, 0, 0), corner(ONE, ONE, 0)])],
    );
    let point = Mesh::new(None, vec![Face::new([corner(0, 0, 0), corner(0, 0, 0), corner(0, 0, 0)])]);
    for mesh in [line, point] {
        let mut r = rasterizer(4, 4, false, vec![solid(9, 9, 9, 255)]);
        r.draw_mesh(&mesh, &BasicShader);
        assert_eq!(frame(&mut r, 4, 4), vec![BACKGROUND; 16]);
    }
}

#[test]
fn corner_with_zero_w_draws_nothing() {
    let mut flat = quad(0);
    flat.faces[0].vertices[1].position.w = 0;
    flat.faces.truncate(1);
    let mut r = rasterizer(4, 4, false, vec![solid(9, 9, 9, 255)]);
    r.draw_mesh(&flat, &BasicShader);
    assert_eq!(frame(&mut r, 4, 4), vec![BACKGROUND; 16]);
}

#[test]
fn one_triangle_covers_the_pixels_inside_it() {
    // The lower left half of the view volume: on a 4x4 screen its corners
    // land at (0, 4), (4, 4) and (0, 0), and it covers the pixels with
    // x <= y.
    let half = Mesh::new(
        None,
        vec![Face::new([corner(-ONE, -ONE, 0), corner(ONE, -ONE, 0), corner(-ONE, ONE, 0)])],
    );
    let mut r = rasterizer(4, 4, true, vec![solid(0, 255, 0, 255)]);
    r.draw_mesh(&half, &BasicShader);
    let out = frame(&mut r, 4, 4);
    for y in 0..4 {
        for x in 0..4 {
            let expected = if x <= y { 0x00ff00 } else { BACKGROUND };
            assert_eq!(out[y * 4 + x], expected, "pixel ({x}, {y})");
        }
    }
}

#[test]
fn nearer_opaque_surface_wins_in_either_order() {
    let textures = || vec![solid(255, 0, 0, 255), solid(0, 0, 255, 255)];
    let near = quad(-ONE / 2);
    let far = quad(ONE / 2);
    for near_first in [true, false] {
        let mut r = rasterizer(3, 3, false, textures());
        let order = if near_first { [(&near, 0), (&far, 1)] } else { [(&far, 1), (&near, 0)] };
        for (mesh, texture) in order {
            r.storage_mut().set_texture2d_indices(vec![texture]);
            r.draw_mesh(mesh, &BasicShader);
        }
        assert_eq!(frame(&mut r, 3, 3), vec![0xff0000; 9]);
    }
}

#[test]
fn translucent_surface_is_blended_over_what_lies_behind_it() {
    let textures = || vec![solid(255, 255, 255, 255), solid(255, 0, 0, 128)];
    let wall = quad(ONE / 2);
    let window = quad(0);
    // On a screen of 3 by 2 pixels no pixel lies on the edge that the two
    // triangles of a quad share.
    for wall_first in [true, false] {
        let mut r = rasterizer(3, 2, false, textures());
        let order = if wall_first { [(&wall, 0), (&window, 1)] } else { [(&window, 1), (&wall, 0)] };
        for (mesh, texture) in order {
            r.storage_mut().set_texture2d_indices(vec![texture]);
            r.draw_mesh(mesh, &BasicShader);
        }
        // alpha 128 is 32897 / 65536; the green and blue of the wall keep
        // 32639 / 65536 of 255, which is 126 when rounded down.
        assert_eq!(frame(&mut r, 3, 2), vec![0xff7e7e; 6]);
    }
}

#[test]
fn pixel_on_the_edge_between_two_triangles_takes_a_fragment_of_each() {
    // On a screen of 2 by 2 pixels the pixel (1, 1) lies on the diagonal of
    // the quad: both triangles cover it, and a translucent quad is blended
    // twice there.
    let mut r = rasterizer(2, 2, false, vec![solid(255, 0, 0, 128)]);
    r.draw_mesh(&quad(0), &BasicShader);
    let mut buffer = vec![0u32; 4];
    r.render_to_buffer(&mut buffer);
    let white_behind = |twice: bool| {
        let mut r = rasterizer(2, 2, false, vec![solid(255, 255, 255, 255), solid(255, 0, 0, 128)]);
        r.draw_mesh(&quad(ONE / 2), &BasicShader);
        r.storage_mut().set_texture2d_indices(vec![1]);
        r.draw_mesh(&quad(0), &BasicShader);
        let out = frame(&mut r, 2, 2);
        if twice { out[3] } else { out[0] }
    };
    assert_eq!(white_behind(false), 0xff7e7e);
    assert_eq!(white_behind(true), 0xff3f3f);
}

#[test]
fn translucent_surface_behind_an_opaque_one_is_not_seen() {
    let mut r = rasterizer(2, 2, false, vec![solid(255, 255, 255, 255), solid(255, 0, 0, 128)]);
    r.draw_mesh(&quad(0), &BasicShader);
    r.storage_mut().set_texture2d_indices(vec![1]);
    r.draw_mesh(&quad(ONE / 2), &BasicShader);
    assert_eq!(frame(&mut r, 2, 2), vec![0xffffff; 4]);
}

#[test]
fn invisible_fragments_are_dropped() {
    let mut r = rasterizer(2, 2, false, vec![solid(255, 255, 255, 0)]);
    r.draw_mesh(&quad(0), &BasicShader);
    assert_eq!(frame(&mut r, 2, 2), vec![BACKGROUND; 4]);
}

#[test]
fn texture_slot_leads_to_the_bound_texture() {
    let mut r = rasterizer(2, 2, false, vec![solid(1, 1, 1, 255), solid(2, 2, 2, 255), solid(3, 3, 3, 255)]);
    r.storage_mut().set_texture2d_indices(vec![2, 0]);
    r.draw_mesh(&quad(0), &BasicShader);
    assert_eq!(frame(&mut r, 2, 2), vec![0x030303; 4]);
}

#[test]
fn matrix_at_index_zero_places_the_vertices() {
    // Scale x by one half: the quad covers the middle half of the columns.
    let mut r = rasterizer(8, 2, false, vec![solid(0, 0, 255, 255)]);
    let squeeze = Mat4::new(
        Vec4::new(ONE / 2, 0, 0, 0),
        Vec4::new(0, ONE, 0, 0),
        Vec4::new(0, 0, ONE, 0),
        Vec4::new(0, 0, 0, ONE),
    );
    r.storage_mut().set_mat4s(vec![squeeze]);
    r.draw_mesh(&quad(0), &BasicShader);
    let out = frame(&mut r, 8, 2);
    for y in 0..2 {
        for x in 0..8 {
            let expected = if (2..=6).contains(&x) { 0x0000ff } else { BACKGROUND };
            assert_eq!(out[y * 8 + x], expected, "pixel ({x}, {y})");
        }
    }
}

#[test]
fn texture_is_mapped_with_the_bottom_row_at_v_zero() {
    // A 2x2 texture on a quad with texture coordinates from 0 to 1.
    let texture = Texture2D::new(
        2,
        2,
        vec![
            Texel { r: 255, g: 0, b: 0, a: 255 },
            Texel { r: 0, g: 255, b: 0, a: 255 },
            Texel { r: 0, g: 0, b: 255, a: 255 },
            Texel { r: 255, g: 255, b: 255, a: 255 },
        ],
    )
    .unwrap();
    let at = |x: i32, y: i32, u: i32, v: i32| Vertex::from_pos_tex(Vec4::new(x, y, 0, ONE), Vec3::new(u, v, 0));
    let bl = at(-ONE, -ONE, 0, 0);
    let br = at(ONE, -ONE, ONE, 0);
    let tr = at(ONE, ONE, ONE, ONE);
    let tl = at(-ONE, ONE, 0, ONE);
    let mesh = Mesh::new(Some("quad".to_string()), vec![Face::new([bl, br, tr]), Face::new([bl, tr, tl])]);
    let mut r = rasterizer(2, 2, false, vec![texture]);
    r.draw_mesh(&mesh, &BasicShader);
    let out = frame(&mut r, 2, 2);
    // The top left pixel has u = 0 and v = 1: the top row of the texture.
    assert_eq!(out[0], 0xff0000);
    // The pixel below it has v = 1/2, which still names the bottom row.
    assert_eq!(out[2], 0x0000ff);
}

#[test]
fn texture_coordinates_are_interpolated_in_perspective() {
    // A triangle whose left corner is three times as near as its right
    // corners. On a screen of 4 by 4 pixels its corners land at (0, 4),
    // (4, 4) and (4, 0), and the pixel (2, 3) has the screen weights 1/2,
    // 1/4 and 1/4. Divided by w these are 1/2, 1/12 and 1/12, so that the
    // corners count for 3/4, 1/8 and 1/8 and u is 1/4, not 1/2.
    let texture = Texture2D::new(
        4,
        1,
        vec![
            Texel { r: 255, g: 0, b: 0, a: 255 },
            Texel { r: 0, g: 255, b: 0, a: 255 },
            Texel { r: 0, g: 0, b: 255, a: 255 },
            Texel { r: 255, g: 255, b: 255, a: 255 },
        ],
    )
    .unwrap();
    let at = |x: i32, y: i32, w: i32, u: i32| {
        Vertex::from_pos_tex(Vec4::new(x * ONE, y * ONE, 0, w * ONE), Vec3::new(u * ONE, 0, 0))
    };
    let mesh = Mesh::new(None, vec![Face::new([at(-1, -1, 1, 0), at(3, -3, 3, 1), at(3, 3, 3, 1)])]);
    let mut r = rasterizer(4, 4, false, vec![texture]);
    r.draw_mesh(&mesh, &BasicShader);
    let out = frame(&mut r, 4, 4);
    // u * 3 is 3/4 at the pixel (2, 3), which names the first texel; without
    // perspective it would be 3/2, which names the second.
    assert_eq!(out[3 * 4 + 2], 0xff0000);
    // At (3, 3) the screen weights are 1/4, 1/2 and 1/4: u is 1/2.
    assert_eq!(out[3 * 4 + 3], 0x00ff00);
    // At (3, 1) they are 1/4, 0 and 3/4: u is 1/2 as well.
    assert_eq!(out[1 * 4 + 3], 0x00ff00);
    assert_eq!(out[0], BACKGROUND);
}

#[test]
fn the_frame_does_not_depend_on_the_number_of_bands() {
    // 37 rows cannot be shared out evenly among most numbers of workers.
    let mut r = rasterizer(3, 37, false, vec![solid(4, 5, 6, 255)]);
    r.draw_mesh(&quad(0), &BasicShader);
    assert_eq!(frame(&mut r, 3, 37), vec![0x040506; 111]);
}

#[test]
fn empty_screens_are_accepted() {
    let mut r = rasterizer(0, 5, false, vec![solid(4, 5, 6, 255)]);
    r.draw_mesh(&quad(0), &BasicShader);
    assert_eq!(frame(&mut r, 0, 5), Vec::<u32>::new());
    let mut r = rasterizer(5, 0, false, vec![solid(4, 5, 6, 255)]);
    r.draw_mesh(&quad(0), &BasicShader);
    assert_eq!(frame(&mut r, 5, 0), Vec::<u32>::new());
}

#[test]
fn bands_are_as_small_as_the_workers_allow() {
    assert_eq!(band_rows(720, 16), 45);
    assert_eq!(band_rows(721, 16), 46);
    assert_eq!(band_rows(5, 8), 1);
    assert_eq!(band_rows(5, 1), 5);
    assert_eq!(band_rows(5, 0), 5);
    assert_eq!(band_rows(1, usize::MAX), 1);
    assert_eq!(band_rows(usize::MAX, 2), usize::MAX / 2 + 1);
}
