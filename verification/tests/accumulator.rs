use softraster::alpha_buffer::{Fragment, RenderBufferPixel, DEPTH_MAX, OPAQUE_ALPHA};
use softraster::fixed::ONE;
use softraster::vector::{Vec3, Vec4};

fn white() -> Vec3 {
    Vec3::new(ONE, ONE, ONE)
}

#[test]
fn translucent_red_over_white_is_pink() {
    let mut pixel = RenderBufferPixel::new(white());
    pixel.add(Fragment { colour: Vec4::new(ONE, 0, 0, ONE / 2), depth: ONE });
    assert_eq!(pixel.resolve(white()), Vec3::new(ONE, ONE / 2, ONE / 2));
}

#[test]
fn resolve_twice_gives_the_background_both_times() {
    let sky = Vec3::new(34668, 52953, 64225);
    let mut pixel = RenderBufferPixel::new(sky);
    assert_eq!(pixel.resolve(sky), sky);
    assert_eq!(pixel.resolve(sky), sky);
    assert_eq!(pixel.get_background().depth, DEPTH_MAX);
}

#[test]
fn resolve_clears_what_was_drawn() {
    let mut pixel = RenderBufferPixel::new(white());
    pixel.add(Fragment { colour: Vec4::new(0, ONE, 0, ONE), depth: 5 });
    pixel.add(Fragment { colour: Vec4::new(ONE, 0, 0, ONE / 4), depth: 3 });
    let black = Vec3::new(0, 0, 0);
    assert_eq!(pixel.resolve(black), Vec3::new(ONE / 4, 3 * (ONE / 4), 0));
    assert_eq!(*pixel.get_background(), Fragment { colour: Vec4::new(0, 0, 0, ONE), depth: DEPTH_MAX });
    assert_eq!(pixel.resolve(black), black);
}

#[test]
fn new_pixel_holds_the_opaque_background_at_the_greatest_depth() {
    let pixel = RenderBufferPixel::new(Vec3::new(1, 2, 3));
    assert_eq!(*pixel.get_background(), Fragment { colour: Vec4::new(1, 2, 3, ONE), depth: 2147483647 });
}

#[test]
fn alpha_at_the_opaque_threshold_replaces_the_background() {
    let mut pixel = RenderBufferPixel::new(white());
    let f = Fragment { colour: Vec4::new(0, 0, ONE, OPAQUE_ALPHA), depth: 7 };
    pixel.add(f);
    assert_eq!(*pixel.get_background(), f);
    assert_eq!(pixel.resolve(white()), Vec3::new(0, 0, ONE));
}

#[test]
fn alpha_just_below_the_opaque_threshold_is_blended() {
    let mut pixel = RenderBufferPixel::new(Vec3::new(0, 0, 0));
    pixel.add(Fragment { colour: Vec4::new(ONE, ONE, ONE, OPAQUE_ALPHA - 1), depth: 7 });
    assert_eq!(pixel.get_background().depth, DEPTH_MAX);
    assert_eq!(pixel.resolve(white()), Vec3::new(65529, 65529, 65529));
}

#[test]
fn add_does_not_compare_depths() {
    let mut pixel = RenderBufferPixel::new(white());
    pixel.add(Fragment { colour: Vec4::new(ONE, 0, 0, ONE), depth: 1 });
    pixel.add(Fragment { colour: Vec4::new(0, ONE, 0, ONE), depth: 9 });
    assert_eq!(pixel.get_background().depth, 9);
    assert_eq!(pixel.resolve(white()), Vec3::new(0, ONE, 0));
}

#[test]
fn translucent_fragment_behind_the_background_is_left_out() {
    let mut pixel = RenderBufferPixel::new(white());
    pixel.add(Fragment { colour: Vec4::new(ONE, 0, 0, ONE / 2), depth: 10 });
    pixel.add(Fragment { colour: Vec4::new(0, 0, ONE, ONE), depth: 5 });
    assert_eq!(pixel.resolve(white()), Vec3::new(0, 0, ONE));
}

#[test]
fn translucent_fragment_at_the_depth_of_the_background_is_blended() {
    let mut pixel = RenderBufferPixel::new(white());
    pixel.add(Fragment { colour: Vec4::new(0, 0, ONE, ONE), depth: 5 });
    pixel.add(Fragment { colour: Vec4::new(ONE, 0, 0, ONE / 2), depth: 5 });
    assert_eq!(pixel.resolve(white()), Vec3::new(ONE / 2, 0, ONE / 2));
}

#[test]
fn three_translucent_fragments_are_blended_nearest_first() {
    // The nearest fragment is blended first and so ends up underneath: with
    // red nearest, then green, then blue over black, blue shows most.
    let red = Fragment { colour: Vec4::new(ONE, 0, 0, ONE / 2), depth: 1 };
    let green = Fragment { colour: Vec4::new(0, ONE, 0, ONE / 2), depth: 2 };
    let blue = Fragment { colour: Vec4::new(0, 0, ONE, ONE / 2), depth: 3 };
    let expected = Vec3::new(ONE / 8, ONE / 4, ONE / 2);
    let black = Vec3::new(0, 0, 0);
    for order in [[red, green, blue], [blue, green, red], [green, blue, red]] {
        let mut pixel = RenderBufferPixel::new(black);
        for f in order {
            pixel.add(f);
        }
        assert_eq!(pixel.resolve(black), expected);
    }
}

#[test]
fn fragments_of_one_depth_keep_their_order() {
    let black = Vec3::new(0, 0, 0);
    let red = Fragment { colour: Vec4::new(ONE, 0, 0, ONE / 2), depth: 4 };
    let green = Fragment { colour: Vec4::new(0, ONE, 0, ONE / 2), depth: 4 };
    let mut pixel = RenderBufferPixel::new(black);
    pixel.add(red);
    pixel.add(green);
    assert_eq!(pixel.resolve(black), Vec3::new(ONE / 4, ONE / 2, 0));
    pixel.add(green);
    pixel.add(red);
    assert_eq!(pixel.resolve(black), Vec3::new(ONE / 2, ONE / 4, 0));
}

#[test]
fn blending_rounds_down() {
    let mut pixel = RenderBufferPixel::new(Vec3::new(0, 0, 0));
    pixel.add(Fragment { colour: Vec4::new(3, -3, 1, ONE / 2), depth: 0 });
    assert_eq!(pixel.resolve(white()), Vec3::new(1, -2, 0));
}
