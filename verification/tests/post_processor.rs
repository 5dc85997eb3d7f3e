use softraster::post_processor::{fxaa_row, PostProcessor, PostProcessorOptions, LUMA_THRESHOLD};

const BLACK: u32 = 0x000000;
const WHITE: u32 = 0xffffff;

fn smooth(width: usize, height: usize, frame: &[u32]) -> Vec<u32> {
    let mut pass = PostProcessor::new(width, height, PostProcessorOptions { fxaa: true });
    let mut buffer = frame.to_vec();
    pass.process(&mut buffer);
    buffer
}

#[test]
fn disabled_pass_changes_nothing() {
    let frame: Vec<u32> = (0..25).map(|i| if i % 2 == 0 { WHITE } else { BLACK }).collect();
    let mut pass = PostProcessor::new(5, 5, PostProcessorOptions { fxaa: false });
    let mut buffer = frame.clone();
    pass.process(&mut buffer);
    assert_eq!(buffer, frame);
}

#[test]
fn border_pixels_are_copied() {
    let frame: Vec<u32> = (0..20u32).map(|i| if i % 2 == 0 { WHITE } else { i * 0x010203 }).collect();
    let out = smooth(5, 4, &frame);
    for y in 0..4 {
        for x in 0..5 {
            if x == 0 || x == 4 || y == 0 || y == 3 {
                assert_eq!(out[y * 5 + x], frame[y * 5 + x]);
            }
        }
    }
}

#[test]
fn flat_frame_is_unchanged() {
    let frame = vec![0x336699; 12];
    assert_eq!(smooth(4, 3, &frame), frame);
}

#[test]
fn pixel_on_an_edge_becomes_the_average_of_its_neighbourhood() {
    // Left column black, the rest white: the centre of a 3x3 frame sees
    // black on its left and white on its right.
    let frame = vec![BLACK, WHITE, WHITE, BLACK, WHITE, WHITE, BLACK, WHITE, WHITE];
    let out = smooth(3, 3, &frame);
    // Six white and three black pixels: 6 * 255 / 9 = 170.
    assert_eq!(out[4], 0xaaaaaa);
    for i in [0, 1, 2, 3, 5, 6, 7, 8] {
        assert_eq!(out[i], frame[i]);
    }
}

#[test]
fn average_is_taken_channel_by_channel_and_rounded_down() {
    let frame = vec![
        0x0a141e, 0x000000, 0x010203, //
        0x000000, 0x123456, 0xffffff, //
        0x040506, 0x000000, 0x070809,
    ];
    let out = smooth(3, 3, &frame);
    // red: 10 + 1 + 18 + 255 + 4 + 7 = 295, green: 20 + 2 + 52 + 255 + 5 + 8 = 342,
    // blue: 30 + 3 + 86 + 255 + 6 + 9 = 389; each over 9.
    assert_eq!(out[4], (32 << 16) | (38 << 8) | 43);
}

#[test]
fn contrast_at_the_threshold_is_not_smoothed() {
    // Luminance weights: 2126 R + 7152 G + 722 B. A green step of 30 and a
    // red step of 19 give 7152 * 30 + 2126 * 19 = 254954; one more blue
    // step of 64 gives 254954 + 722 * 64 = 301162.
    assert_eq!(LUMA_THRESHOLD, 255_000);
    let below = vec![
        0, 0, 0, //
        0, 0x445566, 0x131e00, //
        0, 0, 0,
    ];
    assert_eq!(smooth(3, 3, &below), below);
    // 7152 * 35 + 2126 * 2 + 722 * 1 = 255294 is above the threshold.
    let above = vec![
        0, 0, 0, //
        0, 0x090909, 0x022301, //
        0, 0, 0,
    ];
    let out = smooth(3, 3, &above);
    assert_eq!(out[4], ((9 + 2) / 9 << 16) | ((9 + 35) / 9 << 8) | ((9 + 1) / 9));
    // exactly at the threshold: 7152 * 35 + 2126 * 2 + 722 * 0 = 254572, and
    // a red step of 120 alone is 255120; 2126 * 119 + 722 * 2 + 7152 * 0 = 254438.
    let vertical = vec![
        0, 0x780000, 0, //
        0, 0x101010, 0, //
        0, 0, 0,
    ];
    let out = smooth(3, 3, &vertical);
    assert_eq!(out[4], ((0x78 + 0x10) / 9 << 16) | ((0x10 / 9) << 8) | (0x10 / 9));
}

#[test]
fn horizontal_and_vertical_contrast_add_up() {
    // Neither step alone passes the threshold: 2126 * 60 = 127560 each.
    let frame = vec![
        0, 0x3c0000, 0, //
        0x3c0000, 0x000900, 0, //
        0, 0, 0,
    ];
    let out = smooth(3, 3, &frame);
    assert_eq!(out[4], ((120 / 9) << 16) | (1 << 8));
}

#[test]
fn the_top_byte_of_a_pixel_is_ignored_and_dropped() {
    let frame = vec![
        0xff000000, 0xff000000, 0xff000000, //
        0xff000000, 0xff000000, 0xffffffff, //
        0xff000000, 0xff000000, 0xff000000,
    ];
    let out = smooth(3, 3, &frame);
    assert_eq!(out[4], 0x1c1c1c);
    assert_eq!(out[5], 0xffffffff);
}

#[test]
fn every_interior_pixel_reads_the_frame_as_it_was() {
    // A white column at x = 2 in a 5x3 frame: its neighbours are smoothed
    // from the frame as it was, not from each other's results.
    let mut frame = vec![BLACK; 15];
    for y in 0..3 {
        frame[y * 5 + 2] = WHITE;
    }
    let out = smooth(5, 3, &frame);
    assert_eq!(out[5 + 1], 0x555555);
    assert_eq!(out[5 + 2], WHITE);
    assert_eq!(out[5 + 3], 0x555555);
}

#[test]
fn frames_without_interior_are_copied() {
    assert_eq!(smooth(2, 2, &[1, 2, 3, 4]), vec![1, 2, 3, 4]);
    assert_eq!(smooth(1, 3, &[WHITE, BLACK, WHITE]), vec![WHITE, BLACK, WHITE]);
    assert_eq!(smooth(3, 1, &[WHITE, BLACK, WHITE]), vec![WHITE, BLACK, WHITE]);
    assert_eq!(smooth(0, 0, &[]), Vec::<u32>::new());
    assert_eq!(smooth(0, 7, &[]), Vec::<u32>::new());
}

#[test]
fn luminance_of_white_is_the_full_scale() {
    assert_eq!(PostProcessor::luminance(WHITE), 2_550_000);
    assert_eq!(PostProcessor::luminance(0x010000), 2126);
    assert_eq!(PostProcessor::luminance(0x000100), 7152);
    assert_eq!(PostProcessor::luminance(0x000001), 722);
    assert_eq!(PostProcessor::luminance(0xff010203), 2126 + 2 * 7152 + 3 * 722);
}

#[test]
fn one_row_is_smoothed_by_itself() {
    let frame = vec![BLACK, WHITE, WHITE, BLACK, WHITE, WHITE, BLACK, WHITE, WHITE];
    let mut row = vec![7, 7, 7];
    fxaa_row(&frame, &mut row, 1, 3, 3);
    assert_eq!(row, vec![BLACK, 0xaaaaaa, WHITE]);
    fxaa_row(&frame, &mut row, 0, 3, 3);
    assert_eq!(row, vec![BLACK, WHITE, WHITE]);
}
