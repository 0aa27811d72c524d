use graytracer::ray::Tuning;
use graytracer::scene::{dense, RaytraceState, SceneError, FULL_LEVEL, RAYS_PER_FRAME};

fn gray_image(width: u32, height: u32, columns: &[u8]) -> Vec<u8> {
    let mut bytes = Vec::new();
    for _row in 0..height {
        for col in 0..width {
            let v = columns[col as usize];
            bytes.push(v);
            bytes.push(v);
            bytes.push(v);
            bytes.push(255);
        }
    }
    bytes
}

#[test]
fn new_accepts_matching_buffers() {
    let edge = gray_image(4, 4, &[0, 0, 255, 255]);
    let blur = gray_image(4, 4, &[0, 64, 191, 255]);
    let state = RaytraceState::new((4, 4), &edge, &blur).unwrap();
    assert_eq!(state.size(), (4, 4));
    assert_eq!(state.iters_per_frame(), RAYS_PER_FRAME);
    assert_eq!(state.iters_per_frame(), 1000);
    assert_eq!(state.tuning(), Tuning::standard());
    assert_eq!(state.max_ray_length(), 8);
}

#[test]
fn new_rejects_an_empty_image() {
    let none: Vec<u8> = Vec::new();
    assert_eq!(RaytraceState::new((0, 4), &none, &none).err(), Some(SceneError::EmptyImage));
    assert_eq!(RaytraceState::new((4, 0), &none, &none).err(), Some(SceneError::EmptyImage));
    assert_eq!(RaytraceState::new((0, 0), &none, &none).err(), Some(SceneError::EmptyImage));
}

#[test]
fn new_rejects_a_short_edge_buffer() {
    let edge = vec![0u8; 63];
    let blur = vec![0u8; 64];
    assert_eq!(RaytraceState::new((4, 4), &edge, &blur).err(), Some(SceneError::EdgeLength));
}

#[test]
fn new_rejects_a_long_blur_buffer() {
    let edge = vec![0u8; 64];
    let blur = vec![0u8; 65];
    assert_eq!(RaytraceState::new((4, 4), &edge, &blur).err(), Some(SceneError::BlurLength));
}

#[test]
fn new_reports_the_edge_buffer_first() {
    let edge = vec![0u8; 3];
    let blur = vec![0u8; 5];
    assert_eq!(RaytraceState::new((4, 4), &edge, &blur).err(), Some(SceneError::EdgeLength));
}

#[test]
fn new_rejects_a_size_too_large_for_any_buffer() {
    let edge = vec![0u8; 16];
    let blur = vec![0u8; 16];
    let r = RaytraceState::new((u32::MAX, u32::MAX), &edge, &blur);
    assert_eq!(r.err(), Some(SceneError::EdgeLength));
}

#[test]
fn error_messages_name_the_fault() {
    assert_eq!(SceneError::EmptyImage.message(), "image width and height must both be positive");
    assert_eq!(SceneError::EdgeLength.message(), "edge buffer length is not width * height * 4");
    assert_eq!(SceneError::BlurLength.message(), "blur buffer length is not width * height * 4");
}

#[test]
fn with_tuning_replaces_the_tuning_only() {
    let edge = vec![0u8; 16];
    let blur = vec![0u8; 16];
    let tuning = Tuning { cooldown: 0, diffuse_above: 7 };
    let state = RaytraceState::new((2, 2), &edge, &blur).unwrap().with_tuning(tuning);
    assert_eq!(state.tuning(), tuning);
    assert_eq!(state.size(), (2, 2));
    assert_eq!(state.iters_per_frame(), 1000);
}

#[test]
fn standard_tuning_values() {
    let t = Tuning::standard();
    assert_eq!(t.cooldown, 3);
    assert_eq!(t.diffuse_above, 0xbfff_ffff);
}

#[test]
fn orig_at_reads_the_three_colour_bytes() {
    let mut edge = vec![0u8; 2 * 2 * 4];
    for (i, b) in edge.iter_mut().enumerate() {
        *b = i as u8 + 10;
    }
    let blur = vec![9u8; 16];
    let state = RaytraceState::new((2, 2), &edge, &blur).unwrap();
    assert_eq!(state.orig_at((0, 0)), (10, 11, 12));
    assert_eq!(state.orig_at((1, 0)), (14, 15, 16));
    assert_eq!(state.orig_at((0, 1)), (18, 19, 20));
    assert_eq!(state.orig_at((1, 1)), (22, 23, 24));
    assert_eq!(state.blur_at((1, 1)), (9, 9, 9));
}

#[test]
fn blur_at_reads_the_blur_buffer() {
    let edge = vec![0u8; 16];
    let mut blur = vec![0u8; 16];
    blur[4] = 1;
    blur[5] = 2;
    blur[6] = 3;
    blur[7] = 200;
    let state = RaytraceState::new((2, 2), &edge, &blur).unwrap();
    assert_eq!(state.blur_at((1, 0)), (1, 2, 3));
    assert_eq!(state.blur_value_at((1, 0)), 6);
    assert_eq!(state.orig_at((1, 0)), (0, 0, 0));
}

#[test]
fn value_is_the_channel_sum_and_ignores_alpha() {
    let edge = vec![255u8, 255, 255, 0, 0, 0, 0, 255, 100, 20, 3, 77, 128, 127, 128, 1];
    let blur = vec![0u8; 16];
    let state = RaytraceState::new((2, 2), &edge, &blur).unwrap();
    assert_eq!(state.orig_value_at((0, 0)), 765);
    assert_eq!(state.orig_value_at((0, 0)), FULL_LEVEL);
    assert_eq!(state.orig_value_at((1, 0)), 0);
    assert_eq!(state.orig_value_at((0, 1)), 123);
    assert_eq!(state.orig_value_at((1, 1)), 383);
}

#[test]
fn normal_at_is_none_on_a_flat_image() {
    let edge = gray_image(3, 3, &[0, 0, 0]);
    let blur = gray_image(3, 3, &[90, 90, 90]);
    let state = RaytraceState::new((3, 3), &edge, &blur).unwrap();
    for col in 0..3 {
        for row in 0..3 {
            assert_eq!(state.normal_at((col, row)), None);
        }
    }
}

#[test]
fn normal_at_points_up_the_gradient() {
    let edge = gray_image(4, 4, &[0, 0, 255, 255]);
    let blur = gray_image(4, 4, &[0, 64, 191, 255]);
    let state = RaytraceState::new((4, 4), &edge, &blur).unwrap();
    // Row sums of the kernel are 1 + 2 + 1; a grey level counts three times.
    assert_eq!(state.normal_at((1, 1)), Some((4 * 3 * 191, 0)));
    assert_eq!(state.normal_at((2, 2)), Some((4 * 3 * (255 - 64), 0)));
}

#[test]
fn normal_at_on_the_border_uses_clamped_taps() {
    let edge = gray_image(4, 4, &[0, 0, 255, 255]);
    let blur = gray_image(4, 4, &[0, 64, 191, 255]);
    let state = RaytraceState::new((4, 4), &edge, &blur).unwrap();
    assert_eq!(state.normal_at((0, 0)), Some((4 * 3 * 64, 0)));
    assert_eq!(state.normal_at((3, 0)), Some((4 * 3 * (255 - 191), 0)));
    assert_eq!(state.normal_at((0, 3)), Some((4 * 3 * 64, 0)));
    assert_eq!(state.normal_at((3, 3)), Some((4 * 3 * 64, 0)));
}

#[test]
fn normal_at_every_pixel_of_a_one_pixel_image() {
    let edge = vec![1u8, 2, 3, 4];
    let blur = vec![5u8, 6, 7, 8];
    let state = RaytraceState::new((1, 1), &edge, &blur).unwrap();
    assert_eq!(state.normal_at((0, 0)), None);
}

#[test]
fn normal_at_has_a_vertical_component_on_a_horizontal_step() {
    // Rows 0 and 1 dark, row 2 bright.
    let mut blur = vec![0u8; 3 * 3 * 4];
    for col in 0..3 {
        let i = (2 * 3 + col) * 4;
        blur[i] = 10;
        blur[i + 1] = 20;
        blur[i + 2] = 30;
    }
    let edge = vec![0u8; 36];
    let state = RaytraceState::new((3, 3), &edge, &blur).unwrap();
    assert_eq!(state.normal_at((1, 1)), Some((0, 4 * 60)));
    assert_eq!(state.normal_at((1, 0)), None);
    assert_eq!(state.normal_at((1, 2)), Some((0, 4 * 60)));
}

#[test]
fn normal_at_extreme_gradient() {
    let edge = gray_image(3, 1, &[0, 0, 0]);
    let blur = gray_image(3, 1, &[255, 0, 0]);
    let state = RaytraceState::new((3, 1), &edge, &blur).unwrap();
    assert_eq!(state.normal_at((1, 0)), Some((-3060, 0)));
    assert_eq!(state.normal_at((0, 0)), Some((-3060, 0)));
    assert_eq!(state.normal_at((2, 0)), None);
}

#[test]
fn cell_and_byte_lengths() {
    let edge = vec![0u8; 5 * 3 * 4];
    let blur = vec![0u8; 5 * 3 * 4];
    let state = RaytraceState::new((5, 3), &edge, &blur).unwrap();
    assert_eq!(state.cell_len(), 15);
    assert_eq!(state.byte_len(), 60);
}

#[test]
fn dense_from_one_half_upwards() {
    assert!(!dense(0));
    assert!(!dense(382));
    assert!(dense(383));
    assert!(dense(765));
}
