use graytracer::grid::{pixel_index, validate_bounds};
use graytracer::ray::StepAction;
use graytracer::scene::RaytraceState;
use rand::rngs::StdRng;
use rand::{Rng, RngCore, SeedableRng};

fn noise(len: usize, rng: &mut StdRng) -> Vec<u8> {
    let mut bytes = vec![0u8; len];
    rng.fill_bytes(&mut bytes);
    bytes
}

#[test]
fn random_points_never_reach_outside_the_images() {
    let (width, height) = (13u32, 7u32);
    let mut rng = StdRng::seed_from_u64(99);
    let edge = noise(13 * 7 * 4, &mut rng);
    let blur = noise(13 * 7 * 4, &mut rng);
    let state = RaytraceState::new((width, height), &edge, &blur).unwrap();
    let mut inside = 0;
    for _ in 0..10_000 {
        let point = (rng.gen_range(-20..40), rng.gen_range(-20..40));
        let expected = point.0 >= 0 && point.0 < 13 && point.1 >= 0 && point.1 < 7;
        match validate_bounds(point, (width, height)) {
            Some(coords) => {
                assert!(expected);
                assert_eq!(coords, (point.0 as u32, point.1 as u32));
                let idx = pixel_index(coords, (width, height));
                assert!(idx * 4 + 3 < edge.len());
                assert_eq!(state.orig_at(coords), (edge[idx * 4], edge[idx * 4 + 1], edge[idx * 4 + 2]));
                assert_eq!(state.blur_at(coords), (blur[idx * 4], blur[idx * 4 + 1], blur[idx * 4 + 2]));
                let _ = state.normal_at(coords);
                inside += 1;
            }
            None => assert!(!expected),
        }
    }
    assert!(inside > 0);
}

#[test]
fn random_walks_write_only_cells_of_the_buffer() {
    let (width, height) = (9u32, 11u32);
    let mut rng = StdRng::seed_from_u64(1234);
    let edge = noise(9 * 11 * 4, &mut rng);
    let blur = noise(9 * 11 * 4, &mut rng);
    let state = RaytraceState::new((width, height), &edge, &blur).unwrap();
    for _ in 0..500 {
        let mut walk = state.start_ray();
        let mut point = (rng.gen_range(0..9), rng.gen_range(0..11));
        let mut writes = 0u64;
        for _ in 0..100 {
            let action = state.visit_random(&mut walk, point, &mut rng);
            match action.target() {
                Some(cell) => {
                    assert!(cell < state.cell_len());
                    assert_eq!(cell, (point.1 * 9 + point.0) as usize);
                    writes += 1;
                }
                None => assert_eq!(action, StepAction::Halt),
            }
            point = (point.0 + rng.gen_range(-1..2), point.1 + rng.gen_range(-1..2));
        }
        assert!(writes <= state.max_ray_length());
        assert!(writes <= 22);
    }
}

#[test]
fn normal_at_reads_inside_the_image_along_the_whole_border() {
    let (width, height) = (6u32, 5u32);
    let mut rng = StdRng::seed_from_u64(3);
    let edge = noise(6 * 5 * 4, &mut rng);
    let blur = noise(6 * 5 * 4, &mut rng);
    let state = RaytraceState::new((width, height), &edge, &blur).unwrap();
    let level = |col: u32, row: u32| -> i32 {
        let i = ((row * 6 + col) * 4) as usize;
        blur[i] as i32 + blur[i + 1] as i32 + blur[i + 2] as i32
    };
    for col in 0..width {
        for row in 0..height {
            if col != 0 && col != width - 1 && row != 0 && row != height - 1 {
                continue;
            }
            let l = col.saturating_sub(1);
            let r = (col + 1).min(width - 1);
            let u = row.saturating_sub(1);
            let d = (row + 1).min(height - 1);
            let x = (level(r, u) + 2 * level(r, row) + level(r, d))
                - (level(l, u) + 2 * level(l, row) + level(l, d));
            let y = (level(l, d) + 2 * level(col, d) + level(r, d))
                - (level(l, u) + 2 * level(col, u) + level(r, u));
            let expected = if x == 0 && y == 0 { None } else { Some((x, y)) };
            assert_eq!(state.normal_at((col, row)), expected);
        }
    }
}
