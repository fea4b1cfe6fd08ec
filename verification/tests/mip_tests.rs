use mipgen::mip::{mip_pass_plan, PixelFormat};

#[test]
fn plan_of_single_level_chain_is_empty() {
    // One allocated level means level 0 alone: nothing to generate.
    let plan = mip_pass_plan(1);
    assert!(plan.is_empty());
}

#[test]
fn plan_of_zero_levels_is_empty() {
    let plan = mip_pass_plan(0);
    assert!(plan.is_empty());
}

#[test]
fn plan_touches_one_pass_per_level_beyond_the_first() {
    for mip_count in 1u32..=12 {
        let plan = mip_pass_plan(mip_count);
        assert_eq!(plan.len() as u32, mip_count - 1);
    }
}

#[test]
fn plan_of_four_levels_exactly() {
    let plan = mip_pass_plan(4);
    assert_eq!(plan, vec![(0, 1), (1, 2), (2, 3)]);
}

#[test]
fn every_target_is_drawn_from_the_level_directly_before_it() {
    let plan = mip_pass_plan(11);
    for (i, &(source, target)) in plan.iter().enumerate() {
        assert_eq!(target, i as u32 + 1);
        assert_eq!(source, target - 1);
    }
}

#[test]
fn passes_are_recorded_in_strictly_ascending_target_order() {
    let plan = mip_pass_plan(9);
    for window in plan.windows(2) {
        assert!(window[0].1 < window[1].1);
        // A later pass never reads a level that has not been written yet.
        assert!(window[1].0 >= window[0].1);
    }
}

#[test]
fn rerun_produces_the_identical_schedule() {
    let first = mip_pass_plan(6);
    let second = mip_pass_plan(6);
    assert_eq!(first, second);
}

#[test]
fn full_chain_of_a_256_square_texture() {
    // A 256x256 texture carries 9 levels, 256 down to 1; filling them takes
    // 8 passes and the last one draws the 1x1 level 8 from level 7.
    let plan = mip_pass_plan(9);
    assert_eq!(plan.len(), 8);
    assert_eq!(plan[0], (0, 1));
    assert_eq!(plan[7], (7, 8));
}

#[test]
fn pixel_formats_are_distinct_tags() {
    assert_ne!(PixelFormat::Rgba8Unorm, PixelFormat::Rgba8UnormSrgb);
    assert_ne!(PixelFormat::Bgra8Unorm, PixelFormat::Bgra8UnormSrgb);
    assert_eq!(PixelFormat::Rgba8Unorm, PixelFormat::Rgba8Unorm);
}
