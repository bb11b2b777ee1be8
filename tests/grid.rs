use boids_core::{
    dispatch_grid, texel_coords, texel_index, texture_capacity, workgroup_count, WorkgroupGrid,
    IMAGE_SIZE, WORKGROUP_SIZE,
};

#[test]
fn dispatch_grid_covers_texture_exactly() {
    assert_eq!(IMAGE_SIZE, 128);
    assert_eq!(WORKGROUP_SIZE, 8);
    assert_eq!(dispatch_grid(), WorkgroupGrid { x: 16, y: 16, z: 1 });
}

#[test]
fn workgroup_count_rounds_up() {
    assert_eq!(workgroup_count(128, 8), 16);
    assert_eq!(workgroup_count(10, 4), 3);
    assert_eq!(workgroup_count(129, 8), 17);
    assert_eq!(workgroup_count(0, 8), 0);
    assert_eq!(workgroup_count(1, 8), 1);
    assert_eq!(workgroup_count(u32::MAX, 1), u32::MAX);
    assert_eq!(workgroup_count(u32::MAX, 2), 1 << 31);
}

#[test]
fn capacity_is_one_boid_per_texel() {
    assert_eq!(texture_capacity(), 16384);
}

#[test]
fn texel_addressing_is_row_major() {
    assert_eq!(texel_index(0, 0), 0);
    assert_eq!(texel_index(5, 0), 5);
    assert_eq!(texel_index(0, 1), 128);
    assert_eq!(texel_index(127, 127), 16383);
    assert_eq!(texel_coords(0), (0, 0));
    assert_eq!(texel_coords(130), (2, 1));
    assert_eq!(texel_coords(16383), (127, 127));
}

#[test]
fn texel_addressing_round_trips() {
    for index in [0u32, 1, 127, 128, 1000, 8191, 16383] {
        let (x, y) = texel_coords(index);
        assert_eq!(texel_index(x, y), index);
    }
}
