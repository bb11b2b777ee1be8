use boids_core::{
    prepare_textures_bind_group, prepare_uniforms_bind_group, Assembly, BindGroupCache,
};

#[test]
fn texture_group_waits_for_both_views() {
    let mut cache = BindGroupCache::new();
    assert!(!cache.is_bound());
    assert_eq!(prepare_textures_bind_group(&mut cache, None, Some(4)), Assembly::Skipped);
    assert_eq!(prepare_textures_bind_group(&mut cache, Some(3), None), Assembly::Skipped);
    assert!(!cache.is_bound());
    assert_eq!(cache.bound(), None);
}

#[test]
fn texture_group_is_reused_while_views_stay() {
    let mut cache = BindGroupCache::new();
    assert_eq!(prepare_textures_bind_group(&mut cache, Some(3), Some(4)), Assembly::Created);
    assert_eq!(cache.bound(), Some(vec![3, 4]));
    for _ in 0..3 {
        assert_eq!(prepare_textures_bind_group(&mut cache, Some(3), Some(4)), Assembly::Reused);
        assert_eq!(cache.bound(), Some(vec![3, 4]));
    }
}

#[test]
fn texture_group_is_rebuilt_when_a_view_changes() {
    let mut cache = BindGroupCache::new();
    prepare_textures_bind_group(&mut cache, Some(3), Some(4));
    assert_eq!(prepare_textures_bind_group(&mut cache, Some(3), Some(5)), Assembly::Created);
    assert_eq!(cache.bound(), Some(vec![3, 5]));
    assert_eq!(prepare_textures_bind_group(&mut cache, Some(4), Some(3)), Assembly::Created);
    assert_eq!(cache.bound(), Some(vec![4, 3]));
}

#[test]
fn missing_view_keeps_previous_group() {
    let mut cache = BindGroupCache::new();
    prepare_textures_bind_group(&mut cache, Some(3), Some(4));
    assert_eq!(prepare_textures_bind_group(&mut cache, Some(7), None), Assembly::Skipped);
    assert_eq!(cache.bound(), Some(vec![3, 4]));
    assert_eq!(prepare_textures_bind_group(&mut cache, Some(3), Some(4)), Assembly::Reused);
}

#[test]
fn uniform_group_follows_the_buffer() {
    let mut cache = BindGroupCache::new();
    assert_eq!(prepare_uniforms_bind_group(&mut cache, None), Assembly::Skipped);
    assert_eq!(prepare_uniforms_bind_group(&mut cache, Some(9)), Assembly::Created);
    assert_eq!(prepare_uniforms_bind_group(&mut cache, Some(9)), Assembly::Reused);
    assert_eq!(prepare_uniforms_bind_group(&mut cache, Some(10)), Assembly::Created);
    assert_eq!(cache.bound(), Some(vec![10]));
}

#[test]
fn generic_assembly_binds_slots_in_order() {
    let mut cache = BindGroupCache::new();
    assert_eq!(cache.assemble(&vec![]), Assembly::Created);
    assert_eq!(cache.bound(), Some(vec![]));
    assert_eq!(cache.assemble(&vec![]), Assembly::Reused);
    assert_eq!(cache.assemble(&vec![Some(1), Some(2), Some(3)]), Assembly::Created);
    assert_eq!(cache.bound(), Some(vec![1, 2, 3]));
    assert_eq!(cache.assemble(&vec![Some(1), None, Some(3)]), Assembly::Skipped);
    assert_eq!(cache.bound(), Some(vec![1, 2, 3]));
}
