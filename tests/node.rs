use boids_core::{
    BoidsNode, BoidsState, ComputePassPlan, Dispatch, PipelineKind, PipelineStatus, WorkgroupGrid,
    TEXTURE_GROUP_SLOT, UNIFORM_GROUP_SLOT,
};

const GRID: WorkgroupGrid = WorkgroupGrid { x: 16, y: 16, z: 1 };

#[test]
fn node_starts_loading_and_dispatches_nothing() {
    let node = BoidsNode::default();
    assert_eq!(node.state(), BoidsState::Loading);
    assert_eq!(
        node.run(),
        ComputePassPlan { uniform_group_slot: 0, texture_group_slot: 1, dispatch: None }
    );
    assert_eq!(UNIFORM_GROUP_SLOT, 0);
    assert_eq!(TEXTURE_GROUP_SLOT, 1);
}

#[test]
fn node_waits_for_init_program() {
    let mut node = BoidsNode::default();
    assert_eq!(node.update(PipelineStatus::Queued, PipelineStatus::Ready), None);
    assert_eq!(node.state(), BoidsState::Loading);
    assert_eq!(node.update(PipelineStatus::Creating, PipelineStatus::Ready), None);
    assert_eq!(node.state(), BoidsState::Loading);
    assert_eq!(node.update(PipelineStatus::Ready, PipelineStatus::Ready), None);
    assert_eq!(node.state(), BoidsState::Init);
    assert_eq!(
        node.run().dispatch,
        Some(Dispatch { pipeline: PipelineKind::Init, workgroups: GRID })
    );
}

#[test]
fn node_moves_one_state_per_frame() {
    let mut node = BoidsNode::default();
    node.update(PipelineStatus::Ready, PipelineStatus::Ready);
    assert_eq!(node.state(), BoidsState::Init);
    node.update(PipelineStatus::Ready, PipelineStatus::Ready);
    assert_eq!(node.state(), BoidsState::Update);
    assert_eq!(
        node.run().dispatch,
        Some(Dispatch { pipeline: PipelineKind::Update, workgroups: GRID })
    );
}

#[test]
fn node_never_leaves_update() {
    let mut node = BoidsNode::default();
    node.update(PipelineStatus::Ready, PipelineStatus::Queued);
    node.update(PipelineStatus::Ready, PipelineStatus::Ready);
    assert_eq!(node.state(), BoidsState::Update);
    let statuses = [
        PipelineStatus::Queued,
        PipelineStatus::Creating,
        PipelineStatus::Ready,
        PipelineStatus::Failed,
    ];
    for a in statuses {
        for b in statuses {
            assert_eq!(node.update(a, b), None);
            assert_eq!(node.state(), BoidsState::Update);
        }
    }
}

#[test]
fn failed_init_program_stalls_loading() {
    let mut node = BoidsNode::default();
    for _ in 0..3 {
        assert_eq!(
            node.update(PipelineStatus::Failed, PipelineStatus::Ready),
            Some(PipelineKind::Init)
        );
        assert_eq!(node.state(), BoidsState::Loading);
    }
    assert_eq!(node.run().dispatch, None);
}

#[test]
fn failed_update_program_stalls_init() {
    let mut node = BoidsNode::default();
    node.update(PipelineStatus::Ready, PipelineStatus::Failed);
    assert_eq!(node.state(), BoidsState::Init);
    assert_eq!(
        node.update(PipelineStatus::Ready, PipelineStatus::Failed),
        Some(PipelineKind::Update)
    );
    assert_eq!(node.state(), BoidsState::Init);
    assert_eq!(
        node.run().dispatch,
        Some(Dispatch { pipeline: PipelineKind::Init, workgroups: GRID })
    );
}
