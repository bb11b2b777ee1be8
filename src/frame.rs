use vstd::prelude::*;

use crate::bind_groups::{
    assembled, assembly_kind, prepare_textures_bind_group, prepare_uniforms_bind_group, Assembly,
    BindGroupCache,
};
use crate::config::{uniform_of, BoidsConfig, BoidsUniform};
use crate::node::{
    next_state, pass_for, stalled_by, BoidsNode, ComputePassPlan, PipelineKind, PipelineStatus,
};

verus! {

/// What the backend reports at the start of a frame: the identities of the
/// resources once resolved, and the status of each compute program.
#[derive(Clone, Copy, Debug, PartialEq, Eq, Structural)]
pub struct FrameInputs {
    pub uniform_buffer: Option<u32>,
    pub position_view: Option<u32>,
    pub velocity_view: Option<u32>,
    pub init_status: PipelineStatus,
    pub update_status: PipelineStatus,
}

/// What one frame asks of the backend, in order: push the uniform block,
/// create the bind groups that were assembled anew, report a stalled
/// program, then record the compute pass (none until both groups exist).
#[derive(Clone, Copy, Debug, PartialEq, Eq, Structural)]
pub struct FramePlan {
    pub uniform: BoidsUniform,
    pub uniform_group: Assembly,
    pub texture_group: Assembly,
    pub stalled: Option<PipelineKind>,
    pub pass: Option<ComputePassPlan>,
}

/// Everything the compute side keeps from one frame to the next.
pub struct BoidsCompute {
    pub uniform: BoidsUniform,
    pub uniform_group: BindGroupCache,
    pub texture_group: BindGroupCache,
    pub node: BoidsNode,
}

impl BoidsCompute {
    /// The state at start-up: default uniform block, no bind groups, node
    /// loading.
    pub fn new() -> (r: Self)
        ensures
            r.uniform == crate::config::default_uniform(),
            r.uniform_group@ is None,
            r.texture_group@ is None,
            r.node.view_state() == crate::node::BoidsState::Loading,
    {
        BoidsCompute {
            uniform: BoidsUniform::default(),
            uniform_group: BindGroupCache::new(),
            texture_group: BindGroupCache::new(),
            node: BoidsNode::default(),
        }
    }

    /// One frame: write the configuration into the uniform block, assemble
    /// the uniform and texture groups, advance the node, and plan the pass
    /// for the node's new state when both groups exist.
    pub fn frame(&mut self, config: &BoidsConfig, inputs: FrameInputs) -> (r: FramePlan)
        ensures
            final(self).uniform == uniform_of(*config),
            r.uniform == uniform_of(*config),
            r.uniform_group == assembly_kind(old(self).uniform_group@, seq![inputs.uniform_buffer]),
            final(self).uniform_group@ == assembled(
                old(self).uniform_group@,
                seq![inputs.uniform_buffer],
            ),
            r.texture_group == assembly_kind(
                old(self).texture_group@,
                seq![inputs.position_view, inputs.velocity_view],
            ),
            final(self).texture_group@ == assembled(
                old(self).texture_group@,
                seq![inputs.position_view, inputs.velocity_view],
            ),
            final(self).node.view_state() == next_state(
                old(self).node.view_state(),
                inputs.init_status,
                inputs.update_status,
            ),
            r.stalled == stalled_by(
                old(self).node.view_state(),
                inputs.init_status,
                inputs.update_status,
            ),
            r.pass == (if final(self).uniform_group@ is Some && final(self).texture_group@ is Some {
                Some(pass_for(final(self).node.view_state()))
            } else {
                None
            }),
    {
        self.uniform.write_config(config);
        let uniform_group = prepare_uniforms_bind_group(&mut self.uniform_group, inputs.uniform_buffer);
        let texture_group = prepare_textures_bind_group(
            &mut self.texture_group,
            inputs.position_view,
            inputs.velocity_view,
        );
        let stalled = self.node.update(inputs.init_status, inputs.update_status);
        let pass = if self.uniform_group.is_bound() && self.texture_group.is_bound() {
            Some(self.node.run())
        } else {
            None
        };
        FramePlan { uniform: self.uniform, uniform_group, texture_group, stalled, pass }
    }
}

} // verus!
