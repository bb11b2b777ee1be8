//! The CPU-side core of a GPU boids simulation.
//!
//! The simulation state lives in two square textures (positions and
//! velocities), advanced each frame by a compute program. This crate holds
//! the decisions around that program: how boids map to texels, how large the
//! dispatch grid is, when the compute pipelines may run, when bind groups are
//! rebuilt, and how the tunable parameters reach the uniform block.
pub mod bind_groups;
pub mod config;
pub mod frame;
pub mod grid;
pub mod node;

pub use bind_groups::{
    prepare_textures_bind_group, prepare_uniforms_bind_group, Assembly, BindGroupCache,
};
pub use config::{clamp_boids_count, is_boid_visible, BoidsConfig, BoidsUniform};
pub use frame::{BoidsCompute, FrameInputs, FramePlan};
pub use grid::{
    dispatch_grid, texel_coords, texel_index, texture_capacity, workgroup_count, WorkgroupGrid,
    IMAGE_SIZE, WORKGROUP_SIZE,
};
pub use node::{
    BoidsNode, BoidsState, ComputePassPlan, Dispatch, PipelineKind, PipelineStatus,
    TEXTURE_GROUP_SLOT, UNIFORM_GROUP_SLOT,
};
