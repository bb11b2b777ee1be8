use vstd::prelude::*;

use crate::grid::{ceil_div, dispatch_grid, WorkgroupGrid, IMAGE_SIZE, WORKGROUP_SIZE};

verus! {

/// Bind-group slot of the uniform parameter block.
pub const UNIFORM_GROUP_SLOT: u32 = 0;

/// Bind-group slot of the position and velocity textures.
pub const TEXTURE_GROUP_SLOT: u32 = 1;

/// Where the compute node stands in loading its two programs.
#[derive(Clone, Copy, Debug, PartialEq, Eq, Structural)]
pub enum BoidsState {
    /// The seeding program is not ready yet: nothing is dispatched.
    Loading,
    /// The seeding program is ready and runs until the stepping one is.
    Init,
    /// The stepping program is ready; this state is never left.
    Update,
}

/// What the backend reports of one compiled compute program.
#[derive(Clone, Copy, Debug, PartialEq, Eq, Structural)]
pub enum PipelineStatus {
    Queued,
    Creating,
    Ready,
    Failed,
}

/// The two compute programs, both built from one shader source.
#[derive(Clone, Copy, Debug, PartialEq, Eq, Structural)]
pub enum PipelineKind {
    /// Seeds positions and velocities.
    Init,
    /// Advances the flock by one step.
    Update,
}

/// Order of the states: the node only ever moves up it.
pub open spec fn rank(s: BoidsState) -> nat {
    match s {
        BoidsState::Loading => 0,
        BoidsState::Init => 1,
        BoidsState::Update => 2,
    }
}

/// The state after one frame's check of the two programs.
pub open spec fn next_state(
    s: BoidsState,
    init_status: PipelineStatus,
    update_status: PipelineStatus,
) -> BoidsState {
    match s {
        BoidsState::Loading => if init_status == PipelineStatus::Ready {
            BoidsState::Init
        } else {
            s
        },
        BoidsState::Init => if update_status == PipelineStatus::Ready {
            BoidsState::Update
        } else {
            s
        },
        BoidsState::Update => s,
    }
}

/// The program whose failed compilation holds the node in state `s`, if any.
pub open spec fn stalled_by(
    s: BoidsState,
    init_status: PipelineStatus,
    update_status: PipelineStatus,
) -> Option<PipelineKind> {
    match s {
        BoidsState::Loading => if init_status == PipelineStatus::Failed {
            Some(PipelineKind::Init)
        } else {
            None
        },
        BoidsState::Init => if update_status == PipelineStatus::Failed {
            Some(PipelineKind::Update)
        } else {
            None
        },
        BoidsState::Update => None,
    }
}

/// The program that runs in state `s`.
pub open spec fn program_of(s: BoidsState) -> Option<PipelineKind> {
    match s {
        BoidsState::Loading => None,
        BoidsState::Init => Some(PipelineKind::Init),
        BoidsState::Update => Some(PipelineKind::Update),
    }
}

/// The state reached from `s` after one check per entry of `frames`, each
/// entry holding the statuses of the seeding and the stepping program.
pub open spec fn state_after(
    s: BoidsState,
    frames: Seq<(PipelineStatus, PipelineStatus)>,
) -> BoidsState
    decreases frames.len(),
{
    if frames.len() == 0 {
        s
    } else {
        let last = frames.last();
        next_state(state_after(s, frames.drop_last()), last.0, last.1)
    }
}

/// One dispatch of a compute program.
#[derive(Clone, Copy, Debug, PartialEq, Eq, Structural)]
pub struct Dispatch {
    pub pipeline: PipelineKind,
    pub workgroups: WorkgroupGrid,
}

/// The compute pass of one frame: both bind groups attached, then at most
/// one dispatch.
#[derive(Clone, Copy, Debug, PartialEq, Eq, Structural)]
pub struct ComputePassPlan {
    pub uniform_group_slot: u32,
    pub texture_group_slot: u32,
    pub dispatch: Option<Dispatch>,
}

/// The compute pass for state `s`.
pub open spec fn pass_for(s: BoidsState) -> ComputePassPlan {
    let n = ceil_div(IMAGE_SIZE as int, WORKGROUP_SIZE as int) as u32;
    ComputePassPlan {
        uniform_group_slot: UNIFORM_GROUP_SLOT,
        texture_group_slot: TEXTURE_GROUP_SLOT,
        dispatch: match program_of(s) {
            None => None,
            Some(p) => Some(Dispatch { pipeline: p, workgroups: WorkgroupGrid { x: n, y: n, z: 1 } }),
        },
    }
}

/// The render-graph node that drives the simulation.
pub struct BoidsNode {
    state: BoidsState,
}

impl Default for BoidsNode {
    fn default() -> (r: Self)
        ensures
            r.view_state() == BoidsState::Loading,
    {
        BoidsNode { state: BoidsState::Loading }
    }
}

impl BoidsNode {
    pub closed spec fn view_state(&self) -> BoidsState {
        self.state
    }

    /// The current state.
    pub fn state(&self) -> (r: BoidsState)
        ensures
            r == self.view_state(),
    {
        self.state
    }

    /// Once per frame, before dispatch: advance when the program that the
    /// current state waits for is ready. Returns the program whose failed
    /// compilation keeps the node where it is, for the operator to be told.
    pub fn update(
        &mut self,
        init_status: PipelineStatus,
        update_status: PipelineStatus,
    ) -> (stalled: Option<PipelineKind>)
        ensures
            final(self).view_state() == next_state(old(self).view_state(), init_status, update_status),
            stalled == stalled_by(old(self).view_state(), init_status, update_status),
    {
        match self.state {
            BoidsState::Loading => {
                if init_status == PipelineStatus::Ready {
                    self.state = BoidsState::Init;
                    None
                } else if init_status == PipelineStatus::Failed {
                    Some(PipelineKind::Init)
                } else {
                    None
                }
            },
            BoidsState::Init => {
                if update_status == PipelineStatus::Ready {
                    self.state = BoidsState::Update;
                    None
                } else if update_status == PipelineStatus::Failed {
                    Some(PipelineKind::Update)
                } else {
                    None
                }
            },
            BoidsState::Update => None,
        }
    }

    /// The compute pass to record this frame: uniform group at its slot,
    /// texture group at its slot, and the program of the current state over
    /// the grid that covers the textures (none while loading).
    pub fn run(&self) -> (r: ComputePassPlan)
        ensures
            r == pass_for(self.view_state()),
    {
        let grid = dispatch_grid();
        let dispatch = match self.state {
            BoidsState::Loading => None,
            BoidsState::Init => Some(Dispatch { pipeline: PipelineKind::Init, workgroups: grid }),
            BoidsState::Update => Some(
                Dispatch { pipeline: PipelineKind::Update, workgroups: grid },
            ),
        };
        ComputePassPlan {
            uniform_group_slot: UNIFORM_GROUP_SLOT,
            texture_group_slot: TEXTURE_GROUP_SLOT,
            dispatch,
        }
    }
}

/// One check never moves the node down the order of states, and once in
/// `Update` it stays there.
pub proof fn lemma_state_never_regresses(
    s: BoidsState,
    init_status: PipelineStatus,
    update_status: PipelineStatus,
)
    ensures
        rank(next_state(s, init_status, update_status)) >= rank(s),
        s == BoidsState::Update ==> next_state(s, init_status, update_status) == BoidsState::Update,
{
}

/// Over any run of frames, a later state is never below an earlier one, and
/// a node that has reached `Update` is in `Update` at every later frame.
pub proof fn lemma_run_never_regresses(
    s: BoidsState,
    frames: Seq<(PipelineStatus, PipelineStatus)>,
    i: int,
    j: int,
)
    requires
        0 <= i <= j <= frames.len(),
    ensures
        rank(state_after(s, frames.take(i))) <= rank(state_after(s, frames.take(j))),
        state_after(s, frames.take(i)) == BoidsState::Update ==> state_after(s, frames.take(j))
            == BoidsState::Update,
    decreases j - i,
{
    if i < j {
        lemma_run_never_regresses(s, frames, i, j - 1);
        let prefix = frames.take(j);
        assert(prefix.drop_last() =~= frames.take(j - 1));
        let last = prefix.last();
        lemma_state_never_regresses(state_after(s, frames.take(j - 1)), last.0, last.1);
    }
}

} // verus!
