//! The two compute passes of the simulation: when each may run and how large
//! a grid it covers.
//!
//! Nothing here touches a device. Resources of the graphics backend appear as
//! the handles under which it issued them (see [`bindings`]), and every
//! function returns a plain description of what the backend is to do.

pub mod bindings;
pub mod params;
pub mod plugin;

use vstd::prelude::*;
use crate::compute::bindings::{GameOfLifePipeline, PipelineHandle};

verus! {

/// Width and height of the simulation grid, in cells.
pub const SIZE: (u32, u32) = (1280, 720);

/// Side of the square block of cells that one workgroup covers.
pub const WORKGROUP_SIZE: u32 = 8;

/// The phase of the compute protocol.
#[derive(Clone, Copy, Debug, PartialEq, Eq, Structural)]
pub enum GameOfLifeState {
    /// The program of the first pass is still being compiled; nothing runs.
    Loading,
    /// The pass that fills the grid once.
    Init,
    /// The pass that advances the grid, frame after frame.
    Update,
}

/// One of the two programs of the shader.
#[derive(Clone, Copy, Debug, PartialEq, Eq, Structural)]
pub enum ComputeProgram {
    /// Fills the grid once.
    Init,
    /// Advances the grid by one step.
    Update,
}

/// What the backend's pipeline cache says of a program.
#[derive(Clone, Copy, Debug, PartialEq, Eq, Structural)]
pub enum CompileStatus {
    /// Compilation has not finished.
    Pending,
    /// The program is compiled and may be dispatched.
    Ready,
    /// Compilation failed.
    Failed,
}

impl GameOfLifeState {
    /// The program whose compilation this phase waits for, if any.
    pub open spec fn awaits(self) -> Option<ComputeProgram> {
        match self {
            GameOfLifeState::Loading => Some(ComputeProgram::Init),
            GameOfLifeState::Init => Some(ComputeProgram::Update),
            GameOfLifeState::Update => None,
        }
    }

    /// The phase after a frame in which the awaited program had the given
    /// status: the next phase once it is ready, the same phase until then. The
    /// last phase is never left.
    pub open spec fn next(self, status: CompileStatus) -> GameOfLifeState {
        match (self, status) {
            (GameOfLifeState::Loading, CompileStatus::Ready) => GameOfLifeState::Init,
            (GameOfLifeState::Init, CompileStatus::Ready) => GameOfLifeState::Update,
            _ => self,
        }
    }

    /// The program that a frame in this phase dispatches, if any.
    pub open spec fn dispatches(self) -> Option<ComputeProgram> {
        match self {
            GameOfLifeState::Loading => None,
            GameOfLifeState::Init => Some(ComputeProgram::Init),
            GameOfLifeState::Update => Some(ComputeProgram::Update),
        }
    }

    /// The phase after one frame for each of `statuses`, in turn.
    pub open spec fn after(self, statuses: Seq<CompileStatus>) -> GameOfLifeState
        decreases statuses.len(),
    {
        if statuses.len() == 0 {
            self
        } else {
            self.after(statuses.drop_last()).next(statuses.last())
        }
    }

    /// The place of the phase in the order of the protocol.
    pub open spec fn rank(self) -> nat {
        match self {
            GameOfLifeState::Loading => 0,
            GameOfLifeState::Init => 1,
            GameOfLifeState::Update => 2,
        }
    }
}

/// The number of workgroups along each axis that cover a grid of the given
/// size; one layer deep.
pub open spec fn workgroup_counts(size: (u32, u32), workgroup_size: u32) -> (u32, u32, u32) {
    ((size.0 / workgroup_size) as u32, (size.1 / workgroup_size) as u32, 1u32)
}

/// Counts the workgroups that cover a grid of the given size. Where the size
/// is a multiple of the side of a workgroup along both axes, they cover the
/// grid exactly; where it is not, the cells that are left over are not
/// covered.
pub fn workgroups(size: (u32, u32), workgroup_size: u32) -> (counts: (u32, u32, u32))
    requires
        workgroup_size > 0,
    ensures
        counts == workgroup_counts(size, workgroup_size),
        size.0 % workgroup_size == 0 ==> counts.0 * workgroup_size == size.0,
        size.1 % workgroup_size == 0 ==> counts.1 * workgroup_size == size.1,
{
    proof {
        vstd::arithmetic::div_mod::lemma_fundamental_div_mod(
            size.0 as int,
            workgroup_size as int,
        );
        vstd::arithmetic::div_mod::lemma_fundamental_div_mod(
            size.1 as int,
            workgroup_size as int,
        );
        assert(workgroup_size * (size.0 / workgroup_size) == (size.0 / workgroup_size)
            * workgroup_size) by (nonlinear_arith);
        assert(workgroup_size * (size.1 / workgroup_size) == (size.1 / workgroup_size)
            * workgroup_size) by (nonlinear_arith);
    }
    (size.0 / workgroup_size, size.1 / workgroup_size, 1)
}

/// One dispatch of a program over the whole grid.
#[derive(Clone, Copy, Debug, PartialEq, Eq)]
pub struct Dispatch {
    /// The pipeline to set.
    pub pipeline: PipelineHandle,
    /// The number of workgroups along each axis.
    pub workgroups: (u32, u32, u32),
}

/// What a frame in the phase `state` dispatches.
pub open spec fn dispatch_in(state: GameOfLifeState, pipeline: GameOfLifePipeline) -> Option<
    Dispatch,
> {
    match state.dispatches() {
        None => None,
        Some(program) => Some(
            Dispatch {
                pipeline: pipeline.of(program),
                workgroups: workgroup_counts(SIZE, WORKGROUP_SIZE),
            },
        ),
    }
}

/// The node of the render graph that runs the compute passes.
#[derive(Clone, Copy, Debug, PartialEq, Eq, Structural)]
pub struct GameOfLifeNode {
    pub state: GameOfLifeState,
}

impl Default for GameOfLifeNode {
    /// A node that waits for the first program.
    fn default() -> (node: Self)
        ensures
            node.state == GameOfLifeState::Loading,
    {
        Self { state: GameOfLifeState::Loading }
    }
}

impl GameOfLifeNode {
    /// The pipeline whose status the next call of [`Self::update`] wants: that
    /// of the first program while loading, that of the second during the
    /// first pass, none after that.
    pub fn awaited(&self, pipeline: &GameOfLifePipeline) -> (handle: Option<PipelineHandle>)
        ensures
            self.state.awaits() is None ==> handle is None,
            self.state.awaits() matches Some(program) ==> handle == Some(pipeline.of(program)),
    {
        match self.state {
            GameOfLifeState::Loading => Some(pipeline.init_pipeline),
            GameOfLifeState::Init => Some(pipeline.update_pipeline),
            GameOfLifeState::Update => None,
        }
    }

    /// Takes the step of one frame: moves on to the next phase if the awaited
    /// program is ready. `status` is the status of the pipeline that
    /// [`Self::awaited`] names; in the last phase it is ignored.
    pub fn update(&mut self, status: CompileStatus)
        ensures
            final(self).state == old(self).state.next(status),
    {
        match self.state {
            GameOfLifeState::Loading => {
                if let CompileStatus::Ready = status {
                    self.state = GameOfLifeState::Init;
                }
            },
            GameOfLifeState::Init => {
                if let CompileStatus::Ready = status {
                    self.state = GameOfLifeState::Update;
                }
            },
            GameOfLifeState::Update => {},
        }
    }

    /// Selects the dispatch of this frame: none while loading, else the
    /// program of the phase, once over the whole grid.
    pub fn run(&self, pipeline: &GameOfLifePipeline) -> (dispatch: Option<Dispatch>)
        ensures
            dispatch == dispatch_in(self.state, *pipeline),
    {
        match self.state {
            GameOfLifeState::Loading => None,
            GameOfLifeState::Init => Some(
                Dispatch {
                    pipeline: pipeline.init_pipeline,
                    workgroups: workgroups(SIZE, WORKGROUP_SIZE),
                },
            ),
            GameOfLifeState::Update => Some(
                Dispatch {
                    pipeline: pipeline.update_pipeline,
                    workgroups: workgroups(SIZE, WORKGROUP_SIZE),
                },
            ),
        }
    }
}

/// While the awaited program is not ready the phase stays as it is, however
/// often it is polled.
pub proof fn lemma_waits_until_ready(state: GameOfLifeState, statuses: Seq<CompileStatus>)
    requires
        forall|i: int| 0 <= i < statuses.len() ==> statuses[i] != CompileStatus::Ready,
    ensures
        state.after(statuses) == state,
    decreases statuses.len(),
{
    if statuses.len() > 0 {
        lemma_waits_until_ready(state, statuses.drop_last());
    }
}

/// While loading, nothing is dispatched, and no poll that finds the first
/// program not ready changes that.
pub proof fn lemma_loading_is_idle(statuses: Seq<CompileStatus>)
    requires
        forall|i: int| 0 <= i < statuses.len() ==> statuses[i] != CompileStatus::Ready,
    ensures
        GameOfLifeState::Loading.after(statuses) == GameOfLifeState::Loading,
        GameOfLifeState::Loading.after(statuses).dispatches() is None,
{
    lemma_waits_until_ready(GameOfLifeState::Loading, statuses);
}

/// The poll that finds the first program ready ends the loading, and the same
/// frame dispatches the first program.
pub proof fn lemma_ready_starts_init()
    ensures
        GameOfLifeState::Loading.next(CompileStatus::Ready) == GameOfLifeState::Init,
        GameOfLifeState::Init.dispatches() == Some(ComputeProgram::Init),
{
}

/// The poll that finds the second program ready ends the first pass.
pub proof fn lemma_ready_starts_update()
    ensures
        GameOfLifeState::Init.next(CompileStatus::Ready) == GameOfLifeState::Update,
{
}

/// The last phase is never left: whatever the polls find, it stays, and every
/// frame dispatches the second program.
pub proof fn lemma_update_is_final(statuses: Seq<CompileStatus>)
    ensures
        GameOfLifeState::Update.after(statuses) == GameOfLifeState::Update,
        GameOfLifeState::Update.after(statuses).dispatches() == Some(ComputeProgram::Update),
    decreases statuses.len(),
{
    if statuses.len() > 0 {
        lemma_update_is_final(statuses.drop_last());
    }
}

/// Polling in two runs is polling once with the two runs joined.
pub proof fn lemma_after_joined(
    state: GameOfLifeState,
    first: Seq<CompileStatus>,
    second: Seq<CompileStatus>,
)
    ensures
        state.after(first + second) == state.after(first).after(second),
    decreases second.len(),
{
    if second.len() == 0 {
        assert(first + second =~= first);
    } else {
        lemma_after_joined(state, first, second.drop_last());
        assert((first + second).drop_last() =~= first + second.drop_last());
    }
}

/// The whole course: after any wait for the first program, the poll that
/// finds it ready, any wait for the second, and the poll that finds that one
/// ready, the last phase is reached and kept whatever follows.
pub proof fn lemma_course(
    first_wait: Seq<CompileStatus>,
    second_wait: Seq<CompileStatus>,
    rest: Seq<CompileStatus>,
)
    requires
        forall|i: int| 0 <= i < first_wait.len() ==> first_wait[i] != CompileStatus::Ready,
        forall|i: int| 0 <= i < second_wait.len() ==> second_wait[i] != CompileStatus::Ready,
    ensures
        GameOfLifeState::Loading.after(
            first_wait + seq![CompileStatus::Ready] + second_wait + seq![CompileStatus::Ready]
                + rest,
        ) == GameOfLifeState::Update,
{
    let ready = seq![CompileStatus::Ready];
    let loading = GameOfLifeState::Loading;
    lemma_after_joined(loading, first_wait + ready + second_wait + ready, rest);
    lemma_after_joined(loading, first_wait + ready + second_wait, ready);
    lemma_after_joined(loading, first_wait + ready, second_wait);
    lemma_after_joined(loading, first_wait, ready);
    lemma_waits_until_ready(loading, first_wait);
    assert(ready.drop_last() =~= Seq::<CompileStatus>::empty());
    assert(loading.after(ready.drop_last()) == loading);
    assert(loading.after(ready) == GameOfLifeState::Init);
    lemma_waits_until_ready(GameOfLifeState::Init, second_wait);
    assert(GameOfLifeState::Init.after(ready.drop_last()) == GameOfLifeState::Init);
    assert(GameOfLifeState::Init.after(ready) == GameOfLifeState::Update);
    lemma_update_is_final(rest);
}

/// A frame never goes back in the order of the phases, and never skips one.
pub proof fn lemma_one_phase_at_a_time(state: GameOfLifeState, status: CompileStatus)
    ensures
        state.rank() <= state.next(status).rank() <= state.rank() + 1,
{
}

} // verus!
