//! The render-world systems of the tracer pipeline: state advance, bind group
//! order and the compute dispatch of each frame.
use vstd::prelude::*;

use crate::render::resources::{
    bind_group_textures, read_texture, written_texture, PipelineStatus, TracerState,
};
use crate::{SIZE_X, SIZE_Y, WORKGROUP_SIZE};

verus! {

/// Which of the two compute pipelines a pass runs.
#[derive(PartialEq, Eq, Structural, Clone, Copy, Debug)]
pub enum PipelineKind {
    /// The `init` entry point.
    Init,
    /// The `update` entry point.
    Update,
}

/// One compute dispatch: the pipeline, its bind group and the workgroup grid.
#[derive(PartialEq, Eq, Structural, Clone, Copy, Debug)]
pub struct Dispatch {
    pub pipeline: PipelineKind,
    pub bind_group: usize,
    pub groups_x: u32,
    pub groups_y: u32,
    pub groups_z: u32,
}

/// The state after one `update_render` step, given what the pipeline cache
/// reports for the init and the update pipeline.
pub open spec fn next_render_state(
    s: TracerState,
    init: PipelineStatus,
    update: PipelineStatus,
) -> TracerState {
    match s {
        TracerState::Loading => if init is Ready {
            TracerState::Init
        } else {
            TracerState::Loading
        },
        TracerState::Init => if update is Ready {
            TracerState::Update(1)
        } else {
            TracerState::Init
        },
        TracerState::Update(i) => TracerState::Update((1 - i) as usize),
    }
}

/// A pass over the whole render target with the given pipeline and bind group.
pub open spec fn full_dispatch(pipeline: PipelineKind, group: usize) -> Dispatch {
    Dispatch {
        pipeline,
        bind_group: group,
        groups_x: SIZE_X / WORKGROUP_SIZE,
        groups_y: SIZE_Y / WORKGROUP_SIZE,
        groups_z: 1,
    }
}

/// The dispatch of one frame in state `s`, given whether the update pipeline
/// can be had from the cache.
pub open spec fn planned_dispatch(s: TracerState, update_available: bool) -> Option<Dispatch> {
    match s {
        TracerState::Loading => None,
        TracerState::Init => Some(full_dispatch(PipelineKind::Init, 0)),
        TracerState::Update(i) => if update_available {
            Some(full_dispatch(PipelineKind::Update, i))
        } else {
            None
        },
    }
}

/// Number of workgroups along one axis: the extent divided by the workgroup
/// size, rounded down.
pub fn workgroup_count(extent: u32, workgroup: u32) -> (count: u32)
    requires
        workgroup > 0,
    ensures
        count == extent / workgroup,
{
    extent / workgroup
}

/// Advances the tracer state once a frame.
///
/// Loading moves on to Init once the init pipeline is ready, Init to
/// `Update(1)` once the update pipeline is ready, and the update pass
/// alternates between its two bind groups. A failed init pipeline is fatal to
/// the caller (see [`TracerState::init_failed`]).
pub fn update_render(state: &mut TracerState, init: PipelineStatus, update: PipelineStatus)
    requires
        old(state).wf(),
        !old(state).fails_on(init),
    ensures
        *final(state) == next_render_state(*old(state), init, update),
        final(state).wf(),
{
    match *state {
        TracerState::Loading => {
            if let PipelineStatus::Ready = init {
                *state = TracerState::Init;
            }
        },
        TracerState::Init => {
            if let PipelineStatus::Ready = update {
                *state = TracerState::Update(1);
            }
        },
        TracerState::Update(i) => {
            *state = TracerState::Update(1 - i);
        },
    }
}

/// The compute dispatch of the frame: none while loading, the init pass with
/// bind group 0, or the update pass with the state's bind group when the
/// update pipeline can be had.
pub fn update_graph(state: &TracerState, init_available: bool, update_available: bool) -> (d:
    Option<Dispatch>)
    requires
        state.wf(),
        *state is Init ==> init_available,
    ensures
        d == planned_dispatch(*state, update_available),
{
    let gx = workgroup_count(SIZE_X, WORKGROUP_SIZE);
    let gy = workgroup_count(SIZE_Y, WORKGROUP_SIZE);
    match *state {
        TracerState::Loading => None,
        TracerState::Init => Some(
            Dispatch {
                pipeline: PipelineKind::Init,
                bind_group: 0,
                groups_x: gx,
                groups_y: gy,
                groups_z: 1,
            },
        ),
        TracerState::Update(i) => {
            if update_available {
                Some(
                    Dispatch {
                        pipeline: PipelineKind::Update,
                        bind_group: i,
                        groups_x: gx,
                        groups_y: gy,
                        groups_z: 1,
                    },
                )
            } else {
                None
            }
        },
    }
}

/// The texture pair of each bind group, in bind group order: the render
/// textures are indexed 0 and 1, and each pair is `(read, written)`.
pub fn prepare_bind_group() -> (pairs: Vec<(usize, usize)>)
    ensures
        pairs@.len() == 2,
        forall|g: int|
            0 <= g < 2 ==> #[trigger] pairs@[g] == (
                read_texture(g as usize),
                written_texture(g as usize),
            ),
{
    let mut pairs: Vec<(usize, usize)> = Vec::new();
    let mut g: usize = 0;
    while g < 2
        invariant
            g <= 2,
            pairs@.len() == g,
            forall|k: int|
                0 <= k < g ==> #[trigger] pairs@[k] == (
                    read_texture(k as usize),
                    written_texture(k as usize),
                ),
        decreases 2 - g,
    {
        pairs.push(bind_group_textures(g));
        g = g + 1;
    }
    pairs
}

/// The tracer only moves forward, one phase at a time at most: loading, then
/// initialising, then updating; and a well-formed state stays well-formed.
pub proof fn lemma_render_phase_advances(
    s: TracerState,
    init: PipelineStatus,
    update: PipelineStatus,
)
    requires
        s.wf(),
    ensures
        s.phase() <= next_render_state(s, init, update).phase() <= s.phase() + 1,
        next_render_state(s, init, update).wf(),
{
}

/// Once updating, the tracer alternates between its two bind groups every
/// frame, whatever the pipeline cache reports.
pub proof fn lemma_update_alternates(
    s: TracerState,
    init1: PipelineStatus,
    update1: PipelineStatus,
    init2: PipelineStatus,
    update2: PipelineStatus,
)
    requires
        s.wf(),
        s is Update,
    ensures
        next_render_state(s, init1, update1) != s,
        next_render_state(next_render_state(s, init1, update1), init2, update2) == s,
{
}

/// Ping-pong: when a pass runs and the next frame's state updates, the next
/// pass reads the texture that this pass wrote.
pub proof fn lemma_ping_pong(s: TracerState, init: PipelineStatus, update: PipelineStatus)
    requires
        s.wf(),
        planned_dispatch(s, true) is Some,
        next_render_state(s, init, update) is Update,
    ensures
        planned_dispatch(next_render_state(s, init, update), true) is Some,
        written_texture(planned_dispatch(s, true)->0.bind_group) == read_texture(
            planned_dispatch(next_render_state(s, init, update), true)->0.bind_group,
        ),
{
}

/// Every pass covers the render target exactly: the workgroup grid times the
/// workgroup size is the target's size, in one layer.
pub proof fn lemma_dispatch_covers_target(s: TracerState, update_available: bool)
    requires
        planned_dispatch(s, update_available) is Some,
    ensures
        planned_dispatch(s, update_available)->0.groups_x * WORKGROUP_SIZE == SIZE_X,
        planned_dispatch(s, update_available)->0.groups_y * WORKGROUP_SIZE == SIZE_Y,
        planned_dispatch(s, update_available)->0.groups_z == 1,
{
}

/// The pass uses the bind group that the state selects.
pub proof fn lemma_dispatch_uses_state_group(s: TracerState, update_available: bool)
    requires
        planned_dispatch(s, update_available) is Some,
    ensures
        s.bind_group() == Some(planned_dispatch(s, update_available)->0.bind_group),
{
}

/// The state after `k` frames from `s` in which the pipeline cache reports
/// both pipelines ready.
pub open spec fn state_after_ready_frames(s: TracerState, k: nat) -> TracerState
    decreases k,
{
    if k == 0 {
        s
    } else {
        next_render_state(
            state_after_ready_frames(s, (k - 1) as nat),
            PipelineStatus::Ready,
            PipelineStatus::Ready,
        )
    }
}

/// With both pipelines ready on every frame, a tracer that starts loading is
/// initialising after the first frame and then updates with bind groups 1, 0,
/// 1, ...: after frame `k >= 2` it is `Update((k - 1) % 2)`.
pub proof fn lemma_ready_pipelines_sequence(k: nat)
    requires
        k >= 1,
    ensures
        state_after_ready_frames(TracerState::Loading, k) == (if k == 1 {
            TracerState::Init
        } else {
            TracerState::Update(((k - 1) % 2) as usize)
        }),
    decreases k,
{
    if k > 1 {
        lemma_ready_pipelines_sequence((k - 1) as nat);
        assert(state_after_ready_frames(TracerState::Loading, k) == next_render_state(
            state_after_ready_frames(TracerState::Loading, (k - 1) as nat),
            PipelineStatus::Ready,
            PipelineStatus::Ready,
        ));
        if k > 2 {
            assert(1 - (k - 2) % 2 == (k - 1) % 2);
        }
    } else {
        assert(state_after_ready_frames(TracerState::Loading, 0) == TracerState::Loading);
    }
}

/// Loading ends exactly when the init pipeline is ready, and then in Init;
/// Init ends exactly when the update pipeline is ready, and then in
/// `Update(1)`. Until then the state does not change, whatever else the cache
/// reports (queued, compiling, shader not loaded, failed).
pub proof fn lemma_waits_for_ready_pipelines(init: PipelineStatus, update: PipelineStatus)
    ensures
        next_render_state(TracerState::Loading, init, update) != TracerState::Loading <==> init
            is Ready,
        init is Ready ==> next_render_state(TracerState::Loading, init, update)
            == TracerState::Init,
        !(init is Ready) ==> next_render_state(TracerState::Loading, init, update)
            == TracerState::Loading,
        next_render_state(TracerState::Init, init, update) is Update <==> update is Ready,
        update is Ready ==> next_render_state(TracerState::Init, init, update)
            == TracerState::Update(1),
        !(update is Ready) ==> next_render_state(TracerState::Init, init, update)
            == TracerState::Init,
{
}

/// The pipeline of a planned pass depends on the state alone: the init
/// pipeline with bind group 0 exactly in Init, whether or not the update
/// pipeline is available, and the update pipeline exactly in an update state.
pub proof fn lemma_dispatch_pipeline_follows_state(s: TracerState, update_available: bool)
    ensures
        planned_dispatch(s, update_available) is Some ==> (planned_dispatch(
            s,
            update_available,
        )->0.pipeline is Init <==> s is Init),
        planned_dispatch(s, update_available) is Some ==> (planned_dispatch(
            s,
            update_available,
        )->0.pipeline is Update <==> s is Update),
        s is Init ==> planned_dispatch(s, update_available) is Some && planned_dispatch(
            s,
            update_available,
        )->0.bind_group == 0,
        s is Init ==> planned_dispatch(s, true) == planned_dispatch(s, false),
        s is Loading ==> planned_dispatch(s, update_available) is None,
        s is Update ==> (planned_dispatch(s, update_available) is Some <==> update_available),
{
}

} // verus!
