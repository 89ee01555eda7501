//! The tracer as a render-graph node: it owns its state, advances it each
//! frame and plans the compute pass it records.
use vstd::prelude::*;

use crate::render::pipeline::{next_render_state, planned_dispatch, update_graph, Dispatch};
use crate::render::resources::{PipelineStatus, TracerState};

verus! {

/// The state a node moves to after one `update`: like the render system,
/// except that loading also waits for the skybox texture.
pub open spec fn next_node_state(
    s: TracerState,
    init: PipelineStatus,
    update: PipelineStatus,
    skybox_loaded: bool,
) -> TracerState {
    match s {
        TracerState::Loading => if skybox_loaded && init is Ready {
            TracerState::Init
        } else {
            TracerState::Loading
        },
        TracerState::Init => if update is Ready {
            TracerState::Update(1)
        } else {
            TracerState::Init
        },
        TracerState::Update(i) => TracerState::Update((1 - i) as usize),
    }
}

/// A render-graph node that drives the tracer's compute passes.
pub struct TracerNode {
    state: TracerState,
}

impl TracerNode {
    #[verifier::type_invariant]
    spec fn state_wf(self) -> bool {
        self.state.wf()
    }

    /// The node's current state.
    pub closed spec fn current(self) -> TracerState {
        self.state
    }

    /// The node's current state.
    pub fn state(&self) -> (s: TracerState)
        ensures
            s == self.current(),
            s.wf(),
    {
        proof {
            use_type_invariant(self);
        }
        self.state
    }

    /// Advances the node once a frame. Loading moves on once the init
    /// pipeline is ready and the skybox is loaded; Init moves to `Update(1)`
    /// once the update pipeline is ready; the update pass alternates its bind
    /// group. A failed init pipeline is fatal to the caller.
    pub fn update(
        &mut self,
        init: PipelineStatus,
        update: PipelineStatus,
        skybox_loaded: bool,
    )
        requires
            !old(self).current().fails_on(init),
        ensures
            final(self).current() == next_node_state(
                old(self).current(),
                init,
                update,
                skybox_loaded,
            ),
    {
        proof {
            use_type_invariant(&*self);
        }
        match self.state {
            TracerState::Loading => {
                let shader_loaded = match init {
                    PipelineStatus::Ready => true,
                    _ => false,
                };
                if skybox_loaded && shader_loaded {
                    self.state = TracerState::Init;
                }
            },
            TracerState::Init => {
                if let PipelineStatus::Ready = update {
                    self.state = TracerState::Update(1);
                }
            },
            TracerState::Update(i) => {
                self.state = TracerState::Update(1 - i);
            },
        }
    }

    /// The compute pass the node records this frame.
    pub fn run(&self, init_available: bool, update_available: bool) -> (d: Option<Dispatch>)
        requires
            self.current() is Init ==> init_available,
        ensures
            d == planned_dispatch(self.current(), update_available),
    {
        proof {
            use_type_invariant(self);
        }
        update_graph(&self.state, init_available, update_available)
    }
}

impl Default for TracerNode {
    fn default() -> (n: Self)
        ensures
            n.current() == TracerState::Loading,
    {
        TracerNode { state: TracerState::Loading }
    }
}

/// The node advances as the render system does, except that it keeps
/// loading until the skybox is loaded.
pub proof fn lemma_node_follows_render(
    s: TracerState,
    init: PipelineStatus,
    update: PipelineStatus,
    skybox_loaded: bool,
)
    ensures
        skybox_loaded ==> next_node_state(s, init, update, skybox_loaded) == next_render_state(
            s,
            init,
            update,
        ),
        !skybox_loaded && s is Loading ==> next_node_state(s, init, update, skybox_loaded)
            == s,
        !(s is Loading) ==> next_node_state(s, init, update, skybox_loaded) == next_render_state(
            s,
            init,
            update,
        ),
{
}

/// The node leaves Loading exactly when the init pipeline is ready and the
/// skybox is loaded, and leaves Init exactly when the update pipeline is
/// ready; otherwise it keeps its state.
pub proof fn lemma_node_waits_for_ready(
    init: PipelineStatus,
    update: PipelineStatus,
    skybox_loaded: bool,
)
    ensures
        next_node_state(TracerState::Loading, init, update, skybox_loaded) != TracerState::Loading
            <==> (init is Ready && skybox_loaded),
        init is Ready && skybox_loaded ==> next_node_state(
            TracerState::Loading,
            init,
            update,
            skybox_loaded,
        ) == TracerState::Init,
        next_node_state(TracerState::Init, init, update, skybox_loaded) is Update <==> update
            is Ready,
        update is Ready ==> next_node_state(TracerState::Init, init, update, skybox_loaded)
            == TracerState::Update(1),
        !(update is Ready) ==> next_node_state(TracerState::Init, init, update, skybox_loaded)
            == TracerState::Init,
{
}

} // verus!
