//! The tracer's render-world state and what the pipeline cache reports.
use vstd::prelude::*;

verus! {

/// What the pipeline cache reports about one queued compute pipeline.
#[derive(PartialEq, Eq, Structural, Clone, Copy, Debug)]
pub enum PipelineStatus {
    /// Queued, not yet picked up for compilation.
    Queued,
    /// Being compiled.
    Creating,
    /// Compiled and usable.
    Ready,
    /// Its shader has not been loaded yet; the cache retries later.
    ShaderNotLoaded,
    /// Compilation failed for good.
    Failed,
}

/// Progress of the tracer's compute pipelines.
///
/// `Update(i)` runs the update pass with bind group `i`; only `0` and `1`
/// exist, see [`TracerState::wf`].
#[derive(PartialEq, Eq, Structural, Clone, Copy, Debug)]
pub enum TracerState {
    /// Waiting for the init pipeline (and its assets).
    Loading,
    /// The init pass runs until the update pipeline is ready.
    Init,
    /// The update pass runs with the given bind group.
    Update(usize),
}

impl TracerState {
    /// Only the two ping-pong bind groups are ever selected.
    pub open spec fn wf(self) -> bool {
        self matches TracerState::Update(i) ==> i < 2
    }

    /// How far the tracer has come: loading, initialising, updating.
    pub open spec fn phase(self) -> nat {
        match self {
            TracerState::Loading => 0,
            TracerState::Init => 1,
            TracerState::Update(_) => 2,
        }
    }

    /// The bind group that the pass of this state uses, if a pass runs.
    pub open spec fn bind_group(self) -> Option<usize> {
        match self {
            TracerState::Loading => None,
            TracerState::Init => Some(0usize),
            TracerState::Update(i) => Some(i),
        }
    }

    /// Whether the init pipeline's status is one on which the tracer gives up.
    pub open spec fn fails_on(self, init: PipelineStatus) -> bool {
        self is Loading && init is Failed
    }

    /// Tests [`TracerState::fails_on`]: the state is still loading and the
    /// init pipeline failed to compile.
    pub fn init_failed(&self, init: &PipelineStatus) -> (r: bool)
        ensures
            r == self.fails_on(*init),
    {
        match (self, init) {
            (TracerState::Loading, PipelineStatus::Failed) => true,
            _ => false,
        }
    }
}

impl Default for TracerState {
    fn default() -> (s: Self)
        ensures
            s == TracerState::Loading,
    {
        TracerState::Loading
    }
}

/// Index of the texture that a bind group reads.
pub open spec fn read_texture(group: usize) -> usize {
    group
}

/// Index of the texture that a bind group writes.
pub open spec fn written_texture(group: usize) -> usize {
    (1 - group) as usize
}

/// The two textures of bind group `group`, as `(read, written)`: group 0 reads
/// the first render texture and writes the second, group 1 the other way round.
pub fn bind_group_textures(group: usize) -> (r: (usize, usize))
    requires
        group < 2,
    ensures
        r == (read_texture(group), written_texture(group)),
{
    (group, 1 - group)
}

/// Only a failed compilation of the init pipeline, while loading, is fatal:
/// a queued, compiling, shader-waiting or ready pipeline never is, and
/// nothing is fatal once the tracer has left Loading.
pub proof fn lemma_only_failure_is_fatal(s: TracerState, init: PipelineStatus)
    ensures
        s.fails_on(init) <==> (s is Loading && init is Failed),
        s.fails_on(init) ==> init is Failed,
        init is Queued || init is Creating || init is ShaderNotLoaded || init is Ready
            ==> !s.fails_on(init),
        !(s is Loading) ==> !s.fails_on(init),
{
}

} // verus!
