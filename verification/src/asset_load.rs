//! The asset loading state machine of the app: Pending, Loading, Init, Ready.
use vstd::prelude::*;

verus! {

/// Where the app is in loading its assets.
#[derive(PartialEq, Eq, Structural, Clone, Copy, Debug, Hash)]
pub enum AssetLoad {
    /// Nothing requested yet.
    Pending,
    /// The skybox is being loaded.
    Loading,
    /// The skybox is loaded; the frame prepares it.
    Init,
    /// Everything is initialised.
    Ready,
}

impl AssetLoad {
    /// Position of the state in the loading order.
    pub open spec fn rank(self) -> nat {
        match self {
            AssetLoad::Pending => 0,
            AssetLoad::Loading => 1,
            AssetLoad::Init => 2,
            AssetLoad::Ready => 3,
        }
    }

    /// The state that this frame's systems ask for while in `self`: startup
    /// starts loading, the load check asks for Init once the skybox is loaded,
    /// initialisation ends in Ready; otherwise nothing is asked.
    pub open spec fn requested(self, skybox_loaded: bool) -> Option<AssetLoad> {
        match self {
            AssetLoad::Pending => Some(AssetLoad::Loading),
            AssetLoad::Loading => if skybox_loaded {
                Some(AssetLoad::Init)
            } else {
                None
            },
            AssetLoad::Init => Some(AssetLoad::Ready),
            AssetLoad::Ready => None,
        }
    }

    /// The state in the next frame: the requested one, or `self`.
    pub open spec fn after_frame(self, skybox_loaded: bool) -> AssetLoad {
        match self.requested(skybox_loaded) {
            Some(next) => next,
            None => self,
        }
    }

    /// What the systems that run in state `self` request; see
    /// [`AssetLoad::requested`].
    pub fn next_requested(&self, skybox_loaded: bool) -> (r: Option<AssetLoad>)
        ensures
            r == self.requested(skybox_loaded),
    {
        match self {
            AssetLoad::Pending => Some(setup_load_state()),
            AssetLoad::Loading => asset_load_check(skybox_loaded),
            AssetLoad::Init => Some(asset_init()),
            AssetLoad::Ready => None,
        }
    }
}

impl Default for AssetLoad {
    fn default() -> (s: Self)
        ensures
            s == AssetLoad::Pending,
    {
        AssetLoad::Pending
    }
}

/// The state that startup requests once it has queued the skybox load.
pub fn setup_load_state() -> (s: AssetLoad)
    ensures
        s == AssetLoad::Loading,
{
    AssetLoad::Loading
}

/// The state that the load check requests: Init once the skybox is loaded,
/// nothing before.
pub fn asset_load_check(skybox_loaded: bool) -> (r: Option<AssetLoad>)
    ensures
        r == (if skybox_loaded {
            Some(AssetLoad::Init)
        } else {
            None::<AssetLoad>
        }),
{
    if skybox_loaded {
        Some(AssetLoad::Init)
    } else {
        None
    }
}

/// The state that initialisation requests when it is done.
pub fn asset_init() -> (s: AssetLoad)
    ensures
        s == AssetLoad::Ready,
{
    AssetLoad::Ready
}

/// Loading only moves forward, one state per frame, and stays in Ready.
pub proof fn lemma_load_order(s: AssetLoad, skybox_loaded: bool)
    ensures
        s.requested(skybox_loaded) matches Some(n) ==> n.rank() == s.rank() + 1,
        s.rank() <= s.after_frame(skybox_loaded).rank() <= s.rank() + 1,
        s is Ready ==> s.after_frame(skybox_loaded) == s,
        s is Loading && !skybox_loaded ==> s.after_frame(skybox_loaded) == s,
{
}

/// Once the skybox is loaded, any state is Ready within three frames.
pub proof fn lemma_ready_within_three_frames(s: AssetLoad)
    ensures
        s.after_frame(true).after_frame(true).after_frame(true) == AssetLoad::Ready,
{
}

} // verus!
