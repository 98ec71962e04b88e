//! The preview pane: its shared state, the per-row cache, the resolution of a
//! hover or focus into a cache read or a fetch, and what the pane shows.

use std::rc::Rc;
use vstd::prelude::*;
use crate::model::{FetchError, StoryPageData};

verus! {

/// The state of the preview pane.
#[derive(Clone, Debug)]
pub enum PreviewState {
    /// Nothing has been selected yet.
    Unset,
    /// A fetch is in flight.
    Loading,
    /// A full item is ready to show.
    Loaded(Rc<StoryPageData>),
}

/// What a `PreviewState` holds, with the shared item as a plain value.
pub enum PreviewModel {
    Unset,
    Loading,
    Loaded(StoryPageData),
}

impl View for PreviewState {
    type V = PreviewModel;

    open spec fn view(&self) -> PreviewModel {
        match self {
            PreviewState::Unset => PreviewModel::Unset,
            PreviewState::Loading => PreviewModel::Loading,
            PreviewState::Loaded(p) => PreviewModel::Loaded(**p),
        }
    }
}

/// Relies on `Rc::clone`: the new pointer refers to the same value.
#[verifier::external_body]
fn share(p: &Rc<StoryPageData>) -> (r: Rc<StoryPageData>)
    ensures
        r == *p,
{
    Rc::clone(p)
}

/// The memo of one list row: empty at first, filled by the first fetch that succeeds.
pub struct CacheCell {
    slot: Option<Rc<StoryPageData>>,
}

impl View for CacheCell {
    type V = Option<StoryPageData>;

    closed spec fn view(&self) -> Option<StoryPageData> {
        match self.slot {
            Some(p) => Some(*p),
            None => None,
        }
    }
}

impl CacheCell {
    pub fn new() -> (r: CacheCell)
        ensures
            r@ is None,
    {
        CacheCell { slot: None }
    }

    /// Whether a fetched item is held.
    pub fn is_filled(&self) -> (r: bool)
        ensures
            r == self@ is Some,
    {
        self.slot.is_some()
    }
}

/// The single holder of the preview state, shared by the list rows and the preview pane.
pub struct PreviewStore {
    state: PreviewState,
}

impl View for PreviewStore {
    type V = PreviewModel;

    closed spec fn view(&self) -> PreviewModel {
        self.state@
    }
}

impl PreviewStore {
    pub fn new() -> (r: PreviewStore)
        ensures
            r@ == PreviewModel::Unset,
    {
        PreviewStore { state: PreviewState::Unset }
    }

    /// The state as it stands.
    pub fn current(&self) -> (r: &PreviewState)
        ensures
            r@ == self@,
    {
        &self.state
    }
}

/// What the caller of `resolve_story` has left to do.
#[derive(Clone, Copy, Debug, PartialEq, Eq, Structural)]
pub enum Resolution {
    /// The cached item is shown; nothing to fetch.
    Shown,
    /// Fetch the full item of this id and hand the outcome to `settle_story`.
    Fetch(i64),
}

/// The preview state and the action after a trigger on a row whose cache holds `cached`.
pub open spec fn resolve_step(cached: Option<StoryPageData>, story_id: i64) -> (
    PreviewModel,
    Resolution,
) {
    match cached {
        Some(v) => (PreviewModel::Loaded(v), Resolution::Shown),
        None => (PreviewModel::Loading, Resolution::Fetch(story_id)),
    }
}

/// The cache and the preview state after a fetch of the row settles with `outcome`.
/// A failure leaves both as they were; the cache keeps the first item written to it.
pub open spec fn settle_step(
    cached: Option<StoryPageData>,
    shown: PreviewModel,
    outcome: Result<StoryPageData, FetchError>,
) -> (Option<StoryPageData>, PreviewModel) {
    match outcome {
        Ok(v) => (
            if cached is Some {
                cached
            } else {
                Some(v)
            },
            PreviewModel::Loaded(v),
        ),
        Err(_) => (cached, shown),
    }
}

/// Reacts to a hover or focus on a row: shows the cached item at once, or shows
/// `Loading` and asks for a fetch.
pub fn resolve_story(cache: &CacheCell, store: &mut PreviewStore, story_id: i64) -> (r:
    Resolution)
    ensures
        (final(store)@, r) == resolve_step(cache@, story_id),
{
    match &cache.slot {
        Some(p) => {
            store.state = PreviewState::Loaded(share(p));
            Resolution::Shown
        },
        None => {
            store.state = PreviewState::Loading;
            Resolution::Fetch(story_id)
        },
    }
}

/// Takes the outcome of a fetch that `resolve_story` asked for.
pub fn settle_story(
    cache: &mut CacheCell,
    store: &mut PreviewStore,
    outcome: Result<StoryPageData, FetchError>,
)
    ensures
        (final(cache)@, final(store)@) == settle_step(old(cache)@, old(store)@, outcome),
{
    match outcome {
        Ok(story) => {
            let p = Rc::new(story);
            store.state = PreviewState::Loaded(share(&p));
            if cache.slot.is_none() {
                cache.slot = Some(p);
            }
        },
        Err(_) => {},
    }
}

/// Once a fetch of a row has succeeded, a later trigger on that row shows the cached
/// item at once and fetches nothing; after a first miss it is the fetched item.
pub proof fn lemma_settled_fetch_is_reused(
    cached: Option<StoryPageData>,
    shown: PreviewModel,
    v: StoryPageData,
    story_id: i64,
)
    ensures
        ({
            let c = settle_step(cached, shown, Ok(v)).0;
            &&& c is Some
            &&& resolve_step(c, story_id) == (PreviewModel::Loaded(c->Some_0), Resolution::Shown)
        }),
        resolve_step(None, story_id) == (PreviewModel::Loading, Resolution::Fetch(story_id)),
        resolve_step(settle_step(None, shown, Ok(v)).0, story_id) == (
        PreviewModel::Loaded(v),
        Resolution::Shown,
        ),
{
}

/// Fetch A is triggered, then fetch B; B settles first, then A: the pane ends on A's item.
pub proof fn lemma_last_settled_wins(
    id_a: i64,
    id_b: i64,
    before: PreviewModel,
    a: StoryPageData,
    b: StoryPageData,
)
    ensures
        ({
            let (s1, ra) = resolve_step(None, id_a);
            let (s2, rb) = resolve_step(None, id_b);
            let (cb, s3) = settle_step(None, s2, Ok(b));
            let (ca, s4) = settle_step(None, s3, Ok(a));
            &&& ra == Resolution::Fetch(id_a)
            &&& rb == Resolution::Fetch(id_b)
            &&& s3 == PreviewModel::Loaded(b)
            &&& s4 == PreviewModel::Loaded(a)
            &&& cb == Some(b)
            &&& ca == Some(a)
        }),
{
}

/// A filled cache is never written again.
pub proof fn lemma_cache_written_once(
    cached: Option<StoryPageData>,
    shown: PreviewModel,
    outcome: Result<StoryPageData, FetchError>,
)
    requires
        cached is Some,
    ensures
        settle_step(cached, shown, outcome).0 == cached,
{
}

} // verus!
