//! Daily trending-repository aggregation: a seen-set tracker with a daily
//! reset and pagination offset, a starred-status cache with a time to live,
//! the per-provider race between a live fetch and the result cache, the merge
//! of the providers' results, and the filters applied before rendering.

pub mod fetch;
pub mod pipeline;
pub mod repo;
pub mod seen;
pub mod starred;

pub use fetch::{
    merge_outcomes, slot_outcome, FetchError, FetchMode, MergedFetch, ProviderBatch, ProviderError,
    ProviderErrorKind, ProviderSlot, SlotAction, SlotEvent, SlotPhase, SlotResult, FETCH_TIMEOUT_SECS,
    SLOW_WARN_SECS,
};
pub use pipeline::{
    apply_starred, clone_url, is_mostly_ascii, meets_min_stars, parse_repo_ref, provider_id,
    retain_min_stars, retain_mostly_ascii,
};
pub use repo::Repo;
pub use seen::{SeenEntry, SeenTracker, LAST_SECOND_OF_9999};
pub use starred::{StarredCache, StarredEntry, DEFAULT_TTL_SECS};
