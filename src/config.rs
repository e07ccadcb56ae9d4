use vstd::prelude::*;

verus! {

/// Subpixels to one screen pixel.
pub const SUBPIXELS_PER_PIXEL: i64 = 600;

/// Simulation ticks to one second.
pub const TICKS_PER_SECOND: i64 = 60;

/// Every coordinate and velocity lies in `[-WORLD_LIMIT, WORLD_LIMIT]`.
pub const WORLD_LIMIT: i64 = 1_000_000_000;

/// The view's width (1024 px) and height (768 px).
pub const VIEW_WIDTH: i64 = 614_400;
pub const VIEW_HEIGHT: i64 = 460_800;

/// Most entities one collection (a lane, a particle pool) holds; spawns
/// into a full collection are skipped.
pub const POOL_CAP: usize = 4096;

/// One whole unit of signal loss.
pub const SIGNAL_ONE: u64 = 6_000;

/// Signal loss at which the session is lost (1.15).
pub const SIGNAL_THRESHOLD: u64 = 6_900;

/// Bound on signal loss in any state.
pub const SIGNAL_CEILING: u64 = 1_000_000_000_000;

/// Bound on the signal one phase of a tick can cost.
pub const MAX_PHASE_LOSS: u64 = 1_000_000_000;

} // verus!
