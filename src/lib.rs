mod flag;
mod laws;
mod location;
mod sentinel;
mod tracker;

pub use flag::{KeyedMutTracker, MutTracker};
pub use laws::{
    clean_until_moved, fresh_wrappers_are_dirty, moved_together_stays_clean,
    swapped_sentinels_are_dirty,
};
pub use sentinel::{offset_between, MoveMutSentinel, MoveRelMutSentinel};
pub use tracker::{MoveMutTracker, MoveRelMutTracker};
