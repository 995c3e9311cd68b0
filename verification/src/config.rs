//! The run's configuration.

use crate::hardware::{
    detect_optimal_chunk_size, detect_optimal_thread_count, optimal_chunk_size,
    optimal_thread_count, Platform,
};
use vstd::prelude::*;

verus! {

/// What a run needs to know: how many workers, which file, and how large a
/// segment. Fixed once it has been made.
#[derive(Clone, Debug)]
pub struct Config {
    /// Number of workers.
    pub thread_count: usize,
    /// Path of the file to map.
    pub source_file: String,
    /// Size of a segment in bytes.
    pub chunk_size: usize,
}

impl Config {
    /// A segment has a positive size. The worker count may be zero: a pool
    /// without workers is degenerate, not wrong.
    pub open spec fn wf(&self) -> bool {
        self.chunk_size > 0
    }

    /// The configuration for this machine: thread count and chunk size from
    /// the hardware profile, and the fixed default path.
    pub fn detect(platform: Platform) -> (config: Config)
        ensures
            config.wf(),
            config.thread_count == optimal_thread_count(platform),
            config.thread_count > 0,
            config.source_file@ == "test_data.bin"@,
            exists|l1: Option<usize>, l2: Option<usize>|
                config.chunk_size == #[trigger] optimal_chunk_size(platform, l1, l2),
            platform == Platform::AppleSilicon ==> config.chunk_size
                == crate::hardware::TARGET_CHUNK,
    {
        Config {
            thread_count: detect_optimal_thread_count(platform),
            source_file: "test_data.bin".to_owned(),
            chunk_size: detect_optimal_chunk_size(platform),
        }
    }
}

} // verus!
