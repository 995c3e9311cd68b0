//! Hardware profile: thread count and I/O chunk size from cache geometry.

use vstd::prelude::*;

verus! {

/// L1 data cache of one performance core on the known Apple family, in bytes.
pub const APPLE_L1_DATA: usize = 128 * 1024;

/// Shared L2 cache on the known Apple family, in bytes.
pub const APPLE_L2: usize = 12 * 1024 * 1024;

/// Performance cores on the known Apple family.
pub const APPLE_PERFORMANCE_CORES: usize = 10;

/// Worker count used when the CPU family is not a known one.
pub const FALLBACK_THREAD_COUNT: usize = 10;

/// L1 data cache size assumed when the CPU does not tell, in bytes.
pub const DEFAULT_L1_DATA: usize = 32 * 1024;

/// L2 cache size assumed when the CPU does not tell, in bytes.
pub const DEFAULT_L2: usize = 512 * 1024;

/// The chunk size aimed at, in bytes.
pub const TARGET_CHUNK: usize = 128 * 1024;

/// The CPU families the profile tells apart.
#[derive(Clone, Copy, Debug, PartialEq, Eq, Structural)]
pub enum Platform {
    /// 64-bit ARM running macOS.
    AppleSilicon,
    /// Anything else.
    Other,
}

impl Platform {
    /// Which family a target with this architecture and operating system
    /// name belongs to.
    pub open spec fn of_target(arch: Seq<char>, os: Seq<char>) -> Platform {
        if arch == "aarch64"@ && os == "macos"@ {
            Platform::AppleSilicon
        } else {
            Platform::Other
        }
    }

    /// Identifies the family from the target's architecture and operating
    /// system names, as the compiler spells them.
    pub fn identify(arch: &str, os: &str) -> (platform: Platform)
        ensures
            platform == Platform::of_target(arch@, os@),
    {
        let arch_matches = arch.to_owned() == "aarch64".to_owned();
        let os_matches = os.to_owned() == "macos".to_owned();
        if arch_matches && os_matches {
            Platform::AppleSilicon
        } else {
            Platform::Other
        }
    }
}

/// Cache geometry and core count that are known without asking the CPU:
/// `(L1 data bytes, L2 bytes, performance cores)`.
pub open spec fn apple_silicon_specs(platform: Platform) -> Option<(usize, usize, usize)> {
    match platform {
        Platform::AppleSilicon => Some((APPLE_L1_DATA, APPLE_L2, APPLE_PERFORMANCE_CORES)),
        Platform::Other => None,
    }
}

/// The known geometry of the Apple family, or `None` on any other platform.
pub fn detect_apple_silicon_specs(platform: Platform) -> (specs: Option<(usize, usize, usize)>)
    ensures
        specs == apple_silicon_specs(platform),
{
    match platform {
        Platform::AppleSilicon => Some((APPLE_L1_DATA, APPLE_L2, APPLE_PERFORMANCE_CORES)),
        Platform::Other => None,
    }
}

/// Workers to run: the performance cores of a known family, else the fallback.
pub open spec fn optimal_thread_count(platform: Platform) -> usize {
    match apple_silicon_specs(platform) {
        Some((_, _, p_cores)) => p_cores,
        None => FALLBACK_THREAD_COUNT,
    }
}

/// Chooses the worker count for a memory-bound workload: only the
/// performance cores of a known family, and a fixed count elsewhere.
pub fn detect_optimal_thread_count(platform: Platform) -> (count: usize)
    ensures
        count == optimal_thread_count(platform),
        count > 0,
{
    match detect_apple_silicon_specs(platform) {
        Some((_, _, p_cores)) => p_cores,
        None => FALLBACK_THREAD_COUNT,
    }
}

/// `target` moved into `[lo, hi]`.
pub open spec fn clamp(target: int, lo: int, hi: int) -> int {
    if target < lo {
        lo
    } else if target > hi {
        hi
    } else {
        target
    }
}

/// The smallest chunk for a detection result: the L1 data cache, so that a
/// chunk fills it.
pub open spec fn min_chunk(l1: Option<usize>) -> int {
    match l1 {
        Some(bytes) => bytes as int,
        None => DEFAULT_L1_DATA as int,
    }
}

/// The largest chunk for a detection result: half the L2 cache, so that the
/// other half stays free for the rest of the core's state.
pub open spec fn max_chunk(l2: Option<usize>) -> int {
    match l2 {
        Some(bytes) => bytes as int / 2,
        None => DEFAULT_L2 as int / 2,
    }
}

/// Whether a detection result gives an interval to choose from: not empty,
/// and not the single size zero.
pub open spec fn usable_geometry(l1: Option<usize>, l2: Option<usize>) -> bool {
    min_chunk(l1) <= max_chunk(l2) && 0 < max_chunk(l2)
}

/// The chunk size for a detection result: the target moved into
/// `[L1, L2 / 2]`, with the default size standing in for a cache that was
/// not detected. Where the detected sizes give no usable interval, both
/// defaults are used.
pub open spec fn chunk_size_for(l1: Option<usize>, l2: Option<usize>) -> int {
    if usable_geometry(l1, l2) {
        clamp(TARGET_CHUNK as int, min_chunk(l1), max_chunk(l2))
    } else {
        clamp(TARGET_CHUNK as int, min_chunk(None), max_chunk(None))
    }
}

/// The chunk size on a platform whose CPU answered the cache query with `l1`
/// and `l2`: a known family's geometry takes the place of the answer.
pub open spec fn optimal_chunk_size(platform: Platform, l1: Option<usize>, l2: Option<usize>) -> int {
    match apple_silicon_specs(platform) {
        Some((known_l1, known_l2, _)) => chunk_size_for(Some(known_l1), Some(known_l2)),
        None => chunk_size_for(l1, l2),
    }
}

/// Computes the chunk size for the given L1 data and L2 cache sizes, either
/// of which may be unknown.
pub fn chunk_size_from(l1: Option<usize>, l2: Option<usize>) -> (chunk: usize)
    ensures
        chunk == chunk_size_for(l1, l2),
        chunk > 0,
{
    let lo = match l1 {
        Some(bytes) => bytes,
        None => DEFAULT_L1_DATA,
    };
    let hi = match l2 {
        Some(bytes) => bytes / 2,
        None => DEFAULT_L2 / 2,
    };
    if lo <= hi && 0 < hi {
        if TARGET_CHUNK < lo {
            lo
        } else if TARGET_CHUNK > hi {
            hi
        } else {
            TARGET_CHUNK
        }
    } else {
        TARGET_CHUNK
    }
}

/// What the CPU says of its L1 data and L2 caches.
#[derive(Clone, Copy, Debug, PartialEq, Eq, Structural)]
pub struct CacheSizes {
    /// L1 data cache in bytes, if the CPU tells.
    pub l1_data: Option<usize>,
    /// Unified L2 cache in bytes, if the CPU tells.
    pub l2: Option<usize>,
}

/// Calls `cache_size::l1_cache_size`, which asks the CPU for the size of its
/// L1 data cache. The answer is the machine's; nothing is claimed of it.
#[verifier::external_body]
fn l1_cache_size() -> Option<usize> {
    cache_size::l1_cache_size()
}

/// Calls `cache_size::l2_cache_size`, which asks the CPU for the size of its
/// unified L2 cache. The answer is the machine's; nothing is claimed of it.
#[verifier::external_body]
fn l2_cache_size() -> Option<usize> {
    cache_size::l2_cache_size()
}

/// Asks the CPU for its cache sizes.
pub fn detect_cache_sizes() -> CacheSizes {
    CacheSizes { l1_data: l1_cache_size(), l2: l2_cache_size() }
}

/// The chunk size for a platform and what its CPU said of its caches.
pub fn chunk_size_on(platform: Platform, detected: CacheSizes) -> (chunk: usize)
    ensures
        chunk == optimal_chunk_size(platform, detected.l1_data, detected.l2),
        chunk > 0,
{
    match detect_apple_silicon_specs(platform) {
        Some((known_l1, known_l2, _)) => chunk_size_from(Some(known_l1), Some(known_l2)),
        None => chunk_size_from(detected.l1_data, detected.l2),
    }
}

/// Chooses the I/O chunk size for this machine: the known geometry of a
/// known family, else what the CPU reports, else the defaults.
///
/// Whatever the CPU reports, the result is the chunk size of some detection
/// result, it is positive, and on the known family it is the target.
pub fn detect_optimal_chunk_size(platform: Platform) -> (chunk: usize)
    ensures
        exists|l1: Option<usize>, l2: Option<usize>|
            chunk == #[trigger] optimal_chunk_size(platform, l1, l2),
        platform == Platform::AppleSilicon ==> chunk == TARGET_CHUNK,
        chunk > 0,
{
    match detect_apple_silicon_specs(platform) {
        Some(_) => chunk_size_on(platform, CacheSizes { l1_data: None, l2: None }),
        None => chunk_size_on(platform, detect_cache_sizes()),
    }
}

/// The least chunk size any detection result with this L1 answer can give:
/// the smaller of the default and the detected L1 size.
pub open spec fn chunk_floor(l1: Option<usize>) -> int {
    match l1 {
        Some(bytes) => vstd::math::min(DEFAULT_L1_DATA as int, bytes as int),
        None => DEFAULT_L1_DATA as int,
    }
}

/// The greatest chunk size any detection result with this L2 answer can
/// give: half the larger of the default and the detected L2 size.
pub open spec fn chunk_ceiling(l2: Option<usize>) -> int {
    match l2 {
        Some(bytes) => vstd::math::max(DEFAULT_L2 as int, bytes as int) / 2,
        None => DEFAULT_L2 as int / 2,
    }
}

/// The chunk size always lies between the floor and the ceiling of the
/// detection result. Where the detected sizes give a usable interval, it
/// lies in `[L1, L2 / 2]` itself.
pub proof fn lemma_chunk_size_bounds(l1: Option<usize>, l2: Option<usize>)
    ensures
        chunk_floor(l1) <= chunk_size_for(l1, l2) <= chunk_ceiling(l2),
        usable_geometry(l1, l2) ==> min_chunk(l1) <= chunk_size_for(l1, l2) <= max_chunk(l2),
        0 < chunk_size_for(l1, l2),
{
}

/// On every platform the chunk size keeps to the floor and the ceiling of
/// what the CPU answered; a known family's geometry lies within them too.
pub proof fn lemma_optimal_chunk_size_bounds(
    platform: Platform,
    l1: Option<usize>,
    l2: Option<usize>,
)
    ensures
        chunk_floor(l1) <= optimal_chunk_size(platform, l1, l2) <= chunk_ceiling(l2),
        0 < optimal_chunk_size(platform, l1, l2),
{
}

/// With nothing detected the chunk size is the target, and so it is on the
/// known family.
pub proof fn lemma_chunk_size_defaults(l1: Option<usize>, l2: Option<usize>)
    ensures
        chunk_size_for(None, None) == TARGET_CHUNK,
        optimal_chunk_size(Platform::AppleSilicon, l1, l2) == TARGET_CHUNK,
{
}

} // verus!
