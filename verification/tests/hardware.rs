use mmap_bench::config::Config;
use mmap_bench::hardware::{
    chunk_size_from, chunk_size_on, detect_apple_silicon_specs, detect_cache_sizes,
    detect_optimal_chunk_size, detect_optimal_thread_count, CacheSizes, Platform,
    DEFAULT_L1_DATA, DEFAULT_L2, TARGET_CHUNK,
};

const KIB: usize = 1024;
const MIB: usize = 1024 * 1024;

#[test]
fn identifies_apple_silicon_by_both_names() {
    assert_eq!(Platform::identify("aarch64", "macos"), Platform::AppleSilicon);
    assert_eq!(Platform::identify("aarch64", "linux"), Platform::Other);
    assert_eq!(Platform::identify("x86_64", "macos"), Platform::Other);
    assert_eq!(Platform::identify("x86_64", "linux"), Platform::Other);
    assert_eq!(Platform::identify("", ""), Platform::Other);
}

#[test]
fn apple_silicon_specs_are_the_known_geometry() {
    assert_eq!(
        detect_apple_silicon_specs(Platform::AppleSilicon),
        Some((128 * KIB, 12 * MIB, 10))
    );
    assert_eq!(detect_apple_silicon_specs(Platform::Other), None);
}

#[test]
fn thread_count_is_ten_on_both_platforms() {
    assert_eq!(detect_optimal_thread_count(Platform::AppleSilicon), 10);
    assert_eq!(detect_optimal_thread_count(Platform::Other), 10);
}

#[test]
fn chunk_size_with_nothing_detected_is_the_target() {
    assert_eq!(chunk_size_from(None, None), 128 * KIB);
    assert_eq!(TARGET_CHUNK, 131072);
    assert_eq!(DEFAULT_L1_DATA, 32768);
    assert_eq!(DEFAULT_L2, 524288);
}

#[test]
fn chunk_size_is_raised_to_a_large_l1() {
    assert_eq!(chunk_size_from(Some(256 * KIB), Some(MIB)), 256 * KIB);
    assert_eq!(chunk_size_from(Some(192 * KIB), None), 192 * KIB);
}

#[test]
fn chunk_size_is_lowered_to_half_a_small_l2() {
    assert_eq!(chunk_size_from(Some(32 * KIB), Some(128 * KIB)), 64 * KIB);
    assert_eq!(chunk_size_from(None, Some(100 * KIB)), 50 * KIB);
    assert_eq!(chunk_size_from(Some(0), Some(3)), 1);
}

#[test]
fn chunk_size_is_the_target_when_it_fits() {
    assert_eq!(chunk_size_from(Some(48 * KIB), Some(2 * MIB)), 128 * KIB);
    assert_eq!(chunk_size_from(Some(128 * KIB), Some(256 * KIB)), 128 * KIB);
    assert_eq!(chunk_size_from(Some(0), None), 128 * KIB);
}

#[test]
fn chunk_size_falls_back_when_the_interval_is_empty() {
    // L1 above half of L2: no size satisfies both bounds.
    assert_eq!(chunk_size_from(Some(64 * KIB), Some(64 * KIB)), 128 * KIB);
    assert_eq!(chunk_size_from(Some(MIB), None), 128 * KIB);
    assert_eq!(chunk_size_from(None, Some(16 * KIB)), 128 * KIB);
    // The only size left would be zero.
    assert_eq!(chunk_size_from(Some(0), Some(0)), 128 * KIB);
    assert_eq!(chunk_size_from(Some(0), Some(1)), 128 * KIB);
}

#[test]
fn chunk_size_keeps_to_floor_and_ceiling() {
    let sizes = [0, 1, 3, 16 * KIB, 32 * KIB, 48 * KIB, 128 * KIB, 512 * KIB, 12 * MIB, usize::MAX];
    let mut answers: Vec<Option<usize>> = vec![None];
    for s in sizes {
        answers.push(Some(s));
    }
    for l1 in &answers {
        for l2 in &answers {
            let chunk = chunk_size_from(*l1, *l2);
            let floor = match l1 {
                Some(b) => (*b).min(32 * KIB),
                None => 32 * KIB,
            };
            let ceiling = match l2 {
                Some(b) => (*b).max(512 * KIB) / 2,
                None => 256 * KIB,
            };
            assert!(chunk > 0);
            assert!(floor <= chunk && chunk <= ceiling, "{:?} {:?} -> {}", l1, l2, chunk);
            assert_eq!(chunk, chunk_size_from(*l1, *l2));
        }
    }
}

#[test]
fn known_family_ignores_what_the_cpu_says() {
    let odd = CacheSizes { l1_data: Some(3), l2: Some(9) };
    assert_eq!(chunk_size_on(Platform::AppleSilicon, odd), 128 * KIB);
    assert_eq!(chunk_size_on(Platform::Other, odd), 4);
    assert_eq!(detect_optimal_chunk_size(Platform::AppleSilicon), 128 * KIB);
}

#[test]
fn detected_chunk_size_is_that_of_the_detected_caches() {
    let detected = detect_cache_sizes();
    let chunk = detect_optimal_chunk_size(Platform::Other);
    assert_eq!(chunk, chunk_size_from(detected.l1_data, detected.l2));
    assert_eq!(chunk, chunk_size_on(Platform::Other, detected));
    assert!(chunk > 0);
    // Asking again on the same machine gives the same answer.
    assert_eq!(detect_cache_sizes(), detected);
    assert_eq!(detect_optimal_chunk_size(Platform::Other), chunk);
}

#[test]
fn detected_config_has_the_default_path() {
    let config = Config::detect(Platform::Other);
    assert_eq!(config.thread_count, 10);
    assert_eq!(config.source_file, "test_data.bin");
    assert_eq!(config.chunk_size, detect_optimal_chunk_size(Platform::Other));
    assert!(config.chunk_size > 0);
    let apple = Config::detect(Platform::AppleSilicon);
    assert_eq!(apple.thread_count, 10);
    assert_eq!(apple.chunk_size, 128 * KIB);
    let copy = apple.clone();
    assert_eq!(copy.source_file, apple.source_file);
}
