use embedded_mongodb::limits::floor::FreeDiskFloor;
use embedded_mongodb::options::{
    CacheSize, Concurrency, EngineOptions, JournalFileSize, OpenOptions, Preallocation,
};
use embedded_mongodb::range::{check_range, Bounds};
use std::time::Duration;

/// A range an engine might accept.
const MEBIBYTES: Bounds = Bounds {
    what: "size",
    unit: "MiB",
    min: 2,
    max: 64,
};

fn a_minute() -> Duration {
    Duration::from_secs(60)
}

#[test]
fn an_untouched_options_object_asks_for_nothing() {
    let options = OpenOptions::new();

    assert_eq!(options.engine, EngineOptions::new());
    assert_eq!(options.free_disk_floor, None);
    assert_eq!(options.concurrency, None);
}

#[test]
fn the_engine_limits_are_kept_apart_from_the_floor() {
    let cache = CacheSize::from_mebibytes(32, MEBIBYTES).expect("32 MiB is in range");
    let floor = FreeDiskFloor::from_mebibytes(16).expect("16 MiB is in range");

    let options = OpenOptions::new().cache_size(cache).free_disk_floor(floor);

    assert_eq!(
        options.engine,
        EngineOptions {
            cache_size: Some(cache),
            ..EngineOptions::new()
        }
    );
    assert_eq!(options.free_disk_floor, Some(floor));
}

#[test]
fn every_engine_limit_is_kept() {
    let options = OpenOptions::new()
        .cache_size(CacheSize::from_mebibytes(64, MEBIBYTES).expect("64 MiB is in range"))
        .journal_file_size(JournalFileSize::from_mebibytes(8, MEBIBYTES).expect("8 MiB is in range"))
        .journal_preallocation(Preallocation::Disabled);

    assert_eq!(options.engine.cache_size.map(CacheSize::mebibytes), Some(64));
    assert_eq!(
        options
            .engine
            .journal_file_size
            .map(JournalFileSize::mebibytes),
        Some(8)
    );
    assert_eq!(
        options.engine.journal_preallocation,
        Some(Preallocation::Disabled)
    );
}

#[test]
fn a_size_the_engine_does_not_accept_is_refused() {
    assert_eq!(
        CacheSize::from_mebibytes(65, MEBIBYTES).map_err(|error| error.message()),
        Err("size must be between 2 and 64 MiB, got 65".to_owned())
    );
    assert_eq!(
        JournalFileSize::from_mebibytes(1, MEBIBYTES).map_err(|error| error.message()),
        Err("size must be between 2 and 64 MiB, got 1".to_owned())
    );
}

#[test]
fn the_concurrency_defaults_when_unset_and_takes_what_is_asked() {
    assert_eq!(
        OpenOptions::resolve_concurrency(None),
        Concurrency::default()
    );

    let asked =
        OpenOptions::new().concurrency(Concurrency::from_count(3).expect("3 sessions is in range"));
    assert_eq!(OpenOptions::resolve_concurrency(Some(&asked)).max(), 3);
}

#[test]
fn a_fixed_pool_never_grows_and_never_reaps() {
    let fixed = Concurrency::from_count(4).expect("4 sessions is in range");

    assert_eq!(fixed.min(), 4);
    assert_eq!(fixed.max(), 4);
    assert_eq!(fixed.idle_timeout(), None);
}

#[test]
fn the_default_is_a_fixed_pool_of_the_default_count() {
    assert_eq!(
        Concurrency::default(),
        Concurrency::from_count(Concurrency::DEFAULT_COUNT).expect("the default is in range")
    );
}

#[test]
fn a_dynamic_pool_keeps_its_floor_ceiling_and_timeout() {
    let elastic = Concurrency::dynamic(2, 16, a_minute()).expect("2..16 is in range");

    assert_eq!(elastic.min(), 2);
    assert_eq!(elastic.max(), 16);
    assert_eq!(elastic.idle_timeout(), Some(a_minute()));
}

#[test]
fn a_fixed_count_outside_the_range_is_refused() {
    let error = Concurrency::from_count(0).expect_err("0 sessions is below the minimum");
    assert_eq!(
        error.message(),
        "concurrency must be between 1 and 256 sessions, got 0"
    );
    assert!(Concurrency::from_count(Concurrency::MAX_COUNT + 1).is_err());
}

#[test]
fn a_dynamic_ceiling_outside_the_range_is_refused() {
    let error = Concurrency::dynamic(1, Concurrency::MAX_COUNT + 1, a_minute())
        .expect_err("a ceiling above the maximum is out of range");
    assert_eq!(
        error.message(),
        "maximum concurrency must be between 1 and 256 sessions, got 257"
    );
    assert!(Concurrency::dynamic(1, 0, a_minute()).is_err());
}

#[test]
fn a_dynamic_floor_above_its_ceiling_is_refused() {
    let error = Concurrency::dynamic(9, 8, a_minute())
        .expect_err("a floor above the ceiling is out of range");
    assert_eq!(
        error.message(),
        "minimum concurrency must be between 1 and 8 sessions, got 9"
    );
}

#[test]
fn a_dynamic_floor_below_the_minimum_is_refused() {
    let error =
        Concurrency::dynamic(0, 8, a_minute()).expect_err("0 sessions is below the minimum");
    assert_eq!(
        error.message(),
        "minimum concurrency must be between 1 and 8 sessions, got 0"
    );
}

#[test]
fn a_zero_idle_timeout_is_refused() {
    let error = Concurrency::dynamic(1, 8, Duration::ZERO)
        .expect_err("a session cannot be reaped the instant it is returned");
    assert_eq!(
        error.message(),
        "idle timeout must be between 1 and 4294967295 milliseconds, got 0"
    );
}

#[test]
fn an_idle_timeout_short_of_a_millisecond_is_refused() {
    assert!(Concurrency::dynamic(1, 8, Duration::from_nanos(999_999)).is_err());
    assert!(Concurrency::dynamic(1, 8, Duration::from_nanos(1_000_000)).is_ok());
}

#[test]
fn an_idle_timeout_past_what_the_check_counts_is_still_accepted() {
    let century = Duration::from_secs(60 * 60 * 24 * 365 * 100);

    let elastic =
        Concurrency::dynamic(1, 8, century).expect("a very long timeout is not a mistake");

    assert_eq!(elastic.idle_timeout(), Some(century));
}

#[test]
fn a_floor_equal_to_its_ceiling_is_accepted() {
    let elastic = Concurrency::dynamic(4, 4, a_minute()).expect("4..4 is in range");

    assert_eq!(elastic.min(), 4);
    assert_eq!(elastic.max(), 4);
}

#[test]
fn a_value_in_range_is_handed_back() {
    assert_eq!(check_range("cache size", "MiB", 7, 1, 10), Ok(7));
    assert_eq!(
        check_range("cache size", "MiB", 11, 1, 10).map_err(|error| error.message()),
        Err("cache size must be between 1 and 10 MiB, got 11".to_owned())
    );
}
