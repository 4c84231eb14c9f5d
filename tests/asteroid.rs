use asteroid_shooter::asteroid::{
    AsteroidCount, AsteroidSizeLevel, DEFAULT_ASTEROID_COUNT, MAX_SHARDS, MAX_SPAWN_LEVEL,
    MIN_SHARDS, MIN_SPAWN_LEVEL,
};

#[test]
fn level_is_kept() {
    assert_eq!(AsteroidSizeLevel::new(3).level(), 3);
    assert_eq!(AsteroidSizeLevel::new(1).level(), 1);
}

#[test]
fn typical_radius_doubles_per_level() {
    assert_eq!(AsteroidSizeLevel::new(1).typical_radius(), 16);
    assert_eq!(AsteroidSizeLevel::new(2).typical_radius(), 32);
    assert_eq!(AsteroidSizeLevel::new(4).typical_radius(), 128);
    assert_eq!(AsteroidSizeLevel::new(60).typical_radius(), 1u64 << 63);
}

#[test]
fn max_health_grows_with_square() {
    assert_eq!(AsteroidSizeLevel::new(1).max_health(), 100);
    assert_eq!(AsteroidSizeLevel::new(3).max_health(), 900);
    let big = i32::MAX as u128;
    assert_eq!(AsteroidSizeLevel::new(i32::MAX).max_health(), 100 * big * big);
}

#[test]
fn smallest_asteroid_leaves_no_shards() {
    assert!(AsteroidSizeLevel::new(1).split(3).is_empty());
    assert!(AsteroidSizeLevel::new(1).split_at_random().is_empty());
}

#[test]
fn split_gives_smaller_shards() {
    let shards = AsteroidSizeLevel::new(4).split(3);
    assert_eq!(shards.len(), 3);
    assert!(shards.iter().all(|s| s.level() == 3));
    assert!(AsteroidSizeLevel::new(2).split(0).is_empty());
}

#[test]
fn random_split_stays_within_shard_bounds() {
    for _ in 0..50 {
        let shards = AsteroidSizeLevel::new(3).split_at_random();
        assert!(MIN_SHARDS as usize <= shards.len() && shards.len() <= MAX_SHARDS as usize);
        assert!(shards.iter().all(|s| s.level() == 2));
    }
}

#[test]
fn field_fills_up_to_target() {
    let count = AsteroidCount::default();
    assert_eq!(DEFAULT_ASTEROID_COUNT, 100);
    assert!(count.needs_more(0));
    assert!(count.needs_more(99));
    assert!(!count.needs_more(100));
    assert!(!count.needs_more(150));
    assert!(count.spawn_level(100).is_none());
}

#[test]
fn spawned_level_is_within_bounds() {
    let count = AsteroidCount::default();
    for _ in 0..50 {
        let level = count.spawn_level(10).unwrap().level();
        assert!(MIN_SPAWN_LEVEL <= level && level <= MAX_SPAWN_LEVEL);
    }
}
