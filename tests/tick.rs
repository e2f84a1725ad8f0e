use kekbit::tick::TickUnit;
use kekbit::tick::TickUnit::{Micros, Millis, Nanos, Secs};
use std::time::Duration;

#[test]
fn check_ids_symetry() {
    assert_eq!(Nanos.id(), TickUnit::from_id(Nanos.id()).id());
    assert_eq!(Micros.id(), TickUnit::from_id(Micros.id()).id());
    assert_eq!(Millis.id(), TickUnit::from_id(Millis.id()).id());
    assert_eq!(Secs.id(), TickUnit::from_id(Secs.id()).id());
}

#[test]
fn test_coversion() {
    let duration = Duration::new(1, 500_000_000);
    assert_eq!(Nanos.convert(duration), 1_500_000_000);
    assert_eq!(Micros.convert(duration), 1_500_000);
    assert_eq!(Millis.convert(duration), 1_500);
    assert_eq!(Secs.convert(duration), 1);
}

#[test]
fn check_ids() {
    assert_eq!(Nanos.id(), 9);
    assert_eq!(Micros.id(), 6);
    assert_eq!(Millis.id(), 3);
    assert_eq!(Secs.id(), 0);
}

#[test]
fn check_nix_time() {
    let t1 = Nanos.nix_time();
    let t2 = Nanos.nix_time();
    assert!(t1 <= t2);
}

#[test]
fn ticks_truncate_to_64_bits() {
    assert_eq!(Nanos.ticks(u64::MAX, 0), (((u64::MAX as u128) * 1_000_000_000) % (1u128 << 64)) as u64);
    assert_eq!(Millis.ticks(2, 999_999_999), 2_999);
    assert_eq!(Micros.ticks(0, 1_999), 1);
    assert_eq!(Secs.ticks(7, 999_999_999), 7);
}
