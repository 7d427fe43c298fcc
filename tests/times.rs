use tonic_mock::times::Times;

fn declared(t: &Times, n: u64) -> bool {
    match *t {
        Times::Exact(e) => n == e,
        Times::Unbounded => true,
        Times::Range(lo, hi) => lo <= n && n < hi,
        Times::RangeFrom(lo) => lo <= n,
        Times::RangeTo(hi) => n < hi,
        Times::RangeToInclusive(hi) => n <= hi,
        Times::RangeInclusive(lo, hi) => lo <= n && n <= hi,
    }
}

#[test]
fn exact_contains_only_its_count() {
    let t = Times::Exact(3);
    assert!(!t.contains(2));
    assert!(t.contains(3));
    assert!(!t.contains(4));
}

#[test]
fn range_is_half_open() {
    let t = Times::Range(2, 5);
    assert!(!t.contains(1));
    assert!(t.contains(2));
    assert!(t.contains(4));
    assert!(!t.contains(5));
}

#[test]
fn range_inclusive_holds_both_ends() {
    let t = Times::RangeInclusive(2, 5);
    assert!(!t.contains(1));
    assert!(t.contains(2));
    assert!(t.contains(5));
    assert!(!t.contains(6));
}

#[test]
fn open_ended_ranges() {
    assert!(!Times::RangeFrom(3).contains(2));
    assert!(Times::RangeFrom(3).contains(3));
    assert!(Times::RangeFrom(3).contains(u64::MAX));
    assert!(Times::RangeTo(3).contains(0));
    assert!(Times::RangeTo(3).contains(2));
    assert!(!Times::RangeTo(3).contains(3));
    assert!(Times::RangeToInclusive(3).contains(3));
    assert!(!Times::RangeToInclusive(3).contains(4));
}

#[test]
fn unbounded_contains_everything() {
    assert!(Times::Unbounded.contains(0));
    assert!(Times::Unbounded.contains(17));
    assert!(Times::Unbounded.contains(u64::MAX));
}

#[test]
fn empty_ranges_contain_nothing() {
    assert!(!Times::Range(4, 4).contains(4));
    assert!(!Times::RangeTo(0).contains(0));
    assert!(!Times::RangeInclusive(5, 4).contains(4));
    assert!(!Times::RangeInclusive(5, 4).contains(5));
}

#[test]
fn contains_matches_declared_sets_on_pseudo_random_values() {
    let mut seed: u64 = 0x2545_f491_4f6c_dd1d;
    let mut next = move || {
        seed ^= seed << 13;
        seed ^= seed >> 7;
        seed ^= seed << 17;
        seed % 40
    };
    for _ in 0..2000 {
        let a = next();
        let b = next();
        let n = next();
        let all = [
            Times::Exact(a),
            Times::Unbounded,
            Times::Range(a, b),
            Times::RangeFrom(a),
            Times::RangeTo(b),
            Times::RangeToInclusive(b),
            Times::RangeInclusive(a, b),
        ];
        for t in all.iter() {
            assert_eq!(t.contains(n), declared(t, n), "{:?} on {}", t, n);
        }
    }
}

#[test]
fn from_count_is_exact() {
    let t: Times = 7u64.into();
    assert_eq!(t, Times::Exact(7));
    assert_eq!(Times::from(0u64), Times::Exact(0));
}

#[test]
fn describe_reads_as_the_range() {
    assert_eq!(Times::Exact(12).describe(), "== 12");
    assert_eq!(Times::Unbounded.describe(), "0 <= x");
    assert_eq!(Times::Range(2, 105).describe(), "2 <= x < 105");
    assert_eq!(Times::RangeFrom(0).describe(), "0 <= x");
    assert_eq!(Times::RangeTo(9).describe(), "0 <= x < 9");
    assert_eq!(Times::RangeToInclusive(10).describe(), "0 <= x <= 10");
    assert_eq!(Times::RangeInclusive(3, 4).describe(), "3 <= x <= 4");
    assert_eq!(
        Times::Exact(u64::MAX).describe(),
        "== 18446744073709551615"
    );
}
