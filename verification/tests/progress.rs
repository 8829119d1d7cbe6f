use torfile::download::Download;
use torfile::double::{nearest_double, round_half_even, scaled_progress};

fn by_machine(done: u64, total: u64, scale: u64) -> u64 {
    let progress = if total > 0 { done as f64 / total as f64 } else { 0.0 };
    (progress * scale as f64) as u64
}

fn download(done: u64, total: u64) -> Download {
    Download {
        gid: String::new(),
        name: String::new(),
        status: String::new(),
        dl_speed: 0,
        ul_speed: 0,
        total,
        done,
        seeds: 0,
        conns: 0,
        error: String::new(),
        is_torrent: false,
    }
}

#[test]
fn progress_exact_values() {
    assert_eq!(scaled_progress(0, 7, 100), 0);
    assert_eq!(scaled_progress(1, 3, 100), 33);
    assert_eq!(scaled_progress(2, 3, 24), 16);
    assert_eq!(scaled_progress(7, 7, 100), 100);
    assert_eq!(scaled_progress(99, 100, 100), 99);
    assert_eq!(scaled_progress(200, 100, 100), 200);
    // Doubles: twenty-nine hundredths of a hundred fall short of twenty-nine.
    assert_eq!(scaled_progress(29, 100, 100), 28);
    assert_eq!(by_machine(29, 100, 100), 28);
}

#[test]
fn progress_saturates() {
    assert_eq!(scaled_progress(u64::MAX, 1, 100), u64::MAX);
    assert_eq!(by_machine(u64::MAX, 1, 100), u64::MAX);
}

#[test]
fn progress_of_nothing() {
    assert_eq!(download(5, 0).progress(100), 0);
    assert_eq!(download(5, 10).progress(100), 50);
}

#[test]
fn progress_complete_and_bounded() {
    for total in 1..2_000u64 {
        assert_eq!(scaled_progress(total, total, 100), 100);
        assert_eq!(scaled_progress(total, total, 24), 24);
        assert!(scaled_progress(total - 1, total, 100) <= 100);
    }
    assert_eq!(scaled_progress(u64::MAX, u64::MAX, 24), 24);
}

#[test]
fn progress_never_goes_back() {
    let total: u64 = 1_000_003;
    let mut last: u64 = 0;
    for done in (0..=total).step_by(97) {
        let now = scaled_progress(done, total, 100);
        assert!(now >= last);
        last = now;
    }
}

#[test]
fn progress_as_the_machine_computes() {
    let mut x: u64 = 88_172_645_463_325_252;
    let mut next = || {
        x ^= x << 13;
        x ^= x >> 7;
        x ^= x << 17;
        x
    };
    for i in 0..30_000u64 {
        let total = (next() >> (i % 64)).max(1);
        let done = if i % 3 == 0 { next() >> (i % 61) } else { next() % total };
        for scale in [24, 100] {
            assert_eq!(scaled_progress(done, total, scale), by_machine(done, total, scale), "{} / {}", done, total);
        }
    }
    for total in 1..200u64 {
        for done in 0..=total {
            for scale in [24, 100] {
                assert_eq!(scaled_progress(done, total, scale), by_machine(done, total, scale));
            }
        }
    }
}

#[test]
fn doubles_as_the_machine_has_them() {
    for n in [0, 1, 9_007_199_254_740_992, 9_007_199_254_740_993, 9_007_199_254_740_995, u64::MAX, u64::MAX - 1024] {
        assert_eq!(nearest_double(n as u128), (n as f64) as u128);
    }
    assert_eq!(round_half_even(5, 2), 2);
    assert_eq!(round_half_even(7, 2), 4);
    assert_eq!(round_half_even(8, 3), 3);
}

#[test]
fn progress_falls_short_until_all_is_done() {
    let limit: u64 = 9_007_199_254_740_992;
    for total in [1, 2, 3, 100, 1_000_003, limit / 2 + 1, limit - 1, limit] {
        assert!(scaled_progress(total - 1, total, 100) < 100);
        assert!(scaled_progress(total - 1, total, 24) < 24);
        assert_eq!(by_machine(total - 1, total, 100), scaled_progress(total - 1, total, 100));
    }
    // Beyond, two neighbours are the same double.
    assert_eq!(scaled_progress(limit, limit + 1, 100), 100);
    assert_eq!(by_machine(limit, limit + 1, 100), 100);
}
