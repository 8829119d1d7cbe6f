use torfile::sizes::{fmt_b, fmt_spd};

/// The formula in the arithmetic of the machine.
fn by_machine(b: u64) -> String {
    if b >= 1_099_511_627_776 {
        format!("{:.1}T", b as f64 / 1_099_511_627_776.0)
    } else if b >= 1_073_741_824 {
        format!("{:.1}G", b as f64 / 1_073_741_824.0)
    } else if b >= 1_048_576 {
        format!("{:.0}M", b as f64 / 1_048_576.0)
    } else if b >= 1_024 {
        format!("{:.0}K", b as f64 / 1_024.0)
    } else if b > 0 {
        format!("{}B", b)
    } else {
        "-".to_string()
    }
}

fn steps() -> Vec<u64> {
    let mut v: Vec<u64> = Vec::new();
    let mut x: u64 = 88_172_645_463_325_252;
    for i in 0..40_000u64 {
        x ^= x << 13;
        x ^= x >> 7;
        x ^= x << 17;
        v.push(x >> (i % 64));
    }
    for shift in 0..64 {
        let p: u64 = 1 << shift;
        for d in 0..3 {
            v.push(p.wrapping_add(d));
            v.push(p.wrapping_sub(d));
            v.push((p >> 1).wrapping_add(p).wrapping_add(d));
        }
    }
    v.push(u64::MAX);
    v
}

#[test]
fn sizes_in_each_unit() {
    assert_eq!(fmt_b(0), "-");
    assert_eq!(fmt_b(1), "1B");
    assert_eq!(fmt_b(1023), "1023B");
    assert_eq!(fmt_b(1024), "1K");
    assert_eq!(fmt_b(1_048_575), "1024K");
    assert_eq!(fmt_b(1_048_576), "1M");
    assert_eq!(fmt_b(734_003_200), "700M");
    assert_eq!(fmt_b(1_073_741_824), "1.0G");
    assert_eq!(fmt_b(1_610_612_736), "1.5G");
    assert_eq!(fmt_b(1_099_511_627_776), "1.0T");
    assert_eq!(fmt_b(u64::MAX), "16777216.0T");
}

#[test]
fn size_ties_go_to_even() {
    assert_eq!(fmt_b(1536), "2K");
    assert_eq!(fmt_b(2560), "2K");
    assert_eq!(fmt_b(3584), "4K");
    assert_eq!(fmt_b(1_073_741_824 + 268_435_456), "1.2G");
}

#[test]
fn sizes_as_the_machine_rounds() {
    for b in steps() {
        assert_eq!(fmt_b(b), by_machine(b), "{}", b);
    }
}

#[test]
fn speeds() {
    assert_eq!(fmt_spd(0), "");
    assert_eq!(fmt_spd(5), "5B/s");
    assert_eq!(fmt_spd(2_097_152), "2M/s");
}
