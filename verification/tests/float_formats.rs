//! The size and rate texts compared with the float formatting they stand for.
use ironkey::drives::format_size as drive_size;
use ironkey::listing::format_size as listing_size;
use ironkey::units::{format_rate, format_speed};

fn float_size(bytes: u64, units: &[&str]) -> String {
    let mut size = bytes as f64;
    let mut idx = 0;
    while size >= 1024.0 && idx < units.len() - 1 {
        size /= 1024.0;
        idx += 1;
    }
    if idx == 0 {
        format!("{} B", bytes)
    } else {
        format!("{:.1} {}", size, units[idx])
    }
}

fn float_rate(bps: u64) -> String {
    if bps == 0 {
        "0 B/s".to_string()
    } else if bps >= 1_073_741_824 {
        format!("{:.1} GB/s", bps as f64 / 1_073_741_824.0)
    } else if bps >= 1_048_576 {
        format!("{:.1} MB/s", bps as f64 / 1_048_576.0)
    } else if bps >= 1024 {
        format!("{:.0} KB/s", bps as f64 / 1024.0)
    } else {
        format!("{} B/s", bps)
    }
}

fn float_speed(bps: u64) -> String {
    if bps >= 1_073_741_824 {
        format!("{:.1} GB/s", bps as f64 / 1_073_741_824.0)
    } else if bps >= 1_048_576 {
        format!("{:.1} MB/s", bps as f64 / 1_048_576.0)
    } else if bps >= 1024 {
        format!("{:.1} KB/s", bps as f64 / 1024.0)
    } else {
        format!("{} B/s", bps)
    }
}

fn samples() -> Vec<u64> {
    let mut v: Vec<u64> = vec![0, 1, 512, 1023, 1024, 1025, 1075, 1076, 1126, 1127, 1280, 1331, 1332, 1536, 10239, 10240,
        1048575, 1048576, 1100000, 1153433, 1153434, 10 * 1024 * 1024, 500 * 1024 * 1024 * 1024,
        (1u64 << 53) - 1, 1u64 << 53, (1u64 << 53) + 1, (1u64 << 60) + 12345, u64::MAX - 1, u64::MAX];
    let mut x: u64 = 0x9E37_79B9_7F4A_7C15;
    for _ in 0..2000 {
        x ^= x << 13;
        x ^= x >> 7;
        x ^= x << 17;
        let shift = x % 64;
        v.push(x >> shift);
    }
    for k in 1..6u32 {
        let base = 1024u64.pow(k);
        for m in [1u64, 2, 3, 5, 7, 99, 100, 999, 1000, 1023] {
            if let Some(b) = base.checked_mul(m) {
                v.push(b);
                v.push(b - 1);
                v.push(b + 1);
                v.push(b + base / 20);
                v.push(b + base / 20 - 1);
            }
        }
    }
    v
}

#[test]
fn listing_sizes_match_float_formatting() {
    for b in samples() {
        assert_eq!(listing_size(b), float_size(b, &["B", "KB", "MB", "GB", "TB"]), "bytes = {}", b);
    }
}

#[test]
fn drive_sizes_match_float_formatting() {
    for b in samples() {
        assert_eq!(drive_size(b), float_size(b, &["B", "KB", "MB", "GB", "TB", "PB"]), "bytes = {}", b);
    }
}

#[test]
fn rates_match_float_formatting() {
    for b in samples() {
        assert_eq!(format_rate(b), float_rate(b), "bps = {}", b);
        assert_eq!(format_speed(b), float_speed(b), "bps = {}", b);
    }
}

#[test]
fn size_examples() {
    assert_eq!(listing_size(1280), "1.2 KB");
    assert_eq!(listing_size(1331), "1.3 KB");
    assert_eq!(drive_size(u64::MAX), "16384.0 PB");
    assert_eq!(listing_size(1u64 << 50), "1024.0 TB");
}
