use rustora::size::format_size;

fn reference(bytes: u64) -> String {
    let units = ["B", "KB", "MB", "GB"];
    let mut size = bytes as f64;
    let mut unit = 0;
    while size >= 1024.0 && unit < units.len() - 1 {
        size /= 1024.0;
        unit += 1;
    }
    format!("{:.2} {}", size, units[unit])
}

#[test]
fn format_size_small_values() {
    assert_eq!(format_size(0), "0.00 B");
    assert_eq!(format_size(1), "1.00 B");
    assert_eq!(format_size(1023), "1023.00 B");
}

#[test]
fn format_size_unit_boundaries() {
    assert_eq!(format_size(1024), "1.00 KB");
    assert_eq!(format_size(1536), "1.50 KB");
    assert_eq!(format_size(1048576), "1.00 MB");
    assert_eq!(format_size(1073741824), "1.00 GB");
    assert_eq!(format_size(1099511627776), "1024.00 GB");
}

#[test]
fn format_size_rounds_ties_to_even() {
    // 1152 bytes are exactly 1.125 KB: the tie goes to the even digit.
    assert_eq!(format_size(1152), reference(1152));
    assert_eq!(format_size(1152), "1.12 KB");
    // 1.375 KB
    assert_eq!(format_size(1408), reference(1408));
    assert_eq!(format_size(1408), "1.38 KB");
}

#[test]
fn format_size_matches_float_formatting() {
    let mut samples: Vec<u64> = vec![
        u64::MAX,
        u64::MAX - 1,
        9007199254740993,
        9007199254740995,
        18014398509481985,
        123456789,
        987654321987,
        5_000_000_000,
    ];
    let mut x: u64 = 0x9E37_79B9_7F4A_7C15;
    for _ in 0..20000 {
        x ^= x << 13;
        x ^= x >> 7;
        x ^= x << 17;
        let shift = (x % 64) as u32;
        samples.push(x >> shift);
    }
    for b in 0..5000u64 {
        samples.push(b);
        samples.push(b * 1024 + 5);
        samples.push(b * 1048576 + 5243);
    }
    for b in samples {
        assert_eq!(format_size(b), reference(b), "bytes = {}", b);
    }
}
