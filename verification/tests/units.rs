use ario::units::{format_bytes, format_eta, format_speed};

fn float_reference(bytes: u64) -> String {
    const UNITS: [&str; 5] = ["B", "KB", "MB", "GB", "TB"];
    let mut size = bytes as f64;
    let mut unit_idx = 0;
    while size >= 1024.0 && unit_idx < UNITS.len() - 1 {
        size /= 1024.0;
        unit_idx += 1;
    }
    format!("{size:.1} {}", UNITS[unit_idx])
}

#[test]
fn format_bytes_uses_human_readable_binary_units() {
    assert_eq!(format_bytes(0), "0.0 B");
    assert_eq!(format_bytes(512), "512.0 B");
    assert_eq!(format_bytes(1023), "1023.0 B");
    assert_eq!(format_bytes(1024), "1.0 KB");
    assert_eq!(format_bytes(1536), "1.5 KB");
    assert_eq!(format_bytes(1024 * 1024), "1.0 MB");
    assert_eq!(format_bytes(1024 * 1024 * 1024), "1.0 GB");
    assert_eq!(format_bytes(1024_u64.pow(4)), "1.0 TB");
}

#[test]
fn format_bytes_agrees_with_float_formatting() {
    let mut samples: Vec<u64> = vec![
        1, 999, 1025, 1280, 1331, 1433, 1945, 10239, 10240, 1048575, 1048576, 5_000_000,
        123_456_789, 1_099_511_627_775, 1_099_511_627_776, 9_007_199_254_740_993,
        u64::MAX - 1, u64::MAX,
    ];
    let mut x: u64 = 0x9E37_79B9_7F4A_7C15;
    for _ in 0..20000 {
        x ^= x << 13;
        x ^= x >> 7;
        x ^= x << 17;
        let shift = (x % 64) as u32;
        samples.push(x >> shift);
    }
    for k in 0..5u32 {
        let unit = 1u64 << (10 * k);
        for tenth in 0..40u64 {
            let v = unit.saturating_mul(1) / 20 * tenth + unit;
            samples.push(v);
            samples.push(v.saturating_add(1));
            samples.push(v.saturating_sub(1));
        }
    }
    for s in samples {
        assert_eq!(format_bytes(s), float_reference(s), "{s}");
    }
}

#[test]
fn speed_and_eta_texts() {
    assert_eq!(format_speed(0), "-");
    assert_eq!(format_speed(1536), "1.5 KB/s");
    assert_eq!(format_eta(59), "59s");
    assert_eq!(format_eta(61), "1m1s");
    assert_eq!(format_eta(3600), "1h0m");
    assert_eq!(format_eta(7322), "2h2m");
    assert_eq!(format_eta(0), "0s");
}
