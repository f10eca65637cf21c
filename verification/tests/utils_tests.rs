use cli_music_player::utils::{format_duration, format_duration_long, format_size, truncate};

#[test]
fn test_format_duration() {
    assert_eq!(format_duration(0), "0:00");
    assert_eq!(format_duration(5), "0:05");
    assert_eq!(format_duration(65), "1:05");
    assert_eq!(format_duration(3599), "59:59");
}

#[test]
fn test_format_duration_long() {
    assert_eq!(format_duration_long(65), "1:05");
    assert_eq!(format_duration_long(3600), "1:00:00");
    assert_eq!(format_duration_long(3661), "1:01:01");
}

#[test]
fn test_format_size() {
    assert_eq!(format_size(500), "500 B");
    assert_eq!(format_size(1024), "1.0 KB");
    assert_eq!(format_size(1_048_576), "1.0 MB");
    assert_eq!(format_size(1_073_741_824), "1.0 GB");
}

#[test]
fn test_truncate() {
    assert_eq!(truncate("hello", 10), "hello");
    assert_eq!(truncate("hello world", 8), "hello...");
    assert_eq!(truncate("ab", 2), "ab");
}

fn size_by_float(bytes: u64) -> String {
    if bytes >= 1 << 30 {
        format!("{:.1} GB", bytes as f64 / (1u64 << 30) as f64)
    } else if bytes >= 1 << 20 {
        format!("{:.1} MB", bytes as f64 / (1u64 << 20) as f64)
    } else if bytes >= 1 << 10 {
        format!("{:.1} KB", bytes as f64 / (1u64 << 10) as f64)
    } else {
        format!("{bytes} B")
    }
}

#[test]
fn format_size_matches_float_formatting() {
    let samples: Vec<u64> = vec![
        0, 1, 1023, 1024, 1075, 1126, 1177, 1280, 1536, 2047, 2048, 10239, 10240, 1_000_000,
        1_048_575, 1_048_576, 1_101_004, 1_153_433, 5_242_880, 1_073_741_823, 1_073_741_824,
        1_127_428_915, 1_181_116_006, 5_000_000_000, u64::MAX, u64::MAX - 1, 1 << 62, (1 << 53) + 1,
    ];
    for b in samples {
        assert_eq!(format_size(b), size_by_float(b), "bytes {b}");
    }
    let mut x: u64 = 1;
    for _ in 0..2000 {
        x = x.wrapping_mul(6364136223846793005).wrapping_add(1442695040888963407);
        for shift in [0u32, 10, 20, 25, 30, 34, 40, 50, 54, 60] {
            let b = x >> shift;
            assert_eq!(format_size(b), size_by_float(b), "bytes {b}");
        }
    }
}

#[test]
fn format_duration_edges() {
    assert_eq!(format_duration(60), "1:00");
    assert_eq!(format_duration(3600), "60:00");
    assert_eq!(format_duration_long(0), "0:00");
    assert_eq!(format_duration_long(3599), "59:59");
    assert_eq!(format_duration_long(86_400), "24:00:00");
}

#[test]
fn truncate_counts_characters() {
    assert_eq!(truncate("héllo wörld", 8), "héllo...");
    assert_eq!(truncate("abcdef", 3), "abc");
    assert_eq!(truncate("", 0), "");
}
