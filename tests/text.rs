use music_core::text::{cover_file_name, format_duration, format_size, playlist_id};

#[test]
fn size_below_one_kilobyte_is_whole_bytes() {
    assert_eq!(format_size(0), "0 Bytes");
    assert_eq!(format_size(500), "500 Bytes");
    assert_eq!(format_size(1023), "1023 Bytes");
}

#[test]
fn size_of_three_files_is_in_kilobytes() {
    assert_eq!(format_size(500 + 1500 + 1_050_000), "1.00 MB");
    assert_eq!(format_size(1_002_000), "978.52 KB");
}

#[test]
fn size_tiers_use_base_1024() {
    assert_eq!(format_size(1024), "1.00 KB");
    assert_eq!(format_size(1536), "1.50 KB");
    assert_eq!(format_size(1_048_575), "1024.00 KB");
    assert_eq!(format_size(1_048_576), "1.00 MB");
    assert_eq!(format_size(1_073_741_824), "1.00 GB");
    assert_eq!(format_size(1_099_511_627_776), "1.00 TB");
    assert_eq!(format_size(u64::MAX), "16777216.00 TB");
}

#[test]
fn size_ties_round_to_even() {
    assert_eq!(format_size(1152), "1.12 KB");
    assert_eq!(format_size(1408), "1.38 KB");
}

#[test]
fn size_matches_float_formatting() {
    for b in [1000u64, 1025, 1152, 1408, 4095, 123_456, 999_999, 5_000_000, 77_777_777_777] {
        let x = b as f64;
        let expected = if x >= 1099511627776.0 {
            format!("{:.2} TB", x / 1099511627776.0)
        } else if x >= 1073741824.0 {
            format!("{:.2} GB", x / 1073741824.0)
        } else if x >= 1048576.0 {
            format!("{:.2} MB", x / 1048576.0)
        } else if x >= 1024.0 {
            format!("{:.2} KB", x / 1024.0)
        } else {
            format!("{} Bytes", x)
        };
        assert_eq!(format_size(b), expected);
    }
}

#[test]
fn duration_of_three_seconds() {
    assert_eq!(format_duration(Some(132300), Some(44100)), "00:03");
}

#[test]
fn duration_of_one_minute() {
    assert_eq!(format_duration(Some(2649600), Some(44100)), "01:00");
    assert_eq!(format_duration(Some(2646000), Some(44100)), "01:00");
}

#[test]
fn duration_rounds_seconds_after_taking_minutes() {
    // 59.6 s: no whole minute, and the seconds round up to 60.
    assert_eq!(format_duration(Some(596), Some(10)), "00:60");
    assert_eq!(format_duration(Some(1234), Some(10)), "02:03");
    assert_eq!(format_duration(Some(25), Some(10)), "00:03");
    assert_eq!(format_duration(Some(6_000_000), Some(10)), "10000:00");
}

#[test]
fn unknown_duration_is_zero() {
    assert_eq!(format_duration(None, Some(44100)), "00:00");
    assert_eq!(format_duration(Some(132300), None), "00:00");
    assert_eq!(format_duration(Some(132300), Some(0)), "00:00");
}

#[test]
fn cover_name_uses_timestamp() {
    assert_eq!(cover_file_name(1700000000123), "cover_1700000000123.webp");
    assert_eq!(cover_file_name(0), "cover_0.webp");
}

#[test]
fn playlist_id_is_decimal_timestamp() {
    assert_eq!(playlist_id(1700000000123), "1700000000123");
    assert_eq!(playlist_id(u64::MAX), "18446744073709551615");
}
