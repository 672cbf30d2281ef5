use libbuf::list::{device_label, human_bytes, UsbDevice};

#[test]
fn bytes_below_a_kib_are_whole() {
    assert_eq!(human_bytes(0), "0 B");
    assert_eq!(human_bytes(512), "512 B");
    assert_eq!(human_bytes(1023), "1023 B");
}

#[test]
fn larger_counts_have_one_decimal() {
    assert_eq!(human_bytes(1024), "1.0 KiB");
    assert_eq!(human_bytes(1536), "1.5 KiB");
    assert_eq!(human_bytes(32 * 1024 * 1024), "32.0 MiB");
    assert_eq!(human_bytes(4 * 1024 * 1024 * 1024 + 512 * 1024 * 1024), "4.5 GiB");
    assert_eq!(human_bytes(5 << 40), "5.0 TiB");
    assert_eq!(human_bytes(u64::MAX), "16777216.0 TiB");
}

#[test]
fn tenths_round_to_nearest_ties_to_even() {
    // 1280 bytes is 1.25 KiB exactly, 1331 bytes is about 1.2998 KiB.
    assert_eq!(human_bytes(1280), "1.2 KiB");
    assert_eq!(human_bytes(1331), "1.3 KiB");
    // 1383 bytes is about 1.3506 KiB; 1792 bytes is 1.75 KiB exactly, a tie
    // that goes to the even tenth.
    assert_eq!(human_bytes(1383), "1.4 KiB");
    assert_eq!(human_bytes(1792), "1.8 KiB");
    assert_eq!(human_bytes(1048575), "1024.0 KiB");
}

#[test]
fn agrees_with_float_formatting() {
    for b in [1024u64, 1500, 2047, 4096 + 100, 7 * 1024 * 1024 + 3, 123456789, 987654321012] {
        let mut size = b as f64;
        let mut unit = 0;
        let units = ["B", "KiB", "MiB", "GiB", "TiB"];
        while size >= 1024.0 && unit < 4 {
            size /= 1024.0;
            unit += 1;
        }
        assert_eq!(human_bytes(b), format!("{:.1} {}", size, units[unit]));
    }
}

#[test]
fn device_lines_name_unknown_models() {
    let mut d = UsbDevice {
        path: "/dev/sdb".to_string(),
        size_human: "14.9 GiB".to_string(),
        model: "Cruzer".to_string(),
    };
    assert_eq!(device_label(&d), "/dev/sdb   14.9 GiB   Cruzer");
    d.model = String::new();
    assert_eq!(device_label(&d), "/dev/sdb   14.9 GiB   Unknown");
}
