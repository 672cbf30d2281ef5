use libbuf::size::{parse_size, SizeError};

#[test]
fn test_parse_size_plain() {
    assert_eq!(parse_size("4096").unwrap(), 4096);
    assert_eq!(parse_size("0").unwrap(), 0);
    assert_eq!(parse_size("1").unwrap(), 1);
}

#[test]
fn test_parse_size_kib() {
    assert_eq!(parse_size("1KiB").unwrap(), 1024);
    assert_eq!(parse_size("4KB").unwrap(), 4 * 1024);
    assert_eq!(parse_size("4K").unwrap(), 4 * 1024);
    assert_eq!(parse_size("4kib").unwrap(), 4 * 1024);
}

#[test]
fn test_parse_size_mib() {
    assert_eq!(parse_size("32MiB").unwrap(), 32 * 1024 * 1024);
    assert_eq!(parse_size("32MB").unwrap(), 32 * 1024 * 1024);
    assert_eq!(parse_size("1M").unwrap(), 1024 * 1024);
}

#[test]
fn test_parse_size_gib() {
    assert_eq!(parse_size("1GiB").unwrap(), 1024 * 1024 * 1024);
    assert_eq!(parse_size("2GB").unwrap(), 2 * 1024 * 1024 * 1024);
}

#[test]
fn test_parse_size_bad_suffix() {
    assert!(parse_size("1TiB").is_err());
    assert!(parse_size("abc").is_err());
    assert!(parse_size("MiB").is_err());
}

#[test]
fn bytes_suffix_and_lower_case_units() {
    assert_eq!(parse_size("512B").unwrap(), 512);
    assert_eq!(parse_size("512b").unwrap(), 512);
    assert_eq!(parse_size("3g").unwrap(), 3 * 1024 * 1024 * 1024);
    assert_eq!(parse_size("3mb").unwrap(), 3 * 1024 * 1024);
    assert_eq!(parse_size("32mib").unwrap(), parse_size("32MiB").unwrap());
}

#[test]
fn surrounding_whitespace_is_ignored() {
    assert_eq!(parse_size("  4K\t\n").unwrap(), 4096);
    assert_eq!(parse_size("\u{3000}8\u{a0}").unwrap(), 8);
    assert_eq!(parse_size(" 4K ").unwrap(), parse_size("4K").unwrap());
}

#[test]
fn leading_zeros_are_accepted() {
    assert_eq!(parse_size("0000000000000000000000001K").unwrap(), 1024);
}

#[test]
fn no_number_reports_the_trimmed_input() {
    match parse_size("  abc ") {
        Err(SizeError::NoNumber(t)) => assert_eq!(t, "abc"),
        other => panic!("unexpected {:?}", other),
    }
    match parse_size("") {
        Err(SizeError::NoNumber(t)) => assert_eq!(t, ""),
        other => panic!("unexpected {:?}", other),
    }
}

#[test]
fn unknown_suffix_is_reported_in_upper_case() {
    match parse_size("1TiB") {
        Err(SizeError::UnknownSuffix(u)) => assert_eq!(u, "TIB"),
        other => panic!("unexpected {:?}", other),
    }
    match parse_size("4 K") {
        Err(SizeError::UnknownSuffix(u)) => assert_eq!(u, " K"),
        other => panic!("unexpected {:?}", other),
    }
}

#[test]
fn number_beyond_u64_is_invalid() {
    match parse_size("18446744073709551616K") {
        Err(SizeError::InvalidNumber(d)) => assert_eq!(d, "18446744073709551616"),
        other => panic!("unexpected {:?}", other),
    }
    assert_eq!(parse_size("18446744073709551615").unwrap() as u64, u64::MAX);
}

#[test]
fn product_beyond_u64_overflows() {
    match parse_size(" 18446744073709551615K") {
        Err(SizeError::Overflow(t)) => assert_eq!(t, "18446744073709551615K"),
        other => panic!("unexpected {:?}", other),
    }
    match parse_size("17179869184G") {
        Err(SizeError::Overflow(_)) => {}
        other => panic!("unexpected {:?}", other),
    }
    assert_eq!(parse_size("17179869183G").unwrap() as u64, 17179869183u64 * 1024 * 1024 * 1024);
}

#[test]
fn messages_name_the_offending_text() {
    assert_eq!(parse_size("abc").unwrap_err().message(), "No numeric value found in 'abc'");
    assert_eq!(
        parse_size("99999999999999999999").unwrap_err().message(),
        "Could not parse '99999999999999999999' as a number"
    );
    assert_eq!(parse_size("1tb").unwrap_err().message(), "Unknown size suffix: 'TB'");
    assert_eq!(
        parse_size("18446744073709551615KiB").unwrap_err().message(),
        "Size overflows u64: 18446744073709551615KiB"
    );
    let too_large = SizeError::TooLarge("8G".to_string());
    assert_eq!(too_large.message(), "Block size 8G is too large for this platform");
}

#[test]
fn plain_decimal_reads_back() {
    for n in [0u64, 7, 10, 4096, 123456789, u64::MAX] {
        let text = libbuf::text::decimal_string(n);
        assert_eq!(text, n.to_string());
        assert_eq!(parse_size(&text).unwrap() as u64, n);
    }
}
