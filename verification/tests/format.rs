use fsapp::format::{human_bytes, human_duration, ordinal, pad_left, pad_right, truncate};

#[test]
fn bytes_below_a_kibibyte_are_exact() {
    assert_eq!(human_bytes(0), "0 B");
    assert_eq!(human_bytes(1023), "1023 B");
}

#[test]
fn larger_sizes_get_one_decimal_and_a_binary_unit() {
    assert_eq!(human_bytes(1024), "1.0 KiB");
    assert_eq!(human_bytes(1536), "1.5 KiB");
    assert_eq!(human_bytes(10 * 1024 * 1024), "10.0 MiB");
    assert_eq!(human_bytes(5 * 1024 * 1024 * 1024), "5.0 GiB");
    assert_eq!(human_bytes(u64::MAX), "16777216.0 TiB");
}

#[test]
fn durations_switch_format_with_their_size() {
    assert_eq!(human_duration(0, 0), "0.0s");
    assert_eq!(human_duration(9, 940_000_000), "9.9s");
    assert_eq!(human_duration(10, 0), "10s");
    assert_eq!(human_duration(59, 999_999_999), "59s");
    assert_eq!(human_duration(60, 0), "1m00s");
    assert_eq!(human_duration(3599, 0), "59m59s");
    assert_eq!(human_duration(3600, 0), "1h00m");
    assert_eq!(human_duration(90061, 0), "25h01m");
}

#[test]
fn ordinals() {
    assert_eq!(ordinal(1), "1st");
    assert_eq!(ordinal(2), "2nd");
    assert_eq!(ordinal(3), "3rd");
    assert_eq!(ordinal(4), "4th");
    assert_eq!(ordinal(11), "11th");
    assert_eq!(ordinal(12), "12th");
    assert_eq!(ordinal(13), "13th");
    assert_eq!(ordinal(21), "21st");
    assert_eq!(ordinal(111), "111th");
    assert_eq!(ordinal(0), "0th");
}

#[test]
fn names_up_to_28_characters_are_kept_whole() {
    let exact = "a".repeat(28);
    assert_eq!(truncate(&exact), exact);
    let long = "é".repeat(30);
    let cut = truncate(&long);
    assert_eq!(cut.chars().count(), 28);
    assert_eq!(cut, format!("{}\u{2026}", "é".repeat(27)));
}

#[test]
fn padding_counts_characters() {
    assert_eq!(pad_left("ab", 5), "   ab");
    assert_eq!(pad_right("ab", 5), "ab   ");
    assert_eq!(pad_left("abcdef", 3), "abcdef");
}
