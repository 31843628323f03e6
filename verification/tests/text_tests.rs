use higher_dimension_playground::text::{
    env_flag_enabled, env_usize, flag_text_enabled, format_file_size, parse_usize_chars,
    short_label, vte_entity_bvh_compare_enabled,
    vte_entity_linear_only_enabled, vte_lod_tint_enabled, vte_stage_a_breakdown_enabled,
    vte_world_bvh_ray_diag_env_enabled,
};

fn float_file_size(bytes: u64) -> String {
    if bytes < 1024 {
        format!("{} B", bytes)
    } else if bytes < 1024 * 1024 {
        format!("{:.1} KB", bytes as f64 / 1024.0)
    } else {
        format!("{:.1} MB", bytes as f64 / (1024.0 * 1024.0))
    }
}

#[test]
fn file_size_exact_values() {
    assert_eq!(format_file_size(0), "0 B");
    assert_eq!(format_file_size(1023), "1023 B");
    assert_eq!(format_file_size(1024), "1.0 KB");
    assert_eq!(format_file_size(1536), "1.5 KB");
    assert_eq!(format_file_size(1024 * 1024), "1.0 MB");
    assert_eq!(format_file_size(10 * 1024 * 1024 + 512 * 1024), "10.5 MB");
}

#[test]
fn file_size_ties_round_to_even() {
    // 6.25 MiB is exactly halfway between 6.2 and 6.3.
    assert_eq!(format_file_size(6_553_600), "6.2 MB");
    assert_eq!(format_file_size(6_553_600), float_file_size(6_553_600));
}

#[test]
fn file_size_matches_float_formatting() {
    let mut samples: Vec<u64> = vec![
        1, 999, 1025, 1100, 2047, 2048, 10_000, 65_535, 100_000, 1_048_575, 1_048_576,
        1_048_577, 5_000_000, 123_456_789, 9_007_199_254_740_993, 18_014_398_509_481_985,
        u64::MAX - 1, u64::MAX,
    ];
    let mut x: u64 = 0x9E37_79B9_7F4A_7C15;
    for _ in 0..2000 {
        x ^= x << 13;
        x ^= x >> 7;
        x ^= x << 17;
        samples.push(x >> (x % 64));
    }
    for b in samples {
        assert_eq!(format_file_size(b), float_file_size(b), "bytes = {}", b);
    }
}

#[test]
fn short_label_keeps_short_names() {
    assert_eq!(short_label("Stone".to_string()), "Stone");
    assert_eq!(short_label("Fourteen chars".to_string()), "Fourteen chars");
}

#[test]
fn short_label_cuts_long_names() {
    assert_eq!(short_label("Yellow Green Block".to_string()), "Yellow Gree...");
    assert_eq!(short_label("ÄÖÜäöüßÄÖÜäöüß!".to_string()), "ÄÖÜäöüßÄÖÜä...");
}

#[test]
fn parse_usize_matches_std() {
    let cases = [
        "0", "123", "+7", "", "+", "12a", "-1", " 5", "007", "18446744073709551615",
        "18446744073709551616", "4294967295", "4294967296", "++1", "٣",
    ];
    for case in cases {
        let chars: Vec<char> = case.chars().collect();
        assert_eq!(parse_usize_chars(&chars), case.parse::<usize>().ok(), "text = {:?}", case);
    }
}

#[test]
fn flag_text_values() {
    assert!(flag_text_enabled("1"));
    assert!(flag_text_enabled(" yes "));
    assert!(flag_text_enabled("TRUE"));
    assert!(!flag_text_enabled(""));
    assert!(!flag_text_enabled("   "));
    assert!(!flag_text_enabled("0"));
    assert!(!flag_text_enabled(" FALSE "));
    assert!(!flag_text_enabled("Off"));
    assert!(!flag_text_enabled("no"));
    assert!(!flag_text_enabled("\u{3000}No\t"));
    assert!(flag_text_enabled("nope"));
}

#[test]
fn env_flag_unset_is_off() {
    assert!(!env_flag_enabled(None));
    assert!(env_flag_enabled(Some("on")));
    assert!(!env_flag_enabled(Some("off")));
}

#[test]
fn env_usize_values() {
    assert_eq!(env_usize(None, 120), 120);
    assert_eq!(env_usize(Some(" 42 "), 120), 42);
    assert_eq!(env_usize(Some("+5"), 120), 5);
    assert_eq!(env_usize(Some("0"), 120), 120);
    assert_eq!(env_usize(Some("x"), 64), 64);
    assert_eq!(env_usize(Some(""), 60), 60);
}

#[test]
fn renderer_switches() {
    assert!(vte_lod_tint_enabled(Some("1")));
    assert!(!vte_lod_tint_enabled(None));
    assert!(!vte_entity_linear_only_enabled(false, Some("1")));
    assert!(!vte_entity_bvh_compare_enabled(false, Some("1")));
    assert!(!vte_stage_a_breakdown_enabled(false, Some("1")));
    assert!(!vte_world_bvh_ray_diag_env_enabled(false, Some("1")));
    assert!(vte_entity_linear_only_enabled(true, Some("1")));
    assert!(vte_entity_bvh_compare_enabled(true, Some(" On ")));
    assert!(vte_stage_a_breakdown_enabled(true, Some("yes")));
    assert!(vte_world_bvh_ray_diag_env_enabled(true, Some("true")));
    assert!(!vte_entity_linear_only_enabled(true, Some("off")));
    assert!(!vte_entity_bvh_compare_enabled(true, None));
    assert!(!vte_stage_a_breakdown_enabled(true, Some("0")));
    assert!(!vte_world_bvh_ray_diag_env_enabled(true, Some("")));
}

#[test]
fn decimal_text_parses_back() {
    for n in [0usize, 7, 10, 99, 1234567, usize::MAX / 3, usize::MAX] {
        let chars: Vec<char> = n.to_string().chars().collect();
        assert_eq!(parse_usize_chars(&chars), Some(n));
    }
}
