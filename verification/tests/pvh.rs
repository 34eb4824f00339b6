//! The TSC frequency on the kernel command line.

use openvmm::pvh::{
    linux_parameter_name_matches, parse_linux_uint, propagate_tsc_frequency, TscFrequencyError,
    MAX_TSC_FREQUENCY_HZ, MIN_TSC_FREQUENCY_HZ,
};

const TSC_FREQUENCY_HZ: u64 = 2_500_000_999;

#[test]
fn appends_normalized_frequency() {
    let mut cmdline = "console=ttyS0".to_owned();
    propagate_tsc_frequency(&mut cmdline, TSC_FREQUENCY_HZ).unwrap();
    assert_eq!(cmdline, "console=ttyS0 tsc_early_khz=2500000");
}

#[test]
fn accepts_matching_frequency_without_mutation() {
    let mut cmdline = "console=ttyS0 tsc_early_khz=2500000".to_owned();
    let original = cmdline.clone();
    propagate_tsc_frequency(&mut cmdline, TSC_FREQUENCY_HZ).unwrap();
    assert_eq!(cmdline, original);
}

#[test]
fn rejects_mismatched_frequency() {
    let mut cmdline = "tsc_early_khz=2499999".to_owned();
    assert_eq!(
        propagate_tsc_frequency(&mut cmdline, TSC_FREQUENCY_HZ),
        Err(TscFrequencyError::Mismatch {
            specified: 2_499_999,
            reported: 2_500_000,
        })
    );
}

#[test]
fn rejects_malformed_frequency() {
    for parameter in [
        "tsc_early_khz",
        "tsc_early_khz=",
        "tsc_early_khz=2.5",
        "tsc_early_khz=18446744073709551616",
    ] {
        let mut cmdline = parameter.to_owned();
        assert!(matches!(
            propagate_tsc_frequency(&mut cmdline, TSC_FREQUENCY_HZ),
            Err(TscFrequencyError::Malformed(_))
        ));
    }
}

#[test]
fn rejects_duplicate_frequency() {
    let mut cmdline = "tsc_early_khz=2500000 console=ttyS0 tsc_early_khz=2500000".to_owned();
    assert_eq!(
        propagate_tsc_frequency(&mut cmdline, TSC_FREQUENCY_HZ),
        Err(TscFrequencyError::Duplicate)
    );
}

#[test]
fn validates_frequency_range_before_conversion() {
    let mut cmdline = String::new();
    assert_eq!(
        propagate_tsc_frequency(&mut cmdline, 999),
        Err(TscFrequencyError::TooSmall(999))
    );
    assert_eq!(
        propagate_tsc_frequency(&mut cmdline, MIN_TSC_FREQUENCY_HZ - 1),
        Err(TscFrequencyError::OutOfRange(MIN_TSC_FREQUENCY_HZ - 1))
    );
    assert_eq!(
        propagate_tsc_frequency(&mut cmdline, MAX_TSC_FREQUENCY_HZ + 1),
        Err(TscFrequencyError::OutOfRange(MAX_TSC_FREQUENCY_HZ + 1))
    );

    propagate_tsc_frequency(&mut String::new(), MIN_TSC_FREQUENCY_HZ).unwrap();
    propagate_tsc_frequency(&mut String::new(), MAX_TSC_FREQUENCY_HZ).unwrap();
}

#[test]
fn handles_ascii_whitespace_without_adding_extra_whitespace() {
    let mut empty = String::new();
    propagate_tsc_frequency(&mut empty, TSC_FREQUENCY_HZ).unwrap();
    assert_eq!(empty, "tsc_early_khz=2500000");

    let mut trailing = "console=ttyS0 \t".to_owned();
    propagate_tsc_frequency(&mut trailing, TSC_FREQUENCY_HZ).unwrap();
    assert_eq!(trailing, "console=ttyS0 \ttsc_early_khz=2500000");

    let mut supplied = "console=ttyS0\t  tsc_early_khz=2500000\n".to_owned();
    let original = supplied.clone();
    propagate_tsc_frequency(&mut supplied, TSC_FREQUENCY_HZ).unwrap();
    assert_eq!(supplied, original);
}

#[test]
fn inserts_before_delimiter_and_ignores_tokens_after_it() {
    let mut cmdline = "console=ttyS0 \t-- tsc_early_khz=1 tsc_early_khz=malformed".to_owned();
    propagate_tsc_frequency(&mut cmdline, TSC_FREQUENCY_HZ).unwrap();
    assert_eq!(
        cmdline,
        "console=ttyS0 \ttsc_early_khz=2500000 -- \
         tsc_early_khz=1 tsc_early_khz=malformed"
    );

    let mut supplied = "tsc_early_khz=2500000 -- tsc_early_khz=1 tsc_early_khz=2".to_owned();
    let original = supplied.clone();
    propagate_tsc_frequency(&mut supplied, TSC_FREQUENCY_HZ).unwrap();
    assert_eq!(supplied, original);
}

#[test]
fn treats_hyphens_and_underscores_as_the_same_parameter_name() {
    let mut matching = "tsc-early-khz=2500000".to_owned();
    let original = matching.clone();
    propagate_tsc_frequency(&mut matching, TSC_FREQUENCY_HZ).unwrap();
    assert_eq!(matching, original);

    let mut mismatched = "tsc-early-khz=2499999".to_owned();
    assert_eq!(
        propagate_tsc_frequency(&mut mismatched, TSC_FREQUENCY_HZ),
        Err(TscFrequencyError::Mismatch {
            specified: 2_499_999,
            reported: 2_500_000,
        })
    );

    let mut duplicate = "tsc-early-khz=2500000 tsc_early_khz=2500000".to_owned();
    assert_eq!(
        propagate_tsc_frequency(&mut duplicate, TSC_FREQUENCY_HZ),
        Err(TscFrequencyError::Duplicate)
    );
}

#[test]
fn accepts_quote_stripped_decimal_frequency() {
    let mut cmdline = r#"console=ttyS0 tsc_early_khz="2500000""#.to_owned();
    let original = cmdline.clone();
    propagate_tsc_frequency(&mut cmdline, TSC_FREQUENCY_HZ).unwrap();
    assert_eq!(cmdline, original);
}

#[test]
fn parses_hexadecimal_frequency() {
    let mut matching = "tsc_early_khz=0x2625a0".to_owned();
    let original = matching.clone();
    propagate_tsc_frequency(&mut matching, TSC_FREQUENCY_HZ).unwrap();
    assert_eq!(matching, original);

    let mut mismatched = "tsc_early_khz=0X26259F".to_owned();
    assert_eq!(
        propagate_tsc_frequency(&mut mismatched, TSC_FREQUENCY_HZ),
        Err(TscFrequencyError::Mismatch {
            specified: 2_499_999,
            reported: 2_500_000,
        })
    );
}

#[test]
fn rejects_malformed_or_overflowing_linux_uint() {
    for parameter in [
        r#"tsc_early_khz="2500000"#,
        "tsc_early_khz=0x",
        "tsc_early_khz=08",
        "tsc_early_khz=-2500000",
        "tsc_early_khz=4294967296",
        "tsc_early_khz=0x100000000",
    ] {
        let mut cmdline = parameter.to_owned();
        assert!(matches!(
            propagate_tsc_frequency(&mut cmdline, TSC_FREQUENCY_HZ),
            Err(TscFrequencyError::Malformed(_))
        ));
    }
}

#[test]
fn a_refused_frequency_leaves_the_command_line() {
    for (line, hz) in [
        ("console=ttyS0", 999),
        ("tsc_early_khz=1", TSC_FREQUENCY_HZ),
        ("tsc_early_khz=1 tsc_early_khz=1", TSC_FREQUENCY_HZ),
        ("tsc_early_khz=x", TSC_FREQUENCY_HZ),
    ] {
        let mut cmdline = line.to_owned();
        propagate_tsc_frequency(&mut cmdline, hz).unwrap_err();
        assert_eq!(cmdline, line);
    }
}

#[test]
fn propagation_is_idempotent() {
    let mut cmdline = "a b -- c".to_owned();
    propagate_tsc_frequency(&mut cmdline, TSC_FREQUENCY_HZ).unwrap();
    assert_eq!(cmdline, "a b tsc_early_khz=2500000 -- c");
    let once = cmdline.clone();
    propagate_tsc_frequency(&mut cmdline, TSC_FREQUENCY_HZ).unwrap();
    assert_eq!(cmdline, once);
}

#[test]
fn a_leading_delimiter_keeps_its_place_after_the_frequency() {
    let mut cmdline = "-- c".to_owned();
    propagate_tsc_frequency(&mut cmdline, TSC_FREQUENCY_HZ).unwrap();
    assert_eq!(cmdline, "tsc_early_khz=2500000 -- c");
}

#[test]
fn linux_integers_follow_their_prefix() {
    assert_eq!(parse_linux_uint("0"), Some(0));
    assert_eq!(parse_linux_uint("017"), Some(15));
    assert_eq!(parse_linux_uint("0x1F"), Some(31));
    assert_eq!(parse_linux_uint("4294967295"), Some(u32::MAX));
    assert_eq!(parse_linux_uint("4294967296"), None);
    assert_eq!(parse_linux_uint(""), None);
}

#[test]
fn parameter_names_ignore_the_kind_of_dash() {
    assert!(linux_parameter_name_matches("tsc-early_khz", "tsc_early_khz"));
    assert!(!linux_parameter_name_matches("tsc_early_kh", "tsc_early_khz"));
    assert!(!linux_parameter_name_matches("tsc_early_mhz", "tsc_early_khz"));
}

#[test]
fn frequency_errors_name_what_was_refused() {
    assert!(TscFrequencyError::TooSmall(999).message().contains("999"));
    assert!(TscFrequencyError::Malformed("2.5".to_owned())
        .message()
        .contains("2.5"));
    let mismatch = TscFrequencyError::Mismatch {
        specified: 1,
        reported: 2500000,
    };
    assert!(mismatch.message().contains("2500000"));
}

#[test]
fn every_spelling_of_an_integer_reads_back() {
    for n in [0u32, 7, 8, 0xabcd_ef01, u32::MAX] {
        for text in [
            format!("{n}"),
            format!("0x{n:x}"),
            format!("0X{n:X}"),
            format!("0{n:o}"),
        ] {
            for value in [
                text.clone(),
                format!("+{text}"),
                format!("\"{text}\""),
                format!("\"+{text}\""),
            ] {
                assert_eq!(parse_linux_uint(&value), Some(n), "{value}");
            }
        }
    }
}

#[test]
fn the_parameter_goes_before_a_delimiter_behind_wide_characters() {
    let mut cmdline = "caf\u{e9}=\u{20ac} -- init".to_owned();
    propagate_tsc_frequency(&mut cmdline, TSC_FREQUENCY_HZ).unwrap();
    assert_eq!(cmdline, "caf\u{e9}=\u{20ac} tsc_early_khz=2500000 -- init");
}
