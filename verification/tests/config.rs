use bot_core::config::{Config, ConfigError};
use bot_core::permissions::{parse_decimal, PermissionMask, DEFINED_PERMISSION_BITS};
use bot_core::startup::{config_event, step, Action, Event, Phase};

fn text(s: &str) -> Option<String> {
    Some(s.to_string())
}

#[test]
fn present_settings_give_the_configuration() {
    let config = Config::assemble(text("T"), text("!"), None).unwrap();
    assert_eq!(config.token(), "T");
    assert_eq!(config.prefix(), "!");
    assert_eq!(config.permissions().bits, 0);
}

#[test]
fn a_loaded_configuration_lets_the_startup_go_on() {
    let outcome = Config::assemble(text("T"), text("!"), None);
    let event = config_event(&outcome);
    assert_eq!(event, Event::ConfigLoaded);
    assert_eq!(step(Phase::Unconfigured, event), (Phase::Configured, Action::Authenticate));
}

#[test]
fn a_missing_token_fails_the_assembly() {
    let outcome = Config::assemble(None, text("!"), text("8"));
    assert_eq!(outcome.err(), Some(ConfigError::MissingToken));
}

#[test]
fn a_missing_token_ends_the_startup_with_status_one() {
    let outcome = Config::assemble(None, text("!"), None);
    let event = config_event(&outcome);
    assert_eq!(event, Event::ConfigFailed(ConfigError::MissingToken));
    assert_eq!(
        step(Phase::Unconfigured, event),
        (Phase::Terminated { exit_code: 1 }, Action::Exit { code: 1 })
    );
}

#[test]
fn a_missing_prefix_fails_the_assembly() {
    let outcome = Config::assemble(text("T"), None, text("8"));
    assert_eq!(outcome.err(), Some(ConfigError::MissingPrefix));
}

#[test]
fn a_missing_token_is_reported_before_a_missing_prefix() {
    let outcome = Config::assemble(None, None, None);
    assert_eq!(outcome.err(), Some(ConfigError::MissingToken));
}

#[test]
fn settings_that_are_set_but_empty_are_kept() {
    let config = Config::assemble(text(""), text(""), text("")).unwrap();
    assert_eq!(config.token(), "");
    assert_eq!(config.prefix(), "");
    assert_eq!(config.permissions().bits, 0);
}

#[test]
fn the_permissions_setting_never_fails_the_assembly() {
    for perms in [None, text("8"), text("notanumber"), text(""), text("-1")] {
        let config = Config::assemble(text("secret"), text("~"), perms).unwrap();
        assert_eq!(config.token(), "secret");
        assert_eq!(config.prefix(), "~");
    }
}

#[test]
fn the_configuration_holds_the_parsed_mask() {
    let config = Config::assemble(text("T"), text("!"), text("2146958847")).unwrap();
    assert_eq!(config.permissions().bits, 2146958847);
    let config = Config::assemble(text("T"), text("!"), text("512")).unwrap();
    assert_eq!(config.permissions().bits, 512);
}

#[test]
fn error_messages_name_the_missing_setting() {
    assert_eq!(ConfigError::MissingToken.message(), "Expected a token in the environment");
    assert_eq!(ConfigError::MissingPrefix.message(), "Expected a bot prefix in the environment");
}

#[test]
fn eight_decodes_to_bit_value_eight() {
    assert_eq!(PermissionMask::decode(Some("8")).bits, 8);
}

#[test]
fn text_that_is_no_number_decodes_to_the_empty_mask() {
    assert_eq!(PermissionMask::decode(Some("notanumber")).bits, 0);
    assert_eq!(PermissionMask::decode(Some("notanumber")), PermissionMask::empty());
}

#[test]
fn an_absent_setting_decodes_to_the_empty_mask() {
    assert_eq!(PermissionMask::decode(None).bits, 0);
}

#[test]
fn decimal_text_parses_to_its_value() {
    assert_eq!(parse_decimal("0"), Some(0));
    assert_eq!(parse_decimal("8"), Some(8));
    assert_eq!(parse_decimal("10"), Some(10));
    assert_eq!(parse_decimal("007"), Some(7));
    assert_eq!(parse_decimal("+42"), Some(42));
    assert_eq!(parse_decimal("1234567890"), Some(1234567890));
}

#[test]
fn the_largest_value_parses_and_the_next_does_not() {
    assert_eq!(parse_decimal("18446744073709551615"), Some(u64::MAX));
    assert_eq!(parse_decimal("18446744073709551616"), None);
    assert_eq!(parse_decimal("18446744073709551620"), None);
    assert_eq!(parse_decimal("99999999999999999999"), None);
    assert_eq!(parse_decimal("184467440737095516150"), None);
    assert_eq!(parse_decimal("000000000000000000000018446744073709551615"), Some(u64::MAX));
}

#[test]
fn text_that_is_no_decimal_parses_to_nothing() {
    for s in ["", "+", "-", "-5", "++5", "+-5", "5+", "8 ", " 8", "0x10", "1_000", "1.5", "\u{661}\u{662}", "eight"] {
        assert_eq!(parse_decimal(s), None, "{:?}", s);
    }
}

#[test]
fn parsing_agrees_with_the_standard_library() {
    let samples = [
        "", "0", "1", "9", "+0", "+9", "-0", "00", "+007", "42", "4 2", "18446744073709551615",
        "18446744073709551616", "+18446744073709551615", "28446744073709551615", "a", "9a", "a9",
        "+", "++1", "\u{ff15}", "5\n", "\t5", "12345678901234567890", "123456789012345678901",
    ];
    for s in samples {
        assert_eq!(parse_decimal(s), s.parse::<u64>().ok(), "{:?}", s);
    }
}

#[test]
fn masks_are_built_from_bits() {
    assert_eq!(PermissionMask::empty().bits, 0);
    assert_eq!(PermissionMask::from_bits(0b1010).bits, 0b1010);
    assert_eq!(PermissionMask::from_bits(u64::MAX).bits, u64::MAX);
}

#[test]
fn the_recognised_part_keeps_defined_bits_only() {
    assert_eq!(DEFINED_PERMISSION_BITS, 0x7FF7_FDFF);
    assert_eq!(PermissionMask::from_bits(8).recognised().bits, 8);
    assert_eq!(PermissionMask::from_bits(0).recognised().bits, 0);
    assert_eq!(PermissionMask::from_bits(u64::MAX).recognised().bits, 0x7FF7_FDFF);
    assert_eq!(PermissionMask::from_bits(1 << 9).recognised().bits, 0);
    assert_eq!(PermissionMask::from_bits(1 << 19).recognised().bits, 0);
    assert_eq!(PermissionMask::from_bits(1 << 31).recognised().bits, 0);
    assert_eq!(PermissionMask::from_bits((1 << 30) | (1 << 40) | 1).recognised().bits, (1 << 30) | 1);
}

#[test]
fn every_defined_bit_is_recognised_alone() {
    for bit in 0..64u32 {
        let raw = 1u64 << bit;
        let expected = if bit <= 30 && bit != 9 && bit != 19 { raw } else { 0 };
        assert_eq!(PermissionMask::from_bits(raw).recognised().bits, expected, "bit {}", bit);
    }
}
