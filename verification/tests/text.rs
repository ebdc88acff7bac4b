use image_manager::config::ConfigError;
use image_manager::config::ConfigSvc;
use image_manager::config::DEFAULT_SCREENSAVER_INTERVAL;
use image_manager::config::SCREENSAVER_INTERVAL_KEY;
use image_manager::text::format_decimal;
use image_manager::text::parse_decimal;
use image_manager::text::str_eq;
use image_manager::text::FromText;

#[test]
fn decimal_numbers_are_read_as_the_standard_library_reads_them() {
    let texts = [
        "0", "7", "007", "+7", "120", "65535", "65536", "18446744073709551615",
        "18446744073709551616", "99999999999999999999999", "", "+", "-", "-1", "-0", "++1", "+-1",
        " 1", "1 ", "1_000", "1.5", "0x10", "１２", "12a", "a12", "٣",
    ];
    for text in texts {
        assert_eq!(parse_decimal(text, u64::MAX), text.parse::<u64>().ok(), "{:?}", text);
        assert_eq!(
            parse_decimal(text, 65535).map(|v| v as u16),
            text.parse::<u16>().ok(),
            "{:?}",
            text
        );
        assert_eq!(u16::from_text(text), text.parse::<u16>().ok(), "{:?}", text);
        assert_eq!(u64::from_text(text), text.parse::<u64>().ok(), "{:?}", text);
        assert_eq!(String::from_text(text), Some(text.to_owned()));
    }
}

#[test]
fn decimal_numbers_respect_their_bound() {
    assert_eq!(parse_decimal("5", 5), Some(5));
    assert_eq!(parse_decimal("6", 5), None);
    assert_eq!(parse_decimal("0", 0), Some(0));
    assert_eq!(parse_decimal("1", 0), None);
    assert_eq!(parse_decimal("000000000000000000000000000001", 1), Some(1));
}

#[test]
fn decimal_numbers_are_written_without_sign_or_leading_zeros() {
    assert_eq!(format_decimal(0), "0");
    assert_eq!(format_decimal(9), "9");
    assert_eq!(format_decimal(10), "10");
    assert_eq!(format_decimal(120), "120");
    assert_eq!(format_decimal(1234567890), "1234567890");
    assert_eq!(format_decimal(u64::MAX), "18446744073709551615");
}

#[test]
fn written_numbers_are_read_back() {
    for n in [0u64, 1, 9, 10, 99, 100, 120, 65535, 65536, 1 << 40, u64::MAX - 1, u64::MAX] {
        assert_eq!(format_decimal(n), n.to_string());
        assert_eq!(parse_decimal(&format_decimal(n), u64::MAX), Some(n));
    }
}

#[test]
fn texts_are_compared_character_by_character() {
    assert!(str_eq("", ""));
    assert!(str_eq("RGB320x240", "RGB320x240"));
    assert!(!str_eq("RGB320x240", "RGB320x24"));
    assert!(!str_eq("RGB320x240", "rgb320x240"));
    assert!(!str_eq("a", ""));
    assert!(str_eq("größe", "größe"));
    assert!(!str_eq("größe", "grösse"));
}

#[test]
fn stored_interval_is_read_in_seconds() {
    assert_eq!(SCREENSAVER_INTERVAL_KEY, "screensaver.interval");
    assert_eq!(DEFAULT_SCREENSAVER_INTERVAL, "120");
    assert_eq!(ConfigSvc::get_screensaver_interval(None), Ok(120));
    assert_eq!(ConfigSvc::get_screensaver_interval(Some("45".to_owned())), Ok(45));
    assert_eq!(ConfigSvc::get_screensaver_interval(Some("0".to_owned())), Ok(0));
    assert_eq!(
        ConfigSvc::get_screensaver_interval(Some("18446744073709551615".to_owned())),
        Ok(u64::MAX)
    );
}

#[test]
fn unparsable_interval_is_an_error() {
    for text in ["", "soon", "-5", "1.5", "18446744073709551616", " 120"] {
        assert_eq!(
            ConfigSvc::get_screensaver_interval(Some(text.to_owned())),
            Err(ConfigError::Unparsable)
        );
    }
}

#[test]
fn interval_is_stored_as_decimal_text() {
    assert_eq!(ConfigSvc::set_screensaver_interval(120), "120");
    assert_eq!(ConfigSvc::set_screensaver_interval(1), "1");
    for seconds in [1u64, 30, 120, 3600, u64::MAX] {
        let stored = ConfigSvc::set_screensaver_interval(seconds);
        assert_eq!(ConfigSvc::get_screensaver_interval(Some(stored)), Ok(seconds));
    }
}

#[test]
fn setting_falls_back_to_its_default() {
    assert_eq!(ConfigSvc::get_config_value(Some("30".to_owned()), "120"), "30");
    assert_eq!(ConfigSvc::get_config_value(Some(String::new()), "120"), "");
    assert_eq!(ConfigSvc::get_config_value(None, "120"), "120");
}
