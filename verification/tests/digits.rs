use rpc_gateway::digits::{format_digits, format_padded_digits, parse_unsigned_exec, IntParseError};
use rpc_gateway::settings::{parse_u64_exec, RawChain, RawSettingsError, RawTargetEndpoint, SettingValue};

fn chars(s: &str) -> Vec<char> {
    s.chars().collect()
}

#[test]
fn decimal_numbers_parse_like_std() {
    for s in ["0", "42", "+7", "18446744073709551615", "", "-1", "+", "12a", "18446744073709551616"] {
        let ours = parse_u64_exec(s);
        let std_result = s.parse::<u64>();
        match (ours, std_result) {
            (Ok(a), Ok(b)) => assert_eq!(a, b),
            (Err(e), Err(_)) => {
                let expected = if s.is_empty() {
                    IntParseError::Empty
                } else if s == "18446744073709551616" {
                    IntParseError::PosOverflow
                } else {
                    IntParseError::InvalidDigit
                };
                assert_eq!(e, expected, "{s}");
            }
            (a, b) => panic!("{s}: {a:?} vs {b:?}"),
        }
    }
}

#[test]
fn radix_parsing() {
    assert_eq!(parse_unsigned_exec(&chars("ff"), 16, u128::MAX), Ok(255));
    assert_eq!(parse_unsigned_exec(&chars("FF"), 16, 255), Ok(255));
    assert_eq!(parse_unsigned_exec(&chars("100"), 16, 255), Err(IntParseError::PosOverflow));
    assert_eq!(parse_unsigned_exec(&chars("g"), 16, 255), Err(IntParseError::InvalidDigit));
}

#[test]
fn formatting() {
    assert_eq!(format_digits(0, 10), chars("0"));
    assert_eq!(format_digits(8453, 16), chars("2105"));
    assert_eq!(format_digits(u128::MAX, 16), chars(&format!("{:x}", u128::MAX)));
    assert_eq!(format_padded_digits(255, 16, 4), chars("00ff"));
    assert_eq!(format_padded_digits(255, 10, 0), chars(""));
}

/// A value as the config crate reads a string from a settings file.
fn text(s: &str) -> SettingValue {
    SettingValue { text: Some(s.to_string()), number: s.parse().ok(), nil: false }
}

fn table(entries: &[(&str, SettingValue)]) -> Vec<(String, SettingValue)> {
    entries.iter().map(|(k, v)| (k.to_string(), v.clone())).collect()
}

#[test]
fn chain_tables() {
    assert_eq!(
        RawChain::from_table(&table(&[("chain_id", text("1")), ("block_time", text("12"))])).unwrap(),
        RawChain { chain_id: 1, block_time: Some(12) }
    );
    assert_eq!(
        RawChain::from_table(&table(&[("chain_id", text("5"))])).unwrap(),
        RawChain { chain_id: 5, block_time: None }
    );
    assert!(matches!(
        RawChain::from_table(&table(&[("block_time", text("12"))])),
        Err(RawSettingsError::MissingField)
    ));
    assert!(matches!(RawChain::from_table(&table(&[("chain_id", text("x"))])), Err(RawSettingsError::NotANumber)));
    let nil = SettingValue { text: None, number: None, nil: true };
    assert_eq!(
        RawChain::from_table(&table(&[("chain_id", text("5")), ("block_time", nil.clone())])).unwrap(),
        RawChain { chain_id: 5, block_time: None }
    );
    assert!(matches!(RawChain::from_table(&table(&[("chain_id", nil)])), Err(RawSettingsError::NotANumber)));
}

#[test]
fn endpoint_tables() {
    assert_eq!(
        RawTargetEndpoint::from_table(&table(&[("name", text("a")), ("chain_id", text("1")), ("url", text("http://x"))]))
            .unwrap(),
        RawTargetEndpoint { name: "a".to_string(), chain_id: 1, url: "http://x".to_string() }
    );
    assert!(matches!(
        RawTargetEndpoint::from_table(&table(&[("name", text("a")), ("chain_id", text("1"))])),
        Err(RawSettingsError::MissingField)
    ));
    let array = SettingValue { text: None, number: None, nil: false };
    assert!(matches!(
        RawTargetEndpoint::from_table(&table(&[("name", array), ("chain_id", text("1")), ("url", text("http://x"))])),
        Err(RawSettingsError::NotText)
    ));
}
