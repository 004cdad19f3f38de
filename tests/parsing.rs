use netcapture::{
    format_u64, parse_args, parse_u64, usage_message, ArgKey, CaptureRequest, UsageError,
};

fn toks(items: &[&str]) -> Vec<String> {
    items.iter().map(|s| s.to_string()).collect()
}

#[test]
fn scenario_parse_three_tokens() {
    let r = parse_args(&toks(&["duration=5", "output=C:\\trace.etl", "maxsize=512"]));
    assert_eq!(
        r,
        Ok(CaptureRequest {
            duration: 5,
            output: "C:\\trace.etl".to_string(),
            max_size: "512".to_string(),
        })
    );
}

#[test]
fn round_trip_of_request_tokens() {
    let req = CaptureRequest {
        duration: 18446744073709551615,
        output: "out=file.etl".to_string(),
        max_size: "".to_string(),
    };
    let tokens = vec![
        format!("duration={}", format_u64(req.duration)),
        format!("output={}", req.output),
        format!("maxsize={}", req.max_size),
    ];
    assert_eq!(parse_args(&tokens), Ok(req));
}

#[test]
fn every_order_parses_the_same() {
    let base = ["duration=7", "output=a.etl", "maxsize=64"];
    let expected = parse_args(&toks(&base));
    assert!(expected.is_ok());
    let orders = [[0, 1, 2], [0, 2, 1], [1, 0, 2], [1, 2, 0], [2, 0, 1], [2, 1, 0]];
    for o in orders.iter() {
        let t = toks(&[base[o[0]], base[o[1]], base[o[2]]]);
        assert_eq!(parse_args(&t), expected);
    }
}

#[test]
fn missing_each_key() {
    assert_eq!(
        parse_args(&toks(&["output=a", "maxsize=1"])),
        Err(UsageError::Missing(ArgKey::Duration))
    );
    assert_eq!(
        parse_args(&toks(&["duration=1", "maxsize=1"])),
        Err(UsageError::Missing(ArgKey::Output))
    );
    assert_eq!(
        parse_args(&toks(&["duration=1", "output=a"])),
        Err(UsageError::Missing(ArgKey::MaxSize))
    );
    assert_eq!(parse_args(&toks(&[])), Err(UsageError::Missing(ArgKey::Duration)));
}

#[test]
fn bad_durations_are_not_missing_keys() {
    for bad in ["duration=-5", "duration=five", "duration=", "duration=1.5", "duration= 5",
        "duration=18446744073709551616", "duration=+"] {
        let r = parse_args(&toks(&[bad, "output=a", "maxsize=1"]));
        assert_eq!(r, Err(UsageError::InvalidDuration), "{}", bad);
    }
    // A bad duration is reported even when another key is missing.
    assert_eq!(parse_args(&toks(&["duration=x"])), Err(UsageError::InvalidDuration));
}

#[test]
fn unknown_and_partial_keys_are_ignored() {
    let r = parse_args(&toks(&[
        "verbose", "durationx=9", "Duration=9", "duration=3", "output=o", "maxsize=2", "x=y",
    ]));
    assert_eq!(
        r,
        Ok(CaptureRequest { duration: 3, output: "o".to_string(), max_size: "2".to_string() })
    );
    assert_eq!(
        parse_args(&toks(&["duration", "output=o", "maxsize=2"])),
        Err(UsageError::Missing(ArgKey::Duration))
    );
}

#[test]
fn last_token_of_a_key_wins() {
    let r = parse_args(&toks(&["duration=1", "output=a", "maxsize=1", "duration=2", "output=b"]));
    assert_eq!(
        r,
        Ok(CaptureRequest { duration: 2, output: "b".to_string(), max_size: "1".to_string() })
    );
}

#[test]
fn decimal_parsing() {
    assert_eq!(parse_u64("0"), Some(0));
    assert_eq!(parse_u64("+42"), Some(42));
    assert_eq!(parse_u64("007"), Some(7));
    assert_eq!(parse_u64("18446744073709551615"), Some(u64::MAX));
    assert_eq!(parse_u64("18446744073709551616"), None);
    assert_eq!(parse_u64("99999999999999999999"), None);
    assert_eq!(parse_u64(""), None);
    assert_eq!(parse_u64("-0"), None);
    assert_eq!(parse_u64("1a"), None);
    assert_eq!(parse_u64("١"), None);
}

#[test]
fn decimal_formatting() {
    assert_eq!(format_u64(0), "0");
    assert_eq!(format_u64(9), "9");
    assert_eq!(format_u64(10), "10");
    assert_eq!(format_u64(512), "512");
    assert_eq!(format_u64(u64::MAX), "18446744073709551615");
}

#[test]
fn usage_line_names_the_keys() {
    assert_eq!(
        usage_message("capture"),
        "Usage: capture duration=<duration in seconds> output=<path> maxsize=<maximum size in MB>"
    );
    assert_eq!(UsageError::Missing(ArgKey::Output).describe(), "missing argument output=");
    assert_eq!(
        UsageError::InvalidDuration.describe(),
        "duration is not a non-negative integer"
    );
}
