use libra_wallet::error::RecoveryError;
use libra_wallet::io_utils::{
    format_recovery_line, parse_decimal, parse_recovery_line, trim_ascii, u64_to_decimal,
};

#[test]
fn decimal_rendering_is_exact() {
    assert_eq!(u64_to_decimal(0), b"0".to_vec());
    assert_eq!(u64_to_decimal(7), b"7".to_vec());
    assert_eq!(u64_to_decimal(907), b"907".to_vec());
    assert_eq!(u64_to_decimal(u64::MAX), b"18446744073709551615".to_vec());
}

#[test]
fn decimal_parsing_is_exact() {
    assert_eq!(parse_decimal(&b"0".to_vec()), Some(0));
    assert_eq!(parse_decimal(&b"907".to_vec()), Some(907));
    assert_eq!(parse_decimal(&b"18446744073709551615".to_vec()), Some(u64::MAX));
    assert_eq!(parse_decimal(&b"18446744073709551616".to_vec()), None);
    assert_eq!(parse_decimal(&b"".to_vec()), None);
    assert_eq!(parse_decimal(&b"12a".to_vec()), None);
    assert_eq!(parse_decimal(&b" 1".to_vec()), None);
}

#[test]
fn trim_removes_surrounding_whitespace() {
    assert_eq!(trim_ascii(&b" \t42\n".to_vec()), b"42".to_vec());
    assert_eq!(trim_ascii(&b"42".to_vec()), b"42".to_vec());
    assert_eq!(trim_ascii(&b" \r\n ".to_vec()), b"".to_vec());
    assert_eq!(trim_ascii(&b"4 2".to_vec()), b"4 2".to_vec());
}

#[test]
fn recovery_line_is_the_marker_and_the_count() {
    assert_eq!(format_recovery_line(5), b"THERE IS NO SEED;5".to_vec());
    assert_eq!(format_recovery_line(0), b"THERE IS NO SEED;0".to_vec());
    assert_eq!(format_recovery_line(123), b"THERE IS NO SEED;123".to_vec());
}

#[test]
fn recovery_line_round_trips() {
    let mut line = format_recovery_line(42);
    line.push(b'\n');
    assert_eq!(parse_recovery_line(&line), Ok(42));
}

#[test]
fn recovery_line_parse_rejects_bad_shapes() {
    // No delimiter at all.
    assert_eq!(
        parse_recovery_line(&b"THERE IS NO SEED 5".to_vec()),
        Err(RecoveryError::MalformedEntry)
    );
    // Two delimiters.
    assert_eq!(
        parse_recovery_line(&b"THERE IS NO SEED;5;6".to_vec()),
        Err(RecoveryError::MalformedEntry)
    );
    // A count that is not a number.
    assert_eq!(
        parse_recovery_line(&b"THERE IS NO SEED;five".to_vec()),
        Err(RecoveryError::InvalidCount)
    );
    // A count too large for 64 bits.
    assert_eq!(
        parse_recovery_line(&b"THERE IS NO SEED;18446744073709551616".to_vec()),
        Err(RecoveryError::InvalidCount)
    );
    // An empty count.
    assert_eq!(
        parse_recovery_line(&b"THERE IS NO SEED;\n".to_vec()),
        Err(RecoveryError::InvalidCount)
    );
}

#[test]
fn recovery_line_parse_ignores_the_marker_part() {
    // The first part is not interpreted: no seed is stored in it.
    assert_eq!(parse_recovery_line(&b"anything at all;7".to_vec()), Ok(7));
    assert_eq!(parse_recovery_line(&b";7".to_vec()), Ok(7));
}
