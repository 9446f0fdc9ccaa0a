use bsc_sniper::cli::{parse_platform, parse_token_address};
use bsc_sniper::funds::Platform;

#[test]
fn token_with_or_without_prefix() {
    let a = parse_token_address("  0x5c952063c7fc8610ffdb798152d69f0b9550762b\n").unwrap();
    let b = parse_token_address("5C952063C7FC8610FFDB798152D69F0B9550762B").unwrap();
    assert_eq!(a, b);
    assert_eq!(a.bytes[0], 0x5c);
    assert_eq!(a.bytes[19], 0x2b);
}

#[test]
fn bad_tokens_are_refused() {
    assert!(parse_token_address("0x1234").is_err());
    assert!(parse_token_address("").is_err());
    assert!(parse_token_address("0xzz52063c7fc8610ffdb798152d69f0b9550762b").is_err());
}

#[test]
fn platforms() {
    assert_eq!(parse_platform("flap"), Some(Platform::Flap));
    assert_eq!(parse_platform("fourmeme"), Some(Platform::FourMeme));
    assert_eq!(parse_platform("Flap"), None);
    assert_eq!(parse_platform("four"), None);
}
