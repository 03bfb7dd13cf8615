use ipc_agent::amount::TokenAmount;

#[test]
fn decimal_roundtrip_small() {
    let x = TokenAmount::decode("42").unwrap();
    let text = x.encode();
    assert_eq!(text, "42");
    let y = TokenAmount::decode(&text).unwrap();
    assert_eq!(x, y);
}

#[test]
fn decimal_roundtrip_zero() {
    let x = TokenAmount::decode("0").unwrap();
    assert_eq!(x.encode(), "0");
    assert_eq!(x.to_u64(), Some(0));
}

#[test]
fn decimal_roundtrip_beyond_machine_words() {
    // one more than the largest 128-bit value: far beyond any machine word
    let text = "340282366920938463463374607431768211456";
    let x = TokenAmount::decode(text).unwrap();
    assert_eq!(x.encode(), text);
    let y = TokenAmount::decode(&x.encode()).unwrap();
    assert_eq!(x, y);
    // no machine-word representation exists
    assert_eq!(x.to_u64(), None);
}

#[test]
fn decode_rejects_empty() {
    assert!(TokenAmount::decode("").is_none());
}

#[test]
fn decode_rejects_leading_zero() {
    assert!(TokenAmount::decode("042").is_none());
    assert!(TokenAmount::decode("00").is_none());
}

#[test]
fn decode_rejects_non_digits() {
    assert!(TokenAmount::decode("12a3").is_none());
    assert!(TokenAmount::decode("-5").is_none());
    assert!(TokenAmount::decode(" 5").is_none());
}

#[test]
fn to_u64_at_the_boundary() {
    let max = TokenAmount::decode("18446744073709551615").unwrap();
    assert_eq!(max.to_u64(), Some(u64::MAX));
    let above = TokenAmount::decode("18446744073709551616").unwrap();
    assert_eq!(above.to_u64(), None);
}
