use ralertsinua::status::{AlertStatus, AlertStatusCodec, DecodeError};

const DEMO: &str = "ANNAANNANNNPANANANNNNAANNNN";

#[test]
fn decode_demo_string() {
    let s = AlertStatusCodec::decode(DEMO).unwrap();
    assert_eq!(s.len(), 27);
    assert_eq!(s.as_str(), DEMO);
    assert!(matches!(s.status_at(0), AlertStatus::A));
    assert!(matches!(s.status_at(1), AlertStatus::N));
    assert!(matches!(s.status_at(2), AlertStatus::N));
    assert!(matches!(s.status_at(3), AlertStatus::A));
    assert!(matches!(s.status_at(4), AlertStatus::A));
    assert!(matches!(s.status_at(11), AlertStatus::P));
    for (i, c) in DEMO.chars().enumerate() {
        let expected = match c {
            'A' => AlertStatus::A,
            'P' => AlertStatus::P,
            _ => AlertStatus::N,
        };
        assert_eq!(s.status_at(i), expected);
    }
}

#[test]
fn decode_demo_string_short_variant_fails() {
    let short: String = DEMO.chars().take(26).collect();
    let e = AlertStatusCodec::decode(&short).unwrap_err();
    assert_eq!(e, DecodeError::WrongLength { expected: 27, actual: 26 });
}

#[test]
fn decode_demo_string_long_variant_fails() {
    let mut long = String::from(DEMO);
    long.push('N');
    let e = AlertStatusCodec::decode(&long).unwrap_err();
    assert_eq!(e, DecodeError::WrongLength { expected: 27, actual: 28 });
}

#[test]
fn decode_trims_surrounding_quotes() {
    let quoted = format!("\"{}\"", DEMO);
    let s = AlertStatusCodec::decode(&quoted).unwrap();
    assert_eq!(s.as_str(), DEMO);
}

#[test]
fn decode_rejects_wrong_length_regardless_of_content() {
    assert_eq!(
        AlertStatusCodec::decode("").unwrap_err(),
        DecodeError::WrongLength { expected: 27, actual: 0 }
    );
    assert_eq!(
        AlertStatusCodec::decode("\"\"").unwrap_err(),
        DecodeError::WrongLength { expected: 27, actual: 0 }
    );
    assert_eq!(
        AlertStatusCodec::decode("AAA").unwrap_err(),
        DecodeError::WrongLength { expected: 27, actual: 3 }
    );
    let fifty: String = std::iter::repeat('A').take(50).collect();
    assert_eq!(
        AlertStatusCodec::decode(&fifty).unwrap_err(),
        DecodeError::WrongLength { expected: 27, actual: 50 }
    );
}

#[test]
fn decode_coerces_unknown_codes_to_none() {
    let raw = "AXNAANNANNNPANANANNNNAANNN?";
    let s = AlertStatusCodec::decode(raw).unwrap();
    assert!(matches!(s.status_at(1), AlertStatus::N));
    assert!(matches!(s.status_at(26), AlertStatus::N));
    assert_eq!(s.as_str(), "ANNAANNANNNPANANANNNNAANNNN");
}

#[test]
fn decode_multibyte_characters_count_as_single_codes() {
    let raw = "É NNAANNANNNPANANANNNNAANNN";
    assert_eq!(raw.chars().count(), 27);
    let s = AlertStatusCodec::decode(raw).unwrap();
    assert!(matches!(s.status_at(0), AlertStatus::N));
    assert!(matches!(s.status_at(1), AlertStatus::N));
    assert!(matches!(s.status_at(4), AlertStatus::A));
}

#[test]
fn status_from_char() {
    assert!(matches!(AlertStatus::from('A'), AlertStatus::A));
    assert!(matches!(AlertStatus::from('P'), AlertStatus::P));
    assert!(matches!(AlertStatus::from('N'), AlertStatus::N));
    assert!(matches!(AlertStatus::from('x'), AlertStatus::N));
    assert!(matches!(AlertStatus::from('a'), AlertStatus::N));
}

#[test]
fn status_default_is_none() {
    assert!(matches!(AlertStatus::default(), AlertStatus::N));
}
