//! Entity-id codec behavior: the base-62 round trip and its failure modes.

use mini_oidc::codec::{EntityId, GenericIdError, ID_LIMIT, ID_MIN};

#[test]
fn encode_is_eight_base62_chars() {
    let id = EntityId::from_raw(ID_MIN).unwrap();
    let s = id.encode();
    assert_eq!(s.len(), 8);
    assert_eq!(s, "10000000");
    let top = EntityId::from_raw(ID_LIMIT - 1).unwrap();
    assert_eq!(top.encode(), "zzzzzzzz");
}

#[test]
fn round_trip_restores_the_value() {
    for raw in [
        ID_MIN,
        ID_MIN + 1,
        ID_MIN + 61,
        123_456_789_012_345,
        ID_LIMIT - 1,
    ] {
        let id = EntityId::from_raw(raw).unwrap();
        let parsed = EntityId::parse(&id.encode()).unwrap();
        assert_eq!(parsed, id);
        assert_eq!(parsed.raw(), raw);
    }
}

#[test]
fn encoding_matches_the_reference_base62_alphabet() {
    for raw in [ID_MIN, ID_MIN + 2024, 200_000_000_000_000, ID_LIMIT - 1] {
        let id = EntityId::from_raw(raw).unwrap();
        assert_eq!(id.encode(), base62::encode(raw));
    }
}

#[test]
fn wrong_length_is_rejected() {
    assert!(matches!(
        EntityId::parse("1234567"),
        Err(GenericIdError::WrongLength(7))
    ));
    assert!(matches!(
        EntityId::parse("123456789"),
        Err(GenericIdError::WrongLength(9))
    ));
    assert!(matches!(
        EntityId::parse(""),
        Err(GenericIdError::WrongLength(0))
    ));
}

#[test]
fn out_of_range_is_rejected() {
    assert!(matches!(
        EntityId::parse("00000001"),
        Err(GenericIdError::OutOfBounds)
    ));
    assert!(matches!(
        EntityId::parse("0zzzzzzz"),
        Err(GenericIdError::OutOfBounds)
    ));
}

#[test]
fn invalid_characters_are_rejected() {
    assert!(matches!(
        EntityId::parse("1000000!"),
        Err(GenericIdError::Decode)
    ));
    assert!(matches!(
        EntityId::parse("10+00000"),
        Err(GenericIdError::Decode)
    ));
    assert!(matches!(
        EntityId::parse("1000000\u{e9}"),
        Err(GenericIdError::Decode)
    ));
}

#[test]
fn from_raw_enforces_the_interval() {
    assert!(matches!(
        EntityId::from_raw(ID_MIN - 1),
        Err(GenericIdError::OutOfBounds)
    ));
    assert!(matches!(
        EntityId::from_raw(ID_LIMIT),
        Err(GenericIdError::OutOfBounds)
    ));
    assert!(EntityId::from_raw(ID_MIN).is_ok());
}

#[test]
fn generated_ids_are_in_range_and_round_trip() {
    for _ in 0..16 {
        let id = EntityId::generate();
        assert!((ID_MIN..ID_LIMIT).contains(&id.raw()));
        assert_eq!(EntityId::parse(&id.encode()).unwrap(), id);
    }
}
