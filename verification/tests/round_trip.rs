use field_override::codec::{DecodeError, TokenDecoder, TokenEncoder};
use field_override::container::{TypeWithNonDeserializableField, TypeWithOptionalField};
use field_override::overrides::{DeserializeWith, SerializeWith, TypeWithoutDeserialize};
use field_override::token::Token;

#[test]
fn it_works() {
}

#[test]
fn entity_encodes_to_one_string_token() {
    let e = TypeWithoutDeserialize::new("payload".to_string());
    let mut enc = TokenEncoder::new();
    assert!(e.serialize_with(&mut enc).is_ok());
    let toks = enc.into_tokens();
    assert_eq!(toks, vec![Token::Str("payload".to_string())]);
}

#[test]
fn entity_round_trip() {
    let e = TypeWithoutDeserialize::new("some opaque payload".to_string());
    let mut enc = TokenEncoder::new();
    assert!(e.serialize_with(&mut enc).is_ok());
    let mut de = TokenDecoder::new(enc.into_tokens());
    let back = TypeWithoutDeserialize::deserialize_with(&mut de)
        .expect("decoding an encoded entity succeeds");
    assert_eq!(back.value, "some opaque payload");
}

#[test]
fn optional_absent_round_trip() {
    let absent: Option<TypeWithoutDeserialize> = None;
    let mut enc = TokenEncoder::new();
    assert!(absent.serialize_with(&mut enc).is_ok());
    let toks = enc.into_tokens();
    assert_eq!(toks, vec![Token::Unit]);
    let mut de = TokenDecoder::new(toks);
    let back = Option::<TypeWithoutDeserialize>::deserialize_with(&mut de)
        .expect("decoding an encoded absent value succeeds");
    assert!(back.is_none());
}

#[test]
fn optional_present_round_trip() {
    let present = Some(TypeWithoutDeserialize::new("inner".to_string()));
    let mut enc = TokenEncoder::new();
    assert!(present.serialize_with(&mut enc).is_ok());
    let toks = enc.into_tokens();
    assert_eq!(toks, vec![Token::Str("inner".to_string())]);
    let mut de = TokenDecoder::new(toks);
    let back = Option::<TypeWithoutDeserialize>::deserialize_with(&mut de)
        .expect("decoding an encoded present value succeeds");
    assert_eq!(back.expect("the value is present").value, "inner");
}

#[test]
fn entity_decode_rejects_non_string_token() {
    let mut de = TokenDecoder::new(vec![Token::U64(7)]);
    let r = TypeWithoutDeserialize::deserialize_with(&mut de);
    assert_eq!(r.unwrap_err(), DecodeError::ExpectedString);
}

#[test]
fn entity_decode_rejects_unit_token() {
    let mut de = TokenDecoder::new(vec![Token::Unit]);
    let r = TypeWithoutDeserialize::deserialize_with(&mut de);
    assert_eq!(r.unwrap_err(), DecodeError::ExpectedString);
}

#[test]
fn entity_decode_rejects_empty_stream() {
    let mut de = TokenDecoder::new(Vec::new());
    let r = TypeWithoutDeserialize::deserialize_with(&mut de);
    assert_eq!(r.unwrap_err(), DecodeError::EndOfInput);
}

#[test]
fn optional_decode_propagates_nested_error_unmasked() {
    let mut de = TokenDecoder::new(vec![Token::U64(7)]);
    let nested = TypeWithoutDeserialize::deserialize_with(&mut de).unwrap_err();
    let mut de = TokenDecoder::new(vec![Token::U64(7)]);
    let adapted = Option::<TypeWithoutDeserialize>::deserialize_with(&mut de).unwrap_err();
    assert_eq!(adapted, nested);
    assert_eq!(adapted, DecodeError::ExpectedString);
}

#[test]
fn optional_decode_rejects_empty_stream() {
    let mut de = TokenDecoder::new(Vec::new());
    let r = Option::<TypeWithoutDeserialize>::deserialize_with(&mut de);
    assert_eq!(r.unwrap_err(), DecodeError::EndOfInput);
}

#[test]
fn failed_decode_leaves_the_stream_unread() {
    let mut de = TokenDecoder::new(vec![Token::Unit]);
    assert!(TypeWithoutDeserialize::deserialize_with(&mut de).is_err());
    let back = Option::<TypeWithoutDeserialize>::deserialize_with(&mut de)
        .expect("the unit token is still there for the adapter");
    assert!(back.is_none());
}

#[test]
fn container_round_trip() {
    let c = TypeWithNonDeserializableField {
        value: TypeWithoutDeserialize::new("hello".to_string()),
    };
    let mut enc = TokenEncoder::new();
    assert!(c.serialize(&mut enc).is_ok());
    let mut de = TokenDecoder::new(enc.into_tokens());
    let back = TypeWithNonDeserializableField::deserialize(&mut de)
        .expect("decoding an encoded container succeeds");
    assert_eq!(back.value.value, "hello");
}

#[test]
fn optional_container_absent_round_trip() {
    let c = TypeWithOptionalField { value: None };
    let mut enc = TokenEncoder::new();
    assert!(c.serialize(&mut enc).is_ok());
    let toks = enc.into_tokens();
    assert_eq!(toks, vec![Token::Unit]);
    let mut de = TokenDecoder::new(toks);
    let back = TypeWithOptionalField::deserialize(&mut de)
        .expect("decoding an encoded absent field succeeds");
    assert!(back.value.is_none());
}

#[test]
fn optional_container_present_round_trip() {
    let c = TypeWithOptionalField {
        value: Some(TypeWithoutDeserialize::new("hello".to_string())),
    };
    let mut enc = TokenEncoder::new();
    assert!(c.serialize(&mut enc).is_ok());
    let mut de = TokenDecoder::new(enc.into_tokens());
    let back = TypeWithOptionalField::deserialize(&mut de)
        .expect("decoding an encoded present field succeeds");
    assert_eq!(back.value.expect("the field is present").value, "hello");
}

#[test]
fn encoded_order_is_kept() {
    let first = TypeWithoutDeserialize::new("first".to_string());
    let second = TypeWithoutDeserialize::new("second".to_string());
    let mut enc = TokenEncoder::new();
    assert!(first.serialize_with(&mut enc).is_ok());
    assert!(second.serialize_with(&mut enc).is_ok());
    let mut de = TokenDecoder::new(enc.into_tokens());
    let a = TypeWithoutDeserialize::deserialize_with(&mut de).unwrap();
    let b = TypeWithoutDeserialize::deserialize_with(&mut de).unwrap();
    assert_eq!(a.value, "first");
    assert_eq!(b.value, "second");
}
