use vstd::prelude::*;
use crate::codec::{DecodeError, Decoder, EncodeError, Encoder};
use crate::overrides::{DeserializeWith, SerializeWith, TypeWithoutDeserialize};

verus! {

/// The container: its one field is of a type with no native codec, so the
/// field's encode and decode are configured to the override pair —
/// `SerializeWith::serialize_with` on the way out,
/// `DeserializeWith::deserialize_with` on the way in — and never to a native
/// path, which the field's type does not have.
pub struct TypeWithNonDeserializableField {
    /// The field whose codec the overrides supply.
    pub value: TypeWithoutDeserialize,
}

impl TypeWithNonDeserializableField {
    /// Encode the container: the field is written by its configured
    /// override encode function.
    pub fn serialize<S: Encoder>(&self, ser: &mut S) -> (r: Result<(), EncodeError>)
        ensures
            r is Ok ==> final(ser).toks() == old(ser).toks() + self.value.enc(),
            r is Err ==> final(ser).toks() == old(ser).toks(),
    {
        SerializeWith::serialize_with(&self.value, ser)
    }

    /// Decode a container: the field is read by its configured override
    /// decode function, and a failure of that override is handed on
    /// unchanged.
    pub fn deserialize<D: Decoder>(de: &mut D) -> (r: Result<Self, DecodeError>)
        ensures
            match r {
                Ok(c) => TypeWithoutDeserialize::dec_ok(old(de).rest(), c.value)
                    && final(de).rest() == old(de).rest().skip(
                    TypeWithoutDeserialize::dec_consumed(old(de).rest()),
                ),
                Err(e) => TypeWithoutDeserialize::dec_err(old(de).rest(), e)
                    && final(de).rest() == old(de).rest(),
            },
    {
        match DeserializeWith::deserialize_with(de) {
            Ok(v) => Ok(TypeWithNonDeserializableField { value: v }),
            Err(e) => Err(e),
        }
    }
}

/// A container whose field is optional: with no value set it encodes to the
/// unit marker and decodes back to absent, through the adapter that extends
/// the override pair over `Option`.
pub struct TypeWithOptionalField {
    /// The optional field whose codec the adapted overrides supply.
    pub value: Option<TypeWithoutDeserialize>,
}

impl TypeWithOptionalField {
    /// Encode the container: the optional field is written by the adapted
    /// override encode function.
    pub fn serialize<S: Encoder>(&self, ser: &mut S) -> (r: Result<(), EncodeError>)
        ensures
            r is Ok ==> final(ser).toks() == old(ser).toks() + self.value.enc(),
            r is Err ==> final(ser).toks() == old(ser).toks(),
    {
        SerializeWith::serialize_with(&self.value, ser)
    }

    /// Decode a container: the optional field is read by the adapted
    /// override decode function, and a failure of that override is handed
    /// on unchanged.
    pub fn deserialize<D: Decoder>(de: &mut D) -> (r: Result<Self, DecodeError>)
        ensures
            match r {
                Ok(c) => Option::<TypeWithoutDeserialize>::dec_ok(old(de).rest(), c.value)
                    && final(de).rest() == old(de).rest().skip(
                    Option::<TypeWithoutDeserialize>::dec_consumed(old(de).rest()),
                ),
                Err(e) => Option::<TypeWithoutDeserialize>::dec_err(old(de).rest(), e)
                    && final(de).rest() == old(de).rest(),
            },
    {
        match DeserializeWith::deserialize_with(de) {
            Ok(v) => Ok(TypeWithOptionalField { value: v }),
            Err(e) => Err(e),
        }
    }
}

} // verus!
