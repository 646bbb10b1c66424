use vstd::prelude::*;
use crate::codec::{
    DecodeError, Decoder, EncodeError, Encoder, OptionHead, str_decode_err, str_head, unit_head,
};
use crate::token::TokenV;

verus! {

/// The example type without a native codec: it wraps one string payload, is
/// built by `new`, and is immutable after construction. The override
/// contracts below supply its only encode and decode paths.
#[derive(Debug)]
pub struct TypeWithoutDeserialize {
    /// The payload.
    pub value: String,
}

impl TypeWithoutDeserialize {
    /// Construct the entity from its payload.
    pub fn new(s: String) -> (r: TypeWithoutDeserialize)
        ensures
            r.value == s,
    {
        TypeWithoutDeserialize { value: s }
    }
}

/// Encode-with: the override contract that supplies a type's encode path,
/// independent of any native support. `enc` is the type's serialized
/// representation; `serialize_with` writes exactly that through the supplied
/// encoder on success, and on an encoder failure leaves the output as it was
/// and hands the failure on unchanged.
pub trait SerializeWith: Sized {
    /// The serialized representation: the tokens the encode path produces.
    spec fn enc(&self) -> Seq<TokenV>;

    /// Encode `self` through the supplied encoder.
    fn serialize_with<S: Encoder>(&self, ser: &mut S) -> (r: Result<(), EncodeError>)
        ensures
            r is Ok ==> final(ser).toks() == old(ser).toks() + self.enc(),
            r is Err ==> final(ser).toks() == old(ser).toks(),
    ;
}

/// Decode-with: the override contract that supplies a type's decode path.
/// Three specification functions pin the path down exactly: `dec_ok` says
/// which values a stream decodes to, `dec_consumed` how many tokens a
/// successful decode takes, and `dec_err` with which error a stream is
/// rejected. `deserialize_with` follows them: on success it returns a value
/// the stream decodes to and consumes exactly the decoded prefix; on failure
/// it hands the underlying decoder error on unchanged and leaves the stream
/// where it was.
pub trait DeserializeWith: Sized {
    /// The stream `toks` decodes to the value `v`.
    spec fn dec_ok(toks: Seq<TokenV>, v: Self) -> bool;

    /// How many head tokens a successful decode of `toks` consumes.
    spec fn dec_consumed(toks: Seq<TokenV>) -> int;

    /// The stream `toks` is rejected with the error `e`.
    spec fn dec_err(toks: Seq<TokenV>, e: DecodeError) -> bool;

    /// Decode a value of `Self` through the supplied decoder.
    fn deserialize_with<D: Decoder>(de: &mut D) -> (r: Result<Self, DecodeError>)
        ensures
            match r {
                Ok(v) => Self::dec_ok(old(de).rest(), v)
                    && 0 <= Self::dec_consumed(old(de).rest()) <= old(de).rest().len()
                    && final(de).rest() == old(de).rest().skip(Self::dec_consumed(old(de).rest())),
                Err(e) => Self::dec_err(old(de).rest(), e)
                    && final(de).rest() == old(de).rest(),
            },
    ;
}

impl SerializeWith for TypeWithoutDeserialize {
    /// The entity's serialized representation is its payload as one string
    /// token.
    open spec fn enc(&self) -> Seq<TokenV> {
        seq![TokenV::Str(self.value@)]
    }

    /// Encode the entity by encoding its inner string payload.
    fn serialize_with<S: Encoder>(&self, ser: &mut S) -> (r: Result<(), EncodeError>) {
        let r = ser.encode_str(self.value.as_str());
        proof {
            assert(old(ser).toks().push(TokenV::Str(self.value@)) =~= old(ser).toks()
                + self.enc());
        }
        r
    }
}

impl DeserializeWith for TypeWithoutDeserialize {
    /// A stream decodes to the entity whose payload is the string token at
    /// its head.
    open spec fn dec_ok(toks: Seq<TokenV>, v: Self) -> bool {
        str_head(toks) && toks[0] == TokenV::Str(v.value@)
    }

    /// The entity's decode consumes exactly its one-token encoding.
    open spec fn dec_consumed(toks: Seq<TokenV>) -> int {
        1
    }

    /// The entity's decode is rejected exactly where the underlying string
    /// decode is, with that same error.
    open spec fn dec_err(toks: Seq<TokenV>, e: DecodeError) -> bool {
        !str_head(toks) && e == str_decode_err(toks)
    }

    /// Decode a string payload and construct the entity from it; a failure
    /// of the string decode is handed on unchanged.
    fn deserialize_with<D: Decoder>(de: &mut D) -> (r: Result<Self, DecodeError>) {
        match de.decode_str() {
            Ok(s) => Ok(TypeWithoutDeserialize::new(s)),
            Err(e) => Err(e),
        }
    }
}

impl<T: SerializeWith> SerializeWith for Option<T> {
    /// A present value keeps its own serialized representation; an absent
    /// one is the unit marker.
    open spec fn enc(&self) -> Seq<TokenV> {
        match self {
            Some(v) => v.enc(),
            None => seq![TokenV::Unit],
        }
    }

    /// Encode a present value through its own override; encode absence as
    /// the unit marker.
    fn serialize_with<S: Encoder>(&self, ser: &mut S) -> (r: Result<(), EncodeError>) {
        match self {
            Some(v) => v.serialize_with(ser),
            None => {
                let r = ser.encode_unit();
                proof {
                    assert(old(ser).toks().push(TokenV::Unit) =~= old(ser).toks() + self.enc());
                }
                r
            },
        }
    }
}

impl<T: DeserializeWith> DeserializeWith for Option<T> {
    /// A stream headed by the unit marker decodes to the absent value; any
    /// other stream decodes to whatever the wrapped type decodes it to,
    /// present.
    open spec fn dec_ok(toks: Seq<TokenV>, v: Self) -> bool {
        if unit_head(toks) {
            v is None
        } else {
            v matches Some(w) && T::dec_ok(toks, w)
        }
    }

    /// Absence consumes the one-token unit marker; a present value consumes
    /// what the wrapped type's decode does.
    open spec fn dec_consumed(toks: Seq<TokenV>) -> int {
        if unit_head(toks) {
            1
        } else {
            T::dec_consumed(toks)
        }
    }

    /// An exhausted stream is rejected by the option-aware entry point
    /// itself; past that, a rejection is exactly the wrapped type's,
    /// unmasked.
    open spec fn dec_err(toks: Seq<TokenV>, e: DecodeError) -> bool {
        if toks.len() == 0 {
            e == DecodeError::EndOfInput
        } else if unit_head(toks) {
            false
        } else {
            T::dec_err(toks, e)
        }
    }

    /// Decode through the decoder's option-aware entry point, which settles
    /// absence before the nested decode may consume anything: on absent,
    /// yield the empty variant; on present, delegate into the wrapped
    /// type's override with the stream untouched.
    fn deserialize_with<D: Decoder>(de: &mut D) -> (r: Result<Self, DecodeError>) {
        match de.decode_option_head() {
            Ok(OptionHead::Absent) => Ok(None),
            Ok(OptionHead::Present) => match T::deserialize_with(de) {
                Ok(v) => Ok(Some(v)),
                Err(e) => Err(e),
            },
            Err(e) => Err(e),
        }
    }
}

} // verus!
