use vstd::prelude::*;
use crate::codec::{DecodeError, str_decode_err, str_head, unit_head};
use crate::overrides::{DeserializeWith, SerializeWith, TypeWithoutDeserialize};
use crate::token::TokenV;

verus! {

/// Round trip for the opaque-valued entity: a stream that begins with the
/// encoding of `v` decodes — to `v` itself among others, and every value it
/// decodes to carries `v`'s payload — consumes exactly that encoding, and
/// cannot be rejected.
pub proof fn lemma_entity_round_trip(v: TypeWithoutDeserialize, tail: Seq<TokenV>)
    ensures
        TypeWithoutDeserialize::dec_ok(v.enc() + tail, v),
        TypeWithoutDeserialize::dec_consumed(v.enc() + tail) == v.enc().len(),
        (v.enc() + tail).skip(v.enc().len() as int) == tail,
        forall|w: TypeWithoutDeserialize|
            TypeWithoutDeserialize::dec_ok(v.enc() + tail, w) ==> w.value@ == v.value@,
        forall|e: DecodeError| !TypeWithoutDeserialize::dec_err(v.enc() + tail, e),
{
    assert((v.enc() + tail)[0] == TokenV::Str(v.value@));
    assert((v.enc() + tail).skip(1) =~= tail);
}

/// Round trip for the optional adapter over the entity: a stream that begins
/// with the encoding of `o` — the unit marker for absent, the entity's own
/// encoding for present — decodes back to `o`'s variant with the same
/// payload, consumes exactly that encoding, and cannot be rejected.
pub proof fn lemma_option_round_trip(o: Option<TypeWithoutDeserialize>, tail: Seq<TokenV>)
    ensures
        Option::<TypeWithoutDeserialize>::dec_ok(o.enc() + tail, o),
        Option::<TypeWithoutDeserialize>::dec_consumed(o.enc() + tail) == o.enc().len(),
        (o.enc() + tail).skip(o.enc().len() as int) == tail,
        forall|w: Option<TypeWithoutDeserialize>|
            Option::<TypeWithoutDeserialize>::dec_ok(o.enc() + tail, w) ==> (w is Some <==> o
                is Some),
        forall|wv: TypeWithoutDeserialize|
            Option::<TypeWithoutDeserialize>::dec_ok(o.enc() + tail, Some(wv)) ==> (o matches Some(
                ov,
            ) && wv.value@ == ov.value@),
        forall|e: DecodeError| !Option::<TypeWithoutDeserialize>::dec_err(o.enc() + tail, e),
{
    match o {
        Some(v) => {
            assert((o.enc() + tail)[0] == TokenV::Str(v.value@));
            assert(!unit_head(o.enc() + tail));
            lemma_entity_round_trip(v, tail);
        },
        None => {
            assert((o.enc() + tail)[0] == TokenV::Unit);
            assert((o.enc() + tail).skip(1) =~= tail);
        },
    }
}

/// Failure propagation for the entity: a stream whose string decode would be
/// rejected — it is empty, or its head is no string token — is rejected by
/// the entity's decode with exactly that underlying error, and decodes to no
/// value.
pub proof fn lemma_entity_failure(toks: Seq<TokenV>)
    requires
        !str_head(toks),
    ensures
        TypeWithoutDeserialize::dec_err(toks, str_decode_err(toks)),
        forall|e: DecodeError|
            TypeWithoutDeserialize::dec_err(toks, e) ==> e == str_decode_err(toks),
        forall|w: TypeWithoutDeserialize| !TypeWithoutDeserialize::dec_ok(toks, w),
{
}

/// Failure propagation through the optional adapter: on a stream the entity's
/// decode rejects and the unit marker does not claim, the adapted decode is
/// rejected with exactly the same errors as the entity's own — the failure is
/// not masked — and decodes to no value.
pub proof fn lemma_option_failure(toks: Seq<TokenV>)
    requires
        !str_head(toks),
        !unit_head(toks),
    ensures
        forall|e: DecodeError|
            Option::<TypeWithoutDeserialize>::dec_err(toks, e)
                <==> TypeWithoutDeserialize::dec_err(toks, e),
        Option::<TypeWithoutDeserialize>::dec_err(toks, str_decode_err(toks)),
        forall|w: Option<TypeWithoutDeserialize>|
            !Option::<TypeWithoutDeserialize>::dec_ok(toks, w),
{
}

} // verus!
