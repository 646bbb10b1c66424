//! Field-level serialization override: a type without a native codec can
//! still take part in structured encoding and decoding, because a pair of
//! override contracts (`SerializeWith`, `DeserializeWith`) supplies its
//! encode and decode paths, a generic adapter extends both contracts over
//! `Option`, and a container names the overrides as its field's codec.

pub mod codec;
pub mod container;
pub mod laws;
pub mod overrides;
pub mod token;
