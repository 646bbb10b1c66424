use vstd::prelude::*;

verus! {

/// A token of the self-describing stream that the framework model writes and
/// reads: the wire alphabet at specification level. No concrete wire format
/// is fixed beyond this alphabet; the encoder appends tokens and the decoder
/// consumes them.
pub enum TokenV {
    /// A string value.
    Str(Seq<char>),
    /// The unit marker, also the encoding of an absent optional value.
    Unit,
    /// An unsigned integer value: a native value that no override handles.
    U64(u64),
}

/// A token of the stream as the executable encoder and decoder hold it.
#[derive(Debug, PartialEq)]
pub enum Token {
    /// A string value.
    Str(String),
    /// The unit marker, also the encoding of an absent optional value.
    Unit,
    /// An unsigned integer value: a native value that no override handles.
    U64(u64),
}

impl View for Token {
    type V = TokenV;

    open spec fn view(&self) -> TokenV {
        match self {
            Token::Str(s) => TokenV::Str(s@),
            Token::Unit => TokenV::Unit,
            Token::U64(n) => TokenV::U64(*n),
        }
    }
}

} // verus!
