use vstd::prelude::*;
use crate::token::{Token, TokenV};

verus! {

/// An encoder-side failure. The framework model's own token encoder never
/// reports one — it writes into memory and cannot run out of tokens — but
/// the encoder contract lets an embedding framework fail, and the override
/// contracts propagate such a failure unchanged.
#[derive(Debug, Clone, Copy, PartialEq, Eq, Structural)]
pub enum EncodeError {
    /// The encoder does not accept the value it was handed.
    Rejected,
}

/// A decoder-side failure.
#[derive(Debug, Clone, Copy, PartialEq, Eq, Structural)]
pub enum DecodeError {
    /// The stream ended where a value was required.
    EndOfInput,
    /// The next token is not the string value the decoder was asked for.
    ExpectedString,
}

/// What the option-aware decode entry point found at the head of the stream:
/// the tagged variant through which absence is detected before any nested
/// decode commits to consuming input.
#[derive(Debug, Clone, Copy, PartialEq, Eq, Structural)]
pub enum OptionHead {
    /// The value was omitted: the unit marker stood at the head.
    Absent,
    /// A value is present; the stream is untouched and the nested decode
    /// may now run.
    Present,
}

/// The stream begins with a string token.
pub open spec fn str_head(toks: Seq<TokenV>) -> bool {
    toks.len() > 0 && toks[0] is Str
}

/// The stream begins with the unit marker.
pub open spec fn unit_head(toks: Seq<TokenV>) -> bool {
    toks.len() > 0 && toks[0] is Unit
}

/// The error with which a string decode rejects a stream that does not
/// begin with a string token.
pub open spec fn str_decode_err(toks: Seq<TokenV>) -> DecodeError {
    if toks.len() == 0 {
        DecodeError::EndOfInput
    } else {
        DecodeError::ExpectedString
    }
}

/// The encoder abstraction the override contracts expect of a framework:
/// it writes string values and the unit marker, and `toks` is everything
/// written so far.
pub trait Encoder {
    /// The tokens written so far.
    spec fn toks(&self) -> Seq<TokenV>;

    /// Encode a string value: on success exactly one string token is
    /// appended; on failure the output is left as it was.
    fn encode_str(&mut self, s: &str) -> (r: Result<(), EncodeError>)
        ensures
            r is Ok ==> final(self).toks() == old(self).toks().push(TokenV::Str(s@)),
            r is Err ==> final(self).toks() == old(self).toks(),
    ;

    /// Encode the unit marker: on success exactly one unit token is
    /// appended; on failure the output is left as it was.
    fn encode_unit(&mut self) -> (r: Result<(), EncodeError>)
        ensures
            r is Ok ==> final(self).toks() == old(self).toks().push(TokenV::Unit),
            r is Err ==> final(self).toks() == old(self).toks(),
    ;
}

/// The decoder abstraction the override contracts expect of a framework:
/// it reads string values, distinguishes an absent optional value from a
/// present one before any nested decode runs, and `rest` is everything not
/// yet consumed.
pub trait Decoder {
    /// The tokens not yet consumed.
    spec fn rest(&self) -> Seq<TokenV>;

    /// Decode a string value: this succeeds exactly when the stream begins
    /// with a string token, which it consumes and yields; any other stream
    /// is left unread and rejected with the error `str_decode_err` gives
    /// for it.
    fn decode_str(&mut self) -> (r: Result<String, DecodeError>)
        ensures
            match r {
                Ok(s) => old(self).rest().len() > 0
                    && old(self).rest()[0] == TokenV::Str(s@)
                    && final(self).rest() == old(self).rest().skip(1),
                Err(e) => !str_head(old(self).rest())
                    && e == str_decode_err(old(self).rest())
                    && final(self).rest() == old(self).rest(),
            },
            str_head(old(self).rest()) ==> r is Ok,
    ;

    /// The option-aware decode entry point: a unit marker at the head means
    /// the value was omitted and is consumed; any other token means a value
    /// is present and is left for the nested decode; an exhausted stream is
    /// rejected.
    fn decode_option_head(&mut self) -> (r: Result<OptionHead, DecodeError>)
        ensures
            match r {
                Ok(OptionHead::Absent) => unit_head(old(self).rest())
                    && final(self).rest() == old(self).rest().skip(1),
                Ok(OptionHead::Present) => old(self).rest().len() > 0
                    && !unit_head(old(self).rest())
                    && final(self).rest() == old(self).rest(),
                Err(e) => old(self).rest().len() == 0
                    && e == DecodeError::EndOfInput
                    && final(self).rest() == old(self).rest(),
            },
    ;
}

/// The framework model's encoder: it appends tokens to a growing stream and
/// never fails.
pub struct TokenEncoder {
    tokens: Vec<Token>,
}

impl TokenEncoder {
    /// An encoder with nothing written yet.
    pub fn new() -> (r: TokenEncoder)
        ensures
            r.toks() == Seq::<TokenV>::empty(),
    {
        let r = TokenEncoder { tokens: Vec::new() };
        proof {
            assert(r.toks() =~= Seq::<TokenV>::empty());
        }
        r
    }

    /// Hand the written stream over, for a decoder to read back.
    pub fn into_tokens(self) -> (r: Vec<Token>)
        ensures
            r@.map_values(|t: Token| t@) == self.toks(),
    {
        self.tokens
    }
}

impl Encoder for TokenEncoder {
    closed spec fn toks(&self) -> Seq<TokenV> {
        self.tokens@.map_values(|t: Token| t@)
    }

    fn encode_str(&mut self, s: &str) -> (r: Result<(), EncodeError>)
        ensures
            r is Ok,
    {
        let owned = s.to_owned();
        self.tokens.push(Token::Str(owned));
        proof {
            assert(self.toks() =~= old(self).toks().push(TokenV::Str(s@)));
        }
        Ok(())
    }

    fn encode_unit(&mut self) -> (r: Result<(), EncodeError>)
        ensures
            r is Ok,
    {
        self.tokens.push(Token::Unit);
        proof {
            assert(self.toks() =~= old(self).toks().push(TokenV::Unit));
        }
        Ok(())
    }
}

/// The framework model's decoder: it consumes a token stream from the front.
pub struct TokenDecoder {
    tokens: Vec<Token>,
}

impl TokenDecoder {
    /// A decoder over the given stream, none of it consumed yet.
    pub fn new(tokens: Vec<Token>) -> (r: TokenDecoder)
        ensures
            r.rest() == tokens@.map_values(|t: Token| t@),
    {
        TokenDecoder { tokens }
    }
}

impl Decoder for TokenDecoder {
    closed spec fn rest(&self) -> Seq<TokenV> {
        self.tokens@.map_values(|t: Token| t@)
    }

    fn decode_str(&mut self) -> (r: Result<String, DecodeError>) {
        if self.tokens.len() == 0 {
            Err(DecodeError::EndOfInput)
        } else {
            let head_is_str = matches!(&self.tokens[0], Token::Str(_));
            if head_is_str {
                let head = self.tokens.remove(0);
                proof {
                    assert(self.rest() =~= old(self).rest().skip(1));
                }
                match head {
                    Token::Str(s) => Ok(s),
                    _ => unreached(),
                }
            } else {
                Err(DecodeError::ExpectedString)
            }
        }
    }

    fn decode_option_head(&mut self) -> (r: Result<OptionHead, DecodeError>) {
        if self.tokens.len() == 0 {
            Err(DecodeError::EndOfInput)
        } else {
            let head_is_unit = matches!(&self.tokens[0], Token::Unit);
            if head_is_unit {
                let _ = self.tokens.remove(0);
                proof {
                    assert(self.rest() =~= old(self).rest().skip(1));
                }
                Ok(OptionHead::Absent)
            } else {
                Ok(OptionHead::Present)
            }
        }
    }
}

} // verus!
