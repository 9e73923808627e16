//! The pluggable value-to-string / string-to-value pair a cell encodes with.
//!
//! A codec is described by two spec functions over the views of the values it
//! handles: `enc_spec` says which string a value encodes to (or that encoding
//! fails), `dec_spec` says which value a string decodes to (or that decoding
//! fails). A codec that claims `round_trips()` must prove that decoding any
//! string it produced gives back the value it encoded.

use vstd::prelude::*;

verus! {

use crate::errors::StorageError;

/// A fallible encoder-decoder pair for values of type `V`.
pub trait Codec<V: View>: Sized {
    /// The string `v` encodes to, or `None` when encoding `v` fails.
    spec fn enc_spec(&self, v: V::V) -> Option<Seq<char>>;

    /// The value `s` decodes to, or `None` when `s` is not decodable.
    spec fn dec_spec(&self, s: Seq<char>) -> Option<V::V>;

    /// Does this codec promise that decoding undoes encoding?
    spec fn round_trips(&self) -> bool;

    /// The promise behind [`Codec::round_trips`]: whatever a value encoded
    /// to decodes back to that value.
    proof fn lemma_round_trip(&self, v: V::V, s: Seq<char>)
        requires
            self.round_trips(),
            self.enc_spec(v) == Some(s),
        ensures
            self.dec_spec(s) == Some(v),
    ;

    /// Turn `v` into its string form.
    fn encode(&self, v: &V) -> (r: Result<String, StorageError>)
        ensures
            match r {
                Ok(s) => self.enc_spec(v@) == Some(s@),
                Err(e) => self.enc_spec(v@) is None && e == StorageError::EncodeFailure,
            },
    ;

    /// Turn the string form `s` back into a value.
    fn decode(&self, s: &str) -> (r: Result<V, StorageError>)
        ensures
            match r {
                Ok(v) => self.dec_spec(s@) == Some(v@),
                Err(e) => self.dec_spec(s@) is None && e == StorageError::DecodeFailure,
            },
    ;
}

/// The identity codec: a string value is its own stored form. It never fails
/// in either direction.
#[derive(Clone, Copy, Debug, PartialEq, Eq, Structural)]
pub struct StringCodec;

impl Codec<String> for StringCodec {
    open spec fn enc_spec(&self, v: Seq<char>) -> Option<Seq<char>> {
        Some(v)
    }

    open spec fn dec_spec(&self, s: Seq<char>) -> Option<Seq<char>> {
        Some(s)
    }

    open spec fn round_trips(&self) -> bool {
        true
    }

    proof fn lemma_round_trip(&self, v: Seq<char>, s: Seq<char>) {
    }

    fn encode(&self, v: &String) -> (r: Result<String, StorageError>) {
        Ok(v.clone())
    }

    fn decode(&self, s: &str) -> (r: Result<String, StorageError>) {
        Ok(s.to_owned())
    }
}

} // verus!
