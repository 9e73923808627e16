//! Codecs backed by serialization crates.
//!
//! These are thin, trusted bridges: what the serializers return is given a
//! name (`json_of_u64_list`, `bincode_of_u64`, ...) rather than spelled out,
//! since the encodings are functions of the value alone but take pages to
//! state. The verified layer composes the bridges and maps their failures
//! into the library's error type. Unlike [`crate::decimal::DecimalCodec`],
//! these codecs do not claim the round-trip promise: nothing here proves it
//! of the outside serializers.

use vstd::prelude::*;

verus! {

use base64::Engine;

use crate::codec::Codec;
use crate::errors::StorageError;
use crate::storage::StorageData;

/// The JSON text of a list of unsigned integers.
pub uninterp spec fn json_of_u64_list(v: Seq<u64>) -> Seq<char>;

/// The list of unsigned integers a JSON text denotes, if it denotes one.
pub uninterp spec fn u64_list_of_json(s: Seq<char>) -> Option<Seq<u64>>;

/// Relies on serde_json::to_string: the JSON text of a list of unsigned
/// integers, a function of the list alone. Serializing integers into a
/// string cannot fail — serde_json's string writer is infallible and
/// integers have no failing serialize path — so the unwrap cannot panic.
#[verifier::external_body]
fn json_encode_u64_list(v: &Vec<u64>) -> (r: String)
    ensures
        r@ == json_of_u64_list(v@),
{
    serde_json::to_string(v).unwrap()
}

/// Relies on serde_json::from_str: whether a text parses as a list of
/// unsigned integers, and as which, is a function of the text alone.
#[verifier::external_body]
fn json_decode_u64_list(s: &str) -> (r: Option<Vec<u64>>)
    ensures
        match r {
            Some(v) => u64_list_of_json(s@) == Some(v@),
            None => u64_list_of_json(s@) is None,
        },
{
    serde_json::from_str(s).ok()
}

/// A codec that stores a list of unsigned integers as JSON text.
#[derive(Clone, Copy, Debug, PartialEq, Eq, Structural)]
pub struct JsonCodec;

impl Codec<Vec<u64>> for JsonCodec {
    open spec fn enc_spec(&self, v: Seq<u64>) -> Option<Seq<char>> {
        Some(json_of_u64_list(v))
    }

    open spec fn dec_spec(&self, s: Seq<char>) -> Option<Seq<u64>> {
        u64_list_of_json(s)
    }

    open spec fn round_trips(&self) -> bool {
        false
    }

    proof fn lemma_round_trip(&self, v: Seq<u64>, s: Seq<char>) {
    }

    fn encode(&self, v: &Vec<u64>) -> (r: Result<String, StorageError>) {
        Ok(json_encode_u64_list(v))
    }

    fn decode(&self, s: &str) -> (r: Result<Vec<u64>, StorageError>) {
        match json_decode_u64_list(s) {
            Some(v) => Ok(v),
            None => Err(StorageError::DecodeFailure),
        }
    }
}

/// The byte form bincode gives an unsigned integer.
pub uninterp spec fn bincode_of_u64(v: u64) -> Seq<u8>;

/// The unsigned integer bincode reads back from a byte form, if any.
pub uninterp spec fn u64_of_bincode(b: Seq<u8>) -> Option<u64>;

/// The URL-safe base64 text of a byte string.
pub uninterp spec fn base64_of(b: Seq<u8>) -> Seq<char>;

/// The byte string a URL-safe base64 text denotes, if it denotes one.
pub uninterp spec fn bytes_of_base64(s: Seq<char>) -> Option<Seq<u8>>;

/// Relies on bincode::serialize: the byte form of an unsigned integer, a
/// function of the integer alone. Writing an integer into a byte vector has
/// no failing path, so the unwrap cannot panic.
#[verifier::external_body]
fn bincode_encode_u64(v: &u64) -> (r: Vec<u8>)
    ensures
        r@ == bincode_of_u64(*v),
{
    bincode::serialize(v).unwrap()
}

/// Relies on bincode::deserialize: whether bytes read back as an unsigned
/// integer, and as which, is a function of the bytes alone.
#[verifier::external_body]
fn bincode_decode_u64(b: &Vec<u8>) -> (r: Option<u64>)
    ensures
        match r {
            Some(v) => u64_of_bincode(b@) == Some(v),
            None => u64_of_bincode(b@) is None,
        },
{
    bincode::deserialize(b.as_slice()).ok()
}

/// Relies on base64::Engine::encode with the URL-safe alphabet: the base64
/// text of a byte string, a function of the bytes alone; it never fails.
#[verifier::external_body]
fn base64_encode(b: &Vec<u8>) -> (r: String)
    ensures
        r@ == base64_of(b@),
{
    base64::engine::general_purpose::URL_SAFE.encode(b)
}

/// Relies on base64::Engine::decode with the URL-safe alphabet: whether a
/// text is base64, and which bytes it denotes, is a function of the text
/// alone.
#[verifier::external_body]
fn base64_decode(s: &str) -> (r: Option<Vec<u8>>)
    ensures
        match r {
            Some(b) => bytes_of_base64(s@) == Some(b@),
            None => bytes_of_base64(s@) is None,
        },
{
    base64::engine::general_purpose::URL_SAFE.decode(s).ok()
}

/// A codec that stores an unsigned integer as its bincode byte form,
/// wrapped in URL-safe base64 so the store sees plain text.
#[derive(Clone, Copy, Debug, PartialEq, Eq, Structural)]
pub struct BincodeCodec;

impl Codec<u64> for BincodeCodec {
    open spec fn enc_spec(&self, v: u64) -> Option<Seq<char>> {
        Some(base64_of(bincode_of_u64(v)))
    }

    open spec fn dec_spec(&self, s: Seq<char>) -> Option<u64> {
        match bytes_of_base64(s) {
            Some(b) => u64_of_bincode(b),
            None => None,
        }
    }

    open spec fn round_trips(&self) -> bool {
        false
    }

    proof fn lemma_round_trip(&self, v: u64, s: Seq<char>) {
    }

    fn encode(&self, v: &u64) -> (r: Result<String, StorageError>) {
        let bytes = bincode_encode_u64(v);
        Ok(base64_encode(&bytes))
    }

    fn decode(&self, s: &str) -> (r: Result<u64, StorageError>) {
        match base64_decode(s) {
            Some(bytes) => match bincode_decode_u64(&bytes) {
                Some(v) => Ok(v),
                None => Err(StorageError::DecodeFailure),
            },
            None => Err(StorageError::DecodeFailure),
        }
    }
}


/// The YAML text of an unsigned integer.
pub uninterp spec fn yaml_of_u64(v: u64) -> Seq<char>;

/// The unsigned integer a YAML text denotes, if it denotes one.
pub uninterp spec fn u64_of_yaml(s: Seq<char>) -> Option<u64>;

/// Relies on serde_yaml::to_string: the YAML text of an unsigned integer, a
/// function of the integer alone. Emitting a scalar into a string has no
/// failing path, so the unwrap cannot panic.
#[verifier::external_body]
fn yaml_encode_u64(v: &u64) -> (r: String)
    ensures
        r@ == yaml_of_u64(*v),
{
    serde_yaml::to_string(v).unwrap()
}

/// Relies on serde_yaml::from_str: whether a text parses as an unsigned
/// integer, and as which, is a function of the text alone.
#[verifier::external_body]
fn yaml_decode_u64(s: &str) -> (r: Option<u64>)
    ensures
        match r {
            Some(v) => u64_of_yaml(s@) == Some(v),
            None => u64_of_yaml(s@) is None,
        },
{
    serde_yaml::from_str(s).ok()
}

/// A codec that stores an unsigned integer as YAML text.
#[derive(Clone, Copy, Debug, PartialEq, Eq, Structural)]
pub struct YamlCodec;

impl Codec<u64> for YamlCodec {
    open spec fn enc_spec(&self, v: u64) -> Option<Seq<char>> {
        Some(yaml_of_u64(v))
    }

    open spec fn dec_spec(&self, s: Seq<char>) -> Option<u64> {
        u64_of_yaml(s)
    }

    open spec fn round_trips(&self) -> bool {
        false
    }

    proof fn lemma_round_trip(&self, v: u64, s: Seq<char>) {
    }

    fn encode(&self, v: &u64) -> (r: Result<String, StorageError>) {
        Ok(yaml_encode_u64(v))
    }

    fn decode(&self, s: &str) -> (r: Result<u64, StorageError>) {
        match yaml_decode_u64(s) {
            Some(v) => Ok(v),
            None => Err(StorageError::DecodeFailure),
        }
    }
}

/// The RON text of an unsigned integer.
pub uninterp spec fn ron_of_u64(v: u64) -> Seq<char>;

/// The unsigned integer a RON text denotes, if it denotes one.
pub uninterp spec fn u64_of_ron(s: Seq<char>) -> Option<u64>;

/// Relies on ron::to_string: the RON text of an unsigned integer, a
/// function of the integer alone. Writing a scalar into a string has no
/// failing path, so the unwrap cannot panic.
#[verifier::external_body]
fn ron_encode_u64(v: &u64) -> (r: String)
    ensures
        r@ == ron_of_u64(*v),
{
    ron::to_string(v).unwrap()
}

/// Relies on ron::from_str: whether a text parses as an unsigned integer,
/// and as which, is a function of the text alone.
#[verifier::external_body]
fn ron_decode_u64(s: &str) -> (r: Option<u64>)
    ensures
        match r {
            Some(v) => u64_of_ron(s@) == Some(v),
            None => u64_of_ron(s@) is None,
        },
{
    ron::from_str(s).ok()
}

/// A codec that stores an unsigned integer as RON text.
#[derive(Clone, Copy, Debug, PartialEq, Eq, Structural)]
pub struct RonCodec;

impl Codec<u64> for RonCodec {
    open spec fn enc_spec(&self, v: u64) -> Option<Seq<char>> {
        Some(ron_of_u64(v))
    }

    open spec fn dec_spec(&self, s: Seq<char>) -> Option<u64> {
        u64_of_ron(s)
    }

    open spec fn round_trips(&self) -> bool {
        false
    }

    proof fn lemma_round_trip(&self, v: u64, s: Seq<char>) {
    }

    fn encode(&self, v: &u64) -> (r: Result<String, StorageError>) {
        Ok(ron_encode_u64(v))
    }

    fn decode(&self, s: &str) -> (r: Result<u64, StorageError>) {
        match ron_decode_u64(s) {
            Some(v) => Ok(v),
            None => Err(StorageError::DecodeFailure),
        }
    }
}

/// The CBOR byte form of an unsigned integer.
pub uninterp spec fn cbor_of_u64(v: u64) -> Seq<u8>;

/// The unsigned integer CBOR bytes denote, if they denote one.
pub uninterp spec fn u64_of_cbor(b: Seq<u8>) -> Option<u64>;

/// Relies on ciborium::ser::into_writer: the CBOR byte form of an unsigned
/// integer, a function of the integer alone. Writing an integer into a byte
/// vector has no failing path, so the unwrap cannot panic.
#[verifier::external_body]
fn cbor_encode_u64(v: &u64) -> (r: Vec<u8>)
    ensures
        r@ == cbor_of_u64(*v),
{
    let mut bytes = Vec::new();
    ciborium::ser::into_writer(v, &mut bytes).unwrap();
    bytes
}

/// Relies on ciborium::de::from_reader: whether bytes read back as an
/// unsigned integer, and as which, is a function of the bytes alone.
#[verifier::external_body]
fn cbor_decode_u64(b: &Vec<u8>) -> (r: Option<u64>)
    ensures
        match r {
            Some(v) => u64_of_cbor(b@) == Some(v),
            None => u64_of_cbor(b@) is None,
        },
{
    ciborium::de::from_reader(b.as_slice()).ok()
}

/// A codec that stores an unsigned integer as its CBOR byte form, wrapped
/// in URL-safe base64 so the store sees plain text.
#[derive(Clone, Copy, Debug, PartialEq, Eq, Structural)]
pub struct CborCodec;

impl Codec<u64> for CborCodec {
    open spec fn enc_spec(&self, v: u64) -> Option<Seq<char>> {
        Some(base64_of(cbor_of_u64(v)))
    }

    open spec fn dec_spec(&self, s: Seq<char>) -> Option<u64> {
        match bytes_of_base64(s) {
            Some(b) => u64_of_cbor(b),
            None => None,
        }
    }

    open spec fn round_trips(&self) -> bool {
        false
    }

    proof fn lemma_round_trip(&self, v: u64, s: Seq<char>) {
    }

    fn encode(&self, v: &u64) -> (r: Result<String, StorageError>) {
        let bytes = cbor_encode_u64(v);
        Ok(base64_encode(&bytes))
    }

    fn decode(&self, s: &str) -> (r: Result<u64, StorageError>) {
        match base64_decode(s) {
            Some(bytes) => match cbor_decode_u64(&bytes) {
                Some(v) => Ok(v),
                None => Err(StorageError::DecodeFailure),
            },
            None => Err(StorageError::DecodeFailure),
        }
    }
}

impl<C: Codec<Vec<u64>>, D: Fn() -> Vec<u64>> StorageData<Vec<u64>, C, D> {
    /// Store this cell's list as JSON text. Allowed only before the first
    /// use, like any codec replacement.
    pub fn serde_json(self) -> (r: StorageData<Vec<u64>, JsonCodec, D>)
        requires
            self.cached() is None,
        ensures
            r.kind() == self.kind(),
            r.spec_key() == self.spec_key(),
            r.cached() is None,
            r.is_dirty() == self.is_dirty(),
            r.fails_hard() == self.fails_hard(),
            r.spec_codec() == JsonCodec,
            r.supplier() == self.supplier(),
            r.saves_on_drop() == self.saves_on_drop(),
            self.wf() ==> r.wf(),
    {
        self.serde_with(JsonCodec)
    }
}

impl<C: Codec<u64>, D: Fn() -> u64> StorageData<u64, C, D> {
    /// Store this cell's integer as base64-wrapped bincode bytes. Allowed
    /// only before the first use, like any codec replacement.
    pub fn serde_bincode(self) -> (r: StorageData<u64, BincodeCodec, D>)
        requires
            self.cached() is None,
        ensures
            r.kind() == self.kind(),
            r.spec_key() == self.spec_key(),
            r.cached() is None,
            r.is_dirty() == self.is_dirty(),
            r.fails_hard() == self.fails_hard(),
            r.spec_codec() == BincodeCodec,
            r.supplier() == self.supplier(),
            r.saves_on_drop() == self.saves_on_drop(),
            self.wf() ==> r.wf(),
    {
        self.serde_with(BincodeCodec)
    }

    /// Store this cell's integer as YAML text. Allowed only before the
    /// first use, like any codec replacement.
    pub fn serde_yaml(self) -> (r: StorageData<u64, YamlCodec, D>)
        requires
            self.cached() is None,
        ensures
            r.kind() == self.kind(),
            r.spec_key() == self.spec_key(),
            r.cached() is None,
            r.is_dirty() == self.is_dirty(),
            r.fails_hard() == self.fails_hard(),
            r.spec_codec() == YamlCodec,
            r.supplier() == self.supplier(),
            r.saves_on_drop() == self.saves_on_drop(),
            self.wf() ==> r.wf(),
    {
        self.serde_with(YamlCodec)
    }

    /// Store this cell's integer as RON text. Allowed only before the
    /// first use, like any codec replacement.
    pub fn serde_ron(self) -> (r: StorageData<u64, RonCodec, D>)
        requires
            self.cached() is None,
        ensures
            r.kind() == self.kind(),
            r.spec_key() == self.spec_key(),
            r.cached() is None,
            r.is_dirty() == self.is_dirty(),
            r.fails_hard() == self.fails_hard(),
            r.spec_codec() == RonCodec,
            r.supplier() == self.supplier(),
            r.saves_on_drop() == self.saves_on_drop(),
            self.wf() ==> r.wf(),
    {
        self.serde_with(RonCodec)
    }

    /// Store this cell's integer as base64-wrapped CBOR bytes. Allowed
    /// only before the first use, like any codec replacement.
    pub fn serde_cbor(self) -> (r: StorageData<u64, CborCodec, D>)
        requires
            self.cached() is None,
        ensures
            r.kind() == self.kind(),
            r.spec_key() == self.spec_key(),
            r.cached() is None,
            r.is_dirty() == self.is_dirty(),
            r.fails_hard() == self.fails_hard(),
            r.spec_codec() == CborCodec,
            r.supplier() == self.supplier(),
            r.saves_on_drop() == self.saves_on_drop(),
            self.wf() ==> r.wf(),
    {
        self.serde_with(CborCodec)
    }
}

} // verus!
