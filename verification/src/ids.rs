//! Identifiers of swaps and trades: 128-bit UUIDs.

use crate::bytes::bytes_eq;
use vstd::prelude::*;

verus! {

#[verifier::external_type_specification]
#[verifier::external_body]
pub struct ExUuidError(uuid::Error);

/// What `uuid::Uuid::parse_str` makes of a text: the 16 bytes of the UUID, or
/// nothing where it refuses the text.
pub uninterp spec fn uuid_parse(text: Seq<char>) -> Option<Seq<u8>>;

/// The text that `uuid::Uuid::to_hyphenated` gives for the UUID with these
/// 16 bytes.
pub uninterp spec fn uuid_hyphenated(bytes: Seq<u8>) -> Seq<char>;

/// Parses a UUID with `uuid::Uuid::parse_str` and hands out its bytes. The
/// contract names the outcome and claims nothing of which texts are taken.
#[verifier::external_body]
fn parse_uuid(text: &str) -> (r: Result<[u8; 16], uuid::Error>)
    ensures
        r matches Ok(bytes) ==> uuid_parse(text@) == Some(bytes@),
        r is Err ==> uuid_parse(text@) is None,
{
    uuid::Uuid::parse_str(text).map(|uuid| *uuid.as_bytes())
}

/// Formats a UUID with `uuid::Uuid::to_hyphenated`. The contract names the
/// text.
#[verifier::external_body]
fn hyphenate_uuid(bytes: &[u8; 16]) -> (r: String)
    ensures
        r@ == uuid_hyphenated(bytes@),
{
    uuid::Uuid::from_bytes(*bytes).to_hyphenated().to_string()
}

/// Draws a random UUID with `uuid::Uuid::new_v4`. Nothing is known of it.
#[verifier::external_body]
fn random_uuid() -> [u8; 16] {
    *uuid::Uuid::new_v4().as_bytes()
}

/// A text was not a UUID.
#[derive(Clone, Copy, Debug, PartialEq, Eq, Structural)]
pub struct ParseError;

/// Identifies one swap for as long as it is remembered.
#[derive(Clone, Copy, Debug, PartialEq, Eq, Hash)]
pub struct SwapId(pub [u8; 16]);

/// Identifies one trade.
#[derive(Clone, Copy, Debug, PartialEq, Eq, Hash)]
pub struct TradeId(pub [u8; 16]);

impl View for SwapId {
    type V = Seq<u8>;

    open spec fn view(&self) -> Seq<u8> {
        self.0@
    }
}

impl View for TradeId {
    type V = Seq<u8>;

    open spec fn view(&self) -> Seq<u8> {
        self.0@
    }
}

impl SwapId {
    /// Reads an id from its text form. Succeeds on exactly the texts that are
    /// UUIDs.
    pub fn from_str(s: &str) -> (r: Result<SwapId, ParseError>)
        ensures
            r matches Ok(id) ==> uuid_parse(s@) == Some(id@),
            r is Err <==> uuid_parse(s@) is None,
    {
        match parse_uuid(s) {
            Ok(bytes) => Ok(SwapId(bytes)),
            Err(_) => Err(ParseError),
        }
    }

    /// The id in hyphenated form.
    pub fn to_string(&self) -> (r: String)
        ensures
            r@ == uuid_hyphenated(self@),
    {
        hyphenate_uuid(&self.0)
    }

    /// Whether two ids are the same.
    pub fn same(&self, other: &SwapId) -> (r: bool)
        ensures
            r == (*self == *other),
    {
        let r = bytes_eq(&self.0, &other.0);
        proof {
            if r {
                assert(self.0 =~= other.0);
            }
        }
        r
    }
}

impl TradeId {
    /// Reads an id from its text form. Succeeds on exactly the texts that are
    /// UUIDs.
    pub fn from_str(s: &str) -> (r: Result<TradeId, ParseError>)
        ensures
            r matches Ok(id) ==> uuid_parse(s@) == Some(id@),
            r is Err <==> uuid_parse(s@) is None,
    {
        match parse_uuid(s) {
            Ok(bytes) => Ok(TradeId(bytes)),
            Err(_) => Err(ParseError),
        }
    }

    /// The id of the UUID with these bytes.
    pub fn from_bytes(bytes: [u8; 16]) -> (r: TradeId)
        ensures
            r.0 == bytes,
    {
        TradeId(bytes)
    }

    /// The bytes of the UUID behind the id.
    pub fn into_bytes(self) -> (r: [u8; 16])
        ensures
            r == self.0,
    {
        self.0
    }

    /// The id in hyphenated form.
    pub fn to_string(&self) -> (r: String)
        ensures
            r@ == uuid_hyphenated(self@),
    {
        hyphenate_uuid(&self.0)
    }
}

impl Default for TradeId {
    /// A fresh random id.
    fn default() -> Self {
        TradeId(random_uuid())
    }
}

} // verus!
