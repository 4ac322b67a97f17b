//! Product identifiers: 128-bit values, written as UUIDs.

use vstd::prelude::*;
use vstd::string::StrSliceExecFns;

verus! {

/// The identifier of a product: the 128 bits of a UUID, most significant
/// byte first.
#[derive(Clone, Copy, Debug, PartialEq, Eq, Hash, Structural)]
pub struct ProductId(pub u128);

/// The bits of a UUID that hold its version and its variant.
pub const TAG_MASK: u128 = 0xF000_C000_0000_0000_0000;

/// What the version and variant bits of a random UUID hold: version 4 and
/// the variant of RFC 9562.
pub const RANDOM_TAG: u128 = 0x4000_8000_0000_0000_0000;

/// Whether `raw` is marked as a randomly generated UUID.
pub open spec fn is_random_tagged(raw: u128) -> bool {
    raw & TAG_MASK == RANDOM_TAG
}

/// The value that `uuid::Uuid::parse_str` reads from `text`, or `None`
/// where it reports an error.
pub uninterp spec fn uuid_parse(text: Seq<char>) -> Option<u128>;

/// The text that `uuid::Uuid` shows for the value `raw`.
pub uninterp spec fn uuid_text(raw: u128) -> Seq<char>;

/// The number of characters in the text of an identifier.
pub const TEXT_LEN: usize = 36;

/// The number of characters in the short form of an identifier.
pub const SHORT_LEN: usize = 8;

/// Calls `uuid::Uuid::new_v4` and takes the 128 bits of what it made. The
/// bits are random but for the version and the variant, which the call
/// sets by a mask; that is all the contract claims. The call panics where
/// the system has no random bytes to give.
#[verifier::external_body]
pub(crate) fn random_id() -> (r: ProductId)
    ensures
        is_random_tagged(r.0),
{
    ProductId(uuid::Uuid::new_v4().as_u128())
}

/// Calls `uuid::Uuid::parse_str`, which reads the simple, the hyphenated,
/// the braced and the URN form of a UUID. The result is named, not
/// described.
#[verifier::external_body]
fn parse_uuid(text: &str) -> (r: Option<u128>)
    ensures
        r == uuid_parse(text@),
{
    match uuid::Uuid::parse_str(text) {
        Ok(parsed) => Some(parsed.as_u128()),
        Err(_) => None,
    }
}

/// Calls `to_string` on the `uuid::Uuid` of value `raw`, which writes the
/// lower-case hyphenated form: 32 hexadecimal digits and four hyphens. The
/// text is named; of its shape the contract claims the length only.
#[verifier::external_body]
fn format_uuid(raw: u128) -> (r: String)
    ensures
        r@ == uuid_text(raw),
        r@.len() == TEXT_LEN,
{
    uuid::Uuid::from_u128(raw).to_string()
}

impl ProductId {
    /// The identifier that `text` writes, if it writes one.
    pub open spec fn spec_parse(text: Seq<char>) -> Option<ProductId> {
        match uuid_parse(text) {
            Some(raw) => Some(ProductId(raw)),
            None => None,
        }
    }

    /// The first characters of the text of this identifier.
    pub open spec fn spec_short(self) -> Seq<char> {
        uuid_text(self.0).subrange(0, SHORT_LEN as int)
    }

    /// Reads an identifier from `text`, in any of the forms in which a UUID
    /// is written.
    pub fn parse(text: &str) -> (r: Option<ProductId>)
        ensures
            r == ProductId::spec_parse(text@),
    {
        match parse_uuid(text) {
            Some(raw) => Some(ProductId(raw)),
            None => None,
        }
    }

    /// The identifier in full: the hyphenated lower-case form of the UUID.
    pub fn to_text(&self) -> (r: String)
        ensures
            r@ == uuid_text(self.0),
            r@.len() == TEXT_LEN,
    {
        format_uuid(self.0)
    }

    /// The identifier in short: the first eight characters of its text.
    pub fn short(&self) -> (r: String)
        ensures
            r@ == self.spec_short(),
            r@.len() == SHORT_LEN,
    {
        let full = format_uuid(self.0);
        full.as_str().substring_char(0, SHORT_LEN).to_owned()
    }
}

} // verus!
