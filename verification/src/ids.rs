//! Fresh identifiers and the current time.
use vstd::prelude::*;

verus! {

/// The shape of a version-4 UUID in lowercase hyphenated text: 36
/// characters, hyphens at positions 8, 13, 18 and 23, and the version digit
/// `4` at position 14.
pub open spec fn uuid_text(s: Seq<char>) -> bool {
    &&& s.len() == 36
    &&& s[8] == '-' && s[13] == '-' && s[18] == '-' && s[23] == '-'
    &&& s[14] == '4'
}

/// The version field (bits 76 to 79) of a version-4 UUID as a number: 4.
pub open spec fn uuid_number(n: u128) -> bool {
    (n >> 76u128) & 0xfu128 == 4
}

/// Such a text is never blank: it holds a hyphen.
pub proof fn lemma_uuid_text_not_blank(s: Seq<char>)
    requires
        uuid_text(s),
    ensures
        !crate::text::blank(s),
{
    assert(!crate::text::is_white_space(s[8]));
}

/// `uuid::Uuid::new_v4` written as text by its `Display` impl: a random
/// version-4 UUID in lowercase hyphenated form, such as
/// `67e55044-10b1-426f-9247-bb680e5fe0c8`. Claimed: the text has 36
/// characters, hyphens at positions 8, 13, 18 and 23, and the version digit
/// `4` at position 14. The random part is left unsaid.
#[verifier::external_body]
pub(crate) fn new_uuid_text() -> (r: String)
    ensures
        uuid_text(r@),
{
    uuid::Uuid::new_v4().to_string()
}

/// `chrono::Utc::now()` as milliseconds since the Unix epoch
/// (`DateTime::timestamp_millis`). It reads the clock, so nothing is claimed
/// of the result.
#[verifier::external_body]
pub(crate) fn now_millis() -> (r: i64) {
    chrono::Utc::now().timestamp_millis()
}

/// `uuid::Uuid::new_v4()` as its 128-bit number (`Uuid::as_u128`).
/// Claimed: the version field (bits 76 to 79) holds 4. The random part is
/// left unsaid.
#[verifier::external_body]
pub(crate) fn new_uuid_number() -> (r: u128)
    ensures
        uuid_number(r),
{
    uuid::Uuid::new_v4().as_u128()
}

/// What `uuid::Uuid::parse_str` makes of a text: the UUID as its 128-bit
/// number, or nothing when the text is no UUID.
pub uninterp spec fn parsed_uuid(text: Seq<char>) -> Option<u128>;

/// `uuid::Uuid::parse_str`, with the UUID taken as its 128-bit number
/// (`Uuid::as_u128`). Claimed: the result depends on the text alone (named
/// `parsed_uuid`).
#[verifier::external_body]
pub(crate) fn parse_uuid(text: &str) -> (r: Option<u128>)
    ensures
        r == parsed_uuid(text@),
{
    match uuid::Uuid::parse_str(text) {
        Ok(id) => Some(id.as_u128()),
        Err(_) => None,
    }
}

} // verus!
