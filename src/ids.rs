use vstd::prelude::*;

verus! {

/// The UUID that uuid's parser reads from a text, if it reads one.
pub uninterp spec fn parsed_uuid(s: Seq<char>) -> Option<u128>;

/// The hyphenated lower-case text of a UUID, as uuid formats it.
pub uninterp spec fn uuid_text(v: u128) -> Seq<char>;

/// Relies on uuid's `Uuid::parse_str` (through `FromStr`) and `Uuid::as_u128`: the
/// UUID written in `s`, or `None` where `s` is in none of the forms uuid accepts.
#[verifier::external_body]
pub(crate) fn parse_uuid(s: &str) -> (r: Option<u128>)
    ensures
        r == parsed_uuid(s@),
{
    s.parse::<uuid::Uuid>().ok().map(|u| u.as_u128())
}

/// Relies on uuid's `Uuid::from_u128` and its `Display`, which writes the
/// hyphenated lower-case form.
#[verifier::external_body]
pub(crate) fn format_uuid(v: u128) -> (r: String)
    ensures
        r@ == uuid_text(v),
{
    uuid::Uuid::from_u128(v).to_string()
}

/// Relies on uuid's `Uuid::new_v4`: a random identifier, of which nothing is
/// promised.
#[verifier::external_body]
pub(crate) fn random_uuid() -> (r: u128) {
    uuid::Uuid::new_v4().as_u128()
}

} // verus!
