use vstd::prelude::*;

verus! {

/// `s` has the shape of a hyphenated version-4 UUID: 36 characters, with
/// hyphens at 8, 13, 18 and 23 and the version digit `4` at 14.
pub open spec fn is_uuid_v4_text(s: Seq<char>) -> bool {
    &&& s.len() == 36
    &&& s[8] == '-'
    &&& s[13] == '-'
    &&& s[18] == '-'
    &&& s[23] == '-'
    &&& s[14] == '4'
}

/// Relies on `uuid::Uuid::new_v4` and the `Display` of `Uuid`: a random
/// version-4 identifier in its hyphenated form, 36 characters with hyphens
/// at 8, 13, 18 and 23 and the version digit `4` at 14.
#[verifier::external_body]
pub(crate) fn fresh_id() -> (r: String)
    ensures
        is_uuid_v4_text(r@),
{
    uuid::Uuid::new_v4().to_string()
}

} // verus!
