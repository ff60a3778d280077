//! Fresh envelope identifiers.
use vstd::prelude::*;

verus! {

/// A lower-case hexadecimal digit.
pub open spec fn is_lower_hex_digit(c: char) -> bool {
    ||| 0x30 <= c as u32 <= 0x39
    ||| 0x61 <= c as u32 <= 0x66
}

/// The hyphenated, lower-case text of a random (version 4, RFC 4122 variant) UUID.
pub open spec fn is_uuid_v4_text(s: Seq<char>) -> bool {
    &&& s.len() == 36
    &&& forall|i: int|
        0 <= i < 36 ==> if i == 8 || i == 13 || i == 18 || i == 23 {
            #[trigger] s[i] == '-'
        } else {
            is_lower_hex_digit(s[i])
        }
    &&& s[14] == '4'
    &&& (s[19] == '8' || s[19] == '9' || s[19] == 'a' || s[19] == 'b')
}

/// A UUID text is never blank: its first character is a hexadecimal digit.
pub proof fn lemma_uuid_text_not_blank(s: Seq<char>)
    requires
        is_uuid_v4_text(s),
    ensures
        !crate::text::is_blank_text(s),
{
    assert(is_lower_hex_digit(s[0]));
    assert(!crate::text::is_white_space(s[0]));
}

/// `uuid::Uuid::new_v4` written with `to_string`. The bits are random, so the
/// contract says only what holds of every outcome: uuid masks in the version
/// nibble 4 and the variant bits `10`, and its `Display` writes the hyphenated
/// lower-case form. `new_v4` panics when the operating system's random source
/// fails; no argument can rule that out.
#[verifier::external_body]
pub(crate) fn fresh_uuid_v4() -> (id: String)
    ensures
        is_uuid_v4_text(id@),
{
    uuid::Uuid::new_v4().to_string()
}

} // verus!
