use vstd::prelude::*;
use crate::error::{Error, FormatKind};

verus! {

/// A character allowed in a project/version/user ID or a slug.
pub open spec fn is_id_char(c: char) -> bool {
    ('a' <= c && c <= 'z') || ('A' <= c && c <= 'Z') || ('0' <= c && c <= '9') || c == '-'
}

/// Every character is an ASCII letter, digit or hyphen.
pub open spec fn is_id_or_slug(s: Seq<char>) -> bool {
    forall|i: int| 0 <= i < s.len() ==> is_id_char(#[trigger] s[i])
}

/// A lowercase hexadecimal digit.
pub open spec fn is_lower_hex(c: char) -> bool {
    ('a' <= c && c <= 'f') || ('0' <= c && c <= '9')
}

/// Exactly 40 lowercase hexadecimal digits.
pub open spec fn is_sha1(s: Seq<char>) -> bool {
    &&& s.len() == 40
    &&& forall|i: int| 0 <= i < s.len() ==> is_lower_hex(#[trigger] s[i])
}

/// Check that `input` can stand as an ID or a slug in a request path.
pub fn validate_id_or_slug(input: &str) -> (r: Result<(), Error>)
    ensures
        r is Ok <==> is_id_or_slug(input@),
        r is Err ==> r == Err::<(), Error>(Error::InvalidFormat(FormatKind::IdOrSlug)),
{
    let n = input.unicode_len();
    let mut i: usize = 0;
    while i < n
        invariant
            n == input@.len(),
            i <= n,
            forall|j: int| 0 <= j < i ==> is_id_char(#[trigger] input@[j]),
        decreases n - i,
    {
        let c = input.get_char(i);
        if !(('a' <= c && c <= 'z') || ('A' <= c && c <= 'Z') || ('0' <= c && c <= '9') || c
            == '-') {
            return Err(Error::InvalidFormat(FormatKind::IdOrSlug));
        }
        i += 1;
    }
    Ok(())
}

/// Check that `input` is a SHA-1 digest written as lowercase hex.
pub fn validate_sha1(input: &str) -> (r: Result<(), Error>)
    ensures
        r is Ok <==> is_sha1(input@),
        r is Err ==> r == Err::<(), Error>(Error::InvalidFormat(FormatKind::Sha1)),
{
    let n = input.unicode_len();
    if n != 40 {
        return Err(Error::InvalidFormat(FormatKind::Sha1));
    }
    let mut i: usize = 0;
    while i < n
        invariant
            n == input@.len(),
            i <= n,
            forall|j: int| 0 <= j < i ==> is_lower_hex(#[trigger] input@[j]),
        decreases n - i,
    {
        let c = input.get_char(i);
        if !(('a' <= c && c <= 'f') || ('0' <= c && c <= '9')) {
            return Err(Error::InvalidFormat(FormatKind::Sha1));
        }
        i += 1;
    }
    Ok(())
}

} // verus!
