//! Prefixed record identifiers.
//!
//! A record id travels as `<prefix>-<uuid>`: a short type tag, one
//! separator, and the canonical hyphenated form of a UUID.  Formatting
//! concatenates the three parts; parsing checks the tag and the
//! separator, then canonicalizes the UUID part.

use vstd::prelude::*;

use vstd::string::StrSliceExecFns;
use vstd::string::StringExecFns;

verus! {

/// The length of a UUID's canonical hyphenated text form.
pub const UUID_STRING_LENGTH: usize = 36;

/// The separator between the type tag and the UUID.
pub const SEPARATOR: char = '-';

/// How many characters the separator takes.
pub const SEPARATOR_LENGTH: usize = 1;

/// The canonical hyphenated form of a UUID string, if the string is a
/// UUID in any accepted spelling.  A pure function of the text; its value
/// is known only through the trusted canonicalizer below.
pub uninterp spec fn uuid_canonical(s: Seq<char>) -> Option<Seq<char>>;

/// Relies on `uuid::Uuid::parse_str` and the hyphenated display form:
/// parses a UUID string and writes it back in canonical hyphenated form,
/// failing exactly when the string is not a UUID.
#[verifier::external_body]
fn canonicalize_uuid(s: &str) -> (r: Option<String>)
    ensures
        r matches Some(c) ==> uuid_canonical(s@) == Some(c@),
        r is Some <==> uuid_canonical(s@) is Some,
        r matches Some(c) ==> uuid_canonical(c@) == Some(c@),
{
    match uuid::Uuid::parse_str(s) {
        Ok(u) => Some(u.as_hyphenated().to_string()),
        Err(_) => None,
    }
}

/// A well-shaped prefixed id: the tag, the separator, then anything.
pub open spec fn id_shape_ok(prefix: Seq<char>, s: Seq<char>) -> bool {
    &&& s.len() > prefix.len()
    &&& s.subrange(0, prefix.len() as int) == prefix
    &&& s[prefix.len() as int] == '-'
}

/// Writes an id as `<prefix>-<uuid>`.
pub fn id_to_string(prefix: &str, uuid: &str) -> (r: String)
    ensures
        r@ == prefix@ + "-"@ + uuid@,
{
    String::from_str(prefix).concat("-").concat(uuid)
}

/// Reads an id of the form `<prefix>-<uuid>` back into the canonical
/// UUID it names.
///
/// Parsing succeeds exactly when the text starts with the tag, continues
/// with the separator, and ends in a UUID; the result is that UUID in
/// canonical hyphenated form.
pub fn parse_id(prefix: &str, s: &str) -> (r: Option<String>)
    ensures
        r is Some <==> (id_shape_ok(prefix@, s@) && uuid_canonical(
            s@.skip(prefix@.len() as int + 1),
        ) is Some),
        r matches Some(u) ==> uuid_canonical(s@.skip(prefix@.len() as int + 1)) == Some(u@),
{
    let plen = prefix.unicode_len();
    let slen = s.unicode_len();
    if slen <= plen {
        return None;
    }
    let mut i: usize = 0;
    while i < plen
        invariant
            plen == prefix@.len(),
            slen == s@.len(),
            slen > plen,
            i <= plen,
            forall|j: int| 0 <= j < i ==> s@[j] == prefix@[j],
        decreases plen - i,
    {
        if s.get_char(i) != prefix.get_char(i) {
            proof {
                assert(s@.subrange(0, plen as int)[i as int] != prefix@[i as int]);
            }
            return None;
        }
        i = i + 1;
    }
    if s.get_char(plen) != '-' {
        return None;
    }
    proof {
        assert(s@.subrange(0, plen as int) =~= prefix@);
    }
    let rest = s.substring_char(plen + 1, slen);
    proof {
        assert(rest@ =~= s@.skip(plen + 1));
    }
    canonicalize_uuid(rest)
}

/// Law: a formatted id has the well-formed shape for its own tag, and the
/// UUID part read back from it is exactly the part that was written.
/// Together with the canonicalizer's contracts this gives the round trip:
/// formatting a canonical UUID and parsing the result returns that UUID.
pub proof fn lemma_id_round_trip(prefix: Seq<char>, uuid: Seq<char>)
    ensures
        (prefix + "-"@ + uuid).skip(prefix.len() as int + 1) == uuid,
        id_shape_ok(prefix, prefix + "-"@ + uuid),
{
    reveal_strlit("-");
    assert((prefix + "-"@ + uuid).skip(prefix.len() as int + 1) =~= uuid);
    assert((prefix + "-"@ + uuid).subrange(0, prefix.len() as int) =~= prefix);
}

} // verus!
