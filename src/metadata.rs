//! Request metadata: tonic's `MetadataMap`, seen through the set of keys it
//! holds.

use vstd::prelude::*;
use tonic::metadata::MetadataMap;

verus! {

#[verifier::external_type_specification]
#[verifier::external_body]
pub struct ExMetadataMap(MetadataMap);

/// The keys that a metadata map holds, ASCII and binary alike, as the text
/// of their names (which tonic keeps in lowercase).
pub uninterp spec fn metadata_keys(m: MetadataMap) -> Set<Seq<char>>;

/// `c` with an ASCII capital letter turned into its small letter.
pub open spec fn ascii_lower_char(c: char) -> char {
    if 'A' <= c && c <= 'Z' {
        ((c as u32) + 32) as char
    } else {
        c
    }
}

/// `s` with every ASCII capital letter turned into its small letter.
pub open spec fn ascii_lowercase(s: Seq<char>) -> Seq<char> {
    Seq::new(s.len(), |i: int| ascii_lower_char(s[i]))
}

/// Whether `m` holds `key`, read as a metadata key name: ASCII letters are
/// taken in either case.
pub open spec fn holds_key(m: MetadataMap, key: Seq<char>) -> bool {
    metadata_keys(m).contains(ascii_lowercase(key))
}

/// Relies on tonic's `MetadataMap::contains_key` with a `&str` key: the key is
/// parsed as an HTTP header name, which lowercases ASCII letters, and looked
/// up among the map's keys of both encodings; a string that is no valid name
/// is found in no map.
#[verifier::external_body]
pub(crate) fn contains_key(m: &MetadataMap, key: &str) -> (r: bool)
    ensures
        r == metadata_keys(*m).contains(ascii_lowercase(key@)),
{
    m.contains_key(key)
}

} // verus!
