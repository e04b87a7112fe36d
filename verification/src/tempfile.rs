//! Names of the temporary files that a book archive is rewritten into before it takes the
//! archive's place.

use crate::paths::{is_plain_component, is_plain_component_char, join_of, path_join};
use crate::text::{concat, has_suffix};
use uuid::Uuid;
use vstd::prelude::*;

verus! {

/// A lowercase hexadecimal digit.
pub open spec fn is_lower_hex(c: char) -> bool {
    ('0' <= c && c <= '9') || ('a' <= c && c <= 'f')
}

/// The hyphenated text of a UUID: 32 lowercase hexadecimal digits in groups of 8, 4, 4, 4 and
/// 12, separated by `-`.
pub open spec fn is_hyphenated_uuid(s: Seq<char>) -> bool {
    &&& s.len() == 36
    &&& forall|i: int| 0 <= i < 36 ==> if i == 8 || i == 13 || i == 18 || i == 23 {
        #[trigger] s[i] == '-'
    } else {
        is_lower_hex(s[i])
    }
}

/// `Uuid::now_v7`, as text. Which UUID comes back depends on the time and on chance; what is
/// stated holds of every one: `Display` writes it hyphenated, in lowercase hexadecimal, and its
/// version digit, the first of the third group, is `7`.
#[verifier::external_body]
pub(crate) fn now_v7_text() -> (r: String)
    ensures
        is_hyphenated_uuid(r@),
        r@[14] == '7',
{
    Uuid::now_v7().to_string()
}

/// The name of a temporary file: a fresh time-ordered UUID, of version 7, followed by `.kotori`.
pub open spec fn is_temp_file_name(s: Seq<char>) -> bool {
    &&& s.len() == 43
    &&& is_hyphenated_uuid(s.subrange(0, 36))
    &&& s[14] == '7'
    &&& s.subrange(36, 43) == ".kotori"@
}

/// A new name for a temporary file: a UUID of version 7, then `.kotori`.
pub fn temp_file_name() -> (r: String)
    ensures
        is_temp_file_name(r@),
{
    let id = now_v7_text();
    let r = concat(id.as_str(), ".kotori");
    proof {
        reveal_strlit(".kotori");
        assert(r@.subrange(0, 36) =~= id@);
        assert(r@.subrange(36, 43) =~= ".kotori"@);
    }
    r
}

/// The path of a new temporary file in the directory `dir`: it ends with the file's name, and,
/// when `dir` holds no `?`, it is that name pushed onto `dir`.
pub fn temp_file_path_in(dir: &str) -> (r: String)
    ensures
        exists|name: Seq<char>| #[trigger] is_temp_file_name(name) && has_suffix(r@, name),
        !dir@.contains('?') ==> exists|name: Seq<char>| #[trigger] is_temp_file_name(name) && join_of(dir@, name, r@),
{
    let name = temp_file_name();
    proof {
        reveal_strlit(".kotori");
        let s = name@;
        assert(s[0] == s.subrange(0, 36)[0]);
        assert forall|i: int| 0 <= i < s.len() implies is_plain_component_char(#[trigger] s[i]) by {
            if i < 36 {
                assert(s[i] == s.subrange(0, 36)[i]);
            } else {
                assert(s[i] == s.subrange(36, 43)[i - 36]);
            }
        }
        assert(is_plain_component(s));
    }
    path_join(dir, name.as_str())
}

} // verus!
