//! Move identifiers: the names of modules and functions in a call.

use vstd::prelude::*;

verus! {

/// Whether `c` is an ASCII letter.
pub open spec fn is_letter(c: char) -> bool {
    ('a' <= c && c <= 'z') || ('A' <= c && c <= 'Z')
}

/// Whether `c` may stand in a Move identifier: an ASCII letter, an ASCII
/// digit or an underscore.
pub open spec fn is_identifier_char(c: char) -> bool {
    c == '_' || is_letter(c) || ('0' <= c && c <= '9')
}

/// Whether `name` is a valid Move identifier: a letter followed by letters,
/// digits or underscores; or an underscore followed by at least one letter,
/// digit or underscore; or the one special name `<SELF>`.
pub open spec fn is_valid_identifier(name: Seq<char>) -> bool {
    ||| name == seq!['<', 'S', 'E', 'L', 'F', '>']
    ||| {
        &&& name.len() >= 1
        &&& is_letter(name[0]) || (name[0] == '_' && name.len() > 1)
        &&& forall|i: int| 1 <= i < name.len() ==> is_identifier_char(#[trigger] name[i])
    }
}

/// Asks `move_core_types::identifier::Identifier::is_valid` whether `name`
/// is a valid Move identifier. Trusted: that function accepts `<SELF>`, and
/// otherwise a first byte that is an ASCII letter, or an underscore if more
/// bytes follow, with every later byte an ASCII letter, digit or underscore.
/// A character outside ASCII is encoded in bytes that are none of these, so
/// the same holds of the characters.
#[verifier::external_body]
pub(crate) fn identifier_is_valid(name: &str) -> (valid: bool)
    ensures
        valid == is_valid_identifier(name@),
{
    move_core_types::identifier::Identifier::is_valid(name)
}

} // verus!
