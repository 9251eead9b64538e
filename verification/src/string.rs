//! Letter case of text.
use vstd::prelude::*;
use vstd::string::{StrSliceExecFns, StringExecFns};

verus! {

/// The uppercase mapping of a character: one or more characters.
pub uninterp spec fn uppercase_of(c: char) -> Seq<char>;

/// `char::to_uppercase`, its characters gathered into a string: the character's uppercase
/// mapping, which for an ASCII lowercase letter is the matching uppercase letter. What the
/// mapping is for other characters is left to the name `uppercase_of`.
#[verifier::external_body]
fn uppercase_text(c: char) -> (r: String)
    ensures
        r@ == uppercase_of(c),
        'a' <= c <= 'z' ==> r@ == seq![((c as u32) - 32) as char],
{
    c.to_uppercase().collect()
}

/// The text with its first character replaced by that character's uppercase mapping.
pub open spec fn capitalized(s: Seq<char>) -> Seq<char> {
    if s.len() == 0 {
        Seq::empty()
    } else {
        uppercase_of(s[0]) + s.drop_first()
    }
}

/// The text with its first letter in upper case; the empty text stays empty.
pub fn capitalize_first_letter(s: &str) -> (r: String)
    ensures
        r@ == capitalized(s@),
{
    let n = s.unicode_len();
    if n == 0 {
        return String::new();
    }
    let mut r = uppercase_text(s.get_char(0));
    r.append(s.substring_char(1, n));
    proof {
        assert(s@.subrange(1, n as int) =~= s@.drop_first());
    }
    r
}

} // verus!
