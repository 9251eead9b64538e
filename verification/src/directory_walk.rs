//! The choices of a walk through a directory tree that collects the files of one extension.
use vstd::prelude::*;
use vstd::string::StrSliceExecFns;

verus! {

/// Whether a walk that stands at `current_level`, and may go down `levels` levels (any number
/// when none is given), goes into a subdirectory found there; if it does, the level that it
/// counts from then on, one more. The level is counted up for each subdirectory that is
/// entered, those found side by side included.
pub fn descend_into_directory(current_level: usize, levels: Option<usize>) -> (r: Option<usize>)
    requires
        current_level < usize::MAX,
    ensures
        levels == Some(current_level) ==> r is None,
        levels != Some(current_level) ==> r == Some((current_level + 1) as usize),
{
    match levels {
        Some(levels) => if levels == current_level {
            None
        } else {
            Some(current_level + 1)
        },
        None => Some(current_level + 1),
    }
}

/// The two texts are the same.
pub(crate) fn same_text(a: &str, b: &str) -> (r: bool)
    ensures
        r == (a@ == b@),
{
    let n = a.unicode_len();
    if n != b.unicode_len() {
        return false;
    }
    let mut i: usize = 0;
    while i < n
        invariant
            n == a@.len(),
            n == b@.len(),
            i <= n,
            forall|j: int| 0 <= j < i ==> a@[j] == b@[j],
        decreases n - i,
    {
        if a.get_char(i) != b.get_char(i) {
            return false;
        }
        i += 1;
    }
    assert(a@ =~= b@);
    true
}

/// Whether the walk collects a file whose extension is the given one (none where the file has
/// no extension, or one that is not Unicode): it is the extension sought.
pub fn has_extension(file_extension: Option<&str>, extension: &str) -> (r: bool)
    ensures
        r == (file_extension matches Some(e) && e@ == extension@),
{
    match file_extension {
        Some(e) => same_text(e, extension),
        None => false,
    }
}

} // verus!
