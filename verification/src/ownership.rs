use vstd::prelude::*;
use vstd::string::StrSliceExecFns;
use vstd::string::StringExecFns;

verus! {

/// Takes the string by value and returns the number of characters it held.
pub fn take_ownership(s: String) -> (r: usize)
    ensures
        r as nat == s@.len(),
{
    s.as_str().unicode_len()
}

/// The first character of the string, or `None` when it is empty.
pub fn borrow_first_char(s: &str) -> (r: Option<char>)
    ensures
        r == (if s@.len() == 0 {
            None::<char>
        } else {
            Some(s@[0])
        }),
{
    if s.is_empty() {
        None
    } else {
        Some(s.get_char(0))
    }
}

/// Appends a single `'!'` to the string in place.
pub fn push_exclamation(s: &mut String)
    ensures
        final(s)@ == old(s)@.push('!'),
{
    s.append("!");
    proof {
        reveal_strlit("!");
        assert(s@ =~= old(s)@.push('!'));
    }
}

} // verus!
