//! Username validation: 3 to 32 characters, each a letter, a digit or an
//! underscore.

use vstd::prelude::*;
use vstd::string::StrSliceExecFns;

verus! {

/// A character a username may hold: an ASCII letter, a digit or `_`.
pub open spec fn valid_username_char(c: char) -> bool {
    ||| 'a' as u32 <= c as u32 && c as u32 <= 'z' as u32
    ||| 'A' as u32 <= c as u32 && c as u32 <= 'Z' as u32
    ||| '0' as u32 <= c as u32 && c as u32 <= '9' as u32
    ||| c as u32 == '_' as u32
}

/// A well-formed username: between 3 and 32 characters, all of them letters,
/// digits or underscores.
pub open spec fn valid_username(name: Seq<char>) -> bool {
    &&& 3 <= name.len() <= 32
    &&& forall|i: int| 0 <= i < name.len() ==> valid_username_char(name[i])
}

/// Decides whether `name` is a well-formed username.
pub fn check_username(name: &str) -> (r: bool)
    ensures
        r == valid_username(name@),
{
    let n = name.unicode_len();
    if n < 3 || n > 32 {
        return false;
    }
    let mut i: usize = 0;
    while i < n
        invariant
            n == name@.len(),
            3 <= n <= 32,
            i <= n,
            forall|j: int| 0 <= j < i ==> valid_username_char(name@[j]),
        decreases n - i,
    {
        let c = name.get_char(i);
        let u = c as u32;
        let lower = 'a' as u32 <= u && u <= 'z' as u32;
        let upper = 'A' as u32 <= u && u <= 'Z' as u32;
        let digit = '0' as u32 <= u && u <= '9' as u32;
        if !(lower || upper || digit || u == '_' as u32) {
            return false;
        }
        i += 1;
    }
    true
}

} // verus!
