//! Single-instance guard: the lock file holds the process ID of the running
//! instance.

use crate::text::{chars_of, parse_unsigned, parse_unsigned_chars, trim, trim_chars};
use vstd::prelude::*;

verus! {

/// The process ID held by a lock file's text: the text without surrounding
/// whitespace, read as a decimal `u32`; `None` when it is not one.
pub fn lock_pid(text: &str) -> (r: Option<u32>)
    ensures
        r matches Some(p) ==> parse_unsigned(trim(text@), 10, 0xffff_ffff) == Some(p as nat),
        r is None ==> parse_unsigned(trim(text@), 10, 0xffff_ffff) is None,
{
    let t = trim_chars(&chars_of(text));
    match parse_unsigned_chars(&t, 10, 0xffff_ffff) {
        Some(v) => Some(v as u32),
        None => None,
    }
}

} // verus!
