//! The address line that a private `dbus-daemon` prints.
use vstd::prelude::*;
use vstd::string::StrSliceExecFns;

use crate::text::{text_chars, trim, trim_bounds};

verus! {

/// The bus address in the first line a `dbus-daemon --print-address` prints:
/// the line without surrounding whitespace, or `None` when that leaves nothing.
pub fn bus_address(line: &str) -> (r: Option<String>)
    ensures
        match r {
            Some(a) => a@ == trim(line@) && a@.len() > 0,
            None => trim(line@).len() == 0,
        },
{
    let chars = text_chars(line);
    let (a, b) = trim_bounds(&chars, 0, chars.len());
    assert(chars@.subrange(0, chars@.len() as int) =~= chars@);
    if a == b {
        None
    } else {
        Some(line.substring_char(a, b).to_owned())
    }
}

} // verus!
