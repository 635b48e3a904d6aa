//! The wall clock, read for the creation stamps of rows.

use vstd::prelude::*;
use vstd::string::*;

verus! {

/// Relies on chrono's `Local::now` and `DateTime::format`: the local time as
/// `YYYY-MM-DD HH:MM:SS`. It depends on the clock, so nothing is stated of it.
#[verifier::external_body]
pub(crate) fn local_timestamp() -> (r: String) {
    chrono::Local::now().format("%Y-%m-%d %H:%M:%S").to_string()
}

/// A timestamp cut to minutes: its first sixteen characters
/// (`YYYY-MM-DD HH:MM`), or all of it when shorter.
pub open spec fn minute_of(stamp: Seq<char>) -> Seq<char> {
    if stamp.len() <= 16 { stamp } else { stamp.subrange(0, 16) }
}

/// Cuts a timestamp to minutes: see `minute_of`.
pub fn minute_stamp(stamp: String) -> (r: String)
    ensures
        r@ == minute_of(stamp@),
{
    if stamp.as_str().unicode_len() <= 16 {
        stamp
    } else {
        String::from_str(stamp.as_str().substring_char(0, 16))
    }
}

} // verus!
