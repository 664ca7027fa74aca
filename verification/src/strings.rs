//! Small string helpers: a fixed sample string and a selector between two
//! borrowed strings.

use vstd::prelude::*;

verus! {

/// A fresh `String` holding a fixed sample text with surrounding spaces.
pub fn ret_string() -> (r: String)
    ensures
        r@ == "  A String object  "@,
{
    String::from_str("  A String object  ")
}

/// One of the two given strings: the first when `select_s1` holds, the
/// second otherwise.
pub fn choose_str<'a: 'c, 'b: 'c, 'c>(s1: &'a str, s2: &'b str, select_s1: bool) -> (r: &'c str)
    ensures
        r@ == if select_s1 { s1@ } else { s2@ },
{
    if select_s1 {
        s1
    } else {
        s2
    }
}

} // verus!
