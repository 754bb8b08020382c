use vstd::prelude::*;
use crate::text::{split_whitespace, views, words};

verus! {

/// The `no`-th whitespace-separated word of `s` (counted from 1), or a
/// single space when there is no such word.
pub open spec fn spec_awk(s: Seq<char>, no: int) -> Seq<char> {
    if 1 <= no <= words(s).len() {
        words(s)[no - 1]
    } else {
        " "@
    }
}

/// The `no`-th whitespace-separated word of `str` (counted from 1), or
/// `" "` when there is none. Word number 0 is not accepted.
pub fn awk(str: &str, no: i32) -> (res: String)
    requires
        no != 0,
    ensures
        res@ == spec_awk(str@, no as int),
{
    let ws = split_whitespace(str);
    if no >= 1 && ((no - 1) as usize) < ws.len() {
        let k = (no - 1) as usize;
        let w = ws[k].clone();
        assert(views(ws@)[k as int] == ws@[k as int]@);
        w
    } else {
        String::from_str(" ")
    }
}

} // verus!
