use vstd::prelude::*;
use crate::commands::awk::spec_awk;
use crate::text::{split_whitespace, views, words};

verus! {

/// The index of the first element of `ws` equal to `t`, or -1.
pub open spec fn position(ws: Seq<Seq<char>>, t: Seq<char>) -> int
    decreases ws.len(),
{
    if ws.len() == 0 {
        -1
    } else if ws[0] == t {
        0
    } else {
        let p = position(ws.drop_first(), t);
        if p < 0 {
            -1
        } else {
            p + 1
        }
    }
}

/// The 1-based number of the first word of `s` equal to `t`, or -1 when no
/// word is; the number is taken as an `i32`.
pub open spec fn spec_grep(s: Seq<char>, t: Seq<char>) -> i32 {
    let p = position(words(s), t);
    if p >= 0 {
        (p + 1) as i32
    } else {
        -1i32
    }
}

/// The position found is an index of the sequence, or -1.
pub proof fn lemma_position_range(ws: Seq<Seq<char>>, t: Seq<char>)
    ensures
        -1 <= position(ws, t) < ws.len(),
    decreases ws.len(),
{
    if ws.len() > 0 {
        lemma_position_range(ws.drop_first(), t);
    }
}

pub proof fn lemma_position(ws: Seq<Seq<char>>, t: Seq<char>, i: int)
    requires
        0 <= i <= ws.len(),
        forall|j: int| 0 <= j < i ==> ws[j] != t,
    ensures
        i < ws.len() && ws[i] == t ==> position(ws, t) == i,
        i == ws.len() ==> position(ws, t) == -1,
    decreases i,
{
    if i > 0 {
        assert forall|j: int| 0 <= j < i - 1 implies ws.drop_first()[j] != t by {
            assert(ws.drop_first()[j] == ws[j + 1]);
        }
        lemma_position(ws.drop_first(), t, i - 1);
    } else if ws.len() > 0 {
    }
}

/// The 1-based number of the first word of `str` equal to `search_term`,
/// or -1 when there is none.
pub fn grep(str: &str, search_term: &str) -> (res: i32)
    ensures
        res == spec_grep(str@, search_term@),
{
    let ws = split_whitespace(str);
    let t = String::from_str(search_term);
    let mut i: usize = 0;
    while i < ws.len()
        invariant
            i <= ws.len(),
            views(ws@) == words(str@),
            t@ == search_term@,
            forall|j: int| 0 <= j < i ==> words(str@)[j] != search_term@,
        decreases ws.len() - i,
    {
        assert(views(ws@)[i as int] == ws@[i as int]@);
        if ws[i] == t {
            proof {
                lemma_position(words(str@), search_term@, i as int);
            }
            return (i + 1) as i32;
        }
        i += 1;
    }
    proof {
        lemma_position(words(str@), search_term@, i as int);
    }
    -1
}


/// `grep` and `awk` agree: the word at the number `grep` finds is the term
/// searched for, and when `grep` finds nothing no word is the term (for
/// texts whose word numbers fit an `i32`).
pub proof fn lemma_grep_awk(s: Seq<char>, t: Seq<char>)
    requires
        words(s).len() <= i32::MAX,
    ensures
        spec_grep(s, t) > 0 ==> spec_awk(s, spec_grep(s, t) as int) == t,
        spec_grep(s, t) == -1 ==> forall|i: int| 0 <= i < words(s).len() ==> words(s)[i] != t,
        spec_grep(s, t) == -1 || spec_grep(s, t) > 0,
{
    lemma_position_range(words(s), t);
    lemma_position_found(words(s), t);
}

proof fn lemma_position_found(ws: Seq<Seq<char>>, t: Seq<char>)
    ensures
        position(ws, t) >= 0 ==> ws[position(ws, t)] == t,
        position(ws, t) < 0 ==> forall|i: int| 0 <= i < ws.len() ==> ws[i] != t,
    decreases ws.len(),
{
    if ws.len() > 0 {
        lemma_position_found(ws.drop_first(), t);
        lemma_position_range(ws.drop_first(), t);
        if position(ws, t) < 0 {
            assert forall|i: int| 0 <= i < ws.len() implies ws[i] != t by {
                if i > 0 {
                    assert(ws[i] == ws.drop_first()[i - 1]);
                }
            }
        } else if ws[0] != t {
            assert(ws[position(ws, t)] == ws.drop_first()[position(ws.drop_first(), t)]);
        }
    }
}

} // verus!
