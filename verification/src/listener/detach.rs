use vstd::prelude::*;
use crate::text::{trim, trim_str};

verus! {

/// The session name a detach request names: the payload, trimmed.
pub fn parse_payload(payload: &str) -> (res: String)
    ensures
        res@ == trim(payload@),
{
    String::from_str(trim_str(payload))
}

} // verus!
