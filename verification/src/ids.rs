//! Fresh identifiers.

use vstd::prelude::*;

use crate::text;

verus! {

/// `uuid::Uuid::new_v4` in its hyphenated form. The bits are random; the notation always takes
/// 36 characters.
#[verifier::external_body]
pub(crate) fn random_id() -> (res: String)
    ensures
        res@.len() == 36,
{
    uuid::Uuid::new_v4().to_string()
}

/// `uuid::Uuid::simple` of a fresh random identifier: 32 characters, without hyphens.
#[verifier::external_body]
fn random_simple_id() -> (res: String)
    ensures
        res@.len() == 32,
{
    uuid::Uuid::new_v4().simple().to_string()
}

/// A fresh identifier for a tool call.
pub fn tool_call_id() -> (res: String)
    ensures
        res@.len() == 37,
        res@.subrange(0, 5) == "call_"@,
{
    let id = random_simple_id();
    let res = text::joined("call_", id.as_str());
    proof {
        reveal_strlit("call_");
        assert(res@.subrange(0, 5) =~= "call_"@);
    }
    res
}

} // verus!
