//! Numbers that the proving SDK fixes.

use vstd::prelude::*;

verus! {

/// Reads `openvm_sdk::config::MAX_NUM_CHILDREN_LEAF`, the largest number of app
/// proofs that one leaf circuit verifies. The SDK defines it as 4.
#[verifier::external_body]
pub(crate) fn max_num_children_leaf() -> (r: usize)
    ensures
        r == 4,
{
    openvm_sdk::config::MAX_NUM_CHILDREN_LEAF
}

/// Reads `openvm_sdk::config::MAX_NUM_CHILDREN_INTERNAL`, the largest number of
/// proofs that one internal circuit verifies. The SDK defines it as 3.
#[verifier::external_body]
pub(crate) fn max_num_children_internal() -> (r: usize)
    ensures
        r == 3,
{
    openvm_sdk::config::MAX_NUM_CHILDREN_INTERNAL
}

/// Reads `openvm_verify_stark_host::pvs::DEF_PVS_AIR_ID`, the AIR whose public values say
/// how deep the deferral tree is. The crate defines it as 2.
#[verifier::external_body]
pub(crate) fn def_pvs_air_id() -> (r: usize)
    ensures
        r == 2,
{
    openvm_verify_stark_host::pvs::DEF_PVS_AIR_ID
}

} // verus!
