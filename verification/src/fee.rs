//! Gas and fee policy: the priority-fee cap, the capped priority fee, and the
//! doubled gas budget applied to every enriched request.
use vstd::prelude::*;

verus! {

/// The priority fee paid for a block with anticipated base fee `base_fee`
/// under the policy cap `cap`: the smaller of the two.
pub open spec fn priority_fee_spec(base_fee: u64, cap: u64) -> u64 {
    if base_fee > cap {
        cap
    } else {
        base_fee
    }
}

/// The gas limit granted to a swap whose upstream pre-estimate is `pre`:
/// twice the pre-estimate, as the safety margin of this stage.
pub open spec fn gas_limit_spec(pre: u64) -> int {
    2 * pre
}

/// The portion of the gas price paid above the base fee, bounded by the
/// fixed policy cap: `min(base_fee, cap)`.
pub fn priority_fee(base_fee: u64, cap: u64) -> (r: u64)
    ensures
        r == priority_fee_spec(base_fee, cap),
        r <= base_fee && r <= cap,
{
    if base_fee > cap {
        cap
    } else {
        base_fee
    }
}

/// The gas limit for a swap: twice the upstream pre-estimate.
pub fn gas_limit(pre: u64) -> (r: u64)
    requires
        2 * pre <= u64::MAX,
    ensures
        r == gas_limit_spec(pre),
{
    2 * pre
}

/// The fixed policy cap on the priority fee: nine gwei, in wei.
///
/// Relies on alloy_primitives::utils::parse_units: parsing the decimal
/// amount "9" at the gwei denomination (10^9 wei) yields 9 * 10^9 wei.
#[verifier::external_body]
pub fn default_priority_fee_cap() -> (r: u64)
    ensures
        r == 9_000_000_000u64,
{
    alloy_primitives::utils::parse_units("9", "gwei").unwrap().get_absolute().to::<u64>()
}

} // verus!
