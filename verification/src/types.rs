//! Data model of the enrichment stage: the routed swap opportunity coming in,
//! the estimate request going out, and the failure taxonomy of one enrichment.
use vstd::prelude::*;

verus! {

/// A 20-byte account address.
#[derive(Clone, Copy, PartialEq, Eq, Hash, Debug)]
pub struct EthAddress {
    pub bytes: [u8; 20],
}

/// A 32-byte transaction identifier.
#[derive(Clone, Copy, PartialEq, Eq, Hash, Debug)]
pub struct TxId {
    pub bytes: [u8; 32],
}

/// An unsigned 256-bit wei amount, held as two 128-bit limbs.
#[derive(Clone, Copy, PartialEq, Eq, Debug)]
pub struct WeiAmount {
    pub hi: u128,
    pub lo: u128,
}

impl WeiAmount {
    /// The amount as a mathematical integer.
    pub open spec fn as_nat(self) -> nat {
        (self.hi * 0x1_0000_0000_0000_0000_0000_0000_0000_0000 + self.lo) as nat
    }

    /// The zero amount: the transfer value of every estimate request.
    pub fn zero() -> (r: WeiAmount)
        ensures
            r.as_nat() == 0,
    {
        WeiAmount { hi: 0, lo: 0 }
    }

    /// An amount small enough to fit one limb.
    pub fn from_u128(lo: u128) -> (r: WeiAmount)
        ensures
            r.as_nat() == lo,
    {
        WeiAmount { hi: 0, lo }
    }
}

/// A signing identity as this stage sees it: the address under which the
/// identity is registered. The key material stays with the signer pool.
#[derive(Clone, Copy, PartialEq, Eq, Debug)]
pub struct SigningIdentity {
    pub address: EthAddress,
}

/// One account's snapshotted state: its next nonce and native-token balance.
#[derive(Clone, Copy, PartialEq, Eq, Debug)]
pub struct AccountEntry {
    pub nonce: u64,
    pub balance: WeiAmount,
}

/// A routed swap opportunity, immutable once received: an opaque swap
/// description, the stuffing transactions to accompany it, the upstream gas
/// pre-estimate, and the anticipated base fee of the next block.
#[derive(Clone, PartialEq, Eq, Debug)]
pub struct RoutingRequest<S> {
    pub swap: S,
    pub stuffing_tx_ids: Vec<TxId>,
    pub pre_estimate_gas: u64,
    pub next_block_base_fee: u64,
}

/// A routing request enriched with everything a transaction builder needs:
/// the chosen signing identity, its snapshotted nonce and balance, the
/// computed gas limit and priority fee, and the fixed zero transfer value.
#[derive(Clone, PartialEq, Eq, Debug)]
pub struct EstimateRequest<S> {
    pub routing: RoutingRequest<S>,
    pub signer: SigningIdentity,
    pub nonce: u64,
    pub eth_balance: WeiAmount,
    pub gas: u64,
    pub priority_gas_fee: u64,
    pub value: WeiAmount,
}

impl<S> EstimateRequest<S> {
    /// The invariant every estimate of this stage satisfies under the policy
    /// cap `cap`: the gas limit is twice the pre-estimate, the transfer value
    /// is zero, the priority fee exceeds neither the cap nor the anticipated
    /// base fee, and the base fee it was built from is non-zero.
    pub open spec fn well_formed(self, cap: u64) -> bool {
        &&& self.gas == 2 * self.routing.pre_estimate_gas
        &&& self.value.as_nat() == 0
        &&& self.priority_gas_fee <= cap
        &&& self.priority_gas_fee <= self.routing.next_block_base_fee
        &&& self.routing.next_block_base_fee != 0
    }
}

/// Why one enrichment dropped its request.
#[derive(Clone, Copy, PartialEq, Eq, Debug)]
pub enum EnrichError {
    /// The signer pool had no available identity.
    ResourceUnavailable,
    /// The request's anticipated base fee was zero.
    PolicyViolation,
    /// The bus refused the publish.
    TransportFailure,
    /// The account tracker had no entry for the chosen signer.
    DataIntegrityGap,
}

} // verus!
