//! Decisions of the one-shot contract-provisioning operation: the parameters
//! of the creation transaction, the next block's base fee it pays, and the
//! block-by-block receipt poll that ends in a deployed address or a bounded
//! timeout.
use vstd::prelude::*;
use crate::types::EthAddress;

verus! {

/// How many blocks the receipt poll waits before giving up.
pub open spec fn receipt_poll_window() -> int {
    10
}

/// The last block (exclusive) at which the receipt poll still looks for the
/// receipt: ten blocks past the block at which the transaction was sent.
pub fn receipt_deadline(block_number: u64) -> (deadline: u64)
    requires
        block_number + receipt_poll_window() <= u64::MAX,
    ensures
        deadline == block_number + receipt_poll_window(),
{
    block_number + 10
}

/// The fields a transaction receipt contributes to the poll: the deployed
/// contract's address, when the receipt carries one.
#[derive(Clone, Copy, PartialEq, Eq, Debug)]
pub struct DeployReceipt {
    pub contract_address: Option<EthAddress>,
}

/// What one round of the receipt poll decides: the contract is deployed at
/// an address, the receipt arrived without an address, the poll waits for
/// the next block, or the window is exhausted with no receipt found.
#[derive(Clone, Copy, PartialEq, Eq, Debug)]
pub enum PollOutcome {
    Deployed(EthAddress),
    NotDeployed,
    WaitNextBlock,
    NoReceiptFound,
}

/// The receipt poll's decision at `block_number`, given the receipt lookup's
/// answer: past the deadline the poll has failed; otherwise a receipt with an
/// address means deployed, one without means the creation failed, and none
/// means wait for the next block.
pub open spec fn poll_step_spec(
    deadline: u64,
    block_number: u64,
    receipt: Option<DeployReceipt>,
) -> PollOutcome {
    if block_number >= deadline {
        PollOutcome::NoReceiptFound
    } else {
        match receipt {
            Some(r) => match r.contract_address {
                Some(addr) => PollOutcome::Deployed(addr),
                None => PollOutcome::NotDeployed,
            },
            None => PollOutcome::WaitNextBlock,
        }
    }
}

/// Decide one round of the receipt poll. The poll succeeds exactly when,
/// before the deadline, the receipt is there and carries the deployed
/// address; it keeps waiting exactly when the receipt is still missing.
pub fn poll_step(
    deadline: u64,
    block_number: u64,
    receipt: Option<DeployReceipt>,
) -> (outcome: PollOutcome)
    ensures
        outcome == poll_step_spec(deadline, block_number, receipt),
        outcome matches PollOutcome::Deployed(addr)
            ==> block_number < deadline
                && receipt == (Some(DeployReceipt { contract_address: Some(addr) })),
        receipt matches Some(r) ==> (r.contract_address matches Some(a)
            ==> (block_number < deadline ==> outcome == PollOutcome::Deployed(a))),
        outcome is NoReceiptFound <==> block_number >= deadline,
        outcome is WaitNextBlock <==> block_number < deadline && receipt is None,
{
    if block_number >= deadline {
        PollOutcome::NoReceiptFound
    } else {
        match receipt {
            Some(r) => match r.contract_address {
                Some(addr) => PollOutcome::Deployed(addr),
                None => PollOutcome::NotDeployed,
            },
            None => PollOutcome::WaitNextBlock,
        }
    }
}

/// The parameters of the contract-creation transaction.
#[derive(Clone, PartialEq, Eq, Debug)]
pub struct DeployTxParams {
    pub code: Vec<u8>,
    pub gas_limit: u64,
    pub tx_type: u8,
    pub max_fee_per_gas: u64,
    pub max_priority_fee_per_gas: u64,
    pub nonce: u64,
    pub create: bool,
}

/// Build the creation transaction's parameters: the contract code as input,
/// a fixed three-million gas limit, fee-market type, the anticipated next
/// base fee as the fee ceiling, a one-wei priority fee, the sender's nonce,
/// and contract-creation addressing.
pub fn deploy_tx_params(code: Vec<u8>, next_base_fee: u64, nonce: u64) -> (p: DeployTxParams)
    ensures
        p.code@ == code@,
        p.gas_limit == 3_000_000,
        p.tx_type == 2,
        p.max_fee_per_gas == next_base_fee,
        p.max_priority_fee_per_gas == 1,
        p.nonce == nonce,
        p.create,
{
    DeployTxParams {
        code,
        gas_limit: 3_000_000,
        tx_type: 2,
        max_fee_per_gas: next_base_fee,
        max_priority_fee_per_gas: 1,
        nonce,
        create: true,
    }
}

/// The EIP-1559 base fee of the block after one with the given gas usage,
/// gas limit and base fee, under Ethereum mainnet parameters: an elasticity
/// multiplier of 2 and a max-change denominator of 8. The fee is unchanged
/// at the gas target (half the limit), raised by at least one wei above it,
/// and lowered below it.
pub open spec fn next_base_fee_spec(gas_used: u64, gas_limit: u64, base_fee: u64) -> int {
    let gas_target = gas_limit as int / 2;
    if gas_target == 0 {
        base_fee as int
    } else if gas_used == gas_target {
        base_fee as int
    } else if gas_used > gas_target {
        let raise = base_fee * (gas_used - gas_target) / (gas_target * 8);
        base_fee + (if raise < 1 { 1int } else { raise })
    } else {
        let cut = base_fee * (gas_target - gas_used) / (gas_target * 8);
        if base_fee - cut >= 0 { base_fee - cut } else { 0int }
    }
}

/// Relies on alloy_eips::eip1559::BaseFeeParams::ethereum and its
/// next_block_base_fee: the EIP-1559 update rule under Ethereum mainnet
/// parameters, as next_base_fee_spec states it.
#[verifier::external_body]
pub fn next_block_base_fee(gas_used: u64, gas_limit: u64, base_fee: u64) -> (r: u64)
    requires
        gas_used <= gas_limit,
        base_fee <= u64::MAX / 2,
    ensures
        r == next_base_fee_spec(gas_used, gas_limit, base_fee),
{
    alloy_eips::eip1559::BaseFeeParams::ethereum().next_block_base_fee(gas_used, gas_limit, base_fee)
}

} // verus!
