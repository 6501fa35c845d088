use vstd::prelude::*;

use crate::address::Address;

verus! {

/// The well-known accounts of one reserve of the lending market.
#[derive(Clone, Copy, Debug, PartialEq, Eq)]
pub struct Reserve {
    pub state: Address,
    pub liquidity_mint: Address,
    pub liquidity_supply_vault: Address,
    pub liquidity_fee_vault: Address,
    pub collateral_mint: Address,
    pub collateral_supply_vault: Address,
    pub farm_state: Address,
}

/// The lending program, its market and the reserves the harness uses.
#[derive(Clone, Copy, Debug, PartialEq, Eq)]
pub struct Market {
    pub program: Address,
    pub market: Address,
    pub market_authority: Address,
    pub sol: Reserve,
    pub usdc: Reserve,
    pub jitosol: Reserve,
}

} // verus!
