use vstd::prelude::*;

use crate::address::Address;

verus! {

/// One instruction for the lending program (or, for closing a token account,
/// the token program), with its accounts and arguments resolved.
#[derive(Clone, Debug, PartialEq, Eq)]
pub enum Instruction {
    /// The instruction that creates the user-metadata account of `owner`.
    InitUserMetadata {
        owner: Address,
        fee_payer: Address,
        user_metadata: Address,
        user_lookup_table: Address,
    },
    /// The instruction that creates the obligation `(tag, id)` of `obligation_owner`.
    InitObligation {
        obligation_owner: Address,
        fee_payer: Address,
        obligation: Address,
        lending_market: Address,
        seed1_account: Address,
        seed2_account: Address,
        owner_user_metadata: Address,
        tag: u8,
        id: u8,
    },
    /// The instruction that brings a reserve up to date.
    RefreshReserve {
        reserve: Address,
        lending_market: Address,
    },
    /// The instruction that brings an obligation up to date against the reserves it uses.
    RefreshObligation {
        obligation: Address,
        lending_market: Address,
        reserves: Vec<Address>,
    },
    /// The instruction that deposits liquidity into a reserve for collateral tokens.
    DepositReserveLiquidity {
        owner: Address,
        reserve: Address,
        lending_market: Address,
        lending_market_authority: Address,
        reserve_liquidity_mint: Address,
        reserve_liquidity_supply: Address,
        reserve_collateral_mint: Address,
        user_source_liquidity: Address,
        user_destination_collateral: Address,
        liquidity_amount: u64,
    },
    /// The instruction that moves collateral tokens into an obligation.
    DepositObligationCollateral {
        owner: Address,
        obligation: Address,
        lending_market: Address,
        deposit_reserve: Address,
        reserve_destination_collateral: Address,
        user_source_collateral: Address,
        collateral_amount: u64,
    },
    /// The instruction that borrows liquidity against an obligation.
    BorrowObligationLiquidity {
        owner: Address,
        obligation: Address,
        lending_market: Address,
        lending_market_authority: Address,
        borrow_reserve: Address,
        borrow_reserve_liquidity_mint: Address,
        reserve_source_liquidity: Address,
        borrow_reserve_liquidity_fee_receiver: Address,
        user_destination_liquidity: Address,
        liquidity_amount: u64,
    },
    /// The instruction that creates the farm account of an obligation for one reserve.
    InitObligationFarmsForReserve {
        payer: Address,
        owner: Address,
        obligation: Address,
        lending_market_authority: Address,
        reserve: Address,
        reserve_farm_state: Address,
        obligation_farm: Address,
        lending_market: Address,
        mode: u8,
    },
    /// The instruction that closes a token account of the token program, returning its lamports.
    CloseTokenAccount {
        account: Address,
        destination: Address,
        owner: Address,
    },
}

/// The model of an [`Instruction`]: the same, with its list of reserves as a sequence.
pub enum InstructionView {
    /// The instruction that creates the user-metadata account of `owner`.
    InitUserMetadata {
        owner: Address,
        fee_payer: Address,
        user_metadata: Address,
        user_lookup_table: Address,
    },
    /// The instruction that creates the obligation `(tag, id)` of `obligation_owner`.
    InitObligation {
        obligation_owner: Address,
        fee_payer: Address,
        obligation: Address,
        lending_market: Address,
        seed1_account: Address,
        seed2_account: Address,
        owner_user_metadata: Address,
        tag: u8,
        id: u8,
    },
    /// The instruction that brings a reserve up to date.
    RefreshReserve {
        reserve: Address,
        lending_market: Address,
    },
    /// The instruction that brings an obligation up to date against the reserves it uses.
    RefreshObligation {
        obligation: Address,
        lending_market: Address,
        reserves: Seq<Address>,
    },
    /// The instruction that deposits liquidity into a reserve for collateral tokens.
    DepositReserveLiquidity {
        owner: Address,
        reserve: Address,
        lending_market: Address,
        lending_market_authority: Address,
        reserve_liquidity_mint: Address,
        reserve_liquidity_supply: Address,
        reserve_collateral_mint: Address,
        user_source_liquidity: Address,
        user_destination_collateral: Address,
        liquidity_amount: u64,
    },
    /// The instruction that moves collateral tokens into an obligation.
    DepositObligationCollateral {
        owner: Address,
        obligation: Address,
        lending_market: Address,
        deposit_reserve: Address,
        reserve_destination_collateral: Address,
        user_source_collateral: Address,
        collateral_amount: u64,
    },
    /// The instruction that borrows liquidity against an obligation.
    BorrowObligationLiquidity {
        owner: Address,
        obligation: Address,
        lending_market: Address,
        lending_market_authority: Address,
        borrow_reserve: Address,
        borrow_reserve_liquidity_mint: Address,
        reserve_source_liquidity: Address,
        borrow_reserve_liquidity_fee_receiver: Address,
        user_destination_liquidity: Address,
        liquidity_amount: u64,
    },
    /// The instruction that creates the farm account of an obligation for one reserve.
    InitObligationFarmsForReserve {
        payer: Address,
        owner: Address,
        obligation: Address,
        lending_market_authority: Address,
        reserve: Address,
        reserve_farm_state: Address,
        obligation_farm: Address,
        lending_market: Address,
        mode: u8,
    },
    /// The instruction that closes a token account of the token program, returning its lamports.
    CloseTokenAccount {
        account: Address,
        destination: Address,
        owner: Address,
    },
}

impl View for Instruction {
    type V = InstructionView;

    open spec fn view(&self) -> InstructionView {
        match *self {
            Instruction::InitUserMetadata { owner, fee_payer, user_metadata, user_lookup_table } => InstructionView::InitUserMetadata { owner: owner, fee_payer: fee_payer, user_metadata: user_metadata, user_lookup_table: user_lookup_table },
            Instruction::InitObligation { obligation_owner, fee_payer, obligation, lending_market, seed1_account, seed2_account, owner_user_metadata, tag, id } => InstructionView::InitObligation { obligation_owner: obligation_owner, fee_payer: fee_payer, obligation: obligation, lending_market: lending_market, seed1_account: seed1_account, seed2_account: seed2_account, owner_user_metadata: owner_user_metadata, tag: tag, id: id },
            Instruction::RefreshReserve { reserve, lending_market } => InstructionView::RefreshReserve { reserve: reserve, lending_market: lending_market },
            Instruction::RefreshObligation { obligation, lending_market, reserves } => InstructionView::RefreshObligation { obligation: obligation, lending_market: lending_market, reserves: reserves@ },
            Instruction::DepositReserveLiquidity { owner, reserve, lending_market, lending_market_authority, reserve_liquidity_mint, reserve_liquidity_supply, reserve_collateral_mint, user_source_liquidity, user_destination_collateral, liquidity_amount } => InstructionView::DepositReserveLiquidity { owner: owner, reserve: reserve, lending_market: lending_market, lending_market_authority: lending_market_authority, reserve_liquidity_mint: reserve_liquidity_mint, reserve_liquidity_supply: reserve_liquidity_supply, reserve_collateral_mint: reserve_collateral_mint, user_source_liquidity: user_source_liquidity, user_destination_collateral: user_destination_collateral, liquidity_amount: liquidity_amount },
            Instruction::DepositObligationCollateral { owner, obligation, lending_market, deposit_reserve, reserve_destination_collateral, user_source_collateral, collateral_amount } => InstructionView::DepositObligationCollateral { owner: owner, obligation: obligation, lending_market: lending_market, deposit_reserve: deposit_reserve, reserve_destination_collateral: reserve_destination_collateral, user_source_collateral: user_source_collateral, collateral_amount: collateral_amount },
            Instruction::BorrowObligationLiquidity { owner, obligation, lending_market, lending_market_authority, borrow_reserve, borrow_reserve_liquidity_mint, reserve_source_liquidity, borrow_reserve_liquidity_fee_receiver, user_destination_liquidity, liquidity_amount } => InstructionView::BorrowObligationLiquidity { owner: owner, obligation: obligation, lending_market: lending_market, lending_market_authority: lending_market_authority, borrow_reserve: borrow_reserve, borrow_reserve_liquidity_mint: borrow_reserve_liquidity_mint, reserve_source_liquidity: reserve_source_liquidity, borrow_reserve_liquidity_fee_receiver: borrow_reserve_liquidity_fee_receiver, user_destination_liquidity: user_destination_liquidity, liquidity_amount: liquidity_amount },
            Instruction::InitObligationFarmsForReserve { payer, owner, obligation, lending_market_authority, reserve, reserve_farm_state, obligation_farm, lending_market, mode } => InstructionView::InitObligationFarmsForReserve { payer: payer, owner: owner, obligation: obligation, lending_market_authority: lending_market_authority, reserve: reserve, reserve_farm_state: reserve_farm_state, obligation_farm: obligation_farm, lending_market: lending_market, mode: mode },
            Instruction::CloseTokenAccount { account, destination, owner } => InstructionView::CloseTokenAccount { account: account, destination: destination, owner: owner },
        }
    }
}

/// The models of a list of instructions.
pub open spec fn views(ixs: Seq<Instruction>) -> Seq<InstructionView> {
    ixs.map_values(|ix: Instruction| ix@)
}

} // verus!
