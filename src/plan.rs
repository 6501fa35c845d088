use vstd::prelude::*;

use crate::address::{opt_view, Address};
use crate::asset::{BorrowAsset, FarmReserve};
use crate::instruction::{views, Instruction, InstructionView};
use crate::market::Market;
use crate::pda::{
    market_authority_address, market_authority_spec, obligation_address, obligation_farm_address,
    obligation_farm_spec, obligation_spec, user_metadata_address, user_metadata_spec,
    zero_address, zero_address_spec,
};

verus! {

/// Refreshing `reserve` in the market.
pub open spec fn refresh_reserve_ix(m: Market, reserve: Address) -> InstructionView {
    InstructionView::RefreshReserve { reserve, lending_market: m.market }
}

/// Refreshing `obligation` in the market against `reserves`.
pub open spec fn refresh_obligation_ix(m: Market, obligation: Address, reserves: Seq<Address>) -> InstructionView {
    InstructionView::RefreshObligation { obligation, lending_market: m.market, reserves }
}

/// Creating the metadata account of `user`, who also pays for it.
pub open spec fn init_user_metadata_ixs(user: Address, user_metadata: Address, lookup_table: Address) -> Seq<InstructionView> {
    seq![InstructionView::InitUserMetadata {
        owner: user,
        fee_payer: user,
        user_metadata,
        user_lookup_table: lookup_table,
    }]
}

/// The obligation is created with the all-zero address in both seed-account
/// places.
pub open spec fn init_obligation_ixs(
    m: Market,
    user: Address,
    obligation: Address,
    user_metadata: Address,
    tag: u8,
    id: u8,
) -> Seq<InstructionView> {
    seq![InstructionView::InitObligation {
        obligation_owner: user,
        fee_payer: user,
        obligation,
        lending_market: m.market,
        seed1_account: zero_address_spec(),
        seed2_account: zero_address_spec(),
        owner_user_metadata: user_metadata,
        tag,
        id,
    }]
}

/// Depositing `amount` of the liquid-staking asset into its reserve.
pub open spec fn deposit_jitosol_liquidity_ixs(
    m: Market,
    user: Address,
    authority: Address,
    source_liquidity: Address,
    destination_collateral: Address,
    amount: u64,
) -> Seq<InstructionView> {
    seq![InstructionView::DepositReserveLiquidity {
        owner: user,
        reserve: m.jitosol.state,
        lending_market: m.market,
        lending_market_authority: authority,
        reserve_liquidity_mint: m.jitosol.liquidity_mint,
        reserve_liquidity_supply: m.jitosol.liquidity_supply_vault,
        reserve_collateral_mint: m.jitosol.collateral_mint,
        user_source_liquidity: source_liquidity,
        user_destination_collateral: destination_collateral,
        liquidity_amount: amount,
    }]
}

/// The native asset is deposited from a temporary wrapped account, which is
/// closed after the deposit to reclaim its rent and any residue.
pub open spec fn deposit_sol_liquidity_ixs(
    m: Market,
    user: Address,
    authority: Address,
    wrapped_account: Address,
    destination_collateral: Address,
    amount: u64,
) -> Seq<InstructionView> {
    seq![
        refresh_reserve_ix(m, m.sol.state),
        InstructionView::DepositReserveLiquidity {
            owner: user,
            reserve: m.sol.state,
            lending_market: m.market,
            lending_market_authority: authority,
            reserve_liquidity_mint: m.sol.liquidity_mint,
            reserve_liquidity_supply: m.sol.liquidity_supply_vault,
            reserve_collateral_mint: m.sol.collateral_mint,
            user_source_liquidity: wrapped_account,
            user_destination_collateral: destination_collateral,
            liquidity_amount: amount,
        },
        InstructionView::CloseTokenAccount { account: wrapped_account, destination: user, owner: user },
    ]
}

/// Refreshing the collateral reserve and the obligation, then moving `amount`
/// collateral tokens from `source_collateral` into `obligation`.
pub open spec fn deposit_collateral_ixs(
    m: Market,
    user: Address,
    obligation: Address,
    source_collateral: Address,
    amount: u64,
) -> Seq<InstructionView> {
    seq![
        refresh_reserve_ix(m, m.jitosol.state),
        refresh_obligation_ix(m, obligation, seq![]),
        InstructionView::DepositObligationCollateral {
            owner: user,
            obligation,
            lending_market: m.market,
            deposit_reserve: m.jitosol.state,
            reserve_destination_collateral: m.jitosol.collateral_supply_vault,
            user_source_collateral: source_collateral,
            collateral_amount: amount,
        },
    ]
}

/// Refreshing the collateral reserve, the reserve of `asset` and the
/// obligation, then borrowing `amount` of `asset`.
pub open spec fn borrow_ixs(
    m: Market,
    user: Address,
    obligation: Address,
    asset: BorrowAsset,
    destination_liquidity: Address,
    amount: u64,
) -> Seq<InstructionView> {
    let reserve = asset.reserve_spec(m);
    seq![
        refresh_reserve_ix(m, m.jitosol.state),
        refresh_reserve_ix(m, reserve.state),
        refresh_obligation_ix(m, obligation, seq![m.jitosol.state]),
        InstructionView::BorrowObligationLiquidity {
            owner: user,
            obligation,
            lending_market: m.market,
            lending_market_authority: m.market_authority,
            borrow_reserve: reserve.state,
            borrow_reserve_liquidity_mint: reserve.liquidity_mint,
            reserve_source_liquidity: reserve.liquidity_supply_vault,
            borrow_reserve_liquidity_fee_receiver: reserve.liquidity_fee_vault,
            user_destination_liquidity: destination_liquidity,
            liquidity_amount: amount,
        },
    ]
}

/// Creating the farm account `obligation_farm` of `obligation` for `reserve`.
pub open spec fn init_farms_ixs(
    m: Market,
    user: Address,
    obligation: Address,
    reserve: FarmReserve,
    obligation_farm: Address,
) -> Seq<InstructionView> {
    let r = reserve.reserve_spec(m);
    seq![InstructionView::InitObligationFarmsForReserve {
        payer: user,
        owner: user,
        obligation,
        lending_market_authority: m.market_authority,
        reserve: r.state,
        reserve_farm_state: r.farm_state,
        obligation_farm,
        lending_market: m.market,
        mode: 0,
    }]
}

/// A copy of a list of addresses.
fn copy_addresses(v: &Vec<Address>) -> (r: Vec<Address>)
    ensures
        r@ == v@,
{
    let mut out: Vec<Address> = Vec::new();
    let mut i: usize = 0;
    while i < v.len()
        invariant
            i <= v@.len(),
            out@ == v@.subrange(0, i as int),
        decreases v@.len() - i,
    {
        out.push(v[i]);
        i = i + 1;
    }
    assert(out@ =~= v@);
    out
}

/// Refreshes `reserve`.
pub fn refresh_reserve(market: &Market, reserve: &Address) -> (r: Vec<Instruction>)
    ensures
        views(r@) == seq![refresh_reserve_ix(*market, *reserve)],
{
    let r = vec![Instruction::RefreshReserve { reserve: *reserve, lending_market: market.market }];
    assert(views(r@) =~= seq![refresh_reserve_ix(*market, *reserve)]);
    r
}

/// Refreshes `obligation` against `reserves`.
pub fn refresh_obligation(market: &Market, obligation: &Address, reserves: &Vec<Address>) -> (r: Vec<Instruction>)
    ensures
        views(r@) == seq![refresh_obligation_ix(*market, *obligation, reserves@)],
{
    let r = vec![Instruction::RefreshObligation {
        obligation: *obligation,
        lending_market: market.market,
        reserves: copy_addresses(reserves),
    }];
    assert(views(r@) =~= seq![refresh_obligation_ix(*market, *obligation, reserves@)]);
    r
}

/// Creates the user-metadata account of `user`, recording `lookup_table` as
/// its address lookup table. `None` when the metadata address cannot be
/// derived.
pub fn init_user_metadata(market: &Market, user: &Address, lookup_table: &Address) -> (r: Option<
    Vec<Instruction>,
>)
    ensures
        match r {
            None => user_metadata_spec(market.program@, user@) is None,
            Some(ixs) => exists|meta: Address|
                #![trigger init_user_metadata_ixs(*user, meta, *lookup_table)]
                user_metadata_spec(market.program@, user@) == Some(meta@) && views(ixs@)
                    == init_user_metadata_ixs(*user, meta, *lookup_table),
        },
{
    match user_metadata_address(&market.program, user) {
        None => None,
        Some(meta) => {
            let r = vec![Instruction::InitUserMetadata {
                owner: *user,
                fee_payer: *user,
                user_metadata: meta,
                user_lookup_table: *lookup_table,
            }];
            assert(views(r@) =~= init_user_metadata_ixs(*user, meta, *lookup_table));
            Some(r)
        },
    }
}

/// Creates the obligation `(tag, id)` of `user` in the market and returns its
/// address with the instructions. `None` when the obligation or the user's
/// metadata address cannot be derived.
pub fn init_obligation(market: &Market, user: &Address, tag: u8, id: u8) -> (r: Option<
    (Address, Vec<Instruction>),
>)
    ensures
        match r {
            None => obligation_spec(market.program@, tag, id, user@, market.market@) is None
                || user_metadata_spec(market.program@, user@) is None,
            Some((obligation, ixs)) => {
                &&& obligation_spec(market.program@, tag, id, user@, market.market@) == Some(
                    obligation@,
                )
                &&& exists|meta: Address|
                    #![trigger init_obligation_ixs(*market, *user, obligation, meta, tag, id)]
                    user_metadata_spec(market.program@, user@) == Some(meta@) && views(ixs@)
                        == init_obligation_ixs(*market, *user, obligation, meta, tag, id)
            },
        },
{
    let obligation = match obligation_address(&market.program, tag, id, user, &market.market) {
        None => return None,
        Some(a) => a,
    };
    let meta = match user_metadata_address(&market.program, user) {
        None => return None,
        Some(a) => a,
    };
    let placeholder = zero_address();
    let r = vec![Instruction::InitObligation {
        obligation_owner: *user,
        fee_payer: *user,
        obligation,
        lending_market: market.market,
        seed1_account: placeholder,
        seed2_account: placeholder,
        owner_user_metadata: meta,
        tag,
        id,
    }];
    assert(views(r@) =~= init_obligation_ixs(*market, *user, obligation, meta, tag, id));
    Some((obligation, r))
}

/// Deposits `amount` of the liquid-staking asset into its reserve, from
/// `source_liquidity` to `destination_collateral`. `None` when the market's
/// authority cannot be derived.
pub fn deposit_reserve_jitosol_liquidity(
    market: &Market,
    user: &Address,
    source_liquidity: &Address,
    destination_collateral: &Address,
    amount: u64,
) -> (r: Option<Vec<Instruction>>)
    ensures
        match r {
            None => market_authority_spec(market.program@, market.market@) is None,
            Some(ixs) => exists|authority: Address|
                #![trigger deposit_jitosol_liquidity_ixs(*market, *user, authority, *source_liquidity, *destination_collateral, amount)]
                market_authority_spec(market.program@, market.market@) == Some(authority@)
                    && views(ixs@) == deposit_jitosol_liquidity_ixs(
                    *market,
                    *user,
                    authority,
                    *source_liquidity,
                    *destination_collateral,
                    amount,
                ),
        },
{
    match market_authority_address(&market.program, &market.market) {
        None => None,
        Some(authority) => {
            let r = vec![Instruction::DepositReserveLiquidity {
                owner: *user,
                reserve: market.jitosol.state,
                lending_market: market.market,
                lending_market_authority: authority,
                reserve_liquidity_mint: market.jitosol.liquidity_mint,
                reserve_liquidity_supply: market.jitosol.liquidity_supply_vault,
                reserve_collateral_mint: market.jitosol.collateral_mint,
                user_source_liquidity: *source_liquidity,
                user_destination_collateral: *destination_collateral,
                liquidity_amount: amount,
            }];
            assert(views(r@) =~= deposit_jitosol_liquidity_ixs(
                *market,
                *user,
                authority,
                *source_liquidity,
                *destination_collateral,
                amount,
            ));
            Some(r)
        },
    }
}

/// Deposits `amount` of the native asset into its reserve from the funded
/// temporary account `wrapped_account`, then closes that account. `None` when
/// the market's authority cannot be derived.
pub fn deposit_reserve_sol_liquidity(
    market: &Market,
    user: &Address,
    wrapped_account: &Address,
    destination_collateral: &Address,
    amount: u64,
) -> (r: Option<Vec<Instruction>>)
    ensures
        match r {
            None => market_authority_spec(market.program@, market.market@) is None,
            Some(ixs) => exists|authority: Address|
                #![trigger deposit_sol_liquidity_ixs(*market, *user, authority, *wrapped_account, *destination_collateral, amount)]
                market_authority_spec(market.program@, market.market@) == Some(authority@)
                    && views(ixs@) == deposit_sol_liquidity_ixs(
                    *market,
                    *user,
                    authority,
                    *wrapped_account,
                    *destination_collateral,
                    amount,
                ),
        },
{
    match market_authority_address(&market.program, &market.market) {
        None => None,
        Some(authority) => {
            let r = vec![
                Instruction::RefreshReserve { reserve: market.sol.state, lending_market: market.market },
                Instruction::DepositReserveLiquidity {
                    owner: *user,
                    reserve: market.sol.state,
                    lending_market: market.market,
                    lending_market_authority: authority,
                    reserve_liquidity_mint: market.sol.liquidity_mint,
                    reserve_liquidity_supply: market.sol.liquidity_supply_vault,
                    reserve_collateral_mint: market.sol.collateral_mint,
                    user_source_liquidity: *wrapped_account,
                    user_destination_collateral: *destination_collateral,
                    liquidity_amount: amount,
                },
                Instruction::CloseTokenAccount {
                    account: *wrapped_account,
                    destination: *user,
                    owner: *user,
                },
            ];
            assert(views(r@) =~= deposit_sol_liquidity_ixs(
                *market,
                *user,
                authority,
                *wrapped_account,
                *destination_collateral,
                amount,
            ));
            Some(r)
        },
    }
}

/// Moves the user's whole collateral balance `balance`, held in
/// `source_collateral`, into `obligation`, after refreshing the reserve and
/// the obligation.
pub fn deposit_obligation_collateral(
    market: &Market,
    user: &Address,
    obligation: &Address,
    source_collateral: &Address,
    balance: u64,
) -> (r: Vec<Instruction>)
    ensures
        views(r@) == deposit_collateral_ixs(*market, *user, *obligation, *source_collateral, balance),
{
    let r = vec![
        Instruction::RefreshReserve { reserve: market.jitosol.state, lending_market: market.market },
        Instruction::RefreshObligation {
            obligation: *obligation,
            lending_market: market.market,
            reserves: Vec::new(),
        },
        Instruction::DepositObligationCollateral {
            owner: *user,
            obligation: *obligation,
            lending_market: market.market,
            deposit_reserve: market.jitosol.state,
            reserve_destination_collateral: market.jitosol.collateral_supply_vault,
            user_source_collateral: *source_collateral,
            collateral_amount: balance,
        },
    ];
    assert(views(r@) =~= deposit_collateral_ixs(*market, *user, *obligation, *source_collateral, balance));
    r
}

/// Borrows `amount` of `asset` against `obligation` into
/// `destination_liquidity`, after refreshing the collateral reserve, the
/// borrowed reserve and the obligation.
pub fn borrow_obligation_liquidity(
    market: &Market,
    user: &Address,
    obligation: &Address,
    asset: BorrowAsset,
    destination_liquidity: &Address,
    amount: u64,
) -> (r: Vec<Instruction>)
    ensures
        views(r@) == borrow_ixs(*market, *user, *obligation, asset, *destination_liquidity, amount),
{
    let reserve = asset.reserve(market);
    let collateral_reserves: Vec<Address> = vec![market.jitosol.state];
    assert(collateral_reserves@ =~= seq![market.jitosol.state]);
    let r = vec![
        Instruction::RefreshReserve { reserve: market.jitosol.state, lending_market: market.market },
        Instruction::RefreshReserve { reserve: reserve.state, lending_market: market.market },
        Instruction::RefreshObligation {
            obligation: *obligation,
            lending_market: market.market,
            reserves: collateral_reserves,
        },
        Instruction::BorrowObligationLiquidity {
            owner: *user,
            obligation: *obligation,
            lending_market: market.market,
            lending_market_authority: market.market_authority,
            borrow_reserve: reserve.state,
            borrow_reserve_liquidity_mint: reserve.liquidity_mint,
            reserve_source_liquidity: reserve.liquidity_supply_vault,
            borrow_reserve_liquidity_fee_receiver: reserve.liquidity_fee_vault,
            user_destination_liquidity: *destination_liquidity,
            liquidity_amount: amount,
        },
    ];
    assert(views(r@) =~= borrow_ixs(*market, *user, *obligation, asset, *destination_liquidity, amount));
    r
}

/// Creates the farm account of `obligation` for `reserve`. `None` when the
/// obligation-farm address cannot be derived.
pub fn init_obligation_farms_for_reserve(
    market: &Market,
    user: &Address,
    obligation: &Address,
    reserve: FarmReserve,
) -> (r: Option<Vec<Instruction>>)
    ensures
        match r {
            None => obligation_farm_spec(
                market.program@,
                reserve.reserve_spec(*market).farm_state@,
                obligation@,
            ) is None,
            Some(ixs) => exists|farm: Address|
                #![trigger init_farms_ixs(*market, *user, *obligation, reserve, farm)]
                obligation_farm_spec(
                    market.program@,
                    reserve.reserve_spec(*market).farm_state@,
                    obligation@,
                ) == Some(farm@) && views(ixs@) == init_farms_ixs(
                    *market,
                    *user,
                    *obligation,
                    reserve,
                    farm,
                ),
        },
{
    let accounts = reserve.reserve(market);
    match obligation_farm_address(&market.program, &accounts.farm_state, obligation) {
        None => None,
        Some(farm) => {
            let r = vec![Instruction::InitObligationFarmsForReserve {
                payer: *user,
                owner: *user,
                obligation: *obligation,
                lending_market_authority: market.market_authority,
                reserve: accounts.state,
                reserve_farm_state: accounts.farm_state,
                obligation_farm: farm,
                lending_market: market.market,
                mode: 0,
            }];
            assert(views(r@) =~= init_farms_ixs(*market, *user, *obligation, reserve, farm));
            Some(r)
        },
    }
}

/// The collateral that `ixs` deposits into obligations out of `source`.
pub open spec fn collateral_taken(ixs: Seq<InstructionView>, source: Address) -> int
    decreases ixs.len(),
{
    if ixs.len() == 0 {
        0
    } else {
        collateral_taken(ixs.drop_last(), source) + match ixs.last() {
            InstructionView::DepositObligationCollateral {
                user_source_collateral,
                collateral_amount,
                ..
            } => if user_source_collateral == source {
                collateral_amount as int
            } else {
                0
            },
            _ => 0,
        }
    }
}

/// Depositing obligation collateral is a full sweep: whatever the balance of
/// the source account, the instructions planned for it deposit exactly that
/// balance out of it, so nothing is left there.
pub proof fn lemma_collateral_deposit_sweeps_balance(
    market: Market,
    user: Address,
    obligation: Address,
    source_collateral: Address,
    balance: u64,
)
    ensures
        balance - collateral_taken(
            deposit_collateral_ixs(market, user, obligation, source_collateral, balance),
            source_collateral,
        ) == 0,
{
    let ixs = deposit_collateral_ixs(market, user, obligation, source_collateral, balance);
    assert(ixs.drop_last().drop_last().drop_last() =~= Seq::<InstructionView>::empty());
    reveal_with_fuel(collateral_taken, 4);
}

} // verus!
