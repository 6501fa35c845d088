use integrate_klend::{
    borrow_obligation_liquidity, deposit_obligation_collateral, deposit_reserve_jitosol_liquidity,
    deposit_reserve_sol_liquidity, init_obligation, init_obligation_farms_for_reserve,
    init_user_metadata, initialize, market_authority_address, obligation_address,
    obligation_farm_address, refresh_obligation, refresh_reserve, user_metadata_address,
    zero_address, Address, BorrowAsset, FarmReserve, Initialize, Instruction, Market, Reserve,
};

fn addr(b: u8) -> Address {
    Address { bytes: [b; 32] }
}

fn reserve(base: u8) -> Reserve {
    Reserve {
        state: addr(base),
        liquidity_mint: addr(base + 1),
        liquidity_supply_vault: addr(base + 2),
        liquidity_fee_vault: addr(base + 3),
        collateral_mint: addr(base + 4),
        collateral_supply_vault: addr(base + 5),
        farm_state: addr(base + 6),
    }
}

fn program() -> Address {
    let mut bytes = [0u8; 32];
    for (i, b) in bytes.iter_mut().enumerate() {
        *b = i as u8 + 1;
    }
    Address { bytes }
}

fn market() -> Market {
    Market {
        program: program(),
        market: addr(7),
        market_authority: addr(8),
        sol: reserve(100),
        usdc: reserve(120),
        jitosol: reserve(140),
    }
}

fn user() -> Address {
    addr(9)
}

const OBLIGATION_0_0: [u8; 32] = [
    124, 74, 161, 35, 18, 131, 164, 250, 135, 114, 154, 81, 1, 208, 75, 196, 107, 12, 136, 113,
    186, 40, 149, 146, 204, 115, 130, 131, 135, 7, 143, 255,
];
const USER_METADATA: [u8; 32] = [
    190, 42, 51, 179, 147, 4, 213, 12, 19, 206, 67, 167, 115, 42, 234, 131, 1, 103, 34, 0, 115,
    184, 65, 102, 239, 149, 77, 189, 142, 57, 72, 124,
];
const MARKET_AUTHORITY: [u8; 32] = [
    128, 254, 162, 211, 245, 47, 28, 113, 150, 231, 247, 230, 251, 8, 235, 154, 229, 154, 113,
    160, 139, 70, 167, 203, 111, 254, 184, 89, 90, 55, 129, 134,
];

#[test]
fn initialize_succeeds() {
    assert!(initialize(&Initialize {}).is_ok());
}

#[test]
fn borrow_asset_accepts_supported_symbols() {
    assert_eq!(BorrowAsset::from_symbol("SOL"), Some(BorrowAsset::Sol));
    assert_eq!(BorrowAsset::from_symbol("USDC"), Some(BorrowAsset::Usdc));
}

#[test]
fn borrow_asset_rejects_other_symbols() {
    for s in ["JITOSOL", "sol", "usdc", "", "SOLX", "SO", "USD"] {
        assert_eq!(BorrowAsset::from_symbol(s), None, "{}", s);
    }
}

#[test]
fn farm_reserve_accepts_only_sol() {
    assert_eq!(FarmReserve::from_symbol("SOL"), Some(FarmReserve::Sol));
    for s in ["USDC", "JITOSOL", "", "Sol"] {
        assert_eq!(FarmReserve::from_symbol(s), None, "{}", s);
    }
}

#[test]
fn zero_address_is_all_zero() {
    assert_eq!(zero_address().bytes, [0u8; 32]);
}

#[test]
fn derived_addresses_match_known_values() {
    let m = market();
    assert_eq!(
        obligation_address(&m.program, 0, 0, &user(), &m.market),
        Some(Address { bytes: OBLIGATION_0_0 })
    );
    assert_eq!(
        user_metadata_address(&m.program, &user()),
        Some(Address { bytes: USER_METADATA })
    );
    assert_eq!(
        market_authority_address(&m.program, &m.market),
        Some(Address { bytes: MARKET_AUTHORITY })
    );
}

#[test]
fn obligation_address_is_deterministic() {
    let m = market();
    let a = obligation_address(&m.program, 3, 5, &user(), &m.market);
    let b = obligation_address(&m.program, 3, 5, &user(), &m.market);
    assert!(a.is_some());
    assert_eq!(a, b);
}

#[test]
fn obligation_address_depends_on_every_input() {
    let m = market();
    let base = obligation_address(&m.program, 0, 0, &user(), &m.market).unwrap();
    assert_ne!(Some(base), obligation_address(&m.program, 1, 0, &user(), &m.market));
    assert_ne!(Some(base), obligation_address(&m.program, 0, 1, &user(), &m.market));
    assert_ne!(Some(base), obligation_address(&m.program, 0, 0, &addr(10), &m.market));
    assert_ne!(Some(base), obligation_address(&m.program, 0, 0, &user(), &addr(11)));
    assert_ne!(Some(base), obligation_address(&addr(12), 0, 0, &user(), &m.market));
}

#[test]
fn init_obligation_twice_derives_same_address() {
    let m = market();
    let (first, ixs1) = init_obligation(&m, &user(), 0, 0).unwrap();
    let (second, ixs2) = init_obligation(&m, &user(), 0, 0).unwrap();
    assert_eq!(first, second);
    assert_eq!(first.bytes, OBLIGATION_0_0);
    assert_eq!(ixs1, ixs2);
}

#[test]
fn init_obligation_instruction_carries_inputs() {
    let m = market();
    let (obligation, ixs) = init_obligation(&m, &user(), 2, 4).unwrap();
    let meta = user_metadata_address(&m.program, &user()).unwrap();
    assert_eq!(
        ixs,
        vec![Instruction::InitObligation {
            obligation_owner: user(),
            fee_payer: user(),
            obligation,
            lending_market: m.market,
            seed1_account: Address { bytes: [0; 32] },
            seed2_account: Address { bytes: [0; 32] },
            owner_user_metadata: meta,
            tag: 2,
            id: 4,
        }]
    );
}

#[test]
fn init_user_metadata_uses_derived_address() {
    let m = market();
    let ixs = init_user_metadata(&m, &user(), &addr(33)).unwrap();
    assert_eq!(
        ixs,
        vec![Instruction::InitUserMetadata {
            owner: user(),
            fee_payer: user(),
            user_metadata: Address { bytes: USER_METADATA },
            user_lookup_table: addr(33),
        }]
    );
}

#[test]
fn refresh_instructions() {
    let m = market();
    assert_eq!(
        refresh_reserve(&m, &addr(50)),
        vec![Instruction::RefreshReserve { reserve: addr(50), lending_market: m.market }]
    );
    let reserves = vec![addr(51), addr(52)];
    assert_eq!(
        refresh_obligation(&m, &addr(53), &reserves),
        vec![Instruction::RefreshObligation {
            obligation: addr(53),
            lending_market: m.market,
            reserves: vec![addr(51), addr(52)],
        }]
    );
}

#[test]
fn deposit_jitosol_liquidity_carries_amount() {
    let m = market();
    let ixs = deposit_reserve_jitosol_liquidity(&m, &user(), &addr(60), &addr(61), 1_000_000)
        .unwrap();
    assert_eq!(
        ixs,
        vec![Instruction::DepositReserveLiquidity {
            owner: user(),
            reserve: m.jitosol.state,
            lending_market: m.market,
            lending_market_authority: Address { bytes: MARKET_AUTHORITY },
            reserve_liquidity_mint: m.jitosol.liquidity_mint,
            reserve_liquidity_supply: m.jitosol.liquidity_supply_vault,
            reserve_collateral_mint: m.jitosol.collateral_mint,
            user_source_liquidity: addr(60),
            user_destination_collateral: addr(61),
            liquidity_amount: 1_000_000,
        }]
    );
}

#[test]
fn deposit_sol_liquidity_refreshes_deposits_and_closes() {
    let m = market();
    let ixs = deposit_reserve_sol_liquidity(&m, &user(), &addr(70), &addr(71), 1_000_000).unwrap();
    assert_eq!(
        ixs,
        vec![
            Instruction::RefreshReserve { reserve: m.sol.state, lending_market: m.market },
            Instruction::DepositReserveLiquidity {
                owner: user(),
                reserve: m.sol.state,
                lending_market: m.market,
                lending_market_authority: Address { bytes: MARKET_AUTHORITY },
                reserve_liquidity_mint: m.sol.liquidity_mint,
                reserve_liquidity_supply: m.sol.liquidity_supply_vault,
                reserve_collateral_mint: m.sol.collateral_mint,
                user_source_liquidity: addr(70),
                user_destination_collateral: addr(71),
                liquidity_amount: 1_000_000,
            },
            Instruction::CloseTokenAccount { account: addr(70), destination: user(), owner: user() },
        ]
    );
}

#[test]
fn deposit_obligation_collateral_sweeps_whole_balance() {
    let m = market();
    for balance in [0u64, 1, 987_654, u64::MAX] {
        let ixs = deposit_obligation_collateral(&m, &user(), &addr(80), &addr(81), balance);
        assert_eq!(
            ixs,
            vec![
                Instruction::RefreshReserve { reserve: m.jitosol.state, lending_market: m.market },
                Instruction::RefreshObligation {
                    obligation: addr(80),
                    lending_market: m.market,
                    reserves: vec![],
                },
                Instruction::DepositObligationCollateral {
                    owner: user(),
                    obligation: addr(80),
                    lending_market: m.market,
                    deposit_reserve: m.jitosol.state,
                    reserve_destination_collateral: m.jitosol.collateral_supply_vault,
                    user_source_collateral: addr(81),
                    collateral_amount: balance,
                },
            ]
        );
    }
}

#[test]
fn borrow_usdc_refreshes_then_borrows() {
    let m = market();
    let ixs = borrow_obligation_liquidity(&m, &user(), &addr(90), BorrowAsset::Usdc, &addr(91), 25);
    assert_eq!(
        ixs,
        vec![
            Instruction::RefreshReserve { reserve: m.jitosol.state, lending_market: m.market },
            Instruction::RefreshReserve { reserve: m.usdc.state, lending_market: m.market },
            Instruction::RefreshObligation {
                obligation: addr(90),
                lending_market: m.market,
                reserves: vec![m.jitosol.state],
            },
            Instruction::BorrowObligationLiquidity {
                owner: user(),
                obligation: addr(90),
                lending_market: m.market,
                lending_market_authority: m.market_authority,
                borrow_reserve: m.usdc.state,
                borrow_reserve_liquidity_mint: m.usdc.liquidity_mint,
                reserve_source_liquidity: m.usdc.liquidity_supply_vault,
                borrow_reserve_liquidity_fee_receiver: m.usdc.liquidity_fee_vault,
                user_destination_liquidity: addr(91),
                liquidity_amount: 25,
            },
        ]
    );
}

#[test]
fn borrow_sol_uses_sol_reserve() {
    let m = market();
    let ixs = borrow_obligation_liquidity(&m, &user(), &addr(90), BorrowAsset::Sol, &addr(92), 7);
    assert_eq!(ixs.len(), 4);
    assert_eq!(ixs[1], Instruction::RefreshReserve { reserve: m.sol.state, lending_market: m.market });
    match &ixs[3] {
        Instruction::BorrowObligationLiquidity { borrow_reserve, liquidity_amount, .. } => {
            assert_eq!(*borrow_reserve, m.sol.state);
            assert_eq!(*liquidity_amount, 7);
        }
        other => panic!("unexpected {:?}", other),
    }
}

#[test]
fn init_farms_for_sol_reserve() {
    let m = market();
    let obligation = addr(95);
    let farm = obligation_farm_address(&m.program, &m.sol.farm_state, &obligation).unwrap();
    assert_ne!(farm, obligation);
    assert_ne!(farm, m.sol.farm_state);
    let ixs = init_obligation_farms_for_reserve(&m, &user(), &obligation, FarmReserve::Sol).unwrap();
    assert_eq!(
        ixs,
        vec![Instruction::InitObligationFarmsForReserve {
            payer: user(),
            owner: user(),
            obligation,
            lending_market_authority: m.market_authority,
            reserve: m.sol.state,
            reserve_farm_state: m.sol.farm_state,
            obligation_farm: farm,
            lending_market: m.market,
            mode: 0,
        }]
    );
}
