//! Instruction planning for a test harness that drives an external lending
//! program: deterministic program-derived addresses, the closed sets of assets
//! the harness supports, and the ordered instruction lists each user action
//! submits.

pub mod address;
pub mod asset;
pub mod instruction;
pub mod market;
pub mod pda;
pub mod plan;
pub mod program;

pub use address::{derive_address, Address};
pub use asset::{BorrowAsset, FarmReserve};
pub use instruction::{Instruction, InstructionView};
pub use market::{Market, Reserve};
pub use pda::{
    market_authority_address, obligation_address, obligation_farm_address, user_metadata_address,
    zero_address,
};
pub use plan::{
    borrow_obligation_liquidity, deposit_obligation_collateral, deposit_reserve_jitosol_liquidity,
    deposit_reserve_sol_liquidity, init_obligation, init_obligation_farms_for_reserve,
    init_user_metadata, refresh_obligation, refresh_reserve,
};
pub use program::{initialize, Initialize};
