//! A dead man's switch over an escrow.
//!
//! The owner of a switch gives a sign of life from time to time. If none
//! arrives before the deadline, anyone may declare the switch expired, and
//! its beneficiaries are then paid out of the escrow. While the switch is
//! active the owner may cancel it and take the funds back.
//!
//! The library takes the decisions and moves nothing itself: `lifecycle`
//! holds the rules by which a record is created and changes its status,
//! `payout` those by which funds leave the escrow, and `laws` what follows
//! from both for every record and every series of requests. The caller
//! supplies the time, the balances and the reserve, stores the record, and
//! carries out the payouts that the library orders.

pub mod error;
pub mod laws;
pub mod lifecycle;
pub mod payout;
pub mod record;

pub use error::ErrorCode;
pub use lifecycle::{
    cancel_switch, initialize_switch, initialize_switch_with_assets, send_heartbeat,
    trigger_expiry, validate_switch, validate_switch_with_assets,
};
pub use payout::{
    distribute_asset, distribute_sol, distribute_spl, share_of, signer_seeds, withdraw_sol,
    Payout,
};
pub use record::{
    find_beneficiary, sum_shares, Address, AssetAllocation, AssetType, Beneficiary,
    BeneficiaryAllocation, Switch, SwitchStatus, TokenType, BASIS_POINTS_TOTAL,
    MAX_BENEFICIARIES, MAX_SWITCH_ID_LEN,
};
