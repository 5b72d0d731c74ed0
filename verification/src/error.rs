use vstd::prelude::*;
use vstd::string::StringExecFns;

verus! {

/// Why an operation on a switch was refused.
#[derive(Clone, Copy, Debug, PartialEq, Eq, Hash, Structural)]
pub enum ErrorCode {
    /// The switch identifier is empty or longer than the allowed number of bytes.
    InvalidSwitchId,
    /// The beneficiary list is empty or longer than the allowed maximum.
    InvalidBeneficiaryCount,
    /// The shares do not add up to the whole.
    InvalidShareDistribution,
    /// The timeout is zero or negative.
    InvalidTimeout,
    /// The switch has already expired or been canceled.
    SwitchNotActive,
    /// The heartbeat deadline has not passed yet.
    DeadlineNotPassed,
    /// Funds can only be distributed once the switch has expired.
    SwitchNotExpired,
    /// Funds can only be withdrawn once the switch has been canceled.
    SwitchNotCanceled,
    /// The heartbeat arrived after the deadline had lapsed.
    SwitchAlreadyExpired,
    /// The switch holds another kind of asset than the operation moves.
    InvalidTokenType,
    /// The escrow holds nothing beyond what it must retain.
    InsufficientFunds,
    /// The address is not among the beneficiaries of the switch.
    BeneficiaryNotFound,
    /// A beneficiary was given an empty list of assets.
    InvalidAssetAllocation,
}

impl ErrorCode {
    /// The text shown to the caller for each error.
    pub open spec fn message_text(self) -> Seq<char> {
        match self {
            ErrorCode::InvalidSwitchId => "Invalid switch ID (1-32 characters allowed)"@,
            ErrorCode::InvalidBeneficiaryCount => "Invalid number of beneficiaries (1-10 allowed)"@,
            ErrorCode::InvalidShareDistribution => "Beneficiary shares must sum to 10000 basis points (100%)"@,
            ErrorCode::InvalidTimeout => "Timeout must be positive"@,
            ErrorCode::SwitchNotActive => "Switch is not active"@,
            ErrorCode::DeadlineNotPassed => "Deadline has not passed yet"@,
            ErrorCode::SwitchNotExpired => "Switch has not expired"@,
            ErrorCode::SwitchNotCanceled => "Switch has not been canceled"@,
            ErrorCode::SwitchAlreadyExpired => "Switch has already expired - heartbeat rejected"@,
            ErrorCode::InvalidTokenType => "Invalid token type for this operation"@,
            ErrorCode::InsufficientFunds => "Insufficient funds in escrow"@,
            ErrorCode::BeneficiaryNotFound => "Beneficiary not found"@,
            ErrorCode::InvalidAssetAllocation => "Invalid asset allocation - beneficiary must have at least one asset"@,
        }
    }

    /// Returns the message of this error.
    pub fn message(&self) -> (text: String)
        ensures
            text@ == self.message_text(),
    {
        match self {
            ErrorCode::InvalidSwitchId => String::from_str("Invalid switch ID (1-32 characters allowed)"),
            ErrorCode::InvalidBeneficiaryCount => String::from_str("Invalid number of beneficiaries (1-10 allowed)"),
            ErrorCode::InvalidShareDistribution => String::from_str("Beneficiary shares must sum to 10000 basis points (100%)"),
            ErrorCode::InvalidTimeout => String::from_str("Timeout must be positive"),
            ErrorCode::SwitchNotActive => String::from_str("Switch is not active"),
            ErrorCode::DeadlineNotPassed => String::from_str("Deadline has not passed yet"),
            ErrorCode::SwitchNotExpired => String::from_str("Switch has not expired"),
            ErrorCode::SwitchNotCanceled => String::from_str("Switch has not been canceled"),
            ErrorCode::SwitchAlreadyExpired => String::from_str("Switch has already expired - heartbeat rejected"),
            ErrorCode::InvalidTokenType => String::from_str("Invalid token type for this operation"),
            ErrorCode::InsufficientFunds => String::from_str("Insufficient funds in escrow"),
            ErrorCode::BeneficiaryNotFound => String::from_str("Beneficiary not found"),
            ErrorCode::InvalidAssetAllocation => String::from_str("Invalid asset allocation - beneficiary must have at least one asset"),
        }
    }
}

} // verus!
