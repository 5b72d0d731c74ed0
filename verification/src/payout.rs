use crate::error::ErrorCode;
use crate::record::{
    find_beneficiary, first_listed, lemma_first_listed, lemma_share_within_total, listed,
    switch_id_bytes, Address, AssetType, Switch, SwitchStatus, SwitchView, TokenType,
    BASIS_POINTS_TOTAL,
};
use vstd::prelude::*;
use vstd::slice::slice_to_vec;
use vstd::string::StrSliceExecFns;

verus! {

/// An order to move funds out of the escrow of a switch. The library decides
/// it; the caller hands it to the ledger, which carries it out under the
/// escrow's derived authority.
#[derive(Clone, Debug, PartialEq, Eq)]
pub struct Payout {
    /// Who receives the funds.
    pub recipient: Address,
    /// How many units are moved.
    pub amount: u64,
    /// Which asset is moved.
    pub asset: AssetType,
    /// The seeds from which the ledger re-derives the escrow's authority.
    pub signer_seeds: Vec<Vec<u8>>,
}

/// The mathematical value of a [`Payout`].
pub struct PayoutView {
    pub recipient: Address,
    pub amount: int,
    pub asset: AssetType,
    pub signer_seeds: Seq<Seq<u8>>,
}

impl View for Payout {
    type V = PayoutView;

    open spec fn view(&self) -> PayoutView {
        PayoutView {
            recipient: self.recipient,
            amount: self.amount as int,
            asset: self.asset,
            signer_seeds: self.signer_seeds.deep_view(),
        }
    }
}

/// The mathematical value of what a payout operation returns.
pub open spec fn ordered(result: Result<Payout, ErrorCode>) -> Result<PayoutView, ErrorCode> {
    match result {
        Ok(payout) => Ok(payout@),
        Err(error) => Err(error),
    }
}

/// The fixed tag that sets escrow addresses apart: the bytes of `escrow`.
pub open spec fn escrow_tag() -> Seq<u8> {
    seq![0x65u8, 0x73u8, 0x63u8, 0x72u8, 0x6fu8, 0x77u8]
}

/// The seeds that derive the escrow's authority: the tag, the owner, the
/// switch identifier and the bump kept in the record, in this order.
pub open spec fn escrow_signer_seeds(switch: SwitchView) -> Seq<Seq<u8>> {
    seq![escrow_tag(), switch.owner.bytes@, switch_id_bytes(switch.switch_id), seq![switch.bump]]
}

/// What the escrow can give away: its balance beyond the reserve that it
/// must retain, and nothing when the balance does not exceed the reserve.
pub open spec fn distributable(balance: int, reserve: int) -> int {
    if balance > reserve {
        balance - reserve
    } else {
        0
    }
}

/// The part of a distributable balance that a share in basis points stands
/// for, rounded down.
pub open spec fn share_amount(distributable: int, share_bps: int) -> int {
    (distributable * share_bps) / (BASIS_POINTS_TOTAL as int)
}

/// The asset that a switch of the given kind pays out.
pub open spec fn asset_of(token_type: TokenType) -> AssetType {
    match token_type {
        TokenType::Sol => AssetType::Sol,
        TokenType::Spl { mint } => AssetType::SplToken { mint },
    }
}

/// What asking for a beneficiary's proportional payout yields. `native` says
/// whether native currency is being moved, `available` what the escrow can
/// give away. The rules are tried in the order status, kind of asset,
/// beneficiary, funds; the first violated one is reported. The payout is
/// decided by the first entry that carries the beneficiary's address.
pub open spec fn proportional_payout(
    switch: SwitchView,
    native: bool,
    available: int,
    beneficiary: Address,
) -> Result<PayoutView, ErrorCode> {
    if switch.status != SwitchStatus::Expired {
        Err(ErrorCode::SwitchNotExpired)
    } else if (switch.token_type is Sol) != native {
        Err(ErrorCode::InvalidTokenType)
    } else {
        match first_listed(switch.beneficiaries, beneficiary) {
            None => Err(ErrorCode::BeneficiaryNotFound),
            Some(entry) => if available <= 0 {
                Err(ErrorCode::InsufficientFunds)
            } else {
                Ok(
                    PayoutView {
                        recipient: beneficiary,
                        amount: share_amount(available, entry.share_bps as int),
                        asset: asset_of(switch.token_type),
                        signer_seeds: escrow_signer_seeds(switch),
                    },
                )
            },
        }
    }
}

/// What asking for a fixed payout yields: the amount and the asset are taken
/// as the caller gives them.
pub open spec fn fixed_payout(
    switch: SwitchView,
    beneficiary: Address,
    amount: int,
    asset_type: AssetType,
) -> Result<PayoutView, ErrorCode> {
    if switch.status != SwitchStatus::Expired {
        Err(ErrorCode::SwitchNotExpired)
    } else if !listed(switch.beneficiaries, beneficiary) {
        Err(ErrorCode::BeneficiaryNotFound)
    } else {
        Ok(
            PayoutView {
                recipient: beneficiary,
                amount,
                asset: asset_type,
                signer_seeds: escrow_signer_seeds(switch),
            },
        )
    }
}

/// What asking for the funds of a canceled switch yields: all that the
/// escrow can give away goes back to the owner.
pub open spec fn withdrawal(switch: SwitchView, balance: int, reserve: int) -> Result<
    PayoutView,
    ErrorCode,
> {
    if switch.status != SwitchStatus::Canceled {
        Err(ErrorCode::SwitchNotCanceled)
    } else if distributable(balance, reserve) <= 0 {
        Err(ErrorCode::InsufficientFunds)
    } else {
        Ok(
            PayoutView {
                recipient: switch.owner,
                amount: distributable(balance, reserve),
                asset: AssetType::Sol,
                signer_seeds: escrow_signer_seeds(switch),
            },
        )
    }
}

/// A share of at most the whole never yields more than the balance it is
/// taken from.
pub proof fn lemma_share_amount_bounds(available: int, share_bps: int)
    requires
        0 <= available,
        0 <= share_bps <= BASIS_POINTS_TOTAL,
    ensures
        0 <= share_amount(available, share_bps) <= available,
{
    assert(0 <= available * share_bps <= available * 10000) by (nonlinear_arith)
        requires
            0 <= available,
            0 <= share_bps <= 10000,
    ;
}

/// Computes the part of a distributable balance that a share stands for.
pub fn share_of(available: u64, share_bps: u16) -> (amount: u64)
    requires
        share_bps <= BASIS_POINTS_TOTAL,
    ensures
        amount == share_amount(available as int, share_bps as int),
{
    proof {
        lemma_share_amount_bounds(available as int, share_bps as int);
        assert(0 <= available * share_bps <= available * 10000) by (nonlinear_arith)
            requires
                0 <= available,
                0 <= share_bps <= 10000,
        ;
    }
    let product: u128 = (available as u128) * (share_bps as u128);
    (product / (BASIS_POINTS_TOTAL as u128)) as u64
}

/// Builds the seeds of the escrow's authority from the record.
pub fn signer_seeds(switch: &Switch) -> (seeds: Vec<Vec<u8>>)
    ensures
        seeds.deep_view() == escrow_signer_seeds(switch@),
{
    let mut tag: Vec<u8> = Vec::new();
    tag.push(0x65u8);
    tag.push(0x73u8);
    tag.push(0x63u8);
    tag.push(0x72u8);
    tag.push(0x6fu8);
    tag.push(0x77u8);
    let owner: Vec<u8> = slice_to_vec(switch.owner.bytes.as_slice());
    let id: Vec<u8> = switch.switch_id.as_str().as_bytes_vec();
    let mut bump: Vec<u8> = Vec::new();
    bump.push(switch.bump);
    let mut seeds: Vec<Vec<u8>> = Vec::new();
    seeds.push(tag);
    seeds.push(owner);
    seeds.push(id);
    seeds.push(bump);
    proof {
        let wanted = escrow_signer_seeds(switch@);
        assert(seeds@[0].deep_view() =~= wanted[0]);
        assert(seeds@[1].deep_view() =~= wanted[1]);
        assert(seeds@[2].deep_view() =~= wanted[2]);
        assert(seeds@[3].deep_view() =~= wanted[3]);
        assert(seeds.deep_view() =~= wanted);
    }
    seeds
}

/// Decides the payout of one beneficiary from the native balance of the
/// escrow of an expired switch.
///
/// `escrow_balance` is what the escrow holds and `reserve` what it must
/// retain. Each call decides the payout of the one beneficiary asked for;
/// nothing is swept up, so the beneficiaries together may receive a little
/// less than the escrow can give away.
pub fn distribute_sol(
    switch: &Switch,
    escrow_balance: u64,
    reserve: u64,
    beneficiary: &Address,
) -> (result: Result<Payout, ErrorCode>)
    requires
        switch@.wf(),
    ensures
        ordered(result) == proportional_payout(
            switch@,
            true,
            distributable(escrow_balance as int, reserve as int),
            *beneficiary,
        ),
{
    if switch.status != SwitchStatus::Expired {
        return Err(ErrorCode::SwitchNotExpired);
    }
    match switch.token_type {
        TokenType::Sol => {},
        TokenType::Spl { .. } => {
            return Err(ErrorCode::InvalidTokenType);
        },
    }
    let entry = match find_beneficiary(&switch.beneficiaries, beneficiary) {
        Some(entry) => entry,
        None => {
            return Err(ErrorCode::BeneficiaryNotFound);
        },
    };
    let available = escrow_balance.saturating_sub(reserve);
    if available == 0 {
        return Err(ErrorCode::InsufficientFunds);
    }
    proof {
        lemma_entry_share_bounded(switch@, *beneficiary);
    }
    Ok(
        Payout {
            recipient: *beneficiary,
            amount: share_of(available, entry.share_bps),
            asset: AssetType::Sol,
            signer_seeds: signer_seeds(switch),
        },
    )
}

/// Decides the payout of one beneficiary from the token balance that the
/// escrow of an expired switch controls. The tokens lie in an account of
/// their own, so all of them can be given away.
pub fn distribute_spl(switch: &Switch, escrow_balance: u64, beneficiary: &Address) -> (result:
    Result<Payout, ErrorCode>)
    requires
        switch@.wf(),
    ensures
        ordered(result) == proportional_payout(
            switch@,
            false,
            escrow_balance as int,
            *beneficiary,
        ),
{
    if switch.status != SwitchStatus::Expired {
        return Err(ErrorCode::SwitchNotExpired);
    }
    let mint = match switch.token_type {
        TokenType::Sol => {
            return Err(ErrorCode::InvalidTokenType);
        },
        TokenType::Spl { mint } => mint,
    };
    let entry = match find_beneficiary(&switch.beneficiaries, beneficiary) {
        Some(entry) => entry,
        None => {
            return Err(ErrorCode::BeneficiaryNotFound);
        },
    };
    if escrow_balance == 0 {
        return Err(ErrorCode::InsufficientFunds);
    }
    proof {
        lemma_entry_share_bounded(switch@, *beneficiary);
    }
    Ok(
        Payout {
            recipient: *beneficiary,
            amount: share_of(escrow_balance, entry.share_bps),
            asset: AssetType::SplToken { mint },
            signer_seeds: signer_seeds(switch),
        },
    )
}

/// Decides a payout of a fixed amount of one asset to a beneficiary of an
/// expired switch.
///
/// The amount is taken as given: the record keeps no table of allocations
/// to hold it against, so any amount is ordered for any listed beneficiary.
pub fn distribute_asset(
    switch: &Switch,
    beneficiary: &Address,
    amount: u64,
    asset_type: AssetType,
) -> (result: Result<Payout, ErrorCode>)
    ensures
        ordered(result) == fixed_payout(switch@, *beneficiary, amount as int, asset_type),
{
    if switch.status != SwitchStatus::Expired {
        return Err(ErrorCode::SwitchNotExpired);
    }
    proof {
        lemma_first_listed(switch@.beneficiaries, *beneficiary);
    }
    if find_beneficiary(&switch.beneficiaries, beneficiary).is_none() {
        return Err(ErrorCode::BeneficiaryNotFound);
    }
    Ok(
        Payout {
            recipient: *beneficiary,
            amount,
            asset: asset_type,
            signer_seeds: signer_seeds(switch),
        },
    )
}

/// Decides the return of the escrow's funds to the owner of a canceled
/// switch.
pub fn withdraw_sol(switch: &Switch, escrow_balance: u64, reserve: u64) -> (result: Result<
    Payout,
    ErrorCode,
>)
    ensures
        ordered(result) == withdrawal(switch@, escrow_balance as int, reserve as int),
{
    if switch.status != SwitchStatus::Canceled {
        return Err(ErrorCode::SwitchNotCanceled);
    }
    let withdrawable = escrow_balance.saturating_sub(reserve);
    if withdrawable == 0 {
        return Err(ErrorCode::InsufficientFunds);
    }
    Ok(
        Payout {
            recipient: switch.owner,
            amount: withdrawable,
            asset: AssetType::Sol,
            signer_seeds: signer_seeds(switch),
        },
    )
}

/// In a well-formed record the entry that decides a beneficiary's payout
/// carries a share of at most the whole.
pub proof fn lemma_entry_share_bounded(switch: SwitchView, beneficiary: Address)
    requires
        switch.wf(),
    ensures
        first_listed(switch.beneficiaries, beneficiary) matches Some(entry) ==> entry.share_bps
            <= BASIS_POINTS_TOTAL,
{
    lemma_first_listed(switch.beneficiaries, beneficiary);
    if let Some(entry) = first_listed(switch.beneficiaries, beneficiary) {
        let i = choose|i: int|
            0 <= i < switch.beneficiaries.len() && switch.beneficiaries[i] == entry;
        lemma_share_within_total(switch.beneficiaries, i);
    }
}

} // verus!
