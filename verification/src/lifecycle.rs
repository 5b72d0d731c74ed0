use crate::error::ErrorCode;
use crate::record::{
    sum_shares, switch_id_accepted, total_shares, valid_beneficiary_count, valid_switch_id,
    Address, Beneficiary, BeneficiaryAllocation, Switch, SwitchStatus, SwitchView, TokenType,
    BASIS_POINTS_TOTAL, MAX_BENEFICIARIES,
};
use vstd::prelude::*;

verus! {

/// The mathematical value of what an initializer returns.
pub open spec fn created(result: Result<Switch, ErrorCode>) -> Result<SwitchView, ErrorCode> {
    match result {
        Ok(switch) => Ok(switch@),
        Err(error) => Err(error),
    }
}

/// Whether a proportional switch may be created with these parameters: the
/// first violated rule, in the order identifier, beneficiary count, shares,
/// timeout.
pub open spec fn validation(
    switch_id: Seq<char>,
    timeout_seconds: int,
    beneficiaries: Seq<Beneficiary>,
) -> Result<(), ErrorCode> {
    if !valid_switch_id(switch_id) {
        Err(ErrorCode::InvalidSwitchId)
    } else if !valid_beneficiary_count(beneficiaries.len()) {
        Err(ErrorCode::InvalidBeneficiaryCount)
    } else if total_shares(beneficiaries) != BASIS_POINTS_TOTAL {
        Err(ErrorCode::InvalidShareDistribution)
    } else if timeout_seconds <= 0 {
        Err(ErrorCode::InvalidTimeout)
    } else {
        Ok(())
    }
}

/// What creating a proportional switch yields: the violated rule, or an
/// active record whose deadline lies one timeout after `now`.
pub open spec fn initialized(
    owner: Address,
    bump: u8,
    now: int,
    switch_id: Seq<char>,
    timeout_seconds: int,
    beneficiaries: Seq<Beneficiary>,
    token_type: TokenType,
) -> Result<SwitchView, ErrorCode> {
    match validation(switch_id, timeout_seconds, beneficiaries) {
        Err(error) => Err(error),
        Ok(_) => Ok(
            SwitchView {
                owner,
                switch_id,
                beneficiaries,
                token_type,
                timeout_seconds,
                heartbeat_deadline: now + timeout_seconds,
                status: SwitchStatus::Active,
                bump,
            },
        ),
    }
}

/// The beneficiary list that stands for a list of allocations: the same
/// addresses in the same order, each with a share of zero.
pub open spec fn without_shares(allocations: Seq<BeneficiaryAllocation>) -> Seq<Beneficiary> {
    Seq::new(
        allocations.len(),
        |i: int| Beneficiary { address: allocations[i].address, share_bps: 0 },
    )
}

/// Whether some beneficiary of the list is owed no asset at all.
pub open spec fn has_empty_allocation(allocations: Seq<BeneficiaryAllocation>) -> bool {
    exists|i: int| 0 <= i < allocations.len() && allocations[i].assets@.len() == 0
}

/// Whether a switch with fixed allocations may be created with these
/// parameters: the first violated rule, in the order identifier, beneficiary
/// count, timeout, allocations.
pub open spec fn validation_with_assets(
    switch_id: Seq<char>,
    timeout_seconds: int,
    allocations: Seq<BeneficiaryAllocation>,
) -> Result<(), ErrorCode> {
    if !valid_switch_id(switch_id) {
        Err(ErrorCode::InvalidSwitchId)
    } else if !valid_beneficiary_count(allocations.len()) {
        Err(ErrorCode::InvalidBeneficiaryCount)
    } else if timeout_seconds <= 0 {
        Err(ErrorCode::InvalidTimeout)
    } else if has_empty_allocation(allocations) {
        Err(ErrorCode::InvalidAssetAllocation)
    } else {
        Ok(())
    }
}

/// What creating a switch with fixed allocations yields: the violated rule,
/// or an active record of native currency whose beneficiaries carry no
/// shares.
pub open spec fn initialized_with_assets(
    owner: Address,
    bump: u8,
    now: int,
    switch_id: Seq<char>,
    timeout_seconds: int,
    allocations: Seq<BeneficiaryAllocation>,
) -> Result<SwitchView, ErrorCode> {
    match validation_with_assets(switch_id, timeout_seconds, allocations) {
        Err(error) => Err(error),
        Ok(_) => Ok(
            SwitchView {
                owner,
                switch_id,
                beneficiaries: without_shares(allocations),
                token_type: TokenType::Sol,
                timeout_seconds,
                heartbeat_deadline: now + timeout_seconds,
                status: SwitchStatus::Active,
                bump,
            },
        ),
    }
}

/// Whether a heartbeat at `now` is accepted: the switch is active and its
/// deadline has not lapsed.
pub open spec fn heartbeat_verdict(switch: SwitchView, now: int) -> Result<(), ErrorCode> {
    if switch.status != SwitchStatus::Active {
        Err(ErrorCode::SwitchNotActive)
    } else if now > switch.heartbeat_deadline {
        Err(ErrorCode::SwitchAlreadyExpired)
    } else {
        Ok(())
    }
}

/// The record after a heartbeat at `now`: an accepted one moves the deadline
/// to one timeout after `now`, a refused one changes nothing.
pub open spec fn after_heartbeat(switch: SwitchView, now: int) -> SwitchView {
    if heartbeat_verdict(switch, now) is Ok {
        SwitchView { heartbeat_deadline: now + switch.timeout_seconds, ..switch }
    } else {
        switch
    }
}

/// Whether the switch may be declared expired at `now`: it is active and its
/// deadline has passed.
pub open spec fn expiry_verdict(switch: SwitchView, now: int) -> Result<(), ErrorCode> {
    if switch.status != SwitchStatus::Active {
        Err(ErrorCode::SwitchNotActive)
    } else if now <= switch.heartbeat_deadline {
        Err(ErrorCode::DeadlineNotPassed)
    } else {
        Ok(())
    }
}

/// The record after an attempt to declare it expired at `now`.
pub open spec fn after_expiry(switch: SwitchView, now: int) -> SwitchView {
    if expiry_verdict(switch, now) is Ok {
        SwitchView { status: SwitchStatus::Expired, ..switch }
    } else {
        switch
    }
}

/// Whether the switch may be canceled: it is active.
pub open spec fn cancel_verdict(switch: SwitchView) -> Result<(), ErrorCode> {
    if switch.status != SwitchStatus::Active {
        Err(ErrorCode::SwitchNotActive)
    } else {
        Ok(())
    }
}

/// The record after an attempt to cancel it.
pub open spec fn after_cancel(switch: SwitchView) -> SwitchView {
    if cancel_verdict(switch) is Ok {
        SwitchView { status: SwitchStatus::Canceled, ..switch }
    } else {
        switch
    }
}

/// The shares of a list that stands for allocations add up to nothing.
pub proof fn lemma_without_shares_total(allocations: Seq<BeneficiaryAllocation>)
    ensures
        total_shares(without_shares(allocations)) == 0,
    decreases allocations.len(),
{
    if allocations.len() > 0 {
        lemma_without_shares_total(allocations.drop_last());
        assert(without_shares(allocations).drop_last() == without_shares(allocations.drop_last()));
    }
}

/// Holds the parameters of a proportional switch against the rules and
/// reports the first one that they violate.
pub fn validate_switch(
    switch_id: &String,
    timeout_seconds: i64,
    beneficiaries: &Vec<Beneficiary>,
) -> (verdict: Result<(), ErrorCode>)
    ensures
        verdict == validation(switch_id@, timeout_seconds as int, beneficiaries@),
{
    if !switch_id_accepted(switch_id) {
        return Err(ErrorCode::InvalidSwitchId);
    }
    if beneficiaries.len() == 0 || beneficiaries.len() > MAX_BENEFICIARIES {
        return Err(ErrorCode::InvalidBeneficiaryCount);
    }
    if sum_shares(beneficiaries) != BASIS_POINTS_TOTAL as u128 {
        return Err(ErrorCode::InvalidShareDistribution);
    }
    if timeout_seconds <= 0 {
        return Err(ErrorCode::InvalidTimeout);
    }
    Ok(())
}

/// Creates the record of a switch that pays out in proportion to shares.
///
/// `owner` is the principal that controls the switch, `bump` the value kept
/// for re-deriving its addresses, and `now` the current time in seconds.
pub fn initialize_switch(
    owner: Address,
    bump: u8,
    now: i64,
    switch_id: String,
    timeout_seconds: i64,
    beneficiaries: Vec<Beneficiary>,
    token_type: TokenType,
) -> (result: Result<Switch, ErrorCode>)
    requires
        validation(switch_id@, timeout_seconds as int, beneficiaries@) is Ok ==> now
            + timeout_seconds <= i64::MAX,
    ensures
        created(result) == initialized(
            owner,
            bump,
            now as int,
            switch_id@,
            timeout_seconds as int,
            beneficiaries@,
            token_type,
        ),
        result matches Ok(switch) ==> switch@.wf(),
{
    match validate_switch(&switch_id, timeout_seconds, &beneficiaries) {
        Err(error) => Err(error),
        Ok(_) => Ok(
            Switch {
                owner,
                switch_id,
                beneficiaries,
                token_type,
                timeout_seconds,
                heartbeat_deadline: now + timeout_seconds,
                status: SwitchStatus::Active,
                bump,
            },
        ),
    }
}

/// Finds out whether every beneficiary of the list is owed at least one asset.
fn all_allocations_filled(allocations: &Vec<BeneficiaryAllocation>) -> (filled: bool)
    ensures
        filled == !has_empty_allocation(allocations@),
{
    let mut i: usize = 0;
    while i < allocations.len()
        invariant
            i <= allocations.len(),
            forall|k: int| 0 <= k < i ==> allocations@[k].assets@.len() != 0,
        decreases allocations.len() - i,
    {
        if allocations[i].assets.len() == 0 {
            assert(allocations@[i as int].assets@.len() == 0);
            return false;
        }
        i += 1;
    }
    true
}

/// Lists the addresses of the allocations as beneficiaries without shares.
fn strip_allocations(allocations: &Vec<BeneficiaryAllocation>) -> (beneficiaries: Vec<Beneficiary>)
    ensures
        beneficiaries@ == without_shares(allocations@),
{
    let mut beneficiaries: Vec<Beneficiary> = Vec::new();
    let mut i: usize = 0;
    while i < allocations.len()
        invariant
            i <= allocations.len(),
            beneficiaries@ == without_shares(allocations@.take(i as int)),
        decreases allocations.len() - i,
    {
        beneficiaries.push(Beneficiary { address: allocations[i].address, share_bps: 0 });
        i += 1;
        assert(beneficiaries@ == without_shares(allocations@.take(i as int)));
    }
    assert(allocations@.take(i as int) == allocations@);
    beneficiaries
}

/// Holds the parameters of a switch with fixed allocations against the rules
/// and reports the first one that they violate.
pub fn validate_switch_with_assets(
    switch_id: &String,
    timeout_seconds: i64,
    allocations: &Vec<BeneficiaryAllocation>,
) -> (verdict: Result<(), ErrorCode>)
    ensures
        verdict == validation_with_assets(switch_id@, timeout_seconds as int, allocations@),
{
    if !switch_id_accepted(switch_id) {
        return Err(ErrorCode::InvalidSwitchId);
    }
    if allocations.len() == 0 || allocations.len() > MAX_BENEFICIARIES {
        return Err(ErrorCode::InvalidBeneficiaryCount);
    }
    if timeout_seconds <= 0 {
        return Err(ErrorCode::InvalidTimeout);
    }
    if !all_allocations_filled(allocations) {
        return Err(ErrorCode::InvalidAssetAllocation);
    }
    Ok(())
}

/// Creates the record of a switch that pays out fixed allocations.
///
/// The record keeps the addresses of the allocations, each with a share of
/// zero, and is marked as holding native currency. The amounts themselves
/// are not kept.
pub fn initialize_switch_with_assets(
    owner: Address,
    bump: u8,
    now: i64,
    switch_id: String,
    timeout_seconds: i64,
    allocations: Vec<BeneficiaryAllocation>,
) -> (result: Result<Switch, ErrorCode>)
    requires
        validation_with_assets(switch_id@, timeout_seconds as int, allocations@) is Ok ==> now
            + timeout_seconds <= i64::MAX,
    ensures
        created(result) == initialized_with_assets(
            owner,
            bump,
            now as int,
            switch_id@,
            timeout_seconds as int,
            allocations@,
        ),
        result matches Ok(switch) ==> switch@.wf(),
{
    match validate_switch_with_assets(&switch_id, timeout_seconds, &allocations) {
        Err(error) => Err(error),
        Ok(_) => {
            let beneficiaries = strip_allocations(&allocations);
            proof {
                lemma_without_shares_total(allocations@);
            }
            Ok(
                Switch {
                    owner,
                    switch_id,
                    beneficiaries,
                    token_type: TokenType::Sol,
                    timeout_seconds,
                    heartbeat_deadline: now + timeout_seconds,
                    status: SwitchStatus::Active,
                    bump,
                },
            )
        },
    }
}

impl Switch {
    /// Tells whether a heartbeat at `now` would be accepted, and if not, why.
    pub fn accepts_heartbeat(&self, now: i64) -> (verdict: Result<(), ErrorCode>)
        ensures
            verdict == heartbeat_verdict(self@, now as int),
    {
        if self.status != SwitchStatus::Active {
            Err(ErrorCode::SwitchNotActive)
        } else if now > self.heartbeat_deadline {
            Err(ErrorCode::SwitchAlreadyExpired)
        } else {
            Ok(())
        }
    }

    /// Tells whether the switch may be declared expired at `now`, and if
    /// not, why. The answer depends on the record and the time alone.
    pub fn accepts_expiry(&self, now: i64) -> (verdict: Result<(), ErrorCode>)
        ensures
            verdict == expiry_verdict(self@, now as int),
    {
        if self.status != SwitchStatus::Active {
            Err(ErrorCode::SwitchNotActive)
        } else if now <= self.heartbeat_deadline {
            Err(ErrorCode::DeadlineNotPassed)
        } else {
            Ok(())
        }
    }

    /// Tells whether the switch may be canceled, and if not, why.
    pub fn accepts_cancel(&self) -> (verdict: Result<(), ErrorCode>)
        ensures
            verdict == cancel_verdict(self@),
    {
        if self.status != SwitchStatus::Active {
            Err(ErrorCode::SwitchNotActive)
        } else {
            Ok(())
        }
    }
}

/// Records a sign of life from the owner at `now` and pushes the deadline
/// one timeout beyond it. A heartbeat that arrives after the deadline is
/// refused: it must not hide that the switch could already have expired.
pub fn send_heartbeat(switch: &mut Switch, now: i64) -> (result: Result<(), ErrorCode>)
    requires
        heartbeat_verdict(old(switch)@, now as int) is Ok ==> i64::MIN <= now + old(
            switch,
        ).timeout_seconds <= i64::MAX,
    ensures
        result == heartbeat_verdict(old(switch)@, now as int),
        final(switch)@ == after_heartbeat(old(switch)@, now as int),
{
    let verdict = switch.accepts_heartbeat(now);
    if verdict.is_ok() {
        switch.heartbeat_deadline = now + switch.timeout_seconds;
    }
    verdict
}

/// Declares the switch expired once its deadline has passed. Anyone may ask
/// for this: the time alone decides. Nothing but the status changes, so a
/// second request finds the switch no longer active.
pub fn trigger_expiry(switch: &mut Switch, now: i64) -> (result: Result<(), ErrorCode>)
    ensures
        result == expiry_verdict(old(switch)@, now as int),
        final(switch)@ == after_expiry(old(switch)@, now as int),
{
    let verdict = switch.accepts_expiry(now);
    if verdict.is_ok() {
        switch.status = SwitchStatus::Expired;
    }
    verdict
}

/// Cancels an active switch on behalf of its owner.
pub fn cancel_switch(switch: &mut Switch) -> (result: Result<(), ErrorCode>)
    ensures
        result == cancel_verdict(old(switch)@),
        final(switch)@ == after_cancel(old(switch)@),
{
    let verdict = switch.accepts_cancel();
    if verdict.is_ok() {
        switch.status = SwitchStatus::Canceled;
    }
    verdict
}

} // verus!
