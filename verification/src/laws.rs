use crate::error::ErrorCode;
use crate::lifecycle::{
    after_cancel, after_expiry, after_heartbeat, cancel_verdict, expiry_verdict,
    heartbeat_verdict, initialized, initialized_with_assets,
};
use crate::payout::{
    fixed_payout, lemma_entry_share_bounded, lemma_share_amount_bounds, proportional_payout,
    share_amount, withdrawal, PayoutView,
};
use crate::record::{
    first_listed, lemma_first_listed, listed, total_shares, valid_beneficiary_count,
    valid_switch_id, Address, AssetType, Beneficiary, BeneficiaryAllocation, SwitchStatus,
    SwitchView, TokenType, BASIS_POINTS_TOTAL,
};
use vstd::prelude::*;

verus! {

/// One request made of the record of a switch.
pub enum Request {
    /// A sign of life from the owner at the given time.
    Heartbeat { now: int },
    /// A request, made at the given time, to declare the switch expired.
    TriggerExpiry { now: int },
    /// The owner's request to cancel the switch.
    Cancel,
    /// A request for a payout to a beneficiary, of either kind.
    Distribute,
    /// The owner's request for the funds of the canceled switch.
    Withdraw,
}

/// The record after one request. A refused request leaves it as it was, and
/// so does every request for a payout or a withdrawal, which only reads it.
pub open spec fn step(switch: SwitchView, request: Request) -> SwitchView {
    match request {
        Request::Heartbeat { now } => after_heartbeat(switch, now),
        Request::TriggerExpiry { now } => after_expiry(switch, now),
        Request::Cancel => after_cancel(switch),
        Request::Distribute => switch,
        Request::Withdraw => switch,
    }
}

/// The record after a series of requests, made one after the other.
pub open spec fn run(switch: SwitchView, requests: Seq<Request>) -> SwitchView
    decreases requests.len(),
{
    if requests.len() == 0 {
        switch
    } else {
        step(run(switch, requests.drop_last()), requests.last())
    }
}

/// The sum of what the entries of a list are paid out of one distributable
/// balance, each according to its own share.
pub open spec fn total_paid(beneficiaries: Seq<Beneficiary>, available: int) -> int
    decreases beneficiaries.len(),
{
    if beneficiaries.len() == 0 {
        0
    } else {
        total_paid(beneficiaries.drop_last(), available) + share_amount(
            available,
            beneficiaries.last().share_bps as int,
        )
    }
}

/// Whether no two entries of the list carry the same address.
pub open spec fn distinct_addresses(beneficiaries: Seq<Beneficiary>) -> bool {
    forall|i: int, j: int|
        0 <= i < j < beneficiaries.len() ==> beneficiaries[i].address != beneficiaries[j].address
}

/// A proportional switch is created only if its shares add up to exactly
/// the whole. Where identifier and beneficiary count are acceptable, any
/// other sum is refused as an invalid share distribution.
pub proof fn shares_must_total_the_whole(
    owner: Address,
    bump: u8,
    now: int,
    switch_id: Seq<char>,
    timeout_seconds: int,
    beneficiaries: Seq<Beneficiary>,
    token_type: TokenType,
)
    ensures
        initialized(owner, bump, now, switch_id, timeout_seconds, beneficiaries, token_type)
            is Ok ==> total_shares(beneficiaries) == BASIS_POINTS_TOTAL,
        valid_switch_id(switch_id) && valid_beneficiary_count(beneficiaries.len())
            && total_shares(beneficiaries) != BASIS_POINTS_TOTAL ==> initialized(
            owner,
            bump,
            now,
            switch_id,
            timeout_seconds,
            beneficiaries,
            token_type,
        ) == Err::<SwitchView, ErrorCode>(ErrorCode::InvalidShareDistribution),
{
}

/// No switch is created with a timeout of zero or less. Where identifier,
/// beneficiary count and shares are acceptable, such a timeout is refused as
/// an invalid timeout, and a positive one yields an active switch whose
/// deadline lies one timeout after the time of creation.
pub proof fn timeout_must_be_positive(
    owner: Address,
    bump: u8,
    now: int,
    switch_id: Seq<char>,
    timeout_seconds: int,
    beneficiaries: Seq<Beneficiary>,
    token_type: TokenType,
)
    ensures
        timeout_seconds <= 0 ==> initialized(
            owner,
            bump,
            now,
            switch_id,
            timeout_seconds,
            beneficiaries,
            token_type,
        ) is Err,
        valid_switch_id(switch_id) && valid_beneficiary_count(beneficiaries.len())
            && total_shares(beneficiaries) == BASIS_POINTS_TOTAL ==> {
            let outcome = initialized(
                owner,
                bump,
                now,
                switch_id,
                timeout_seconds,
                beneficiaries,
                token_type,
            );
            if timeout_seconds <= 0 {
                outcome == Err::<SwitchView, ErrorCode>(ErrorCode::InvalidTimeout)
            } else {
                &&& outcome is Ok
                &&& outcome->Ok_0.heartbeat_deadline == now + timeout_seconds
                &&& outcome->Ok_0.status == SwitchStatus::Active
            }
        },
{
}

/// The same holds of a switch with fixed allocations: a timeout of zero or
/// less never creates one, and where identifier and count are acceptable it
/// is refused as an invalid timeout.
pub proof fn timeout_must_be_positive_with_assets(
    owner: Address,
    bump: u8,
    now: int,
    switch_id: Seq<char>,
    timeout_seconds: int,
    allocations: Seq<BeneficiaryAllocation>,
)
    ensures
        timeout_seconds <= 0 ==> initialized_with_assets(
            owner,
            bump,
            now,
            switch_id,
            timeout_seconds,
            allocations,
        ) is Err,
        valid_switch_id(switch_id) && valid_beneficiary_count(allocations.len())
            && timeout_seconds <= 0 ==> initialized_with_assets(
            owner,
            bump,
            now,
            switch_id,
            timeout_seconds,
            allocations,
        ) == Err::<SwitchView, ErrorCode>(ErrorCode::InvalidTimeout),
{
}

/// A heartbeat that reaches an active switch no later than its deadline is
/// accepted: the deadline then lies one timeout after the heartbeat, the
/// switch stays active, and nothing else changes.
pub proof fn heartbeat_in_time_renews(switch: SwitchView, now: int)
    requires
        switch.status == SwitchStatus::Active,
        now <= switch.heartbeat_deadline,
    ensures
        heartbeat_verdict(switch, now) is Ok,
        after_heartbeat(switch, now) == (SwitchView {
            heartbeat_deadline: now + switch.timeout_seconds,
            ..switch
        }),
        after_heartbeat(switch, now).status == SwitchStatus::Active,
{
}

/// An accepted heartbeat keeps the switch from expiring for one whole
/// timeout: until that time has passed, every request to declare the switch
/// expired is refused because the deadline has not passed.
pub proof fn heartbeat_protects_for_one_timeout(switch: SwitchView, now: int, later: int)
    requires
        heartbeat_verdict(switch, now) is Ok,
        later <= now + switch.timeout_seconds,
    ensures
        expiry_verdict(after_heartbeat(switch, now), later) == Err::<(), ErrorCode>(
            ErrorCode::DeadlineNotPassed,
        ),
        after_expiry(after_heartbeat(switch, now), later).status == SwitchStatus::Active,
{
}

/// A heartbeat that arrives after the deadline is refused and changes
/// nothing, and an active switch refuses it as already expired.
pub proof fn late_heartbeat_changes_nothing(switch: SwitchView, now: int)
    requires
        now > switch.heartbeat_deadline,
    ensures
        heartbeat_verdict(switch, now) is Err,
        after_heartbeat(switch, now) == switch,
        switch.status == SwitchStatus::Active ==> heartbeat_verdict(switch, now) == Err::<
            (),
            ErrorCode,
        >(ErrorCode::SwitchAlreadyExpired),
{
}

/// As long as the clock has not gone back behind the moment at which the
/// deadline was last set, an accepted heartbeat never brings the deadline
/// forward in time: a deadline only ever moves away.
pub proof fn deadline_never_retreats(switch: SwitchView, now: int)
    requires
        now >= switch.heartbeat_deadline - switch.timeout_seconds,
    ensures
        after_heartbeat(switch, now).heartbeat_deadline >= switch.heartbeat_deadline,
{
}

/// An active switch cannot be declared expired before its deadline has
/// passed. Once it has, the switch expires exactly once: whatever the time
/// of a second request, it finds the switch no longer active.
pub proof fn expiry_happens_once(switch: SwitchView, now: int, later: int)
    requires
        switch.status == SwitchStatus::Active,
    ensures
        now <= switch.heartbeat_deadline ==> expiry_verdict(switch, now) == Err::<(), ErrorCode>(
            ErrorCode::DeadlineNotPassed,
        ) && after_expiry(switch, now) == switch,
        now > switch.heartbeat_deadline ==> expiry_verdict(switch, now) is Ok && after_expiry(
            switch,
            now,
        ) == (SwitchView { status: SwitchStatus::Expired, ..switch }) && expiry_verdict(
            after_expiry(switch, now),
            later,
        ) == Err::<(), ErrorCode>(ErrorCode::SwitchNotActive),
{
}

/// A request that is refused changes nothing: either every rule is met and
/// the one change is made, or the record stays as it was.
pub proof fn refused_requests_change_nothing(switch: SwitchView, now: int)
    ensures
        heartbeat_verdict(switch, now) is Err ==> after_heartbeat(switch, now) == switch,
        expiry_verdict(switch, now) is Err ==> after_expiry(switch, now) == switch,
        cancel_verdict(switch) is Err ==> after_cancel(switch) == switch,
{
}

/// Canceling succeeds from the active status and from no other.
pub proof fn cancel_only_from_active(switch: SwitchView)
    ensures
        cancel_verdict(switch) is Ok <==> switch.status == SwitchStatus::Active,
        cancel_verdict(switch) is Ok ==> after_cancel(switch) == (SwitchView {
            status: SwitchStatus::Canceled,
            ..switch
        }),
        cancel_verdict(switch) is Err ==> cancel_verdict(switch) == Err::<(), ErrorCode>(
            ErrorCode::SwitchNotActive,
        ) && after_cancel(switch) == switch,
{
}

/// A switch that has expired or been canceled stays as it is, whatever is
/// asked of it afterwards: a canceled switch never expires, an expired one
/// is never canceled, neither becomes active again, and the deadline of
/// neither moves.
pub proof fn final_status_stays(switch: SwitchView, requests: Seq<Request>)
    requires
        switch.status != SwitchStatus::Active,
    ensures
        run(switch, requests) == switch,
    decreases requests.len(),
{
    if requests.len() > 0 {
        final_status_stays(switch, requests.drop_last());
    }
}

/// What a switch was created with is never changed by any request: owner,
/// identifier, beneficiaries, kind of asset, timeout and bump stay, and a
/// well-formed record stays well-formed.
pub proof fn configuration_never_changes(switch: SwitchView, requests: Seq<Request>)
    ensures
        run(switch, requests).owner == switch.owner,
        run(switch, requests).switch_id == switch.switch_id,
        run(switch, requests).beneficiaries == switch.beneficiaries,
        run(switch, requests).token_type == switch.token_type,
        run(switch, requests).timeout_seconds == switch.timeout_seconds,
        run(switch, requests).bump == switch.bump,
        switch.wf() ==> run(switch, requests).wf(),
    decreases requests.len(),
{
    if requests.len() > 0 {
        configuration_never_changes(switch, requests.drop_last());
    }
}

/// Whether the request at position `k` of the series finds the switch
/// active at a time past the deadline then in force, and declares it expired.
pub open spec fn expires_at(switch: SwitchView, requests: Seq<Request>, k: int) -> bool {
    &&& 0 <= k < requests.len()
    &&& requests[k] matches Request::TriggerExpiry { now }
    &&& run(switch, requests.take(k)).status == SwitchStatus::Active
    &&& now > run(switch, requests.take(k)).heartbeat_deadline
}

/// Whether every heartbeat of the series comes no earlier than the moment at
/// which the deadline it meets was set: the clock never goes back behind a
/// heartbeat that was accepted before.
pub open spec fn clock_never_behind(switch: SwitchView, requests: Seq<Request>) -> bool
    decreases requests.len(),
{
    requests.len() == 0 || {
        let before = run(switch, requests.drop_last());
        &&& clock_never_behind(switch, requests.drop_last())
        &&& (requests.last() matches Request::Heartbeat { now } ==> now
            >= before.heartbeat_deadline - before.timeout_seconds)
    }
}

/// An active switch expires only because a deadline was missed: if a series
/// of requests leaves it expired, one of them came at a time past the
/// deadline that was in force when it came. No heartbeat in time, no
/// cancellation and no payout can stand in for that.
pub proof fn expiry_needs_a_missed_deadline(switch: SwitchView, requests: Seq<Request>)
    requires
        switch.status == SwitchStatus::Active,
        run(switch, requests).status == SwitchStatus::Expired,
    ensures
        exists|k: int| expires_at(switch, requests, k),
    decreases requests.len(),
{
    if requests.len() > 0 {
        let front = requests.drop_last();
        let before = run(switch, front);
        if before.status == SwitchStatus::Expired {
            expiry_needs_a_missed_deadline(switch, front);
            let k = choose|k: int| expires_at(switch, front, k);
            assert(front.take(k) == requests.take(k));
            assert(expires_at(switch, requests, k));
        } else {
            assert(requests.take(front.len() as int) == front);
            assert(expires_at(switch, requests, front.len() as int));
        }
    }
}

/// As long as the clock never goes back behind an accepted heartbeat, no
/// series of requests brings the deadline forward in time.
pub proof fn deadline_only_moves_away(switch: SwitchView, requests: Seq<Request>)
    requires
        clock_never_behind(switch, requests),
    ensures
        run(switch, requests).heartbeat_deadline >= switch.heartbeat_deadline,
    decreases requests.len(),
{
    if requests.len() > 0 {
        deadline_only_moves_away(switch, requests.drop_last());
    }
}

/// The status of a switch only ever moves from active to expired or from
/// active to canceled.
pub proof fn status_moves_one_way(switch: SwitchView, request: Request)
    ensures
        step(switch, request).status == switch.status || (switch.status == SwitchStatus::Active
            && step(switch, request).status != SwitchStatus::Active),
{
}

/// What every entry is paid out of one balance, rounded down each, differs
/// from that balance by the remainders that the roundings leave.
proof fn lemma_paid_remainder(beneficiaries: Seq<Beneficiary>, available: int)
    requires
        0 <= available,
    ensures
        0 <= available * total_shares(beneficiaries) - 10000 * total_paid(
            beneficiaries,
            available,
        ) <= 9999 * beneficiaries.len(),
    decreases beneficiaries.len(),
{
    if beneficiaries.len() == 0 {
        assert(available * 0 == 0);
    } else {
        let front = beneficiaries.drop_last();
        let share = beneficiaries.last().share_bps as int;
        lemma_paid_remainder(front, available);
        assert(available * (total_shares(front) + share) == available * total_shares(front)
            + available * share) by (nonlinear_arith);
        assert(0 <= available * share) by (nonlinear_arith)
            requires
                0 <= available,
                0 <= share,
        ;
        let product = available * share;
        assert(product == 10000 * (product / 10000) + product % 10000);
        assert(0 <= product % 10000 <= 9999);
    }
}

/// Out of a distributable balance, the beneficiaries of a switch whose
/// shares add up to the whole are together paid no more than that balance,
/// and what rounding down leaves unpaid is at most one unit for each
/// beneficiary but one.
pub proof fn payouts_nearly_exhaust_the_balance(beneficiaries: Seq<Beneficiary>, available: int)
    requires
        0 <= available,
        0 < beneficiaries.len(),
        total_shares(beneficiaries) == BASIS_POINTS_TOTAL,
    ensures
        available - (beneficiaries.len() - 1) <= total_paid(beneficiaries, available) <= available,
{
    lemma_paid_remainder(beneficiaries, available);
}

/// Where no two beneficiaries share an address, each entry of the list is
/// the one that decides the payout asked for its address.
pub proof fn each_entry_decides_its_payout(beneficiaries: Seq<Beneficiary>, i: int)
    requires
        distinct_addresses(beneficiaries),
        0 <= i < beneficiaries.len(),
    ensures
        first_listed(beneficiaries, beneficiaries[i].address) == Some(beneficiaries[i]),
    decreases beneficiaries.len(),
{
    if i > 0 {
        let rest = beneficiaries.drop_first();
        assert(beneficiaries[0].address != beneficiaries[i].address);
        assert forall|a: int, b: int| 0 <= a < b < rest.len() implies rest[a].address
            != rest[b].address by {
            assert(beneficiaries[a + 1].address != beneficiaries[b + 1].address);
        }
        each_entry_decides_its_payout(rest, i - 1);
    }
}

/// An address that is not among the beneficiaries of an expired switch is
/// paid nothing, whatever the escrow holds: a proportional payout of the
/// kind of asset that the switch holds, and a fixed payout of any asset and
/// amount, are both refused because the beneficiary is not found.
pub proof fn unlisted_address_is_refused(
    switch: SwitchView,
    address: Address,
    native: bool,
    available: int,
    amount: int,
    asset_type: AssetType,
)
    requires
        switch.status == SwitchStatus::Expired,
        !listed(switch.beneficiaries, address),
    ensures
        (switch.token_type is Sol) == native ==> proportional_payout(
            switch,
            native,
            available,
            address,
        ) == Err::<PayoutView, ErrorCode>(ErrorCode::BeneficiaryNotFound),
        fixed_payout(switch, address, amount, asset_type) == Err::<
            PayoutView,
            ErrorCode,
        >(ErrorCode::BeneficiaryNotFound),
{
    lemma_first_listed(switch.beneficiaries, address);
}

/// Once the escrow of an expired switch holds nothing that it can give away,
/// a listed beneficiary who asks again is refused for want of funds: asking
/// twice does not pay twice.
pub proof fn drained_escrow_pays_nothing(
    switch: SwitchView,
    address: Address,
    native: bool,
    available: int,
)
    requires
        switch.status == SwitchStatus::Expired,
        (switch.token_type is Sol) == native,
        listed(switch.beneficiaries, address),
        available <= 0,
    ensures
        proportional_payout(switch, native, available, address) == Err::<PayoutView, ErrorCode>(
            ErrorCode::InsufficientFunds,
        ),
{
    lemma_first_listed(switch.beneficiaries, address);
}

/// A proportional payout out of a well-formed record never orders more than
/// the escrow can give away, and goes to the address that asked for it.
pub proof fn payout_within_balance(
    switch: SwitchView,
    address: Address,
    native: bool,
    available: int,
)
    requires
        switch.wf(),
    ensures
        proportional_payout(switch, native, available, address) matches Ok(payout) ==> 0
            <= payout.amount <= available && payout.recipient == address,
{
    lemma_entry_share_bounded(switch, address);
    if let Some(entry) = first_listed(switch.beneficiaries, address) {
        if available > 0 {
            lemma_share_amount_bounds(available, entry.share_bps as int);
        }
    }
}

/// From a canceled switch the owner gets back exactly what the escrow holds
/// beyond its reserve, and is refused for want of funds when it holds no
/// more than the reserve.
pub proof fn withdrawal_returns_the_excess(switch: SwitchView, balance: int, reserve: int)
    requires
        switch.status == SwitchStatus::Canceled,
    ensures
        balance <= reserve ==> withdrawal(switch, balance, reserve) == Err::<
            PayoutView,
            ErrorCode,
        >(ErrorCode::InsufficientFunds),
        balance > reserve ==> withdrawal(switch, balance, reserve) is Ok && withdrawal(
            switch,
            balance,
            reserve,
        )->Ok_0.amount == balance - reserve && withdrawal(switch, balance, reserve)->Ok_0.recipient
            == switch.owner,
{
}

} // verus!
