use vstd::prelude::*;
use vstd::utf8::encode_utf8;

verus! {

/// The largest number of beneficiaries that a switch may name.
pub const MAX_BENEFICIARIES: usize = 10;

/// The number of basis points that make up the whole of a balance.
pub const BASIS_POINTS_TOTAL: u16 = 10000;

/// The largest number of bytes that a switch identifier may take.
pub const MAX_SWITCH_ID_LEN: usize = 32;

/// A 32-byte account address of the ledger.
#[derive(Clone, Copy, Debug, Eq, Hash)]
pub struct Address {
    pub bytes: [u8; 32],
}

impl PartialEq for Address {
    fn eq(&self, other: &Self) -> (same: bool) {
        let mut i: usize = 0;
        while i < 32
            invariant
                i <= 32,
                forall|k: int| 0 <= k < i ==> self.bytes[k] == other.bytes[k],
            decreases 32 - i,
        {
            if self.bytes[i] != other.bytes[i] {
                return false;
            }
            i += 1;
        }
        assert(self.bytes =~= other.bytes);
        true
    }
}

impl vstd::std_specs::cmp::PartialEqSpecImpl for Address {
    open spec fn obeys_eq_spec() -> bool {
        true
    }

    open spec fn eq_spec(&self, other: &Self) -> bool {
        self.bytes == other.bytes
    }
}

/// One party that receives funds when the switch expires, with its share of
/// the distributable balance in basis points.
#[derive(Clone, Copy, Debug, PartialEq, Eq)]
pub struct Beneficiary {
    pub address: Address,
    pub share_bps: u16,
}

/// The kind of asset that a switch holds.
#[derive(Clone, Copy, Debug, PartialEq, Eq)]
pub enum TokenType {
    Sol,
    Spl { mint: Address },
}

/// The kind of asset that a single payout moves.
#[derive(Clone, Copy, Debug, PartialEq, Eq)]
pub enum AssetType {
    Sol,
    SplToken { mint: Address },
}

/// A fixed amount of one asset owed to a beneficiary.
#[derive(Clone, Copy, Debug, PartialEq, Eq)]
pub struct AssetAllocation {
    pub asset_type: AssetType,
    pub amount: u64,
}

/// A beneficiary together with the fixed amounts it is owed.
#[derive(Clone, Debug, PartialEq, Eq)]
pub struct BeneficiaryAllocation {
    pub address: Address,
    pub assets: Vec<AssetAllocation>,
}

/// Where a switch stands in its life. `Expired` and `Canceled` are final.
#[derive(Clone, Copy, Debug, PartialEq, Eq, Hash, Structural)]
pub enum SwitchStatus {
    Active,
    Expired,
    Canceled,
}

/// The record of one switch: its configuration, its beneficiaries and its
/// current status.
#[derive(Clone, Debug, PartialEq, Eq)]
pub struct Switch {
    pub owner: Address,
    pub switch_id: String,
    pub beneficiaries: Vec<Beneficiary>,
    pub token_type: TokenType,
    pub timeout_seconds: i64,
    pub heartbeat_deadline: i64,
    pub status: SwitchStatus,
    pub bump: u8,
}

/// The mathematical value of a [`Switch`].
pub struct SwitchView {
    pub owner: Address,
    pub switch_id: Seq<char>,
    pub beneficiaries: Seq<Beneficiary>,
    pub token_type: TokenType,
    pub timeout_seconds: int,
    pub heartbeat_deadline: int,
    pub status: SwitchStatus,
    pub bump: u8,
}

impl View for Switch {
    type V = SwitchView;

    open spec fn view(&self) -> SwitchView {
        SwitchView {
            owner: self.owner,
            switch_id: self.switch_id@,
            beneficiaries: self.beneficiaries@,
            token_type: self.token_type,
            timeout_seconds: self.timeout_seconds as int,
            heartbeat_deadline: self.heartbeat_deadline as int,
            status: self.status,
            bump: self.bump,
        }
    }
}

/// The bytes that a switch identifier contributes to a derived address.
pub open spec fn switch_id_bytes(switch_id: Seq<char>) -> Seq<u8> {
    encode_utf8(switch_id)
}

/// A switch identifier is acceptable when it is not empty and takes at most
/// `MAX_SWITCH_ID_LEN` bytes.
pub open spec fn valid_switch_id(switch_id: Seq<char>) -> bool {
    0 < switch_id_bytes(switch_id).len() <= MAX_SWITCH_ID_LEN
}

/// A list of beneficiaries or allocations is acceptable when it has between
/// one and `MAX_BENEFICIARIES` entries.
pub open spec fn valid_beneficiary_count(count: nat) -> bool {
    0 < count <= MAX_BENEFICIARIES
}

/// The sum of the shares of all entries, in basis points.
pub open spec fn total_shares(beneficiaries: Seq<Beneficiary>) -> int
    decreases beneficiaries.len(),
{
    if beneficiaries.len() == 0 {
        0
    } else {
        total_shares(beneficiaries.drop_last()) + beneficiaries.last().share_bps
    }
}

/// Whether some entry of the list carries the address.
pub open spec fn listed(beneficiaries: Seq<Beneficiary>, address: Address) -> bool {
    exists|i: int| 0 <= i < beneficiaries.len() && beneficiaries[i].address == address
}

/// The first entry of the list that carries the address, if there is one.
/// Payouts are resolved by this entry: a later entry with the same address is
/// never consulted.
pub open spec fn first_listed(beneficiaries: Seq<Beneficiary>, address: Address) -> Option<
    Beneficiary,
>
    decreases beneficiaries.len(),
{
    if beneficiaries.len() == 0 {
        None
    } else if beneficiaries.first().address == address {
        Some(beneficiaries.first())
    } else {
        first_listed(beneficiaries.drop_first(), address)
    }
}

impl SwitchView {
    /// The shares add up to the whole: the switch pays out in proportion.
    pub open spec fn proportional(self) -> bool {
        total_shares(self.beneficiaries) == BASIS_POINTS_TOTAL
    }

    /// No entry carries a share: the switch pays out fixed allocations, and
    /// its beneficiary list only says who may be paid.
    pub open spec fn allocated(self) -> bool {
        total_shares(self.beneficiaries) == 0
    }

    /// What holds of every record that was created by one of the two
    /// initializers, whatever happened to it since.
    pub open spec fn wf(self) -> bool {
        &&& valid_switch_id(self.switch_id)
        &&& valid_beneficiary_count(self.beneficiaries.len())
        &&& self.timeout_seconds > 0
        &&& (self.proportional() || self.allocated())
    }
}

/// No single share exceeds the sum of all of them.
pub proof fn lemma_share_within_total(beneficiaries: Seq<Beneficiary>, i: int)
    requires
        0 <= i < beneficiaries.len(),
    ensures
        0 <= beneficiaries[i].share_bps <= total_shares(beneficiaries),
    decreases beneficiaries.len(),
{
    let front = beneficiaries.drop_last();
    lemma_total_shares_nonnegative(front);
    if i < front.len() {
        lemma_share_within_total(front, i);
    }
}

/// A sum of shares is never negative, and no entry adds more to it than a
/// share can hold.
pub proof fn lemma_total_shares_nonnegative(beneficiaries: Seq<Beneficiary>)
    ensures
        0 <= total_shares(beneficiaries) <= 65535 * beneficiaries.len(),
    decreases beneficiaries.len(),
{
    if beneficiaries.len() > 0 {
        lemma_total_shares_nonnegative(beneficiaries.drop_last());
    }
}

/// The first entry that carries an address is an entry of the list with that
/// address, and there is one exactly when the address is listed.
pub proof fn lemma_first_listed(beneficiaries: Seq<Beneficiary>, address: Address)
    ensures
        first_listed(beneficiaries, address) is Some <==> listed(beneficiaries, address),
        first_listed(beneficiaries, address) matches Some(entry) ==> entry.address == address
            && beneficiaries.contains(entry),
    decreases beneficiaries.len(),
{
    if beneficiaries.len() == 0 {
    } else if beneficiaries.first().address == address {
        assert(beneficiaries[0].address == address);
    } else {
        let rest = beneficiaries.drop_first();
        lemma_first_listed(rest, address);
        if listed(beneficiaries, address) {
            let i = choose|i: int| 0 <= i < beneficiaries.len() && beneficiaries[i].address == address;
            assert(rest[i - 1].address == address);
        }
        if listed(rest, address) {
            let j = choose|j: int| 0 <= j < rest.len() && rest[j].address == address;
            assert(beneficiaries[j + 1].address == address);
        }
        if let Some(entry) = first_listed(rest, address) {
            let k = choose|k: int| 0 <= k < rest.len() && rest[k] == entry;
            assert(beneficiaries[k + 1] == entry);
        }
    }
}

/// Tells whether an identifier is neither empty nor too long.
pub fn switch_id_accepted(switch_id: &String) -> (accepted: bool)
    ensures
        accepted == valid_switch_id(switch_id@),
{
    let len = switch_id.as_str().as_bytes().len();
    len > 0 && len <= MAX_SWITCH_ID_LEN
}

/// Adds up the shares of a list, however long it is.
pub fn sum_shares(beneficiaries: &Vec<Beneficiary>) -> (total: u128)
    ensures
        total == total_shares(beneficiaries@),
{
    let mut total: u128 = 0;
    let mut i: usize = 0;
    while i < beneficiaries.len()
        invariant
            i <= beneficiaries.len(),
            total == total_shares(beneficiaries@.take(i as int)),
            total <= 65535 * i,
        decreases beneficiaries.len() - i,
    {
        assert(beneficiaries@.take(i + 1).drop_last() == beneficiaries@.take(i as int));
        total = total + beneficiaries[i].share_bps as u128;
        i += 1;
    }
    assert(beneficiaries@.take(i as int) == beneficiaries@);
    total
}

/// Looks up the first entry that carries the address.
pub fn find_beneficiary(beneficiaries: &Vec<Beneficiary>, address: &Address) -> (found: Option<
    Beneficiary,
>)
    ensures
        found == first_listed(beneficiaries@, *address),
{
    let mut i: usize = 0;
    assert(beneficiaries@.skip(0) == beneficiaries@);
    while i < beneficiaries.len()
        invariant
            i <= beneficiaries.len(),
            first_listed(beneficiaries@, *address) == first_listed(
                beneficiaries@.skip(i as int),
                *address,
            ),
        decreases beneficiaries.len() - i,
    {
        assert(beneficiaries@.skip(i as int).first() == beneficiaries@[i as int]);
        assert(beneficiaries@.skip(i as int).drop_first() == beneficiaries@.skip(i + 1));
        if beneficiaries[i].address == *address {
            return Some(beneficiaries[i]);
        }
        i += 1;
    }
    None
}

impl Switch {
    /// Tells whether the record is one that an initializer could have made.
    pub fn is_well_formed(&self) -> (ok: bool)
        ensures
            ok == self@.wf(),
    {
        if !switch_id_accepted(&self.switch_id) {
            return false;
        }
        if self.beneficiaries.len() == 0 || self.beneficiaries.len() > MAX_BENEFICIARIES {
            return false;
        }
        if self.timeout_seconds <= 0 {
            return false;
        }
        let total = sum_shares(&self.beneficiaries);
        total == BASIS_POINTS_TOTAL as u128 || total == 0
    }
}

} // verus!
