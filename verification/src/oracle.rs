use vstd::prelude::*;
use switchboard_on_demand::OnDemandError;
use switchboard_on_demand::RandomnessAccountData;

verus! {

/// The error type of the oracle's crate, `switchboard_on_demand::OnDemandError`.
/// Nothing is known of a value of it; the lottery only tells it from success.
#[verifier::external_type_specification]
#[verifier::external_body]
pub struct ExOnDemandError(OnDemandError);

/// What the lottery reads from a randomness account of the oracle.
#[derive(Clone, Copy, Debug, PartialEq, Eq)]
pub struct RandomnessData {
    /// Slot at which the oracle committed to the request.
    pub seed_slot: u64,
    /// Slot at which the value was revealed.
    pub reveal_slot: u64,
    /// The revealed value.
    pub value: [u8; 32],
}

/// Length in bytes of a randomness account: the tag and the record behind it.
pub const RANDOMNESS_ACCOUNT_LEN: usize = 408;

/// The eight bytes with which every randomness account starts.
pub open spec fn randomness_tag() -> Seq<u8> {
    seq![10u8, 66u8, 229u8, 135u8, 220u8, 239u8, 217u8, 114u8]
}

/// Whether `data` is long enough for a randomness account and starts with
/// its tag. The oracle's crate reads no other data as a randomness account.
pub open spec fn has_randomness_layout(data: Seq<u8>) -> bool {
    data.len() >= RANDOMNESS_ACCOUNT_LEN && data.subrange(0, 8) == randomness_tag()
}

/// Calls `RandomnessAccountData::parse` of `switchboard_on_demand` on a copy
/// of `data` and hands out three fields of the account it returns.
///
/// Trusted, not proved: the call succeeds only on data that is at least as
/// long as an account and starts with the account's tag. Nothing is claimed
/// of the fields: the crate reads them out of the bytes as the machine lays
/// them out, and refuses data that lies at an address it cannot read from.
#[verifier::external_body]
pub(crate) fn parse_randomness(data: &Vec<u8>) -> (r: Result<RandomnessData, OnDemandError>)
    ensures
        r is Ok ==> has_randomness_layout(data@),
{
    let mut bytes = data.clone();
    let cell = std::cell::RefCell::new(bytes.as_mut_slice());
    let parsed = RandomnessAccountData::parse(cell.borrow()).map(
        |account| RandomnessData {
            seed_slot: account.seed_slot,
            reveal_slot: account.reveal_slot,
            value: account.value,
        },
    );
    parsed
}

/// Calls `RandomnessAccountData::get_value` of `switchboard_on_demand` on an
/// account with the reveal slot and the value of `data`.
///
/// Trusted, not proved: the oracle hands out the value at the slot of its
/// reveal, unchanged, and at every other slot fails.
#[verifier::external_body]
pub(crate) fn reveal_value(data: &RandomnessData, slot: u64) -> (r: Result<[u8; 32], OnDemandError>)
    ensures
        r is Ok <==> slot == data.reveal_slot,
        r matches Ok(value) ==> value == data.value,
{
    let mut account: RandomnessAccountData = bytemuck::Zeroable::zeroed();
    account.reveal_slot = data.reveal_slot;
    account.value = data.value;
    account.get_value(slot)
}

} // verus!
