use vstd::prelude::*;
use vstd::array::array_as_slice;
use vstd::bytes::{spec_u64_to_le_bytes, u64_to_le_bytes};
use vstd::slice::slice_to_vec;
use vstd::string::*;
use crate::key::Key;
use crate::ticket::{ticket_name, ticket_name_of, NAME, SYMBOL, URI};

verus! {

/// Share of the royalties that goes to the one creator of an asset, in percent.
pub const CREATOR_SHARE: u8 = 100;

/// What the asset registry is asked to mint and to record for an asset.
#[derive(Clone, Debug, PartialEq, Eq)]
pub struct MintRequest {
    /// Seeds with which the collection signs the request.
    pub signer_seeds: Vec<Vec<u8>>,
    /// How many tokens of the asset are minted.
    pub amount: u64,
    pub name: String,
    pub symbol: String,
    pub uri: String,
    pub seller_fee_basis_points: u16,
    /// The one creator recorded for the asset.
    pub creator: Key,
    pub creator_verified: bool,
    pub creator_share: u8,
    pub is_mutable: bool,
    pub update_authority_is_signer: bool,
    /// The size with which a collection starts; `None` for an asset that is
    /// not itself a collection.
    pub collection_size: Option<u64>,
    /// How many prints of the master edition may be made.
    pub max_supply: Option<u64>,
}

/// A [`MintRequest`] with its strings and seeds as sequences.
pub struct MintRequestView {
    pub signer_seeds: Seq<Seq<u8>>,
    pub amount: nat,
    pub name: Seq<char>,
    pub symbol: Seq<char>,
    pub uri: Seq<char>,
    pub seller_fee_basis_points: nat,
    pub creator: Seq<u8>,
    pub creator_verified: bool,
    pub creator_share: nat,
    pub is_mutable: bool,
    pub update_authority_is_signer: bool,
    pub collection_size: Option<nat>,
    pub max_supply: Option<nat>,
}

impl View for MintRequest {
    type V = MintRequestView;

    open spec fn view(&self) -> MintRequestView {
        MintRequestView {
            signer_seeds: self.signer_seeds.deep_view(),
            amount: self.amount as nat,
            name: self.name@,
            symbol: self.symbol@,
            uri: self.uri@,
            seller_fee_basis_points: self.seller_fee_basis_points as nat,
            creator: self.creator@,
            creator_verified: self.creator_verified,
            creator_share: self.creator_share as nat,
            is_mutable: self.is_mutable,
            update_authority_is_signer: self.update_authority_is_signer,
            collection_size: match self.collection_size {
                Some(size) => Some(size as nat),
                None => None,
            },
            max_supply: match self.max_supply {
                Some(supply) => Some(supply as nat),
                None => None,
            },
        }
    }
}

/// The first signer seed of a collection: the bytes of `collection_mint`.
pub open spec fn collection_seed() -> Seq<u8> {
    seq![99u8, 111u8, 108u8, 108u8, 101u8, 99u8, 116u8, 105u8, 111u8, 110u8, 95u8, 109u8, 105u8,
        110u8, 116u8]
}

/// The seeds with which the collection of a lottery signs: the fixed seed,
/// the payer's key, the lottery's identifier in little-endian bytes, and the
/// bump of the collection's address.
pub open spec fn signer_seeds(payer: Seq<u8>, id: u64, bump: u8) -> Seq<Seq<u8>> {
    seq![collection_seed(), payer, spec_u64_to_le_bytes(id), seq![bump]]
}

/// The request for an asset of a lottery: one token, no fee, the collection
/// as its only creator, unverified and with the whole share.
pub open spec fn asset_request(
    seeds: Seq<Seq<u8>>,
    name: Seq<char>,
    collection_mint: Seq<u8>,
    collection_size: Option<nat>,
) -> MintRequestView {
    MintRequestView {
        signer_seeds: seeds,
        amount: 1,
        name,
        symbol: SYMBOL@,
        uri: URI@,
        seller_fee_basis_points: 0,
        creator: collection_mint,
        creator_verified: false,
        creator_share: CREATOR_SHARE as nat,
        is_mutable: true,
        update_authority_is_signer: true,
        collection_size,
        max_supply: Some(0nat),
    }
}

/// The request that sets up the collection of a lottery: an asset under the
/// collection's own name, marked as a collection that starts empty.
pub open spec fn collection_request(
    payer: Seq<u8>,
    id: u64,
    bump: u8,
    collection_mint: Seq<u8>,
) -> MintRequestView {
    asset_request(signer_seeds(payer, id, bump), NAME@, collection_mint, Some(0nat))
}

/// The request for the ticket with the given sequence number.
pub open spec fn ticket_request(
    payer: Seq<u8>,
    id: u64,
    bump: u8,
    collection_mint: Seq<u8>,
    sequence_number: nat,
) -> MintRequestView {
    asset_request(signer_seeds(payer, id, bump), ticket_name(sequence_number), collection_mint, None)
}

/// Builds the signer seeds of a lottery's collection.
pub fn signer_seeds_of(payer: &Key, id: u64, bump: u8) -> (seeds: Vec<Vec<u8>>)
    ensures
        seeds.deep_view() == signer_seeds(payer@, id, bump),
{
    let fixed: Vec<u8> = vec![99u8, 111u8, 108u8, 108u8, 101u8, 99u8, 116u8, 105u8, 111u8, 110u8,
        95u8, 109u8, 105u8, 110u8, 116u8];
    let payer_bytes = slice_to_vec(array_as_slice(&payer.bytes));
    let id_bytes = u64_to_le_bytes(id);
    let bump_bytes: Vec<u8> = vec![bump];
    assert(fixed.deep_view() =~= collection_seed());
    assert(payer_bytes.deep_view() =~= payer@);
    assert(id_bytes.deep_view() =~= spec_u64_to_le_bytes(id));
    assert(bump_bytes.deep_view() =~= seq![bump]);
    let seeds: Vec<Vec<u8>> = vec![fixed, payer_bytes, id_bytes, bump_bytes];
    assert(seeds.deep_view() =~= signer_seeds(payer@, id, bump));
    seeds
}

fn asset_request_of(
    seeds: Vec<Vec<u8>>,
    name: String,
    collection_mint: &Key,
    collection_size: Option<u64>,
) -> (request: MintRequest)
    ensures
        request@ == asset_request(
            seeds.deep_view(),
            name@,
            collection_mint@,
            match collection_size {
                Some(size) => Some(size as nat),
                None => None,
            },
        ),
{
    MintRequest {
        signer_seeds: seeds,
        amount: 1,
        name,
        symbol: String::from_str(SYMBOL),
        uri: String::from_str(URI),
        seller_fee_basis_points: 0,
        creator: *collection_mint,
        creator_verified: false,
        creator_share: CREATOR_SHARE,
        is_mutable: true,
        update_authority_is_signer: true,
        collection_size,
        max_supply: Some(0),
    }
}

/// Builds the request that sets up the collection of a lottery.
pub fn collection_request_of(payer: &Key, id: u64, bump: u8, collection_mint: &Key) -> (request:
    MintRequest)
    ensures
        request@ == collection_request(payer@, id, bump, collection_mint@),
{
    asset_request_of(
        signer_seeds_of(payer, id, bump),
        String::from_str(NAME),
        collection_mint,
        Some(0),
    )
}

/// Builds the request for the ticket with the given sequence number.
pub fn ticket_request_of(
    payer: &Key,
    id: u64,
    bump: u8,
    collection_mint: &Key,
    sequence_number: u64,
) -> (request: MintRequest)
    ensures
        request@ == ticket_request(payer@, id, bump, collection_mint@, sequence_number as nat),
{
    asset_request_of(
        signer_seeds_of(payer, id, bump),
        ticket_name_of(sequence_number),
        collection_mint,
        None,
    )
}

} // verus!
