//! The state transitions: creating a collection and placing a limit order.
//!
//! Each handler checks everything the command needs before it says what to
//! write, so a refused command leaves every cell as it was. What it returns
//! is a plan: the cells to allocate, the records to write into them, and the
//! escrow transfer, which the caller carries out as one atomic unit.
use crate::address::{
    check_collection_address,
    check_metadata_address,
    check_slot_address,
    collection_seeds,
    derived_bump,
    is_derived,
    metadata_seeds,
    slot_seeds,
    Address,
};
use crate::records::{
    container_occupied,
    container_parses,
    max_ever_of,
    max_listed_of,
    CollectionData,
    ContainerData,
    COLLECTION_LEN,
    COLLECTION_SPACE,
    CONTAINER_LEN,
};
use crate::MarketError;
use vstd::prelude::*;

verus! {

/// How many units of the NFT an order moves into escrow.
pub const ESCROW_UNITS: u64 = 1;

/// One entry of an NFT's creator list in the metadata registry.
#[derive(Clone, Copy, Debug)]
pub struct Creator {
    pub address: Address,
    pub verified: bool,
}

/// What creating a collection writes: a cell of `space` bytes at
/// `state_address`, created with `bump`, holding `record`.
#[derive(Clone, Copy, Debug)]
pub struct CollectionPlan {
    pub state_address: Address,
    pub bump: u8,
    pub space: u64,
    pub record: CollectionData,
}

/// The addresses an order placement is checked against.
#[derive(Clone, Copy, Debug)]
pub struct LimitOrderAccounts {
    pub payer: Address,
    pub issuer: Address,
    pub collection_state: Address,
    pub slot: Address,
    pub mint: Address,
    pub metadata: Address,
}

/// What placing an order writes: the slot cell (allocated first with
/// `fresh_slot_bump` where that is set, else reused), its record, the
/// collection's updated record, and the transfer of `escrow_units` of the
/// mint from the payer into the slot's escrow token account.
#[derive(Clone, Copy, Debug)]
pub struct LimitOrderPlan {
    pub slot_index: u32,
    pub fresh_slot_bump: Option<u8>,
    pub slot_space: u64,
    pub container: ContainerData,
    pub collection: CollectionData,
    pub escrow_units: u64,
}

/// Whether the first entry of `list` from `i` on that names `issuer` is
/// verified (false where none names it).
pub open spec fn first_entry_verified(list: Seq<Creator>, issuer: Seq<u8>, i: int) -> bool
    decreases list.len() - i,
{
    if i < 0 || i >= list.len() {
        false
    } else if list[i].address@ == issuer {
        list[i].verified
    } else {
        first_entry_verified(list, issuer, i + 1)
    }
}

/// The creator list as a sequence, where there is one.
pub open spec fn creators_view(creators: Option<Vec<Creator>>) -> Option<Seq<Creator>> {
    match creators {
        Some(v) => Some(v@),
        None => None,
    }
}

/// Whether a creator list authenticates an NFT as a member of the collection
/// of `issuer`: the list is present and its first entry naming the issuer is
/// verified.
pub open spec fn authentic(creators: Option<Seq<Creator>>, issuer: Seq<u8>) -> bool {
    match creators {
        Some(list) => first_entry_verified(list, issuer, 0),
        None => false,
    }
}

/// Checks that an NFT's creator list names the collection issuer, and that the
/// first entry naming it is verified. A verified entry settles the check in
/// favour of the NFT: a scan that went on past it to an unconditional
/// "wrong creator" refusal would refuse every NFT, verified or not.
pub fn verify_authenticity(creators: &Option<Vec<Creator>>, issuer: &Address) -> (r: Result<(), MarketError>)
    ensures
        r is Ok <==> authentic(creators_view(*creators), issuer@),
        r is Err ==> r == Err::<(), MarketError>(MarketError::InvalidAccountData),
{
    match creators {
        None => Err(MarketError::InvalidAccountData),
        Some(list) => {
            let mut i: usize = 0;
            while i < list.len()
                invariant
                    0 <= i <= list@.len(),
                    creators_view(*creators) == Some(list@),
                    first_entry_verified(list@, issuer@, 0) == first_entry_verified(list@, issuer@, i as int),
                decreases list@.len() - i,
            {
                if list[i].address.same(issuer) {
                    if list[i].verified {
                        return Ok(());
                    } else {
                        return Err(MarketError::InvalidAccountData);
                    }
                }
                i = i + 1;
            }
            Err(MarketError::InvalidAccountData)
        },
    }
}

/// Creates a collection: `collection_state` must be the collection-state
/// address derived from `issuer`; the new record has all counters at zero.
pub fn create_collection(program_id: &Address, issuer: &Address, collection_state: &Address) -> (r:
    Result<CollectionPlan, MarketError>)
    ensures
        r is Ok <==> is_derived(collection_seeds(issuer@), program_id@, collection_state@),
        r is Err ==> r == Err::<CollectionPlan, MarketError>(MarketError::InvalidAccountData),
        r matches Ok(p) ==> {
            &&& p.state_address@ == collection_state@
            &&& p.bump == derived_bump(collection_seeds(issuer@), program_id@)
            &&& p.space == COLLECTION_SPACE
            &&& p.record.address@ == issuer@
            &&& p.record.min_listed == 0
            &&& p.record.max_listed == 0
            &&& p.record.max_ever == 0
        },
{
    match check_collection_address(program_id, issuer, collection_state) {
        None => Err(MarketError::InvalidAccountData),
        Some(bump) => Ok(
            CollectionPlan {
                state_address: *collection_state,
                bump,
                space: COLLECTION_SPACE,
                record: CollectionData::new(*issuer),
            },
        ),
    }
}

/// The refusal that the checks of the collection record and of the slot
/// meet, in the order they are made, or none.
pub open spec fn slot_error(program_id: Seq<u8>, acc: LimitOrderAccounts, state: Seq<u8>, slot: Seq<
    u8,
>) -> Option<MarketError> {
    if !is_derived(collection_seeds(acc.issuer@), program_id, acc.collection_state@) {
        Some(MarketError::InvalidAccountData)
    } else if state.len() < COLLECTION_LEN {
        Some(MarketError::InvalidAccountData)
    } else if !is_derived(
        slot_seeds(acc.issuer@, max_listed_of(state) as u32),
        program_id,
        acc.slot@,
    ) {
        Some(MarketError::InvalidAccountData)
    } else if max_listed_of(state) < max_ever_of(state) && !container_parses(slot) {
        Some(MarketError::InvalidAccountData)
    } else if max_listed_of(state) < max_ever_of(state) && container_occupied(slot) {
        Some(MarketError::InvalidSeeds)
    } else {
        None
    }
}

/// The refusal an order placement meets, in the order the checks are made,
/// or none.
pub open spec fn limit_order_error(
    program_id: Seq<u8>,
    registry: Seq<u8>,
    acc: LimitOrderAccounts,
    state: Seq<u8>,
    slot: Seq<u8>,
    creators: Option<Seq<Creator>>,
) -> Option<MarketError> {
    if slot_error(program_id, acc, state, slot) is Some {
        slot_error(program_id, acc, state, slot)
    } else if !is_derived(metadata_seeds(registry, acc.mint@), registry, acc.metadata@) {
        Some(MarketError::InvalidAccountData)
    } else if !authentic(creators, acc.issuer@) {
        Some(MarketError::InvalidAccountData)
    } else if max_listed_of(state) == u32::MAX {
        Some(MarketError::ArithmeticOverflow)
    } else {
        None
    }
}

/// Reads the collection record and settles the slot: the bump to allocate it
/// with where it is fresh, none where it is reused.
fn select_slot(program_id: &Address, acc: &LimitOrderAccounts, state: &[u8], slot: &[u8]) -> (r: Result<
    (CollectionData, Option<u8>),
    MarketError,
>)
    ensures
        r is Ok <==> slot_error(program_id@, *acc, state@, slot@) is None,
        slot_error(program_id@, *acc, state@, slot@) matches Some(e) ==> r == Err::<
            (CollectionData, Option<u8>),
            MarketError,
        >(e),
        r matches Ok((c, fresh)) ==> {
            &&& c.max_listed == max_listed_of(state@)
            &&& c.max_ever == max_ever_of(state@)
            &&& c.address@ == state@.subrange(0, 32)
            &&& c.min_listed == crate::records::le_value(state@.subrange(32, 36))
            &&& (fresh is Some <==> max_listed_of(state@) >= max_ever_of(state@))
            &&& (fresh matches Some(b) ==> b == derived_bump(
                slot_seeds(acc.issuer@, c.max_listed),
                program_id@,
            ))
        },
{
    if check_collection_address(program_id, &acc.issuer, &acc.collection_state).is_none() {
        return Err(MarketError::InvalidAccountData);
    }
    let collection = match CollectionData::decode(state) {
        Some(c) => c,
        None => {
            return Err(MarketError::InvalidAccountData);
        },
    };
    let bump = match check_slot_address(program_id, &acc.issuer, collection.max_listed, &acc.slot) {
        Some(b) => b,
        None => {
            return Err(MarketError::InvalidAccountData);
        },
    };
    if collection.max_listed >= collection.max_ever {
        Ok((collection, Some(bump)))
    } else {
        match ContainerData::decode(slot) {
            None => Err(MarketError::InvalidAccountData),
            Some(current) => {
                if current.state {
                    Err(MarketError::InvalidSeeds)
                } else {
                    Ok((collection, None))
                }
            },
        }
    }
}

/// Places a limit order of `price` for the NFT `acc.mint` in the next slot of
/// the collection of `acc.issuer`.
///
/// `state` holds the collection-state cell, `slot` the slot cell (read only
/// where the slot is reused), `creators` the NFT's creator list from the
/// metadata registry whose identity is `registry`. The collection-state
/// address is checked again here before its bytes are trusted. The slot is the
/// collection's `max_listed`; it is freshly allocated where `max_listed` has
/// reached `max_ever`, else reused where it holds no live order. The NFT is
/// authentic where the first creator entry naming the issuer is verified. The
/// collection's counters move past the slot used, and that record is written
/// back with the slot's.
pub fn create_limit_order(
    program_id: &Address,
    registry: &Address,
    acc: &LimitOrderAccounts,
    state: &[u8],
    slot: &[u8],
    creators: &Option<Vec<Creator>>,
    price: u32,
) -> (r: Result<LimitOrderPlan, MarketError>)
    ensures
        r is Ok <==> limit_order_error(
            program_id@,
            registry@,
            *acc,
            state@,
            slot@,
            creators_view(*creators),
        ) is None,
        limit_order_error(program_id@, registry@, *acc, state@, slot@, creators_view(*creators))
            matches Some(e) ==> r == Err::<LimitOrderPlan, MarketError>(e),
        r matches Ok(p) ==> {
            &&& p.slot_index == max_listed_of(state@)
            &&& (p.fresh_slot_bump is Some <==> max_listed_of(state@) >= max_ever_of(state@))
            &&& (p.fresh_slot_bump matches Some(b) ==> b == derived_bump(
                slot_seeds(acc.issuer@, p.slot_index),
                program_id@,
            ))
            &&& p.slot_space == CONTAINER_LEN
            &&& p.container.collection_address@ == acc.issuer@
            &&& p.container.mint_address@ == acc.mint@
            &&& p.container.price == price
            &&& p.container.owner@ == acc.payer@
            &&& p.container.state
            &&& p.collection.address@ == state@.subrange(0, 32)
            &&& p.collection.min_listed == crate::records::le_value(state@.subrange(32, 36))
            &&& p.collection.max_listed == max_listed_of(state@) + 1
            &&& p.collection.max_ever == if max_ever_of(state@) > max_listed_of(state@) {
                max_ever_of(state@)
            } else {
                max_listed_of(state@) + 1
            }
            &&& p.escrow_units == ESCROW_UNITS
        },
{
    let (collection, fresh_slot_bump) = select_slot(program_id, acc, state, slot)?;
    let index = collection.max_listed;
    if !check_metadata_address(registry, &acc.mint, &acc.metadata) {
        return Err(MarketError::InvalidAccountData);
    }
    verify_authenticity(creators, &acc.issuer)?;
    if index == u32::MAX {
        return Err(MarketError::ArithmeticOverflow);
    }
    let next = index + 1;
    let max_ever = if collection.max_ever > next {
        collection.max_ever
    } else {
        next
    };
    let container = ContainerData {
        collection_address: acc.issuer,
        mint_address: acc.mint,
        price,
        owner: acc.payer,
        state: true,
    };
    Ok(
        LimitOrderPlan {
            slot_index: index,
            fresh_slot_bump,
            slot_space: CONTAINER_LEN as u64,
            container,
            collection: CollectionData {
                address: collection.address,
                min_listed: collection.min_listed,
                max_listed: next,
                max_ever,
            },
            escrow_units: ESCROW_UNITS,
        },
    )
}

} // verus!
