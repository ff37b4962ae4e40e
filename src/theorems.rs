//! What holds of the handlers across inputs and across calls.
use crate::address::{
    be_bytes,
    collection_seeds,
    is_derived,
    metadata_seeds,
    slot_seeds,
};
use crate::instruction::{instruction_of, price_of, Instruction};
use crate::market::{
    authentic,
    first_entry_verified,
    limit_order_error,
    slot_error,
    Creator,
    LimitOrderAccounts,
};
use crate::records::{
    collection_bytes,
    container_occupied,
    container_parses,
    le_bytes,
    lemma_le_round_trip,
    max_ever_of,
    max_listed_of,
    CollectionData,
};
use crate::MarketError;
use vstd::prelude::*;

verus! {

/// Exactly one address is accepted as the collection state of an issuer:
/// two accepted addresses are the same.
pub proof fn lemma_collection_state_address_unique(
    program_id: Seq<u8>,
    issuer: Seq<u8>,
    a: Seq<u8>,
    b: Seq<u8>,
)
    requires
        is_derived(collection_seeds(issuer), program_id, a),
        is_derived(collection_seeds(issuer), program_id, b),
    ensures
        a == b,
{
}

/// A slot's escrow address is a function of the issuer and the slot index:
/// any two addresses accepted for the same pair are the same.
pub proof fn lemma_slot_address_deterministic(
    program_id: Seq<u8>,
    issuer: Seq<u8>,
    index: u32,
    a: Seq<u8>,
    b: Seq<u8>,
)
    requires
        is_derived(slot_seeds(issuer, index), program_id, a),
        is_derived(slot_seeds(issuer, index), program_id, b),
    ensures
        a == b,
{
}

/// Distinct (issuer, slot index) pairs give distinct seed lists, so their
/// escrow addresses are derived from distinct inputs.
pub proof fn lemma_slot_seeds_distinct(issuer1: Seq<u8>, index1: u32, issuer2: Seq<u8>, index2: u32)
    requires
        issuer1 != issuer2 || index1 != index2,
    ensures
        slot_seeds(issuer1, index1) != slot_seeds(issuer2, index2),
{
    if slot_seeds(issuer1, index1) == slot_seeds(issuer2, index2) {
        assert(slot_seeds(issuer1, index1)[2] == issuer1);
        assert(slot_seeds(issuer2, index2)[2] == issuer2);
        let (x, y) = (be_bytes(index1), be_bytes(index2));
        assert(slot_seeds(issuer1, index1)[1] == x);
        assert(slot_seeds(issuer2, index2)[1] == y);
        assert(x[0] == y[0] && x[1] == y[1] && x[2] == y[2] && x[3] == y[3]);
        let (u, v) = (index1 as int, index2 as int);
        assert(u == v) by (nonlinear_arith)
            requires
                u / 16777216 == v / 16777216,
                (u / 65536) % 256 == (v / 65536) % 256,
                (u / 256) % 256 == (v / 256) % 256,
                u % 256 == v % 256,
                0 <= u < 4294967296,
                0 <= v < 4294967296,
        ;
    }
}

/// Once a slot that is up for reuse holds a live order, placing another order
/// there is refused with `InvalidSeeds`, so nothing is written.
pub proof fn lemma_occupied_slot_refused(
    program_id: Seq<u8>,
    registry: Seq<u8>,
    acc: LimitOrderAccounts,
    state: Seq<u8>,
    slot: Seq<u8>,
    creators: Option<Seq<Creator>>,
)
    requires
        is_derived(collection_seeds(acc.issuer@), program_id, acc.collection_state@),
        state.len() >= 44,
        is_derived(slot_seeds(acc.issuer@, max_listed_of(state) as u32), program_id, acc.slot@),
        max_listed_of(state) < max_ever_of(state),
        container_parses(slot),
        container_occupied(slot),
    ensures
        limit_order_error(program_id, registry, acc, state, slot, creators) == Some(
            MarketError::InvalidSeeds,
        ),
{
}

proof fn lemma_first_entry_verified_exists(list: Seq<Creator>, issuer: Seq<u8>, i: int)
    requires
        0 <= i <= list.len(),
    ensures
        first_entry_verified(list, issuer, i) <==> exists|k: int|
            i <= k < list.len() && list[k].address@ == issuer && list[k].verified && forall|j: int|
                i <= j < k ==> list[j].address@ != issuer,
    decreases list.len() - i,
{
    if i < list.len() {
        lemma_first_entry_verified_exists(list, issuer, i + 1);
        if first_entry_verified(list, issuer, i) && list[i].address@ != issuer {
            let k = choose|k: int|
                i + 1 <= k < list.len() && list[k].address@ == issuer && list[k].verified
                    && forall|j: int| i + 1 <= j < k ==> list[j].address@ != issuer;
            assert(forall|j: int| i <= j < k ==> list[j].address@ != issuer);
        }
        if !first_entry_verified(list, issuer, i) {
            assert forall|k: int|
                i <= k < list.len() && list[k].address@ == issuer && list[k].verified implies exists|
                j: int,
            | i <= j < k && list[j].address@ == issuer by {
                if k == i {
                    assert(false);
                } else if list[i].address@ == issuer {
                    assert(i <= i < k && list[i].address@ == issuer);
                } else {
                    let w = choose|j: int| i + 1 <= j < k && list[j].address@ == issuer;
                    assert(i <= w < k && list[w].address@ == issuer);
                }
            }
        }
    }
}

/// An NFT is authentic exactly when its creator list is present and the first
/// entry in it that names the issuer is verified: an absent list, a list
/// without the issuer, and a list whose first issuer entry is unverified are
/// all refused.
pub proof fn lemma_authentic_exactly_when(creators: Option<Seq<Creator>>, issuer: Seq<u8>)
    ensures
        creators is None ==> !authentic(creators, issuer),
        creators matches Some(list) ==> (authentic(creators, issuer) <==> exists|k: int|
            0 <= k < list.len() && list[k].address@ == issuer && list[k].verified && forall|j: int|
                0 <= j < k ==> list[j].address@ != issuer),
        creators matches Some(list) ==> ((forall|k: int|
            0 <= k < list.len() ==> list[k].address@ != issuer) ==> !authentic(creators, issuer)),
{
    if let Some(list) = creators {
        lemma_first_entry_verified_exists(list, issuer, 0);
    }
}

/// An order is placed only for an authentic NFT.
pub proof fn lemma_order_needs_authentic_nft(
    program_id: Seq<u8>,
    registry: Seq<u8>,
    acc: LimitOrderAccounts,
    state: Seq<u8>,
    slot: Seq<u8>,
    creators: Option<Seq<Creator>>,
)
    requires
        limit_order_error(program_id, registry, acc, state, slot, creators) is None,
    ensures
        authentic(creators, acc.issuer@),
        is_derived(metadata_seeds(registry, acc.mint@), registry, acc.metadata@),
{
}

/// Where the metadata-record check or the authenticity check fails, the order
/// is refused with `InvalidAccountData` whatever the earlier checks found, so
/// the slot's cell keeps what it held.
pub proof fn lemma_late_failures_write_nothing(
    program_id: Seq<u8>,
    registry: Seq<u8>,
    acc: LimitOrderAccounts,
    state: Seq<u8>,
    slot: Seq<u8>,
    creators: Option<Seq<Creator>>,
)
    requires
        !is_derived(metadata_seeds(registry, acc.mint@), registry, acc.metadata@) || !authentic(
            creators,
            acc.issuer@,
        ),
    ensures
        limit_order_error(program_id, registry, acc, state, slot, creators) is Some,
        slot_error(program_id, acc, state, slot) is None ==> limit_order_error(
            program_id,
            registry,
            acc,
            state,
            slot,
            creators,
        ) == Some(MarketError::InvalidAccountData),
{
}

/// A freshly created collection, written to its cell (50 bytes, the record
/// then zeros), accepts an order for an authentic NFT in slot 0, which is
/// allocated fresh.
pub proof fn lemma_first_order_on_new_collection(
    program_id: Seq<u8>,
    registry: Seq<u8>,
    acc: LimitOrderAccounts,
    record: CollectionData,
    padding: Seq<u8>,
    slot: Seq<u8>,
    creators: Option<Seq<Creator>>,
)
    requires
        record.address@ == acc.issuer@,
        record.min_listed == 0,
        record.max_listed == 0,
        record.max_ever == 0,
        is_derived(collection_seeds(acc.issuer@), program_id, acc.collection_state@),
        is_derived(slot_seeds(acc.issuer@, 0), program_id, acc.slot@),
        is_derived(metadata_seeds(registry, acc.mint@), registry, acc.metadata@),
        authentic(creators, acc.issuer@),
    ensures
        max_listed_of(collection_bytes(record) + padding) == 0,
        max_ever_of(collection_bytes(record) + padding) == 0,
        limit_order_error(
            program_id,
            registry,
            acc,
            collection_bytes(record) + padding,
            slot,
            creators,
        ) is None,
{
    let state = collection_bytes(record) + padding;
    assert(state.subrange(36, 40) =~= le_bytes(0));
    assert(state.subrange(40, 44) =~= le_bytes(0));
    lemma_le_round_trip(0);
}

/// The price bytes of an order command decode to the clamped value of the
/// price formula, whatever follows them.
pub proof fn lemma_order_command_price(data: Seq<u8>)
    requires
        data.len() >= 7,
        data[0] == 1,
    ensures
        instruction_of(data) == Ok::<Instruction, MarketError>(
            Instruction::CreateLimitOrder {
                price: price_of(data[1], data[2], data[3], data[4], data[5], data[6]),
            },
        ),
{
}

} // verus!
