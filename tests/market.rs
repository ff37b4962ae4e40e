use std::str::FromStr;

use borsh::BorshSerialize;
use gamestree_market::address::{
    check_collection_address, check_metadata_address, check_slot_address, to_be_bytes, Address,
};
use gamestree_market::instruction::{decode_price, Instruction};
use gamestree_market::market::{
    create_collection, create_limit_order, verify_authenticity, Creator, LimitOrderAccounts,
    LimitOrderPlan, ESCROW_UNITS,
};
use gamestree_market::records::{CollectionData, ContainerData, COLLECTION_SPACE};
use gamestree_market::MarketError;
use solana_program::pubkey::Pubkey;

const TAG: &[u8] = b"Gamestree_seed";

fn addr(p: &Pubkey) -> Address {
    Address::new(p.to_bytes())
}

fn key(n: u8) -> Pubkey {
    Pubkey::new_from_array([n; 32])
}

fn registry() -> Pubkey {
    Pubkey::from_str("metaqbxxUerdq28cj1RbAWkYQm3ybzjb6a8bt518x1s").unwrap()
}

fn collection_pda(program: &Pubkey, issuer: &Pubkey) -> (Pubkey, u8) {
    Pubkey::find_program_address(&[TAG, &issuer.to_bytes()], program)
}

fn slot_pda(program: &Pubkey, issuer: &Pubkey, index: u32) -> (Pubkey, u8) {
    Pubkey::find_program_address(&[TAG, &index.to_be_bytes(), &issuer.to_bytes()], program)
}

fn metadata_pda(mint: &Pubkey) -> Pubkey {
    let reg = registry();
    Pubkey::find_program_address(&[b"metadata", &reg.to_bytes(), &mint.to_bytes()], &reg).0
}

struct Scene {
    program: Pubkey,
    acc: LimitOrderAccounts,
    issuer: Pubkey,
}

fn scene(index: u32) -> Scene {
    let program = key(9);
    let issuer = key(2);
    let payer = key(1);
    let mint = key(3);
    let acc = LimitOrderAccounts {
        payer: addr(&payer),
        issuer: addr(&issuer),
        collection_state: addr(&collection_pda(&program, &issuer).0),
        slot: addr(&slot_pda(&program, &issuer, index).0),
        mint: addr(&mint),
        metadata: addr(&metadata_pda(&mint)),
    };
    Scene { program, acc, issuer }
}

fn collection_cell(max_listed: u32, max_ever: u32) -> Vec<u8> {
    let mut cell = CollectionData {
        address: addr(&key(2)),
        min_listed: 0,
        max_listed,
        max_ever,
    }
    .encode();
    cell.resize(COLLECTION_SPACE as usize, 0);
    cell
}

fn verified_issuer() -> Option<Vec<Creator>> {
    Some(vec![
        Creator { address: addr(&key(7)), verified: true },
        Creator { address: addr(&key(2)), verified: true },
    ])
}

fn place(s: &Scene, state: &[u8], slot: &[u8], creators: &Option<Vec<Creator>>) -> Result<LimitOrderPlan, MarketError> {
    create_limit_order(&addr(&s.program), &addr(&registry()), &s.acc, state, slot, creators, 77)
}

#[test]
fn price_bytes_two_to_seven_clamp_to_u32_max() {
    assert_eq!(decode_price(2, 3, 4, 5, 6, 7), 4_294_967_295);
}

#[test]
fn price_formula_exact_values() {
    assert_eq!(decode_price(0, 0, 1, 0, 0, 0), 1_000_000_000);
    assert_eq!(decode_price(0, 0, 0, 1, 2, 3), 500_000);
    assert_eq!(decode_price(1, 2, 2, 100, 100, 0), u32::MAX);
    assert_eq!(decode_price(1, 1, 3, 10, 10, 37), 4_013_700_000);
    assert_eq!(decode_price(0, 0, 0, 0, 0, 0), 0);
}

#[test]
fn decode_commands_by_tag() {
    assert_eq!(Instruction::decode(&[0]), Ok(Instruction::CreateCollection));
    assert_eq!(
        Instruction::decode(&[1, 0, 0, 2, 0, 0, 5, 99]),
        Ok(Instruction::CreateLimitOrder { price: 2_000_500_000 })
    );
    assert_eq!(Instruction::decode(&[2]), Ok(Instruction::CloseLimitOrder));
    assert_eq!(Instruction::decode(&[3, 1]), Ok(Instruction::FillLimitOrder));
}

#[test]
fn decode_rejects_unknown_tag_empty_and_short_payload() {
    assert_eq!(Instruction::decode(&[4]), Err(MarketError::InvalidInstructionData));
    assert_eq!(Instruction::decode(&[255, 0]), Err(MarketError::InvalidInstructionData));
    assert_eq!(Instruction::decode(&[]), Err(MarketError::InvalidInstructionData));
    assert_eq!(Instruction::decode(&[1, 2, 3, 4, 5, 6]), Err(MarketError::InvalidInstructionData));
}

#[test]
fn records_match_borsh_layout() {
    let c = CollectionData { address: addr(&key(5)), min_listed: 1, max_listed: 258, max_ever: 70000 };
    let expected = ([5u8; 32], 1u32, 258u32, 70000u32).try_to_vec().unwrap();
    assert_eq!(c.encode(), expected);
    let d = ContainerData {
        collection_address: addr(&key(5)),
        mint_address: addr(&key(6)),
        price: 123_456_789,
        owner: addr(&key(8)),
        state: true,
    };
    let expected = ([5u8; 32], [6u8; 32], 123_456_789u32, [8u8; 32], true).try_to_vec().unwrap();
    assert_eq!(d.encode(), expected);
}

#[test]
fn records_round_trip_and_reject_bad_bytes() {
    let c = CollectionData { address: addr(&key(5)), min_listed: 3, max_listed: 9, max_ever: 11 };
    let mut bytes = c.encode();
    bytes.extend_from_slice(&[0; 6]);
    let back = CollectionData::decode(&bytes).unwrap();
    assert_eq!(back.address, c.address);
    assert_eq!((back.min_listed, back.max_listed, back.max_ever), (3, 9, 11));
    assert!(CollectionData::decode(&bytes[..43]).is_none());

    let d = ContainerData {
        collection_address: addr(&key(5)),
        mint_address: addr(&key(6)),
        price: 42,
        owner: addr(&key(8)),
        state: false,
    };
    let mut bytes = d.encode();
    let back = ContainerData::decode(&bytes).unwrap();
    assert_eq!(back.price, 42);
    assert!(!back.state);
    assert_eq!(back.owner, d.owner);
    bytes[100] = 2;
    assert!(ContainerData::decode(&bytes).is_none());
    assert!(ContainerData::decode(&bytes[..100]).is_none());
}

#[test]
fn be_bytes_of_slot_index() {
    assert_eq!(to_be_bytes(0x01020304), vec![1, 2, 3, 4]);
    assert_eq!(to_be_bytes(7), 7u32.to_be_bytes().to_vec());
}

#[test]
fn collection_address_is_the_derived_one() {
    let program = key(9);
    let issuer = key(2);
    let (pda, bump) = collection_pda(&program, &issuer);
    assert_eq!(check_collection_address(&addr(&program), &addr(&issuer), &addr(&pda)), Some(bump));
    assert_eq!(check_collection_address(&addr(&program), &addr(&issuer), &addr(&issuer)), None);
    let other = collection_pda(&program, &key(4)).0;
    assert_eq!(check_collection_address(&addr(&program), &addr(&issuer), &addr(&other)), None);
}

#[test]
fn create_collection_starts_counters_at_zero() {
    let program = key(9);
    let issuer = key(2);
    let (pda, bump) = collection_pda(&program, &issuer);
    let plan = create_collection(&addr(&program), &addr(&issuer), &addr(&pda)).unwrap();
    assert_eq!(plan.state_address, addr(&pda));
    assert_eq!(plan.bump, bump);
    assert_eq!(plan.space, 50);
    assert_eq!(plan.record.address, addr(&issuer));
    assert_eq!((plan.record.min_listed, plan.record.max_listed, plan.record.max_ever), (0, 0, 0));
}

#[test]
fn create_collection_rejects_other_address() {
    let program = key(9);
    let r = create_collection(&addr(&program), &addr(&key(2)), &addr(&key(3)));
    assert_eq!(r.err(), Some(MarketError::InvalidAccountData));
}

#[test]
fn slot_addresses_stable_and_distinct() {
    let program = key(9);
    let mut seen: Vec<Pubkey> = Vec::new();
    for issuer in [key(2), key(4)] {
        for index in 0..8u32 {
            let (pda, bump) = slot_pda(&program, &issuer, index);
            let p = addr(&program);
            assert_eq!(check_slot_address(&p, &addr(&issuer), index, &addr(&pda)), Some(bump));
            assert_eq!(check_slot_address(&p, &addr(&issuer), index, &addr(&pda)), Some(bump));
            assert_eq!(check_slot_address(&p, &addr(&issuer), index + 1, &addr(&pda)), None);
            assert!(!seen.contains(&pda));
            seen.push(pda);
        }
    }
}

#[test]
fn metadata_address_check() {
    let mint = key(3);
    let pda = metadata_pda(&mint);
    assert!(check_metadata_address(&addr(&registry()), &addr(&mint), &addr(&pda)));
    assert!(!check_metadata_address(&addr(&registry()), &addr(&key(4)), &addr(&pda)));
}

#[test]
fn first_order_goes_to_fresh_slot_zero() {
    let program = key(9);
    let issuer = key(2);
    let (pda, _) = collection_pda(&program, &issuer);
    let created = create_collection(&addr(&program), &addr(&issuer), &addr(&pda)).unwrap();
    let mut cell = created.record.encode();
    cell.resize(created.space as usize, 0);

    let price = match Instruction::decode(&[1, 0, 0, 2, 0, 0, 5]).unwrap() {
        Instruction::CreateLimitOrder { price } => price,
        _ => panic!("not an order"),
    };
    let s = scene(0);
    let plan = create_limit_order(&addr(&program), &addr(&registry()), &s.acc, &cell, &[], &verified_issuer(), price)
        .unwrap();
    assert_eq!(plan.slot_index, 0);
    assert_eq!(plan.fresh_slot_bump, Some(slot_pda(&program, &issuer, 0).1));
    assert_eq!(plan.container.collection_address, addr(&issuer));
    assert_eq!(plan.container.mint_address, addr(&key(3)));
    assert_eq!(plan.container.price, 2_000_500_000);
    assert_eq!(plan.container.owner, addr(&key(1)));
    assert!(plan.container.state);
    assert_eq!(plan.escrow_units, ESCROW_UNITS);
    assert_eq!(plan.escrow_units, 1);
    assert_eq!((plan.collection.max_listed, plan.collection.max_ever), (1, 1));
    assert_eq!(plan.container.encode().len() as u64, plan.slot_space);
    let _ = s.issuer;
}

#[test]
fn occupied_slot_is_refused_with_invalid_seeds() {
    let s = scene(2);
    let live = ContainerData {
        collection_address: s.acc.issuer,
        mint_address: addr(&key(6)),
        price: 5,
        owner: addr(&key(8)),
        state: true,
    }
    .encode();
    let r = place(&s, &collection_cell(2, 4), &live, &verified_issuer());
    assert_eq!(r.err(), Some(MarketError::InvalidSeeds));
}

#[test]
fn empty_slot_is_reused() {
    let s = scene(2);
    let empty = ContainerData {
        collection_address: s.acc.issuer,
        mint_address: addr(&key(6)),
        price: 5,
        owner: addr(&key(8)),
        state: false,
    }
    .encode();
    let plan = place(&s, &collection_cell(2, 4), &empty, &verified_issuer()).unwrap();
    assert_eq!(plan.slot_index, 2);
    assert_eq!(plan.fresh_slot_bump, None);
    assert_eq!((plan.collection.max_listed, plan.collection.max_ever), (3, 4));
    assert_eq!(plan.container.price, 77);
}

#[test]
fn unreadable_slot_is_refused() {
    let s = scene(2);
    let r = place(&s, &collection_cell(2, 4), &[0; 10], &verified_issuer());
    assert_eq!(r.err(), Some(MarketError::InvalidAccountData));
}

#[test]
fn authenticity_cases() {
    let issuer = addr(&key(2));
    assert!(verify_authenticity(&verified_issuer(), &issuer).is_ok());
    assert_eq!(verify_authenticity(&None, &issuer), Err(MarketError::InvalidAccountData));
    let absent = Some(vec![Creator { address: addr(&key(7)), verified: true }]);
    assert_eq!(verify_authenticity(&absent, &issuer), Err(MarketError::InvalidAccountData));
    let unverified = Some(vec![
        Creator { address: issuer, verified: false },
        Creator { address: issuer, verified: true },
    ]);
    assert_eq!(verify_authenticity(&unverified, &issuer), Err(MarketError::InvalidAccountData));
    assert_eq!(verify_authenticity(&Some(vec![]), &issuer), Err(MarketError::InvalidAccountData));
}

#[test]
fn order_refused_without_authentic_nft() {
    let s = scene(0);
    let cell = collection_cell(0, 0);
    assert_eq!(place(&s, &cell, &[], &None).err(), Some(MarketError::InvalidAccountData));
    let unverified = Some(vec![Creator { address: s.acc.issuer, verified: false }]);
    assert_eq!(place(&s, &cell, &[], &unverified).err(), Some(MarketError::InvalidAccountData));
    assert!(place(&s, &cell, &[], &verified_issuer()).is_ok());
}

#[test]
fn metadata_mismatch_reports_no_plan() {
    let mut s = scene(0);
    s.acc.metadata = addr(&key(5));
    let r = place(&s, &collection_cell(0, 0), &[], &verified_issuer());
    assert_eq!(r.err(), Some(MarketError::InvalidAccountData));
}

#[test]
fn order_checks_collection_and_slot_addresses() {
    let mut s = scene(0);
    let cell = collection_cell(0, 0);
    s.acc.slot = addr(&slot_pda(&s.program, &s.issuer, 1).0);
    assert_eq!(place(&s, &cell, &[], &verified_issuer()).err(), Some(MarketError::InvalidAccountData));
    let mut s = scene(0);
    s.acc.collection_state = addr(&key(4));
    assert_eq!(place(&s, &cell, &[], &verified_issuer()).err(), Some(MarketError::InvalidAccountData));
    let s = scene(0);
    assert_eq!(place(&s, &cell[..40], &[], &verified_issuer()).err(), Some(MarketError::InvalidAccountData));
}

#[test]
fn exhausted_counter_overflows() {
    let s = scene(u32::MAX);
    let r = place(&s, &collection_cell(u32::MAX, u32::MAX), &[], &verified_issuer());
    assert_eq!(r.err(), Some(MarketError::ArithmeticOverflow));
}
