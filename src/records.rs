//! The two persisted records and their byte layout: fields in declaration
//! order, an address as its 32 bytes, a `u32` as four bytes least significant
//! first, a `bool` as one byte 0 or 1.
use crate::address::Address;
use vstd::prelude::*;

verus! {

/// Size of a collection's state cell.
pub const COLLECTION_SPACE: u64 = 50;

/// Encoded length of a `CollectionData`.
pub const COLLECTION_LEN: usize = 44;

/// Encoded length of a `ContainerData`, and the size of a slot's cell: the
/// record does not fit in a cell of `COLLECTION_SPACE` bytes.
pub const CONTAINER_LEN: usize = 101;

/// One NFT collection being listed.
#[derive(Clone, Copy, Debug)]
pub struct CollectionData {
    pub address: Address,
    pub min_listed: u32,
    pub max_listed: u32,
    pub max_ever: u32,
}

/// One order slot: a resting limit order over one escrowed NFT.
#[derive(Clone, Copy, Debug)]
pub struct ContainerData {
    pub collection_address: Address,
    pub mint_address: Address,
    pub price: u32,
    pub owner: Address,
    pub state: bool,
}

/// The four bytes of `x`, least significant first.
pub open spec fn le_bytes(x: u32) -> Seq<u8> {
    seq![
        (x % 256) as u8,
        ((x / 256) % 256) as u8,
        ((x / 65536) % 256) as u8,
        (x / 16777216) as u8,
    ]
}

/// The value of four bytes, least significant first.
pub open spec fn le_value(s: Seq<u8>) -> int {
    s[0] + 256 * s[1] + 65536 * s[2] + 16777216 * s[3]
}

pub open spec fn bool_byte(b: bool) -> u8 {
    if b {
        1u8
    } else {
        0u8
    }
}

/// The bytes of a collection record.
pub open spec fn collection_bytes(c: CollectionData) -> Seq<u8> {
    c.address@ + le_bytes(c.min_listed) + le_bytes(c.max_listed) + le_bytes(c.max_ever)
}

/// The bytes of a slot record.
pub open spec fn container_bytes(c: ContainerData) -> Seq<u8> {
    c.collection_address@ + c.mint_address@ + le_bytes(c.price) + c.owner@ + seq![
        bool_byte(c.state),
    ]
}

/// Whether a cell's bytes start with a well-formed slot record.
pub open spec fn container_parses(data: Seq<u8>) -> bool {
    data.len() >= CONTAINER_LEN && data[100] <= 1
}

/// Whether a cell holding a well-formed slot record holds a live order.
pub open spec fn container_occupied(data: Seq<u8>) -> bool {
    data[100] == 1
}

/// The `max_listed` counter of a collection cell's bytes.
pub open spec fn max_listed_of(data: Seq<u8>) -> int {
    le_value(data.subrange(36, 40))
}

/// The `max_ever` counter of a collection cell's bytes.
pub open spec fn max_ever_of(data: Seq<u8>) -> int {
    le_value(data.subrange(40, 44))
}

pub(crate) proof fn lemma_le_round_trip(x: u32)
    ensures
        le_value(le_bytes(x)) == x,
{
    let s = le_bytes(x);
    assert(s[0] == x % 256);
    assert(s[1] == (x / 256) % 256);
    assert(s[2] == (x / 65536) % 256);
    assert(s[3] == x / 16777216);
    assert(le_value(s) == x) by (nonlinear_arith)
        requires
            s[0] == x % 256,
            s[1] == (x / 256) % 256,
            s[2] == (x / 65536) % 256,
            s[3] == x / 16777216,
            le_value(s) == s[0] + 256 * s[1] + 65536 * s[2] + 16777216 * s[3],
            0 <= x < 4294967296,
    ;
}

fn push_le(out: &mut Vec<u8>, x: u32)
    ensures
        final(out)@ == old(out)@ + le_bytes(x),
{
    out.push((x % 256) as u8);
    out.push(((x / 256) % 256) as u8);
    out.push(((x / 65536) % 256) as u8);
    out.push((x / 16777216) as u8);
    assert(final(out)@ =~= old(out)@ + le_bytes(x));
}

fn push_address(out: &mut Vec<u8>, a: &Address)
    ensures
        final(out)@ == old(out)@ + a@,
{
    let mut i: usize = 0;
    let ghost start = out@;
    while i < 32
        invariant
            0 <= i <= 32,
            a.bytes@.len() == 32,
            out@ == start + a.bytes@.subrange(0, i as int),
        decreases 32 - i,
    {
        out.push(a.bytes[i]);
        i = i + 1;
        assert(out@ =~= start + a.bytes@.subrange(0, i as int));
    }
    assert(a.bytes@.subrange(0, 32) =~= a.bytes@);
}

fn read_le(data: &[u8], start: usize) -> (r: u32)
    requires
        start + 4 <= data@.len(),
    ensures
        r == le_value(data@.subrange(start as int, start + 4)),
{
    let b0 = data[start] as u32;
    let b1 = data[start + 1] as u32;
    let b2 = data[start + 2] as u32;
    let b3 = data[start + 3] as u32;
    assert(b0 + 256 * b1 + 65536 * b2 + 16777216 * b3 < 4294967296) by (nonlinear_arith)
        requires
            b0 < 256,
            b1 < 256,
            b2 < 256,
            b3 < 256,
    ;
    b0 + 256 * b1 + 65536 * b2 + 16777216 * b3
}

impl CollectionData {
    /// The record of a newly created collection of `issuer`.
    pub fn new(issuer: Address) -> (r: CollectionData)
        ensures
            r.address@ == issuer@,
            r.min_listed == 0,
            r.max_listed == 0,
            r.max_ever == 0,
    {
        CollectionData { address: issuer, min_listed: 0, max_listed: 0, max_ever: 0 }
    }

    /// The record's bytes.
    pub fn encode(&self) -> (r: Vec<u8>)
        ensures
            r@ == collection_bytes(*self),
            r@.len() == COLLECTION_LEN,
    {
        let mut out: Vec<u8> = Vec::new();
        push_address(&mut out, &self.address);
        push_le(&mut out, self.min_listed);
        push_le(&mut out, self.max_listed);
        push_le(&mut out, self.max_ever);
        assert(out@ =~= collection_bytes(*self));
        out
    }

    /// Reads a record from the start of a cell's bytes; bytes past the record
    /// are ignored.
    pub fn decode(data: &[u8]) -> (r: Option<CollectionData>)
        ensures
            r is Some <==> data@.len() >= COLLECTION_LEN,
            r matches Some(c) ==> collection_bytes(c) == data@.subrange(0, COLLECTION_LEN as int),
            r matches Some(c) ==> c.max_listed == max_listed_of(data@) && c.max_ever == max_ever_of(
                data@,
            ),
            r matches Some(c) ==> c.address@ == data@.subrange(0, 32) && c.min_listed == le_value(
                data@.subrange(32, 36),
            ),
    {
        if data.len() < COLLECTION_LEN {
            return None;
        }
        let address = Address::read_from(data, 0);
        let min_listed = read_le(data, 32);
        let max_listed = read_le(data, 36);
        let max_ever = read_le(data, 40);
        let c = CollectionData { address, min_listed, max_listed, max_ever };
        proof {
            lemma_le_bytes_of_value(data@.subrange(32, 36));
            lemma_le_bytes_of_value(data@.subrange(36, 40));
            lemma_le_bytes_of_value(data@.subrange(40, 44));
            assert(data@.subrange(32, 36) =~= data@.subrange(32, 36));
            assert(collection_bytes(c) =~= data@.subrange(0, 44));
        }
        Some(c)
    }
}

impl ContainerData {
    /// The record's bytes.
    pub fn encode(&self) -> (r: Vec<u8>)
        ensures
            r@ == container_bytes(*self),
            r@.len() == CONTAINER_LEN,
    {
        let mut out: Vec<u8> = Vec::new();
        push_address(&mut out, &self.collection_address);
        push_address(&mut out, &self.mint_address);
        push_le(&mut out, self.price);
        push_address(&mut out, &self.owner);
        out.push(if self.state {
            1u8
        } else {
            0u8
        });
        assert(out@ =~= container_bytes(*self));
        out
    }

    /// Reads a record from the start of a cell's bytes; bytes past the record
    /// are ignored, and a state byte other than 0 or 1 is refused.
    pub fn decode(data: &[u8]) -> (r: Option<ContainerData>)
        ensures
            r is Some <==> container_parses(data@),
            r matches Some(c) ==> container_bytes(c) == data@.subrange(0, CONTAINER_LEN as int),
            r matches Some(c) ==> c.state == container_occupied(data@),
    {
        if data.len() < CONTAINER_LEN || data[100] > 1 {
            return None;
        }
        let collection_address = Address::read_from(data, 0);
        let mint_address = Address::read_from(data, 32);
        let price = read_le(data, 64);
        let owner = Address::read_from(data, 68);
        let state = data[100] == 1;
        let c = ContainerData { collection_address, mint_address, price, owner, state };
        proof {
            lemma_le_bytes_of_value(data@.subrange(64, 68));
            assert(container_bytes(c) =~= data@.subrange(0, 101));
        }
        Some(c)
    }
}

proof fn lemma_le_bytes_of_value(s: Seq<u8>)
    requires
        s.len() == 4,
    ensures
        0 <= le_value(s) < 4294967296,
        le_bytes(le_value(s) as u32) == s,
{
    let v = le_value(s);
    let (a, b, c, d) = (s[0] as int, s[1] as int, s[2] as int, s[3] as int);
    assert(0 <= v < 4294967296 && v % 256 == a && (v / 256) % 256 == b && (v / 65536) % 256 == c
        && v / 16777216 == d) by (nonlinear_arith)
        requires
            v == a + 256 * b + 65536 * c + 16777216 * d,
            0 <= a < 256,
            0 <= b < 256,
            0 <= c < 256,
            0 <= d < 256,
    ;
    assert(le_bytes(v as u32) =~= s);
}

/// Two collection records with the same bytes agree on every field, so
/// decoding an encoded record gives it back.
pub proof fn lemma_collection_round_trip(c: CollectionData, d: CollectionData)
    requires
        collection_bytes(d) == collection_bytes(c),
    ensures
        d.address@ == c.address@,
        d.min_listed == c.min_listed,
        d.max_listed == c.max_listed,
        d.max_ever == c.max_ever,
{
    let (x, y) = (collection_bytes(c), collection_bytes(d));
    assert(c.address@ =~= x.subrange(0, 32));
    assert(d.address@ =~= y.subrange(0, 32));
    assert(le_bytes(c.min_listed) =~= x.subrange(32, 36));
    assert(le_bytes(d.min_listed) =~= y.subrange(32, 36));
    assert(le_bytes(c.max_listed) =~= x.subrange(36, 40));
    assert(le_bytes(d.max_listed) =~= y.subrange(36, 40));
    assert(le_bytes(c.max_ever) =~= x.subrange(40, 44));
    assert(le_bytes(d.max_ever) =~= y.subrange(40, 44));
    lemma_le_round_trip(c.min_listed);
    lemma_le_round_trip(d.min_listed);
    lemma_le_round_trip(c.max_listed);
    lemma_le_round_trip(d.max_listed);
    lemma_le_round_trip(c.max_ever);
    lemma_le_round_trip(d.max_ever);
}

/// Two slot records with the same bytes agree on every field, so decoding an
/// encoded record gives it back.
pub proof fn lemma_container_round_trip(c: ContainerData, d: ContainerData)
    requires
        container_bytes(d) == container_bytes(c),
    ensures
        d.collection_address@ == c.collection_address@,
        d.mint_address@ == c.mint_address@,
        d.price == c.price,
        d.owner@ == c.owner@,
        d.state == c.state,
{
    let (x, y) = (container_bytes(c), container_bytes(d));
    assert(c.collection_address@ =~= x.subrange(0, 32));
    assert(d.collection_address@ =~= y.subrange(0, 32));
    assert(c.mint_address@ =~= x.subrange(32, 64));
    assert(d.mint_address@ =~= y.subrange(32, 64));
    assert(le_bytes(c.price) =~= x.subrange(64, 68));
    assert(le_bytes(d.price) =~= y.subrange(64, 68));
    assert(c.owner@ =~= x.subrange(68, 100));
    assert(d.owner@ =~= y.subrange(68, 100));
    assert(x[100] == bool_byte(c.state));
    assert(y[100] == bool_byte(d.state));
    lemma_le_round_trip(c.price);
    lemma_le_round_trip(d.price);
}

} // verus!
