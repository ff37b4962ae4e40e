//! Account identities and program-derived addresses.
use solana_program::pubkey::Pubkey;
use vstd::prelude::*;

verus! {

/// A 32-byte account identity.
#[derive(Clone, Copy, Debug)]
pub struct Address {
    pub bytes: [u8; 32],
}

impl View for Address {
    type V = Seq<u8>;

    open spec fn view(&self) -> Seq<u8> {
        self.bytes@
    }
}

impl PartialEq for Address {
    fn eq(&self, other: &Address) -> (r: bool) {
        self.same(other)
    }
}

impl vstd::std_specs::cmp::PartialEqSpecImpl for Address {
    open spec fn obeys_eq_spec() -> bool {
        true
    }

    open spec fn eq_spec(&self, other: &Address) -> bool {
        self@ == other@
    }
}

impl Address {
    /// Whether the two addresses are the same bytes.
    pub fn same(&self, other: &Address) -> (r: bool)
        ensures
            r == (self@ == other@),
    {
        let mut i: usize = 0;
        while i < 32
            invariant
                0 <= i <= 32,
                self.bytes@.len() == 32,
                other.bytes@.len() == 32,
                forall|j: int| 0 <= j < i ==> self.bytes@[j] == other.bytes@[j],
            decreases 32 - i,
        {
            if self.bytes[i] != other.bytes[i] {
                return false;
            }
            i = i + 1;
        }
        assert(self.bytes@ =~= other.bytes@);
        true
    }

    /// Builds an address from its 32 bytes.
    pub fn new(bytes: [u8; 32]) -> (r: Address)
        ensures
            r@ == bytes@,
    {
        Address { bytes }
    }

    /// Copies the 32 bytes that start at `start` out of `data`.
    pub fn read_from(data: &[u8], start: usize) -> (r: Address)
        requires
            start + 32 <= data@.len(),
        ensures
            r@ == data@.subrange(start as int, start + 32),
    {
        let mut bytes = [0u8; 32];
        let n = data.len();
        let mut i: usize = 0;
        while i < 32
            invariant
                0 <= i <= 32,
                start + 32 <= data@.len(),
                n == data@.len(),
                bytes@.len() == 32,
                forall|j: int| 0 <= j < i ==> bytes@[j] == data@[start + j],
            decreases 32 - i,
        {
            bytes[i] = data[start + i];
            i = i + 1;
        }
        assert(bytes@ =~= data@.subrange(start as int, start + 32));
        Address { bytes }
    }

    /// The 32 bytes as a vector.
    pub fn to_vec(&self) -> (r: Vec<u8>)
        ensures
            r@ == self@,
    {
        let mut v: Vec<u8> = Vec::new();
        let mut i: usize = 0;
        while i < 32
            invariant
                0 <= i <= 32,
                self.bytes@.len() == 32,
                v@ == self.bytes@.subrange(0, i as int),
            decreases 32 - i,
        {
            v.push(self.bytes[i]);
            i = i + 1;
            assert(v@ =~= self.bytes@.subrange(0, i as int));
        }
        assert(self.bytes@.subrange(0, 32) =~= self.bytes@);
        v
    }
}

/// What `Pubkey::try_find_program_address` returns for a list of seeds and a
/// program identity: the derived address and its bump, or none.
pub uninterp spec fn program_address_of(seeds: Seq<Seq<u8>>, program_id: Seq<u8>) -> Option<(Seq<u8>, u8)>;

/// The seeds of a list of byte vectors, as sequences.
pub open spec fn seeds_view(seeds: Seq<Vec<u8>>) -> Seq<Seq<u8>> {
    seeds.map_values(|s: Vec<u8>| s@)
}

/// Relies on solana_program's `Pubkey::try_find_program_address`: it computes
/// the derived address and bump from the seeds and the program identity alone,
/// and returns `None` (never panics) where no bump gives an address off the
/// curve or the seeds are too many or too long.
#[verifier::external_body]
fn try_find_program_address(seeds: &Vec<Vec<u8>>, program_id: &Address) -> (r: Option<(Address, u8)>)
    ensures
        r is Some <==> program_address_of(seeds_view(seeds@), program_id@) is Some,
        r matches Some((a, bump)) ==> program_address_of(seeds_view(seeds@), program_id@)
            == Some((a@, bump)),
{
    let parts: Vec<&[u8]> = seeds.iter().map(|s| s.as_slice()).collect();
    Pubkey::try_find_program_address(&parts, &Pubkey::new_from_array(program_id.bytes)).map(
        |(key, bump)| (Address { bytes: key.to_bytes() }, bump),
    )
}

/// Whether `supplied` is the address derived from `seeds` under `program_id`.
pub open spec fn is_derived(seeds: Seq<Seq<u8>>, program_id: Seq<u8>, supplied: Seq<u8>) -> bool {
    match program_address_of(seeds, program_id) {
        Some((a, _)) => a == supplied,
        None => false,
    }
}

/// The bump of the address derived from `seeds`, where there is one.
pub open spec fn derived_bump(seeds: Seq<Seq<u8>>, program_id: Seq<u8>) -> u8 {
    match program_address_of(seeds, program_id) {
        Some((_, b)) => b,
        None => 0,
    }
}

/// The domain tag of every address this program derives: "Gamestree_seed".
pub open spec fn seed_tag() -> Seq<u8> {
    seq![71u8, 97, 109, 101, 115, 116, 114, 101, 101, 95, 115, 101, 101, 100]
}

/// The tag of metadata-registry addresses: "metadata".
pub open spec fn metadata_tag() -> Seq<u8> {
    seq![109u8, 101, 116, 97, 100, 97, 116, 97]
}

/// The four bytes of `x`, most significant first.
pub open spec fn be_bytes(x: u32) -> Seq<u8> {
    seq![
        (x / 16777216) as u8,
        ((x / 65536) % 256) as u8,
        ((x / 256) % 256) as u8,
        (x % 256) as u8,
    ]
}

/// Seeds of a collection's state address.
pub open spec fn collection_seeds(issuer: Seq<u8>) -> Seq<Seq<u8>> {
    seq![seed_tag(), issuer]
}

/// Seeds of the escrow address of slot `index` of a collection.
pub open spec fn slot_seeds(issuer: Seq<u8>, index: u32) -> Seq<Seq<u8>> {
    seq![seed_tag(), be_bytes(index), issuer]
}

/// Seeds of an NFT's metadata record, under the registry's identity.
pub open spec fn metadata_seeds(registry: Seq<u8>, mint: Seq<u8>) -> Seq<Seq<u8>> {
    seq![metadata_tag(), registry, mint]
}

fn seed_tag_bytes() -> (r: Vec<u8>)
    ensures
        r@ == seed_tag(),
{
    let r: Vec<u8> = vec![71u8, 97, 109, 101, 115, 116, 114, 101, 101, 95, 115, 101, 101, 100];
    assert(r@ =~= seed_tag());
    r
}

fn metadata_tag_bytes() -> (r: Vec<u8>)
    ensures
        r@ == metadata_tag(),
{
    let r: Vec<u8> = vec![109u8, 101, 116, 97, 100, 97, 116, 97];
    assert(r@ =~= metadata_tag());
    r
}

/// The four bytes of `x`, most significant first.
pub fn to_be_bytes(x: u32) -> (r: Vec<u8>)
    ensures
        r@ == be_bytes(x),
{
    let r: Vec<u8> = vec![
        (x / 16777216) as u8,
        ((x / 65536) % 256) as u8,
        ((x / 256) % 256) as u8,
        (x % 256) as u8,
    ];
    assert(r@ =~= be_bytes(x));
    r
}

/// Derives the address from `seeds` and reports it and its bump where
/// it equals `supplied`.
fn check_derived(seeds: &Vec<Vec<u8>>, program_id: &Address, supplied: &Address) -> (r: Option<u8>)
    ensures
        r is Some <==> is_derived(seeds_view(seeds@), program_id@, supplied@),
        r matches Some(b) ==> b == derived_bump(seeds_view(seeds@), program_id@),
{
    match try_find_program_address(seeds, program_id) {
        Some((a, bump)) => {
            if a == *supplied {
                Some(bump)
            } else {
                None
            }
        },
        None => None,
    }
}

/// Checks `supplied` against the collection-state address of `issuer`;
/// gives the bump where it matches.
pub fn check_collection_address(program_id: &Address, issuer: &Address, supplied: &Address) -> (r:
    Option<u8>)
    ensures
        r is Some <==> is_derived(collection_seeds(issuer@), program_id@, supplied@),
        r matches Some(b) ==> b == derived_bump(collection_seeds(issuer@), program_id@),
{
    let seeds: Vec<Vec<u8>> = vec![seed_tag_bytes(), issuer.to_vec()];
    assert(seeds_view(seeds@) =~= collection_seeds(issuer@));
    check_derived(&seeds, program_id, supplied)
}

/// Checks `supplied` against the escrow address of slot `index` of the
/// collection of `issuer`; gives the bump where it matches.
pub fn check_slot_address(program_id: &Address, issuer: &Address, index: u32, supplied: &Address) -> (r:
    Option<u8>)
    ensures
        r is Some <==> is_derived(slot_seeds(issuer@, index), program_id@, supplied@),
        r matches Some(b) ==> b == derived_bump(slot_seeds(issuer@, index), program_id@),
{
    let seeds: Vec<Vec<u8>> = vec![seed_tag_bytes(), to_be_bytes(index), issuer.to_vec()];
    assert(seeds_view(seeds@) =~= slot_seeds(issuer@, index));
    check_derived(&seeds, program_id, supplied)
}

/// Checks `supplied` against the metadata-record address of `mint` in the
/// registry whose identity is `registry`.
pub fn check_metadata_address(registry: &Address, mint: &Address, supplied: &Address) -> (r: bool)
    ensures
        r == is_derived(metadata_seeds(registry@, mint@), registry@, supplied@),
{
    let seeds: Vec<Vec<u8>> = vec![metadata_tag_bytes(), registry.to_vec(), mint.to_vec()];
    assert(seeds_view(seeds@) =~= metadata_seeds(registry@, mint@));
    check_derived(&seeds, registry, supplied).is_some()
}

} // verus!
