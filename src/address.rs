use vstd::prelude::*;
use crate::state::GovernedKind;

verus! {

/// Largest number of seeds an address may be derived from, the bump seed included.
pub const MAX_SEEDS: usize = 16;

/// Largest length of a single seed, in bytes.
pub const MAX_SEED_LEN: usize = 32;

/// A 32-byte account address or program identity.
#[derive(Clone, Copy, Debug)]
pub struct Address {
    pub bytes: [u8; 32],
}

impl Address {
    pub open spec fn view(&self) -> Seq<u8> {
        self.bytes@
    }

    /// An address made of 32 copies of one byte.
    pub fn repeat(b: u8) -> (r: Address)
        ensures
            r@ == Seq::new(32, |i: int| b),
    {
        let r = Address { bytes: [b; 32] };
        assert(r@ =~= Seq::new(32, |i: int| b));
        r
    }

    /// Byte-wise equality of two addresses.
    pub fn same(&self, other: &Address) -> (r: bool)
        ensures
            r == (self@ == other@),
    {
        let mut i: usize = 0;
        while i < 32
            invariant
                0 <= i <= 32,
                self@.len() == 32,
                other@.len() == 32,
                forall|j: int| 0 <= j < i ==> self@[j] == other@[j],
            decreases 32 - i,
        {
            if self.bytes[i] != other.bytes[i] {
                return false;
            }
            i = i + 1;
        }
        assert(self@ =~= other@);
        true
    }
}

impl PartialEq for Address {
    fn eq(&self, other: &Address) -> (r: bool) {
        self.same(other)
    }
}

impl vstd::std_specs::cmp::PartialEqSpecImpl for Address {
    open spec fn obeys_eq_spec() -> bool {
        true
    }

    open spec fn eq_spec(&self, other: &Address) -> bool {
        self@ == other@
    }
}

/// The program-derived address, with its bump seed, that the seed tuple and
/// program identity map to; `None` where no bump seed gives a valid one.
pub uninterp spec fn derived_address(seeds: Seq<Seq<u8>>, program_id: Seq<u8>) -> Option<(Seq<u8>, u8)>;

/// A derivation result, with the address as bytes.
pub open spec fn derivation_view(r: Option<(Address, u8)>) -> Option<(Seq<u8>, u8)> {
    match r {
        Some((a, b)) => Some((a@, b)),
        None => None,
    }
}

/// Whether `key` is the address that a derivation gave.
pub open spec fn is_derived(key: Seq<u8>, d: Option<(Seq<u8>, u8)>) -> bool {
    d is Some && d->Some_0.0 == key
}

/// The seed tuple as byte sequences.
pub open spec fn seeds_view(seeds: Seq<Vec<u8>>) -> Seq<Seq<u8>> {
    seeds.map_values(|s: Vec<u8>| s@)
}

/// A seed tuple that the derivation refuses: too many seeds, or one too long.
pub open spec fn seeds_out_of_bounds(seeds: Seq<Seq<u8>>) -> bool {
    seeds.len() >= MAX_SEEDS || exists|i: int| 0 <= i < seeds.len() && #[trigger] seeds[i].len() > MAX_SEED_LEN
}

/// Relies on solana_program's `Pubkey::try_find_program_address`: the result
/// depends on the seeds and the program identity alone, and there is none when
/// the seeds with the added bump seed break the seed count or seed length bound.
#[verifier::external_body]
fn try_find_program_address(seeds: &Vec<Vec<u8>>, program_id: &Address) -> (r: Option<(Address, u8)>)
    ensures
        derivation_view(r) == derived_address(seeds_view(seeds@), program_id@),
        seeds_out_of_bounds(seeds_view(seeds@)) ==> r is None,
{
    let refs: Vec<&[u8]> = seeds.iter().map(|s| s.as_slice()).collect();
    let pid = solana_program::pubkey::Pubkey::new_from_array(program_id.bytes);
    solana_program::pubkey::Pubkey::try_find_program_address(&refs, &pid)
        .map(|(k, b)| (Address { bytes: k.to_bytes() }, b))
}

/// The seed that every record address of this program starts with.
pub open spec fn governance_prefix() -> Seq<u8> {
    seq![103u8, 111u8, 118u8, 101u8, 114u8, 110u8, 97u8, 110u8, 99u8, 101u8]
}

/// The seed that the address of a governance of the given kind starts with:
/// the kind's name, a dash, and the program's prefix.
pub open spec fn governance_kind_prefix(kind: GovernedKind) -> Seq<u8> {
    let name = match kind {
        GovernedKind::Account => seq![97u8, 99u8, 99u8, 111u8, 117u8, 110u8, 116u8, 45u8],
        GovernedKind::Program => seq![112u8, 114u8, 111u8, 103u8, 114u8, 97u8, 109u8, 45u8],
        GovernedKind::Mint => seq![109u8, 105u8, 110u8, 116u8, 45u8],
        GovernedKind::Token => seq![116u8, 111u8, 107u8, 101u8, 110u8, 45u8],
    };
    name + governance_prefix()
}

/// Little-endian bytes of a 32-bit integer.
pub open spec fn le_bytes_u32(n: u32) -> Seq<u8> {
    seq![(n % 256) as u8, ((n / 256) % 256) as u8, ((n / 65536) % 256) as u8, (n / 16777216) as u8]
}

/// Little-endian bytes of a 16-bit integer.
pub open spec fn le_bytes_u16(n: u16) -> Seq<u8> {
    seq![(n % 256) as u8, (n / 256) as u8]
}

pub open spec fn realm_seeds(name: Seq<u8>) -> Seq<Seq<u8>> {
    seq![governance_prefix(), name]
}

pub open spec fn holding_seeds(realm: Seq<u8>, mint: Seq<u8>) -> Seq<Seq<u8>> {
    seq![governance_prefix(), realm, mint]
}

pub open spec fn token_owner_record_seeds(realm: Seq<u8>, mint: Seq<u8>, owner: Seq<u8>) -> Seq<Seq<u8>> {
    seq![governance_prefix(), realm, mint, owner]
}

pub open spec fn governance_seeds(kind: GovernedKind, realm: Seq<u8>, governed: Seq<u8>) -> Seq<Seq<u8>> {
    seq![governance_kind_prefix(kind), realm, governed]
}

pub open spec fn proposal_seeds(governance: Seq<u8>, mint: Seq<u8>, index: u32) -> Seq<Seq<u8>> {
    seq![governance_prefix(), governance, mint, le_bytes_u32(index)]
}

pub open spec fn vote_record_seeds(proposal: Seq<u8>, token_owner_record: Seq<u8>) -> Seq<Seq<u8>> {
    seq![governance_prefix(), proposal, token_owner_record]
}

pub open spec fn signatory_record_seeds(proposal: Seq<u8>, signatory: Seq<u8>) -> Seq<Seq<u8>> {
    seq![governance_prefix(), proposal, signatory]
}

pub open spec fn proposal_instruction_seeds(proposal: Seq<u8>, index: u16) -> Seq<Seq<u8>> {
    seq![governance_prefix(), proposal, le_bytes_u16(index)]
}

fn governance_prefix_bytes() -> (r: Vec<u8>)
    ensures
        r@ == governance_prefix(),
{
    let r: Vec<u8> = vec![103u8, 111u8, 118u8, 101u8, 114u8, 110u8, 97u8, 110u8, 99u8, 101u8];
    assert(r@ =~= governance_prefix());
    r
}

fn governance_kind_prefix_bytes(kind: GovernedKind) -> (r: Vec<u8>)
    ensures
        r@ == governance_kind_prefix(kind),
{
    let mut r: Vec<u8> = match kind {
        GovernedKind::Account => vec![97u8, 99u8, 99u8, 111u8, 117u8, 110u8, 116u8, 45u8],
        GovernedKind::Program => vec![112u8, 114u8, 111u8, 103u8, 114u8, 97u8, 109u8, 45u8],
        GovernedKind::Mint => vec![109u8, 105u8, 110u8, 116u8, 45u8],
        GovernedKind::Token => vec![116u8, 111u8, 107u8, 101u8, 110u8, 45u8],
    };
    let mut g = governance_prefix_bytes();
    r.append(&mut g);
    assert(r@ =~= governance_kind_prefix(kind));
    r
}

fn address_bytes(a: &Address) -> (r: Vec<u8>)
    ensures
        r@ == a@,
{
    let mut r: Vec<u8> = Vec::new();
    let mut i: usize = 0;
    while i < 32
        invariant
            0 <= i <= 32,
            a@.len() == 32,
            r@ == a@.subrange(0, i as int),
        decreases 32 - i,
    {
        r.push(a.bytes[i]);
        i = i + 1;
        assert(r@ =~= a@.subrange(0, i as int));
    }
    assert(a@.subrange(0, 32) =~= a@);
    r
}

/// Little-endian bytes of a 32-bit integer.
pub fn u32_le_bytes(n: u32) -> (r: Vec<u8>)
    ensures
        r@ == le_bytes_u32(n),
{
    let r: Vec<u8> = vec![(n % 256) as u8, ((n / 256) % 256) as u8, ((n / 65536) % 256) as u8, (n / 16777216) as u8];
    assert(r@ =~= le_bytes_u32(n));
    r
}

/// Little-endian bytes of a 16-bit integer.
pub fn u16_le_bytes(n: u16) -> (r: Vec<u8>)
    ensures
        r@ == le_bytes_u16(n),
{
    let r: Vec<u8> = vec![(n % 256) as u8, (n / 256) as u8];
    assert(r@ =~= le_bytes_u16(n));
    r
}

proof fn lemma_seeds_view2(a: Vec<u8>, b: Vec<u8>, v: Vec<Vec<u8>>)
    requires
        v@ == seq![a, b],
    ensures
        seeds_view(v@) == seq![a@, b@],
{
    assert(seeds_view(v@) =~= seq![a@, b@]);
}

proof fn lemma_seeds_view3(a: Vec<u8>, b: Vec<u8>, c: Vec<u8>, v: Vec<Vec<u8>>)
    requires
        v@ == seq![a, b, c],
    ensures
        seeds_view(v@) == seq![a@, b@, c@],
{
    assert(seeds_view(v@) =~= seq![a@, b@, c@]);
}

proof fn lemma_seeds_view4(a: Vec<u8>, b: Vec<u8>, c: Vec<u8>, d: Vec<u8>, v: Vec<Vec<u8>>)
    requires
        v@ == seq![a, b, c, d],
    ensures
        seeds_view(v@) == seq![a@, b@, c@, d@],
{
    assert(seeds_view(v@) =~= seq![a@, b@, c@, d@]);
}

/// Address of the realm with the given name.
pub fn get_realm_address(program_id: &Address, name: &Vec<u8>) -> (r: Option<(Address, u8)>)
    ensures
        derivation_view(r) == derived_address(realm_seeds(name@), program_id@),
{
    let a = governance_prefix_bytes();
    let b = name.clone();
    let v: Vec<Vec<u8>> = vec![a, b];
    proof { lemma_seeds_view2(a, b, v); assert(b@ =~= name@); }
    try_find_program_address(&v, program_id)
}

/// Address of the account that holds a realm's deposits of one governing mint.
pub fn get_governing_token_holding_address(program_id: &Address, realm: &Address, mint: &Address) -> (r: Option<(Address, u8)>)
    ensures
        derivation_view(r) == derived_address(holding_seeds(realm@, mint@), program_id@),
{
    let a = governance_prefix_bytes();
    let b = address_bytes(realm);
    let c = address_bytes(mint);
    let v: Vec<Vec<u8>> = vec![a, b, c];
    proof { lemma_seeds_view3(a, b, c, v); }
    try_find_program_address(&v, program_id)
}

/// Address of the record of one owner's deposits of one mint in a realm.
pub fn get_token_owner_record_address(program_id: &Address, realm: &Address, mint: &Address, owner: &Address) -> (r: Option<(Address, u8)>)
    ensures
        derivation_view(r) == derived_address(token_owner_record_seeds(realm@, mint@, owner@), program_id@),
{
    let a = governance_prefix_bytes();
    let b = address_bytes(realm);
    let c = address_bytes(mint);
    let d = address_bytes(owner);
    let v: Vec<Vec<u8>> = vec![a, b, c, d];
    proof { lemma_seeds_view4(a, b, c, d, v); }
    try_find_program_address(&v, program_id)
}

/// Address of the governance of one governed resource in a realm.
pub fn get_governance_address(program_id: &Address, kind: GovernedKind, realm: &Address, governed: &Address) -> (r: Option<(Address, u8)>)
    ensures
        derivation_view(r) == derived_address(governance_seeds(kind, realm@, governed@), program_id@),
{
    let a = governance_kind_prefix_bytes(kind);
    let b = address_bytes(realm);
    let c = address_bytes(governed);
    let v: Vec<Vec<u8>> = vec![a, b, c];
    proof { lemma_seeds_view3(a, b, c, v); }
    try_find_program_address(&v, program_id)
}

/// Address of the proposal with the given index in a governance.
pub fn get_proposal_address(program_id: &Address, governance: &Address, mint: &Address, index: u32) -> (r: Option<(Address, u8)>)
    ensures
        derivation_view(r) == derived_address(proposal_seeds(governance@, mint@, index), program_id@),
{
    let a = governance_prefix_bytes();
    let b = address_bytes(governance);
    let c = address_bytes(mint);
    let d = u32_le_bytes(index);
    let v: Vec<Vec<u8>> = vec![a, b, c, d];
    proof { lemma_seeds_view4(a, b, c, d, v); }
    try_find_program_address(&v, program_id)
}

/// Address of the vote record of one token owner record on a proposal.
pub fn get_vote_record_address(program_id: &Address, proposal: &Address, token_owner_record: &Address) -> (r: Option<(Address, u8)>)
    ensures
        derivation_view(r) == derived_address(vote_record_seeds(proposal@, token_owner_record@), program_id@),
{
    let a = governance_prefix_bytes();
    let b = address_bytes(proposal);
    let c = address_bytes(token_owner_record);
    let v: Vec<Vec<u8>> = vec![a, b, c];
    proof { lemma_seeds_view3(a, b, c, v); }
    try_find_program_address(&v, program_id)
}

/// Address of the record of one signatory of a proposal.
pub fn get_signatory_record_address(program_id: &Address, proposal: &Address, signatory: &Address) -> (r: Option<(Address, u8)>)
    ensures
        derivation_view(r) == derived_address(signatory_record_seeds(proposal@, signatory@), program_id@),
{
    let a = governance_prefix_bytes();
    let b = address_bytes(proposal);
    let c = address_bytes(signatory);
    let v: Vec<Vec<u8>> = vec![a, b, c];
    proof { lemma_seeds_view3(a, b, c, v); }
    try_find_program_address(&v, program_id)
}

/// Address of the queued instruction with the given index in a proposal.
pub fn get_proposal_instruction_address(program_id: &Address, proposal: &Address, index: u16) -> (r: Option<(Address, u8)>)
    ensures
        derivation_view(r) == derived_address(proposal_instruction_seeds(proposal@, index), program_id@),
{
    let a = governance_prefix_bytes();
    let b = address_bytes(proposal);
    let c = u16_le_bytes(index);
    let v: Vec<Vec<u8>> = vec![a, b, c];
    proof { lemma_seeds_view3(a, b, c, v); }
    try_find_program_address(&v, program_id)
}

/// Whether `key` is the address derived from the seeds, for a derivation result.
pub fn key_matches(key: &Address, d: &Option<(Address, u8)>) -> (r: bool)
    ensures
        r == is_derived(key@, derivation_view(*d)),
{
    match d {
        Some((a, _)) => a.same(key),
        None => false,
    }
}

/// Address derivation is a function of its inputs: the same governance, mint
/// and index always give the same proposal address and bump seed.
pub proof fn lemma_proposal_address_deterministic(
    program_id: Seq<u8>,
    governance: Seq<u8>,
    mint: Seq<u8>,
    index: u32,
    program_id2: Seq<u8>,
    governance2: Seq<u8>,
    mint2: Seq<u8>,
    index2: u32,
)
    requires
        program_id == program_id2,
        governance == governance2,
        mint == mint2,
        index == index2,
    ensures
        derived_address(proposal_seeds(governance, mint, index), program_id)
            == derived_address(proposal_seeds(governance2, mint2, index2), program_id2),
{
}

} // verus!
