use anchor_lang::prelude::Pubkey;
use vstd::prelude::*;

verus! {

/// A ledger address: 32 bytes.
#[derive(Clone, Copy, Debug)]
pub struct Address {
    pub bytes: [u8; 32],
}

impl View for Address {
    type V = Seq<u8>;

    open spec fn view(&self) -> Seq<u8> {
        self.bytes@
    }
}

/// The address of the ledger's wrapped native currency, the one quote asset
/// that a pod may be created with.
pub open spec fn native_mint() -> Seq<u8> {
    seq![
        6u8, 155u8, 136u8, 87u8, 254u8, 171u8, 129u8, 132u8, 251u8, 104u8, 127u8, 99u8, 70u8, 24u8, 192u8, 53u8, 218u8, 196u8, 57u8,
        220u8, 26u8, 235u8, 59u8, 85u8, 152u8, 160u8, 240u8, 0u8, 0u8, 0u8, 0u8, 1u8,
    ]
}

impl Address {
    pub fn new(bytes: [u8; 32]) -> (r: Address)
        ensures
            r.bytes == bytes,
    {
        Address { bytes }
    }

    /// Byte-wise equality.
    pub fn same(&self, other: &Address) -> (r: bool)
        ensures
            r == (self@ == other@),
    {
        let mut i: usize = 0;
        while i < 32
            invariant
                0 <= i <= 32,
                self@.len() == 32,
                other@.len() == 32,
                forall|j: int| 0 <= j < i ==> self@[j] == other@[j],
            decreases 32 - i,
        {
            if self.bytes[i] != other.bytes[i] {
                return false;
            }
            i = i + 1;
        }
        assert(self@ =~= other@);
        true
    }

    /// The native currency's mint address.
    pub fn native_mint() -> (r: Address)
        ensures
            r@ == native_mint(),
    {
        let r = Address {
            bytes: [
                6, 155, 136, 87, 254, 171, 129, 132, 251, 104, 127, 99, 70, 24, 192, 53, 218, 196, 57,
        220, 26, 235, 59, 85, 152, 160, 240, 0, 0, 0, 0, 1,
            ],
        };
        assert(r@ =~= native_mint());
        r
    }

    pub fn to_vec(&self) -> (r: Vec<u8>)
        ensures
            r@ == self@,
    {
        let mut r: Vec<u8> = Vec::new();
        let mut i: usize = 0;
        while i < 32
            invariant
                0 <= i <= 32,
                self@.len() == 32,
                r@ == self@.subrange(0, i as int),
            decreases 32 - i,
        {
            r.push(self.bytes[i]);
            i = i + 1;
            assert(r@ =~= self@.subrange(0, i as int));
        }
        assert(r@ =~= self@);
        r
    }
}

/// The program address and bump that the ledger derives from a list of seeds
/// and a program id.
pub uninterp spec fn program_address_of(seeds: Seq<Seq<u8>>, program_id: Seq<u8>) -> (Seq<u8>, u8);

/// Relies on `Pubkey::find_program_address` (solana-program): the first bump,
/// counting down from 255, for which the seeds and the bump hash to an address
/// off the ed25519 curve, with that address. It depends on its arguments alone.
/// It panics when there are 16 seeds or more, or a seed is longer than 32 bytes
/// (excluded here), and in the statistically improbable event that no bump works.
#[verifier::external_body]
fn find_program_address(seeds: &Vec<Vec<u8>>, program_id: &Address) -> (r: (Address, u8))
    requires
        seeds.len() < 16,
        forall|i: int| 0 <= i < seeds.len() ==> #[trigger] seeds[i].len() <= 32,
    ensures
        (r.0@, r.1) == program_address_of(seeds.deep_view(), program_id@),
{
    let refs: Vec<&[u8]> = seeds.iter().map(|s| s.as_slice()).collect();
    let (key, bump) = Pubkey::find_program_address(&refs, &Pubkey::new_from_array(program_id.bytes));
    (Address { bytes: key.to_bytes() }, bump)
}

/// The tag that opens the seeds of every pod address.
pub open spec fn pod_seed() -> Seq<u8> {
    seq![109u8, 101u8, 109u8, 101u8, 112u8, 111u8, 100u8]
}

fn pod_seed_bytes() -> (r: Vec<u8>)
    ensures
        r@ == pod_seed(),
{
    let r: Vec<u8> = vec![109u8, 101u8, 109u8, 101u8, 112u8, 111u8, 100u8];
    assert(r@ =~= pod_seed());
    r
}

/// The seeds of a pod's address: the tag, the base asset, the quote asset and the owner.
pub open spec fn pod_seeds(base_mint: Seq<u8>, quote_mint: Seq<u8>, owner: Seq<u8>) -> Seq<Seq<u8>> {
    seq![pod_seed(), base_mint, quote_mint, owner]
}

/// A pod's keyless vault authority: the pod's own address, and the bump that
/// signs for it.
#[derive(Clone, Copy, Debug)]
pub struct VaultAuthority {
    pub address: Address,
    pub bump: u8,
}

/// The vault authority that `program_id` derives for a pod's identity.
pub open spec fn vault_authority_of(
    program_id: Seq<u8>,
    base_mint: Seq<u8>,
    quote_mint: Seq<u8>,
    owner: Seq<u8>,
) -> (Seq<u8>, u8) {
    program_address_of(pod_seeds(base_mint, quote_mint, owner), program_id)
}

/// Derives the vault authority of the pod with this identity.
pub fn derive_vault_authority(
    program_id: &Address,
    base_mint: &Address,
    quote_mint: &Address,
    owner: &Address,
) -> (r: VaultAuthority)
    ensures
        (r.address@, r.bump) == vault_authority_of(program_id@, base_mint@, quote_mint@, owner@),
{
    let tag = pod_seed_bytes();
    let base = base_mint.to_vec();
    let quote = quote_mint.to_vec();
    let own = owner.to_vec();
    let mut seeds: Vec<Vec<u8>> = Vec::new();
    seeds.push(tag);
    seeds.push(base);
    seeds.push(quote);
    seeds.push(own);
    proof {
        assert(seeds@ == seq![tag, base, quote, own]);
        assert(tag.deep_view() =~= tag@);
        assert(base.deep_view() =~= base@);
        assert(quote.deep_view() =~= quote@);
        assert(own.deep_view() =~= own@);
        assert(seeds.deep_view() =~= pod_seeds(base_mint@, quote_mint@, owner@));
    }
    let (address, bump) = find_program_address(&seeds, program_id);
    VaultAuthority { address, bump }
}

} // verus!
