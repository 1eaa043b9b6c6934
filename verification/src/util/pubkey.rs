use bytemuck::Zeroable;
use vstd::prelude::*;

verus! {

/// The address of an account on the ledger: 32 bytes.
#[derive(Clone, Copy, Eq, Debug)]
pub struct Pubkey {
    pub bytes: [u8; 32],
}

impl View for Pubkey {
    type V = Seq<u8>;

    open spec fn view(&self) -> Seq<u8> {
        self.bytes@
    }
}

impl PartialEq for Pubkey {
    fn eq(&self, other: &Self) -> (same: bool) {
        let mut i: usize = 0;
        while i < 32
            invariant
                i <= 32,
                forall|j: int| 0 <= j < i ==> self.bytes[j] == other.bytes[j],
            decreases 32 - i,
        {
            if self.bytes[i] != other.bytes[i] {
                return false;
            }
            i += 1;
        }
        assert(self.bytes =~= other.bytes);
        true
    }
}

impl vstd::std_specs::cmp::PartialEqSpecImpl for Pubkey {
    open spec fn obeys_eq_spec() -> bool {
        true
    }

    open spec fn eq_spec(&self, other: &Self) -> bool {
        *self == *other
    }
}

/// The seeds of a derivation as sequences of bytes.
pub open spec fn seeds_view(seeds: &Vec<Vec<u8>>) -> Seq<Seq<u8>> {
    Seq::new(seeds@.len(), |i: int| seeds@[i]@)
}

/// What a derivation hands back, with the address as its bytes.
pub open spec fn derived_view(derived: Option<(Pubkey, u8)>) -> Option<(Seq<u8>, u8)> {
    match derived {
        Some((address, bump)) => Some((address@, bump)),
        None => None,
    }
}

/// The address that a program derives from seeds, with the bump seed that the
/// search settled on, or `None` where the search finds no address.
pub uninterp spec fn program_address(seeds: Seq<Seq<u8>>, program_id: Seq<u8>) -> Option<
    (Seq<u8>, u8),
>;

impl Pubkey {
    /// Two keys with the same bytes are the same key.
    pub proof fn lemma_view_injective(a: Pubkey, b: Pubkey)
        ensures
            (a@ == b@) <==> (a == b),
    {
        if a@ == b@ {
            assert forall|i: int| 0 <= i < 32 implies a.bytes[i] == b.bytes[i] by {
                assert(a@[i] == b@[i]);
            }
            assert(a.bytes =~= b.bytes);
        }
    }

    /// The key whose bytes are all zero.
    pub fn zeroed() -> (key: Pubkey)
        ensures
            key@ == Seq::new(32, |i: int| 0u8),
    {
        let key = Pubkey { bytes: zeroed_bytes() };
        assert(key@ =~= Seq::new(32, |i: int| 0u8));
        key
    }

    /// The bytes of the key as a seed for a derivation.
    pub fn to_seed(&self) -> (seed: Vec<u8>)
        ensures
            seed@ == self@,
    {
        let mut seed: Vec<u8> = Vec::with_capacity(32);
        let mut i: usize = 0;
        while i < 32
            invariant
                i <= 32,
                seed@ == self@.take(i as int),
            decreases 32 - i,
        {
            seed.push(self.bytes[i]);
            i += 1;
        }
        seed
    }
}

/// Calls `Zeroable::zeroed` of bytemuck on the ledger's key type and hands
/// back the key's bytes. Trusted: each of the 32 bytes is zero.
#[verifier::external_body]
fn zeroed_bytes() -> (bytes: [u8; 32])
    ensures
        forall|i: int| 0 <= i < 32 ==> bytes[i] == 0,
{
    anchor_lang::prelude::Pubkey::zeroed().to_bytes()
}

/// Calls `Pubkey::try_find_program_address` of anchor_lang with the seeds and
/// the program's key. Trusted: the outcome is a function of the seeds' bytes
/// and the program key's bytes alone, here named `program_address`.
#[verifier::external_body]
pub(crate) fn find_program_address(seeds: &Vec<Vec<u8>>, program_id: &Pubkey) -> (derived: Option<
    (Pubkey, u8),
>)
    ensures
        derived_view(derived) == program_address(seeds_view(seeds), program_id@),
{
    let seeds: Vec<&[u8]> = seeds.iter().map(|seed| seed.as_slice()).collect();
    let program_id = anchor_lang::prelude::Pubkey::new_from_array(program_id.bytes);
    match anchor_lang::prelude::Pubkey::try_find_program_address(&seeds, &program_id) {
        Some((address, bump)) => Some((Pubkey { bytes: address.to_bytes() }, bump)),
        None => None,
    }
}

} // verus!
