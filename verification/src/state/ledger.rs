use crate::constant::{SHARES_MINT_SEED, VAULT_AUTHORITY_SEED};
use crate::util::pubkey::{seeds_view, Pubkey};
use vstd::prelude::*;

verus! {

/// A token mint as read from the ledger.
#[derive(Clone, Copy, PartialEq, Eq, Debug)]
pub struct Mint {
    pub key: Pubkey,
    /// The token program that the mint belongs to.
    pub token_program: Pubkey,
    /// Units of the token in existence.
    pub supply: u64,
    pub decimals: u8,
}

/// A token account as read from the ledger.
#[derive(Clone, Copy, PartialEq, Eq, Debug)]
pub struct TokenAccount {
    pub key: Pubkey,
    /// The token program that the account belongs to.
    pub token_program: Pubkey,
    /// The mint whose token the account holds.
    pub mint: Pubkey,
    /// Who may move the tokens out.
    pub owner: Pubkey,
    pub amount: u64,
}

/// The seeds by which the vault's authority signs: the authority label, the
/// vault's address and the bump that was found when the authority was derived.
#[derive(Clone, Copy, PartialEq, Eq, Debug)]
pub struct AuthoritySeeds {
    pub vault: Pubkey,
    pub bump: u8,
}

/// An order to the ledger to move `amount` units of `mint` from one token
/// account to another, on the word of `authority`.
#[derive(Clone, Copy, PartialEq, Eq, Debug)]
pub struct TransferChecked {
    pub from: Pubkey,
    pub mint: Pubkey,
    pub to: Pubkey,
    pub authority: Pubkey,
    pub amount: u64,
    pub decimals: u8,
    /// Present where the vault's authority signs, absent where the caller does.
    pub signer_seeds: Option<AuthoritySeeds>,
}

/// An order to the ledger to mint `amount` new units of `mint` into a token
/// account, signed by the vault's authority.
#[derive(Clone, Copy, PartialEq, Eq, Debug)]
pub struct MintTo {
    pub mint: Pubkey,
    pub to: Pubkey,
    pub authority: Pubkey,
    pub amount: u64,
    pub signer_seeds: AuthoritySeeds,
}

/// An order to create the token account that is associated with `authority`
/// and `mint`.
#[derive(Clone, Copy, PartialEq, Eq, Debug)]
pub struct CreateAssociatedToken {
    pub payer: Pubkey,
    pub associated_token: Pubkey,
    pub authority: Pubkey,
    pub mint: Pubkey,
    pub token_program: Pubkey,
}

/// An order to create a mint at a derived address, with `mint_authority` as
/// the only one who may mint.
#[derive(Clone, Copy, PartialEq, Eq, Debug)]
pub struct InitializeMint {
    pub payer: Pubkey,
    pub mint: Pubkey,
    pub decimals: u8,
    pub mint_authority: Pubkey,
    /// The bump with which the mint's address was derived.
    pub bump: u8,
    pub token_program: Pubkey,
}

/// The seeds from which a vault's authority is derived.
pub open spec fn authority_seeds_of(vault: Pubkey) -> Seq<Seq<u8>> {
    seq![VAULT_AUTHORITY_SEED@, vault@]
}

/// The seeds from which the shares mint of an authority is derived.
pub open spec fn shares_mint_seeds_of(authority: Pubkey) -> Seq<Seq<u8>> {
    seq![SHARES_MINT_SEED@, authority@]
}

fn label_of<const N: usize>(label: &[u8; N]) -> (seed: Vec<u8>)
    ensures
        seed@ == label@,
{
    let mut seed: Vec<u8> = Vec::with_capacity(N);
    let mut i: usize = 0;
    while i < N
        invariant
            i <= N,
            seed@ == label@.take(i as int),
        decreases N - i,
    {
        seed.push(label[i]);
        i += 1;
    }
    seed
}

/// Builds the seeds from which the authority of the vault at `vault` is derived.
pub fn authority_seeds(vault: &Pubkey) -> (seeds: Vec<Vec<u8>>)
    ensures
        seeds_view(&seeds) == authority_seeds_of(*vault),
{
    let mut seeds: Vec<Vec<u8>> = Vec::with_capacity(2);
    seeds.push(label_of(&VAULT_AUTHORITY_SEED));
    seeds.push(vault.to_seed());
    assert(seeds_view(&seeds) =~= authority_seeds_of(*vault));
    seeds
}

/// Builds the seeds from which the shares mint under `authority` is derived.
pub fn shares_mint_seeds(authority: &Pubkey) -> (seeds: Vec<Vec<u8>>)
    ensures
        seeds_view(&seeds) == shares_mint_seeds_of(*authority),
{
    let mut seeds: Vec<Vec<u8>> = Vec::with_capacity(2);
    seeds.push(label_of(&SHARES_MINT_SEED));
    seeds.push(authority.to_seed());
    assert(seeds_view(&seeds) =~= shares_mint_seeds_of(*authority));
    seeds
}

/// Appends the bump to the seeds of a derivation: the seeds by which the
/// derived address signs.
fn with_bump(seeds: Vec<Vec<u8>>, bump: u8) -> (signing: Vec<Vec<u8>>)
    ensures
        seeds_view(&signing) == seeds_view(&seeds).push(seq![bump]),
{
    let mut signing: Vec<Vec<u8>> = seeds;
    let mut last: Vec<u8> = Vec::with_capacity(1);
    last.push(bump);
    signing.push(last);
    assert(seeds_view(&signing) =~= seeds_view(&seeds).push(seq![bump])) by {
        assert forall|i: int| 0 <= i < seeds@.len() implies seeds_view(&signing)[i] == seeds_view(
            &seeds,
        )[i] by {
            assert(signing@[i] == seeds@[i]);
        }
        assert(seeds_view(&signing)[seeds@.len() as int] =~= seq![bump]);
    }
    signing
}

impl AuthoritySeeds {
    /// The seeds in the order in which the ledger hashes them.
    pub open spec fn view(&self) -> Seq<Seq<u8>> {
        seq![VAULT_AUTHORITY_SEED@, self.vault@, seq![self.bump]]
    }

    /// Builds the seeds to sign with.
    pub fn to_seeds(&self) -> (seeds: Vec<Vec<u8>>)
        ensures
            seeds_view(&seeds) == self@,
    {
        let seeds = with_bump(authority_seeds(&self.vault), self.bump);
        assert(seeds_view(&seeds) =~= self@);
        seeds
    }
}

impl InitializeMint {
    /// The seeds by which the new mint signs for its own address: the mint
    /// label, the authority it is derived from, and the bump.
    pub open spec fn signer_seeds(&self) -> Seq<Seq<u8>> {
        seq![SHARES_MINT_SEED@, self.mint_authority@, seq![self.bump]]
    }

    /// Builds the seeds by which the new mint signs.
    pub fn to_seeds(&self) -> (seeds: Vec<Vec<u8>>)
        ensures
            seeds_view(&seeds) == self.signer_seeds(),
    {
        let seeds = with_bump(shares_mint_seeds(&self.mint_authority), self.bump);
        assert(seeds_view(&seeds) =~= self.signer_seeds());
        seeds
    }
}

impl TransferChecked {
    /// Whether the ledger carries the transfer out on these balances: both
    /// accounts exist and the source holds the amount.
    pub open spec fn accepted(&self, balances: Map<Pubkey, nat>) -> bool {
        &&& balances.dom().contains(self.from)
        &&& balances.dom().contains(self.to)
        &&& balances[self.from] >= self.amount
    }

    /// The balances after the transfer: the source is debited, then the
    /// destination is credited.
    pub open spec fn apply(&self, balances: Map<Pubkey, nat>) -> Map<Pubkey, nat> {
        let debited = balances.insert(self.from, (balances[self.from] - self.amount) as nat);
        debited.insert(self.to, debited[self.to] + self.amount as nat)
    }
}

impl MintTo {
    /// Whether the ledger carries the mint out: the receiving account exists.
    pub open spec fn accepted(&self, balances: Map<Pubkey, nat>) -> bool {
        balances.dom().contains(self.to)
    }

    /// The balances after the mint: the receiving account is credited.
    pub open spec fn apply(&self, balances: Map<Pubkey, nat>) -> Map<Pubkey, nat> {
        balances.insert(self.to, balances[self.to] + self.amount as nat)
    }
}

} // verus!
