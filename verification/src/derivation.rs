//! Where each program-owned record lives.
//!
//! Every vault, per-user balance, pool, position and swap result is stored at
//! an address that anyone can recompute from a fixed label and the identities
//! it belongs to. That there is at most one such record per label and
//! identities follows from the derivation, not from a scan.

use vstd::prelude::*;
use crate::address::{lemma_address_by_bytes, lemma_lex_antisymmetric, lemma_lex_total, lex_le, Address};

verus! {

/// The program address that the runtime derives from `seeds` for the program
/// `program_id`, with the bump seed it settled on; `None` where the seeds are
/// too many or too long, or no bump seed gives an address.
pub uninterp spec fn program_address(seeds: Seq<Seq<u8>>, program_id: Seq<u8>) -> Option<(Seq<u8>, u8)>;

/// Calls `Pubkey::try_find_program_address` of `solana-pubkey`, re-exported by
/// `anchor_lang`. The function hashes the seeds, a bump seed and the program
/// id, and searches the bump seeds downwards from 255; it depends on its
/// arguments alone. The contract only names its result.
#[verifier::external_body]
fn find_program_address(seeds: &Vec<Vec<u8>>, program_id: &Address) -> (found: Option<(Address, u8)>)
    ensures
        match found {
            Some((address, bump)) => program_address(seed_views(seeds@), program_id@) == Some((address@, bump)),
            None => program_address(seed_views(seeds@), program_id@) is None,
        },
{
    let parts: Vec<&[u8]> = seeds.iter().map(|s| s.as_slice()).collect();
    let program = anchor_lang::prelude::Pubkey::new_from_array(program_id.bytes);
    anchor_lang::prelude::Pubkey::try_find_program_address(&parts, &program)
        .map(|(key, bump)| (Address { bytes: key.to_bytes() }, bump))
}

/// The seeds as byte strings.
pub open spec fn seed_views(seeds: Seq<Vec<u8>>) -> Seq<Seq<u8>> {
    Seq::new(seeds.len(), |i: int| seeds[i]@)
}

/// `found` is what the derivation gives for `seeds` under `program_id`.
pub open spec fn derived_at(seeds: Seq<Seq<u8>>, program_id: Address, found: Option<(Address, u8)>) -> bool {
    match found {
        Some((address, bump)) => program_address(seeds, program_id@) == Some((address@, bump)),
        None => program_address(seeds, program_id@) is None,
    }
}

/// The derivation has one answer: two results for the same seeds and program
/// are equal.
pub proof fn lemma_derivation_unique(
    seeds: Seq<Seq<u8>>,
    program_id: Address,
    first: Option<(Address, u8)>,
    second: Option<(Address, u8)>,
)
    requires
        derived_at(seeds, program_id, first),
        derived_at(seeds, program_id, second),
    ensures
        first == second,
{
    if let Some((a, _)) = first {
        if let Some((b, _)) = second {
            lemma_address_by_bytes(a, b);
        }
    }
}

/// The label `vault`, as bytes.
pub open spec fn label_vault() -> Seq<u8> {
    seq![118u8, 97u8, 117u8, 108u8, 116u8]
}

/// The label `sol_vault`, as bytes.
pub open spec fn label_sol_vault() -> Seq<u8> {
    seq![115u8, 111u8, 108u8, 95u8, 118u8, 97u8, 117u8, 108u8, 116u8]
}

/// The label `sol_vault_v2`, as bytes.
pub open spec fn label_sol_vault_v2() -> Seq<u8> {
    seq![115u8, 111u8, 108u8, 95u8, 118u8, 97u8, 117u8, 108u8, 116u8, 95u8, 118u8, 50u8]
}

/// The label `usdc_vault`, as bytes.
pub open spec fn label_usdc_vault() -> Seq<u8> {
    seq![117u8, 115u8, 100u8, 99u8, 95u8, 118u8, 97u8, 117u8, 108u8, 116u8]
}

/// The label `user_balance`, as bytes.
pub open spec fn label_user_balance() -> Seq<u8> {
    seq![117u8, 115u8, 101u8, 114u8, 95u8, 98u8, 97u8, 108u8, 97u8, 110u8, 99u8, 101u8]
}

/// The label `pool`, as bytes.
pub open spec fn label_pool() -> Seq<u8> {
    seq![112u8, 111u8, 111u8, 108u8]
}

/// The label `position`, as bytes.
pub open spec fn label_position() -> Seq<u8> {
    seq![112u8, 111u8, 115u8, 105u8, 116u8, 105u8, 111u8, 110u8]
}

/// The label `swap_result`, as bytes.
pub open spec fn label_swap_result() -> Seq<u8> {
    seq![115u8, 119u8, 97u8, 112u8, 95u8, 114u8, 101u8, 115u8, 117u8, 108u8, 116u8]
}

/// Seeds of the vault that holds the public tokens of `spl_mint`.
pub open spec fn vault_seeds(spl_mint: Address) -> Seq<Seq<u8>> {
    seq![label_vault(), spl_mint@]
}

/// Seeds of a record that is addressed by its label alone.
pub open spec fn singleton_seeds(label: Seq<u8>) -> Seq<Seq<u8>> {
    seq![label]
}

/// Seeds of the balance of `user` in `mint`.
pub open spec fn user_balance_seeds(user: Address, mint: Address) -> Seq<Seq<u8>> {
    seq![label_user_balance(), user@, mint@]
}

/// Seeds of the pool of two assets: the pair is unordered, so the asset that
/// comes first byte by byte is hashed first.
pub open spec fn pool_seeds(token_a: Address, token_b: Address) -> Seq<Seq<u8>> {
    if lex_le(token_a@, token_b@, 0) {
        seq![label_pool(), token_a@, token_b@]
    } else {
        seq![label_pool(), token_b@, token_a@]
    }
}

/// Seeds of the liquidity position of `owner` in `pool`.
pub open spec fn position_seeds(pool: Address, owner: Address) -> Seq<Seq<u8>> {
    seq![label_position(), pool@, owner@]
}

/// Seeds of the latest swap result of `owner` in `pool`.
pub open spec fn swap_result_seeds(pool: Address, owner: Address) -> Seq<Seq<u8>> {
    seq![label_swap_result(), pool@, owner@]
}

/// The seeds with which a derived address signs: its own seeds followed by
/// the bump seed as a one-byte string.
pub open spec fn signer_seeds(seeds: Seq<Seq<u8>>, bump: u8) -> Seq<Seq<u8>> {
    seeds.push(seq![bump])
}

/// A pool has one seed list whichever of its assets is named first.
pub proof fn lemma_pool_seeds_unordered(token_a: Address, token_b: Address)
    ensures
        pool_seeds(token_a, token_b) == pool_seeds(token_b, token_a),
{
    lemma_lex_total(token_a@, token_b@, 0);
    if lex_le(token_a@, token_b@, 0) && lex_le(token_b@, token_a@, 0) {
        lemma_lex_antisymmetric(token_a@, token_b@, 0);
        assert(token_a@ =~= token_b@);
    }
}

fn vault_label() -> (v: Vec<u8>)
    ensures
        v@ == label_vault(),
{
    let v: Vec<u8> = vec![118u8, 97u8, 117u8, 108u8, 116u8];
    assert(v@ =~= label_vault());
    v
}

fn sol_vault_label() -> (v: Vec<u8>)
    ensures
        v@ == label_sol_vault(),
{
    let v: Vec<u8> = vec![115u8, 111u8, 108u8, 95u8, 118u8, 97u8, 117u8, 108u8, 116u8];
    assert(v@ =~= label_sol_vault());
    v
}

fn sol_vault_v2_label() -> (v: Vec<u8>)
    ensures
        v@ == label_sol_vault_v2(),
{
    let v: Vec<u8> = vec![115u8, 111u8, 108u8, 95u8, 118u8, 97u8, 117u8, 108u8, 116u8, 95u8, 118u8, 50u8];
    assert(v@ =~= label_sol_vault_v2());
    v
}

fn usdc_vault_label() -> (v: Vec<u8>)
    ensures
        v@ == label_usdc_vault(),
{
    let v: Vec<u8> = vec![117u8, 115u8, 100u8, 99u8, 95u8, 118u8, 97u8, 117u8, 108u8, 116u8];
    assert(v@ =~= label_usdc_vault());
    v
}

fn user_balance_label() -> (v: Vec<u8>)
    ensures
        v@ == label_user_balance(),
{
    let v: Vec<u8> = vec![117u8, 115u8, 101u8, 114u8, 95u8, 98u8, 97u8, 108u8, 97u8, 110u8, 99u8, 101u8];
    assert(v@ =~= label_user_balance());
    v
}

fn pool_label() -> (v: Vec<u8>)
    ensures
        v@ == label_pool(),
{
    let v: Vec<u8> = vec![112u8, 111u8, 111u8, 108u8];
    assert(v@ =~= label_pool());
    v
}

fn position_label() -> (v: Vec<u8>)
    ensures
        v@ == label_position(),
{
    let v: Vec<u8> = vec![112u8, 111u8, 115u8, 105u8, 116u8, 105u8, 111u8, 110u8];
    assert(v@ =~= label_position());
    v
}

fn swap_result_label() -> (v: Vec<u8>)
    ensures
        v@ == label_swap_result(),
{
    let v: Vec<u8> = vec![115u8, 119u8, 97u8, 112u8, 95u8, 114u8, 101u8, 115u8, 117u8, 108u8, 116u8];
    assert(v@ =~= label_swap_result());
    v
}

/// Seed list of one label.
fn seeds_of_one(label: Vec<u8>) -> (seeds: Vec<Vec<u8>>)
    ensures
        seed_views(seeds@) == seq![label@],
{
    let mut seeds: Vec<Vec<u8>> = Vec::new();
    seeds.push(label);
    assert(seed_views(seeds@) =~= seq![label@]);
    seeds
}

/// Seed list of a label and one address.
fn seeds_of_two(label: Vec<u8>, first: &Address) -> (seeds: Vec<Vec<u8>>)
    ensures
        seed_views(seeds@) == seq![label@, first@],
{
    let mut seeds: Vec<Vec<u8>> = Vec::new();
    seeds.push(label);
    seeds.push(first.to_vec());
    assert(seed_views(seeds@) =~= seq![label@, first@]);
    seeds
}

/// Seed list of a label and two addresses.
fn seeds_of_three(label: Vec<u8>, first: &Address, second: &Address) -> (seeds: Vec<Vec<u8>>)
    ensures
        seed_views(seeds@) == seq![label@, first@, second@],
{
    let mut seeds: Vec<Vec<u8>> = Vec::new();
    seeds.push(label);
    seeds.push(first.to_vec());
    seeds.push(second.to_vec());
    assert(seed_views(seeds@) =~= seq![label@, first@, second@]);
    seeds
}

/// The seed list of the vault that backs the wrapped tokens of `spl_mint`.
pub fn vault_seed_list(spl_mint: &Address) -> (seeds: Vec<Vec<u8>>)
    ensures
        seed_views(seeds@) == vault_seeds(*spl_mint),
{
    seeds_of_two(vault_label(), spl_mint)
}

/// The seed list of the vault of native currency behind the confidential
/// token accounts.
pub fn sol_vault_seed_list() -> (seeds: Vec<Vec<u8>>)
    ensures
        seed_views(seeds@) == singleton_seeds(label_sol_vault()),
{
    seeds_of_one(sol_vault_label())
}

/// The seed list of the program-owned vault of native currency behind the
/// per-user balances.
pub fn sol_vault_record_seed_list() -> (seeds: Vec<Vec<u8>>)
    ensures
        seed_views(seeds@) == singleton_seeds(label_sol_vault_v2()),
{
    seeds_of_one(sol_vault_v2_label())
}

/// The seed list of the vault of the test stablecoin.
pub fn usdc_vault_seed_list() -> (seeds: Vec<Vec<u8>>)
    ensures
        seed_views(seeds@) == singleton_seeds(label_usdc_vault()),
{
    seeds_of_one(usdc_vault_label())
}

/// The seed list of the balance of `user` in `mint`.
pub fn user_balance_seed_list(user: &Address, mint: &Address) -> (seeds: Vec<Vec<u8>>)
    ensures
        seed_views(seeds@) == user_balance_seeds(*user, *mint),
{
    seeds_of_three(user_balance_label(), user, mint)
}

/// The seed list of the pool of the unordered pair of assets: the asset that
/// comes first byte by byte stands first.
pub fn pool_seed_list(token_a: &Address, token_b: &Address) -> (seeds: Vec<Vec<u8>>)
    ensures
        seed_views(seeds@) == pool_seeds(*token_a, *token_b),
{
    if token_a.precedes(token_b) {
        seeds_of_three(pool_label(), token_a, token_b)
    } else {
        seeds_of_three(pool_label(), token_b, token_a)
    }
}

/// The seed list of the liquidity position of `owner` in `pool`.
pub fn position_seed_list(pool: &Address, owner: &Address) -> (seeds: Vec<Vec<u8>>)
    ensures
        seed_views(seeds@) == position_seeds(*pool, *owner),
{
    seeds_of_three(position_label(), pool, owner)
}

/// The seed list of the latest swap result of `owner` in `pool`.
pub fn swap_result_seed_list(pool: &Address, owner: &Address) -> (seeds: Vec<Vec<u8>>)
    ensures
        seed_views(seeds@) == swap_result_seeds(*pool, *owner),
{
    seeds_of_three(swap_result_label(), pool, owner)
}

/// Address and bump seed of the vault that backs the wrapped tokens of
/// `spl_mint`.
pub fn vault_address(spl_mint: &Address, program_id: &Address) -> (found: Option<(Address, u8)>)
    ensures
        derived_at(vault_seeds(*spl_mint), *program_id, found),
{
    find_program_address(&vault_seed_list(spl_mint), program_id)
}

/// Address and bump seed of the vault that holds wrapped native currency for
/// holders of confidential token accounts.
pub fn sol_vault_address(program_id: &Address) -> (found: Option<(Address, u8)>)
    ensures
        derived_at(singleton_seeds(label_sol_vault()), *program_id, found),
{
    find_program_address(&sol_vault_seed_list(), program_id)
}

/// Address and bump seed of the program-owned vault of native currency that
/// backs the per-user balances.
pub fn sol_vault_record_address(program_id: &Address) -> (found: Option<(Address, u8)>)
    ensures
        derived_at(singleton_seeds(label_sol_vault_v2()), *program_id, found),
{
    find_program_address(&sol_vault_record_seed_list(), program_id)
}

/// Address and bump seed of the vault of the test stablecoin.
pub fn usdc_vault_address(program_id: &Address) -> (found: Option<(Address, u8)>)
    ensures
        derived_at(singleton_seeds(label_usdc_vault()), *program_id, found),
{
    find_program_address(&usdc_vault_seed_list(), program_id)
}

/// Address and bump seed of the balance of `user` in `mint`.
pub fn user_balance_address(user: &Address, mint: &Address, program_id: &Address) -> (found: Option<(Address, u8)>)
    ensures
        derived_at(user_balance_seeds(*user, *mint), *program_id, found),
{
    find_program_address(&user_balance_seed_list(user, mint), program_id)
}

/// Address and bump seed of the pool of the unordered pair of assets.
pub fn pool_address(token_a: &Address, token_b: &Address, program_id: &Address) -> (found: Option<(Address, u8)>)
    ensures
        derived_at(pool_seeds(*token_a, *token_b), *program_id, found),
{
    find_program_address(&pool_seed_list(token_a, token_b), program_id)
}

/// Address and bump seed of the liquidity position of `owner` in `pool`.
pub fn position_address(pool: &Address, owner: &Address, program_id: &Address) -> (found: Option<(Address, u8)>)
    ensures
        derived_at(position_seeds(*pool, *owner), *program_id, found),
{
    find_program_address(&position_seed_list(pool, owner), program_id)
}

/// Address and bump seed of the latest swap result of `owner` in `pool`.
pub fn swap_result_address(pool: &Address, owner: &Address, program_id: &Address) -> (found: Option<(Address, u8)>)
    ensures
        derived_at(swap_result_seeds(*pool, *owner), *program_id, found),
{
    find_program_address(&swap_result_seed_list(pool, owner), program_id)
}

/// The seed list followed by the bump seed as a one-byte string.
fn with_bump(seeds: Vec<Vec<u8>>, bump: u8) -> (signing: Vec<Vec<u8>>)
    ensures
        seed_views(signing@) == signer_seeds(seed_views(seeds@), bump),
{
    let mut signing = seeds;
    let tail: Vec<u8> = vec![bump];
    assert(tail@ =~= seq![bump]);
    let ghost before = seed_views(signing@);
    signing.push(tail);
    assert(seed_views(signing@) =~= before.push(seq![bump]));
    signing
}

/// Seeds with which the token vault of `spl_mint` signs a transfer out.
pub fn vault_signer_seeds(spl_mint: &Address, bump: u8) -> (seeds: Vec<Vec<u8>>)
    ensures
        seed_views(seeds@) == signer_seeds(vault_seeds(*spl_mint), bump),
{
    with_bump(vault_seed_list(spl_mint), bump)
}

/// Seeds with which the native-currency vault signs.
pub fn sol_vault_signer_seeds(bump: u8) -> (seeds: Vec<Vec<u8>>)
    ensures
        seed_views(seeds@) == signer_seeds(singleton_seeds(label_sol_vault()), bump),
{
    with_bump(sol_vault_seed_list(), bump)
}

/// Seeds with which the stablecoin vault signs a transfer out.
pub fn usdc_vault_signer_seeds(bump: u8) -> (seeds: Vec<Vec<u8>>)
    ensures
        seed_views(seeds@) == signer_seeds(singleton_seeds(label_usdc_vault()), bump),
{
    with_bump(usdc_vault_seed_list(), bump)
}

/// A pool has one address, whichever of its two assets is named first.
pub proof fn lemma_pool_address_unordered(
    token_a: Address,
    token_b: Address,
    program_id: Address,
    forward: Option<(Address, u8)>,
    backward: Option<(Address, u8)>,
)
    requires
        derived_at(pool_seeds(token_a, token_b), program_id, forward),
        derived_at(pool_seeds(token_b, token_a), program_id, backward),
    ensures
        forward == backward,
{
    lemma_pool_seeds_unordered(token_a, token_b);
    lemma_derivation_unique(pool_seeds(token_a, token_b), program_id, forward, backward);
}

} // verus!
