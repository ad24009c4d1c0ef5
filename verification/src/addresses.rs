use vstd::prelude::*;

use crate::encode::u64_le;
use crate::keys::Pubkey;

verus! {

/// The derived storage address and bump seed for a seed list under a program
/// identity, or `None` in the rare case that no bump seed yields a valid
/// address.  The outcome is a function of the seeds and the program identity
/// alone.
pub uninterp spec fn pda_of(seeds: Seq<Seq<u8>>, program_id: Seq<u8>) -> Option<(Seq<u8>, u8)>;

/// Relies on `Pubkey::try_find_program_address` (reached through
/// `anchor_lang::solana_program::pubkey`): the derived address and bump seed
/// are computed from the seeds and the program id alone, and `None` comes
/// only when no bump seed gives a valid derived address.
#[verifier::external_body]
fn try_find_pda(seeds: &Vec<Vec<u8>>, program_id: &[u8; 32]) -> (r: Option<([u8; 32], u8)>)
    ensures
        match r {
            Some(p) => pda_of(seeds@.map_values(|s: Vec<u8>| s@), program_id@) == Some(
                (p.0@, p.1),
            ),
            None => pda_of(seeds@.map_values(|s: Vec<u8>| s@), program_id@) is None,
        },
{
    let seed_refs: Vec<&[u8]> = seeds.iter().map(|s| s.as_slice()).collect();
    let pid = anchor_lang::solana_program::pubkey::Pubkey::new_from_array(*program_id);
    anchor_lang::solana_program::pubkey::Pubkey::try_find_program_address(&seed_refs, &pid)
        .map(|(pk, bump)| (pk.to_bytes(), bump))
}

/// The seed namespace of the global config: the bytes of `"config"`.
pub open spec fn config_ns() -> Seq<u8> {
    seq![99u8, 111u8, 110u8, 102u8, 105u8, 103u8]
}

/// The seed namespace of a user's ledger: the bytes of `"user-state"`.
pub open spec fn user_state_ns() -> Seq<u8> {
    seq![117u8, 115u8, 101u8, 114u8, 45u8, 115u8, 116u8, 97u8, 116u8, 101u8]
}

/// The seed namespace of a trade record: the bytes of `"trade-record"`.
pub open spec fn trade_record_ns() -> Seq<u8> {
    seq![116u8, 114u8, 97u8, 100u8, 101u8, 45u8, 114u8, 101u8, 99u8, 111u8, 114u8, 100u8]
}

/// The seed list addressing the global config.
pub open spec fn config_seeds() -> Seq<Seq<u8>> {
    seq![config_ns()]
}

/// The seed list addressing a user's ledger.
pub open spec fn user_state_seeds(user: Seq<u8>) -> Seq<Seq<u8>> {
    seq![user_state_ns(), user]
}

/// The seed list addressing the trade record of `user` at counter `index`.
pub open spec fn trade_record_seeds(user: Seq<u8>, index: u64) -> Seq<Seq<u8>> {
    seq![trade_record_ns(), user, u64_le(index)]
}

fn config_ns_vec() -> (r: Vec<u8>)
    ensures
        r@ == config_ns(),
{
    let mut v: Vec<u8> = Vec::new();
    v.push(99u8);
    v.push(111u8);
    v.push(110u8);
    v.push(102u8);
    v.push(105u8);
    v.push(103u8);
    proof {
        assert(v@ =~= config_ns());
    }
    v
}

fn user_state_ns_vec() -> (r: Vec<u8>)
    ensures
        r@ == user_state_ns(),
{
    let mut v: Vec<u8> = Vec::new();
    v.push(117u8);
    v.push(115u8);
    v.push(101u8);
    v.push(114u8);
    v.push(45u8);
    v.push(115u8);
    v.push(116u8);
    v.push(97u8);
    v.push(116u8);
    v.push(101u8);
    proof {
        assert(v@ =~= user_state_ns());
    }
    v
}

fn trade_record_ns_vec() -> (r: Vec<u8>)
    ensures
        r@ == trade_record_ns(),
{
    let mut v: Vec<u8> = Vec::new();
    v.push(116u8);
    v.push(114u8);
    v.push(97u8);
    v.push(100u8);
    v.push(101u8);
    v.push(45u8);
    v.push(114u8);
    v.push(101u8);
    v.push(99u8);
    v.push(111u8);
    v.push(114u8);
    v.push(100u8);
    proof {
        assert(v@ =~= trade_record_ns());
    }
    v
}

/// Derive the storage address and bump seed of the global config.
pub fn derive_config_address(program_id: &Pubkey) -> (r: Option<([u8; 32], u8)>)
    ensures
        match r {
            Some(p) => pda_of(config_seeds(), program_id@) == Some((p.0@, p.1)),
            None => pda_of(config_seeds(), program_id@) is None,
        },
{
    let mut seeds: Vec<Vec<u8>> = Vec::new();
    seeds.push(config_ns_vec());
    let r = try_find_pda(&seeds, &program_id.bytes);
    proof {
        assert(seeds@.map_values(|s: Vec<u8>| s@) =~~= config_seeds());
    }
    r
}

/// Derive the storage address and bump seed of `user`'s ledger.
pub fn derive_user_state_address(user: &Pubkey, program_id: &Pubkey) -> (r: Option<
    ([u8; 32], u8),
>)
    ensures
        match r {
            Some(p) => pda_of(user_state_seeds(user@), program_id@) == Some((p.0@, p.1)),
            None => pda_of(user_state_seeds(user@), program_id@) is None,
        },
{
    let mut seeds: Vec<Vec<u8>> = Vec::new();
    seeds.push(user_state_ns_vec());
    seeds.push(user.to_vec());
    let r = try_find_pda(&seeds, &program_id.bytes);
    proof {
        assert(seeds@.map_values(|s: Vec<u8>| s@) =~~= user_state_seeds(user@));
    }
    r
}

/// Derive the storage address and bump seed of the trade record that `user`'s
/// counter value `index` addresses.
pub fn derive_trade_record_address(user: &Pubkey, index: u64, program_id: &Pubkey) -> (r: Option<
    ([u8; 32], u8),
>)
    ensures
        match r {
            Some(p) => pda_of(trade_record_seeds(user@, index), program_id@) == Some((p.0@, p.1)),
            None => pda_of(trade_record_seeds(user@, index), program_id@) is None,
        },
{
    let mut seeds: Vec<Vec<u8>> = Vec::new();
    seeds.push(trade_record_ns_vec());
    seeds.push(user.to_vec());
    seeds.push(crate::encode::u64_to_le(index));
    let r = try_find_pda(&seeds, &program_id.bytes);
    proof {
        assert(seeds@.map_values(|s: Vec<u8>| s@) =~~= trade_record_seeds(user@, index));
    }
    r
}

} // verus!
