use vstd::prelude::*;
use crate::key::Key;
use anchor_lang::prelude::Pubkey;

verus! {

/// What `Pubkey::try_find_program_address` returns for the seeds `[tag, key]`
/// under `program_id`: the derived address and its bump seed, or none.
pub uninterp spec fn program_address(tag: Seq<u8>, key: Seq<u8>, program_id: Seq<u8>) -> Option<
    (Seq<u8>, u8),
>;

/// The ASCII bytes of `escrow`, the domain tag of an escrow record's address.
pub open spec fn escrow_seed() -> Seq<u8> {
    seq![101u8, 115u8, 99u8, 114u8, 111u8, 119u8]
}

/// The ASCII bytes of `vault`, the domain tag of a vault's address.
pub open spec fn vault_seed() -> Seq<u8> {
    seq![118u8, 97u8, 117u8, 108u8, 116u8]
}

/// The address and bump of the escrow record of `initializer`.
pub open spec fn escrow_address_of(program_id: Seq<u8>, initializer: Seq<u8>) -> Option<(Seq<u8>, u8)> {
    program_address(escrow_seed(), initializer, program_id)
}

/// The address and bump of the vault of the escrow record at `escrow`.
pub open spec fn vault_address_of(program_id: Seq<u8>, escrow: Seq<u8>) -> Option<(Seq<u8>, u8)> {
    program_address(vault_seed(), escrow, program_id)
}

/// A derivation result seen as plain values.
pub open spec fn found_view(r: Option<(Key, u8)>) -> Option<(Seq<u8>, u8)> {
    match r {
        Some((a, bump)) => Some((a@, bump)),
        None => None,
    }
}

/// Relies on solana_program's `Pubkey::try_find_program_address`, which
/// depends on its seeds and program id alone (a SHA-256 digest tried with each
/// bump seed from 255 down, off the curve).
#[verifier::external_body]
fn try_find_program_address(tag: &[u8], key: &Key, program_id: &Key) -> (r: Option<(Key, u8)>)
    ensures
        found_view(r) == program_address(tag@, key@, program_id@),
{
    let program = Pubkey::new_from_array(program_id.bytes);
    match Pubkey::try_find_program_address(&[tag, &key.bytes], &program) {
        Some((address, bump)) => Some((Key::new(address.to_bytes()), bump)),
        None => None,
    }
}

/// Derives the address of the escrow record of `initializer`: the same inputs
/// always give the same address.
pub fn escrow_address(program_id: &Key, initializer: &Key) -> (r: Option<(Key, u8)>)
    ensures
        found_view(r) == escrow_address_of(program_id@, initializer@),
{
    let tag: [u8; 6] = [101, 115, 99, 114, 111, 119];
    assert(tag@ =~= escrow_seed());
    try_find_program_address(&tag, initializer, program_id)
}

/// Derives the address of the vault of the escrow record at `escrow`.
pub fn vault_address(program_id: &Key, escrow: &Key) -> (r: Option<(Key, u8)>)
    ensures
        found_view(r) == vault_address_of(program_id@, escrow@),
{
    let tag: [u8; 5] = [118, 97, 117, 108, 116];
    assert(tag@ =~= vault_seed());
    try_find_program_address(&tag, escrow, program_id)
}

} // verus!
