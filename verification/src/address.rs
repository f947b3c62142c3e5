use vstd::prelude::*;

use crate::account::{AccountId, VaultAddress};

verus! {

/// The identity of the deployed vault program: the root of the address space
/// inside which every vault address is derived.
pub const PROGRAM_ID: [u8; 32] = [
    118u8, 97u8, 117u8, 108u8, 116u8, 32u8, 112u8, 114u8, 111u8, 103u8, 114u8, 97u8, 109u8, 32u8,
    105u8, 100u8, 101u8, 110u8, 116u8, 105u8, 116u8, 121u8, 32u8, 98u8, 121u8, 116u8, 101u8,
    115u8, 46u8, 46u8, 46u8, 46u8,
];

/// The namespace tag that gathers every vault under one derivation family:
/// the bytes of "vault".
pub open spec fn vault_tag() -> Seq<u8> {
    seq![118u8, 97u8, 117u8, 108u8, 116u8]
}

/// The address that the derivation returns for a given seed tag, owner
/// identity and program id, when it returns one.
pub uninterp spec fn derived_address(tag: Seq<u8>, owner: u64, program: Seq<u8>) -> Option<
    Seq<u8>,
>;

/// What an optional buffer of address bytes holds, as an optional sequence.
pub open spec fn address_bytes_view(r: Option<Vec<u8>>) -> Option<Seq<u8>> {
    match r {
        Some(bytes) => Some(bytes@),
        None => None,
    }
}

/// Relies on `Pubkey::try_find_program_address`, re-exported by
/// `anchor_lang`: the search over bump seeds is a pure computation of the
/// seed list and the program id, so the returned address is a deterministic
/// function of the inputs; it is 32 bytes long, and `None` comes only in the
/// statistically improbable case that no bump seed yields a valid address.
#[verifier::external_body]
fn try_find_address(tag: &[u8], owner: u64, program: &[u8; 32]) -> (r: Option<Vec<u8>>)
    ensures
        address_bytes_view(r) == derived_address(tag@, owner, program@),
        r matches Some(bytes) ==> bytes@.len() == 32,
{
    let program_id = anchor_lang::solana_program::pubkey::Pubkey::new_from_array(*program);
    let owner_bytes = owner.to_le_bytes();
    anchor_lang::solana_program::pubkey::Pubkey::try_find_program_address(
        &[tag, &owner_bytes],
        &program_id,
    ).map(|(address, _bump)| address.to_bytes().to_vec())
}

/// The address of `authority`'s vault: the deterministic derivation from the
/// namespace tag and the authority's identity, under the vault program.
pub open spec fn vault_address_of(authority: AccountId) -> Option<Seq<u8>> {
    derived_address(vault_tag(), authority.id, PROGRAM_ID@)
}

/// Compute where `authority`'s vault lives. No registry is consulted: every
/// component that derives the address for the same authority gets the same
/// bytes. `None` only in the improbable case that the derivation finds no
/// valid address for this authority.
pub fn derive_vault_address(authority: AccountId) -> (r: Option<VaultAddress>)
    ensures
        r matches Some(address) ==> vault_address_of(authority) == Some(address@)
            && address@.len() == 32,
        r is None ==> vault_address_of(authority) is None,
{
    let mut tag: Vec<u8> = Vec::new();
    tag.push(118); // 'v'
    tag.push(97); // 'a'
    tag.push(117); // 'u'
    tag.push(108); // 'l'
    tag.push(116); // 't'
    proof {
        assert(tag@ =~= vault_tag());
    }
    match try_find_address(tag.as_slice(), authority.id, &PROGRAM_ID) {
        Some(bytes) => Some(VaultAddress { bytes }),
        None => None,
    }
}

} // verus!
