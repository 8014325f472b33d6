use vstd::prelude::*;
use crate::address::{
    address_seed, assert_derivation, derivation_check, derived_address, edition_marker_seed,
    edition_marker_spec, find_program_address, metadata_prefix_seed,
    metadata_prefix_spec, prefix_seed, prefix_spec, same_address, seeds_view, system_program,
    system_program_spec, vault_prefix_seed, vault_prefix_spec, Address,
};
use crate::records::{
    assert_mint_initialized, assert_token_account_initialized, mint_check,
    owned_by, token_account_check, AccountView, Creator, FractionManager,
    FractionWinningConfigType, Metadata, MetaplexError, SafetyDepositBox, Store, Vault,
    WhitelistedCreator,
};

verus! {

/// Everything the common invariant checker reads.
pub struct CommonCheckArgs<'a> {
    pub program_id: &'a Address,
    pub fraction_manager_info: &'a AccountView,
    pub metadata_info: &'a AccountView,
    pub original_authority_lookup_info: &'a AccountView,
    pub whitelisted_creator_info: &'a AccountView,
    pub safety_deposit_info: &'a AccountView,
    pub safety_deposit_token_store_info: &'a AccountView,
    pub edition_info: &'a AccountView,
    pub vault_info: &'a AccountView,
    pub mint_info: &'a AccountView,
    pub token_metadata_program_info: &'a AccountView,
    pub fraction_manager_store_info: &'a AccountView,
    pub authority_info: &'a AccountView,
    pub store: &'a Store,
    pub fraction_manager: &'a FractionManager,
    pub metadata: &'a Metadata,
    pub safety_deposit: &'a SafetyDepositBox,
    pub vault: &'a Vault,
    /// The decoded whitelist entry, where the slot holds one.
    pub whitelisted_creator: &'a Option<WhitelistedCreator>,
    pub winning_config_type: &'a FractionWinningConfigType,
}

/// The seeds of a whitelist entry of `creator` in the registry `store_key`.
pub open spec fn whitelist_seeds(program: Seq<u8>, store_key: Seq<u8>, creator: Seq<u8>) -> Seq<Seq<u8>> {
    seq![prefix_spec(), program, store_key, creator]
}

/// The seeds under which the vault program addresses a box of `mint`.
pub open spec fn safety_deposit_seeds(vault_key: Seq<u8>, mint: Seq<u8>) -> Seq<Seq<u8>> {
    seq![vault_prefix_spec(), vault_key, mint]
}

/// A verified creator whose whitelist address is the supplied slot.
pub open spec fn creator_matches_slot(program: Seq<u8>, store_key: Seq<u8>, slot: Seq<u8>, c: Creator) -> bool {
    c.verified && derivation_check(whitelist_seeds(program, store_key, c.address@), program, slot) is Some
}

/// At least one listed creator is verified and whitelisted by an active
/// entry, or the registry is public and every listed creator is verified.
pub open spec fn creator_rule(
    program: Seq<u8>,
    store: Store,
    store_key: Seq<u8>,
    creators: Seq<Creator>,
    slot: Seq<u8>,
    entry: Option<WhitelistedCreator>,
) -> bool {
    (store.public && forall|i: int| 0 <= i < creators.len() ==> (#[trigger] creators[i]).verified)
    || (match entry {
        Some(w) => w.activated && exists|i: int| 0 <= i < creators.len()
            && creator_matches_slot(program, store_key, slot, #[trigger] creators[i]),
        None => false,
    })
}

/// The first of the three checks that pair the vault with the box.
pub open spec fn vault_pairing_check(
    manager_vault: Seq<u8>,
    vault_key: Seq<u8>,
    box_key: Seq<u8>,
    safety_deposit: SafetyDepositBox,
    token_vault_program: Seq<u8>,
) -> Result<(), MetaplexError> {
    if manager_vault != vault_key {
        Err(MetaplexError::FractionManagerVaultMismatch)
    } else if derivation_check(safety_deposit_seeds(vault_key, safety_deposit.token_mint@), token_vault_program, box_key) is None {
        Err(MetaplexError::DerivedKeyInvalid)
    } else if vault_key != safety_deposit.vault@ {
        Err(MetaplexError::SafetyDepositBoxVaultMismatch)
    } else {
        Ok(())
    }
}

/// The ownership checks, in the order they are made.
pub open spec fn ownership_check(a: CommonCheckArgs) -> Result<(), MetaplexError> {
    let s = *a.store;
    if !owned_by(*a.fraction_manager_info, a.program_id@) {
        Err(MetaplexError::IncorrectOwner)
    } else if !owned_by(*a.metadata_info, s.token_metadata_program@) {
        Err(MetaplexError::IncorrectOwner)
    } else if !a.original_authority_lookup_info.is_empty_spec() {
        Err(MetaplexError::AlreadyInitialized)
    } else if a.whitelisted_creator_info.key@ != system_program_spec()
        && a.whitelisted_creator_info.is_empty_spec() {
        Err(MetaplexError::Uninitialized)
    } else if a.whitelisted_creator_info.key@ != system_program_spec()
        && !owned_by(*a.whitelisted_creator_info, a.program_id@) {
        Err(MetaplexError::IncorrectOwner)
    } else if !owned_by(*a.fraction_manager_store_info, a.program_id@)
        || !owned_by(*a.safety_deposit_info, s.token_vault_program@)
        || !owned_by(*a.safety_deposit_token_store_info, s.token_program@)
        || !owned_by(*a.mint_info, s.token_program@) {
        Err(MetaplexError::IncorrectOwner)
    } else if *a.winning_config_type != FractionWinningConfigType::FractionToken
        && !owned_by(*a.edition_info, s.token_metadata_program@) {
        Err(MetaplexError::IncorrectOwner)
    } else if !owned_by(*a.vault_info, s.token_vault_program@) {
        Err(MetaplexError::IncorrectOwner)
    } else {
        Ok(())
    }
}

/// The outcome of the common checks: the first violation, in order, or
/// success.
pub open spec fn common_check_outcome(a: CommonCheckArgs) -> Result<(), MetaplexError> {
    let s = *a.store;
    let fm = *a.fraction_manager;
    if mint_check(a.mint_info.data@) is Err {
        mint_check(a.mint_info.data@)
    } else if a.vault.authority@ != a.fraction_manager_info.key@ {
        Err(MetaplexError::VaultAuthorityMismatch)
    } else if ownership_check(a) is Err {
        ownership_check(a)
    } else if a.token_metadata_program_info.key@ != s.token_metadata_program@ {
        Err(MetaplexError::FractionManagerTokenMetadataMismatch)
    } else if fm.authority@ != a.authority_info.key@ {
        Err(MetaplexError::FractionManagerAuthorityMismatch)
    } else if !a.authority_info.is_signer {
        Err(MetaplexError::FractionManagerAuthorityIsNotSigner)
    } else if vault_pairing_check(fm.vault@, a.vault_info.key@, a.safety_deposit_info.key@, *a.safety_deposit, s.token_vault_program@) is Err {
        vault_pairing_check(fm.vault@, a.vault_info.key@, a.safety_deposit_info.key@, *a.safety_deposit, s.token_vault_program@)
    } else if !creator_rule(a.program_id@, s, a.fraction_manager_store_info.key@, a.metadata.creator_list(), a.whitelisted_creator_info.key@, *a.whitelisted_creator) {
        Err(MetaplexError::InvalidWhitelistedCreator)
    } else if fm.store@ != a.fraction_manager_store_info.key@ {
        Err(MetaplexError::FractionManagerStoreMismatch)
    } else if a.mint_info.key@ != a.safety_deposit.token_mint@ {
        Err(MetaplexError::SafetyDepositBoxMintMismatch)
    } else if a.token_metadata_program_info.key@ != s.token_metadata_program@ {
        Err(MetaplexError::FractionManagerTokenMetadataProgramMismatch)
    } else if a.mint_info.owner@ != s.token_program@ {
        Err(MetaplexError::TokenProgramMismatch)
    } else {
        Ok(())
    }
}

fn is_owned_by(info: &AccountView, owner: &Address) -> (r: bool)
    ensures
        r == owned_by(*info, owner@),
{
    same_address(&info.owner, owner)
}

/// The ownership checks of the record graph.
pub fn assert_ownership(a: &CommonCheckArgs) -> (r: Result<(), MetaplexError>)
    ensures
        r == ownership_check(*a),
{
    let s = a.store;
    if !is_owned_by(a.fraction_manager_info, a.program_id) {
        return Err(MetaplexError::IncorrectOwner);
    }
    if !is_owned_by(a.metadata_info, &s.token_metadata_program) {
        return Err(MetaplexError::IncorrectOwner);
    }
    if !a.original_authority_lookup_info.data_is_empty() {
        return Err(MetaplexError::AlreadyInitialized);
    }
    let none_slot = system_program();
    if !same_address(&a.whitelisted_creator_info.key, &none_slot) {
        if a.whitelisted_creator_info.data_is_empty() {
            return Err(MetaplexError::Uninitialized);
        }
        if !is_owned_by(a.whitelisted_creator_info, a.program_id) {
            return Err(MetaplexError::IncorrectOwner);
        }
    }
    if !is_owned_by(a.fraction_manager_store_info, a.program_id)
        || !is_owned_by(a.safety_deposit_info, &s.token_vault_program)
        || !is_owned_by(a.safety_deposit_token_store_info, &s.token_program)
        || !is_owned_by(a.mint_info, &s.token_program) {
        return Err(MetaplexError::IncorrectOwner);
    }
    if *a.winning_config_type != FractionWinningConfigType::FractionToken {
        if !is_owned_by(a.edition_info, &s.token_metadata_program) {
            return Err(MetaplexError::IncorrectOwner);
        }
    }
    if !is_owned_by(a.vault_info, &s.token_vault_program) {
        return Err(MetaplexError::IncorrectOwner);
    }
    Ok(())
}

/// Checks that the campaign's vault is the supplied vault, and that the box
/// is the vault program's box of its mint in that vault.
pub fn assert_store_safety_vault_manager_match(
    manager_vault: &Address,
    safety_deposit_info: &AccountView,
    safety_deposit: &SafetyDepositBox,
    vault_info: &AccountView,
    token_vault_program: &Address,
) -> (r: Result<(), MetaplexError>)
    ensures
        r == vault_pairing_check(manager_vault@, vault_info.key@, safety_deposit_info.key@, *safety_deposit, token_vault_program@),
{
    if !same_address(manager_vault, &vault_info.key) {
        return Err(MetaplexError::FractionManagerVaultMismatch);
    }
    let mut seeds: Vec<Vec<u8>> = Vec::new();
    seeds.push(vault_prefix_seed());
    seeds.push(address_seed(&vault_info.key));
    seeds.push(address_seed(&safety_deposit.token_mint));
    assert(seeds_view(seeds@) =~= safety_deposit_seeds(vault_info.key@, safety_deposit.token_mint@));
    if assert_derivation(token_vault_program, &safety_deposit_info.key, &seeds).is_none() {
        return Err(MetaplexError::DerivedKeyInvalid);
    }
    if !same_address(&vault_info.key, &safety_deposit.vault) {
        return Err(MetaplexError::SafetyDepositBoxVaultMismatch);
    }
    Ok(())
}

/// Whether `c` is verified and whitelisted under `slot`.
fn creator_matches(program: &Address, store_key: &Address, slot: &Address, c: &Creator) -> (r: bool)
    ensures
        r == creator_matches_slot(program@, store_key@, slot@, *c),
{
    if !c.verified {
        return false;
    }
    let mut seeds: Vec<Vec<u8>> = Vec::new();
    seeds.push(prefix_seed());
    seeds.push(address_seed(program));
    seeds.push(address_seed(store_key));
    seeds.push(address_seed(&c.address));
    assert(seeds_view(seeds@) =~= whitelist_seeds(program@, store_key@, c.address@));
    assert_derivation(program, slot, &seeds).is_some()
}

/// Succeeds where a listed creator is verified and whitelisted by an active
/// entry at `slot`, or the registry is public and all listed creators are
/// verified.
pub fn assert_at_least_one_creator_matches_or_store_public_and_all_verified(
    program: &Address,
    store: &Store,
    store_key: &Address,
    metadata: &Metadata,
    slot: &Address,
    entry: &Option<WhitelistedCreator>,
) -> (r: Result<(), MetaplexError>)
    ensures
        r is Ok <==> creator_rule(program@, *store, store_key@, metadata.creator_list(), slot@, *entry),
        r is Err ==> r == Err::<(), MetaplexError>(MetaplexError::InvalidWhitelistedCreator),
{
    let empty: Vec<Creator> = Vec::new();
    let creators: &Vec<Creator> = match &metadata.creators {
        Some(v) => v,
        None => &empty,
    };
    assert(creators@ == metadata.creator_list());
    let active = match entry {
        Some(w) => w.activated,
        None => false,
    };
    let mut all_verified = true;
    let mut found = false;
    let mut i: usize = 0;
    while i < creators.len()
        invariant
            i <= creators@.len(),
            creators@ == metadata.creator_list(),
            all_verified == forall|j: int| 0 <= j < i ==> (#[trigger] creators@[j]).verified,
            found == exists|j: int| 0 <= j < i
                && creator_matches_slot(program@, store_key@, slot@, #[trigger] creators@[j]),
        decreases creators@.len() - i,
    {
        let c = &creators[i];
        if !c.verified {
            all_verified = false;
        }
        if !found && creator_matches(program, store_key, slot, c) {
            found = true;
        }
        i = i + 1;
    }
    if (store.public && all_verified) || (active && found) {
        Ok(())
    } else {
        Err(MetaplexError::InvalidWhitelistedCreator)
    }
}

/// Cross-validates the record graph before anything is written; fails with
/// the first violation.
pub fn assert_common_checks(a: &CommonCheckArgs) -> (r: Result<(), MetaplexError>)
    ensures
        r == common_check_outcome(*a),
{
    let s = a.store;
    let fm = a.fraction_manager;
    let minted = assert_mint_initialized(a.mint_info);
    if minted.is_err() {
        return minted;
    }
    if !same_address(&a.vault.authority, &a.fraction_manager_info.key) {
        return Err(MetaplexError::VaultAuthorityMismatch);
    }
    let owned = assert_ownership(a);
    if owned.is_err() {
        return owned;
    }
    if !same_address(&a.token_metadata_program_info.key, &s.token_metadata_program) {
        return Err(MetaplexError::FractionManagerTokenMetadataMismatch);
    }
    if !same_address(&fm.authority, &a.authority_info.key) {
        return Err(MetaplexError::FractionManagerAuthorityMismatch);
    }
    if !a.authority_info.is_signer {
        return Err(MetaplexError::FractionManagerAuthorityIsNotSigner);
    }
    let paired = assert_store_safety_vault_manager_match(
        &fm.vault,
        a.safety_deposit_info,
        a.safety_deposit,
        a.vault_info,
        &s.token_vault_program,
    );
    if paired.is_err() {
        return paired;
    }
    let creators = assert_at_least_one_creator_matches_or_store_public_and_all_verified(
        a.program_id,
        s,
        &a.fraction_manager_store_info.key,
        a.metadata,
        &a.whitelisted_creator_info.key,
        a.whitelisted_creator,
    );
    if creators.is_err() {
        return creators;
    }
    if !same_address(&fm.store, &a.fraction_manager_store_info.key) {
        return Err(MetaplexError::FractionManagerStoreMismatch);
    }
    if !same_address(&a.mint_info.key, &a.safety_deposit.token_mint) {
        return Err(MetaplexError::SafetyDepositBoxMintMismatch);
    }
    if !same_address(&a.token_metadata_program_info.key, &s.token_metadata_program) {
        return Err(MetaplexError::FractionManagerTokenMetadataProgramMismatch);
    }
    if !same_address(&a.mint_info.owner, &s.token_program) {
        return Err(MetaplexError::TokenProgramMismatch);
    }
    Ok(())
}

/// Everything the supply-logic checker reads.
pub struct SupplyLogicCheckArgs<'a> {
    pub program_id: &'a Address,
    pub fraction_manager_info: &'a AccountView,
    pub metadata_info: &'a AccountView,
    pub edition_info: &'a AccountView,
    pub metadata_authority_info: &'a AccountView,
    pub original_authority_lookup_info: &'a AccountView,
    pub safety_deposit_token_store_info: &'a AccountView,
    pub fraction_manager: &'a FractionManager,
    pub winning_config_type: &'a FractionWinningConfigType,
    pub metadata: &'a Metadata,
    pub safety_deposit: &'a SafetyDepositBox,
    pub store: &'a Store,
}

/// The right to sign as the campaign: the seeds `[prefix, vault]` and the
/// bump that makes them a program address. Only the custody transfer takes
/// it.
#[derive(Clone, Copy, Debug)]
pub struct AuthoritySigner {
    pub vault: Address,
    pub bump: u8,
}

/// The custody transfer a unique-edition box asks for: the lookup record
/// to create, and the authority change to make.
#[derive(Clone, Copy, Debug)]
pub struct CustodyTransfer {
    /// Address of the original-authority record, derived from the vault and
    /// the metadata.
    pub lookup_key: Address,
    pub lookup_bump: u8,
    /// The authority the asset had; stored in the lookup record.
    pub original_authority: Address,
    pub metadata_key: Address,
    /// Who takes over the metadata authority: the campaign.
    pub new_authority: Address,
    pub signer: AuthoritySigner,
}

pub open spec fn edition_seeds(metadata_program: Seq<u8>, mint: Seq<u8>) -> Seq<Seq<u8>> {
    seq![metadata_prefix_spec(), metadata_program, mint, edition_marker_spec()]
}

pub open spec fn authority_seeds(vault: Seq<u8>) -> Seq<Seq<u8>> {
    seq![prefix_spec(), vault]
}

pub open spec fn lookup_seeds(vault: Seq<u8>, metadata_key: Seq<u8>) -> Seq<Seq<u8>> {
    seq![prefix_spec(), vault, metadata_key]
}

/// The branch of a unique-edition box, once the edition address and the
/// signer bump are known.
pub open spec fn edition_branch(a: SupplyLogicCheckArgs, amount: u64, edition: Seq<u8>, bump: u8) -> Result<Option<CustodyTransfer>, MetaplexError> {
    let md = *a.metadata;
    let fm = *a.fraction_manager;
    if md.update_authority@ != a.metadata_authority_info.key@ {
        Err(MetaplexError::UpdateAuthorityIncorrect)
    } else if !a.metadata_authority_info.is_signer {
        Err(MetaplexError::UpdateAuthorityIsNotSigner)
    } else if a.safety_deposit.token_mint@ != md.mint@ {
        Err(MetaplexError::SafetyDepositBoxMetadataMismatch)
    } else if edition != a.edition_info.key@ {
        Err(MetaplexError::InvalidEditionAddress)
    } else if amount != 1 {
        Err(MetaplexError::StoreIsEmpty)
    } else {
        match derived_address(lookup_seeds(fm.vault@, a.metadata_info.key@), a.program_id@) {
            None => Err(MetaplexError::AddressNotFound),
            Some((k, lb)) => if k != a.original_authority_lookup_info.key@ {
                Err(MetaplexError::FractionOriginalAuthorityLookupKeyMismatch)
            } else {
                Ok(Some(CustodyTransfer {
                    lookup_key: a.original_authority_lookup_info.key,
                    lookup_bump: lb,
                    original_authority: a.metadata_authority_info.key,
                    metadata_key: a.metadata_info.key,
                    new_authority: a.fraction_manager_info.key,
                    signer: AuthoritySigner { vault: fm.vault, bump },
                }))
            },
        }
    }
}

/// The outcome of the supply-logic check: the custody transfer to make, if
/// any, or the first violation.
pub open spec fn supply_outcome(a: SupplyLogicCheckArgs) -> Result<Option<CustodyTransfer>, MetaplexError> {
    match token_account_check(a.safety_deposit_token_store_info.data@) {
        Err(e) => Err(e),
        Ok(amount) => match derived_address(edition_seeds(a.store.token_metadata_program@, a.metadata.mint@), a.store.token_metadata_program@) {
            None => Err(MetaplexError::AddressNotFound),
            Some((edition, _)) => match derived_address(authority_seeds(a.fraction_manager.vault@), a.program_id@) {
                None => Err(MetaplexError::AddressNotFound),
                Some((_, bump)) => match *a.winning_config_type {
                    FractionWinningConfigType::FractionMasterEditionV2 => edition_branch(a, amount, edition, bump),
                    FractionWinningConfigType::FractionToken => if a.safety_deposit.token_mint@ != a.metadata.mint@ {
                        Err(MetaplexError::SafetyDepositBoxMetadataMismatch)
                    } else {
                        Ok(None)
                    },
                },
            },
        },
    }
}

/// Checks the box against its asset class. A unique-edition box must hold
/// the one token of an edition whose authority signed; it then yields the
/// custody transfer to make. A fungible box only has its mint checked.
pub fn assert_supply_logic_check(a: &SupplyLogicCheckArgs) -> (r: Result<Option<CustodyTransfer>, MetaplexError>)
    ensures
        r == supply_outcome(*a),
{
    let amount = match assert_token_account_initialized(a.safety_deposit_token_store_info) {
        Err(e) => return Err(e),
        Ok(amount) => amount,
    };
    let md = a.metadata;
    let fm = a.fraction_manager;
    let mut edition_seed_list: Vec<Vec<u8>> = Vec::new();
    edition_seed_list.push(metadata_prefix_seed());
    edition_seed_list.push(address_seed(&a.store.token_metadata_program));
    edition_seed_list.push(address_seed(&md.mint));
    edition_seed_list.push(edition_marker_seed());
    assert(seeds_view(edition_seed_list@) =~= edition_seeds(a.store.token_metadata_program@, md.mint@));
    let edition_key = match find_program_address(&edition_seed_list, &a.store.token_metadata_program) {
        None => return Err(MetaplexError::AddressNotFound),
        Some((k, _)) => k,
    };
    let mut signer_seeds: Vec<Vec<u8>> = Vec::new();
    signer_seeds.push(prefix_seed());
    signer_seeds.push(address_seed(&fm.vault));
    assert(seeds_view(signer_seeds@) =~= authority_seeds(fm.vault@));
    let bump = match find_program_address(&signer_seeds, a.program_id) {
        None => return Err(MetaplexError::AddressNotFound),
        Some((_, b)) => b,
    };
    match a.winning_config_type {
        FractionWinningConfigType::FractionMasterEditionV2 => {
            if !same_address(&md.update_authority, &a.metadata_authority_info.key) {
                return Err(MetaplexError::UpdateAuthorityIncorrect);
            }
            if !a.metadata_authority_info.is_signer {
                return Err(MetaplexError::UpdateAuthorityIsNotSigner);
            }
            if !same_address(&a.safety_deposit.token_mint, &md.mint) {
                return Err(MetaplexError::SafetyDepositBoxMetadataMismatch);
            }
            if !same_address(&edition_key, &a.edition_info.key) {
                return Err(MetaplexError::InvalidEditionAddress);
            }
            if amount != 1 {
                return Err(MetaplexError::StoreIsEmpty);
            }
            let mut lookup_seed_list: Vec<Vec<u8>> = Vec::new();
            lookup_seed_list.push(prefix_seed());
            lookup_seed_list.push(address_seed(&fm.vault));
            lookup_seed_list.push(address_seed(&a.metadata_info.key));
            assert(seeds_view(lookup_seed_list@) =~= lookup_seeds(fm.vault@, a.metadata_info.key@));
            let lookup_bump = match find_program_address(&lookup_seed_list, a.program_id) {
                None => return Err(MetaplexError::AddressNotFound),
                Some((k, lb)) => {
                    if !same_address(&k, &a.original_authority_lookup_info.key) {
                        return Err(MetaplexError::FractionOriginalAuthorityLookupKeyMismatch);
                    }
                    lb
                },
            };
            Ok(Some(CustodyTransfer {
                lookup_key: a.original_authority_lookup_info.key,
                lookup_bump,
                original_authority: a.metadata_authority_info.key,
                metadata_key: a.metadata_info.key,
                new_authority: a.fraction_manager_info.key,
                signer: AuthoritySigner { vault: fm.vault, bump },
            }))
        },
        FractionWinningConfigType::FractionToken => {
            if !same_address(&a.safety_deposit.token_mint, &md.mint) {
                return Err(MetaplexError::SafetyDepositBoxMetadataMismatch);
            }
            Ok(None)
        },
    }
}

} // verus!
