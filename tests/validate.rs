use fraction_vault::address::{address_seed, same_address, system_program};
use fraction_vault::checks::{
    assert_at_least_one_creator_matches_or_store_public_and_all_verified, assert_common_checks,
    CommonCheckArgs,
};
use fraction_vault::process::{
    advance_progress, make_fraction_safety_deposit_config,
    process_validate_fraction_safety_deposit_box, ValidateAccounts, ValidateRecords,
};
use fraction_vault::records::{
    AccountView, Creator, FractionManager, FractionManagerState, FractionManagerStatus,
    FractionSafetyDepositConfig, FractionWinningConfigType, Metadata, MetaplexError,
    SafetyDepositBox, Store, Vault, WhitelistedCreator,
};
use solana_program::pubkey::Pubkey;
use spl_token::solana_program::program_option::COption;
use spl_token::solana_program::program_pack::Pack;

fn key(n: u8) -> [u8; 32] {
    let mut k = [n; 32];
    k[0] = 7;
    k
}

fn pda(seeds: &[&[u8]], program: &[u8; 32]) -> ([u8; 32], u8) {
    let (a, b) = Pubkey::find_program_address(seeds, &Pubkey::new_from_array(*program));
    (a.to_bytes(), b)
}

fn view(key: [u8; 32], owner: [u8; 32], data: Vec<u8>, is_signer: bool) -> AccountView {
    AccountView { key, owner, data, is_signer }
}

fn mint_bytes(initialized: bool) -> Vec<u8> {
    let m = spl_token::state::Mint {
        mint_authority: COption::None,
        supply: 1,
        decimals: 0,
        is_initialized: initialized,
        freeze_authority: COption::None,
    };
    let mut buf = vec![0u8; spl_token::state::Mint::LEN];
    spl_token::state::Mint::pack(m, &mut buf).unwrap();
    buf
}

fn token_account_bytes(mint: [u8; 32], amount: u64) -> Vec<u8> {
    let a = spl_token::state::Account {
        mint: Pubkey::new_from_array(mint),
        owner: Pubkey::new_from_array(key(90)),
        amount,
        delegate: COption::None,
        state: spl_token::state::AccountState::Initialized,
        is_native: COption::None,
        delegated_amount: 0,
        close_authority: COption::None,
    };
    let mut buf = vec![0u8; spl_token::state::Account::LEN];
    spl_token::state::Account::pack(a, &mut buf).unwrap();
    buf
}

const PROGRAM: u8 = 1;
const TOKEN: u8 = 2;
const VAULT_PROGRAM: u8 = 3;
const METADATA_PROGRAM: u8 = 4;

struct World {
    program: [u8; 32],
    accounts: ValidateAccounts,
    records: ValidateRecords,
}

/// A campaign of `boxes` declared boxes whose box of `mint` is valid for
/// either asset class, with a public store and verified creators.
fn world(mint_n: u8, boxes: u8, validated: u64) -> World {
    let program = key(PROGRAM);
    let token = key(TOKEN);
    let vault_program = key(VAULT_PROGRAM);
    let metadata_program = key(METADATA_PROGRAM);
    let manager_key = key(10);
    let store_key = key(11);
    let vault_key = key(12);
    let metadata_key = key(13 + mint_n);
    let authority = key(14);
    let md_authority = key(15);
    let mint = key(100 + mint_n);
    let (box_key, _) = pda(&[b"vault", &vault_key, &mint], &vault_program);
    let (config_key, _) = pda(&[b"metaplex", &program, &manager_key, &box_key], &program);
    let (lookup_key, _) = pda(&[b"metaplex", &vault_key, &metadata_key], &program);
    let (edition_key, _) = pda(&[b"metadata", &metadata_program, &mint, b"edition"], &metadata_program);
    let accounts = ValidateAccounts {
        safety_deposit_config_info: view(config_key, [0; 32], vec![], false),
        fraction_manager_info: view(manager_key, program, vec![1], false),
        metadata_info: view(metadata_key, metadata_program, vec![1], false),
        original_authority_lookup_info: view(lookup_key, [0; 32], vec![], false),
        whitelisted_creator_info: view(system_program(), [0; 32], vec![], false),
        fraction_manager_store_info: view(store_key, program, vec![1], false),
        safety_deposit_info: view(box_key, vault_program, vec![1], false),
        safety_deposit_token_store_info: view(key(16), token, token_account_bytes(mint, 1), false),
        mint_info: view(mint, token, mint_bytes(true), false),
        edition_info: view(edition_key, metadata_program, vec![1], false),
        vault_info: view(vault_key, vault_program, vec![1], false),
        authority_info: view(authority, [0; 32], vec![], true),
        metadata_authority_info: view(md_authority, [0; 32], vec![], true),
        token_metadata_program_info: view(metadata_program, [0; 32], vec![], false),
    };
    let records = ValidateRecords {
        fraction_manager: FractionManager {
            authority,
            vault: vault_key,
            store: store_key,
            state: FractionManagerState {
                status: FractionManagerStatus::Initialized,
                safety_config_items_validated: validated,
            },
        },
        safety_deposit: SafetyDepositBox { vault: vault_key, token_mint: mint, order: mint_n },
        metadata: Metadata {
            update_authority: md_authority,
            mint,
            creators: Some(vec![Creator { address: key(20), verified: true, share: 100 }]),
        },
        store: Store {
            public: true,
            token_program: token,
            token_vault_program: vault_program,
            token_metadata_program: metadata_program,
        },
        vault: Vault { authority: manager_key, token_type_count: boxes },
        whitelisted_creator: None,
    };
    World { program, accounts, records }
}

fn config(order: u64, ty: FractionWinningConfigType) -> FractionSafetyDepositConfig {
    FractionSafetyDepositConfig { order, fraction_winning_config_type: ty }
}

fn run(w: &World, c: &FractionSafetyDepositConfig) -> Result<fraction_vault::process::ValidationEffects, MetaplexError> {
    process_validate_fraction_safety_deposit_box(&w.program, &w.accounts, &w.records, c)
}

fn common(w: &World, ty: &FractionWinningConfigType) -> Result<(), MetaplexError> {
    let a = &w.accounts;
    let r = &w.records;
    assert_common_checks(&CommonCheckArgs {
        program_id: &w.program,
        fraction_manager_info: &a.fraction_manager_info,
        metadata_info: &a.metadata_info,
        original_authority_lookup_info: &a.original_authority_lookup_info,
        whitelisted_creator_info: &a.whitelisted_creator_info,
        safety_deposit_info: &a.safety_deposit_info,
        safety_deposit_token_store_info: &a.safety_deposit_token_store_info,
        edition_info: &a.edition_info,
        vault_info: &a.vault_info,
        mint_info: &a.mint_info,
        token_metadata_program_info: &a.token_metadata_program_info,
        fraction_manager_store_info: &a.fraction_manager_store_info,
        authority_info: &a.authority_info,
        store: &r.store,
        fraction_manager: &r.fraction_manager,
        metadata: &r.metadata,
        safety_deposit: &r.safety_deposit,
        vault: &r.vault,
        whitelisted_creator: &r.whitelisted_creator,
        winning_config_type: ty,
    })
}

#[test]
fn two_boxes_edition_then_token() {
    let first = world(0, 2, 0);
    let e1 = run(&first, &config(0, FractionWinningConfigType::FractionMasterEditionV2)).unwrap();
    assert_eq!(e1.fraction_manager_state.safety_config_items_validated, 1);
    assert_eq!(e1.fraction_manager_state.status, FractionManagerStatus::Initialized);
    let second = world(1, 2, e1.fraction_manager_state.safety_config_items_validated);
    let e2 = run(&second, &config(1, FractionWinningConfigType::FractionToken)).unwrap();
    assert_eq!(e2.fraction_manager_state.safety_config_items_validated, 2);
    assert_eq!(e2.fraction_manager_state.status, FractionManagerStatus::Validated);
}

#[test]
fn two_boxes_token_then_edition() {
    let first = world(1, 2, 0);
    let e1 = run(&first, &config(1, FractionWinningConfigType::FractionToken)).unwrap();
    assert_eq!(e1.fraction_manager_state.status, FractionManagerStatus::Initialized);
    let second = world(0, 2, 1);
    let e2 = run(&second, &config(0, FractionWinningConfigType::FractionMasterEditionV2)).unwrap();
    assert_eq!(e2.fraction_manager_state.safety_config_items_validated, 2);
    assert_eq!(e2.fraction_manager_state.status, FractionManagerStatus::Validated);
}

#[test]
fn edition_box_plans_custody_transfer() {
    let w = world(0, 1, 0);
    let e = run(&w, &config(0, FractionWinningConfigType::FractionMasterEditionV2)).unwrap();
    let c = e.custody.expect("a custody transfer");
    assert_eq!(c.original_authority, w.records.metadata.update_authority);
    assert_eq!(c.new_authority, w.accounts.fraction_manager_info.key);
    assert_eq!(c.metadata_key, w.accounts.metadata_info.key);
    assert_eq!(c.lookup_key, w.accounts.original_authority_lookup_info.key);
    let (_, lookup_bump) = pda(&[b"metaplex", &w.records.fraction_manager.vault, &w.accounts.metadata_info.key], &w.program);
    assert_eq!(c.lookup_bump, lookup_bump);
    let (_, signer_bump) = pda(&[b"metaplex", &w.records.fraction_manager.vault], &w.program);
    assert_eq!(c.signer.bump, signer_bump);
    assert_eq!(c.signer.vault, w.records.fraction_manager.vault);
    assert_eq!(e.fraction_manager_state.status, FractionManagerStatus::Validated);
}

#[test]
fn token_box_plans_no_custody_transfer() {
    let w = world(0, 3, 0);
    let e = run(&w, &config(0, FractionWinningConfigType::FractionToken)).unwrap();
    assert!(e.custody.is_none());
    assert_eq!(e.fraction_manager_state.status, FractionManagerStatus::Initialized);
    assert_eq!(e.config.config, config(0, FractionWinningConfigType::FractionToken));
}

#[test]
fn config_address_rederives() {
    let w = world(0, 1, 0);
    let e = run(&w, &config(0, FractionWinningConfigType::FractionToken)).unwrap();
    let (k, b) = pda(&[b"metaplex", &w.program, &w.accounts.fraction_manager_info.key, &w.accounts.safety_deposit_info.key], &w.program);
    assert_eq!(e.config.key, k);
    assert_eq!(e.config.bump, b);
    assert_eq!(e.config.fraction_manager, w.accounts.fraction_manager_info.key);
}

#[test]
fn replay_is_rejected() {
    let mut w = world(0, 1, 0);
    let c = config(0, FractionWinningConfigType::FractionMasterEditionV2);
    assert!(run(&w, &c).is_ok());
    w.accounts.safety_deposit_config_info.data = vec![1; 42];
    assert_eq!(run(&w, &c).unwrap_err(), MetaplexError::AlreadyValidated);
}

#[test]
fn order_mismatch_is_rejected() {
    let w = world(0, 1, 0);
    let r = run(&w, &config(5, FractionWinningConfigType::FractionToken));
    assert_eq!(r.unwrap_err(), MetaplexError::SafetyDepositConfigOrderMismatch);
}

#[test]
fn public_sentinel_with_verified_creators_passes() {
    let w = world(0, 1, 0);
    assert_eq!(common(&w, &FractionWinningConfigType::FractionMasterEditionV2), Ok(()));
}

#[test]
fn unverified_creator_in_public_store_fails() {
    let mut w = world(0, 1, 0);
    w.records.metadata.creators = Some(vec![Creator { address: key(20), verified: false, share: 100 }]);
    assert_eq!(common(&w, &FractionWinningConfigType::FractionToken), Err(MetaplexError::InvalidWhitelistedCreator));
}

#[test]
fn whitelisted_creator_in_private_store_passes() {
    let w = world(0, 1, 0);
    let creator = key(20);
    let (slot, _) = pda(&[b"metaplex", &w.program, &w.accounts.fraction_manager_store_info.key, &creator], &w.program);
    let mut store = w.records.store;
    store.public = false;
    let entry = Some(WhitelistedCreator { address: creator, activated: true });
    let r = assert_at_least_one_creator_matches_or_store_public_and_all_verified(
        &w.program, &store, &w.accounts.fraction_manager_store_info.key, &w.records.metadata, &slot, &entry);
    assert_eq!(r, Ok(()));
    let inactive = Some(WhitelistedCreator { address: creator, activated: false });
    let r = assert_at_least_one_creator_matches_or_store_public_and_all_verified(
        &w.program, &store, &w.accounts.fraction_manager_store_info.key, &w.records.metadata, &slot, &inactive);
    assert_eq!(r, Err(MetaplexError::InvalidWhitelistedCreator));
    let r = assert_at_least_one_creator_matches_or_store_public_and_all_verified(
        &w.program, &store, &w.accounts.fraction_manager_store_info.key, &w.records.metadata, &key(77), &entry);
    assert_eq!(r, Err(MetaplexError::InvalidWhitelistedCreator));
}

#[test]
fn mint_owned_by_other_program_fails_before_writes() {
    let mut w = world(0, 1, 0);
    w.accounts.mint_info.owner = key(99);
    assert_eq!(run(&w, &config(0, FractionWinningConfigType::FractionToken)).unwrap_err(), MetaplexError::IncorrectOwner);
}

#[test]
fn each_check_has_its_error() {
    let c = config(0, FractionWinningConfigType::FractionMasterEditionV2);
    let mut w = world(0, 1, 0);
    w.records.vault.authority = key(50);
    assert_eq!(run(&w, &c).unwrap_err(), MetaplexError::VaultAuthorityMismatch);
    let mut w = world(0, 1, 0);
    w.accounts.mint_info.data = mint_bytes(false);
    assert_eq!(run(&w, &c).unwrap_err(), MetaplexError::Uninitialized);
    let mut w = world(0, 1, 0);
    w.accounts.mint_info.data = vec![1, 2, 3];
    assert_eq!(run(&w, &c).unwrap_err(), MetaplexError::InvalidAccountData);
    let mut w = world(0, 1, 0);
    w.accounts.original_authority_lookup_info.data = vec![1];
    assert_eq!(run(&w, &c).unwrap_err(), MetaplexError::AlreadyInitialized);
    let mut w = world(0, 1, 0);
    w.accounts.whitelisted_creator_info.key = key(60);
    assert_eq!(run(&w, &c).unwrap_err(), MetaplexError::Uninitialized);
    let mut w = world(0, 1, 0);
    w.accounts.token_metadata_program_info.key = key(61);
    assert_eq!(run(&w, &c).unwrap_err(), MetaplexError::FractionManagerTokenMetadataMismatch);
    let mut w = world(0, 1, 0);
    w.accounts.authority_info.key = key(62);
    assert_eq!(run(&w, &c).unwrap_err(), MetaplexError::FractionManagerAuthorityMismatch);
    let mut w = world(0, 1, 0);
    w.accounts.authority_info.is_signer = false;
    assert_eq!(run(&w, &c).unwrap_err(), MetaplexError::FractionManagerAuthorityIsNotSigner);
    let mut w = world(0, 1, 0);
    w.records.fraction_manager.vault = key(63);
    assert_eq!(run(&w, &c).unwrap_err(), MetaplexError::FractionManagerVaultMismatch);
    let mut w = world(0, 1, 0);
    w.accounts.safety_deposit_info.key = key(64);
    assert_eq!(run(&w, &c).unwrap_err(), MetaplexError::DerivedKeyInvalid);
    let mut w = world(0, 1, 0);
    w.records.safety_deposit.vault = key(65);
    assert_eq!(run(&w, &c).unwrap_err(), MetaplexError::SafetyDepositBoxVaultMismatch);
    let mut w = world(0, 1, 0);
    w.records.fraction_manager.store = key(66);
    assert_eq!(run(&w, &c).unwrap_err(), MetaplexError::FractionManagerStoreMismatch);
    let mut w = world(0, 1, 0);
    w.records.safety_deposit.token_mint = key(67);
    assert_eq!(run(&w, &c).unwrap_err(), MetaplexError::DerivedKeyInvalid);
}

#[test]
fn each_supply_check_has_its_error() {
    let c = config(0, FractionWinningConfigType::FractionMasterEditionV2);
    let mut w = world(0, 1, 0);
    w.accounts.metadata_authority_info.key = key(70);
    assert_eq!(run(&w, &c).unwrap_err(), MetaplexError::UpdateAuthorityIncorrect);
    let mut w = world(0, 1, 0);
    w.accounts.metadata_authority_info.is_signer = false;
    assert_eq!(run(&w, &c).unwrap_err(), MetaplexError::UpdateAuthorityIsNotSigner);
    let mut w = world(0, 1, 0);
    w.records.metadata.mint = key(71);
    assert_eq!(run(&w, &c).unwrap_err(), MetaplexError::SafetyDepositBoxMetadataMismatch);
    assert_eq!(run(&w, &config(0, FractionWinningConfigType::FractionToken)).unwrap_err(), MetaplexError::SafetyDepositBoxMetadataMismatch);
    let mut w = world(0, 1, 0);
    w.accounts.edition_info.key = key(72);
    assert_eq!(run(&w, &c).unwrap_err(), MetaplexError::InvalidEditionAddress);
    let mut w = world(0, 1, 0);
    w.accounts.safety_deposit_token_store_info.data = token_account_bytes(w.records.metadata.mint, 0);
    assert_eq!(run(&w, &c).unwrap_err(), MetaplexError::StoreIsEmpty);
    let mut w = world(0, 1, 0);
    w.accounts.original_authority_lookup_info.key = key(73);
    assert_eq!(run(&w, &c).unwrap_err(), MetaplexError::FractionOriginalAuthorityLookupKeyMismatch);
    let mut w = world(0, 1, 0);
    w.accounts.safety_deposit_token_store_info.data = vec![0; 10];
    assert_eq!(run(&w, &c).unwrap_err(), MetaplexError::InvalidAccountData);
    let mut w = world(0, 1, 0);
    w.records.fraction_manager.state.safety_config_items_validated = u64::MAX;
    assert_eq!(run(&w, &c).unwrap_err(), MetaplexError::NumericalOverflowError);
}

#[test]
fn edition_ownership_is_checked_only_for_editions() {
    let mut w = world(0, 1, 0);
    w.accounts.edition_info.owner = key(80);
    assert_eq!(common(&w, &FractionWinningConfigType::FractionMasterEditionV2), Err(MetaplexError::IncorrectOwner));
    assert_eq!(common(&w, &FractionWinningConfigType::FractionToken), Ok(()));
}

#[test]
fn progress_counts_and_validates_at_declared_count() {
    let s0 = FractionManagerState { status: FractionManagerStatus::Initialized, safety_config_items_validated: 0 };
    let s1 = advance_progress(s0, 2).unwrap();
    assert_eq!(s1, FractionManagerState { status: FractionManagerStatus::Initialized, safety_config_items_validated: 1 });
    let s2 = advance_progress(s1, 2).unwrap();
    assert_eq!(s2, FractionManagerState { status: FractionManagerStatus::Validated, safety_config_items_validated: 2 });
    let s3 = advance_progress(s2, 2).unwrap();
    assert_eq!(s3.status, FractionManagerStatus::Validated);
    let full = FractionManagerState { status: FractionManagerStatus::Initialized, safety_config_items_validated: u64::MAX };
    assert_eq!(advance_progress(full, 2), Err(MetaplexError::NumericalOverflowError));
}

#[test]
fn config_at_wrong_address_is_rejected() {
    let w = world(0, 1, 0);
    let mut slot = w.accounts.safety_deposit_config_info.clone();
    slot.key = key(81);
    let r = make_fraction_safety_deposit_config(&w.program, &w.accounts.fraction_manager_info, &w.accounts.safety_deposit_info, &slot, &config(0, FractionWinningConfigType::FractionToken));
    assert_eq!(r.unwrap_err(), MetaplexError::DerivedKeyInvalid);
}

#[test]
fn address_helpers() {
    assert_eq!(address_seed(&key(5)), key(5).to_vec());
    assert!(same_address(&key(5), &key(5)));
    assert!(!same_address(&key(5), &key(6)));
    assert_eq!(system_program(), [0u8; 32]);
}
