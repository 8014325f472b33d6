use vstd::prelude::*;
use crate::address::{
    address_seed, assert_derivation, derivation_check, derived_address, prefix_seed, prefix_spec,
    seeds_view, Address,
};
use crate::checks::{
    assert_common_checks, assert_supply_logic_check, common_check_outcome, lookup_seeds,
    supply_outcome, CommonCheckArgs, CustodyTransfer, SupplyLogicCheckArgs,
};
use crate::records::{
    AccountView, FractionManager, FractionManagerState, FractionManagerStatus,
    FractionSafetyDepositConfig, FractionWinningConfigType, Metadata, MetaplexError,
    SafetyDepositBox, Store, Vault, WhitelistedCreator,
};

verus! {

/// The accounts of one validation, in the order the caller lists them.
pub struct ValidateAccounts {
    pub safety_deposit_config_info: AccountView,
    pub fraction_manager_info: AccountView,
    pub metadata_info: AccountView,
    pub original_authority_lookup_info: AccountView,
    pub whitelisted_creator_info: AccountView,
    pub fraction_manager_store_info: AccountView,
    pub safety_deposit_info: AccountView,
    pub safety_deposit_token_store_info: AccountView,
    pub mint_info: AccountView,
    pub edition_info: AccountView,
    pub vault_info: AccountView,
    pub authority_info: AccountView,
    pub metadata_authority_info: AccountView,
    pub token_metadata_program_info: AccountView,
}

/// The records decoded from those accounts.
pub struct ValidateRecords {
    pub fraction_manager: FractionManager,
    pub safety_deposit: SafetyDepositBox,
    pub metadata: Metadata,
    pub store: Store,
    pub vault: Vault,
    pub whitelisted_creator: Option<WhitelistedCreator>,
}

/// The config record to create for the box, at its derived address.
#[derive(Clone, Copy, Debug)]
pub struct ConfigCreation {
    pub key: Address,
    pub bump: u8,
    pub fraction_manager: Address,
    pub config: FractionSafetyDepositConfig,
}

/// Everything a successful validation writes: the campaign's new progress,
/// the box's config record, and for a unique-edition box the custody
/// transfer. A failed validation writes nothing.
#[derive(Clone, Copy, Debug)]
pub struct ValidationEffects {
    pub fraction_manager_state: FractionManagerState,
    pub config: ConfigCreation,
    pub custody: Option<CustodyTransfer>,
}

/// One more validated box: the counter grows by one, and the status turns
/// `Validated` when it reaches the declared box count. Nothing where the
/// counter cannot grow.
pub open spec fn advance_spec(state: FractionManagerState, token_type_count: u8) -> Option<FractionManagerState> {
    if state.safety_config_items_validated == u64::MAX {
        None
    } else {
        let c = (state.safety_config_items_validated + 1) as u64;
        Some(FractionManagerState {
            status: if c == token_type_count as u64 { FractionManagerStatus::Validated } else { state.status },
            safety_config_items_validated: c,
        })
    }
}

/// Counts one more validated box.
pub fn advance_progress(state: FractionManagerState, token_type_count: u8) -> (r: Result<FractionManagerState, MetaplexError>)
    ensures
        match advance_spec(state, token_type_count) {
            Some(s) => r == Ok::<FractionManagerState, MetaplexError>(s),
            None => r == Err::<FractionManagerState, MetaplexError>(MetaplexError::NumericalOverflowError),
        },
{
    if state.safety_config_items_validated == u64::MAX {
        return Err(MetaplexError::NumericalOverflowError);
    }
    let c = state.safety_config_items_validated + 1;
    let status = if c == token_type_count as u64 { FractionManagerStatus::Validated } else { state.status };
    Ok(FractionManagerState { status, safety_config_items_validated: c })
}

/// The seeds of a box's config record.
pub open spec fn config_seeds(program: Seq<u8>, manager: Seq<u8>, safety_deposit: Seq<u8>) -> Seq<Seq<u8>> {
    seq![prefix_spec(), program, manager, safety_deposit]
}

/// What creating the config record amounts to: its address must be the
/// derived one.
pub open spec fn config_outcome(
    program: Seq<u8>,
    manager_key: Address,
    box_key: Address,
    config_key: Address,
    config: FractionSafetyDepositConfig,
) -> Result<ConfigCreation, MetaplexError> {
    match derivation_check(config_seeds(program, manager_key@, box_key@), program, config_key@) {
        None => Err(MetaplexError::DerivedKeyInvalid),
        Some(bump) => Ok(ConfigCreation { key: config_key, bump, fraction_manager: manager_key, config }),
    }
}

/// Checks the config record's address against its seeds and describes the
/// record to create there.
pub fn make_fraction_safety_deposit_config(
    program_id: &Address,
    fraction_manager_info: &AccountView,
    safety_deposit_info: &AccountView,
    safety_deposit_config_info: &AccountView,
    safety_deposit_config: &FractionSafetyDepositConfig,
) -> (r: Result<ConfigCreation, MetaplexError>)
    ensures
        r == config_outcome(program_id@, fraction_manager_info.key, safety_deposit_info.key, safety_deposit_config_info.key, *safety_deposit_config),
{
    let mut seeds: Vec<Vec<u8>> = Vec::new();
    seeds.push(prefix_seed());
    seeds.push(address_seed(program_id));
    seeds.push(address_seed(&fraction_manager_info.key));
    seeds.push(address_seed(&safety_deposit_info.key));
    assert(seeds_view(seeds@) =~= config_seeds(program_id@, fraction_manager_info.key@, safety_deposit_info.key@));
    match assert_derivation(program_id, &safety_deposit_config_info.key, &seeds) {
        None => Err(MetaplexError::DerivedKeyInvalid),
        Some(bump) => Ok(ConfigCreation {
            key: safety_deposit_config_info.key,
            bump,
            fraction_manager: fraction_manager_info.key,
            config: *safety_deposit_config,
        }),
    }
}

pub open spec fn common_args<'a>(
    program_id: &'a Address,
    a: &'a ValidateAccounts,
    r: &'a ValidateRecords,
    ty: &'a FractionWinningConfigType,
) -> CommonCheckArgs<'a> {
    CommonCheckArgs {
        program_id,
        fraction_manager_info: &a.fraction_manager_info,
        metadata_info: &a.metadata_info,
        original_authority_lookup_info: &a.original_authority_lookup_info,
        whitelisted_creator_info: &a.whitelisted_creator_info,
        safety_deposit_info: &a.safety_deposit_info,
        safety_deposit_token_store_info: &a.safety_deposit_token_store_info,
        edition_info: &a.edition_info,
        vault_info: &a.vault_info,
        mint_info: &a.mint_info,
        token_metadata_program_info: &a.token_metadata_program_info,
        fraction_manager_store_info: &a.fraction_manager_store_info,
        authority_info: &a.authority_info,
        store: &r.store,
        fraction_manager: &r.fraction_manager,
        metadata: &r.metadata,
        safety_deposit: &r.safety_deposit,
        vault: &r.vault,
        whitelisted_creator: &r.whitelisted_creator,
        winning_config_type: ty,
    }
}

pub open spec fn supply_args<'a>(
    program_id: &'a Address,
    a: &'a ValidateAccounts,
    r: &'a ValidateRecords,
    ty: &'a FractionWinningConfigType,
) -> SupplyLogicCheckArgs<'a> {
    SupplyLogicCheckArgs {
        program_id,
        fraction_manager_info: &a.fraction_manager_info,
        metadata_info: &a.metadata_info,
        edition_info: &a.edition_info,
        metadata_authority_info: &a.metadata_authority_info,
        original_authority_lookup_info: &a.original_authority_lookup_info,
        safety_deposit_token_store_info: &a.safety_deposit_token_store_info,
        fraction_manager: &r.fraction_manager,
        winning_config_type: ty,
        metadata: &r.metadata,
        safety_deposit: &r.safety_deposit,
        store: &r.store,
    }
}

/// The outcome of validating one box: the replay guard, the common checks,
/// the supply logic, the order check, the progress step and the config
/// record, each failing with its first violation.
pub open spec fn validate_outcome(
    program_id: &Address,
    a: &ValidateAccounts,
    r: &ValidateRecords,
    config: &FractionSafetyDepositConfig,
) -> Result<ValidationEffects, MetaplexError> {
    let ty = &config.fraction_winning_config_type;
    if !a.safety_deposit_config_info.is_empty_spec() {
        Err(MetaplexError::AlreadyValidated)
    } else {
        match common_check_outcome(common_args(program_id, a, r, ty)) {
            Err(e) => Err(e),
            Ok(_) => match supply_outcome(supply_args(program_id, a, r, ty)) {
                Err(e) => Err(e),
                Ok(custody) => if config.order != r.safety_deposit.order as u64 {
                    Err(MetaplexError::SafetyDepositConfigOrderMismatch)
                } else {
                    match advance_spec(r.fraction_manager.state, r.vault.token_type_count) {
                        None => Err(MetaplexError::NumericalOverflowError),
                        Some(st) => match config_outcome(program_id@, a.fraction_manager_info.key, a.safety_deposit_info.key, a.safety_deposit_config_info.key, *config) {
                            Err(e) => Err(e),
                            Ok(c) => Ok(ValidationEffects { fraction_manager_state: st, config: c, custody }),
                        },
                    }
                },
            },
        }
    }
}

/// Validates one safety deposit box and describes every write that follows:
/// nothing is written unless all checks pass.
pub fn process_validate_fraction_safety_deposit_box(
    program_id: &Address,
    accounts: &ValidateAccounts,
    records: &ValidateRecords,
    safety_deposit_config: &FractionSafetyDepositConfig,
) -> (r: Result<ValidationEffects, MetaplexError>)
    ensures
        r == validate_outcome(program_id, accounts, records, safety_deposit_config),
        !accounts.safety_deposit_config_info.is_empty_spec() ==> r == Err::<ValidationEffects, MetaplexError>(MetaplexError::AlreadyValidated),
        r is Ok ==> safety_deposit_config.order == records.safety_deposit.order as u64,
        match r {
            Ok(e) => {
                &&& Some(e.fraction_manager_state) == advance_spec(records.fraction_manager.state, records.vault.token_type_count)
                &&& derived_address(config_seeds(program_id@, accounts.fraction_manager_info.key@, accounts.safety_deposit_info.key@), program_id@)
                    == Some((e.config.key@, e.config.bump))
                &&& e.config.key == accounts.safety_deposit_config_info.key
                &&& e.config.config == *safety_deposit_config
                &&& match safety_deposit_config.fraction_winning_config_type {
                    FractionWinningConfigType::FractionMasterEditionV2 => match e.custody {
                        Some(c) => {
                            &&& c.original_authority == accounts.metadata_authority_info.key
                            &&& c.original_authority@ == records.metadata.update_authority@
                            &&& c.new_authority == accounts.fraction_manager_info.key
                            &&& c.metadata_key == accounts.metadata_info.key
                            &&& c.lookup_key == accounts.original_authority_lookup_info.key
                            &&& derived_address(lookup_seeds(records.fraction_manager.vault@, c.metadata_key@), program_id@)
                                == Some((c.lookup_key@, c.lookup_bump))
                        },
                        None => false,
                    },
                    FractionWinningConfigType::FractionToken => e.custody is None,
                }
            },
            Err(_) => true,
        },
{
    if !accounts.safety_deposit_config_info.data_is_empty() {
        return Err(MetaplexError::AlreadyValidated);
    }
    let ty = &safety_deposit_config.fraction_winning_config_type;
    let common = CommonCheckArgs {
        program_id,
        fraction_manager_info: &accounts.fraction_manager_info,
        metadata_info: &accounts.metadata_info,
        original_authority_lookup_info: &accounts.original_authority_lookup_info,
        whitelisted_creator_info: &accounts.whitelisted_creator_info,
        safety_deposit_info: &accounts.safety_deposit_info,
        safety_deposit_token_store_info: &accounts.safety_deposit_token_store_info,
        edition_info: &accounts.edition_info,
        vault_info: &accounts.vault_info,
        mint_info: &accounts.mint_info,
        token_metadata_program_info: &accounts.token_metadata_program_info,
        fraction_manager_store_info: &accounts.fraction_manager_store_info,
        authority_info: &accounts.authority_info,
        store: &records.store,
        fraction_manager: &records.fraction_manager,
        metadata: &records.metadata,
        safety_deposit: &records.safety_deposit,
        vault: &records.vault,
        whitelisted_creator: &records.whitelisted_creator,
        winning_config_type: ty,
    };
    assert(common == common_args(program_id, accounts, records, ty));
    if let Err(e) = assert_common_checks(&common) {
        return Err(e);
    }
    let supply = SupplyLogicCheckArgs {
        program_id,
        fraction_manager_info: &accounts.fraction_manager_info,
        metadata_info: &accounts.metadata_info,
        edition_info: &accounts.edition_info,
        metadata_authority_info: &accounts.metadata_authority_info,
        original_authority_lookup_info: &accounts.original_authority_lookup_info,
        safety_deposit_token_store_info: &accounts.safety_deposit_token_store_info,
        fraction_manager: &records.fraction_manager,
        winning_config_type: ty,
        metadata: &records.metadata,
        safety_deposit: &records.safety_deposit,
        store: &records.store,
    };
    assert(supply == supply_args(program_id, accounts, records, ty));
    let custody = match assert_supply_logic_check(&supply) {
        Err(e) => return Err(e),
        Ok(c) => c,
    };
    if safety_deposit_config.order != records.safety_deposit.order as u64 {
        return Err(MetaplexError::SafetyDepositConfigOrderMismatch);
    }
    let state = match advance_progress(records.fraction_manager.state, records.vault.token_type_count) {
        Err(e) => return Err(e),
        Ok(st) => st,
    };
    let config = match make_fraction_safety_deposit_config(
        program_id,
        &accounts.fraction_manager_info,
        &accounts.safety_deposit_info,
        &accounts.safety_deposit_config_info,
        safety_deposit_config,
    ) {
        Err(e) => return Err(e),
        Ok(c) => c,
    };
    Ok(ValidationEffects { fraction_manager_state: state, config, custody })
}

} // verus!
