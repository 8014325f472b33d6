use vstd::prelude::*;
use crate::address::{derived_address, Address};
use crate::checks::{common_check_outcome, lookup_seeds, supply_outcome};
use crate::process::{
    advance_spec, common_args, config_seeds, supply_args, validate_outcome, ValidateAccounts,
    ValidateRecords,
};
use crate::records::{
    FractionManagerState, FractionManagerStatus, FractionSafetyDepositConfig, MetaplexError,
};

verus! {

/// The campaign's progress after `k` validated boxes, starting from `state`.
pub open spec fn progress_after(state: FractionManagerState, token_type_count: u8, k: nat) -> Option<FractionManagerState>
    decreases k,
{
    if k == 0 {
        Some(state)
    } else {
        match progress_after(state, token_type_count, (k - 1) as nat) {
            Some(s) => advance_spec(s, token_type_count),
            None => None,
        }
    }
}

pub open spec fn fresh_campaign() -> FractionManagerState {
    FractionManagerState { status: FractionManagerStatus::Initialized, safety_config_items_validated: 0 }
}

/// A box that was validated has its config record: validating it again
/// fails with the replay error, so the second attempt writes nothing.
pub proof fn lemma_second_validation_rejected(
    program_id: &Address,
    first: &ValidateAccounts,
    second: &ValidateAccounts,
    records: &ValidateRecords,
    config: &FractionSafetyDepositConfig,
)
    requires
        validate_outcome(program_id, first, records, config) is Ok,
        second.safety_deposit_config_info.key == first.safety_deposit_config_info.key,
        !second.safety_deposit_config_info.is_empty_spec(),
    ensures
        validate_outcome(program_id, second, records, config)
            == Err::<crate::process::ValidationEffects, MetaplexError>(MetaplexError::AlreadyValidated),
{
}

/// In a campaign of `n` declared boxes, after `k <= n` boxes were validated,
/// in whatever order, the counter is `k` and the status is `Validated`
/// exactly when `k == n`.
pub proof fn lemma_validated_iff_all_boxes(n: u8, k: nat)
    requires
        0 < n,
        k <= n,
    ensures
        progress_after(fresh_campaign(), n, k) == Some(FractionManagerState {
            status: if k == n { FractionManagerStatus::Validated } else { FractionManagerStatus::Initialized },
            safety_config_items_validated: k as u64,
        }),
    decreases k,
{
    if k > 0 {
        lemma_validated_iff_all_boxes(n, (k - 1) as nat);
    }
}

/// Once the common checks and the supply logic pass on an unused config
/// slot, a box whose order differs from the declared one fails with the
/// order error.
pub proof fn lemma_order_mismatch_rejected(
    program_id: &Address,
    a: &ValidateAccounts,
    r: &ValidateRecords,
    config: &FractionSafetyDepositConfig,
)
    requires
        a.safety_deposit_config_info.is_empty_spec(),
        common_check_outcome(common_args(program_id, a, r, &config.fraction_winning_config_type)) is Ok,
        supply_outcome(supply_args(program_id, a, r, &config.fraction_winning_config_type)) is Ok,
        config.order != r.safety_deposit.order as u64,
    ensures
        validate_outcome(program_id, a, r, config)
            == Err::<crate::process::ValidationEffects, MetaplexError>(MetaplexError::SafetyDepositConfigOrderMismatch),
{
}

/// The addresses a validation accepts, the config record's and the lookup
/// record's, are the ones their seeds derive to.
pub proof fn lemma_accepted_addresses_rederive(
    program_id: &Address,
    a: &ValidateAccounts,
    r: &ValidateRecords,
    config: &FractionSafetyDepositConfig,
)
    requires
        validate_outcome(program_id, a, r, config) is Ok,
    ensures
        ({
            let e = validate_outcome(program_id, a, r, config)->Ok_0;
            &&& derived_address(config_seeds(program_id@, a.fraction_manager_info.key@, a.safety_deposit_info.key@), program_id@)
                == Some((e.config.key@, e.config.bump))
            &&& e.config.key == a.safety_deposit_config_info.key
            &&& (e.custody matches Some(c) ==> {
                &&& derived_address(lookup_seeds(r.fraction_manager.vault@, a.metadata_info.key@), program_id@)
                    == Some((c.lookup_key@, c.lookup_bump))
                &&& c.lookup_key == a.original_authority_lookup_info.key
            })
        }),
{
}

} // verus!
