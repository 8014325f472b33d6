use vstd::prelude::*;
use crate::address::Address;
use spl_token::solana_program::program_pack::{IsInitialized, Pack};

verus! {

/// Every way validation can fail.
#[derive(Clone, Copy, Debug, PartialEq, Eq, Structural)]
pub enum MetaplexError {
    AlreadyValidated,
    AlreadyInitialized,
    Uninitialized,
    InvalidAccountData,
    IncorrectOwner,
    VaultAuthorityMismatch,
    FractionManagerTokenMetadataMismatch,
    FractionManagerTokenMetadataProgramMismatch,
    FractionManagerAuthorityMismatch,
    FractionManagerAuthorityIsNotSigner,
    FractionManagerVaultMismatch,
    DerivedKeyInvalid,
    SafetyDepositBoxVaultMismatch,
    InvalidWhitelistedCreator,
    FractionManagerStoreMismatch,
    SafetyDepositBoxMintMismatch,
    TokenProgramMismatch,
    UpdateAuthorityIncorrect,
    UpdateAuthorityIsNotSigner,
    SafetyDepositBoxMetadataMismatch,
    InvalidEditionAddress,
    StoreIsEmpty,
    FractionOriginalAuthorityLookupKeyMismatch,
    AddressNotFound,
    SafetyDepositConfigOrderMismatch,
    NumericalOverflowError,
}

/// An account as the runtime hands it over: its key, its owning program,
/// its bytes and whether it signed.
#[derive(Clone, Debug)]
pub struct AccountView {
    pub key: Address,
    pub owner: Address,
    pub data: Vec<u8>,
    pub is_signer: bool,
}

impl AccountView {
    pub open spec fn is_empty_spec(&self) -> bool {
        self.data@.len() == 0
    }

    pub fn data_is_empty(&self) -> (r: bool)
        ensures
            r == self.is_empty_spec(),
    {
        self.data.len() == 0
    }
}

#[derive(Clone, Copy, Debug, PartialEq, Eq, Structural)]
pub enum FractionManagerStatus {
    Initialized,
    Validated,
}

/// The campaign's progress.
#[derive(Clone, Copy, Debug, PartialEq, Eq, Structural)]
pub struct FractionManagerState {
    pub status: FractionManagerStatus,
    pub safety_config_items_validated: u64,
}

/// One fractionalization campaign.
#[derive(Clone, Copy, Debug)]
pub struct FractionManager {
    pub authority: Address,
    pub vault: Address,
    pub store: Address,
    pub state: FractionManagerState,
}

/// The deposit vault: its authority and how many boxes it declares.
#[derive(Clone, Copy, Debug)]
pub struct Vault {
    pub authority: Address,
    pub token_type_count: u8,
}

/// One slot of the vault.
#[derive(Clone, Copy, Debug)]
pub struct SafetyDepositBox {
    pub vault: Address,
    pub token_mint: Address,
    pub order: u8,
}

#[derive(Clone, Copy, Debug)]
pub struct Creator {
    pub address: Address,
    pub verified: bool,
    pub share: u8,
}

/// The descriptor of the deposited asset.
#[derive(Clone, Debug)]
pub struct Metadata {
    pub update_authority: Address,
    pub mint: Address,
    pub creators: Option<Vec<Creator>>,
}

impl Metadata {
    /// The listed creators, none where the list is absent.
    pub open spec fn creator_list(&self) -> Seq<Creator> {
        match self.creators {
            Some(v) => v@,
            None => Seq::empty(),
        }
    }
}

/// The registry: the programs it trusts and whether anyone may list.
#[derive(Clone, Copy, Debug)]
pub struct Store {
    pub public: bool,
    pub token_program: Address,
    pub token_vault_program: Address,
    pub token_metadata_program: Address,
}

/// An approved creator entry of the registry.
#[derive(Clone, Copy, Debug)]
pub struct WhitelistedCreator {
    pub address: Address,
    pub activated: bool,
}

/// The asset class of a box.
#[derive(Clone, Copy, Debug, PartialEq, Eq, Structural)]
pub enum FractionWinningConfigType {
    FractionMasterEditionV2,
    FractionToken,
}

/// The validation outcome recorded for one box.
#[derive(Clone, Copy, Debug, PartialEq, Eq, Structural)]
pub struct FractionSafetyDepositConfig {
    pub order: u64,
    pub fraction_winning_config_type: FractionWinningConfigType,
}

/// What the token program's mint layout decodes to: `Some(is_initialized)`,
/// or nothing where the bytes are no mint.
pub uninterp spec fn mint_state(data: Seq<u8>) -> Option<bool>;

/// What the token program's account layout decodes to:
/// `Some((is_initialized, amount))`, or nothing where the bytes are no account.
pub uninterp spec fn token_account_state(data: Seq<u8>) -> Option<(bool, u64)>;

/// Relies on spl-token's `Mint::unpack_unchecked`: decodes exactly 82 bytes.
#[verifier::external_body]
fn unpack_mint(data: &Vec<u8>) -> (r: Option<bool>)
    ensures
        r == mint_state(data@),
        r is Some ==> data@.len() == 82,
{
    spl_token::state::Mint::unpack_unchecked(data).ok().map(|m| m.is_initialized())
}

/// Relies on spl-token's `Account::unpack_unchecked`: decodes exactly 165
/// bytes.
#[verifier::external_body]
fn unpack_token_account(data: &Vec<u8>) -> (r: Option<(bool, u64)>)
    ensures
        r == token_account_state(data@),
        r is Some ==> data@.len() == 165,
{
    spl_token::state::Account::unpack_unchecked(data).ok().map(|a| (a.is_initialized(), a.amount))
}

/// What loading an initialized mint from `data` gives.
pub open spec fn mint_check(data: Seq<u8>) -> Result<(), MetaplexError> {
    match mint_state(data) {
        None => Err(MetaplexError::InvalidAccountData),
        Some(false) => Err(MetaplexError::Uninitialized),
        Some(true) => Ok(()),
    }
}

/// What loading an initialized token account from `data` gives: its amount.
pub open spec fn token_account_check(data: Seq<u8>) -> Result<u64, MetaplexError> {
    match token_account_state(data) {
        None => Err(MetaplexError::InvalidAccountData),
        Some((false, _)) => Err(MetaplexError::Uninitialized),
        Some((true, amount)) => Ok(amount),
    }
}

/// Checks that the account holds an initialized mint.
pub fn assert_mint_initialized(info: &AccountView) -> (r: Result<(), MetaplexError>)
    ensures
        r == mint_check(info.data@),
{
    match unpack_mint(&info.data) {
        None => Err(MetaplexError::InvalidAccountData),
        Some(false) => Err(MetaplexError::Uninitialized),
        Some(true) => Ok(()),
    }
}

/// Checks that the account holds an initialized token account and gives its
/// amount.
pub fn assert_token_account_initialized(info: &AccountView) -> (r: Result<u64, MetaplexError>)
    ensures
        r == token_account_check(info.data@),
{
    match unpack_token_account(&info.data) {
        None => Err(MetaplexError::InvalidAccountData),
        Some((false, _)) => Err(MetaplexError::Uninitialized),
        Some((true, amount)) => Ok(amount),
    }
}

/// Ownership check of one account.
pub open spec fn owned_by(info: AccountView, owner: Seq<u8>) -> bool {
    info.owner@ == owner
}

} // verus!
