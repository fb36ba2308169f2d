//! The error kinds an entry point can abort with.
//!
//! Every error is fatal to the current invocation; the host reports it as a
//! `u16` user-error code. The numeric codes are part of the wire-level
//! contract, so [`Cep18Error::code`] pins each variant to its number.

use vstd::prelude::*;

verus! {

/// Errors that the contract can abort an invocation with.
#[derive(Clone, Copy, PartialEq, Eq, Structural, Debug)]
pub enum Cep18Error {
    /// Called from within an invalid context.
    InvalidContext,
    /// Sender does not have enough balance.
    InsufficientBalance,
    /// Spender does not have enough allowance approved.
    InsufficientAllowance,
    /// Operation would cause an integer overflow.
    Overflow,
    /// A required package hash was not specified.
    PackageHashMissing,
    /// The package hash specified does not represent a package.
    PackageHashNotPackage,
    /// An invalid events mode was specified.
    InvalidEventsMode,
    /// The events mode required was not specified.
    MissingEventsMode,
    /// An unknown error occurred.
    Phantom,
    /// Failed to read the runtime arguments provided.
    FailedToGetArgBytes,
    /// The caller does not have sufficient security access.
    InsufficientRights,
    /// The list of Admin accounts provided is invalid.
    InvalidAdminList,
    /// The list of accounts that can mint tokens is invalid.
    InvalidMinterList,
    /// The list of accounts with no access rights is invalid.
    InvalidNoneList,
    /// The flag to enable the mint and burn mode is invalid.
    InvalidEnableMBFlag,
    /// This contract instance cannot be initialized again.
    AlreadyInitialized,
    /// The mint and burn mode is disabled.
    MintBurnDisabled,
    /// A transfer or approval that targets the caller itself.
    CannotTargetSelfUser,
    /// Only the owner of a balance may burn from it.
    InvalidBurnTarget,
    /// A package hash was missing during an upgrade.
    MissingPackageHashForUpgrade,
    /// A contract hash was missing during an upgrade.
    MissingContractHashForUpgrade,
    /// A key had a shape that no address rule covers.
    InvalidKeyType,
    /// Key shapes disagreed during a legacy-key migration.
    KeyTypeMigrationMismatch,
    /// The host refused an emitted message.
    FailedToWriteMessage,
    /// The entry-point result could not be returned.
    FailedToReturnEntryPointResult,
    /// The immediate caller could not be resolved.
    FailedToRetrieveImmediateCaller,
    /// A dictionary could not be created.
    FailedToCreateDictionary,
    /// A dictionary write failed.
    FailedToWriteToDictionary,
    /// A value could not be serialized.
    FailedToConvertBytes,
    /// A balance update failed.
    FailedToChangeBalance,
    /// An allowance update failed.
    FailedToChangeAllowance,
    /// A total-supply update failed.
    FailedToChangeTotalSupply,
    /// A dictionary read failed.
    FailedToGetDictionaryValue,
    /// A named-cell read failed.
    FailedToReadFromStorage,
    /// A named key was missing.
    FailedToGetKey,
    /// A contract version could not be disabled.
    FailedToDisableContractVersion,
    /// A security-list entry could not be written.
    FailedToInsertToSecurityList,
    /// A named cell held no value.
    UrefNotFound,
    /// An invalid legacy-key-compatibility mode was specified.
    InvalidLegacyKeyCompat,
    /// The pre-migration package key was missing.
    FailedToGetOldPackageKey,
    /// The package key was missing.
    FailedToGetPackageKey,
    /// The pre-migration contract-hash key was missing.
    FailedToGetOldContractHashKey,
}

impl Cep18Error {
    /// The `u16` user-error code of this error, as observed by callers.
    pub open spec fn code_spec(self) -> u16 {
        match self {
            Cep18Error::InvalidContext => 60000u16,
            Cep18Error::InsufficientBalance => 60001u16,
            Cep18Error::InsufficientAllowance => 60002u16,
            Cep18Error::Overflow => 60003u16,
            Cep18Error::PackageHashMissing => 60004u16,
            Cep18Error::PackageHashNotPackage => 60005u16,
            Cep18Error::InvalidEventsMode => 60006u16,
            Cep18Error::MissingEventsMode => 60007u16,
            Cep18Error::Phantom => 60008u16,
            Cep18Error::FailedToGetArgBytes => 60009u16,
            Cep18Error::InsufficientRights => 60010u16,
            Cep18Error::InvalidAdminList => 60011u16,
            Cep18Error::InvalidMinterList => 60012u16,
            Cep18Error::InvalidNoneList => 60013u16,
            Cep18Error::InvalidEnableMBFlag => 60014u16,
            Cep18Error::AlreadyInitialized => 60015u16,
            Cep18Error::MintBurnDisabled => 60016u16,
            Cep18Error::CannotTargetSelfUser => 60017u16,
            Cep18Error::InvalidBurnTarget => 60018u16,
            Cep18Error::MissingPackageHashForUpgrade => 60019u16,
            Cep18Error::MissingContractHashForUpgrade => 60020u16,
            Cep18Error::InvalidKeyType => 60021u16,
            Cep18Error::KeyTypeMigrationMismatch => 60022u16,
            Cep18Error::FailedToWriteMessage => 60023u16,
            Cep18Error::FailedToReturnEntryPointResult => 60024u16,
            Cep18Error::FailedToRetrieveImmediateCaller => 60025u16,
            Cep18Error::FailedToCreateDictionary => 60026u16,
            Cep18Error::FailedToWriteToDictionary => 60027u16,
            Cep18Error::FailedToConvertBytes => 60028u16,
            Cep18Error::FailedToChangeBalance => 60029u16,
            Cep18Error::FailedToChangeAllowance => 60030u16,
            Cep18Error::FailedToChangeTotalSupply => 60031u16,
            Cep18Error::FailedToGetDictionaryValue => 60032u16,
            Cep18Error::FailedToReadFromStorage => 60033u16,
            Cep18Error::FailedToGetKey => 60034u16,
            Cep18Error::FailedToDisableContractVersion => 60035u16,
            Cep18Error::FailedToInsertToSecurityList => 60036u16,
            Cep18Error::UrefNotFound => 60037u16,
            Cep18Error::InvalidLegacyKeyCompat => 60038u16,
            Cep18Error::FailedToGetOldPackageKey => 60039u16,
            Cep18Error::FailedToGetPackageKey => 60040u16,
            Cep18Error::FailedToGetOldContractHashKey => 60041u16,
        }
    }

    /// The `u16` user-error code of this error.
    pub fn code(&self) -> (r: u16)
        ensures
            r == self.code_spec(),
    {
        match self {
            Cep18Error::InvalidContext => 60000u16,
            Cep18Error::InsufficientBalance => 60001u16,
            Cep18Error::InsufficientAllowance => 60002u16,
            Cep18Error::Overflow => 60003u16,
            Cep18Error::PackageHashMissing => 60004u16,
            Cep18Error::PackageHashNotPackage => 60005u16,
            Cep18Error::InvalidEventsMode => 60006u16,
            Cep18Error::MissingEventsMode => 60007u16,
            Cep18Error::Phantom => 60008u16,
            Cep18Error::FailedToGetArgBytes => 60009u16,
            Cep18Error::InsufficientRights => 60010u16,
            Cep18Error::InvalidAdminList => 60011u16,
            Cep18Error::InvalidMinterList => 60012u16,
            Cep18Error::InvalidNoneList => 60013u16,
            Cep18Error::InvalidEnableMBFlag => 60014u16,
            Cep18Error::AlreadyInitialized => 60015u16,
            Cep18Error::MintBurnDisabled => 60016u16,
            Cep18Error::CannotTargetSelfUser => 60017u16,
            Cep18Error::InvalidBurnTarget => 60018u16,
            Cep18Error::MissingPackageHashForUpgrade => 60019u16,
            Cep18Error::MissingContractHashForUpgrade => 60020u16,
            Cep18Error::InvalidKeyType => 60021u16,
            Cep18Error::KeyTypeMigrationMismatch => 60022u16,
            Cep18Error::FailedToWriteMessage => 60023u16,
            Cep18Error::FailedToReturnEntryPointResult => 60024u16,
            Cep18Error::FailedToRetrieveImmediateCaller => 60025u16,
            Cep18Error::FailedToCreateDictionary => 60026u16,
            Cep18Error::FailedToWriteToDictionary => 60027u16,
            Cep18Error::FailedToConvertBytes => 60028u16,
            Cep18Error::FailedToChangeBalance => 60029u16,
            Cep18Error::FailedToChangeAllowance => 60030u16,
            Cep18Error::FailedToChangeTotalSupply => 60031u16,
            Cep18Error::FailedToGetDictionaryValue => 60032u16,
            Cep18Error::FailedToReadFromStorage => 60033u16,
            Cep18Error::FailedToGetKey => 60034u16,
            Cep18Error::FailedToDisableContractVersion => 60035u16,
            Cep18Error::FailedToInsertToSecurityList => 60036u16,
            Cep18Error::UrefNotFound => 60037u16,
            Cep18Error::InvalidLegacyKeyCompat => 60038u16,
            Cep18Error::FailedToGetOldPackageKey => 60039u16,
            Cep18Error::FailedToGetPackageKey => 60040u16,
            Cep18Error::FailedToGetOldContractHashKey => 60041u16,
        }
    }
}

} // verus!
