//! The names under which the contract persists its state and reads its
//! arguments. These names are the wire-level compatibility surface: a
//! deployed instance is read through them.

use vstd::prelude::*;

verus! {

/// Name of the named cell for the token name.
pub const NAME: &'static str = "name";

/// Name of the named cell for the token symbol.
pub const SYMBOL: &'static str = "symbol";

/// Name of the named cell for the decimals.
pub const DECIMALS: &'static str = "decimals";

/// Name of the balances dictionary.
pub const BALANCES: &'static str = "balances";

/// Name of the allowances dictionary.
pub const ALLOWANCES: &'static str = "allowances";

/// Name of the named cell for the total supply.
pub const TOTAL_SUPPLY: &'static str = "total_supply";

/// Topic of the native event messages.
pub const EVENTS: &'static str = "events";

/// Name of the named cell for the events mode.
pub const EVENTS_MODE: &'static str = "events_mode";

/// Name of the named cell for the legacy-key-compatibility mode.
pub const LEGACY_KEY_COMPAT: &'static str = "legacy_key_compat";

/// Name of the security-badges dictionary.
pub const SECURITY_BADGES: &'static str = "security_badges";

/// Name of the named cell for the mint/burn enable flag.
pub const ENABLE_MINT_BURN: &'static str = "enable_mint_burn";

/// Name of the named cell for the package hash.
pub const PACKAGE_HASH: &'static str = "package_hash";

/// Name of the `address` runtime argument.
pub const ADDRESS: &'static str = "address";

/// Name of the `owner` runtime argument.
pub const OWNER: &'static str = "owner";

/// Name of the `spender` runtime argument.
pub const SPENDER: &'static str = "spender";

/// Name of the `amount` runtime argument.
pub const AMOUNT: &'static str = "amount";

/// Name of the `recipient` runtime argument.
pub const RECIPIENT: &'static str = "recipient";

/// Name of the `admin_list` runtime argument.
pub const ADMIN_LIST: &'static str = "admin_list";

/// Name of the `minter_list` runtime argument.
pub const MINTER_LIST: &'static str = "minter_list";

/// Name of the `burner_list` runtime argument.
pub const BURNER_LIST: &'static str = "burner_list";

/// Name of the `none_list` runtime argument.
pub const NONE_LIST: &'static str = "none_list";

/// Name of the `mint_and_burn_list` runtime argument.
pub const MINT_AND_BURN_LIST: &'static str = "mint_and_burn_list";

} // verus!
