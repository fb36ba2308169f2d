//! The token state machine: the entry-point surface of the contract.
//!
//! [`TokenState`] holds everything the contract persists — the metadata
//! cells, the three ledgers and the modality flags. Each entry point is one
//! atomic state transition: it checks every precondition before the first
//! mutation, so a failing call leaves the state exactly as it was, the way a
//! host abort discards the invocation's writes. A successful state-changing
//! call returns the one [`Event`] to route per the active events mode.
//!
//! The conservation rule `total_supply == Σ balances` is
//! [`TokenState::conserves`]: every entry point preserves it.

use vstd::prelude::*;

use crate::address::{Address, AddressView};
use crate::allowances::AllowanceLedger;
use crate::balances::BalanceLedger;
use crate::caller::LegacyKeyCompat;
use crate::error::Cep18Error;
use crate::events::{
    Burn, ChangeEventsMode, ChangeSecurity, Event, EventsMode, IncreaseAllowance,
    DecreaseAllowance, Mint, SetAllowance, Transfer, TransferFrom,
};
use crate::security::{
    delta_of, lookup_badge, sec_check_err, sec_check_ok, unique_badge_keys, updated_badge,
    SecurityBadge, SecurityRegistry,
};
use crate::security;
use crate::u256::{pow2_256, U256};

verus! {

/// The complete persisted state of one token contract instance.
#[derive(Debug)]
pub struct TokenState {
    /// Whether `init` has completed; set once.
    pub initialized: bool,
    /// The token name.
    pub name: String,
    /// The token symbol.
    pub symbol: String,
    /// The number of decimals the token reports.
    pub decimals: u8,
    /// The total supply; equal to the sum of all balances.
    pub total_supply: U256,
    /// The balance ledger.
    pub balances: BalanceLedger,
    /// The allowance ledger.
    pub allowances: AllowanceLedger,
    /// The security-badge registry.
    pub badges: SecurityRegistry,
    /// The active events mode.
    pub events_mode: EventsMode,
    /// Which address-shape rule applies to caller resolution.
    pub legacy_key_compat: LegacyKeyCompat,
    /// Whether `mint` and `burn` are enabled.
    pub enable_mint_burn: bool,
    /// Whether the CES schemas have been registered.
    pub ces_registered: bool,
}

/// The badge updates a list argument stands for: one update per listed
/// address, all with the same badge, in list order.
pub open spec fn opt_pairs(list: Option<Vec<Address>>, badge: SecurityBadge) -> Seq<(
    AddressView,
    SecurityBadge,
)> {
    match list {
        Some(v) => v@.map_values(|a: Address| (a@, badge)),
        None => Seq::empty(),
    }
}

/// Every address of a list argument is well-formed.
pub open spec fn wf_opt_list(list: Option<Vec<Address>>) -> bool {
    list matches Some(v) ==> forall|i: int| 0 <= i < v@.len() ==> (#[trigger] v@[i]).wf()
}

/// The badge updates the four optional list arguments stand for, in the
/// order the arguments are declared: admins, minters, unprivileged, then
/// mint-and-burn (granted the minter badge). A later update for the same
/// address overwrites an earlier one.
pub open spec fn badge_list_updates(
    admin_list: Option<Vec<Address>>,
    minter_list: Option<Vec<Address>>,
    none_list: Option<Vec<Address>>,
    mint_and_burn_list: Option<Vec<Address>>,
) -> Seq<(AddressView, SecurityBadge)> {
    opt_pairs(admin_list, SecurityBadge::Admin) + opt_pairs(minter_list, SecurityBadge::Minter)
        + opt_pairs(none_list, SecurityBadge::NoAccess) + opt_pairs(
        mint_and_burn_list,
        SecurityBadge::Minter,
    )
}

impl TokenState {
    /// Structural well-formedness: the three ledgers hold pairwise-distinct,
    /// well-formed keys.
    pub open spec fn inv(&self) -> bool {
        &&& self.balances.inv()
        &&& self.allowances.inv()
        &&& self.badges.inv()
    }

    /// The conservation rule: the total supply equals the sum of all
    /// balances.
    pub open spec fn conserves(&self) -> bool {
        self.balances.total() == self.total_supply@
    }

    /// The balance of `k`; a missing key holds zero.
    pub open spec fn balance_of_spec(&self, k: AddressView) -> nat {
        self.balances.balance_of(k)
    }

    /// The allowance of `(o, sp)`; a missing pair holds zero.
    pub open spec fn allowance_spec(&self, o: AddressView, sp: AddressView) -> nat {
        self.allowances.allowance_of(o, sp)
    }

    /// The badge of `k`, when a row exists.
    pub open spec fn badge_spec(&self, k: AddressView) -> Option<SecurityBadge> {
        self.badges.badge_of(k)
    }

    /// Whether `k` may mint: its effective badge is admin or minter.
    pub open spec fn may_mint(&self, k: AddressView) -> bool {
        sec_check_ok(
            self.badges.entries@,
            k,
            seq![SecurityBadge::Admin, SecurityBadge::Minter],
        )
    }

    /// Whether `k` may administer: its effective badge is admin.
    pub open spec fn may_admin(&self, k: AddressView) -> bool {
        sec_check_ok(self.badges.entries@, k, seq![SecurityBadge::Admin])
    }

    /// The metadata and modality cells of `post` equal those of `pre`.
    pub open spec fn same_config(pre: TokenState, post: TokenState) -> bool {
        &&& post.initialized == pre.initialized
        &&& post.name@ == pre.name@
        &&& post.symbol@ == pre.symbol@
        &&& post.decimals == pre.decimals
        &&& post.events_mode == pre.events_mode
        &&& post.legacy_key_compat == pre.legacy_key_compat
        &&& post.enable_mint_burn == pre.enable_mint_burn
        &&& post.ces_registered == pre.ces_registered
    }

    /// The balance entries of `post` equal those of `pre`.
    pub open spec fn same_balances(pre: TokenState, post: TokenState) -> bool {
        post.balances.entries@ == pre.balances.entries@
    }

    /// The allowance entries of `post` equal those of `pre`.
    pub open spec fn same_allowances(pre: TokenState, post: TokenState) -> bool {
        post.allowances.entries@ == pre.allowances.entries@
    }

    /// The badge entries of `post` equal those of `pre`.
    pub open spec fn same_badges(pre: TokenState, post: TokenState) -> bool {
        post.badges.entries@ == pre.badges.entries@
    }

    /// A blank, uninitialized instance: zero supply, empty ledgers, events
    /// off, mint and burn disabled.
    pub fn new() -> (r: TokenState)
        ensures
            r.inv(),
            r.conserves(),
            !r.initialized,
            r.total_supply@ == 0,
            forall|k: AddressView| r.balance_of_spec(k) == 0,
            forall|o: AddressView, sp: AddressView| r.allowance_spec(o, sp) == 0,
            forall|k: AddressView| r.badge_spec(k) is None,
            r.events_mode == EventsMode::NoEvents,
            r.legacy_key_compat == LegacyKeyCompat::Condor,
            !r.enable_mint_burn,
            !r.ces_registered,
    {
        TokenState {
            initialized: false,
            name: String::new(),
            symbol: String::new(),
            decimals: 0,
            total_supply: U256::zero(),
            balances: BalanceLedger::new(),
            allowances: AllowanceLedger::new(),
            badges: SecurityRegistry::new(),
            events_mode: EventsMode::NoEvents,
            legacy_key_compat: LegacyKeyCompat::Condor,
            enable_mint_burn: false,
            ces_registered: false,
        }
    }

    /// The token name.
    pub fn name(&self) -> (r: &String)
        ensures
            r@ == self.name@,
    {
        &self.name
    }

    /// The token symbol.
    pub fn symbol(&self) -> (r: &String)
        ensures
            r@ == self.symbol@,
    {
        &self.symbol
    }

    /// The number of decimals the token reports.
    pub fn decimals(&self) -> (r: u8)
        ensures
            r == self.decimals,
    {
        self.decimals
    }

    /// The total supply.
    pub fn total_supply(&self) -> (r: U256)
        ensures
            r@ == self.total_supply@,
    {
        self.total_supply
    }

    /// The balance of an address; a missing address holds zero.
    pub fn balance_of(&self, address: &Address) -> (r: U256)
        ensures
            r@ == self.balance_of_spec(address@),
    {
        self.balances.read(address)
    }

    /// The allowance of an (owner, spender) pair; a missing pair holds zero.
    pub fn allowance(&self, owner: &Address, spender: &Address) -> (r: U256)
        ensures
            r@ == self.allowance_spec(owner@, spender@),
    {
        self.allowances.read(owner, spender)
    }

    /// Sets the caller's allowance for `spender` to `amount`.
    ///
    /// Fails with `CannotTargetSelfUser` when the caller targets itself,
    /// mutating nothing. On success only the one allowance changes, and the
    /// returned `SetAllowance` event carries the new value.
    pub fn approve(&mut self, caller: &Address, spender: &Address, amount: U256) -> (r: Result<
        Event,
        Cep18Error,
    >)
        requires
            old(self).inv(),
            caller.wf(),
            spender.wf(),
        ensures
            final(self).inv(),
            r is Ok <==> caller@ != spender@,
            r matches Err(e) ==> e == Cep18Error::CannotTargetSelfUser && *final(self) == *old(
                self,
            ),
            r matches Ok(ev) ==> {
                &&& TokenState::approve_transition(*old(self), *final(self), caller@, spender@, amount@)
                &&& ev matches Event::SetAllowance(p) && p.owner@ == caller@ && p.spender@
                    == spender@ && p.allowance@ == amount@
            },
            old(self).conserves() ==> final(self).conserves(),
    {
        if caller.same_as(spender) {
            return Err(Cep18Error::CannotTargetSelfUser);
        }
        self.allowances.write(caller, spender, amount);
        Ok(
            Event::SetAllowance(
                SetAllowance { owner: caller.dup(), spender: spender.dup(), allowance: amount },
            ),
        )
    }

    /// The transition `approve` performs: the one allowance is set to
    /// `amount`; every other allowance, every balance, every badge, the
    /// supply and the configuration stay as they were.
    pub open spec fn approve_transition(
        pre: TokenState,
        post: TokenState,
        owner: AddressView,
        spender: AddressView,
        amount: nat,
    ) -> bool {
        &&& TokenState::same_config(pre, post)
        &&& TokenState::same_balances(pre, post)
        &&& TokenState::same_badges(pre, post)
        &&& post.total_supply@ == pre.total_supply@
        &&& forall|o: AddressView, sp: AddressView|
            post.allowance_spec(o, sp) == if o == owner && sp == spender {
                amount
            } else {
                pre.allowance_spec(o, sp)
            }
    }

    /// Raises the caller's allowance for `spender` by `amount`.
    ///
    /// Fails with `CannotTargetSelfUser` when the caller targets itself and
    /// with `Overflow` when the raised allowance would reach `2^256`,
    /// mutating nothing. On success the returned `IncreaseAllowance` event
    /// carries the new allowance and the increment.
    pub fn increase_allowance(&mut self, caller: &Address, spender: &Address, amount: U256) -> (r:
        Result<Event, Cep18Error>)
        requires
            old(self).inv(),
            caller.wf(),
            spender.wf(),
        ensures
            final(self).inv(),
            r is Ok <==> caller@ != spender@ && old(self).allowance_spec(caller@, spender@)
                + amount@ < pow2_256(),
            r matches Err(e) ==> *final(self) == *old(self) && e == (if caller@ == spender@ {
                Cep18Error::CannotTargetSelfUser
            } else {
                Cep18Error::Overflow
            }),
            r matches Ok(ev) ==> {
                &&& TokenState::approve_transition(
                    *old(self),
                    *final(self),
                    caller@,
                    spender@,
                    old(self).allowance_spec(caller@, spender@) + amount@,
                )
                &&& ev matches Event::IncreaseAllowance(p) && p.owner@ == caller@ && p.spender@
                    == spender@ && p.allowance@ == old(self).allowance_spec(caller@, spender@)
                    + amount@ && p.inc_by@ == amount@
            },
            old(self).conserves() ==> final(self).conserves(),
    {
        if caller.same_as(spender) {
            return Err(Cep18Error::CannotTargetSelfUser);
        }
        let current = self.allowances.read(caller, spender);
        match current.checked_add(&amount) {
            Some(raised) => {
                self.allowances.write(caller, spender, raised);
                Ok(
                    Event::IncreaseAllowance(
                        IncreaseAllowance {
                            owner: caller.dup(),
                            spender: spender.dup(),
                            allowance: raised,
                            inc_by: amount,
                        },
                    ),
                )
            },
            None => Err(Cep18Error::Overflow),
        }
    }

    /// Lowers the caller's allowance for `spender` by `amount`, saturating
    /// at zero: a decrement larger than the allowance zeroes it rather than
    /// aborting.
    ///
    /// Fails only with `CannotTargetSelfUser` when the caller targets
    /// itself, mutating nothing. On success the returned
    /// `DecreaseAllowance` event carries the new allowance and the
    /// requested decrement.
    pub fn decrease_allowance(&mut self, caller: &Address, spender: &Address, amount: U256) -> (r:
        Result<Event, Cep18Error>)
        requires
            old(self).inv(),
            caller.wf(),
            spender.wf(),
        ensures
            final(self).inv(),
            r is Ok <==> caller@ != spender@,
            r matches Err(e) ==> e == Cep18Error::CannotTargetSelfUser && *final(self) == *old(
                self,
            ),
            r matches Ok(ev) ==> {
                &&& TokenState::approve_transition(
                    *old(self),
                    *final(self),
                    caller@,
                    spender@,
                    saturated_decrease(old(self).allowance_spec(caller@, spender@), amount@),
                )
                &&& ev matches Event::DecreaseAllowance(p) && p.owner@ == caller@ && p.spender@
                    == spender@ && p.allowance@ == saturated_decrease(
                    old(self).allowance_spec(caller@, spender@),
                    amount@,
                ) && p.decr_by@ == amount@
            },
            old(self).conserves() ==> final(self).conserves(),
    {
        if caller.same_as(spender) {
            return Err(Cep18Error::CannotTargetSelfUser);
        }
        let current = self.allowances.read(caller, spender);
        let lowered = current.saturating_sub(&amount);
        self.allowances.write(caller, spender, lowered);
        Ok(
            Event::DecreaseAllowance(
                DecreaseAllowance {
                    owner: caller.dup(),
                    spender: spender.dup(),
                    allowance: lowered,
                    decr_by: amount,
                },
            ),
        )
    }
}

/// `max(a - x, 0)`: the saturated decrement an allowance decrease applies.
pub open spec fn saturated_decrease(a: nat, x: nat) -> nat {
    if a >= x {
        (a - x) as nat
    } else {
        0
    }
}

/// The error `transfer` reports for the given pre-state and arguments, or
/// `None` when it succeeds: self-target, then insufficient balance, then a
/// recipient balance that would reach `2^256`.
pub open spec fn transfer_error(
    pre: TokenState,
    sender: AddressView,
    recipient: AddressView,
    amount: nat,
) -> Option<Cep18Error> {
    if sender == recipient {
        Some(Cep18Error::CannotTargetSelfUser)
    } else if pre.balance_of_spec(sender) < amount {
        Some(Cep18Error::InsufficientBalance)
    } else if pre.balance_of_spec(recipient) + amount >= pow2_256() {
        Some(Cep18Error::Overflow)
    } else {
        None
    }
}

/// The error `transfer_from` reports for the given pre-state and arguments,
/// or `None` when it succeeds: self-target, then insufficient allowance,
/// then insufficient balance, then a recipient balance that would reach
/// `2^256`.
pub open spec fn transfer_from_error(
    pre: TokenState,
    spender: AddressView,
    owner: AddressView,
    recipient: AddressView,
    amount: nat,
) -> Option<Cep18Error> {
    if owner == recipient {
        Some(Cep18Error::CannotTargetSelfUser)
    } else if pre.allowance_spec(owner, spender) < amount {
        Some(Cep18Error::InsufficientAllowance)
    } else if pre.balance_of_spec(owner) < amount {
        Some(Cep18Error::InsufficientBalance)
    } else if pre.balance_of_spec(recipient) + amount >= pow2_256() {
        Some(Cep18Error::Overflow)
    } else {
        None
    }
}

/// The error `mint` reports for the given pre-state and arguments, or
/// `None` when it succeeds: mint/burn disabled, then the authorization
/// check, then an owner balance or total supply that would reach `2^256`.
pub open spec fn mint_error(
    pre: TokenState,
    caller: AddressView,
    owner: AddressView,
    amount: nat,
) -> Option<Cep18Error> {
    if !pre.enable_mint_burn {
        Some(Cep18Error::MintBurnDisabled)
    } else if !pre.may_mint(caller) {
        Some(sec_check_err(pre.badges.entries@, caller))
    } else if pre.balance_of_spec(owner) + amount >= pow2_256() {
        Some(Cep18Error::Overflow)
    } else if pre.total_supply@ + amount >= pow2_256() {
        Some(Cep18Error::Overflow)
    } else {
        None
    }
}

/// The error `burn` reports for the given pre-state and arguments, or
/// `None` when it succeeds: mint/burn disabled, then a caller other than
/// the owner, then insufficient balance, then a total supply smaller than
/// the amount.
pub open spec fn burn_error(
    pre: TokenState,
    caller: AddressView,
    owner: AddressView,
    amount: nat,
) -> Option<Cep18Error> {
    if !pre.enable_mint_burn {
        Some(Cep18Error::MintBurnDisabled)
    } else if caller != owner {
        Some(Cep18Error::InvalidBurnTarget)
    } else if pre.balance_of_spec(owner) < amount {
        Some(Cep18Error::InsufficientBalance)
    } else if pre.total_supply@ < amount {
        Some(Cep18Error::Overflow)
    } else {
        None
    }
}

impl TokenState {
    /// The transition `transfer` and `transfer_from` perform on balances:
    /// `amount` moves from `sender` to `recipient`; every other balance,
    /// the balance sum, the supply and the configuration stay as they were.
    pub open spec fn balance_move_transition(
        pre: TokenState,
        post: TokenState,
        sender: AddressView,
        recipient: AddressView,
        amount: nat,
    ) -> bool {
        &&& TokenState::same_config(pre, post)
        &&& TokenState::same_badges(pre, post)
        &&& post.total_supply@ == pre.total_supply@
        &&& post.balances.total() == pre.balances.total()
        &&& forall|k: AddressView|
            post.balance_of_spec(k) == if k == sender {
                (pre.balance_of_spec(sender) - amount) as nat
            } else if k == recipient {
                pre.balance_of_spec(recipient) + amount
            } else {
                pre.balance_of_spec(k)
            }
    }

    /// The transition `transfer` performs: the balance move, with every
    /// allowance unchanged.
    pub open spec fn transfer_transition(
        pre: TokenState,
        post: TokenState,
        sender: AddressView,
        recipient: AddressView,
        amount: nat,
    ) -> bool {
        &&& TokenState::balance_move_transition(pre, post, sender, recipient, amount)
        &&& TokenState::same_allowances(pre, post)
    }

    /// The transition `transfer_from` performs: the balance move from
    /// `owner` to `recipient`, and the one allowance lowered by the amount.
    pub open spec fn transfer_from_transition(
        pre: TokenState,
        post: TokenState,
        spender: AddressView,
        owner: AddressView,
        recipient: AddressView,
        amount: nat,
    ) -> bool {
        &&& TokenState::balance_move_transition(pre, post, owner, recipient, amount)
        &&& forall|o: AddressView, sp: AddressView|
            post.allowance_spec(o, sp) == if o == owner && sp == spender {
                (pre.allowance_spec(owner, spender) - amount) as nat
            } else {
                pre.allowance_spec(o, sp)
            }
    }

    /// The transition `mint` performs: `amount` is created into `owner`'s
    /// balance and added to the supply; everything else stays as it was.
    pub open spec fn mint_transition(
        pre: TokenState,
        post: TokenState,
        owner: AddressView,
        amount: nat,
    ) -> bool {
        &&& TokenState::same_config(pre, post)
        &&& TokenState::same_badges(pre, post)
        &&& TokenState::same_allowances(pre, post)
        &&& post.total_supply@ == pre.total_supply@ + amount
        &&& post.balances.total() == pre.balances.total() + amount
        &&& forall|k: AddressView|
            post.balance_of_spec(k) == if k == owner {
                pre.balance_of_spec(owner) + amount
            } else {
                pre.balance_of_spec(k)
            }
    }

    /// The transition `burn` performs: `amount` is destroyed from `owner`'s
    /// balance and subtracted from the supply; everything else stays as it
    /// was.
    pub open spec fn burn_transition(
        pre: TokenState,
        post: TokenState,
        owner: AddressView,
        amount: nat,
    ) -> bool {
        &&& TokenState::same_config(pre, post)
        &&& TokenState::same_badges(pre, post)
        &&& TokenState::same_allowances(pre, post)
        &&& post.total_supply@ == pre.total_supply@ - amount
        &&& post.balances.total() + amount == pre.balances.total()
        &&& forall|k: AddressView|
            post.balance_of_spec(k) == if k == owner {
                (pre.balance_of_spec(owner) - amount) as nat
            } else {
                pre.balance_of_spec(k)
            }
    }

    /// Moves `amount` from the caller's balance to `recipient`'s.
    ///
    /// Fails per [`transfer_error`], mutating nothing. On success the
    /// returned `Transfer` event carries the parties and the amount.
    pub fn transfer(&mut self, caller: &Address, recipient: &Address, amount: U256) -> (r: Result<
        Event,
        Cep18Error,
    >)
        requires
            old(self).inv(),
            caller.wf(),
            recipient.wf(),
        ensures
            final(self).inv(),
            r is Ok <==> transfer_error(*old(self), caller@, recipient@, amount@) is None,
            r matches Err(e) ==> *final(self) == *old(self) && Some(e) == transfer_error(
                *old(self),
                caller@,
                recipient@,
                amount@,
            ),
            r matches Ok(ev) ==> {
                &&& TokenState::transfer_transition(
                    *old(self),
                    *final(self),
                    caller@,
                    recipient@,
                    amount@,
                )
                &&& ev matches Event::Transfer(p) && p.sender@ == caller@ && p.recipient@
                    == recipient@ && p.amount@ == amount@
            },
            old(self).conserves() ==> final(self).conserves(),
    {
        if caller.same_as(recipient) {
            return Err(Cep18Error::CannotTargetSelfUser);
        }
        let sender_bal = self.balances.read(caller);
        let new_sender = match sender_bal.checked_sub(&amount) {
            Some(v) => v,
            None => {
                return Err(Cep18Error::InsufficientBalance);
            },
        };
        let recipient_bal = self.balances.read(recipient);
        let new_recipient = match recipient_bal.checked_add(&amount) {
            Some(v) => v,
            None => {
                return Err(Cep18Error::Overflow);
            },
        };
        self.balances.write(caller, new_sender);
        self.balances.write(recipient, new_recipient);
        Ok(
            Event::Transfer(
                Transfer { sender: caller.dup(), recipient: recipient.dup(), amount },
            ),
        )
    }

    /// Moves `amount` from `owner`'s balance to `recipient`'s, drawn by the
    /// caller against `owner`'s allowance, which is lowered by the amount.
    ///
    /// Fails per [`transfer_from_error`], mutating nothing. On success the
    /// returned `TransferFrom` event carries all parties and the amount.
    pub fn transfer_from(
        &mut self,
        caller: &Address,
        owner: &Address,
        recipient: &Address,
        amount: U256,
    ) -> (r: Result<Event, Cep18Error>)
        requires
            old(self).inv(),
            caller.wf(),
            owner.wf(),
            recipient.wf(),
        ensures
            final(self).inv(),
            r is Ok <==> transfer_from_error(*old(self), caller@, owner@, recipient@, amount@)
                is None,
            r matches Err(e) ==> *final(self) == *old(self) && Some(e) == transfer_from_error(
                *old(self),
                caller@,
                owner@,
                recipient@,
                amount@,
            ),
            r matches Ok(ev) ==> {
                &&& TokenState::transfer_from_transition(
                    *old(self),
                    *final(self),
                    caller@,
                    owner@,
                    recipient@,
                    amount@,
                )
                &&& ev matches Event::TransferFrom(p) && p.spender@ == caller@ && p.owner@
                    == owner@ && p.recipient@ == recipient@ && p.amount@ == amount@
            },
            old(self).conserves() ==> final(self).conserves(),
    {
        if owner.same_as(recipient) {
            return Err(Cep18Error::CannotTargetSelfUser);
        }
        let current_allowance = self.allowances.read(owner, caller);
        let new_allowance = match current_allowance.checked_sub(&amount) {
            Some(v) => v,
            None => {
                return Err(Cep18Error::InsufficientAllowance);
            },
        };
        let owner_bal = self.balances.read(owner);
        let new_owner = match owner_bal.checked_sub(&amount) {
            Some(v) => v,
            None => {
                return Err(Cep18Error::InsufficientBalance);
            },
        };
        let recipient_bal = self.balances.read(recipient);
        let new_recipient = match recipient_bal.checked_add(&amount) {
            Some(v) => v,
            None => {
                return Err(Cep18Error::Overflow);
            },
        };
        self.balances.write(owner, new_owner);
        self.balances.write(recipient, new_recipient);
        self.allowances.write(owner, caller, new_allowance);
        Ok(
            Event::TransferFrom(
                TransferFrom {
                    spender: caller.dup(),
                    owner: owner.dup(),
                    recipient: recipient.dup(),
                    amount,
                },
            ),
        )
    }

    /// Creates `amount` tokens into `owner`'s balance and adds them to the
    /// total supply. The caller must hold the admin or minter badge, and
    /// mint/burn must be enabled.
    ///
    /// Fails per [`mint_error`], mutating nothing. On success the returned
    /// `Mint` event carries the credited balance and the amount.
    pub fn mint(&mut self, caller: &Address, owner: &Address, amount: U256) -> (r: Result<
        Event,
        Cep18Error,
    >)
        requires
            old(self).inv(),
            caller.wf(),
            owner.wf(),
        ensures
            final(self).inv(),
            r is Ok <==> mint_error(*old(self), caller@, owner@, amount@) is None,
            r matches Err(e) ==> *final(self) == *old(self) && Some(e) == mint_error(
                *old(self),
                caller@,
                owner@,
                amount@,
            ),
            r matches Ok(ev) ==> {
                &&& TokenState::mint_transition(*old(self), *final(self), owner@, amount@)
                &&& ev matches Event::Mint(p) && p.recipient@ == owner@ && p.amount@ == amount@
            },
            old(self).conserves() ==> final(self).conserves(),
    {
        if !self.enable_mint_burn {
            return Err(Cep18Error::MintBurnDisabled);
        }
        let mut allowed: Vec<SecurityBadge> = Vec::new();
        allowed.push(SecurityBadge::Admin);
        allowed.push(SecurityBadge::Minter);
        proof {
            assert(allowed@ =~= seq![SecurityBadge::Admin, SecurityBadge::Minter]);
        }
        match self.badges.sec_check(caller, &allowed) {
            Ok(_) => {},
            Err(e) => {
                return Err(e);
            },
        }
        let owner_bal = self.balances.read(owner);
        let new_bal = match owner_bal.checked_add(&amount) {
            Some(v) => v,
            None => {
                return Err(Cep18Error::Overflow);
            },
        };
        let new_total = match self.total_supply.checked_add(&amount) {
            Some(v) => v,
            None => {
                return Err(Cep18Error::Overflow);
            },
        };
        self.balances.write(owner, new_bal);
        self.total_supply = new_total;
        Ok(Event::Mint(Mint { recipient: owner.dup(), amount }))
    }

    /// Destroys `amount` tokens from `owner`'s balance and subtracts them
    /// from the total supply. Only the owner itself may burn, and mint/burn
    /// must be enabled.
    ///
    /// Fails per [`burn_error`], mutating nothing. On success the returned
    /// `Burn` event carries the debited balance and the amount.
    pub fn burn(&mut self, caller: &Address, owner: &Address, amount: U256) -> (r: Result<
        Event,
        Cep18Error,
    >)
        requires
            old(self).inv(),
            caller.wf(),
            owner.wf(),
        ensures
            final(self).inv(),
            r is Ok <==> burn_error(*old(self), caller@, owner@, amount@) is None,
            r matches Err(e) ==> *final(self) == *old(self) && Some(e) == burn_error(
                *old(self),
                caller@,
                owner@,
                amount@,
            ),
            r matches Ok(ev) ==> {
                &&& TokenState::burn_transition(*old(self), *final(self), owner@, amount@)
                &&& ev matches Event::Burn(p) && p.owner@ == owner@ && p.amount@ == amount@
            },
            old(self).conserves() ==> final(self).conserves(),
    {
        if !self.enable_mint_burn {
            return Err(Cep18Error::MintBurnDisabled);
        }
        if !caller.same_as(owner) {
            return Err(Cep18Error::InvalidBurnTarget);
        }
        let owner_bal = self.balances.read(owner);
        let new_bal = match owner_bal.checked_sub(&amount) {
            Some(v) => v,
            None => {
                return Err(Cep18Error::InsufficientBalance);
            },
        };
        let new_total = match self.total_supply.checked_sub(&amount) {
            Some(v) => v,
            None => {
                return Err(Cep18Error::Overflow);
            },
        };
        self.balances.write(owner, new_bal);
        self.total_supply = new_total;
        Ok(Event::Burn(Burn { owner: owner.dup(), amount }))
    }
}

/// Writes every address of a list argument into the registry under one
/// badge, in list order.
fn apply_badge_list(reg: &mut SecurityRegistry, list: &Option<Vec<Address>>, badge: SecurityBadge)
    requires
        old(reg).inv(),
        wf_opt_list(*list),
    ensures
        final(reg).inv(),
        forall|k: AddressView|
            #[trigger] lookup_badge(final(reg).entries@, k) == updated_badge(
                old(reg).entries@,
                opt_pairs(*list, badge),
                k,
            ),
{
    let none_stand_in: Vec<Address> = Vec::new();
    let v: &Vec<Address> = match list {
        Some(inner) => inner,
        None => &none_stand_in,
    };
    let ghost base = reg.entries@;
    let ghost ups = opt_pairs(*list, badge);
    proof {
        assert(ups.take(0) =~= Seq::<(AddressView, SecurityBadge)>::empty());
    }
    let mut i: usize = 0;
    while i < v.len()
        invariant
            i <= v@.len(),
            reg.inv(),
            ups == opt_pairs(*list, badge),
            ups.len() == v@.len(),
            forall|j: int| 0 <= j < ups.len() ==> #[trigger] ups[j] == ((v@[j])@, badge),
            forall|j: int| 0 <= j < v@.len() ==> (#[trigger] v@[j]).wf(),
            forall|k: AddressView|
                reg.badge_of(k) == updated_badge(base, ups.take(i as int), k),
        decreases v@.len() - i,
    {
        reg.put_badge(&v[i], badge);
        i = i + 1;
        proof {
            assert(ups.take(i as int).drop_last() =~= ups.take(i - 1));
            assert(ups.take(i as int).last() == ups[i - 1]);
            assert(ups[i - 1] == (v@[i - 1]@, badge));
        }
    }
    proof {
        assert(ups.take(v@.len() as int) =~= ups);
        assert forall|k: AddressView|
            lookup_badge(reg.entries@, k) == updated_badge(base, ups, k) by {
            assert(reg.badge_of(k) == updated_badge(base, ups, k));
        }
    }
}

impl TokenState {
    /// The transition `change_security` performs: each badge becomes the
    /// last update for its address, falling back to the previous registry;
    /// balances, allowances, supply and configuration stay as they were.
    pub open spec fn change_security_transition(
        pre: TokenState,
        post: TokenState,
        ups: Seq<(AddressView, SecurityBadge)>,
    ) -> bool {
        &&& TokenState::same_config(pre, post)
        &&& TokenState::same_balances(pre, post)
        &&& TokenState::same_allowances(pre, post)
        &&& post.total_supply@ == pre.total_supply@
        &&& forall|k: AddressView|
            post.badge_spec(k) == updated_badge(pre.badges.entries@, ups, k)
    }

    /// Applies a bulk badge update composed from the four optional lists,
    /// in argument order, a later entry overriding an earlier one for the
    /// same address. The caller must hold the admin badge.
    ///
    /// Fails with the authorization error, mutating nothing. On success the
    /// returned `ChangeSecurity` event carries the composed badge-delta
    /// map, one entry per address.
    pub fn change_security(
        &mut self,
        caller: &Address,
        admin_list: Option<Vec<Address>>,
        minter_list: Option<Vec<Address>>,
        none_list: Option<Vec<Address>>,
        mint_and_burn_list: Option<Vec<Address>>,
    ) -> (r: Result<Event, Cep18Error>)
        requires
            old(self).inv(),
            caller.wf(),
            wf_opt_list(admin_list),
            wf_opt_list(minter_list),
            wf_opt_list(none_list),
            wf_opt_list(mint_and_burn_list),
        ensures
            final(self).inv(),
            r is Ok <==> old(self).may_admin(caller@),
            r matches Err(e) ==> *final(self) == *old(self) && e == sec_check_err(
                old(self).badges.entries@,
                caller@,
            ),
            r matches Ok(ev) ==> {
                &&& TokenState::change_security_transition(
                    *old(self),
                    *final(self),
                    badge_list_updates(admin_list, minter_list, none_list, mint_and_burn_list),
                )
                &&& ev matches Event::ChangeSecurity(p) && p.admin@ == caller@
                    && unique_badge_keys(p.sec_change_map@) && forall|k: AddressView|
                    lookup_badge(p.sec_change_map@, k) == delta_of(
                        badge_list_updates(
                            admin_list,
                            minter_list,
                            none_list,
                            mint_and_burn_list,
                        ),
                        k,
                    )
            },
            old(self).conserves() ==> final(self).conserves(),
    {
        let mut allowed: Vec<SecurityBadge> = Vec::new();
        allowed.push(SecurityBadge::Admin);
        proof {
            assert(allowed@ =~= seq![SecurityBadge::Admin]);
        }
        match self.badges.sec_check(caller, &allowed) {
            Ok(_) => {},
            Err(e) => {
                return Err(e);
            },
        }
        let ghost u1 = opt_pairs(admin_list, SecurityBadge::Admin);
        let ghost u2 = opt_pairs(minter_list, SecurityBadge::Minter);
        let ghost u3 = opt_pairs(none_list, SecurityBadge::NoAccess);
        let ghost u4 = opt_pairs(mint_and_burn_list, SecurityBadge::Minter);
        let ghost ups = badge_list_updates(admin_list, minter_list, none_list, mint_and_burn_list);
        let mut delta = SecurityRegistry::new();
        let ghost e0 = delta.entries@;
        apply_badge_list(&mut delta, &admin_list, SecurityBadge::Admin);
        let ghost d1 = delta.entries@;
        apply_badge_list(&mut delta, &minter_list, SecurityBadge::Minter);
        let ghost d2 = delta.entries@;
        proof {
            assert forall|k: AddressView|
                lookup_badge(d2, k) == updated_badge(e0, u1 + u2, k) by {
                security::lemma_updated_badge_concat(e0, d1, u1, u2, k);
            }
        }
        apply_badge_list(&mut delta, &none_list, SecurityBadge::NoAccess);
        let ghost d3 = delta.entries@;
        proof {
            assert forall|k: AddressView|
                lookup_badge(d3, k) == updated_badge(e0, u1 + u2 + u3, k) by {
                security::lemma_updated_badge_concat(e0, d2, u1 + u2, u3, k);
            }
        }
        apply_badge_list(&mut delta, &mint_and_burn_list, SecurityBadge::Minter);
        let ghost d4 = delta.entries@;
        proof {
            assert forall|k: AddressView| lookup_badge(d4, k) == delta_of(ups, k) by {
                security::lemma_updated_badge_concat(e0, d3, u1 + u2 + u3, u4, k);
                assert(e0 =~= Seq::<(Address, SecurityBadge)>::empty());
            }
        }
        self.badges.change_sec_badge(&delta.entries);
        proof {
            assert forall|k: AddressView|
                self.badges.badge_of(k) == updated_badge(old(self).badges.entries@, ups, k) by {
                security::lemma_updated_badge_decompose(
                    old(self).badges.entries@,
                    security::badge_pairs_view(d4),
                    k,
                );
                security::lemma_delta_of_entries(d4, k);
                security::lemma_updated_badge_decompose(old(self).badges.entries@, ups, k);
            }
        }
        Ok(
            Event::ChangeSecurity(
                ChangeSecurity { admin: caller.dup(), sec_change_map: delta.entries },
            ),
        )
    }

    /// The transition `change_events_mode` performs: the mode becomes
    /// `mode`, the CES schemas count as registered once a CES-writing mode
    /// has been active; everything else stays as it was.
    pub open spec fn change_events_mode_transition(
        pre: TokenState,
        post: TokenState,
        mode: EventsMode,
    ) -> bool {
        &&& TokenState::same_balances(pre, post)
        &&& TokenState::same_allowances(pre, post)
        &&& TokenState::same_badges(pre, post)
        &&& post.total_supply@ == pre.total_supply@
        &&& post.initialized == pre.initialized
        &&& post.name@ == pre.name@
        &&& post.symbol@ == pre.symbol@
        &&& post.decimals == pre.decimals
        &&& post.legacy_key_compat == pre.legacy_key_compat
        &&& post.enable_mint_burn == pre.enable_mint_burn
        &&& post.events_mode == mode
        &&& post.ces_registered == (pre.ces_registered || mode.uses_ces_spec())
    }

    /// Switches the events mode. The caller must hold the admin badge; the
    /// byte must name one of the six modes. When the new mode writes CES
    /// records and the schemas are not registered yet, they are registered.
    ///
    /// Fails with the authorization error or `InvalidEventsMode`, mutating
    /// nothing. On success the returned `ChangeEventsMode` event carries
    /// the new mode byte.
    pub fn change_events_mode(&mut self, caller: &Address, events_mode: u8) -> (r: Result<
        Event,
        Cep18Error,
    >)
        requires
            old(self).inv(),
            caller.wf(),
        ensures
            final(self).inv(),
            r is Ok <==> old(self).may_admin(caller@) && events_mode <= 5,
            r matches Err(e) ==> *final(self) == *old(self) && e == (if !old(self).may_admin(
                caller@,
            ) {
                sec_check_err(old(self).badges.entries@, caller@)
            } else {
                Cep18Error::InvalidEventsMode
            }),
            r matches Ok(ev) ==> {
                &&& final(self).events_mode.to_u8_spec() == events_mode
                &&& TokenState::change_events_mode_transition(
                    *old(self),
                    *final(self),
                    final(self).events_mode,
                )
                &&& ev matches Event::ChangeEventsMode(p) && p.events_mode == events_mode
            },
            old(self).conserves() ==> final(self).conserves(),
    {
        let mut allowed: Vec<SecurityBadge> = Vec::new();
        allowed.push(SecurityBadge::Admin);
        proof {
            assert(allowed@ =~= seq![SecurityBadge::Admin]);
        }
        match self.badges.sec_check(caller, &allowed) {
            Ok(_) => {},
            Err(e) => {
                return Err(e);
            },
        }
        let mode = match EventsMode::from_u8(events_mode) {
            Some(m) => m,
            None => {
                return Err(Cep18Error::InvalidEventsMode);
            },
        };
        self.events_mode = mode;
        if mode.uses_ces() && !self.ces_registered {
            self.ces_registered = true;
        }
        Ok(Event::ChangeEventsMode(ChangeEventsMode { events_mode }))
    }

    /// The badge updates `init` applies over an empty registry: the
    /// installer becomes admin, then the four optional lists apply in
    /// argument order.
    pub open spec fn init_badge_updates(
        caller: AddressView,
        admin_list: Option<Vec<Address>>,
        minter_list: Option<Vec<Address>>,
        none_list: Option<Vec<Address>>,
        mint_and_burn_list: Option<Vec<Address>>,
    ) -> Seq<(AddressView, SecurityBadge)> {
        seq![(caller, SecurityBadge::Admin)] + badge_list_updates(
            admin_list,
            minter_list,
            none_list,
            mint_and_burn_list,
        )
    }

    /// The error `init` reports: a second call, an invalid events-mode
    /// byte, or an invalid legacy-compatibility byte.
    pub open spec fn init_error(pre: TokenState, events_mode: u8, legacy_key_compat: u8) -> Cep18Error {
        if pre.initialized {
            Cep18Error::AlreadyInitialized
        } else if events_mode > 5 {
            Cep18Error::InvalidEventsMode
        } else {
            Cep18Error::InvalidLegacyKeyCompat
        }
    }

    /// Initializes the contract; callable exactly once. Writes the metadata
    /// and modality cells, seeds the installer's balance with the whole
    /// supply, grants the installer the admin badge, applies the four
    /// optional badge lists, and marks the CES schemas registered when the
    /// selected mode writes CES records.
    ///
    /// A second call fails with `AlreadyInitialized`; a bad mode byte with
    /// `InvalidEventsMode`; a bad compatibility byte with
    /// `InvalidLegacyKeyCompat` — each mutating nothing.
    pub fn init(
        &mut self,
        caller: &Address,
        name: String,
        symbol: String,
        decimals: u8,
        total_supply: U256,
        events_mode: u8,
        legacy_key_compat: u8,
        admin_list: Option<Vec<Address>>,
        minter_list: Option<Vec<Address>>,
        none_list: Option<Vec<Address>>,
        mint_and_burn_list: Option<Vec<Address>>,
        enable_mint_burn: bool,
    ) -> (r: Result<(), Cep18Error>)
        requires
            old(self).inv(),
            caller.wf(),
            wf_opt_list(admin_list),
            wf_opt_list(minter_list),
            wf_opt_list(none_list),
            wf_opt_list(mint_and_burn_list),
        ensures
            final(self).inv(),
            r is Ok <==> !old(self).initialized && events_mode <= 5 && legacy_key_compat <= 1,
            r matches Err(e) ==> *final(self) == *old(self) && e == TokenState::init_error(
                *old(self),
                events_mode,
                legacy_key_compat,
            ),
            r is Ok ==> {
                &&& final(self).initialized
                &&& final(self).name@ == name@
                &&& final(self).symbol@ == symbol@
                &&& final(self).decimals == decimals
                &&& final(self).total_supply@ == total_supply@
                &&& forall|k: AddressView|
                    final(self).balance_of_spec(k) == if k == caller@ {
                        total_supply@
                    } else {
                        0
                    }
                &&& final(self).conserves()
                &&& forall|o: AddressView, sp: AddressView| final(self).allowance_spec(o, sp) == 0
                &&& forall|k: AddressView|
                    final(self).badge_spec(k) == delta_of(
                        TokenState::init_badge_updates(
                            caller@,
                            admin_list,
                            minter_list,
                            none_list,
                            mint_and_burn_list,
                        ),
                        k,
                    )
                &&& final(self).events_mode.to_u8_spec() == events_mode
                &&& final(self).legacy_key_compat.to_u8_spec() == legacy_key_compat
                &&& final(self).enable_mint_burn == enable_mint_burn
                &&& final(self).ces_registered == final(self).events_mode.uses_ces_spec()
            },
    {
        if self.initialized {
            return Err(Cep18Error::AlreadyInitialized);
        }
        let mode = match EventsMode::from_u8(events_mode) {
            Some(m) => m,
            None => {
                return Err(Cep18Error::InvalidEventsMode);
            },
        };
        let compat = match LegacyKeyCompat::from_u8(legacy_key_compat) {
            Some(c) => c,
            None => {
                return Err(Cep18Error::InvalidLegacyKeyCompat);
            },
        };
        self.name = name;
        self.symbol = symbol;
        self.decimals = decimals;
        self.total_supply = total_supply;
        self.balances = BalanceLedger::new();
        self.balances.write(caller, total_supply);
        self.allowances = AllowanceLedger::new();
        let mut reg = SecurityRegistry::new();
        let ghost e0 = reg.entries@;
        let ghost ups0 = seq![(caller@, SecurityBadge::Admin)];
        reg.put_badge(caller, SecurityBadge::Admin);
        let ghost d0 = reg.entries@;
        proof {
            assert forall|k: AddressView| lookup_badge(d0, k) == updated_badge(e0, ups0, k) by {
                assert(lookup_badge(d0, k) == reg.badge_of(k));
                assert(reg.badge_of(k) == if k == caller@ {
                    Some(SecurityBadge::Admin)
                } else {
                    Option::<SecurityBadge>::None
                });
                assert(ups0.drop_last() =~= Seq::<(AddressView, SecurityBadge)>::empty());
                assert(ups0.last() == (caller@, SecurityBadge::Admin));
                assert(e0 =~= Seq::<(Address, SecurityBadge)>::empty());
                assert(updated_badge(e0, Seq::<(AddressView, SecurityBadge)>::empty(), k)
                    == lookup_badge(e0, k));
                assert(lookup_badge(e0, k) is None);
            }
        }
        let ghost u1 = opt_pairs(admin_list, SecurityBadge::Admin);
        let ghost u2 = opt_pairs(minter_list, SecurityBadge::Minter);
        let ghost u3 = opt_pairs(none_list, SecurityBadge::NoAccess);
        let ghost u4 = opt_pairs(mint_and_burn_list, SecurityBadge::Minter);
        apply_badge_list(&mut reg, &admin_list, SecurityBadge::Admin);
        let ghost d1 = reg.entries@;
        proof {
            assert forall|k: AddressView|
                lookup_badge(d1, k) == updated_badge(e0, ups0 + u1, k) by {
                security::lemma_updated_badge_concat(e0, d0, ups0, u1, k);
            }
        }
        apply_badge_list(&mut reg, &minter_list, SecurityBadge::Minter);
        let ghost d2 = reg.entries@;
        proof {
            assert forall|k: AddressView|
                lookup_badge(d2, k) == updated_badge(e0, ups0 + u1 + u2, k) by {
                security::lemma_updated_badge_concat(e0, d1, ups0 + u1, u2, k);
            }
        }
        apply_badge_list(&mut reg, &none_list, SecurityBadge::NoAccess);
        let ghost d3 = reg.entries@;
        proof {
            assert forall|k: AddressView|
                lookup_badge(d3, k) == updated_badge(e0, ups0 + u1 + u2 + u3, k) by {
                security::lemma_updated_badge_concat(e0, d2, ups0 + u1 + u2, u3, k);
            }
        }
        apply_badge_list(&mut reg, &mint_and_burn_list, SecurityBadge::Minter);
        let ghost d4 = reg.entries@;
        proof {
            let all = TokenState::init_badge_updates(
                caller@,
                admin_list,
                minter_list,
                none_list,
                mint_and_burn_list,
            );
            assert(ups0 + u1 + u2 + u3 + u4 =~= all);
            assert forall|k: AddressView| lookup_badge(d4, k) == delta_of(all, k) by {
                security::lemma_updated_badge_concat(e0, d3, ups0 + u1 + u2 + u3, u4, k);
                assert(e0 =~= Seq::<(Address, SecurityBadge)>::empty());
            }
        }
        self.badges = reg;
        self.events_mode = mode;
        self.legacy_key_compat = compat;
        self.enable_mint_burn = enable_mint_burn;
        self.ces_registered = mode.uses_ces();
        self.initialized = true;
        Ok(())
    }
}

} // verus!
