//! Resolution of the immediate caller from a host call stack.
//!
//! The host reports the call stack in one of two shapes: the current one,
//! whose frames name an initiating account or a calling entity, and the
//! legacy one, whose frames name session, stored-session and
//! stored-contract callers. The immediate caller of this contract is the
//! frame one below the top; with fewer than two frames there is no caller
//! and resolution fails with `InvalidContext`.

use vstd::prelude::*;

use crate::address::{Address, AddressTag, AddressView};
use crate::error::Cep18Error;

verus! {

/// Which address-shape rule applies to caller resolution: the current
/// call-stack shape or the pre-migration one. Persisted as a byte, 0 for
/// `Condor` and 1 for `Legacy`.
#[derive(Clone, Copy, PartialEq, Eq, Structural, Debug)]
pub enum LegacyKeyCompat {
    /// Resolve the caller from the current call-stack shape.
    Condor,
    /// Resolve the caller from the pre-migration call-stack shape.
    Legacy,
}

impl LegacyKeyCompat {
    /// The persisted byte of a compatibility mode.
    pub open spec fn to_u8_spec(self) -> u8 {
        match self {
            LegacyKeyCompat::Condor => 0u8,
            LegacyKeyCompat::Legacy => 1u8,
        }
    }

    /// The persisted byte of a compatibility mode.
    pub fn to_u8(&self) -> (r: u8)
        ensures
            r == self.to_u8_spec(),
    {
        match self {
            LegacyKeyCompat::Condor => 0u8,
            LegacyKeyCompat::Legacy => 1u8,
        }
    }

    /// Decodes a compatibility mode from its persisted byte; any byte above
    /// 1 is rejected.
    pub fn from_u8(v: u8) -> (r: Option<LegacyKeyCompat>)
        ensures
            match r {
                Some(m) => m.to_u8_spec() == v,
                None => v > 1,
            },
    {
        match v {
            0u8 => Some(LegacyKeyCompat::Condor),
            1u8 => Some(LegacyKeyCompat::Legacy),
            _ => None,
        }
    }
}

/// A frame of the current call-stack shape.
#[derive(Debug)]
pub enum CallerFrame {
    /// The account that initiated the execution.
    Initiator {
        /// The 32-byte account hash.
        account_hash: Vec<u8>,
    },
    /// A calling entity, named by its package.
    Entity {
        /// The 32-byte package hash.
        package_hash: Vec<u8>,
    },
}

/// A frame of the legacy call-stack shape.
#[derive(Debug)]
pub enum CallStackElement {
    /// Session code running in an account's context.
    Session {
        /// The 32-byte account hash.
        account_hash: Vec<u8>,
    },
    /// Stored code running in an account's context.
    StoredSession {
        /// The 32-byte account hash.
        account_hash: Vec<u8>,
        /// The 32-byte contract package hash.
        contract_package_hash: Vec<u8>,
    },
    /// A stored contract, named by its package.
    StoredContract {
        /// The 32-byte contract package hash.
        contract_package_hash: Vec<u8>,
    },
}

/// The address a current-shape frame acts as.
pub open spec fn caller_frame_addr(f: CallerFrame) -> AddressView {
    match f {
        CallerFrame::Initiator { account_hash } => AddressView {
            tag: AddressTag::EntityAccount,
            bytes: account_hash@,
        },
        CallerFrame::Entity { package_hash } => AddressView {
            tag: AddressTag::Package,
            bytes: package_hash@,
        },
    }
}

/// The address a legacy-shape frame acts as: stored session code acts in
/// its hosting account's context, a stored contract as its package.
pub open spec fn legacy_frame_addr(f: CallStackElement) -> AddressView {
    match f {
        CallStackElement::Session { account_hash } => AddressView {
            tag: AddressTag::Account,
            bytes: account_hash@,
        },
        CallStackElement::StoredSession { account_hash, .. } => AddressView {
            tag: AddressTag::Account,
            bytes: account_hash@,
        },
        CallStackElement::StoredContract { contract_package_hash } => AddressView {
            tag: AddressTag::Hash,
            bytes: contract_package_hash@,
        },
    }
}

/// A current-shape frame is well-formed when its hash has 32 bytes.
pub open spec fn wf_caller_frame(f: CallerFrame) -> bool {
    caller_frame_addr(f).bytes.len() == 32
}

/// A legacy-shape frame is well-formed when its hashes have 32 bytes.
pub open spec fn wf_legacy_frame(f: CallStackElement) -> bool {
    legacy_frame_addr(f).bytes.len() == 32
}

/// The address a current-shape frame acts as: an initiating account as an
/// entity-account address, a calling entity as its package.
pub fn call_stack_element_to_address(frame: &CallerFrame) -> (r: Address)
    ensures
        r@ == caller_frame_addr(*frame),
{
    match frame {
        CallerFrame::Initiator { account_hash } => {
            let a = Address { tag: AddressTag::EntityAccount, hash: copy_bytes(account_hash) };
            a
        },
        CallerFrame::Entity { package_hash } => {
            let a = Address { tag: AddressTag::Package, hash: copy_bytes(package_hash) };
            a
        },
    }
}

/// The address a legacy-shape frame acts as. Stored session code acts in an
/// account's context, so its hosting account is used; a stored contract is
/// named by its package hash.
pub fn call_stack_element_to_address_legacy(frame: &CallStackElement) -> (r: Address)
    ensures
        r@ == legacy_frame_addr(*frame),
{
    match frame {
        CallStackElement::Session { account_hash } => {
            let a = Address { tag: AddressTag::Account, hash: copy_bytes(account_hash) };
            a
        },
        CallStackElement::StoredSession { account_hash, .. } => {
            let a = Address { tag: AddressTag::Account, hash: copy_bytes(account_hash) };
            a
        },
        CallStackElement::StoredContract { contract_package_hash } => {
            let a = Address { tag: AddressTag::Hash, hash: copy_bytes(contract_package_hash) };
            a
        },
    }
}

/// Resolves the immediate caller from a current-shape call stack: the frame
/// one below the top. Fails with `InvalidContext` when no such frame exists.
pub fn get_immediate_caller_address(call_stack: &Vec<CallerFrame>) -> (r: Result<
    Address,
    Cep18Error,
>)
    ensures
        r matches Ok(a) ==> call_stack@.len() >= 2 && a@ == caller_frame_addr(
            call_stack@[call_stack@.len() - 2],
        ),
        r matches Err(e) ==> call_stack@.len() < 2 && e == Cep18Error::InvalidContext,
{
    if call_stack.len() >= 2 {
        Ok(call_stack_element_to_address(&call_stack[call_stack.len() - 2]))
    } else {
        Err(Cep18Error::InvalidContext)
    }
}

/// Resolves the immediate caller from a legacy-shape call stack: the frame
/// one below the top. Fails with `InvalidContext` when no such frame exists.
pub fn get_immediate_caller_address_legacy(call_stack: &Vec<CallStackElement>) -> (r: Result<
    Address,
    Cep18Error,
>)
    ensures
        r matches Ok(a) ==> call_stack@.len() >= 2 && a@ == legacy_frame_addr(
            call_stack@[call_stack@.len() - 2],
        ),
        r matches Err(e) ==> call_stack@.len() < 2 && e == Cep18Error::InvalidContext,
{
    if call_stack.len() >= 2 {
        Ok(call_stack_element_to_address_legacy(&call_stack[call_stack.len() - 2]))
    } else {
        Err(Cep18Error::InvalidContext)
    }
}

/// An identical copy of a byte vector.
fn copy_bytes(src: &Vec<u8>) -> (r: Vec<u8>)
    ensures
        r@ == src@,
{
    let mut bytes: Vec<u8> = Vec::new();
    let mut i: usize = 0;
    while i < src.len()
        invariant
            i <= src.len(),
            bytes@ == src@.take(i as int),
        decreases src.len() - i,
    {
        bytes.push(src[i]);
        i = i + 1;
        proof {
            assert(bytes@ =~= src@.take(i as int));
        }
    }
    proof {
        assert(bytes@ =~= src@);
    }
    bytes
}

} // verus!
