//! The event model and the event multiplexer.
//!
//! Every successful state-changing entry point yields exactly one [`Event`].
//! The active [`EventsMode`] routes it to zero, one or two sinks:
//!
//! | Mode              | CES | Native (string) | Native (bytes) |
//! |-------------------|-----|-----------------|----------------|
//! | `NoEvents`        |  —  |        —        |       —        |
//! | `CES`             | yes |        —        |       —        |
//! | `Native`          |  —  |       yes       |       —        |
//! | `NativeBytes`     |  —  |        —        |      yes       |
//! | `NativeNCES`      | yes |       yes       |       —        |
//! | `NativeBytesNCES` | yes |        —        |      yes       |
//!
//! [`route_event`] computes the sink plan — for the two-sink modes the
//! native message first, then the CES record; the embedding program performs
//! the emissions in that order.

use vstd::prelude::*;

use crate::address::Address;
use crate::security::SecurityBadge;
use crate::u256::U256;

verus! {

/// The events mode: which sinks receive each event. Persisted as a byte,
/// numbering the variants 0 to 5 in declaration order.
#[derive(Clone, Copy, PartialEq, Eq, Structural, Debug)]
pub enum EventsMode {
    /// No sink.
    NoEvents,
    /// The CES events dictionary only.
    CES,
    /// A native host message with a textual payload only.
    Native,
    /// A native host message with an opaque byte payload only.
    NativeBytes,
    /// A native textual message and the CES dictionary.
    NativeNCES,
    /// A native byte-payload message and the CES dictionary.
    NativeBytesNCES,
}

impl EventsMode {
    /// The persisted byte of a mode: its position in declaration order.
    pub open spec fn to_u8_spec(self) -> u8 {
        match self {
            EventsMode::NoEvents => 0u8,
            EventsMode::CES => 1u8,
            EventsMode::Native => 2u8,
            EventsMode::NativeBytes => 3u8,
            EventsMode::NativeNCES => 4u8,
            EventsMode::NativeBytesNCES => 5u8,
        }
    }

    /// The persisted byte of a mode.
    pub fn to_u8(&self) -> (r: u8)
        ensures
            r == self.to_u8_spec(),
    {
        match self {
            EventsMode::NoEvents => 0u8,
            EventsMode::CES => 1u8,
            EventsMode::Native => 2u8,
            EventsMode::NativeBytes => 3u8,
            EventsMode::NativeNCES => 4u8,
            EventsMode::NativeBytesNCES => 5u8,
        }
    }

    /// Decodes a mode from its persisted byte; any byte above 5 is rejected.
    pub fn from_u8(v: u8) -> (r: Option<EventsMode>)
        ensures
            match r {
                Some(m) => m.to_u8_spec() == v,
                None => v > 5,
            },
    {
        match v {
            0u8 => Some(EventsMode::NoEvents),
            1u8 => Some(EventsMode::CES),
            2u8 => Some(EventsMode::Native),
            3u8 => Some(EventsMode::NativeBytes),
            4u8 => Some(EventsMode::NativeNCES),
            5u8 => Some(EventsMode::NativeBytesNCES),
            _ => None,
        }
    }

    /// Whether this mode writes CES records.
    pub open spec fn uses_ces_spec(self) -> bool {
        self is CES || self is NativeNCES || self is NativeBytesNCES
    }

    /// Whether this mode writes CES records.
    pub fn uses_ces(&self) -> (r: bool)
        ensures
            r == self.uses_ces_spec(),
    {
        match self {
            EventsMode::CES => true,
            EventsMode::NativeNCES => true,
            EventsMode::NativeBytesNCES => true,
            _ => false,
        }
    }
}

/// A mint: tokens created into `recipient`'s balance.
#[derive(Debug)]
pub struct Mint {
    /// The balance credited.
    pub recipient: Address,
    /// The amount created.
    pub amount: U256,
}

/// A burn: tokens destroyed from `owner`'s balance.
#[derive(Debug)]
pub struct Burn {
    /// The balance debited.
    pub owner: Address,
    /// The amount destroyed.
    pub amount: U256,
}

/// An allowance set to an absolute value.
#[derive(Debug)]
pub struct SetAllowance {
    /// The balance owner granting the allowance.
    pub owner: Address,
    /// The spender granted the allowance.
    pub spender: Address,
    /// The new allowance.
    pub allowance: U256,
}

/// An allowance raised by an increment.
#[derive(Debug)]
pub struct IncreaseAllowance {
    /// The balance owner granting the allowance.
    pub owner: Address,
    /// The spender granted the allowance.
    pub spender: Address,
    /// The allowance after the increase.
    pub allowance: U256,
    /// The increment applied.
    pub inc_by: U256,
}

/// An allowance lowered by a decrement, saturating at zero.
#[derive(Debug)]
pub struct DecreaseAllowance {
    /// The balance owner granting the allowance.
    pub owner: Address,
    /// The spender granted the allowance.
    pub spender: Address,
    /// The allowance after the decrease.
    pub allowance: U256,
    /// The decrement requested.
    pub decr_by: U256,
}

/// A direct transfer between two balances.
#[derive(Debug)]
pub struct Transfer {
    /// The balance debited.
    pub sender: Address,
    /// The balance credited.
    pub recipient: Address,
    /// The amount moved.
    pub amount: U256,
}

/// A transfer drawn by a spender against an owner's allowance.
#[derive(Debug)]
pub struct TransferFrom {
    /// The caller spending the allowance.
    pub spender: Address,
    /// The balance debited.
    pub owner: Address,
    /// The balance credited.
    pub recipient: Address,
    /// The amount moved.
    pub amount: U256,
}

/// A bulk security-badge update.
#[derive(Debug)]
pub struct ChangeSecurity {
    /// The admin that performed the update.
    pub admin: Address,
    /// The badge-delta map applied, one entry per address.
    pub sec_change_map: Vec<(Address, SecurityBadge)>,
}

/// An events-mode change.
#[derive(Debug)]
pub struct ChangeEventsMode {
    /// The persisted byte of the new mode.
    pub events_mode: u8,
}

/// The tagged union of everything a state-changing entry point can emit.
#[derive(Debug)]
pub enum Event {
    /// Tokens created.
    Mint(Mint),
    /// Tokens destroyed.
    Burn(Burn),
    /// An allowance set.
    SetAllowance(SetAllowance),
    /// An allowance raised.
    IncreaseAllowance(IncreaseAllowance),
    /// An allowance lowered.
    DecreaseAllowance(DecreaseAllowance),
    /// A direct transfer.
    Transfer(Transfer),
    /// A transfer against an allowance.
    TransferFrom(TransferFrom),
    /// A bulk badge update.
    ChangeSecurity(ChangeSecurity),
    /// An events-mode change.
    ChangeEventsMode(ChangeEventsMode),
}

/// A sink an event is routed to.
#[derive(Clone, Copy, PartialEq, Eq, Structural, Debug)]
pub enum Sink {
    /// The CES events dictionary.
    Ces,
    /// A native host message with the textual rendering of the event.
    Native,
    /// A native host message with the rendering wrapped as opaque bytes.
    NativeBytes,
}

/// The sink plan of a mode: which sinks receive an event, in emission order.
pub open spec fn route_spec(mode: EventsMode) -> Seq<Sink> {
    match mode {
        EventsMode::NoEvents => Seq::empty(),
        EventsMode::CES => seq![Sink::Ces],
        EventsMode::Native => seq![Sink::Native],
        EventsMode::NativeBytes => seq![Sink::NativeBytes],
        EventsMode::NativeNCES => seq![Sink::Native, Sink::Ces],
        EventsMode::NativeBytesNCES => seq![Sink::NativeBytes, Sink::Ces],
    }
}

/// Computes the sink plan of a mode: each event of a successful
/// state-changing call goes to exactly these sinks, once each, in order.
pub fn route_event(mode: EventsMode) -> (r: Vec<Sink>)
    ensures
        r@ == route_spec(mode),
{
    let mut plan: Vec<Sink> = Vec::new();
    match mode {
        EventsMode::NoEvents => {},
        EventsMode::CES => {
            plan.push(Sink::Ces);
        },
        EventsMode::Native => {
            plan.push(Sink::Native);
        },
        EventsMode::NativeBytes => {
            plan.push(Sink::NativeBytes);
        },
        EventsMode::NativeNCES => {
            plan.push(Sink::Native);
            plan.push(Sink::Ces);
        },
        EventsMode::NativeBytesNCES => {
            plan.push(Sink::NativeBytes);
            plan.push(Sink::Ces);
        },
    }
    proof {
        assert(plan@ =~= route_spec(mode));
    }
    plan
}

/// Whether the CES schemas must be registered when this mode becomes
/// active: exactly when the mode writes CES records and the events
/// dictionary does not exist yet.
pub fn needs_ces_init(mode: EventsMode, events_dict_exists: bool) -> (r: bool)
    ensures
        r == (mode.uses_ces_spec() && !events_dict_exists),
{
    mode.uses_ces() && !events_dict_exists
}

} // verus!
