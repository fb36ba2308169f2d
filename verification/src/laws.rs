//! The library's laws: properties that hold across entry-point calls,
//! stated over the transition relations the entry points' contracts
//! guarantee and proved once and for all.

use vstd::prelude::*;

use crate::address::AddressView;
use crate::balances::{lookup_balance, sum_balances};
use crate::allowances::lookup_allowance;
use crate::events::{route_spec, EventsMode, Sink};
use crate::security::{delta_of, SecurityBadge};
use crate::state::{saturated_decrease, TokenState};
use crate::u256::pow2_256;
use crate::u256::U256;

verus! {

/// Conservation: a transfer moves value between balances and leaves the
/// supply fixed, so when `total_supply == Σ balances` held before, it holds
/// after. The same transition underlies `transfer_from`.
pub proof fn lemma_transfer_preserves_conservation(
    pre: TokenState,
    post: TokenState,
    sender: AddressView,
    recipient: AddressView,
    amount: nat,
)
    requires
        TokenState::balance_move_transition(pre, post, sender, recipient, amount),
        pre.conserves(),
    ensures
        post.conserves(),
{
}

/// Conservation: a mint adds the same amount to one balance and to the
/// supply, so `total_supply == Σ balances` is preserved.
pub proof fn lemma_mint_preserves_conservation(
    pre: TokenState,
    post: TokenState,
    owner: AddressView,
    amount: nat,
)
    requires
        TokenState::mint_transition(pre, post, owner, amount),
        pre.conserves(),
    ensures
        post.conserves(),
{
}

/// Conservation: a burn subtracts the same amount from one balance and from
/// the supply, so `total_supply == Σ balances` is preserved.
pub proof fn lemma_burn_preserves_conservation(
    pre: TokenState,
    post: TokenState,
    owner: AddressView,
    amount: nat,
)
    requires
        TokenState::burn_transition(pre, post, owner, amount),
        pre.conserves(),
    ensures
        post.conserves(),
{
}

/// Every balance the ledger reports lies in `[0, 2^256)`: each entry holds
/// a 256-bit value and a missing entry reads as zero.
pub proof fn lemma_balance_in_range(s: Seq<(crate::address::Address, U256)>, k: AddressView)
    ensures
        lookup_balance(s, k) < pow2_256(),
    decreases s.len(),
{
    if s.len() == 0 {
    } else if s.last().0@ == k {
        crate::u256::lemma_u256_range(s.last().1);
    } else {
        lemma_balance_in_range(s.drop_last(), k);
    }
}

/// Every allowance the ledger reports lies in `[0, 2^256)`.
pub proof fn lemma_allowance_in_range(
    s: Seq<(crate::address::Address, crate::address::Address, U256)>,
    o: AddressView,
    sp: AddressView,
)
    ensures
        lookup_allowance(s, o, sp) < pow2_256(),
    decreases s.len(),
{
    if s.len() == 0 {
    } else if s.last().0@ == o && s.last().1@ == sp {
        crate::u256::lemma_u256_range(s.last().2);
    } else {
        lemma_allowance_in_range(s.drop_last(), o, sp);
    }
}

/// The balance sum a state conserves never reaches `2^256` either: it
/// equals the total supply, which is a 256-bit value.
pub proof fn lemma_supply_in_range(s: TokenState)
    requires
        s.conserves(),
    ensures
        sum_balances(s.balances.entries@) < pow2_256(),
{
    crate::u256::lemma_u256_range(s.total_supply);
}

/// Approve is idempotent in its last write: after approving `x` and then
/// `y` for the same (owner, spender) pair, the allowance is exactly `y`.
pub proof fn lemma_approve_idempotent(
    s0: TokenState,
    s1: TokenState,
    s2: TokenState,
    owner: AddressView,
    spender: AddressView,
    x: nat,
    y: nat,
)
    requires
        TokenState::approve_transition(s0, s1, owner, spender, x),
        TokenState::approve_transition(s1, s2, owner, spender, y),
    ensures
        s2.allowance_spec(owner, spender) == y,
{
}

/// Increase then decrease by the same amount is the identity on the
/// allowance, provided the increase does not overflow: from allowance `a`
/// with `a + x < 2^256`, `increase_allowance(x)` followed by
/// `decrease_allowance(x)` returns the allowance to `a`.
pub proof fn lemma_increase_decrease_inverse(
    s0: TokenState,
    s1: TokenState,
    s2: TokenState,
    owner: AddressView,
    spender: AddressView,
    a: nat,
    x: nat,
)
    requires
        s0.allowance_spec(owner, spender) == a,
        a + x < pow2_256(),
        TokenState::approve_transition(s0, s1, owner, spender, a + x),
        TokenState::approve_transition(s1, s2, owner, spender, saturated_decrease(s1.allowance_spec(owner, spender), x)),
    ensures
        s2.allowance_spec(owner, spender) == a,
{
    assert(s1.allowance_spec(owner, spender) == a + x);
    assert(saturated_decrease((a + x) as nat, x) == a);
}

/// The decrease saturates: from allowance `a`, decreasing by `x` leaves
/// exactly `max(a - x, 0)` — a larger decrement zeroes the allowance
/// rather than aborting.
pub proof fn lemma_decrease_saturates(a: nat, x: nat)
    ensures
        saturated_decrease(a, x) == if a >= x {
            (a - x) as nat
        } else {
            0
        },
        x >= a ==> saturated_decrease(a, x) == 0,
{
}

/// A badge update that ends with the minter badge for an address lets that
/// address mint: after a `change_security` whose composed delta maps `k` to
/// `Minter` or `Admin`, the mint authorization check passes for `k`.
pub proof fn lemma_change_security_enables_mint(
    pre: TokenState,
    post: TokenState,
    ups: Seq<(AddressView, SecurityBadge)>,
    k: AddressView,
)
    requires
        TokenState::change_security_transition(pre, post, ups),
        delta_of(ups, k) == Some(SecurityBadge::Minter) || delta_of(ups, k) == Some(
            SecurityBadge::Admin,
        ),
    ensures
        post.may_mint(k),
{
    crate::security::lemma_updated_badge_decompose(pre.badges.entries@, ups, k);
    assert(post.badge_spec(k) == crate::security::lookup_badge(post.badges.entries@, k));
    let allowed = seq![SecurityBadge::Admin, SecurityBadge::Minter];
    assert(allowed[0] == SecurityBadge::Admin && allowed[1] == SecurityBadge::Minter);
    assert(allowed.contains(SecurityBadge::Admin));
    assert(allowed.contains(SecurityBadge::Minter));
}

/// Event exactness: the sink plan of a mode holds each sink at most once,
/// holds the CES sink exactly when the mode writes CES records, and its
/// length is the mode's sink count — 0, 1 or 2.
pub proof fn lemma_event_exactness(mode: EventsMode)
    ensures
        route_spec(mode).contains(Sink::Ces) <==> mode.uses_ces_spec(),
        forall|i: int, j: int|
            0 <= i < j < route_spec(mode).len() ==> route_spec(mode)[i] != route_spec(mode)[j],
        route_spec(mode).len() == match mode {
            EventsMode::NoEvents => 0int,
            EventsMode::CES => 1int,
            EventsMode::Native => 1int,
            EventsMode::NativeBytes => 1int,
            EventsMode::NativeNCES => 2int,
            EventsMode::NativeBytesNCES => 2int,
        },
{
    let plan = route_spec(mode);
    match mode {
        EventsMode::NoEvents => {
            assert(!plan.contains(Sink::Ces)) by {
                assert(plan.len() == 0);
            }
        },
        EventsMode::CES => {
            assert(plan[0] == Sink::Ces);
            assert(plan.contains(Sink::Ces));
        },
        EventsMode::Native => {
            assert(forall|i: int| 0 <= i < plan.len() ==> plan[i] == Sink::Native);
        },
        EventsMode::NativeBytes => {
            assert(forall|i: int| 0 <= i < plan.len() ==> plan[i] == Sink::NativeBytes);
        },
        EventsMode::NativeNCES => {
            assert(plan[1] == Sink::Ces);
            assert(plan.contains(Sink::Ces));
        },
        EventsMode::NativeBytesNCES => {
            assert(plan[1] == Sink::Ces);
            assert(plan.contains(Sink::Ces));
        },
    }
}

} // verus!
