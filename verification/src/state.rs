//! Compile-time tags recording what is known about a token's interrupts.
//!
//! A token carries one of four tags. Three of them — [`Disabled`],
//! [`EnabledLine0`], [`EnabledLine1`] — record a state that is statically
//! known; [`Dynamic`] says the state was chosen at run time (or is simply
//! not tracked) and may be any of the three. The two marker traits group
//! the tags by capability.

use vstd::prelude::*;

verus! {

/// The state is not statically known: the interrupts may be disabled or
/// enabled on either line.
pub struct Dynamic;

/// Every interrupt of the token has its flag-enable bit cleared.
pub struct Disabled;

/// Every interrupt of the token is enabled and routed to line 0.
pub struct EnabledLine0;

/// Every interrupt of the token is enabled and routed to line 1.
pub struct EnabledLine1;

/// Tags whose state is statically known; such a token may always be
/// widened to [`Dynamic`].
pub trait Static {}

impl Static for Disabled {}

impl Static for EnabledLine0 {}

impl Static for EnabledLine1 {}

/// Tags under which interrupts may currently be delivering, so reading and
/// clearing the pending flags is meaningful.
pub trait MaybeEnabled {}

impl MaybeEnabled for Dynamic {}

impl MaybeEnabled for EnabledLine0 {}

impl MaybeEnabled for EnabledLine1 {}

} // verus!
