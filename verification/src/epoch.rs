//! The epoch domain: declarations for the `crossbeam_epoch` items that the
//! logger carries through. Nothing inside these values is visible to proofs.

use vstd::prelude::*;
use crossbeam_epoch::{Collector, Guard, LocalHandle};

verus! {

/// `crossbeam_epoch::Collector`, an epoch domain. Opaque.
#[verifier::external_type_specification]
#[verifier::external_body]
pub struct ExCollector(crossbeam_epoch::Collector);

/// `crossbeam_epoch::LocalHandle`, one participant of a domain. Opaque.
/// Dropping the value unregisters the participant.
#[verifier::external_type_specification]
#[verifier::external_body]
pub struct ExLocalHandle(crossbeam_epoch::LocalHandle);

/// `crossbeam_epoch::Guard`, a protected access window. Opaque.
/// Dropping the value leaves the window.
#[verifier::external_type_specification]
#[verifier::external_body]
pub struct ExGuard(crossbeam_epoch::Guard);

/// The domain that a participant belongs to: what `LocalHandle::collector`
/// returns for it. A participant keeps its domain for as long as it lives.
pub uninterp spec fn domain_of(participant: LocalHandle) -> Collector;

/// The domain of the participant that entered a window: what
/// `Guard::collector` returns for it. It is `None` only for a window that no
/// participant entered.
pub uninterp spec fn window_domain(window: Guard) -> Option<Collector>;

/// `Collector::new` creates a fresh domain. Nothing is claimed of the result.
pub assume_specification[ Collector::new ]() -> (domain: Collector);

/// `Collector::register` adds a participant to the domain and returns its
/// handle. The participant keeps a reference to the domain, which is what
/// `LocalHandle::collector` hands out: the new participant belongs to
/// `domain`.
pub assume_specification[ Collector::register ](domain: &Collector) -> (participant: LocalHandle)
    ensures
        domain_of(participant) == *domain,
;

/// `LocalHandle::collector` returns the domain that the participant was
/// registered with.
pub assume_specification<'a>[ LocalHandle::collector ](participant: &'a LocalHandle) -> (domain:
    &'a Collector)
    ensures
        *domain == domain_of(*participant),
;

/// `LocalHandle::pin` enters a protected window. The window refers to the
/// participant that entered it, so `Guard::collector` returns that
/// participant's domain for it. The call fails only when the participant
/// already holds `usize::MAX` windows; the logger holds at most one at a
/// time.
pub assume_specification[ LocalHandle::pin ](participant: &LocalHandle) -> (window: Guard)
    ensures
        window_domain(window) == Some(domain_of(*participant)),
;

} // verus!
