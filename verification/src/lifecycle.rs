//! The certificate lifecycle state machine.
//!
//! One order at a time moves `Idle -> OrderRequested -> ValidationPending
//! -> Validating -> Issued`; time passing moves `Issued -> RenewalDue`,
//! which starts the next order.  A protocol error from any in-progress
//! state moves to `Failed`, which returns to `Idle` after a backoff; the
//! manager never terminates on a failed order.  The domain set is fixed
//! at startup, and a certificate already held keeps being served through
//! failures.

use vstd::prelude::*;

use crate::bundle::bundle_of;
use crate::bundle::spec_default_alpn;
use crate::bundle::CertificateRecord;
use crate::bundle::TlsConfigState;

verus! {

/// Where the current certificate order stands.
#[derive(Debug, Clone, Copy, PartialEq, Eq, Structural)]
pub enum OrderState {
    /// No order in flight and no certificate work due.
    Idle,
    /// An order was submitted to the directory.
    OrderRequested,
    /// Challenge material is computed and retrievable through the
    /// challenge bundle; the authority has not probed yet.
    ValidationPending,
    /// The authority is probing the domains.
    Validating,
    /// A certificate is held and served; dormant until renewal is due.
    Issued,
    /// The renewal threshold has passed; a new order must be placed.
    RenewalDue,
    /// The last order failed; waiting out the backoff.
    Failed,
}

/// Whether a state has an order in progress, so that a protocol error
/// can fail it.
pub open spec fn in_progress(st: OrderState) -> bool {
    st == OrderState::OrderRequested || st == OrderState::ValidationPending || st
        == OrderState::Validating
}

/// Whether renewal is due: a certificate exists and the clock has come
/// within the renewal margin of its expiry.
pub open spec fn spec_renewal_due(expiry: Option<u64>, margin: u64, now: u64) -> bool {
    match expiry {
        Some(e) => now + margin >= e,
        None => false,
    }
}

/// What the clock does to a state: an issued certificate whose renewal
/// threshold has been reached becomes due for renewal; nothing else
/// moves.
pub open spec fn spec_tick_state(st: OrderState, due: bool) -> OrderState {
    if st == OrderState::Issued && due {
        OrderState::RenewalDue
    } else {
        st
    }
}

/// The certificate lifecycle manager: the order state, the expiry of the
/// certificate currently held, and the fixed renewal margin.
#[derive(Debug)]
pub struct LifecycleManager {
    /// The domains every order covers; fixed at startup, never empty.
    pub domains: Vec<String>,
    /// Where the current order stands.
    pub state: OrderState,
    /// The expiry of the certificate currently held and served, if any.
    pub cert_expiry: Option<u64>,
    /// How long before expiry renewal becomes due, in seconds.
    pub renew_margin: u64,
}

impl LifecycleManager {
    /// The domain set is never empty.
    pub open spec fn wf(self) -> bool {
        self.domains@.len() > 0
    }

    /// A new manager: idle, holding no certificate yet.
    pub fn new(domains: Vec<String>, renew_margin: u64) -> (r: Self)
        requires
            domains@.len() > 0,
        ensures
            r.wf(),
            r.domains == domains,
            r.state == OrderState::Idle,
            r.cert_expiry is None,
            r.renew_margin == renew_margin,
    {
        LifecycleManager { domains, state: OrderState::Idle, cert_expiry: None, renew_margin }
    }

    /// Places an order: from `Idle` or `RenewalDue` to `OrderRequested`.
    /// The certificate already held, if any, keeps being served.
    pub fn start_order(&mut self)
        requires
            old(self).state == OrderState::Idle || old(self).state == OrderState::RenewalDue,
        ensures
            final(self).state == OrderState::OrderRequested,
            final(self).domains == old(self).domains,
            final(self).cert_expiry == old(self).cert_expiry,
            final(self).renew_margin == old(self).renew_margin,
    {
        self.state = OrderState::OrderRequested;
    }

    /// The challenge material for every domain is computed and published
    /// through the challenge bundle: the order awaits validation.
    pub fn challenge_ready(&mut self)
        requires
            old(self).state == OrderState::OrderRequested,
        ensures
            final(self).state == OrderState::ValidationPending,
            final(self).domains == old(self).domains,
            final(self).cert_expiry == old(self).cert_expiry,
            final(self).renew_margin == old(self).renew_margin,
    {
        self.state = OrderState::ValidationPending;
    }

    /// The authority has begun probing the domains.
    pub fn validation_started(&mut self)
        requires
            old(self).state == OrderState::ValidationPending,
        ensures
            final(self).state == OrderState::Validating,
            final(self).domains == old(self).domains,
            final(self).cert_expiry == old(self).cert_expiry,
            final(self).renew_margin == old(self).renew_margin,
    {
        self.state = OrderState::Validating;
    }

    /// The certificate was downloaded: the order is done, the new expiry
    /// is recorded, and the manager goes dormant until renewal is due.
    pub fn certificate_issued(&mut self, expiry: u64)
        requires
            old(self).state == OrderState::Validating,
        ensures
            final(self).state == OrderState::Issued,
            final(self).cert_expiry == Some(expiry),
            final(self).domains == old(self).domains,
            final(self).renew_margin == old(self).renew_margin,
    {
        self.state = OrderState::Issued;
        self.cert_expiry = Some(expiry);
    }

    /// A protocol error failed the order in progress.  The certificate
    /// already held keeps being served; only the order is lost.
    pub fn order_failed(&mut self)
        requires
            in_progress(old(self).state),
        ensures
            final(self).state == OrderState::Failed,
            final(self).domains == old(self).domains,
            final(self).cert_expiry == old(self).cert_expiry,
            final(self).renew_margin == old(self).renew_margin,
    {
        self.state = OrderState::Failed;
    }

    /// The backoff after a failure has elapsed: try again from `Idle`.
    pub fn backoff_elapsed(&mut self)
        requires
            old(self).state == OrderState::Failed,
        ensures
            final(self).state == OrderState::Idle,
            final(self).domains == old(self).domains,
            final(self).cert_expiry == old(self).cert_expiry,
            final(self).renew_margin == old(self).renew_margin,
    {
        self.state = OrderState::Idle;
    }

    /// The certificate was downloaded: the order completes and the new
    /// record is published whole as the default bundle, so that every
    /// connection accepted afterwards observes it.  The challenge bundle
    /// is untouched.
    pub fn complete_order(&mut self, tls: &mut TlsConfigState, record: &CertificateRecord)
        requires
            old(self).state == OrderState::Validating,
            record.wf(),
        ensures
            final(self).state == OrderState::Issued,
            final(self).cert_expiry == Some(record.expires_at),
            final(self).domains == old(self).domains,
            final(self).renew_margin == old(self).renew_margin,
            (match final(tls).default_spec() {
                Some(b) => bundle_of(b, *record, spec_default_alpn()),
                None => false,
            }),
            final(tls).challenge_spec() == old(tls).challenge_spec(),
    {
        self.certificate_issued(record.expires_at);
        tls.install_default(record);
    }

    /// Whether the renewal threshold has been reached.
    pub fn renewal_due(&self, now: u64) -> (r: bool)
        ensures
            r == spec_renewal_due(self.cert_expiry, self.renew_margin, now),
    {
        match self.cert_expiry {
            Some(e) => {
                // `now + margin >= e`, computed without overflow.
                if now >= e {
                    true
                } else {
                    e - now <= self.renew_margin
                }
            },
            None => false,
        }
    }

    /// Lets the clock act: an issued certificate whose renewal threshold
    /// has been reached becomes due for renewal; every other state, and
    /// everything else about the manager, is left exactly as it was.
    pub fn tick(&mut self, now: u64)
        ensures
            final(self).state == spec_tick_state(
                old(self).state,
                spec_renewal_due(old(self).cert_expiry, old(self).renew_margin, now),
            ),
            final(self).domains == old(self).domains,
            final(self).cert_expiry == old(self).cert_expiry,
            final(self).renew_margin == old(self).renew_margin,
    {
        if matches!(self.state, OrderState::Issued) && self.renewal_due(now) {
            self.state = OrderState::RenewalDue;
        }
    }
}

/// Once `Issued`, the renewal transition is dormant until the threshold
/// is reached: letting the clock act twice in immediate succession, with
/// renewal not yet due, changes nothing -- no second order is placed and
/// no second certificate can be swapped in, since issuance is reachable
/// only from `Validating`.
pub proof fn lemma_issued_is_dormant(st: OrderState, due: bool)
    requires
        st == OrderState::Issued,
        !due,
    ensures
        spec_tick_state(st, due) == st,
        spec_tick_state(spec_tick_state(st, due), due) == st,
        !in_progress(spec_tick_state(st, due)),
{
}

} // verus!
