//! When a certificate is to be replaced.

use crate::acme::der::{not_after, parse_x509_not_after};
use crate::acme::duration::{duration_fits, duration_seconds, parse_duration};
use crate::acme::error::{AcmeError, AcmeErrorView};
use vstd::prelude::*;

verus! {

/// A length of time, or a point in time as what has passed since the Unix epoch.
#[derive(Clone, Copy, Debug, PartialEq, Eq, Structural)]
pub struct Span {
    pub secs: u64,
    pub nanos: u32,
}

impl Span {
    /// Less than a whole second stands in `nanos`.
    pub open spec fn well_formed(self) -> bool {
        self.nanos < 1_000_000_000
    }

    /// The span in nanoseconds.
    pub open spec fn total(self) -> nat {
        self.secs as nat * 1_000_000_000 + self.nanos as nat
    }

    /// Whether the span is longer than a number of whole seconds.
    pub fn exceeds(&self, secs: u64) -> (r: bool)
        requires
            self.well_formed(),
        ensures
            r == (self.total() > secs * 1_000_000_000),
    {
        self.secs > secs || (self.secs == secs && self.nanos > 0)
    }
}

/// What is left from `now` to the second `end`; nothing where `end` has passed.
pub open spec fn left_until(end: nat, now: Span) -> Option<int> {
    if end * 1_000_000_000 >= now.total() {
        Some(end * 1_000_000_000 - now.total())
    } else {
        None
    }
}

/// The time for which the first certificate of a chain still holds; nothing where
/// there is none, where its end cannot be read, and where it has passed.
pub fn cert_time_remaining(chain: &Vec<Vec<u8>>, now: Span) -> (r: Option<Span>)
    requires
        now.well_formed(),
    ensures
        r matches Some(s) ==> s.well_formed(),
        match r {
            Some(s) => chain@.len() > 0 && not_after(chain@[0]@) is Some && left_until(
                not_after(chain@[0]@)->0,
                now,
            ) == Some(s.total() as int),
            None => chain@.len() == 0 || not_after(chain@[0]@) is None || left_until(
                not_after(chain@[0]@)->0,
                now,
            ) is None,
        },
{
    if chain.len() == 0 {
        return None;
    }
    match parse_x509_not_after(chain[0].as_slice()) {
        None => None,
        Some(end) => if end < now.secs || (end == now.secs && now.nanos > 0) {
            None
        } else if now.nanos == 0 {
            Some(Span { secs: end - now.secs, nanos: 0 })
        } else {
            Some(Span { secs: end - now.secs - 1, nanos: 1_000_000_000 - now.nanos })
        },
    }
}

/// Whether a certificate is to be replaced: it holds no longer than `renew_before`
/// seconds, or for how long cannot be told.
pub open spec fn is_due(remaining: Option<Span>, renew_before: u64) -> bool {
    match remaining {
        Some(s) => s.total() <= renew_before * 1_000_000_000,
        None => true,
    }
}

/// Whether a certificate is to be replaced.
pub fn needs_renewal(remaining: Option<Span>, renew_before: u64) -> (r: bool)
    requires
        remaining matches Some(s) ==> s.well_formed(),
    ensures
        r == is_due(remaining, renew_before),
{
    match remaining {
        Some(s) => !s.exceeds(renew_before),
        None => true,
    }
}

// ---- at the start ----

/// What is done about a certificate when the daemon starts.
#[derive(Clone, Copy, Debug, PartialEq, Eq, Structural)]
pub enum CertificatePlan {
    /// The certificate on disk is used.
    UseExisting,
    /// A new certificate is asked for.
    Obtain,
}

/// Whether a plan is what is done about the certificate when the daemon starts.
pub open spec fn is_planned(
    loaded: bool,
    remaining: Option<Span>,
    renew_before: Result<nat, AcmeErrorView>,
    r: Result<CertificatePlan, AcmeError>,
) -> bool {
    match (loaded, renew_before) {
        (false, _) => r matches Ok(p) && p == CertificatePlan::Obtain,
        (true, Ok(n)) => r matches Ok(p) && p == if is_due(remaining, n as u64) {
            CertificatePlan::Obtain
        } else {
            CertificatePlan::UseExisting
        },
        (true, Err(e)) => r matches Err(x) && x@ == e,
    }
}

/// A certificate on disk is used exactly where it could be loaded and holds for longer than
/// the configured time; one that is not there, or about to end, is obtained.
pub proof fn law_certificates_are_used_while_they_hold(
    loaded: bool,
    remaining: Option<Span>,
    n: u64,
    r: Result<CertificatePlan, AcmeError>,
)
    requires
        is_planned(loaded, remaining, Ok(n as nat), r),
        remaining matches Some(s) ==> s.well_formed(),
    ensures
        r matches Ok(p) && (p == CertificatePlan::UseExisting <==> loaded && (
        remaining matches Some(s) && (s.secs > n || (s.secs == n && s.nanos > 0)))),
{
    if let Some(s) = remaining {
        law_due_to_the_nanosecond(s, n);
    }
}

/// What to do about the certificate when the daemon starts. `loaded` says whether
/// certificate and key are on disk and could be loaded; only then does it matter how
/// long the certificate holds, and whether `renew_before_expiry` is a duration.
pub fn plan_certificate(loaded: bool, remaining: Option<Span>, renew_before_expiry: &str) -> (r:
    Result<CertificatePlan, AcmeError>)
    requires
        remaining matches Some(s) ==> s.well_formed(),
        loaded ==> duration_fits(renew_before_expiry@),
    ensures
        is_planned(loaded, remaining, duration_seconds(renew_before_expiry@), r),
        match (loaded, duration_seconds(renew_before_expiry@)) {
            (false, _) => r matches Ok(p) && p == CertificatePlan::Obtain,
            (true, Ok(n)) => r matches Ok(p) && p == if is_due(remaining, n as u64) {
                CertificatePlan::Obtain
            } else {
                CertificatePlan::UseExisting
            },
            (true, Err(e)) => r matches Err(x) && x@ == e,
        },
{
    if !loaded {
        return Ok(CertificatePlan::Obtain);
    }
    match parse_duration(renew_before_expiry) {
        Err(e) => Err(e),
        Ok(n) => if needs_renewal(remaining, n) {
            Ok(CertificatePlan::Obtain)
        } else {
            Ok(CertificatePlan::UseExisting)
        },
    }
}

// ---- in the background ----

/// How often the certificate is looked at.
pub const CHECK_INTERVAL_SECS: u64 = 43200;

/// The first wait after a failure.
pub const INITIAL_BACKOFF_SECS: u64 = 3600;

/// The longest wait after a failure.
pub const MAX_BACKOFF_SECS: u64 = 86400;

/// How long before its end a certificate is replaced where nothing usable is configured.
pub const DEFAULT_RENEW_BEFORE_SECS: u64 = 2592000;

/// What the renewal task is doing.
#[derive(Clone, Copy, Debug, PartialEq, Eq, Structural)]
pub enum RenewalPhase {
    /// It waits for the next look at the certificate.
    Waiting,
    /// It asks for a new certificate.
    Renewing,
    /// It waits after a failure.
    BackingOff,
    /// It has ended.
    Stopped,
}

/// What happens to the renewal task.
#[derive(Clone, Copy, Debug, PartialEq, Eq, Structural)]
pub enum RenewalEvent {
    /// The wait is over; the certificate holds for this long.
    Elapsed { remaining: Option<Span> },
    /// A new certificate is in use.
    Renewed,
    /// No new certificate could be had.
    Failed,
    /// The daemon shuts down.
    Shutdown,
}

/// What the renewal task does next.
#[derive(Clone, Copy, Debug, PartialEq, Eq, Structural)]
pub enum RenewalAction {
    /// Wait for so many seconds.
    Sleep(u64),
    /// Ask for a new certificate.
    Renew,
    /// End.
    Stop,
}

/// The state of the task that replaces the certificate before it ends.
#[derive(Clone, Copy, Debug, PartialEq, Eq, Structural)]
pub struct Renewal {
    pub phase: RenewalPhase,
    /// The wait after the next failure, in seconds.
    pub backoff: u64,
    /// How long before its end the certificate is replaced, in seconds.
    pub renew_before: u64,
}

/// The wait that follows a wait of `backoff` seconds: twice as long, up to a day.
pub open spec fn next_backoff(backoff: u64) -> u64 {
    if backoff * 2 <= MAX_BACKOFF_SECS {
        (backoff * 2) as u64
    } else {
        MAX_BACKOFF_SECS
    }
}

impl Renewal {
    /// The wait after a failure lies between an hour and a day.
    pub open spec fn well_formed(self) -> bool {
        INITIAL_BACKOFF_SECS <= self.backoff <= MAX_BACKOFF_SECS
    }

    /// What the task does after an event. An event that does not belong to what it is
    /// doing changes nothing.
    pub open spec fn after(self, event: RenewalEvent) -> Renewal {
        match (self.phase, event) {
            (RenewalPhase::Stopped, _) => self,
            (RenewalPhase::Waiting, RenewalEvent::Shutdown) => Renewal {
                phase: RenewalPhase::Stopped,
                ..self
            },
            (RenewalPhase::BackingOff, RenewalEvent::Shutdown) => Renewal {
                phase: RenewalPhase::Stopped,
                ..self
            },
            (RenewalPhase::Waiting, RenewalEvent::Elapsed { remaining }) => if is_due(
                remaining,
                self.renew_before,
            ) {
                Renewal { phase: RenewalPhase::Renewing, ..self }
            } else {
                Renewal { backoff: INITIAL_BACKOFF_SECS, ..self }
            },
            (RenewalPhase::Renewing, RenewalEvent::Renewed) => Renewal {
                phase: RenewalPhase::Waiting,
                backoff: INITIAL_BACKOFF_SECS,
                ..self
            },
            (RenewalPhase::Renewing, RenewalEvent::Failed) => Renewal {
                phase: RenewalPhase::BackingOff,
                ..self
            },
            (RenewalPhase::BackingOff, RenewalEvent::Elapsed { .. }) => Renewal {
                phase: RenewalPhase::Waiting,
                backoff: next_backoff(self.backoff),
                ..self
            },
            _ => self,
        }
    }

    /// What the task does in a state.
    pub open spec fn current_action(self) -> RenewalAction {
        match self.phase {
            RenewalPhase::Waiting => RenewalAction::Sleep(CHECK_INTERVAL_SECS),
            RenewalPhase::Renewing => RenewalAction::Renew,
            RenewalPhase::BackingOff => RenewalAction::Sleep(self.backoff),
            RenewalPhase::Stopped => RenewalAction::Stop,
        }
    }

    /// Starts the task. Where `renew_before_expiry` is no duration, thirty days are taken.
    pub fn start(renew_before_expiry: &str) -> (r: Renewal)
        requires
            duration_fits(renew_before_expiry@),
        ensures
            r.well_formed(),
            r.phase == RenewalPhase::Waiting,
            r.backoff == INITIAL_BACKOFF_SECS,
            r.renew_before == match duration_seconds(renew_before_expiry@) {
                Ok(n) => n as u64,
                Err(_) => DEFAULT_RENEW_BEFORE_SECS,
            },
    {
        let renew_before: u64 = match parse_duration(renew_before_expiry) {
            Ok(n) => n,
            Err(_) => DEFAULT_RENEW_BEFORE_SECS,
        };
        Renewal { phase: RenewalPhase::Waiting, backoff: INITIAL_BACKOFF_SECS, renew_before }
    }

    /// What the task does now.
    pub fn action(&self) -> (r: RenewalAction)
        ensures
            r == self.current_action(),
    {
        match self.phase {
            RenewalPhase::Waiting => RenewalAction::Sleep(CHECK_INTERVAL_SECS),
            RenewalPhase::Renewing => RenewalAction::Renew,
            RenewalPhase::BackingOff => RenewalAction::Sleep(self.backoff),
            RenewalPhase::Stopped => RenewalAction::Stop,
        }
    }

    /// Takes an event.
    pub fn step(&mut self, event: RenewalEvent)
        requires
            old(self).well_formed(),
            event matches RenewalEvent::Elapsed { remaining } ==> (remaining matches Some(s)
                ==> s.well_formed()),
        ensures
            *final(self) == old(self).after(event),
            final(self).well_formed(),
    {
        match (self.phase, event) {
            (RenewalPhase::Waiting, RenewalEvent::Shutdown)
            | (RenewalPhase::BackingOff, RenewalEvent::Shutdown) => {
                self.phase = RenewalPhase::Stopped;
            },
            (RenewalPhase::Waiting, RenewalEvent::Elapsed { remaining }) => {
                if needs_renewal(remaining, self.renew_before) {
                    self.phase = RenewalPhase::Renewing;
                } else {
                    self.backoff = INITIAL_BACKOFF_SECS;
                }
            },
            (RenewalPhase::Renewing, RenewalEvent::Renewed) => {
                self.phase = RenewalPhase::Waiting;
                self.backoff = INITIAL_BACKOFF_SECS;
            },
            (RenewalPhase::Renewing, RenewalEvent::Failed) => {
                self.phase = RenewalPhase::BackingOff;
            },
            (RenewalPhase::BackingOff, RenewalEvent::Elapsed { .. }) => {
                self.phase = RenewalPhase::Waiting;
                self.backoff = if self.backoff * 2 <= MAX_BACKOFF_SECS {
                    self.backoff * 2
                } else {
                    MAX_BACKOFF_SECS
                };
            },
            _ => {},
        }
    }
}

/// The state after a sequence of events.
pub open spec fn after_events(r: Renewal, events: Seq<RenewalEvent>) -> Renewal
    decreases events.len(),
{
    if events.len() == 0 {
        r
    } else {
        after_events(r, events.drop_last()).after(events.last())
    }
}

/// Whatever happens, the wait after a failure lies between an hour and a day, and
/// the time before its end at which the certificate is replaced stays as configured.
pub proof fn law_backoff_is_bounded(r: Renewal, events: Seq<RenewalEvent>)
    requires
        r.well_formed(),
    ensures
        after_events(r, events).well_formed(),
        after_events(r, events).renew_before == r.renew_before,
    decreases events.len(),
{
    if events.len() > 0 {
        law_backoff_is_bounded(r, events.drop_last());
    }
}

/// A new certificate is asked for only after a look at one that is due.
pub proof fn law_renews_only_when_due(r: Renewal, event: RenewalEvent)
    requires
        r.phase != RenewalPhase::Renewing,
        r.after(event).phase == RenewalPhase::Renewing,
    ensures
        event matches RenewalEvent::Elapsed { remaining } && is_due(remaining, r.renew_before),
{
}

/// A task that has ended does nothing more.
pub proof fn law_stopped_stays_stopped(r: Renewal, events: Seq<RenewalEvent>)
    requires
        r.phase == RenewalPhase::Stopped,
    ensures
        after_events(r, events) == r,
    decreases events.len(),
{
    if events.len() > 0 {
        law_stopped_stays_stopped(r, events.drop_last());
    }
}

/// A certificate is due exactly where it holds no longer than the configured time, to the
/// nanosecond; one of which nothing is known is due.
pub proof fn law_due_to_the_nanosecond(s: Span, renew_before: u64)
    requires
        s.well_formed(),
    ensures
        is_due(Some(s), renew_before) <==> s.secs < renew_before || (s.secs == renew_before
            && s.nanos == 0),
        is_due(None, renew_before),
{
}

/// A certificate that is due stays due as time passes, and however much earlier it is to be
/// replaced.
pub proof fn law_due_stays_due(s: Span, later: Span, renew_before: u64, earlier: u64)
    requires
        is_due(Some(s), renew_before),
        later.total() <= s.total(),
        renew_before <= earlier,
    ensures
        is_due(Some(later), earlier),
{
    assert(renew_before * 1_000_000_000 <= earlier * 1_000_000_000);
}

/// What is left reaches exactly from now to the end, and nothing is left behind the end.
pub proof fn law_what_is_left_reaches_the_end(end: nat, now: Span)
    ensures
        match left_until(end, now) {
            Some(x) => x >= 0 && now.total() + x == end * 1_000_000_000,
            None => now.total() > end * 1_000_000_000,
        },
{
}

/// After each failure the wait is twice as long, but never longer than a day; it begins
/// anew, with an hour, once a certificate was had or found to hold.
pub proof fn law_waits_double_up_to_a_day(r: Renewal, remaining: Option<Span>)
    requires
        r.well_formed(),
    ensures
        next_backoff(r.backoff) == if 2 * r.backoff <= 86400 {
            2 * r.backoff
        } else {
            86400
        },
        r.phase is BackingOff ==> r.after(RenewalEvent::Elapsed { remaining }).backoff
            == next_backoff(r.backoff),
        r.phase is Renewing ==> r.after(RenewalEvent::Renewed).backoff == 3600,
        r.phase is Renewing ==> r.after(RenewalEvent::Failed).backoff == r.backoff,
        r.phase is Waiting && !is_due(remaining, r.renew_before) ==> r.after(
            RenewalEvent::Elapsed { remaining },
        ).backoff == 3600,
{
}

/// The task looks at the certificate every twelve hours; where it is due it asks for a new
/// one, waits after a failure and then looks again, and a shutdown ends every wait.
pub proof fn law_task_goes_round(r: Renewal, remaining: Option<Span>)
    ensures
        r.phase is Waiting ==> {
            &&& r.current_action() == RenewalAction::Sleep(43200)
            &&& r.after(RenewalEvent::Elapsed { remaining }).phase is Renewing <==> is_due(
                remaining,
                r.renew_before,
            )
            &&& !is_due(remaining, r.renew_before) ==> r.after(
                RenewalEvent::Elapsed { remaining },
            ).phase is Waiting
            &&& r.after(RenewalEvent::Shutdown).phase is Stopped
        },
        r.phase is Renewing ==> {
            &&& r.current_action() == RenewalAction::Renew
            &&& r.after(RenewalEvent::Renewed).phase is Waiting
            &&& r.after(RenewalEvent::Failed).phase is BackingOff
        },
        r.phase is BackingOff ==> {
            &&& r.current_action() == RenewalAction::Sleep(r.backoff)
            &&& r.after(RenewalEvent::Elapsed { remaining }).phase is Waiting
            &&& r.after(RenewalEvent::Shutdown).phase is Stopped
        },
        r.phase is Stopped <==> r.current_action() == RenewalAction::Stop,
{
}

/// Without a certificate one is obtained, whatever is configured; with one, a period that
/// cannot be read is the error that is told.
pub proof fn law_unreadable_periods_are_told(
    loaded: bool,
    remaining: Option<Span>,
    e: AcmeErrorView,
    r: Result<CertificatePlan, AcmeError>,
)
    requires
        is_planned(loaded, remaining, Err(e), r),
    ensures
        !loaded ==> r == Ok::<CertificatePlan, AcmeError>(CertificatePlan::Obtain),
        loaded ==> (r matches Err(x) && x@ == e),
{
}

} // verus!
