//! The exchange with the authority, step by step: account, order, challenges,
//! clean-up, certificate.

use crate::acme::error::{AcmeError, AcmeErrorView, DnsProviderError};
use crate::text::texts;
use vstd::prelude::*;

verus! {

/// How long the records of a challenge are given to spread, in seconds.
pub const PROPAGATION_SECS: u64 = 60;

/// What the authority says of an authorization.
#[derive(Debug)]
pub enum AuthorizationStatus {
    Valid,
    Pending,
    /// Any other status, by its name.
    Other(String),
}

/// The steps of the exchange. Each is one piece of work for the caller.
#[derive(Clone, Copy, Debug, PartialEq, Eq, Structural)]
pub enum FlowPhase {
    /// Restore or create the account.
    Account,
    /// Create an order for the domains.
    Order,
    /// Get the next authorization of the order.
    Authorization,
    /// Create the TXT record of the challenge.
    Record,
    /// Wait for the record to spread.
    Propagation,
    /// Tell the authority that the challenge is ready.
    Ready,
    /// Delete the next record.
    CleanUp,
    /// Poll until the order is ready.
    Poll,
    /// Finalize the order.
    Finalize,
    /// Fetch the certificate.
    Certificate,
    /// Write certificate and key to disk.
    Persist,
    /// Load certificate and key, and put them to use.
    Install,
    /// Nothing more.
    Done,
}

/// What came out of a step.
#[derive(Debug)]
pub enum FlowEvent {
    /// The step was done.
    Succeeded,
    /// The step failed; this is the text of the failure.
    Failed(String),
    /// The step failed with an error that is passed on.
    Refused(AcmeError),
    /// There is an authorization; `challenge` says whether it offers DNS-01.
    Authorization { status: AuthorizationStatus, challenge: bool },
    /// There is no further authorization.
    NoMoreAuthorizations,
    /// A record was created under this identifier.
    Created(String),
    /// No record could be created.
    NotCreated(DnsProviderError),
    /// The status of the order, by its name.
    Status { ready: bool, name: String },
}

/// The state of the exchange.
#[derive(Debug)]
pub struct Flow {
    phase: FlowPhase,
    records: Vec<String>,
    deleted: usize,
    failure: Option<AcmeError>,
}

/// The state of the exchange, with its texts.
#[verifier::ext_equal]
pub struct FlowView {
    pub phase: FlowPhase,
    /// The identifiers of the records that were created.
    pub records: Seq<Seq<char>>,
    /// How many of them have been deleted, or tried to.
    pub deleted: nat,
    /// Why the exchange fails.
    pub failure: Option<AcmeErrorView>,
}

/// What a text and the failure of a step make of an error.
pub open spec fn protocol(what: Seq<char>, failure: Seq<char>) -> AcmeErrorView {
    AcmeErrorView::Protocol(what + failure)
}

impl View for Flow {
    type V = FlowView;

    closed spec fn view(&self) -> FlowView {
        FlowView {
            phase: self.phase,
            records: texts(self.records@),
            deleted: self.deleted as nat,
            failure: match self.failure {
                Some(e) => Some(e@),
                None => None,
            },
        }
    }
}

impl FlowView {
    /// The state at the start.
    pub open spec fn initial() -> FlowView {
        FlowView { phase: FlowPhase::Account, records: seq![], deleted: 0, failure: None }
    }

    /// The state in another phase.
    pub open spec fn to(self, phase: FlowPhase) -> FlowView {
        FlowView { phase, ..self }
    }

    /// The state after a failure that leaves nothing to clean up.
    pub open spec fn fail(self, e: AcmeErrorView) -> FlowView {
        FlowView { phase: FlowPhase::Done, failure: Some(e), ..self }
    }

    /// What follows the challenges: records are deleted first; then the exchange ends
    /// if it has failed, and goes on if it has not.
    pub open spec fn clean_up(self) -> FlowView {
        if self.deleted < self.records.len() {
            self.to(FlowPhase::CleanUp)
        } else if self.failure is Some {
            self.to(FlowPhase::Done)
        } else {
            self.to(FlowPhase::Poll)
        }
    }

    /// The state after a failure among the challenges.
    pub open spec fn fail_challenges(self, e: AcmeErrorView) -> FlowView {
        (FlowView { failure: Some(e), ..self }).clean_up()
    }

    /// The state after an authorization.
    pub open spec fn authorized(self, status: AuthorizationStatus, challenge: bool) -> FlowView {
        match status {
            AuthorizationStatus::Valid => self,
            AuthorizationStatus::Pending => if challenge {
                self.to(FlowPhase::Record)
            } else {
                self.fail_challenges(AcmeErrorView::Protocol("no DNS-01 challenge available"@))
            },
            AuthorizationStatus::Other(name) => self.fail_challenges(
                protocol("unexpected authorization status: "@, name@),
            ),
        }
    }

    /// The state after an event. An event that does not belong to the phase changes
    /// nothing.
    pub open spec fn after(self, event: FlowEvent) -> FlowView {
        match (self.phase, event) {
            (FlowPhase::Account, FlowEvent::Succeeded) => self.to(FlowPhase::Order),
            (FlowPhase::Account, FlowEvent::Refused(e)) => self.fail(e@),
            (FlowPhase::Order, FlowEvent::Succeeded) => self.to(FlowPhase::Authorization),
            (FlowPhase::Order, FlowEvent::Failed(m)) => self.fail(
                protocol("failed to create order: "@, m@),
            ),
            (FlowPhase::Authorization, FlowEvent::NoMoreAuthorizations) => self.clean_up(),
            (FlowPhase::Authorization, FlowEvent::Failed(m)) => self.fail_challenges(
                protocol("authorization error: "@, m@),
            ),
            (
                FlowPhase::Authorization,
                FlowEvent::Authorization { status, challenge },
            ) => self.authorized(status, challenge),
            (FlowPhase::Record, FlowEvent::Created(id)) => FlowView {
                phase: FlowPhase::Propagation,
                records: self.records.push(id@),
                ..self
            },
            (FlowPhase::Record, FlowEvent::NotCreated(e)) => self.fail_challenges(
                AcmeErrorView::DnsProvider(e@),
            ),
            (FlowPhase::Propagation, FlowEvent::Succeeded) => self.to(FlowPhase::Ready),
            (FlowPhase::Ready, FlowEvent::Succeeded) => self.to(FlowPhase::Authorization),
            (FlowPhase::Ready, FlowEvent::Failed(m)) => self.fail_challenges(
                protocol("failed to set challenge ready: "@, m@),
            ),
            (FlowPhase::CleanUp, FlowEvent::Succeeded) => (FlowView {
                deleted: self.deleted + 1,
                ..self
            }).clean_up(),
            (FlowPhase::CleanUp, FlowEvent::Failed(_)) => (FlowView {
                deleted: self.deleted + 1,
                ..self
            }).clean_up(),
            (FlowPhase::Poll, FlowEvent::Failed(m)) => self.fail(
                protocol("order did not become ready: "@, m@),
            ),
            (FlowPhase::Poll, FlowEvent::Status { ready, name }) => if ready {
                self.to(FlowPhase::Finalize)
            } else {
                self.fail(protocol("unexpected order status: "@, name@))
            },
            (FlowPhase::Finalize, FlowEvent::Succeeded) => self.to(FlowPhase::Certificate),
            (FlowPhase::Finalize, FlowEvent::Failed(m)) => self.fail(
                protocol("failed to finalize order: "@, m@),
            ),
            (FlowPhase::Certificate, FlowEvent::Succeeded) => self.to(FlowPhase::Persist),
            (FlowPhase::Certificate, FlowEvent::Failed(m)) => self.fail(
                protocol("failed to get certificate: "@, m@),
            ),
            (FlowPhase::Persist, FlowEvent::Succeeded) => self.to(FlowPhase::Install),
            (FlowPhase::Persist, FlowEvent::Refused(e)) => self.fail(e@),
            (FlowPhase::Install, FlowEvent::Succeeded) => self.to(FlowPhase::Done),
            (FlowPhase::Install, FlowEvent::Refused(e)) => self.fail(e@),
            _ => self,
        }
    }

    /// Records are deleted only once no more are created, and all of them before
    /// anything else follows; a failure is on the way to the end.
    pub open spec fn well_formed(self) -> bool {
        &&& self.deleted <= self.records.len()
        &&& match self.phase {
            FlowPhase::Account | FlowPhase::Order => self.records.len() == 0 && self.failure
                is None,
            FlowPhase::Authorization | FlowPhase::Record | FlowPhase::Propagation
            | FlowPhase::Ready => self.deleted == 0 && self.failure is None,
            FlowPhase::CleanUp => self.deleted < self.records.len(),
            FlowPhase::Done => self.deleted == self.records.len(),
            _ => self.deleted == self.records.len() && self.failure is None,
        }
    }
}

fn with_text(what: &str, failure: &String) -> (r: AcmeError)
    ensures
        r@ == protocol(what@, failure@),
{
    let mut m = what.to_owned();
    m.push_str(failure.as_str());
    AcmeError::Protocol(m)
}

impl Flow {
    /// Starts an exchange.
    pub fn start() -> (r: Flow)
        ensures
            r@ == FlowView::initial(),
            r@.well_formed(),
    {
        let f = Flow { phase: FlowPhase::Account, records: Vec::new(), deleted: 0, failure: None };
        assert(f@ =~= FlowView::initial());
        f
    }

    /// The step to be done.
    pub fn phase(&self) -> (r: FlowPhase)
        ensures
            r == self@.phase,
    {
        self.phase
    }

    /// The identifier of the record to be deleted, while records are.
    pub open spec fn spec_record_to_delete(&self) -> Option<Seq<char>> {
        if self@.phase is CleanUp {
            Some(self@.records[self@.deleted as int])
        } else {
            None
        }
    }

    /// Whether this came out of the exchange.
    pub open spec fn comes_to(&self, r: Result<(), AcmeError>) -> bool {
        match self@.failure {
            Some(e) => r matches Err(x) && x@ == e,
            None => r is Ok,
        }
    }

    /// The identifier of the record to be deleted.
    pub fn record_to_delete(&self) -> (r: Option<&String>)
        requires
            self@.well_formed(),
        ensures
            match r {
                Some(id) => self.spec_record_to_delete() == Some(id@),
                None => self.spec_record_to_delete() is None,
            },
            match r {
                Some(id) => self@.phase == FlowPhase::CleanUp && id@
                    == self@.records[self@.deleted as int],
                None => self@.phase != FlowPhase::CleanUp,
            },
    {
        assert(texts(self.records@).len() == self.records@.len());
        match self.phase {
            FlowPhase::CleanUp => Some(&self.records[self.deleted]),
            _ => None,
        }
    }

    /// What came out of an exchange that is over.
    pub fn into_result(self) -> (r: Result<(), AcmeError>)
        requires
            self@.phase == FlowPhase::Done,
        ensures
            self.comes_to(r),
            match r {
                Ok(()) => self@.failure is None,
                Err(e) => self@.failure == Some(e@),
            },
    {
        match self.failure {
            Some(e) => Err(e),
            None => Ok(()),
        }
    }

    fn clean_up(&mut self)
        requires
            old(self).deleted <= old(self).records@.len(),
        ensures
            final(self)@ == old(self)@.clean_up(),
            final(self).records@ == old(self).records@,
    {
        assert(texts(self.records@).len() == self.records@.len());
        if self.deleted < self.records.len() {
            self.phase = FlowPhase::CleanUp;
        } else if self.failure.is_some() {
            self.phase = FlowPhase::Done;
        } else {
            self.phase = FlowPhase::Poll;
        }
    }

    fn fail(&mut self, e: AcmeError)
        ensures
            final(self)@ == old(self)@.fail(e@),
    {
        self.failure = Some(e);
        self.phase = FlowPhase::Done;
    }

    fn fail_challenges(&mut self, e: AcmeError)
        requires
            old(self).deleted <= old(self).records@.len(),
        ensures
            final(self)@ == old(self)@.fail_challenges(e@),
    {
        self.failure = Some(e);
        self.clean_up();
    }

    fn authorized(&mut self, status: AuthorizationStatus, challenge: bool)
        requires
            old(self).deleted <= old(self).records@.len(),
        ensures
            final(self)@ == old(self)@.authorized(status, challenge),
    {
        match status {
            AuthorizationStatus::Valid => {},
            AuthorizationStatus::Pending => {
                if challenge {
                    self.phase = FlowPhase::Record;
                } else {
                    self.fail_challenges(
                        AcmeError::Protocol("no DNS-01 challenge available".to_owned()),
                    );
                }
            },
            AuthorizationStatus::Other(name) => {
                self.fail_challenges(with_text("unexpected authorization status: ", &name));
            },
        }
    }

    /// Takes what came out of the step.
    pub fn step(&mut self, event: FlowEvent)
        requires
            old(self)@.well_formed(),
        ensures
            final(self)@ == old(self)@.after(event),
            final(self)@.well_formed(),
    {
        assert(texts(self.records@).len() == self.records@.len());
        match (self.phase, event) {
            (FlowPhase::Account, FlowEvent::Succeeded) => {
                self.phase = FlowPhase::Order;
            },
            (FlowPhase::Account, FlowEvent::Refused(e)) => self.fail(e),
            (FlowPhase::Order, FlowEvent::Succeeded) => {
                self.phase = FlowPhase::Authorization;
            },
            (FlowPhase::Order, FlowEvent::Failed(m)) => self.fail(
                with_text("failed to create order: ", &m),
            ),
            (FlowPhase::Authorization, FlowEvent::NoMoreAuthorizations) => self.clean_up(),
            (FlowPhase::Authorization, FlowEvent::Failed(m)) => self.fail_challenges(
                with_text("authorization error: ", &m),
            ),
            (
                FlowPhase::Authorization,
                FlowEvent::Authorization { status, challenge },
            ) => self.authorized(status, challenge),
            (FlowPhase::Record, FlowEvent::Created(id)) => {
                self.records.push(id);
                self.phase = FlowPhase::Propagation;
                assert(texts(self.records@) =~= texts(old(self).records@).push(id@));
            },
            (FlowPhase::Record, FlowEvent::NotCreated(e)) => self.fail_challenges(
                AcmeError::DnsProvider(e),
            ),
            (FlowPhase::Propagation, FlowEvent::Succeeded) => {
                self.phase = FlowPhase::Ready;
            },
            (FlowPhase::Ready, FlowEvent::Succeeded) => {
                self.phase = FlowPhase::Authorization;
            },
            (FlowPhase::Ready, FlowEvent::Failed(m)) => self.fail_challenges(
                with_text("failed to set challenge ready: ", &m),
            ),
            (FlowPhase::CleanUp, FlowEvent::Succeeded) | (
                FlowPhase::CleanUp,
                FlowEvent::Failed(_),
            ) => {
                assert(self.deleted < self.records.len());
                self.deleted = self.deleted + 1;
                self.clean_up();
            },
            (FlowPhase::Poll, FlowEvent::Failed(m)) => self.fail(
                with_text("order did not become ready: ", &m),
            ),
            (FlowPhase::Poll, FlowEvent::Status { ready, name }) => {
                if ready {
                    self.phase = FlowPhase::Finalize;
                } else {
                    self.fail(with_text("unexpected order status: ", &name));
                }
            },
            (FlowPhase::Finalize, FlowEvent::Succeeded) => {
                self.phase = FlowPhase::Certificate;
            },
            (FlowPhase::Finalize, FlowEvent::Failed(m)) => self.fail(
                with_text("failed to finalize order: ", &m),
            ),
            (FlowPhase::Certificate, FlowEvent::Succeeded) => {
                self.phase = FlowPhase::Persist;
            },
            (FlowPhase::Certificate, FlowEvent::Failed(m)) => self.fail(
                with_text("failed to get certificate: ", &m),
            ),
            (FlowPhase::Persist, FlowEvent::Succeeded) => {
                self.phase = FlowPhase::Install;
            },
            (FlowPhase::Persist, FlowEvent::Refused(e)) => self.fail(e),
            (FlowPhase::Install, FlowEvent::Succeeded) => {
                self.phase = FlowPhase::Done;
            },
            (FlowPhase::Install, FlowEvent::Refused(e)) => self.fail(e),
            _ => {},
        }
    }
}

/// The state after a sequence of events.
pub open spec fn after_events(f: FlowView, events: Seq<FlowEvent>) -> FlowView
    decreases events.len(),
{
    if events.len() == 0 {
        f
    } else {
        after_events(f, events.drop_last()).after(events.last())
    }
}

proof fn lemma_stays_well_formed(events: Seq<FlowEvent>)
    ensures
        after_events(FlowView::initial(), events).well_formed(),
    decreases events.len(),
{
    if events.len() > 0 {
        lemma_stays_well_formed(events.drop_last());
    }
}

/// Every record that was created has been deleted, or tried to, when the exchange is
/// over, whether it succeeded or not.
pub proof fn law_records_are_cleaned_up(events: Seq<FlowEvent>)
    requires
        after_events(FlowView::initial(), events).phase == FlowPhase::Done,
    ensures
        after_events(FlowView::initial(), events).deleted == after_events(
            FlowView::initial(),
            events,
        ).records.len(),
{
    lemma_stays_well_formed(events);
}

/// An exchange succeeds only by putting a certificate to use.
pub proof fn law_success_installs(f: FlowView, event: FlowEvent)
    requires
        f.well_formed(),
        f.phase != FlowPhase::Done,
        f.after(event).phase == FlowPhase::Done,
        f.after(event).failure is None,
    ensures
        f.phase == FlowPhase::Install,
        event is Succeeded,
{
}

/// Whether the exchange is among the challenges.
pub open spec fn in_challenges(phase: FlowPhase) -> bool {
    phase is Authorization || phase is Record || phase is Propagation || phase is Ready
}

/// Unless a challenge failed, the exchange leaves the challenges only once there is no
/// further authorization.
pub proof fn law_all_authorizations_are_gone_through(f: FlowView, event: FlowEvent)
    requires
        f.well_formed(),
        in_challenges(f.phase),
        !in_challenges(f.after(event).phase),
        f.after(event).failure is None,
    ensures
        f.phase is Authorization,
        event is NoMoreAuthorizations,
        f.after(event).phase is CleanUp <==> f.records.len() > 0,
        f.after(event).phase is Poll <==> f.records.len() == 0,
{
}

/// An authorization that is already valid is passed over; a pending one gets a record where
/// it offers the challenge, and fails the exchange where it does not, as any other status
/// does.
pub proof fn law_pending_authorizations_get_a_record(
    f: FlowView,
    status: AuthorizationStatus,
    challenge: bool,
)
    requires
        f.well_formed(),
        f.phase is Authorization,
    ensures
        ({
            let next = f.after(FlowEvent::Authorization { status, challenge });
            &&& status is Valid ==> next == f
            &&& next.phase is Record <==> status is Pending && challenge
            &&& next.failure is Some <==> status is Other || (status is Pending && !challenge)
            &&& next.records == f.records
            &&& status matches AuthorizationStatus::Other(name) ==> (next.failure matches Some(
                AcmeErrorView::Protocol(t),
            ) && name@.is_suffix_of(t))
        }),
{
    if let AuthorizationStatus::Other(name) = status {
        let t = "unexpected authorization status: "@ + name@;
        assert(t.subrange(t.len() - name@.len(), t.len() as int) =~= name@);
    }
}

/// A record is noted when it was created and at no other time, and noted records stay.
pub proof fn law_created_records_are_noted(f: FlowView, event: FlowEvent)
    requires
        f.well_formed(),
    ensures
        f.after(event).records == match (f.phase, event) {
            (FlowPhase::Record, FlowEvent::Created(id)) => f.records.push(id@),
            _ => f.records,
        },
{
}

/// The authority is told that a challenge is ready only after its record was created and
/// had time to spread.
pub proof fn law_challenges_wait_for_their_record(f: FlowView, event: FlowEvent)
    requires
        f.well_formed(),
        f.after(event).phase != f.phase,
    ensures
        f.after(event).phase is Ready <==> f.phase is Propagation && event is Succeeded,
        f.after(event).phase is Propagation <==> f.phase is Record && event is Created,
{
}

/// The steps behind the challenges follow one another, each only when the one before was
/// done; an order is finalized only when it is ready.
pub proof fn law_steps_follow_one_another(f: FlowView, event: FlowEvent)
    requires
        f.well_formed(),
        f.after(event).phase != f.phase,
    ensures
        f.after(event).phase is Order <==> f.phase is Account && event is Succeeded,
        f.after(event).phase is Authorization <==> (f.phase is Order || f.phase is Ready)
            && event is Succeeded,
        f.after(event).phase is Finalize <==> f.phase is Poll && (event matches FlowEvent::Status {
            ready,
            ..
        } && ready),
        f.after(event).phase is Certificate <==> f.phase is Finalize && event is Succeeded,
        f.after(event).phase is Persist <==> f.phase is Certificate && event is Succeeded,
        f.after(event).phase is Install <==> f.phase is Persist && event is Succeeded,
        !(f.after(event).phase is Account),
{
}

/// A step that is done leads on.
pub proof fn law_steps_that_are_done_lead_on(f: FlowView)
    requires
        f.well_formed(),
    ensures
        f.phase is Account || f.phase is Order || f.phase is Propagation || f.phase is Ready
            || f.phase is Finalize || f.phase is Certificate || f.phase is Persist
            || f.phase is Install ==> f.after(FlowEvent::Succeeded).phase != f.phase && f.after(
            FlowEvent::Succeeded,
        ).failure is None,
        f.phase is Install ==> f.after(FlowEvent::Succeeded).phase is Done,
{
}

/// Whether an event is the failure of a step that the exchange cannot go on without.
pub open spec fn breaks(phase: FlowPhase, event: FlowEvent) -> bool {
    match event {
        FlowEvent::Failed(_) => phase is Order || phase is Authorization || phase is Ready
            || phase is Poll || phase is Finalize || phase is Certificate,
        FlowEvent::Refused(_) => phase is Account || phase is Persist || phase is Install,
        FlowEvent::NotCreated(_) => phase is Record,
        FlowEvent::Status { ready, .. } => phase is Poll && !ready,
        FlowEvent::Authorization { status, challenge } => phase is Authorization && match status {
            AuthorizationStatus::Valid => false,
            AuthorizationStatus::Pending => !challenge,
            AuthorizationStatus::Other(_) => true,
        },
        _ => false,
    }
}

/// An exchange fails exactly where a step that it cannot do without fails; the first failure
/// is the one that is reported, whatever the clean-up comes to.
pub proof fn law_first_failure_is_reported(f: FlowView, event: FlowEvent)
    requires
        f.well_formed(),
    ensures
        f.failure is None ==> (f.after(event).failure is Some <==> breaks(f.phase, event)),
        f.failure is Some ==> f.after(event).failure == f.failure,
{
}

/// A failure says what the step failed with.
pub proof fn law_failures_say_what_happened(f: FlowView, event: FlowEvent)
    requires
        f.well_formed(),
        f.failure is None,
        breaks(f.phase, event),
    ensures
        match event {
            FlowEvent::Failed(m) => f.after(event).failure matches Some(AcmeErrorView::Protocol(t))
                && m@.is_suffix_of(t),
            FlowEvent::Refused(e) => f.after(event).failure == Some(e@),
            FlowEvent::NotCreated(e) => f.after(event).failure == Some(
                AcmeErrorView::DnsProvider(e@),
            ),
            FlowEvent::Status { name, .. } => f.after(event).failure matches Some(
                AcmeErrorView::Protocol(t),
            ) && name@.is_suffix_of(t),
            _ => true,
        },
        !in_challenges(f.phase) ==> f.after(event).phase is Done,
        in_challenges(f.phase) ==> (f.after(event).phase is Done <==> f.records.len() == 0),
        in_challenges(f.phase) ==> (f.after(event).phase is CleanUp <==> f.records.len() > 0),
{
    match (f.after(event).failure, event) {
        (Some(AcmeErrorView::Protocol(t)), FlowEvent::Failed(m)) => {
            assert(t.subrange(t.len() - m@.len(), t.len() as int) =~= m@);
        },
        (Some(AcmeErrorView::Protocol(t)), FlowEvent::Status { name, .. }) => {
            assert(t.subrange(t.len() - name@.len(), t.len() as int) =~= name@);
        },
        _ => {},
    }
}

/// The records are deleted one after the other; that one cannot be deleted keeps no other
/// from it, and does not fail the exchange.
pub proof fn law_clean_up_takes_every_record(f: FlowView, event: FlowEvent)
    requires
        f.well_formed(),
    ensures
        f.after(event).deleted == if f.phase is CleanUp && (event is Succeeded || event is Failed) {
            f.deleted + 1
        } else {
            f.deleted
        },
        f.phase is CleanUp && f.after(event).deleted < f.records.len() ==> f.after(event).phase
            is CleanUp,
        f.phase is CleanUp && f.after(event).deleted == f.records.len() ==> f.after(event).phase
            == if f.failure is Some {
            FlowPhase::Done
        } else {
            FlowPhase::Poll
        },
{
}

/// An exchange without a failure comes to a certificate, and one with a failure to that
/// failure. Of the records the one at hand is deleted.
pub proof fn law_exchanges_come_to_their_failure(f: Flow, r: Result<(), AcmeError>)
    requires
        f.comes_to(r),
    ensures
        r is Ok <==> f@.failure is None,
        r matches Err(e) ==> f@.failure == Some(e@),
        f@.phase is CleanUp ==> f.spec_record_to_delete() == Some(f@.records[f@.deleted as int]),
        !(f@.phase is CleanUp) ==> f.spec_record_to_delete() is None,
{
}

} // verus!
