//! The interceptor chain of a route and the course of one request through it.
//!
//! An `Exchange` is the state of one request. It takes the events of the
//! request's life (its arrival, the end of its handler, the end of the
//! telemetry publish) and answers each with the action that is due. Whoever
//! drives it performs the action and reports the next event.

use vstd::prelude::*;
use crate::error::AuthError;
use crate::middleware::jwt_validator::{
    bearer_prefix,
    header_text,
    lemma_bearer_header_carries_token,
    validated,
    verified,
    verify,
    Claims,
    ClaimsView,
    JwtValidator,
};
use crate::middleware::metrics::{started, MetricRecord, MetricView, PublishOutcome};

verus! {

/// The interceptors that a route can be wrapped in.
#[derive(Debug, Clone, Copy, PartialEq, Eq, Structural)]
pub enum Interceptor {
    /// Refuses requests without a valid credential.
    CredentialVerifier,
    /// Measures the request and publishes the measurement.
    TelemetryPublisher,
}

/// The status with which a refused credential is answered.
pub open spec fn unauthorized() -> u16 {
    401
}

/// The chain asks for a credential.
pub open spec fn guarded(chain: Seq<Interceptor>) -> bool {
    chain.contains(Interceptor::CredentialVerifier)
}

/// The chain measures its requests.
pub open spec fn metered(chain: Seq<Interceptor>) -> bool {
    chain.contains(Interceptor::TelemetryPublisher)
}

/// Where a request stands.
#[derive(Debug, Clone, Copy, PartialEq, Eq, Structural)]
pub enum Stage {
    /// No interceptor has run yet.
    Arrived,
    /// Every interceptor let the request pass; its handler runs.
    Handling,
    /// The client has its response; the measurement is being published.
    Answered,
    /// Nothing is left to do.
    Settled,
}

/// The state of a request as a mathematical value.
pub struct ExchangeView {
    pub chain: Seq<Interceptor>,
    pub method: Seq<char>,
    pub path: Seq<char>,
    pub stage: Stage,
    /// How many interceptors of the chain have run.
    pub entered: nat,
    pub claims: Option<ClaimsView>,
    pub metric: Option<MetricView>,
    /// The status that the client sees, once it is decided.
    pub response: Option<u16>,
}

/// What is due after an event, as a mathematical value.
pub enum ActionView {
    InvokeHandler,
    Reject { status: u16 },
    Respond { status: u16, publish: Option<MetricView> },
    Ignore,
}

/// An event in the life of a request.
pub enum Event {
    /// The request arrived; `judgement` is what the credential verifier
    /// finds of its `Authorization` header.
    Arrive { judgement: Result<ClaimsView, AuthError> },
    /// The handler ended with a response status after `duration`
    /// milliseconds.
    HandlerDone { status: u16, duration: u128 },
    /// The publish attempt ended.
    PublishDone { outcome: PublishOutcome },
}

impl ActionView {
    /// The action runs the route's handler.
    pub open spec fn dispatches(self) -> bool {
        self is InvokeHandler
    }

    /// The action answers the client with what the handler produced.
    pub open spec fn responds(self) -> bool {
        self is Respond
    }

    /// The action hands a measurement to the telemetry sink.
    pub open spec fn publishes(self) -> bool {
        self matches ActionView::Respond { publish, .. } && publish is Some
    }
}

impl ExchangeView {
    /// The state of a request that has just arrived at a route.
    pub open spec fn initial(chain: Seq<Interceptor>, method: Seq<char>, path: Seq<char>) -> ExchangeView {
        ExchangeView {
            chain,
            method,
            path,
            stage: Stage::Arrived,
            entered: 0,
            claims: None,
            metric: None,
            response: None,
        }
    }

    /// What holds of every state that a request can reach.
    pub open spec fn wf(self) -> bool {
        &&& self.entered <= self.chain.len()
        &&& self.stage == Stage::Arrived ==> self.metric is None && self.response is None
        &&& self.stage == Stage::Handling ==> self.response is None && (self.metric is Some
            <==> metered(self.chain))
        &&& self.stage == Stage::Answered || self.stage == Stage::Settled ==> self.metric is None
            && self.response is Some
    }

    /// The interceptors run in the order of the chain. A credential verifier
    /// that refuses the request ends the exchange with 401: no interceptor
    /// behind it runs, and neither does the handler. Otherwise every
    /// interceptor runs, the telemetry publisher starts the measurement, and
    /// the handler is due.
    pub open spec fn arrive(self, judgement: Result<ClaimsView, AuthError>) -> (
        ExchangeView,
        ActionView,
    ) {
        if self.stage != Stage::Arrived {
            (self, ActionView::Ignore)
        } else if guarded(self.chain) && judgement is Err {
            (
                ExchangeView {
                    stage: Stage::Settled,
                    entered: (self.chain.index_of_first(Interceptor::CredentialVerifier)->0
                        + 1) as nat,
                    response: Some(unauthorized()),
                    ..self
                },
                ActionView::Reject { status: unauthorized() },
            )
        } else {
            (
                ExchangeView {
                    stage: Stage::Handling,
                    entered: self.chain.len(),
                    claims: if guarded(self.chain) {
                        Some(judgement->Ok_0)
                    } else {
                        None
                    },
                    metric: if metered(self.chain) {
                        Some(started(self.method, self.path))
                    } else {
                        None
                    },
                    ..self
                },
                ActionView::InvokeHandler,
            )
        }
    }

    /// When the handler ends, the client gets the handler's status, and the
    /// measurement, finalized with that status, is handed over for
    /// publishing.
    pub open spec fn handler_done(self, status: u16, duration: u128) -> (ExchangeView, ActionView) {
        if self.stage != Stage::Handling {
            (self, ActionView::Ignore)
        } else {
            (
                ExchangeView {
                    stage: if self.metric is Some {
                        Stage::Answered
                    } else {
                        Stage::Settled
                    },
                    metric: None,
                    response: Some(status),
                    ..self
                },
                ActionView::Respond {
                    status,
                    publish: match self.metric {
                        Some(metric) => Some(metric.finalized(status, duration)),
                        None => None,
                    },
                },
            )
        }
    }

    /// However the publish attempt ends, nothing is due: the response stays
    /// as it is, and the attempt is not repeated.
    pub open spec fn publish_done(self, outcome: PublishOutcome) -> (ExchangeView, ActionView) {
        if self.stage != Stage::Answered {
            (self, ActionView::Ignore)
        } else {
            (ExchangeView { stage: Stage::Settled, ..self }, ActionView::Ignore)
        }
    }

    /// The state after an event, and the action that answers it.
    pub open spec fn step(self, event: Event) -> (ExchangeView, ActionView) {
        match event {
            Event::Arrive { judgement } => self.arrive(judgement),
            Event::HandlerDone { status, duration } => self.handler_done(status, duration),
            Event::PublishDone { outcome } => self.publish_done(outcome),
        }
    }

    /// The actions that answer a sequence of events, in their order.
    pub open spec fn actions(self, events: Seq<Event>) -> Seq<ActionView>
        decreases events.len(),
    {
        if events.len() == 0 {
            Seq::empty()
        } else {
            seq![self.step(events[0]).1] + self.step(events[0]).0.actions(events.drop_first())
        }
    }

    /// The state after a sequence of events.
    pub open spec fn after(self, events: Seq<Event>) -> ExchangeView
        decreases events.len(),
    {
        if events.len() == 0 {
            self
        } else {
            self.step(events[0]).0.after(events.drop_first())
        }
    }
}

/// How many of the actions run the handler.
pub open spec fn dispatch_count(actions: Seq<ActionView>) -> nat
    decreases actions.len(),
{
    if actions.len() == 0 {
        0
    } else {
        (if actions[0].dispatches() {
            1nat
        } else {
            0nat
        }) + dispatch_count(actions.drop_first())
    }
}

/// How many of the actions answer the client with the handler's response.
pub open spec fn respond_count(actions: Seq<ActionView>) -> nat
    decreases actions.len(),
{
    if actions.len() == 0 {
        0
    } else {
        (if actions[0].responds() {
            1nat
        } else {
            0nat
        }) + respond_count(actions.drop_first())
    }
}

/// How many of the actions hand a measurement to the telemetry sink.
pub open spec fn publish_count(actions: Seq<ActionView>) -> nat
    decreases actions.len(),
{
    if actions.len() == 0 {
        0
    } else {
        (if actions[0].publishes() {
            1nat
        } else {
            0nat
        }) + publish_count(actions.drop_first())
    }
}

/// A request that has just arrived is in a state that `wf` admits.
pub proof fn lemma_initial_wf(chain: Seq<Interceptor>, method: Seq<char>, path: Seq<char>)
    ensures
        ExchangeView::initial(chain, method, path).wf(),
{
}

/// No event leads out of the states that `wf` admits.
pub proof fn lemma_step_keeps_wf(exchange: ExchangeView, event: Event)
    requires
        exchange.wf(),
    ensures
        exchange.step(event).0.wf(),
        exchange.step(event).0.chain == exchange.chain,
{
    exchange.chain.index_of_first_ensures(Interceptor::CredentialVerifier);
}

/// A credential verifier that refuses a request cuts the chain short: it is
/// the first verifier of the chain, the interceptors up to it are all that
/// ran, and the request is answered without its handler.
pub proof fn lemma_refusal_cuts_chain_short(
    exchange: ExchangeView,
    judgement: Result<ClaimsView, AuthError>,
)
    requires
        exchange.stage == Stage::Arrived,
        guarded(exchange.chain),
        judgement is Err,
    ensures
        ({
            let after = exchange.arrive(judgement).0;
            &&& 1 <= after.entered <= exchange.chain.len()
            &&& exchange.chain[after.entered - 1] == Interceptor::CredentialVerifier
            &&& forall|j: int|
                0 <= j < after.entered - 1 ==> exchange.chain[j] != Interceptor::CredentialVerifier
            &&& after.stage == Stage::Settled
            &&& !exchange.arrive(judgement).1.dispatches()
        }),
{
    exchange.chain.index_of_first_ensures(Interceptor::CredentialVerifier);
}

/// Once an exchange is settled, no event has an effect: every action is
/// `Ignore`, and the state stays as it is.
pub proof fn lemma_settled_is_final(exchange: ExchangeView, events: Seq<Event>)
    requires
        exchange.stage == Stage::Settled,
    ensures
        exchange.after(events) == exchange,
        dispatch_count(exchange.actions(events)) == 0,
        respond_count(exchange.actions(events)) == 0,
        publish_count(exchange.actions(events)) == 0,
    decreases events.len(),
{
    if events.len() > 0 {
        let rest = events.drop_first();
        assert(exchange.step(events[0]) == (exchange, ActionView::Ignore));
        lemma_settled_is_final(exchange, rest);
        assert(exchange.actions(events).drop_first() =~= exchange.actions(rest));
    }
}

/// A request with a credential that holds reaches the handler of its route,
/// whatever the chain of the route is.
pub proof fn lemma_accepted_credential_reaches_handler(exchange: ExchangeView, claims: ClaimsView)
    requires
        exchange.stage == Stage::Arrived,
    ensures
        exchange.arrive(Ok(claims)).1 == ActionView::InvokeHandler,
        exchange.arrive(Ok(claims)).0.stage == Stage::Handling,
{
}

/// A request that carries, in a bearer header, a token that the configured
/// secret signs, that holds the three claims and that has not expired
/// reaches the handler of its route.
pub proof fn lemma_valid_token_reaches_handler(
    chain: Seq<Interceptor>,
    method: Seq<char>,
    path: Seq<char>,
    token: Seq<char>,
    secret: Seq<char>,
    now: u64,
)
    requires
        validated(token, secret, now) is Ok,
    ensures
        ExchangeView::initial(chain, method, path).arrive(
            verified(Some(bearer_prefix() + token), secret, now),
        ).1 == ActionView::InvokeHandler,
{
    lemma_bearer_header_carries_token(token);
}

/// A request to a guarded route whose credential is missing, malformed or
/// expired is answered with 401, and its handler never runs, whatever
/// happens afterwards.
pub proof fn lemma_refused_credential_is_unauthorized(
    exchange: ExchangeView,
    judgement: Result<ClaimsView, AuthError>,
    events: Seq<Event>,
)
    requires
        exchange.stage == Stage::Arrived,
        guarded(exchange.chain),
        judgement is Err,
    ensures
        exchange.arrive(judgement).1 == (ActionView::Reject { status: 401 }),
        exchange.arrive(judgement).0.response == Some(401u16),
        dispatch_count(exchange.actions(seq![Event::Arrive { judgement }] + events)) == 0,
        publish_count(exchange.actions(seq![Event::Arrive { judgement }] + events)) == 0,
{
    let all = seq![Event::Arrive { judgement }] + events;
    let refused = exchange.arrive(judgement).0;
    assert(all[0] == Event::Arrive { judgement });
    assert(all.drop_first() =~= events);
    lemma_settled_is_final(refused, events);
    assert(exchange.actions(all).drop_first() =~= refused.actions(events));
}

/// A route without a credential verifier admits every request, whatever its
/// `Authorization` header holds.
pub proof fn lemma_open_route_admits_everyone(
    exchange: ExchangeView,
    judgement: Result<ClaimsView, AuthError>,
)
    requires
        exchange.stage == Stage::Arrived,
        !guarded(exchange.chain),
    ensures
        exchange.arrive(judgement).1 == ActionView::InvokeHandler,
        exchange.arrive(judgement).0.stage == Stage::Handling,
{
}

/// On a metered route the measurement leaves together with the response and
/// carries the status that the client sees.
pub proof fn lemma_publish_follows_response(exchange: ExchangeView, status: u16, duration: u128)
    requires
        exchange.wf(),
        exchange.stage == Stage::Handling,
        metered(exchange.chain),
    ensures
        exchange.handler_done(status, duration).0.response == Some(status),
        exchange.handler_done(status, duration).1 matches ActionView::Respond {
            status: answered,
            publish: Some(record),
        } && answered == status && record.status == Some(status),
{
}

/// The end of a publish attempt, good or bad, changes nothing that the
/// client sees and asks for nothing: a failed publish is not repeated.
pub proof fn lemma_publish_outcome_is_swallowed(exchange: ExchangeView, outcome: PublishOutcome)
    ensures
        exchange.publish_done(outcome).0.response == exchange.response,
        exchange.publish_done(outcome).1 == ActionView::Ignore,
{
}

/// Whatever events arrive in whatever order, the handler of a request runs at
/// most once and the client is answered from it at most once; on a metered
/// route each such answer comes with exactly one measurement to publish, on
/// other routes with none.
pub proof fn lemma_one_publish_per_response(exchange: ExchangeView, events: Seq<Event>)
    requires
        exchange.wf(),
    ensures
        dispatch_count(exchange.actions(events)) <= (if exchange.stage == Stage::Arrived {
            1nat
        } else {
            0nat
        }),
        respond_count(exchange.actions(events)) <= (if exchange.stage == Stage::Arrived
            || exchange.stage == Stage::Handling {
            1nat
        } else {
            0nat
        }),
        publish_count(exchange.actions(events)) == (if metered(exchange.chain) {
            respond_count(exchange.actions(events))
        } else {
            0nat
        }),
    decreases events.len(),
{
    if events.len() > 0 {
        let rest = events.drop_first();
        let next = exchange.step(events[0]).0;
        lemma_step_keeps_wf(exchange, events[0]);
        lemma_one_publish_per_response(next, rest);
        assert(exchange.actions(events).drop_first() =~= next.actions(rest));
    }
}

/// An element is among the first `i + 1` of a sequence if it is among the
/// first `i` or is the one at `i`.
proof fn lemma_take_next(chain: Seq<Interceptor>, i: int, which: Interceptor)
    requires
        0 <= i < chain.len(),
    ensures
        chain.take(i + 1).contains(which) <==> chain.take(i).contains(which) || chain[i] == which,
{
    let shorter = chain.take(i);
    let longer = chain.take(i + 1);
    if shorter.contains(which) {
        let j = choose|j: int| 0 <= j < shorter.len() && shorter[j] == which;
        assert(longer[j] == which);
    }
    if chain[i] == which {
        assert(longer[i] == which);
    }
    if longer.contains(which) {
        let j = choose|j: int| 0 <= j < longer.len() && longer[j] == which;
        if j < i {
            assert(shorter[j] == which);
        }
    }
}

/// The state of one request on its way through the chain of its route.
pub struct Exchange {
    chain: Vec<Interceptor>,
    method: String,
    path: String,
    stage: Stage,
    entered: usize,
    claims: Option<Claims>,
    metric: Option<MetricRecord>,
    response: Option<u16>,
}

/// The claims, if any, as a mathematical value.
pub open spec fn claims_view(claims: Option<Claims>) -> Option<ClaimsView> {
    match claims {
        Some(claims) => Some(claims@),
        None => None,
    }
}

/// The record, if any, as a mathematical value.
pub open spec fn metric_view(metric: Option<MetricRecord>) -> Option<MetricView> {
    match metric {
        Some(metric) => Some(metric@),
        None => None,
    }
}

impl View for Exchange {
    type V = ExchangeView;

    closed spec fn view(&self) -> ExchangeView {
        ExchangeView {
            chain: self.chain@,
            method: self.method@,
            path: self.path@,
            stage: self.stage,
            entered: self.entered as nat,
            claims: claims_view(self.claims),
            metric: metric_view(self.metric),
            response: self.response,
        }
    }
}

/// What is due after an event.
#[derive(Debug, PartialEq, Eq)]
pub enum Action {
    /// Run the route's handler, then report its end.
    InvokeHandler,
    /// Answer the client with `status`; run nothing.
    Reject { status: u16 },
    /// Answer the client with `status`. Then, detached from the response,
    /// publish the record, if there is one, and report the end of the attempt.
    Respond { status: u16, publish: Option<MetricRecord> },
    /// Nothing.
    Ignore,
}

impl View for Action {
    type V = ActionView;

    open spec fn view(&self) -> ActionView {
        match self {
            Action::InvokeHandler => ActionView::InvokeHandler,
            Action::Reject { status } => ActionView::Reject { status: *status },
            Action::Respond { status, publish } => ActionView::Respond {
                status: *status,
                publish: metric_view(*publish),
            },
            Action::Ignore => ActionView::Ignore,
        }
    }
}

impl Exchange {
    /// The exchange of a request for `method` and `path` that has just
    /// arrived at a route with the given chain.
    pub fn begin(chain: Vec<Interceptor>, method: &str, path: &str) -> (exchange: Exchange)
        ensures
            exchange@ == ExchangeView::initial(chain@, method@, path@),
    {
        Exchange {
            chain,
            method: String::from_str(method),
            path: String::from_str(path),
            stage: Stage::Arrived,
            entered: 0,
            claims: None,
            metric: None,
            response: None,
        }
    }

    /// Where the request stands.
    pub fn stage(&self) -> (stage: Stage)
        ensures
            stage == self@.stage,
    {
        self.stage
    }

    /// The status that the client sees, once it is decided.
    pub fn response(&self) -> (response: Option<u16>)
        ensures
            response == self@.response,
    {
        self.response
    }

    /// How many interceptors of the chain have run.
    pub fn entered(&self) -> (entered: usize)
        ensures
            entered == self@.entered,
    {
        self.entered
    }

    /// The claims of the request's credential, once a verifier accepted it.
    pub fn claims(&self) -> (claims: Option<&Claims>)
        ensures
            match claims {
                Some(claims) => self@.claims == Some(claims@),
                None => self@.claims is None,
            },
    {
        self.claims.as_ref()
    }

    /// Runs the interceptors on the arriving request: `header` is the value of
    /// its `Authorization` header, `now` the current second.
    pub fn arrive(&mut self, validator: &JwtValidator, header: Option<&str>, now: u64) -> (action:
        Action)
        ensures
            (final(self)@, action@) == old(self)@.arrive(
                verified(header_text(header), validator.secret@, now),
            ),
    {
        match self.stage {
            Stage::Arrived => {},
            _ => {
                return Action::Ignore;
            },
        }
        let ghost judgement = verified(header_text(header), validator.secret@, now);
        let ghost guard = Interceptor::CredentialVerifier;
        let ghost meter = Interceptor::TelemetryPublisher;
        let mut claims: Option<Claims> = None;
        let mut metric: Option<MetricRecord> = None;
        let mut i: usize = 0;
        while i < self.chain.len()
            invariant
                *self == *old(self),
                self.stage == Stage::Arrived,
                i <= self.chain.len(),
                guard == Interceptor::CredentialVerifier,
                meter == Interceptor::TelemetryPublisher,
                judgement == verified(header_text(header), validator.secret@, now),
                claims is Some <==> self.chain@.take(i as int).contains(guard),
                claims matches Some(c) ==> judgement == Ok::<ClaimsView, AuthError>(c@),
                metric is Some <==> self.chain@.take(i as int).contains(meter),
                metric matches Some(m) ==> m@ == started(self.method@, self.path@),
            decreases self.chain.len() - i,
        {
            proof {
                lemma_take_next(self.chain@, i as int, guard);
                lemma_take_next(self.chain@, i as int, meter);
            }
            match self.chain[i] {
                Interceptor::CredentialVerifier => {
                    match verify(header, validator.secret.as_str(), now) {
                        Ok(accepted) => {
                            claims = Some(accepted);
                        },
                        Err(_) => {
                            proof {
                                // No verifier stands before this one: it would
                                // have refused the request as this one does.
                                let chain = self.chain@;
                                assert(chain.contains(guard)) by {
                                    assert(chain[i as int] == guard);
                                }
                                chain.index_of_first_ensures(guard);
                                let first = chain.index_of_first(guard)->0;
                                if first < i {
                                    assert(chain.take(i as int)[first] == guard);
                                }
                                assert(first == i);
                            }
                            self.stage = Stage::Settled;
                            self.entered = i + 1;
                            self.response = Some(401);
                            return Action::Reject { status: 401 };
                        },
                    }
                },
                Interceptor::TelemetryPublisher => {
                    metric = Some(MetricRecord::start(self.method.as_str(), self.path.as_str()));
                },
            }
            i += 1;
        }
        assert(self.chain@.take(i as int) =~= self.chain@);
        self.stage = Stage::Handling;
        self.entered = i;
        self.claims = claims;
        self.metric = metric;
        Action::InvokeHandler
    }

    /// Takes the end of the handler: its response status and the
    /// milliseconds that have passed since the measurement started.
    pub fn handler_done(&mut self, status: u16, duration: u128) -> (action: Action)
        ensures
            (final(self)@, action@) == old(self)@.handler_done(status, duration),
    {
        match self.stage {
            Stage::Handling => {},
            _ => {
                return Action::Ignore;
            },
        }
        let publish = match self.metric.take() {
            Some(record) => Some(record.finalize(status, duration)),
            None => None,
        };
        self.stage = if publish.is_some() {
            Stage::Answered
        } else {
            Stage::Settled
        };
        self.response = Some(status);
        Action::Respond { status, publish }
    }

    /// Takes the end of the publish attempt.
    pub fn publish_done(&mut self, outcome: PublishOutcome) -> (action: Action)
        ensures
            (final(self)@, action@) == old(self)@.publish_done(outcome),
    {
        match self.stage {
            Stage::Answered => {
                self.stage = Stage::Settled;
            },
            _ => {},
        }
        Action::Ignore
    }
}

} // verus!
