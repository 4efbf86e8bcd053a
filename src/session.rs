//! Which endpoints are trusted, and the order of the steps that build a
//! session and make the query.
use vstd::prelude::*;

verus! {

/// The production gateway.
pub const DEFAULT_IC_GATEWAY: &'static str = "https://icp0.io";

/// The production gateway, written with a trailing slash.
pub const DEFAULT_IC_GATEWAY_TRAILING_SLASH: &'static str = "https://icp0.io/";

/// How far an endpoint is trusted.
#[derive(Debug, Clone, Copy, PartialEq, Eq, Structural)]
pub enum GatewayKind {
    /// A production gateway, whose root key is built in.
    KnownProductionGateway,
    /// Any other endpoint: its root key must be fetched first.
    UntrustedEndpoint,
}

/// Whether a URL names the production gateway.
pub open spec fn is_production_url(url: Seq<char>) -> bool {
    url == DEFAULT_IC_GATEWAY@ || url == DEFAULT_IC_GATEWAY_TRAILING_SLASH@
}

/// The kind of the endpoint at a URL.
pub open spec fn gateway_kind(url: Seq<char>) -> GatewayKind {
    if is_production_url(url) {
        GatewayKind::KnownProductionGateway
    } else {
        GatewayKind::UntrustedEndpoint
    }
}

/// Classifies the endpoint at a URL.
pub fn classify_endpoint(url: &str) -> (r: GatewayKind)
    ensures
        r == gateway_kind(url@),
{
    let u = url.to_owned();
    let plain = DEFAULT_IC_GATEWAY.to_owned();
    let slashed = DEFAULT_IC_GATEWAY_TRAILING_SLASH.to_owned();
    if u == plain || u == slashed {
        GatewayKind::KnownProductionGateway
    } else {
        GatewayKind::UntrustedEndpoint
    }
}

impl GatewayKind {
    /// Whether a session against this endpoint fetches its root key.
    pub fn needs_root_key(&self) -> (r: bool)
        ensures
            r == (*self == GatewayKind::UntrustedEndpoint),
    {
        match self {
            GatewayKind::KnownProductionGateway => false,
            GatewayKind::UntrustedEndpoint => true,
        }
    }
}

/// Why a run stopped before it had the logs.
#[derive(Debug, Clone, Copy, PartialEq, Eq, Structural)]
pub enum PipelineError {
    /// The key file is missing, unreadable or not a valid key.
    KeyLoadError,
    /// The URL is malformed or the transport could not be built.
    TransportInitError,
    /// The root key of an untrusted endpoint could not be fetched.
    TrustRootFetchError,
    /// The query failed: network, decoding or rejection.
    CallError,
}

/// Where a run stands.
#[derive(Debug, Clone, Copy, PartialEq, Eq, Structural)]
pub enum Stage {
    LoadingIdentity,
    BuildingSession,
    FetchingTrustRoot,
    Querying,
    Done,
    Failed(PipelineError),
}

/// What the last piece of outside work reported.
#[derive(Debug, Clone, Copy, PartialEq, Eq, Structural)]
pub enum Event {
    IdentityLoaded,
    IdentityRejected,
    SessionBuilt,
    SessionRejected,
    TrustRootFetched,
    TrustRootUnavailable,
    LogsReceived,
    CallRejected,
}

/// The next piece of outside work to do.
#[derive(Debug, Clone, Copy, PartialEq, Eq, Structural)]
pub enum Action {
    /// Read the key file and make the identity.
    LoadIdentity,
    /// Build the transport and the agent, bound to the identity.
    BuildSession,
    /// Fetch the endpoint's root key and keep it.
    FetchTrustRoot,
    /// Make the log query.
    QueryLogs,
    /// Normalize the logs that came back.
    Normalize,
    /// Give up with this error.
    Stop(PipelineError),
    /// Nothing more to do.
    Idle,
}

/// Whether an action touches the network or the session.
pub open spec fn is_network_action(a: Action) -> bool {
    a == Action::BuildSession || a == Action::FetchTrustRoot || a == Action::QueryLogs
}

/// A run of the pipeline against one endpoint.
#[derive(Debug, Clone, Copy, PartialEq, Eq, Structural)]
pub struct Pipeline {
    pub gateway: GatewayKind,
    pub stage: Stage,
}

/// The state and action that follow an event. An event that does not fit
/// the stage changes nothing.
pub open spec fn next(p: Pipeline, e: Event) -> (Pipeline, Action) {
    let to = |stage: Stage, a: Action| (Pipeline { gateway: p.gateway, stage }, a);
    match (p.stage, e) {
        (Stage::LoadingIdentity, Event::IdentityLoaded) => to(
            Stage::BuildingSession,
            Action::BuildSession,
        ),
        (Stage::LoadingIdentity, Event::IdentityRejected) => to(
            Stage::Failed(PipelineError::KeyLoadError),
            Action::Stop(PipelineError::KeyLoadError),
        ),
        (Stage::BuildingSession, Event::SessionBuilt) => if p.gateway
            == GatewayKind::UntrustedEndpoint {
            to(Stage::FetchingTrustRoot, Action::FetchTrustRoot)
        } else {
            to(Stage::Querying, Action::QueryLogs)
        },
        (Stage::BuildingSession, Event::SessionRejected) => to(
            Stage::Failed(PipelineError::TransportInitError),
            Action::Stop(PipelineError::TransportInitError),
        ),
        (Stage::FetchingTrustRoot, Event::TrustRootFetched) => to(
            Stage::Querying,
            Action::QueryLogs,
        ),
        (Stage::FetchingTrustRoot, Event::TrustRootUnavailable) => to(
            Stage::Failed(PipelineError::TrustRootFetchError),
            Action::Stop(PipelineError::TrustRootFetchError),
        ),
        (Stage::Querying, Event::LogsReceived) => to(Stage::Done, Action::Normalize),
        (Stage::Querying, Event::CallRejected) => to(
            Stage::Failed(PipelineError::CallError),
            Action::Stop(PipelineError::CallError),
        ),
        _ => (p, Action::Idle),
    }
}

/// The state in which a run against a URL starts.
pub open spec fn initial(url: Seq<char>) -> Pipeline {
    Pipeline { gateway: gateway_kind(url), stage: Stage::LoadingIdentity }
}

/// The actions that a run issues for a sequence of events.
pub open spec fn actions(p: Pipeline, events: Seq<Event>) -> Seq<Action>
    decreases events.len(),
{
    if events.len() == 0 {
        seq![]
    } else {
        let (q, a) = next(p, events[0]);
        seq![a] + actions(q, events.drop_first())
    }
}

impl Pipeline {
    /// Starts a run against a URL: its first action loads the identity.
    pub fn start(url: &str) -> (r: (Pipeline, Action))
        ensures
            r.0 == initial(url@),
            r.1 == Action::LoadIdentity,
    {
        let gateway = classify_endpoint(url);
        (Pipeline { gateway, stage: Stage::LoadingIdentity }, Action::LoadIdentity)
    }

    /// The state and action that follow an event.
    pub fn step(&self, e: Event) -> (r: (Pipeline, Action))
        ensures
            r == next(*self, e),
    {
        let (stage, action) = match (self.stage, e) {
            (Stage::LoadingIdentity, Event::IdentityLoaded) => (
                Stage::BuildingSession,
                Action::BuildSession,
            ),
            (Stage::LoadingIdentity, Event::IdentityRejected) => (
                Stage::Failed(PipelineError::KeyLoadError),
                Action::Stop(PipelineError::KeyLoadError),
            ),
            (Stage::BuildingSession, Event::SessionBuilt) => if self.gateway.needs_root_key() {
                (Stage::FetchingTrustRoot, Action::FetchTrustRoot)
            } else {
                (Stage::Querying, Action::QueryLogs)
            },
            (Stage::BuildingSession, Event::SessionRejected) => (
                Stage::Failed(PipelineError::TransportInitError),
                Action::Stop(PipelineError::TransportInitError),
            ),
            (Stage::FetchingTrustRoot, Event::TrustRootFetched) => (
                Stage::Querying,
                Action::QueryLogs,
            ),
            (Stage::FetchingTrustRoot, Event::TrustRootUnavailable) => (
                Stage::Failed(PipelineError::TrustRootFetchError),
                Action::Stop(PipelineError::TrustRootFetchError),
            ),
            (Stage::Querying, Event::LogsReceived) => (Stage::Done, Action::Normalize),
            (Stage::Querying, Event::CallRejected) => (
                Stage::Failed(PipelineError::CallError),
                Action::Stop(PipelineError::CallError),
            ),
            _ => (self.stage, Action::Idle),
        };
        (Pipeline { gateway: self.gateway, stage }, action)
    }
}

/// A run issues one action per event.
proof fn lemma_actions_len(p: Pipeline, events: Seq<Event>)
    ensures
        actions(p, events).len() == events.len(),
    decreases events.len(),
{
    if events.len() > 0 {
        lemma_actions_len(next(p, events[0]).0, events.drop_first());
    }
}

/// A run against the production gateway never fetches a root key, whatever
/// the outside work reports.
pub proof fn lemma_production_never_fetches_root(p: Pipeline, events: Seq<Event>)
    requires
        p.gateway == GatewayKind::KnownProductionGateway,
    ensures
        forall|i: int|
            0 <= i < events.len() ==> #[trigger] actions(p, events)[i] != Action::FetchTrustRoot,
    decreases events.len(),
{
    if events.len() > 0 {
        let q = next(p, events[0]).0;
        lemma_production_never_fetches_root(q, events.drop_first());
        lemma_actions_len(q, events.drop_first());
        assert forall|i: int| 0 <= i < events.len() implies #[trigger] actions(p, events)[i]
            != Action::FetchTrustRoot by {
            if i > 0 {
                assert(actions(p, events)[i] == actions(q, events.drop_first())[i - 1]);
            }
        }
    }
}

/// Whether a run has not yet reached the point where it fetches a root key
/// or queries.
pub open spec fn before_trust(p: Pipeline) -> bool {
    p.stage == Stage::LoadingIdentity || p.stage == Stage::BuildingSession || p.stage
        == Stage::Done || p.stage is Failed
}

/// A run against any other endpoint fetches its root key before it queries.
pub proof fn lemma_untrusted_fetches_root_first(p: Pipeline, events: Seq<Event>)
    requires
        p.gateway == GatewayKind::UntrustedEndpoint,
        before_trust(p),
    ensures
        forall|i: int|
            0 <= i < events.len() && #[trigger] actions(p, events)[i] == Action::QueryLogs
                ==> exists|j: int| 0 <= j < i && actions(p, events)[j] == Action::FetchTrustRoot,
    decreases events.len(),
{
    if events.len() > 0 {
        let (q, a) = next(p, events[0]);
        let acts = actions(p, events);
        let rest = actions(q, events.drop_first());
        lemma_actions_len(q, events.drop_first());
        assert(acts == seq![a] + rest);
        if a == Action::FetchTrustRoot {
            assert forall|i: int|
                0 <= i < events.len() && #[trigger] acts[i] == Action::QueryLogs implies exists|
                j: int,
            | 0 <= j < i && acts[j] == Action::FetchTrustRoot by {
                assert(acts[0] == Action::FetchTrustRoot);
            }
        } else {
            lemma_untrusted_fetches_root_first(q, events.drop_first());
            assert forall|i: int|
                0 <= i < events.len() && #[trigger] acts[i] == Action::QueryLogs implies exists|
                j: int,
            | 0 <= j < i && acts[j] == Action::FetchTrustRoot by {
                assert(acts[i] == rest[i - 1]);
                let k = choose|k: int| 0 <= k < i - 1 && rest[k] == Action::FetchTrustRoot;
                assert(acts[k + 1] == Action::FetchTrustRoot);
            }
        }
    }
}

/// Once a run has failed it stays failed and issues no more work.
pub proof fn lemma_failure_is_final(p: Pipeline, events: Seq<Event>)
    requires
        p.stage is Failed,
    ensures
        forall|i: int| 0 <= i < events.len() ==> #[trigger] actions(p, events)[i] == Action::Idle,
    decreases events.len(),
{
    if events.len() > 0 {
        let q = next(p, events[0]).0;
        lemma_failure_is_final(q, events.drop_first());
        lemma_actions_len(q, events.drop_first());
        assert forall|i: int| 0 <= i < events.len() implies #[trigger] actions(p, events)[i]
            == Action::Idle by {
            if i > 0 {
                assert(actions(p, events)[i] == actions(q, events.drop_first())[i - 1]);
            }
        }
    }
}

/// When the key cannot be loaded the run stops with a key error and never
/// builds a session, fetches a root key or queries.
pub proof fn lemma_key_failure_before_network(url: Seq<char>, events: Seq<Event>)
    requires
        events.len() > 0,
        events[0] == Event::IdentityRejected,
    ensures
        actions(initial(url), events)[0] == Action::Stop(PipelineError::KeyLoadError),
        forall|i: int|
            0 <= i < events.len() ==> !is_network_action(#[trigger] actions(initial(url), events)[i]),
{
    let q = next(initial(url), events[0]).0;
    lemma_failure_is_final(q, events.drop_first());
    lemma_actions_len(q, events.drop_first());
    assert forall|i: int| 0 <= i < events.len() implies !is_network_action(
        #[trigger] actions(initial(url), events)[i],
    ) by {
        if i > 0 {
            assert(actions(initial(url), events)[i] == actions(q, events.drop_first())[i - 1]);
        }
    }
}

/// A session is built only right after the identity was loaded.
pub proof fn lemma_session_needs_identity(p: Pipeline, e: Event)
    ensures
        next(p, e).1 == Action::BuildSession ==> e == Event::IdentityLoaded,
{
}

} // verus!
