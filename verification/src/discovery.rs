//! The discovery strategy runner.
//!
//! A two-strategy pipeline, run as a state machine so that the embedding
//! application can perform the network calls between decisions: the
//! server-name strategy is always attempted first when the input parses as
//! a server name; the URL strategy is attempted only afterwards, and its
//! failures are discarded in favour of the server-name strategy's error.
//! That priority is a design invariant: URL-path errors never override
//! server-name-path errors.
//!
//! The embedding application drives the machine: it performs the
//! [`DiscoveryAction`] that each step demands, translates the outcome into
//! plain values, and hands it to the next step.

use vstd::prelude::*;
use crate::errors::{
    AuthenticationError,
    AuthErrorView,
    ClientBuildFailure,
    BuildFailureView,
    spec_map_build_failure,
    map_build_failure,
};
use crate::identifier::{
    classify_identifier,
    server_name_error,
    spec_has_prefix,
    spec_scheme_stripped,
    spec_server_name_ok,
    spec_url_ok,
    url_parse,
};
use crate::login::{ClientHandle, ClientHandleView};

verus! {

/// The view of a `Result` whose sides both have views.
pub open spec fn res_view<T: View, E: View>(r: Result<T, E>) -> Result<T::V, E::V> {
    match r {
        Ok(t) => Ok(t@),
        Err(e) => Err(e@),
    }
}

/// The view of an `Option` whose content has a view.
pub open spec fn opt_view<T: View>(o: Option<T>) -> Option<T::V> {
    match o {
        Some(t) => Some(t@),
        None => None,
    }
}

/// Spec-level shape of a [`DiscoveryAction`].
pub enum ActionView {
    DiscoverServerName { server_name: Seq<char>, insecure: bool },
    ProbeUrl { url: Seq<char> },
    FetchLoginFlows,
}

/// The outside work that the embedding application must perform next.
pub enum DiscoveryAction {
    /// Build a client for the server name and run the transport's built-in
    /// discovery procedure (well-known lookup and homeserver confirmation),
    /// over plaintext when `insecure` is set.
    DiscoverServerName { server_name: String, insecure: bool },
    /// Build a client targeting the URL directly and probe it by requesting
    /// its server-version metadata.
    ProbeUrl { url: String },
    /// Query the confirmed client for its supported login flows.
    FetchLoginFlows,
}

impl View for DiscoveryAction {
    type V = ActionView;

    open spec fn view(&self) -> ActionView {
        match self {
            DiscoveryAction::DiscoverServerName { server_name, insecure } => ActionView::DiscoverServerName {
                server_name: server_name@,
                insecure: *insecure,
            },
            DiscoveryAction::ProbeUrl { url } => ActionView::ProbeUrl { url: url@ },
            DiscoveryAction::FetchLoginFlows => ActionView::FetchLoginFlows,
        }
    }
}

/// Spec-level shape of a [`ConfigureFlow`].
pub enum FlowView {
    AwaitingDiscovery { url_candidate: Option<Seq<char>> },
    AwaitingProbe { pending_error: AuthErrorView },
    AwaitingFlows { client: ClientHandleView },
}

/// One in-progress configuration cycle, between two decisions.
pub enum ConfigureFlow {
    /// Server-name discovery is under way; the URL reading of the input is
    /// kept as the fallback candidate.
    AwaitingDiscovery { url_candidate: Option<String> },
    /// The URL strategy is under way; `pending_error` is what the
    /// server-name path already decided to report, and is what propagates
    /// if the probe fails.
    AwaitingProbe { pending_error: AuthenticationError },
    /// A candidate homeserver is confirmed; its login flows are being
    /// fetched.
    AwaitingFlows { client: ClientHandle },
}

impl View for ConfigureFlow {
    type V = FlowView;

    open spec fn view(&self) -> FlowView {
        match self {
            ConfigureFlow::AwaitingDiscovery { url_candidate } => FlowView::AwaitingDiscovery {
                url_candidate: match url_candidate {
                    Some(u) => Some(u@),
                    None => None,
                },
            },
            ConfigureFlow::AwaitingProbe { pending_error } => FlowView::AwaitingProbe {
                pending_error: pending_error@,
            },
            ConfigureFlow::AwaitingFlows { client } => FlowView::AwaitingFlows { client: client@ },
        }
    }
}

/// Spec-level shape of a [`FlowStep`].
pub enum StepView {
    Continue { flow: FlowView, action: ActionView },
    Fail { error: AuthErrorView },
}

/// What one step of the machine decides: either the cycle goes on and the
/// application must perform an action, or it has failed with a taxonomy
/// error. Success is reported by
/// [`crate::service::AuthenticationService::complete_with_login_flows`],
/// which consumes the final state.
pub enum FlowStep {
    /// The cycle continues; perform `action` and hand its outcome back.
    Continue { flow: ConfigureFlow, action: DiscoveryAction },
    /// The cycle is over; no configuration was or will be committed.
    Fail { error: AuthenticationError },
}

impl View for FlowStep {
    type V = StepView;

    open spec fn view(&self) -> StepView {
        match self {
            FlowStep::Continue { flow, action } => StepView::Continue {
                flow: flow@,
                action: action@,
            },
            FlowStep::Fail { error } => StepView::Fail { error: error@ },
        }
    }
}

/// What classifying the input decides. If the input parses as a server
/// name, server-name discovery is attempted first, with the URL reading
/// kept only as a fallback candidate. If it parses only as a URL, the URL
/// probe runs with the identifier-format error pending. If it parses as
/// neither, that error is the reported failure.
pub open spec fn spec_begin(input: Seq<char>) -> StepView {
    if spec_server_name_ok(input) {
        StepView::Continue {
            flow: FlowView::AwaitingDiscovery { url_candidate: url_parse(input) },
            action: ActionView::DiscoverServerName {
                server_name: spec_scheme_stripped(input),
                insecure: spec_has_prefix(input, "http://"@),
            },
        }
    } else if spec_url_ok(input) {
        StepView::Continue {
            flow: FlowView::AwaitingProbe {
                pending_error: AuthErrorView::InvalidServerName(
                    server_name_error(spec_scheme_stripped(input)).unwrap(),
                ),
            },
            action: ActionView::ProbeUrl { url: url_parse(input).unwrap() },
        }
    } else {
        StepView::Fail {
            error: AuthErrorView::InvalidServerName(
                server_name_error(spec_scheme_stripped(input)).unwrap(),
            ),
        }
    }
}

/// What the outcome of server-name discovery decides. On success the
/// candidate is confirmed immediately; the URL strategy is not attempted.
/// On failure the transport error is mapped into the taxonomy, and the URL
/// strategy runs only if the input also read as a URL.
pub open spec fn spec_on_discovery(
    url_candidate: Option<Seq<char>>,
    result: Result<ClientHandleView, BuildFailureView>,
) -> StepView {
    match result {
        Ok(client) => StepView::Continue {
            flow: FlowView::AwaitingFlows { client },
            action: ActionView::FetchLoginFlows,
        },
        Err(e) => match url_candidate {
            Some(u) => StepView::Continue {
                flow: FlowView::AwaitingProbe { pending_error: spec_map_build_failure(e) },
                action: ActionView::ProbeUrl { url: u },
            },
            None => StepView::Fail { error: spec_map_build_failure(e) },
        },
    }
}

/// What the outcome of the URL probe decides. A reachable homeserver is an
/// acceptable last resort; an unreachable one carries no diagnostic value,
/// so the probe's failure is discarded and the pending server-name-path
/// error propagates instead.
pub open spec fn spec_on_probe(
    pending_error: AuthErrorView,
    probe: Option<ClientHandleView>,
) -> StepView {
    match probe {
        Some(client) => StepView::Continue {
            flow: FlowView::AwaitingFlows { client },
            action: ActionView::FetchLoginFlows,
        },
        None => StepView::Fail { error: pending_error },
    }
}

/// Starts a configuration cycle for the supplied server name or homeserver
/// URL. Pure classification; no network calls.
pub fn begin_configure(input: &str) -> (r: FlowStep)
    ensures
        r@ == spec_begin(input@),
{
    let c = classify_identifier(input);
    match c.server_name {
        Ok(name) => FlowStep::Continue {
            flow: ConfigureFlow::AwaitingDiscovery { url_candidate: c.url },
            action: DiscoveryAction::DiscoverServerName {
                server_name: name,
                insecure: c.insecure,
            },
        },
        Err(msg) => match c.url {
            Some(u) => FlowStep::Continue {
                flow: ConfigureFlow::AwaitingProbe {
                    pending_error: AuthenticationError::InvalidServerName(msg),
                },
                action: DiscoveryAction::ProbeUrl { url: u },
            },
            None => FlowStep::Fail { error: AuthenticationError::InvalidServerName(msg) },
        },
    }
}

/// Advances the cycle with the outcome of server-name discovery.
pub fn on_discovery_result(
    flow: ConfigureFlow,
    result: Result<ClientHandle, ClientBuildFailure>,
) -> (r: FlowStep)
    requires
        flow is AwaitingDiscovery,
    ensures
        r@ == spec_on_discovery(flow@->AwaitingDiscovery_url_candidate, res_view(result)),
{
    match flow {
        ConfigureFlow::AwaitingDiscovery { url_candidate } => match result {
            Ok(client) => FlowStep::Continue {
                flow: ConfigureFlow::AwaitingFlows { client },
                action: DiscoveryAction::FetchLoginFlows,
            },
            Err(e) => {
                let error = map_build_failure(e);
                match url_candidate {
                    Some(u) => FlowStep::Continue {
                        flow: ConfigureFlow::AwaitingProbe { pending_error: error },
                        action: DiscoveryAction::ProbeUrl { url: u },
                    },
                    None => FlowStep::Fail { error },
                }
            },
        },
        _ => vstd::pervasive::unreached(),
    }
}

/// Advances the cycle with the outcome of the URL probe: the client when
/// the probe confirmed a homeserver at the URL, `None` otherwise.
pub fn on_probe_result(flow: ConfigureFlow, probe: Option<ClientHandle>) -> (r: FlowStep)
    requires
        flow is AwaitingProbe,
    ensures
        r@ == spec_on_probe(flow@->AwaitingProbe_pending_error, opt_view(probe)),
{
    match flow {
        ConfigureFlow::AwaitingProbe { pending_error } => match probe {
            Some(client) => FlowStep::Continue {
                flow: ConfigureFlow::AwaitingFlows { client },
                action: DiscoveryAction::FetchLoginFlows,
            },
            None => FlowStep::Fail { error: pending_error },
        },
        _ => vstd::pervasive::unreached(),
    }
}

/// An input that fails both server-name parsing and URL parsing is
/// rejected outright with `InvalidServerName` carrying the parse cause; no
/// discovery is attempted, so no configuration can be touched.
pub proof fn lemma_invalid_input_rejected(input: Seq<char>)
    requires
        !spec_server_name_ok(input),
        !spec_url_ok(input),
    ensures
        spec_begin(input) == (StepView::Fail {
            error: AuthErrorView::InvalidServerName(
                server_name_error(spec_scheme_stripped(input)).unwrap(),
            ),
        }),
{
}

/// A server name that discovery resolves successfully confirms its client
/// immediately: the URL strategy is never attempted, and the confirmed
/// client — not the supplied literal — is what the cycle carries forward.
pub proof fn lemma_discovery_success_confirms_client(input: Seq<char>, client: ClientHandleView)
    requires
        spec_server_name_ok(input),
    ensures
        spec_begin(input) matches StepView::Continue { flow, action }
            && flow == (FlowView::AwaitingDiscovery { url_candidate: url_parse(input) })
            && spec_on_discovery(url_parse(input), Ok(client)) == (StepView::Continue {
            flow: FlowView::AwaitingFlows { client },
            action: ActionView::FetchLoginFlows,
        }),
{
}

/// A server name whose discovery fails, but whose literal string also
/// parses as a URL at which a homeserver answers the probe, still confirms
/// a client via the URL strategy.
pub proof fn lemma_url_fallback_succeeds(
    input: Seq<char>,
    failure: BuildFailureView,
    client: ClientHandleView,
)
    requires
        spec_server_name_ok(input),
        spec_url_ok(input),
    ensures
        spec_on_discovery(url_parse(input), Err(failure)) == (StepView::Continue {
            flow: FlowView::AwaitingProbe { pending_error: spec_map_build_failure(failure) },
            action: ActionView::ProbeUrl { url: url_parse(input).unwrap() },
        }),
        spec_on_probe(spec_map_build_failure(failure), Some(client)) == (StepView::Continue {
            flow: FlowView::AwaitingFlows { client },
            action: ActionView::FetchLoginFlows,
        }),
{
}

/// A malformed well-known file is reported as `InvalidWellKnownFile` with
/// its deserialization cause — never as `Generic`, and never replaced by a
/// URL-strategy error: if a URL fallback is attempted and fails, the
/// pending well-known error is still what propagates.
pub proof fn lemma_well_known_error_preserved(url_candidate: Option<Seq<char>>, cause: Seq<char>)
    ensures
        ({
            let after = spec_on_discovery(
                url_candidate,
                Err(BuildFailureView::WellKnownDeserialization(cause)),
            );
            match url_candidate {
                Some(u) => after == (StepView::Continue {
                    flow: FlowView::AwaitingProbe {
                        pending_error: AuthErrorView::InvalidWellKnownFile(cause),
                    },
                    action: ActionView::ProbeUrl { url: u },
                }) && spec_on_probe(AuthErrorView::InvalidWellKnownFile(cause), None)
                    == (StepView::Fail { error: AuthErrorView::InvalidWellKnownFile(cause) }),
                None => after == (StepView::Fail {
                    error: AuthErrorView::InvalidWellKnownFile(cause),
                }),
            }
        }),
{
}

} // verus!
