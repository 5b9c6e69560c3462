//! The authentication service and its configuration store.
//!
//! The store is a single composite value: either no configuration, or one
//! consistent client/details pair describing the same homeserver. It is
//! replaced wholesale by a successful configuration cycle and left
//! untouched by a failed one, so a reader never observes a half-updated
//! configuration. The embedding application that shares one service
//! between tasks guards it with a single synchronization primitive, which
//! preserves exactly this all-or-nothing shape.

use vstd::prelude::*;
use crate::discovery::{
    ConfigureFlow,
    ActionView,
    FlowView,
    StepView,
    opt_view,
    res_view,
    spec_begin,
    spec_on_discovery,
    spec_on_probe,
};
use crate::errors::{AuthenticationError, AuthErrorView, BuildFailureView, spec_map_build_failure};
use crate::identifier::{spec_server_name_ok, spec_url_ok, url_parse};
use crate::login::{
    ClientHandle,
    ClientHandleView,
    HomeserverLoginDetails,
    LoginDetailsView,
    LoginFlow,
    login_details_from_client,
    spec_login_details,
};

verus! {

/// Spec-level shape of a [`Configuration`].
pub struct ConfigurationView {
    pub client: ClientHandleView,
    pub details: LoginDetailsView,
}

/// The currently accepted client and capability summary, committed as one
/// unit.
#[derive(Debug)]
pub struct Configuration {
    /// The confirmed client.
    pub client: ClientHandle,
    /// The login details probed from that same client.
    pub details: HomeserverLoginDetails,
}

impl View for Configuration {
    type V = ConfigurationView;

    open spec fn view(&self) -> ConfigurationView {
        ConfigurationView { client: self.client@, details: self.details@ }
    }
}

/// Spec-level shape of an [`AuthenticationService`].
pub struct ServiceView {
    pub user_agent: Option<Seq<char>>,
    pub configuration: Option<ConfigurationView>,
    pub custom_sliding_sync_proxy: Option<Seq<char>>,
    pub sliding_sync_enabled: bool,
    pub oidc_enabled: bool,
}

/// The stored pair, if any, is internally consistent: its login details
/// describe the same homeserver URL as its client.
pub open spec fn spec_store_consistent(sv: ServiceView) -> bool {
    sv.configuration matches Some(c) ==> c.details.url == c.client.homeserver_url
}

/// The proxy gate blocks a commit: the optional sliding-sync capability is
/// enabled, yet neither an operator-supplied override nor a discovered
/// proxy URL is present.
pub open spec fn spec_proxy_gate_blocks(sv: ServiceView, client: ClientHandleView) -> bool {
    sv.sliding_sync_enabled && sv.custom_sliding_sync_proxy is None
        && client.sliding_sync_proxy is None
}

/// What completing a cycle with the fetched login flows decides, and the
/// store it leaves behind. A flow-fetch failure is reported as `Generic`
/// (the homeserver's identity is already confirmed at this point); a
/// tripped proxy gate fails the whole call with `SlidingSyncNotAvailable`;
/// either failure leaves the store exactly as it was. Otherwise the store
/// is replaced wholesale with the pair built from the confirmed client.
pub open spec fn spec_complete(
    sv: ServiceView,
    client: ClientHandleView,
    flows: Result<Seq<LoginFlow>, Seq<char>>,
) -> (ServiceView, Result<(), AuthErrorView>) {
    match flows {
        Err(cause) => (sv, Err(AuthErrorView::Generic(cause))),
        Ok(fl) => if spec_proxy_gate_blocks(sv, client) {
            (sv, Err(AuthErrorView::SlidingSyncNotAvailable))
        } else {
            (
                ServiceView {
                    configuration: Some(
                        ConfigurationView {
                            client,
                            details: spec_login_details(client, sv.oidc_enabled, fl),
                        },
                    ),
                    ..sv
                },
                Ok(()),
            )
        },
    }
}

/// A high-level service for authenticating a user with a homeserver.
///
/// Created once with its configuration fixed at construction; mutated only
/// by completing a configuration cycle. The optional capabilities that a
/// deployment may compile out are runtime flags here, fixed at
/// construction.
#[derive(Debug)]
pub struct AuthenticationService {
    /// The user agent sent when making requests to the homeserver.
    pub user_agent: Option<String>,
    configuration: Option<Configuration>,
    /// A sliding sync proxy URL that overrides any proxy discovered from
    /// the homeserver.
    pub custom_sliding_sync_proxy: Option<String>,
    sliding_sync_enabled: bool,
    oidc_enabled: bool,
}

impl View for AuthenticationService {
    type V = ServiceView;

    closed spec fn view(&self) -> ServiceView {
        ServiceView {
            user_agent: match self.user_agent {
                Some(ref u) => Some(u@),
                None => None,
            },
            configuration: match self.configuration {
                Some(ref c) => Some(c@),
                None => None,
            },
            custom_sliding_sync_proxy: match self.custom_sliding_sync_proxy {
                Some(ref p) => Some(p@),
                None => None,
            },
            sliding_sync_enabled: self.sliding_sync_enabled,
            oidc_enabled: self.oidc_enabled,
        }
    }
}

impl AuthenticationService {
    /// Creates a new service to authenticate a user with. The two flags
    /// select the optional capabilities: the sliding-sync proxy gate and
    /// OIDC detection.
    pub fn new(
        user_agent: Option<String>,
        custom_sliding_sync_proxy: Option<String>,
        sliding_sync_enabled: bool,
        oidc_enabled: bool,
    ) -> (s: Self)
        ensures
            s@ == (ServiceView {
                user_agent: opt_view(user_agent),
                configuration: None,
                custom_sliding_sync_proxy: opt_view(custom_sliding_sync_proxy),
                sliding_sync_enabled,
                oidc_enabled,
            }),
    {
        AuthenticationService {
            user_agent,
            configuration: None,
            custom_sliding_sync_proxy,
            sliding_sync_enabled,
            oidc_enabled,
        }
    }

    /// Returns the login details for the currently configured homeserver,
    /// or `None` if no configuration cycle has succeeded yet.
    pub fn homeserver_details(&self) -> (r: Option<HomeserverLoginDetails>)
        ensures
            opt_view(r) == match self@.configuration {
                Some(c) => Some(c.details),
                None => None,
            },
    {
        match &self.configuration {
            Some(c) => Some(c.details.clone()),
            None => None,
        }
    }

    /// Completes a configuration cycle: summarizes the confirmed client's
    /// capabilities from the fetched flow list, applies the proxy gate,
    /// and on success commits client and details as one unit. On any
    /// failure the service, its stored configuration included, is left
    /// exactly as it was.
    pub fn complete_with_login_flows(
        &mut self,
        flow: ConfigureFlow,
        flows: Result<Vec<LoginFlow>, String>,
    ) -> (r: Result<(), AuthenticationError>)
        requires
            flow is AwaitingFlows,
        ensures
            (final(self)@, res_view(r)) == spec_complete(
                old(self)@,
                flow@->AwaitingFlows_client,
                res_view(flows),
            ),
    {
        match flow {
            ConfigureFlow::AwaitingFlows { client } => match flows {
                Err(cause) => Err(AuthenticationError::Generic(cause)),
                Ok(fl) => {
                    let details = login_details_from_client(&client, self.oidc_enabled, &fl);
                    if self.sliding_sync_enabled && self.custom_sliding_sync_proxy.is_none()
                        && client.sliding_sync_proxy.is_none() {
                        Err(AuthenticationError::SlidingSyncNotAvailable)
                    } else {
                        self.configuration = Some(Configuration { client, details });
                        Ok(())
                    }
                },
            },
            _ => vstd::pervasive::unreached(),
        }
    }
}

/// Before any successful cycle the store is empty, and every failed
/// completion leaves it exactly as it was: a reader only ever observes the
/// initial empty state or the result of some fully completed, successful
/// cycle.
pub proof fn lemma_failure_leaves_store_untouched(
    sv: ServiceView,
    client: ClientHandleView,
    flows: Result<Seq<LoginFlow>, Seq<char>>,
)
    ensures
        ({
            let (after, r) = spec_complete(sv, client, flows);
            r is Err ==> after == sv
        }),
{
}

/// When the proxy-gate capability is enabled and neither an override nor a
/// discovered proxy exists, completing the cycle fails with
/// `SlidingSyncNotAvailable` and leaves any prior configuration untouched.
pub proof fn lemma_proxy_gate_blocks_commit(
    sv: ServiceView,
    client: ClientHandleView,
    fl: Seq<LoginFlow>,
)
    requires
        sv.sliding_sync_enabled,
        sv.custom_sliding_sync_proxy is None,
        client.sliding_sync_proxy is None,
    ensures
        spec_complete(sv, client, Ok(fl)) == (sv, Err::<(), AuthErrorView>(
            AuthErrorView::SlidingSyncNotAvailable,
        )),
{
}

/// A successful completion stores the details of the confirmed homeserver:
/// the committed pair's URL is the client's own canonical homeserver URL,
/// not the string the user originally supplied.
pub proof fn lemma_success_stores_confirmed_details(
    sv: ServiceView,
    client: ClientHandleView,
    fl: Seq<LoginFlow>,
)
    requires
        !spec_proxy_gate_blocks(sv, client),
    ensures
        ({
            let (after, r) = spec_complete(sv, client, Ok(fl));
            r is Ok && (after.configuration matches Some(c) && c.client == client
                && c.details.url == client.homeserver_url)
        }),
{
}

/// End to end, the server-name path: an input whose server name resolves
/// to a confirmed client completes a whole configuration cycle — classify,
/// discover, fetch flows, commit — and the committed details describe that
/// client's homeserver URL, not the supplied string.
pub proof fn lemma_server_name_cycle_configures(
    sv: ServiceView,
    input: Seq<char>,
    client: ClientHandleView,
    fl: Seq<LoginFlow>,
)
    requires
        spec_server_name_ok(input),
        !spec_proxy_gate_blocks(sv, client),
    ensures
        spec_begin(input) matches StepView::Continue { flow, .. }
            && (flow matches FlowView::AwaitingDiscovery { url_candidate }
            && spec_on_discovery(url_candidate, Ok(client)) == (StepView::Continue {
            flow: FlowView::AwaitingFlows { client },
            action: ActionView::FetchLoginFlows,
        })),
        ({
            let (after, r) = spec_complete(sv, client, Ok(fl));
            r is Ok && after.configuration == Some(
                ConfigurationView { client, details: spec_login_details(client, sv.oidc_enabled, fl) },
            )
        }),
{
}

/// End to end, the URL-fallback path: an input whose server-name discovery
/// fails but whose literal string parses as a URL at which a homeserver
/// answers the probe still completes a whole configuration cycle.
pub proof fn lemma_url_fallback_cycle_configures(
    sv: ServiceView,
    input: Seq<char>,
    failure: BuildFailureView,
    client: ClientHandleView,
    fl: Seq<LoginFlow>,
)
    requires
        spec_server_name_ok(input),
        spec_url_ok(input),
        !spec_proxy_gate_blocks(sv, client),
    ensures
        spec_on_discovery(url_parse(input), Err(failure)) == (StepView::Continue {
            flow: FlowView::AwaitingProbe { pending_error: spec_map_build_failure(failure) },
            action: ActionView::ProbeUrl { url: url_parse(input).unwrap() },
        }),
        spec_on_probe(spec_map_build_failure(failure), Some(client)) == (StepView::Continue {
            flow: FlowView::AwaitingFlows { client },
            action: ActionView::FetchLoginFlows,
        }),
        spec_complete(sv, client, Ok(fl)).1 is Ok,
{
}

/// Commits are all-or-nothing and wholesale: completing a cycle either
/// leaves the store as it was or replaces it entirely with the pair built
/// from the newly confirmed client, never merging old and new data; and
/// the store stays internally consistent. Two configuration cycles racing
/// on one service therefore leave exactly one of their two complete pairs,
/// whichever committed last — never a mixture.
pub proof fn lemma_commit_wholesale_and_consistent(
    sv: ServiceView,
    client: ClientHandleView,
    flows: Result<Seq<LoginFlow>, Seq<char>>,
)
    requires
        spec_store_consistent(sv),
    ensures
        ({
            let (after, r) = spec_complete(sv, client, flows);
            spec_store_consistent(after) && (after.configuration == sv.configuration
                || after.configuration == Some(
                ConfigurationView {
                    client,
                    details: spec_login_details(client, sv.oidc_enabled, flows->Ok_0),
                },
            ))
        }),
{
}

} // verus!
