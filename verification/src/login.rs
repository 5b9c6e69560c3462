//! Capability probing.
//!
//! Once a candidate homeserver is confirmed, its advertised login flows and
//! locally inspected client state are summarized into
//! [`HomeserverLoginDetails`].

use vstd::prelude::*;

verus! {

/// A server-advertised login flow, reduced to what capability detection
/// reads: whether the flow is the password variant.
#[derive(Clone, Copy, Debug, PartialEq, Eq, Structural)]
pub enum LoginFlow {
    /// The password login flow.
    Password,
    /// The single-sign-on login flow.
    Sso,
    /// The token login flow.
    Token,
    /// Any other advertised flow.
    Other,
}

/// Spec-level shape of a [`ClientHandle`].
pub struct ClientHandleView {
    pub homeserver_url: Seq<char>,
    pub sliding_sync_proxy: Option<Seq<char>>,
    pub has_oidc_info: bool,
}

/// What the discovery logic reads from a transport-level client, as plain
/// values: the canonical homeserver URL confirmed by discovery, the proxy
/// URL learned from the well-known file (if any), and whether the client
/// reports OIDC authentication-server metadata.
#[derive(Debug)]
pub struct ClientHandle {
    /// The canonical URL of the confirmed homeserver.
    pub homeserver_url: String,
    /// The sliding-sync proxy URL discovered from the well-known file.
    pub sliding_sync_proxy: Option<String>,
    /// The client reports OIDC authentication-server metadata.
    pub has_oidc_info: bool,
}

impl View for ClientHandle {
    type V = ClientHandleView;

    open spec fn view(&self) -> ClientHandleView {
        ClientHandleView {
            homeserver_url: self.homeserver_url@,
            sliding_sync_proxy: match self.sliding_sync_proxy {
                Some(ref p) => Some(p@),
                None => None,
            },
            has_oidc_info: self.has_oidc_info,
        }
    }
}

impl Clone for ClientHandle {
    fn clone(&self) -> (r: Self)
        ensures
            r@ == self@,
    {
        ClientHandle {
            homeserver_url: self.homeserver_url.clone(),
            sliding_sync_proxy: match &self.sliding_sync_proxy {
                Some(p) => Some(p.clone()),
                None => None,
            },
            has_oidc_info: self.has_oidc_info,
        }
    }
}

/// Spec-level shape of [`HomeserverLoginDetails`].
pub struct LoginDetailsView {
    pub url: Seq<char>,
    pub supports_oidc_login: bool,
    pub supports_password_login: bool,
}

/// Details about a homeserver's login capabilities. Immutable; built in
/// full on every successful discovery cycle before being exposed.
#[derive(Debug)]
pub struct HomeserverLoginDetails {
    /// The URL of the homeserver.
    pub url: String,
    /// Whether the homeserver supports login using OIDC.
    pub supports_oidc_login: bool,
    /// Whether the homeserver supports the password login flow.
    pub supports_password_login: bool,
}

impl View for HomeserverLoginDetails {
    type V = LoginDetailsView;

    open spec fn view(&self) -> LoginDetailsView {
        LoginDetailsView {
            url: self.url@,
            supports_oidc_login: self.supports_oidc_login,
            supports_password_login: self.supports_password_login,
        }
    }
}

impl Clone for HomeserverLoginDetails {
    fn clone(&self) -> (r: Self)
        ensures
            r@ == self@,
    {
        HomeserverLoginDetails {
            url: self.url.clone(),
            supports_oidc_login: self.supports_oidc_login,
            supports_password_login: self.supports_password_login,
        }
    }
}

/// At least one advertised flow is the password variant.
pub open spec fn spec_supports_password(flows: Seq<LoginFlow>) -> bool {
    exists|i: int| 0 <= i < flows.len() && flows[i] is Password
}

/// Password support is true iff at least one returned flow is tagged as the
/// password flow variant.
pub fn supports_password_login(flows: &Vec<LoginFlow>) -> (r: bool)
    ensures
        r == spec_supports_password(flows@),
{
    let mut i: usize = 0;
    while i < flows.len()
        invariant
            i <= flows@.len(),
            forall|j: int| 0 <= j < i ==> !(flows@[j] is Password),
        decreases flows@.len() - i,
    {
        if matches!(flows[i], LoginFlow::Password) {
            return true;
        }
        i += 1;
    }
    false
}

/// The login details that a confirmed client and its advertised flows
/// summarize to: the client's own canonical URL, password support read off
/// the flow list, and OIDC support read off local client state when the
/// capability is enabled.
pub open spec fn spec_login_details(
    client: ClientHandleView,
    oidc_enabled: bool,
    flows: Seq<LoginFlow>,
) -> LoginDetailsView {
    LoginDetailsView {
        url: client.homeserver_url,
        supports_oidc_login: oidc_enabled && client.has_oidc_info,
        supports_password_login: spec_supports_password(flows),
    }
}

/// Summarizes a confirmed client's login capabilities. This is a local
/// inspection of already-fetched state: the flow list is handed in by the
/// caller.
pub fn login_details_from_client(
    client: &ClientHandle,
    oidc_enabled: bool,
    flows: &Vec<LoginFlow>,
) -> (d: HomeserverLoginDetails)
    ensures
        d@ == spec_login_details(client@, oidc_enabled, flows@),
{
    HomeserverLoginDetails {
        url: client.homeserver_url.clone(),
        supports_oidc_login: oidc_enabled && client.has_oidc_info,
        supports_password_login: supports_password_login(flows),
    }
}

} // verus!
