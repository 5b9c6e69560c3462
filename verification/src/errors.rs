//! The error taxonomy.
//!
//! Every network or parse failure is translated into exactly one of these
//! values before it crosses a component boundary; no raw transport error
//! escapes the discovery runner.

use vstd::prelude::*;
use vstd::string::StringExecFns;

verus! {

/// Spec-level shape of an [`AuthenticationError`]: each message-carrying
/// variant reduced to the view of its message.
pub enum AuthErrorView {
    ClientMissing,
    InvalidServerName(Seq<char>),
    ServerNotFound,
    HomeserverNotFound,
    InvalidWellKnownFile(Seq<char>),
    SlidingSyncNotAvailable,
    InvalidBasePath,
    Generic(Seq<char>),
}

/// Errors related to authentication through the service.
#[derive(Debug)]
pub enum AuthenticationError {
    /// Developer error: the call requires a prior successful homeserver
    /// configuration.
    ClientMissing,
    /// The supplied string couldn't be parsed as either a server name or a
    /// homeserver URL; carries the parse cause.
    InvalidServerName(String),
    /// There is no server responding at the supplied URL.
    ServerNotFound,
    /// There is a server at the supplied URL, but it is neither a
    /// homeserver nor is it hosting a well-known file for one.
    HomeserverNotFound,
    /// The discovered well-known file is invalid; carries the
    /// deserialization cause.
    InvalidWellKnownFile(String),
    /// Sliding sync is required, but isn't configured in the homeserver's
    /// well-known file and no override was supplied.
    SlidingSyncNotAvailable,
    /// An error occurred whilst trying to use the supplied base path.
    InvalidBasePath,
    /// An unknown error occurred; carries a display-formatted description.
    Generic(String),
}

impl View for AuthenticationError {
    type V = AuthErrorView;

    open spec fn view(&self) -> AuthErrorView {
        match self {
            AuthenticationError::ClientMissing => AuthErrorView::ClientMissing,
            AuthenticationError::InvalidServerName(m) => AuthErrorView::InvalidServerName(m@),
            AuthenticationError::ServerNotFound => AuthErrorView::ServerNotFound,
            AuthenticationError::HomeserverNotFound => AuthErrorView::HomeserverNotFound,
            AuthenticationError::InvalidWellKnownFile(m) => AuthErrorView::InvalidWellKnownFile(
                m@,
            ),
            AuthenticationError::SlidingSyncNotAvailable => AuthErrorView::SlidingSyncNotAvailable,
            AuthenticationError::InvalidBasePath => AuthErrorView::InvalidBasePath,
            AuthenticationError::Generic(m) => AuthErrorView::Generic(m@),
        }
    }
}

/// The message that [`AuthenticationError::message`] renders for an error.
pub open spec fn spec_message(e: AuthErrorView) -> Seq<char> {
    match e {
        AuthErrorView::ClientMissing => "A successful call to configure_homeserver must be made first."@,
        AuthErrorView::InvalidServerName(c) => "Failed to construct a server name or homeserver URL: "@
            + c,
        AuthErrorView::ServerNotFound => "Failed to discover a server"@,
        AuthErrorView::HomeserverNotFound => "Failed to discover a homeserver"@,
        AuthErrorView::InvalidWellKnownFile(c) => "Failed to parse the well-known file: "@ + c,
        AuthErrorView::SlidingSyncNotAvailable => "The homeserver doesn't provide a trusted sliding sync proxy in its well-known configuration."@,
        AuthErrorView::InvalidBasePath => "Failed to use the supplied base path."@,
        AuthErrorView::Generic(c) => "An error occurred: "@ + c,
    }
}

impl AuthenticationError {
    /// A human-readable description of the error, with the carried cause
    /// appended where one exists.
    pub fn message(&self) -> (m: String)
        ensures
            m@ == spec_message(self@),
    {
        match self {
            AuthenticationError::ClientMissing => "A successful call to configure_homeserver must be made first.".to_owned(),
            AuthenticationError::InvalidServerName(c) => "Failed to construct a server name or homeserver URL: ".to_owned().concat(
                c.as_str(),
            ),
            AuthenticationError::ServerNotFound => "Failed to discover a server".to_owned(),
            AuthenticationError::HomeserverNotFound => "Failed to discover a homeserver".to_owned(),
            AuthenticationError::InvalidWellKnownFile(c) => "Failed to parse the well-known file: ".to_owned().concat(
                c.as_str(),
            ),
            AuthenticationError::SlidingSyncNotAvailable => "The homeserver doesn't provide a trusted sliding sync proxy in its well-known configuration.".to_owned(),
            AuthenticationError::InvalidBasePath => "Failed to use the supplied base path.".to_owned(),
            AuthenticationError::Generic(c) => "An error occurred: ".to_owned().concat(c.as_str()),
        }
    }
}

/// Spec-level shape of a [`ClientBuildFailure`].
pub enum BuildFailureView {
    Transport,
    WellKnownDeserialization(Seq<char>),
    AutoDiscovery,
    Other(Seq<char>),
}

/// The shapes of transport-level failure that server-name discovery can
/// produce, as handed back by the embedding application's transport.
#[derive(Debug)]
pub enum ClientBuildFailure {
    /// Low-level connection failure: DNS failure, connection refused,
    /// timeout. No host responded.
    Transport,
    /// A well-known file was retrieved but failed to deserialize into the
    /// expected shape; carries the deserialization cause.
    WellKnownDeserialization(String),
    /// Any other discovery-protocol-level failure: no well-known file and
    /// no fallback homeserver confirmed.
    AutoDiscovery,
    /// Any other transport error, display-formatted.
    Other(String),
}

impl View for ClientBuildFailure {
    type V = BuildFailureView;

    open spec fn view(&self) -> BuildFailureView {
        match self {
            ClientBuildFailure::Transport => BuildFailureView::Transport,
            ClientBuildFailure::WellKnownDeserialization(m) => BuildFailureView::WellKnownDeserialization(
                m@,
            ),
            ClientBuildFailure::AutoDiscovery => BuildFailureView::AutoDiscovery,
            ClientBuildFailure::Other(m) => BuildFailureView::Other(m@),
        }
    }
}

/// How server-name discovery failures map onto the taxonomy: connection
/// failures mean no server, a malformed well-known file keeps its cause,
/// any other discovery failure means no homeserver, and everything else is
/// reported opaquely.
pub open spec fn spec_map_build_failure(e: BuildFailureView) -> AuthErrorView {
    match e {
        BuildFailureView::Transport => AuthErrorView::ServerNotFound,
        BuildFailureView::WellKnownDeserialization(c) => AuthErrorView::InvalidWellKnownFile(c),
        BuildFailureView::AutoDiscovery => AuthErrorView::HomeserverNotFound,
        BuildFailureView::Other(c) => AuthErrorView::Generic(c),
    }
}

/// Translates a transport-level build failure into its taxonomy error.
pub fn map_build_failure(e: ClientBuildFailure) -> (r: AuthenticationError)
    ensures
        r@ == spec_map_build_failure(e@),
{
    match e {
        ClientBuildFailure::Transport => AuthenticationError::ServerNotFound,
        ClientBuildFailure::WellKnownDeserialization(c) => AuthenticationError::InvalidWellKnownFile(
            c,
        ),
        ClientBuildFailure::AutoDiscovery => AuthenticationError::HomeserverNotFound,
        ClientBuildFailure::Other(c) => AuthenticationError::Generic(c),
    }
}

} // verus!
