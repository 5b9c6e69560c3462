//! The discovery strategy runner: strategy order and error priority.

use matrix_auth::discovery::{
    begin_configure, on_discovery_result, on_probe_result, ConfigureFlow, DiscoveryAction,
    FlowStep,
};
use matrix_auth::errors::{map_build_failure, AuthenticationError, ClientBuildFailure};
use matrix_auth::login::ClientHandle;

fn example_client(url: &str) -> ClientHandle {
    ClientHandle {
        homeserver_url: url.to_string(),
        sliding_sync_proxy: None,
        has_oidc_info: false,
    }
}

#[test]
fn invalid_input_fails_without_any_discovery() {
    match begin_configure("not a server name") {
        FlowStep::Fail { error } => {
            assert!(matches!(error, AuthenticationError::InvalidServerName(_)));
            assert_eq!(
                error.message(),
                "Failed to construct a server name or homeserver URL: \
                 server name is not a valid IP address or domain name"
            );
        }
        FlowStep::Continue { .. } => panic!("expected an immediate failure"),
    }
}

#[test]
fn server_name_input_attempts_discovery_first() {
    match begin_configure("http://localhost:8008") {
        FlowStep::Continue { flow, action } => {
            assert!(matches!(flow, ConfigureFlow::AwaitingDiscovery { .. }));
            match action {
                DiscoveryAction::DiscoverServerName {
                    server_name,
                    insecure,
                } => {
                    assert_eq!(server_name, "localhost:8008");
                    assert!(insecure);
                }
                _ => panic!("expected server-name discovery"),
            }
        }
        FlowStep::Fail { .. } => panic!("expected the cycle to continue"),
    }
}

#[test]
fn discovery_success_skips_url_strategy() {
    let step = begin_configure("https://matrix.org");
    let flow = match step {
        FlowStep::Continue { flow, .. } => flow,
        FlowStep::Fail { .. } => panic!("expected discovery"),
    };
    // Even though the input also reads as a URL, a discovery success is
    // final: the next action is the login-flow fetch.
    match on_discovery_result(flow, Ok(example_client("https://synapse.example.net/"))) {
        FlowStep::Continue { flow, action } => {
            assert!(matches!(action, DiscoveryAction::FetchLoginFlows));
            match flow {
                ConfigureFlow::AwaitingFlows { client } => {
                    assert_eq!(client.homeserver_url, "https://synapse.example.net/");
                }
                _ => panic!("expected a confirmed client"),
            }
        }
        FlowStep::Fail { .. } => panic!("expected a confirmed client"),
    }
}

#[test]
fn url_strategy_succeeds_after_discovery_failure() {
    let step = begin_configure("https://matrix.org");
    let flow = match step {
        FlowStep::Continue { flow, .. } => flow,
        FlowStep::Fail { .. } => panic!("expected discovery"),
    };
    let step = on_discovery_result(flow, Err(ClientBuildFailure::Transport));
    let flow = match step {
        FlowStep::Continue { flow, action } => {
            match action {
                DiscoveryAction::ProbeUrl { url } => assert_eq!(url, "https://matrix.org/"),
                _ => panic!("expected the URL probe"),
            }
            flow
        }
        FlowStep::Fail { .. } => panic!("expected the URL fallback"),
    };
    match on_probe_result(flow, Some(example_client("https://matrix.org/"))) {
        FlowStep::Continue { flow, action } => {
            assert!(matches!(action, DiscoveryAction::FetchLoginFlows));
            assert!(matches!(flow, ConfigureFlow::AwaitingFlows { .. }));
        }
        FlowStep::Fail { .. } => panic!("expected the probe to confirm the client"),
    }
}

#[test]
fn probe_failure_reports_the_discovery_error() {
    // A malformed well-known file, then a failed URL fallback: the
    // well-known error propagates, not a URL-strategy error.
    let step = begin_configure("https://matrix.org");
    let flow = match step {
        FlowStep::Continue { flow, .. } => flow,
        FlowStep::Fail { .. } => panic!("expected discovery"),
    };
    let step = on_discovery_result(
        flow,
        Err(ClientBuildFailure::WellKnownDeserialization(
            "missing field `m.homeserver`".to_string(),
        )),
    );
    let flow = match step {
        FlowStep::Continue { flow, .. } => flow,
        FlowStep::Fail { .. } => panic!("expected the URL fallback"),
    };
    match on_probe_result(flow, None) {
        FlowStep::Fail { error } => match error {
            AuthenticationError::InvalidWellKnownFile(cause) => {
                assert_eq!(cause, "missing field `m.homeserver`");
            }
            _ => panic!("the well-known error must survive the failed probe"),
        },
        FlowStep::Continue { .. } => panic!("expected a failure"),
    }
}

#[test]
fn well_known_failure_without_fallback_is_reported_directly() {
    let step = begin_configure("matrix.org");
    let flow = match step {
        FlowStep::Continue { flow, .. } => flow,
        FlowStep::Fail { .. } => panic!("expected discovery"),
    };
    match on_discovery_result(
        flow,
        Err(ClientBuildFailure::WellKnownDeserialization(
            "unexpected end of file".to_string(),
        )),
    ) {
        FlowStep::Fail { error } => {
            assert!(matches!(error, AuthenticationError::InvalidWellKnownFile(_)));
            assert_eq!(
                error.message(),
                "Failed to parse the well-known file: unexpected end of file"
            );
        }
        FlowStep::Continue { .. } => panic!("no URL fallback exists for this input"),
    }
}

#[test]
fn url_only_input_keeps_the_identifier_error() {
    // The input reads only as a URL, so the probe runs with the
    // identifier-format error pending; a failed probe reports that error,
    // not anything URL-derived.
    let step = begin_configure("HTTPS://MATRIX.ORG");
    let flow = match step {
        FlowStep::Continue { flow, action } => {
            assert!(matches!(action, DiscoveryAction::ProbeUrl { .. }));
            flow
        }
        FlowStep::Fail { .. } => panic!("expected the URL probe"),
    };
    match on_probe_result(flow, None) {
        FlowStep::Fail { error } => {
            assert!(matches!(error, AuthenticationError::InvalidServerName(_)));
        }
        FlowStep::Continue { .. } => panic!("expected a failure"),
    }
}

#[test]
fn build_failures_map_onto_the_taxonomy() {
    assert!(matches!(
        map_build_failure(ClientBuildFailure::Transport),
        AuthenticationError::ServerNotFound
    ));
    assert!(matches!(
        map_build_failure(ClientBuildFailure::AutoDiscovery),
        AuthenticationError::HomeserverNotFound
    ));
    match map_build_failure(ClientBuildFailure::Other("boom".to_string())) {
        AuthenticationError::Generic(cause) => assert_eq!(cause, "boom"),
        _ => panic!("an unclassified failure maps to Generic"),
    }
}

#[test]
fn taxonomy_messages() {
    assert_eq!(
        AuthenticationError::ClientMissing.message(),
        "A successful call to configure_homeserver must be made first."
    );
    assert_eq!(
        AuthenticationError::ServerNotFound.message(),
        "Failed to discover a server"
    );
    assert_eq!(
        AuthenticationError::HomeserverNotFound.message(),
        "Failed to discover a homeserver"
    );
    assert_eq!(
        AuthenticationError::InvalidBasePath.message(),
        "Failed to use the supplied base path."
    );
    assert_eq!(
        AuthenticationError::Generic("boom".to_string()).message(),
        "An error occurred: boom"
    );
}
