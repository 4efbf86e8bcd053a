use canister_logs::config::Config;
use canister_logs::session::{
    classify_endpoint, Action, Event, GatewayKind, Pipeline, PipelineError, Stage,
};
use canister_logs::types::{ActorId, CallSender, CallSenderFromWalletError};

fn run(url: &str, events: &[Event]) -> Vec<Action> {
    let (mut p, first) = Pipeline::start(url);
    let mut out = vec![first];
    for e in events {
        let (q, a) = p.step(*e);
        p = q;
        out.push(a);
    }
    out
}

#[test]
fn production_urls_are_recognised() {
    assert_eq!(classify_endpoint("https://icp0.io"), GatewayKind::KnownProductionGateway);
    assert_eq!(classify_endpoint("https://icp0.io/"), GatewayKind::KnownProductionGateway);
    assert_eq!(classify_endpoint("https://icp0.io//"), GatewayKind::UntrustedEndpoint);
    assert_eq!(classify_endpoint("http://icp0.io"), GatewayKind::UntrustedEndpoint);
    assert_eq!(classify_endpoint("http://127.0.0.1:4943"), GatewayKind::UntrustedEndpoint);
    assert_eq!(classify_endpoint(""), GatewayKind::UntrustedEndpoint);
}

#[test]
fn production_run_skips_root_key() {
    let acts = run(
        "https://icp0.io",
        &[Event::IdentityLoaded, Event::SessionBuilt, Event::LogsReceived],
    );
    assert_eq!(
        acts,
        vec![Action::LoadIdentity, Action::BuildSession, Action::QueryLogs, Action::Normalize]
    );
}

#[test]
fn local_run_fetches_root_key_first() {
    let acts = run(
        "http://127.0.0.1:4943",
        &[Event::IdentityLoaded, Event::SessionBuilt, Event::TrustRootFetched, Event::LogsReceived],
    );
    assert_eq!(
        acts,
        vec![
            Action::LoadIdentity,
            Action::BuildSession,
            Action::FetchTrustRoot,
            Action::QueryLogs,
            Action::Normalize,
        ]
    );
}

#[test]
fn missing_key_file_stops_before_network() {
    let acts = run(
        "http://127.0.0.1:4943",
        &[Event::IdentityRejected, Event::SessionBuilt, Event::LogsReceived],
    );
    assert_eq!(
        acts,
        vec![
            Action::LoadIdentity,
            Action::Stop(PipelineError::KeyLoadError),
            Action::Idle,
            Action::Idle,
        ]
    );
}

#[test]
fn each_failure_has_its_error() {
    let (p, _) = Pipeline::start("http://localhost:8080");
    let (p, _) = p.step(Event::IdentityLoaded);
    assert_eq!(p.step(Event::SessionRejected).1, Action::Stop(PipelineError::TransportInitError));
    let (p, _) = p.step(Event::SessionBuilt);
    assert_eq!(p.stage, Stage::FetchingTrustRoot);
    assert_eq!(
        p.step(Event::TrustRootUnavailable).1,
        Action::Stop(PipelineError::TrustRootFetchError)
    );
    let (p, _) = p.step(Event::TrustRootFetched);
    let (failed, a) = p.step(Event::CallRejected);
    assert_eq!(a, Action::Stop(PipelineError::CallError));
    assert_eq!(failed.stage, Stage::Failed(PipelineError::CallError));
}

#[test]
fn config_starts_at_identity() {
    let config = Config {
        url: "https://icp0.io/".to_string(),
        canister: ActorId { bytes: vec![0, 0, 0, 0, 0, 0, 0, 1, 1, 1] },
        keyfile_path: "missing.pem".to_string(),
    };
    let (p, a) = config.start_session();
    assert_eq!(a, Action::LoadIdentity);
    assert_eq!(p.gateway, GatewayKind::KnownProductionGateway);
    assert_eq!(p.stage, Stage::LoadingIdentity);
}

#[test]
fn no_wallet_means_selected_identity() {
    assert_eq!(CallSender::from(&None).unwrap(), CallSender::SelectedId);
}

#[test]
fn wallet_principal_is_parsed() {
    let sender = CallSender::from(&Some("aaaaa-aa".to_string())).unwrap();
    assert_eq!(sender, CallSender::Wallet(ActorId { bytes: vec![] }));
    let sender = CallSender::from(&Some("rrkah-fqaaa-aaaaa-aaaaq-cai".to_string())).unwrap();
    assert_eq!(sender, CallSender::Wallet(ActorId { bytes: vec![0, 0, 0, 0, 0, 0, 0, 1, 1, 1] }));
}

#[test]
fn bad_wallet_principal_is_an_error() {
    match CallSender::from(&Some("not a principal".to_string())) {
        Err(CallSenderFromWalletError::ParsePrincipalFromIdFailed(text, _)) => {
            assert_eq!(text, "not a principal")
        }
        Ok(_) => panic!("accepted an invalid principal"),
    }
}
