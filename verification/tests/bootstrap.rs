use smart_outlet::bootstrap::{
    Bootstrap, BootstrapAction, BootstrapError, BootstrapEvent, NetworkState, PROBE_COUNT,
};
use smart_outlet::network::{
    AccessPoint, ClientStatus, CombinedStatus, LocalApStatus, ReachabilityReport,
};

const GATEWAY: u32 = 0xC0A8_4701;

fn fresh() -> Bootstrap {
    Bootstrap::new("ssid".to_string(), "password".to_string())
}

fn both_up() -> CombinedStatus {
    CombinedStatus { client: ClientStatus::Ready { gateway: GATEWAY }, local_ap: LocalApStatus::Ready }
}

fn probes(transmitted: u32, received: u32) -> BootstrapEvent {
    BootstrapEvent::ProbeCompleted(ReachabilityReport { transmitted, received })
}

fn at_scanning() -> Bootstrap {
    fresh().step(BootstrapEvent::Begin).0
}

fn at_configuring(aps: Vec<AccessPoint>) -> Bootstrap {
    at_scanning().step(BootstrapEvent::ScanCompleted(aps)).0
}

fn at_connecting() -> Bootstrap {
    at_configuring(vec![]).step(BootstrapEvent::ConfigApplied).0
}

fn at_verifying() -> Bootstrap {
    at_connecting().step(BootstrapEvent::StatusReported(both_up())).0
}

#[test]
fn fresh_bootstrap_is_idle() {
    let bootstrap = fresh();
    assert_eq!(bootstrap.state(), NetworkState::Idle);
    assert_eq!(bootstrap.outcome(), None);
}

#[test]
fn begin_asks_for_a_scan() {
    let (bootstrap, action) = fresh().step(BootstrapEvent::Begin);
    assert_eq!(action, BootstrapAction::Scan);
    assert_eq!(bootstrap.state(), NetworkState::Scanning);
    assert_eq!(bootstrap.outcome(), None);
}

#[test]
fn probe_batch_has_four_probes() {
    assert_eq!(PROBE_COUNT, 4);
}

#[test]
fn present_target_is_joined_on_its_channel() {
    let aps = vec![AccessPoint { ssid: "ssid".to_string(), channel: 6 }];
    let (bootstrap, action) = at_scanning().step(BootstrapEvent::ScanCompleted(aps));
    assert_eq!(bootstrap.state(), NetworkState::Configuring);
    match action {
        BootstrapAction::ApplyConfig(config) => {
            assert_eq!(config.client.ssid, "ssid");
            assert_eq!(config.client.credential, "password");
            assert_eq!(config.client.channel, Some(6));
            assert_eq!(config.local_ap.ssid, "aptest");
            assert_eq!(config.local_ap.channel, 6);
        }
        other => panic!("unexpected action {:?}", other),
    }
}

#[test]
fn absent_target_is_no_failure() {
    let (bootstrap, action) = at_scanning().step(BootstrapEvent::ScanCompleted(vec![]));
    assert_eq!(bootstrap.state(), NetworkState::Configuring);
    assert_eq!(bootstrap.outcome(), None);
    match action {
        BootstrapAction::ApplyConfig(config) => {
            assert_eq!(config.client.channel, None);
            assert_eq!(config.local_ap.channel, 1);
        }
        other => panic!("unexpected action {:?}", other),
    }
}

#[test]
fn scenario_target_found_and_reachable() {
    let bootstrap = fresh();
    let (bootstrap, action) = bootstrap.step(BootstrapEvent::Begin);
    assert_eq!(action, BootstrapAction::Scan);
    let scan = vec![AccessPoint { ssid: "ssid".to_string(), channel: 6 }];
    let (bootstrap, action) = bootstrap.step(BootstrapEvent::ScanCompleted(scan));
    let applied = match action {
        BootstrapAction::ApplyConfig(config) => config,
        other => panic!("unexpected action {:?}", other),
    };
    assert_eq!(applied.client.channel, Some(6));
    assert_eq!(applied.local_ap.channel, 6);
    let (bootstrap, action) = bootstrap.step(BootstrapEvent::ConfigApplied);
    assert_eq!(action, BootstrapAction::Connect);
    assert_eq!(bootstrap.state(), NetworkState::Connecting);
    let (bootstrap, action) = bootstrap.step(BootstrapEvent::StatusReported(both_up()));
    assert_eq!(action, BootstrapAction::Probe { target: GATEWAY, count: 4 });
    assert_eq!(bootstrap.state(), NetworkState::Verifying);
    assert_eq!(bootstrap.outcome(), None);
    let (bootstrap, action) = bootstrap.step(probes(4, 4));
    assert_eq!(action, BootstrapAction::Done);
    assert_eq!(bootstrap.state(), NetworkState::Connected);
    let link = match bootstrap.outcome() {
        Some(Ok(link)) => link,
        other => panic!("unexpected outcome {:?}", other),
    };
    assert_eq!(link.gateway(), GATEWAY);
    assert_eq!(link.config(), &applied);
    assert_eq!(link.clone(), link);
}

#[test]
fn scenario_target_absent_and_probes_lost() {
    let bootstrap = fresh();
    let (bootstrap, _) = bootstrap.step(BootstrapEvent::Begin);
    let (bootstrap, action) = bootstrap.step(BootstrapEvent::ScanCompleted(vec![]));
    match action {
        BootstrapAction::ApplyConfig(config) => {
            assert_eq!(config.client.channel, None);
            assert_eq!(config.local_ap.channel, 1);
        }
        other => panic!("unexpected action {:?}", other),
    }
    let (bootstrap, _) = bootstrap.step(BootstrapEvent::ConfigApplied);
    let (bootstrap, action) = bootstrap.step(BootstrapEvent::StatusReported(both_up()));
    assert_eq!(action, BootstrapAction::Probe { target: GATEWAY, count: 4 });
    let (bootstrap, action) = bootstrap.step(probes(4, 2));
    assert_eq!(action, BootstrapAction::Abort(BootstrapError::Unreachable));
    assert_eq!(bootstrap.state(), NetworkState::Failed);
    assert_eq!(bootstrap.outcome(), Some(Err(BootstrapError::Unreachable)));
}

#[test]
fn one_lost_probe_is_unreachable() {
    let (bootstrap, action) = at_verifying().step(probes(4, 3));
    assert_eq!(action, BootstrapAction::Abort(BootstrapError::Unreachable));
    assert_eq!(bootstrap.outcome(), Some(Err(BootstrapError::Unreachable)));
}

#[test]
fn reachability_gate_is_exact() {
    for transmitted in 0..6u32 {
        for received in 0..6u32 {
            let (bootstrap, _) = at_verifying().step(probes(transmitted, received));
            let succeeded = matches!(bootstrap.outcome(), Some(Ok(_)));
            assert_eq!(succeeded, transmitted == received);
            if transmitted != received {
                assert_eq!(bootstrap.outcome(), Some(Err(BootstrapError::Unreachable)));
            }
        }
    }
}

#[test]
fn probe_that_could_not_be_sent_is_unreachable() {
    let (bootstrap, action) = at_verifying().step(BootstrapEvent::ProbeFailed);
    assert_eq!(action, BootstrapAction::Abort(BootstrapError::Unreachable));
    assert_eq!(bootstrap.outcome(), Some(Err(BootstrapError::Unreachable)));
}

#[test]
fn failed_scan_is_scan_incomplete() {
    let (bootstrap, action) = at_scanning().step(BootstrapEvent::ScanFailed);
    assert_eq!(action, BootstrapAction::Abort(BootstrapError::ScanIncomplete));
    assert_eq!(bootstrap.state(), NetworkState::Failed);
    assert_eq!(bootstrap.outcome(), Some(Err(BootstrapError::ScanIncomplete)));
}

#[test]
fn refused_configuration_is_config_rejected() {
    let (bootstrap, action) = at_configuring(vec![]).step(BootstrapEvent::ConfigRejected);
    assert_eq!(action, BootstrapAction::Abort(BootstrapError::ConfigRejected));
    assert_eq!(bootstrap.outcome(), Some(Err(BootstrapError::ConfigRejected)));
}

#[test]
fn failed_connect_is_connect_failed() {
    let (bootstrap, action) = at_connecting().step(BootstrapEvent::ConnectFailed);
    assert_eq!(action, BootstrapAction::Abort(BootstrapError::ConnectFailed));
    assert_eq!(bootstrap.outcome(), Some(Err(BootstrapError::ConnectFailed)));
}

#[test]
fn status_short_of_fully_up_is_unexpected() {
    let cases = [
        CombinedStatus { client: ClientStatus::Connecting, local_ap: LocalApStatus::Ready },
        CombinedStatus { client: ClientStatus::AddressPending, local_ap: LocalApStatus::Ready },
        CombinedStatus {
            client: ClientStatus::Ready { gateway: GATEWAY },
            local_ap: LocalApStatus::Starting,
        },
        CombinedStatus { client: ClientStatus::Stopped, local_ap: LocalApStatus::Stopped },
    ];
    for status in cases {
        let (bootstrap, action) = at_connecting().step(BootstrapEvent::StatusReported(status));
        assert_eq!(action, BootstrapAction::Abort(BootstrapError::UnexpectedStatus));
        assert_eq!(bootstrap.outcome(), Some(Err(BootstrapError::UnexpectedStatus)));
    }
}

#[test]
fn event_that_answers_nothing_is_ignored() {
    let (bootstrap, action) = fresh().step(probes(4, 4));
    assert_eq!(action, BootstrapAction::Ignore);
    assert_eq!(bootstrap.state(), NetworkState::Idle);
    let (bootstrap, action) = at_scanning().step(BootstrapEvent::ConfigApplied);
    assert_eq!(action, BootstrapAction::Ignore);
    assert_eq!(bootstrap.state(), NetworkState::Scanning);
    let (bootstrap, action) = at_configuring(vec![]).step(BootstrapEvent::StatusReported(both_up()));
    assert_eq!(action, BootstrapAction::Ignore);
    assert_eq!(bootstrap.state(), NetworkState::Configuring);
    let (bootstrap, action) = at_connecting().step(probes(4, 4));
    assert_eq!(action, BootstrapAction::Ignore);
    assert_eq!(bootstrap.state(), NetworkState::Connecting);
    let (bootstrap, action) = at_verifying().step(BootstrapEvent::Begin);
    assert_eq!(action, BootstrapAction::Ignore);
    assert_eq!(bootstrap.state(), NetworkState::Verifying);
}

#[test]
fn link_cannot_be_talked_up_without_the_steps() {
    let (bootstrap, _) = fresh().step(BootstrapEvent::StatusReported(both_up()));
    let (bootstrap, _) = bootstrap.step(probes(4, 4));
    assert_eq!(bootstrap.state(), NetworkState::Idle);
    assert_eq!(bootstrap.outcome(), None);
}

#[test]
fn failure_is_final() {
    let (bootstrap, _) = at_verifying().step(probes(4, 2));
    let (bootstrap, action) = bootstrap.step(probes(4, 4));
    assert_eq!(action, BootstrapAction::Ignore);
    let (bootstrap, action) = bootstrap.step(BootstrapEvent::Begin);
    assert_eq!(action, BootstrapAction::Ignore);
    assert_eq!(bootstrap.state(), NetworkState::Failed);
    assert_eq!(bootstrap.outcome(), Some(Err(BootstrapError::Unreachable)));
}

#[test]
fn success_is_final() {
    let (bootstrap, _) = at_verifying().step(probes(4, 4));
    let (bootstrap, action) = bootstrap.step(probes(4, 0));
    assert_eq!(action, BootstrapAction::Ignore);
    let (bootstrap, action) = bootstrap.step(BootstrapEvent::ScanFailed);
    assert_eq!(action, BootstrapAction::Ignore);
    assert_eq!(bootstrap.state(), NetworkState::Connected);
    assert!(matches!(bootstrap.outcome(), Some(Ok(_))));
}
