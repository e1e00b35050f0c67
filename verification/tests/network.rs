use smart_outlet::network::{
    find_channel, AccessPoint, ClientStatus, CombinedStatus, LocalApStatus, NetworkConfig,
    ReachabilityReport, DEFAULT_AP_CHANNEL,
};

fn seen(ssid: &str, channel: u8) -> AccessPoint {
    AccessPoint { ssid: ssid.to_string(), channel }
}

#[test]
fn channel_of_present_network_is_found() {
    let aps = vec![seen("other", 3), seen("ssid", 6), seen("more", 11)];
    assert_eq!(find_channel(&aps, &"ssid".to_string()), Some(6));
}

#[test]
fn absent_network_has_no_channel() {
    let aps = vec![seen("other", 3), seen("more", 11)];
    assert_eq!(find_channel(&aps, &"ssid".to_string()), None);
    assert_eq!(find_channel(&vec![], &"ssid".to_string()), None);
}

#[test]
fn first_entry_of_a_name_wins() {
    let aps = vec![seen("x", 2), seen("ssid", 9), seen("ssid", 6), seen("ssid", 1)];
    assert_eq!(find_channel(&aps, &"ssid".to_string()), Some(9));
}

#[test]
fn names_are_compared_whole_and_exactly() {
    let aps = vec![seen("ssid2", 2), seen("SSID", 3), seen("ssi", 4), seen("", 5)];
    assert_eq!(find_channel(&aps, &"ssid".to_string()), None);
    assert_eq!(find_channel(&aps, &"".to_string()), Some(5));
}

#[test]
fn default_ap_channel_is_one() {
    assert_eq!(DEFAULT_AP_CHANNEL, 1);
}

#[test]
fn plan_takes_discovered_channel_for_both_roles() {
    let aps = vec![seen("ssid", 6)];
    let config = NetworkConfig::plan(&"ssid".to_string(), &"password".to_string(), &aps);
    assert_eq!(config.client.ssid, "ssid");
    assert_eq!(config.client.credential, "password");
    assert_eq!(config.client.channel, Some(6));
    assert_eq!(config.local_ap.ssid, "aptest");
    assert_eq!(config.local_ap.channel, 6);
}

#[test]
fn plan_defaults_ap_channel_when_target_is_absent() {
    let aps = vec![seen("other", 6)];
    let config = NetworkConfig::plan(&"ssid".to_string(), &"password".to_string(), &aps);
    assert_eq!(config.client.ssid, "ssid");
    assert_eq!(config.client.credential, "password");
    assert_eq!(config.client.channel, None);
    assert_eq!(config.local_ap.ssid, "aptest");
    assert_eq!(config.local_ap.channel, 1);
}

#[test]
fn config_clone_is_equal() {
    let config = NetworkConfig::plan(&"ssid".to_string(), &"pw".to_string(), &vec![seen("ssid", 4)]);
    assert_eq!(config.clone(), config);
}

#[test]
fn gateway_needs_both_roles_fully_up() {
    let up = CombinedStatus {
        client: ClientStatus::Ready { gateway: 0xC0A8_0001 },
        local_ap: LocalApStatus::Ready,
    };
    assert_eq!(up.gateway(), Some(0xC0A8_0001));
    let client_states = [
        ClientStatus::Stopped,
        ClientStatus::Starting,
        ClientStatus::Disconnected,
        ClientStatus::Connecting,
        ClientStatus::AddressDisabled,
        ClientStatus::AddressPending,
    ];
    for client in client_states {
        let status = CombinedStatus { client, local_ap: LocalApStatus::Ready };
        assert_eq!(status.gateway(), None);
    }
    let ap_states = [
        LocalApStatus::Stopped,
        LocalApStatus::Starting,
        LocalApStatus::AddressDisabled,
        LocalApStatus::AddressPending,
    ];
    for local_ap in ap_states {
        let status = CombinedStatus { client: ClientStatus::Ready { gateway: 1 }, local_ap };
        assert_eq!(status.gateway(), None);
    }
}

#[test]
fn lossless_means_as_many_received_as_transmitted() {
    assert!(ReachabilityReport { transmitted: 4, received: 4 }.is_lossless());
    assert!(ReachabilityReport { transmitted: 0, received: 0 }.is_lossless());
    assert!(!ReachabilityReport { transmitted: 4, received: 3 }.is_lossless());
    assert!(!ReachabilityReport { transmitted: 4, received: 0 }.is_lossless());
    assert!(!ReachabilityReport { transmitted: 3, received: 4 }.is_lossless());
}
