use boru::id_map::{same_id, IdMap, TunnelId};
use boru::preview_target::IpAddress;
use boru::tunnel_labels::{
    tunnel_connection_info_label, tunnel_duration_label, tunnel_expiry_label,
    tunnel_is_expired, tunnel_local_address, tunnel_remaining_label, tunnel_route_label,
    tunnel_status_color, tunnel_status_label, tunnel_target_label, tunnel_total_bytes,
    tunnel_transfer_label, ColorRole, TunnelConnectionInfo, TunnelRoute, TunnelStatus,
};
use boru::tunnels::{
    ListenAddress, LocalServiceSuggestion, PeerKey, ReceivedTunnelState, TunnelDuration,
    TunnelOffer, TunnelsMessage, TunnelsState,
};

#[test]
fn tunnels_state_new_defaults_match_previous_inline_fields() {
    let state = TunnelsState::new();
    assert!(!state.show_create_tunnel_dialog);
    assert!(state.create_tunnel_port.is_empty());
    assert!(state.create_tunnel_port_error.is_none());
    assert!(state.tunnel_requests.is_empty());
    assert!(!state.share_local_service_open);
    assert!(!state.share_service_submitting);
    assert!(state.share_service_error.is_none());
    assert_eq!(state.share_service_name, "Development Server");
    assert_eq!(state.share_service_port, "3000");
    assert_eq!(state.share_service_expiry, TunnelDuration::OneHour);
    assert!(state.share_service_is_http);
    assert!(state.share_service_suggestions.is_empty());
    assert!(!state.share_service_scanning);
    assert!(state.share_service_scan_cached_at.is_none());
    assert!(state.received_tunnels.is_empty());
    assert!(state.shared_tunnels.is_empty());
}

#[test]
fn create_tunnel_dialog_transitions_are_state_only() {
    let mut state = TunnelsState::new();
    state.update(TunnelsMessage::ShowCreateTunnelDialog);
    assert!(state.show_create_tunnel_dialog);
    state.update(TunnelsMessage::CreateTunnelPortChanged("8080".to_string()));
    assert_eq!(state.create_tunnel_port, "8080");
    state.update(TunnelsMessage::CancelCreateTunnel);
    assert!(!state.show_create_tunnel_dialog);
}

#[test]
fn share_dialog_field_changes_are_state_only() {
    let mut state = TunnelsState::new();
    state.update(TunnelsMessage::ShareLocalServiceNameChanged("Media".to_string()));
    assert_eq!(state.share_service_name, "Media");
    state.update(TunnelsMessage::ShareLocalServicePortChanged("8443".to_string()));
    assert_eq!(state.share_service_port, "8443");
    state.update(TunnelsMessage::ShareLocalServiceExpiryChanged(
        TunnelDuration::EightHours,
    ));
    assert_eq!(state.share_service_expiry, TunnelDuration::EightHours);
    state.update(TunnelsMessage::ShareLocalServiceHttpToggled(false));
    assert!(!state.share_service_is_http);
    state.share_service_error = Some("boom".to_string());
    state.update(TunnelsMessage::ShareLocalServiceNameChanged("Video".to_string()));
    assert!(state.share_service_error.is_none());
}

#[test]
fn cancel_share_dialog_is_noop_mid_submit_and_closes_otherwise() {
    let mut state = TunnelsState::new();
    state.share_service_submitting = true;
    state.share_local_service_open = true;
    state.update(TunnelsMessage::CancelShareLocalService);
    assert!(state.share_local_service_open, "no-op mid-submit");

    state.share_service_submitting = false;
    state.update(TunnelsMessage::CancelShareLocalService);
    assert!(!state.share_local_service_open);
    assert!(state.share_service_error.is_none());
}

#[test]
fn suggestion_selection_fills_port_name_and_http_flag() {
    let mut state = TunnelsState::new();
    state.share_service_suggestions = vec![LocalServiceSuggestion {
        label: "My Web App".to_string(),
        port: 5173,
        is_http: true,
    }];
    state.update(TunnelsMessage::SelectShareLocalServiceSuggestion(5173));
    assert_eq!(state.share_service_port, "5173");
    assert_eq!(state.share_service_name, "My Web App");
    assert!(state.share_service_is_http);
    assert!(state.share_service_error.is_none());
}

#[test]
fn an_unknown_suggestion_changes_nothing() {
    let mut state = TunnelsState::new();
    state.update(TunnelsMessage::SelectShareLocalServiceSuggestion(5173));
    assert_eq!(state.share_service_port, "3000");
    assert_eq!(state.share_service_name, "Development Server");
}

#[test]
fn scan_done_stores_suggestions_and_cache_timestamp() {
    let mut state = TunnelsState::new();
    state.share_service_scanning = true;
    let suggestions = vec![LocalServiceSuggestion {
        label: "Dev API".to_string(),
        port: 3000,
        is_http: false,
    }];
    state.update(TunnelsMessage::ShareLocalServiceScanDone(suggestions.clone()));
    assert!(!state.share_service_scanning);
    assert_eq!(state.share_service_suggestions, suggestions);
    assert!(state.share_service_scan_cached_at.is_some());
    assert!(state.scan_is_recent());
    assert!(!TunnelsState::new().scan_is_recent());
}

#[test]
fn a_scan_is_recent_for_half_a_minute() {
    let mut state = TunnelsState::new();
    assert!(!state.scan_is_recent_at_age(0));
    state.update(TunnelsMessage::ShareLocalServiceScanDone(vec![]));
    assert!(state.scan_is_recent_at_age(0));
    assert!(state.scan_is_recent_at_age(29_999_999_999));
    assert!(!state.scan_is_recent_at_age(30_000_000_000));
}

#[test]
fn disconnect_received_tunnel_clears_listener_state() {
    let mut state = TunnelsState::new();
    let id = TunnelId([3u8; 32]);
    state.put_received(
        id,
        ReceivedTunnelState {
            offer: TunnelOffer {
                tunnel_id: id,
                service_name: "svc".to_string(),
                is_http: true,
                expires_at_ms: 0,
                preferred_local_port: None,
            },
            sharer: PeerKey([4u8; 32]),
            sharer_label: "alice".to_string(),
            connected: true,
            local_addr: Some(ListenAddress {
                shown: "127.0.0.1:8080".to_string(),
                port: 8080,
            }),
            listener: Some(7),
            live_info: false,
            connection_failed: false,
        },
    );
    assert_eq!(
        state.update(TunnelsMessage::DisconnectReceivedTunnel(id)),
        Some(7)
    );
    let entry = state.received_tunnels.get(&id).unwrap();
    assert!(!entry.connected);
    assert!(entry.local_addr.is_none());
    assert!(!entry.connection_failed);
    assert_eq!(state.update(TunnelsMessage::DisconnectReceivedTunnel(id)), None);
    assert_eq!(
        state.update(TunnelsMessage::DisconnectReceivedTunnel(TunnelId([9; 32]))),
        None
    );
}

#[test]
fn an_identifier_has_one_value() {
    let mut map: IdMap<u32> = IdMap::new();
    let a = TunnelId([1; 32]);
    let b = TunnelId([2; 32]);
    map.insert(a, 1);
    map.insert(b, 2);
    map.insert(a, 3);
    assert_eq!(map.len(), 2);
    assert_eq!(map.get(&a), Some(&3));
    assert!(map.contains_key(&b));
    assert_eq!(map.remove(&b), Some(2));
    assert_eq!(map.remove(&b), None);
    assert_eq!(*map.value_at(0), 3);
    assert!(!map.is_empty());
    assert!(same_id(&a, &TunnelId([1; 32])));
    assert!(!same_id(&a, &b));
}

#[test]
fn remaining_time_is_told_in_its_largest_unit() {
    let hour = 3_600_000;
    assert_eq!(tunnel_remaining_label(49 * hour, 0), "2 days remaining");
    assert_eq!(tunnel_remaining_label(24 * hour - 1, 0), "23 hours remaining");
    assert_eq!(tunnel_remaining_label(hour - 1, 0), "59 minutes remaining");
    assert_eq!(tunnel_remaining_label(59_999, 0), "less than a minute remaining");
    assert_eq!(tunnel_remaining_label(5, 5), "Expired");
    assert_eq!(tunnel_expiry_label(24 * hour, 0), "Expires in 1 days");
    assert_eq!(tunnel_expiry_label(2 * hour, 0), "Expires in 2 hours");
    assert_eq!(tunnel_expiry_label(60_000, 0), "Expires in 1 minutes");
    assert_eq!(tunnel_expiry_label(1, 0), "Expires in less than a minute");
    assert_eq!(tunnel_expiry_label(1, 2), "Expired");
}

#[test]
fn a_loopback_target_is_localhost() {
    assert_eq!(
        tunnel_target_label(IpAddress::V4([127, 0, 0, 1]), "127.0.0.1", 3000),
        "localhost:3000"
    );
    assert_eq!(
        tunnel_target_label(IpAddress::V6([0, 0, 0, 0, 0, 0, 0, 1]), "::1", 80),
        "localhost:80"
    );
    assert_eq!(
        tunnel_target_label(IpAddress::V4([10, 0, 0, 2]), "10.0.0.2", 80),
        "10.0.0.2:80"
    );
    assert_eq!(tunnel_local_address(true, "127.0.0.1:80"), "http://127.0.0.1:80");
    assert_eq!(tunnel_local_address(false, "127.0.0.1:80"), "127.0.0.1:80");
}

#[test]
fn a_connection_is_summed_up() {
    assert_eq!(tunnel_route_label(TunnelRoute::Direct), "Direct");
    assert_eq!(tunnel_route_label(TunnelRoute::Relay), "Relay");
    assert_eq!(tunnel_route_label(TunnelRoute::Unknown), "Connected");
    assert_eq!(tunnel_total_bytes(u64::MAX, 1), u64::MAX);
    assert_eq!(tunnel_total_bytes(2, 3), 5);
    assert_eq!(tunnel_transfer_label(0, "0 B"), None);
    assert_eq!(tunnel_transfer_label(5, "5 B").as_deref(), Some("5 B transferred"));
    assert_eq!(tunnel_duration_label(0, 1000), None);
    assert_eq!(tunnel_duration_label(1000, 1500).as_deref(), Some("connected just now"));
    let info = TunnelConnectionInfo {
        route: TunnelRoute::Direct,
        reconnecting: false,
        bytes_sent: 2,
        bytes_received: 3,
        connected_at_ms: 1000,
    };
    assert_eq!(
        tunnel_connection_info_label(info, "5 B", 1500),
        "Direct · 5 B transferred · connected just now"
    );
    assert_eq!(
        tunnel_connection_info_label(info, "12.4 MB", 193_000),
        "Direct · 12.4 MB transferred · 3m 12s"
    );
    let resumed = TunnelConnectionInfo { reconnecting: true, ..info };
    assert_eq!(
        tunnel_connection_info_label(resumed, "12.4 MB", 193_000),
        "Reconnecting · Direct · 12.4 MB transferred · 3m 12s"
    );
    let bare = TunnelConnectionInfo {
        bytes_sent: 0,
        bytes_received: 0,
        connected_at_ms: 0,
        ..info
    };
    assert_eq!(tunnel_connection_info_label(bare, "0 B", 193_000), "Direct");
}

#[test]
fn an_expired_tunnel_says_so() {
    assert!(tunnel_is_expired(TunnelStatus::Active, 5, 5));
    assert!(!tunnel_is_expired(TunnelStatus::Active, 6, 5));
    assert!(!tunnel_is_expired(TunnelStatus::Revoked, 5, 5));
    assert_eq!(tunnel_status_label(TunnelStatus::Active, 5, 5), "Expired");
    assert_eq!(tunnel_status_label(TunnelStatus::Active, 6, 5), "Available");
    assert_eq!(tunnel_status_label(TunnelStatus::Revoked, 5, 5), "Revoked");
    assert_eq!(tunnel_status_color(TunnelStatus::Connected, 6, 5), ColorRole::AccentGreen);
    assert_eq!(tunnel_status_color(TunnelStatus::Failed, 6, 5), ColorRole::Error);
    assert_eq!(tunnel_status_color(TunnelStatus::Connected, 5, 5), ColorRole::Muted);
}
