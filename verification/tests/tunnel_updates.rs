use boru::id_map::TunnelId;
use boru::share_dialog::{share_dialog_labels, SuggestionsSection};
use boru::tunnel_update::{
    bind_ports, expiry_choices, parse_port, parse_tunnel_id, Moment, TunnelEffect, TunnelEvent,
    TunnelTexts, UNSUPPORTED_TOAST,
};
use boru::tunnels::{
    ListenAddress, LocalServiceSuggestion, PeerKey, TunnelDuration, TunnelOffer, TunnelsMessage,
    TunnelsState,
};

const PEER: PeerKey = PeerKey([5; 32]);

fn texts() -> TunnelTexts {
    TunnelTexts {
        development_server: "Dev".to_string(),
        invalid_port: "bad port".to_string(),
        invalid_local_port: "bad local port".to_string(),
        vnc_experimental: "experimental".to_string(),
        vnc_service_name: "Screen".to_string(),
        tunnel: "a tunnel".to_string(),
        service: "a service".to_string(),
    }
}

fn moment(scan_recent: bool) -> Moment {
    Moment {
        fresh_id: TunnelId([7; 32]),
        scan_recent,
        now: std::time::Instant::now(),
    }
}

fn step(state: &mut TunnelsState, event: TunnelEvent) -> Vec<TunnelEffect> {
    state.update_tunnels_with(event, &texts(), moment(false))
}

fn offer(id: TunnelId, is_http: bool, port: Option<u16>) -> TunnelOffer {
    TunnelOffer {
        tunnel_id: id,
        service_name: "Web".to_string(),
        is_http,
        expires_at_ms: 7_200_000,
        preferred_local_port: port,
    }
}

fn received(id: TunnelId, is_http: bool, port: Option<u16>) -> TunnelsState {
    let mut state = TunnelsState::new();
    let accepted =
        state.handle_received_tunnel_offer(PEER, offer(id, is_http, port), true, "Ada", 0);
    assert!(accepted.is_some());
    state
}

fn connected(id: TunnelId, is_http: bool) -> TunnelsState {
    let mut state = received(id, is_http, None);
    step(
        &mut state,
        TunnelEvent::ReceivedTunnelConnected {
            tunnel_id: id,
            local_addr: ListenAddress { shown: "127.0.0.1:9000".to_string(), port: 9000 },
            listener: 3,
            requested_port: None,
        },
    );
    state
}

fn hex(id: &TunnelId) -> String {
    id.0.iter().map(|b| format!("{b:02x}")).collect()
}

#[test]
fn an_identifier_is_read_from_hexadecimal_digits() {
    let mut bytes = [0u8; 32];
    bytes[0] = 0xab;
    bytes[31] = 0x0f;
    let written = hex(&TunnelId(bytes));
    assert_eq!(parse_tunnel_id(&written).unwrap().0, bytes);
    assert_eq!(parse_tunnel_id(&written.to_uppercase()).unwrap().0, bytes);
    assert!(parse_tunnel_id("ab").is_none());
    assert!(parse_tunnel_id(&"zz".repeat(32)).is_none());
    assert!(parse_tunnel_id(&"a".repeat(63)).is_none());
    assert!(parse_tunnel_id(&"é".repeat(32)).is_none());
}

#[test]
fn a_port_is_read_where_it_can_be_used() {
    assert_eq!(parse_port(" 8080 "), Some(8080));
    assert_eq!(parse_port("+80"), Some(80));
    assert_eq!(parse_port("65535"), Some(65535));
    assert_eq!(parse_port("65536"), None);
    assert_eq!(parse_port("0"), None);
    assert_eq!(parse_port(""), None);
    assert_eq!(parse_port("80a"), None);
}

#[test]
fn a_listener_tries_the_wanted_port_first() {
    assert_eq!(bind_ports(Some(8080)), vec![8080, 0]);
    assert_eq!(bind_ports(None), vec![0]);
    assert_eq!(
        expiry_choices(),
        vec![
            TunnelDuration::TenMinutes,
            TunnelDuration::ThirtyMinutes,
            TunnelDuration::OneHour,
            TunnelDuration::EightHours,
            TunnelDuration::UntilExit,
        ]
    );
}

#[test]
fn a_friend_without_tunnels_is_refused() {
    let mut state = TunnelsState::new();
    state.show_create_tunnel_dialog = true;
    let effects = step(&mut state, TunnelEvent::CreateTunnel { peer: PEER, supported: false });
    assert!(!state.show_create_tunnel_dialog);
    assert!(!state.share_local_service_open);
    assert_eq!(effects.len(), 1);
    assert!(matches!(
        &effects[0],
        TunnelEffect::ToastText { shown, counter: 160 } if shown == UNSUPPORTED_TOAST
    ));
}

#[test]
fn a_bad_port_keeps_the_picker_open() {
    let mut state = TunnelsState::new();
    state.show_create_tunnel_dialog = true;
    state.create_tunnel_port = "0".to_string();
    let effects = step(&mut state, TunnelEvent::CreateTunnel { peer: PEER, supported: true });
    assert!(state.show_create_tunnel_dialog);
    assert_eq!(state.create_tunnel_port_error.as_deref(), Some("bad port"));
    assert_eq!(effects.len(), 1);
}

#[test]
fn picking_a_friend_opens_the_share_dialog() {
    let mut state = TunnelsState::new();
    state.show_create_tunnel_dialog = true;
    state.create_tunnel_port = " 9000 ".to_string();
    let effects = step(&mut state, TunnelEvent::CreateTunnel { peer: PEER, supported: true });
    assert!(!state.show_create_tunnel_dialog);
    assert!(state.share_local_service_open);
    assert_eq!(state.share_service_name, "Dev");
    assert_eq!(state.share_service_port, "3000");
    assert!(state.share_service_scanning);
    assert_eq!(effects.len(), 4);
    assert!(matches!(&effects[0], TunnelEffect::OpenProfile(p) if *p == PEER));
    assert!(matches!(&effects[1], TunnelEffect::CloseProfileMenu));
    assert!(matches!(&effects[2], TunnelEffect::StartScan { excluded } if excluded.is_empty()));
    assert!(matches!(&effects[3], TunnelEffect::Focus(f) if f == "share-service-name-input"));
}

#[test]
fn a_recent_scan_is_used_again() {
    let mut state = TunnelsState::new();
    let effects = state.update_tunnels_with(
        TunnelEvent::OpenShareLocalService,
        &texts(),
        moment(true),
    );
    assert!(!state.share_service_scanning);
    assert_eq!(effects.len(), 2);
}

#[test]
fn a_scan_leaves_out_the_own_listeners() {
    let mut state = connected(TunnelId([1; 32]), true);
    let effects = step(&mut state, TunnelEvent::OpenShareLocalService);
    assert!(matches!(
        &effects[1],
        TunnelEffect::StartScan { excluded } if *excluded == vec![9000]
    ));
}

#[test]
fn a_repeated_request_replaces_the_first() {
    let id = TunnelId([1; 32]);
    let mut state = received(id, true, None);
    for timestamp in [1, 2] {
        let effects = step(
            &mut state,
            TunnelEvent::TunnelRequestReceived {
                peer: PEER,
                peer_name: "Ada".to_string(),
                tunnel_id: hex(&id),
                timestamp,
            },
        );
        assert!(matches!(&effects[0], TunnelEffect::RefreshRequests));
        assert!(matches!(
            &effects[1],
            TunnelEffect::SystemText(line)
                if line == "Tunnel request from Ada: Web (review it in REQUESTS)."
        ));
    }
    assert_eq!(state.tunnel_requests.len(), 1);
    assert_eq!(state.tunnel_requests[0].timestamp, 2);
    let effects = step(
        &mut state,
        TunnelEvent::TunnelRequestReceived {
            peer: PEER,
            peer_name: "Ada".to_string(),
            tunnel_id: "unknown".to_string(),
            timestamp: 3,
        },
    );
    assert!(matches!(
        &effects[1],
        TunnelEffect::SystemText(line)
            if line == "Tunnel request from Ada: a tunnel (review it in REQUESTS)."
    ));
    assert_eq!(state.tunnel_requests.len(), 2);
}

#[test]
fn accepting_connects_what_was_offered() {
    let id = TunnelId([1; 32]);
    let mut state = received(id, true, None);
    step(
        &mut state,
        TunnelEvent::TunnelRequestReceived {
            peer: PEER,
            peer_name: "Ada".to_string(),
            tunnel_id: hex(&id),
            timestamp: 1,
        },
    );
    let effects = step(&mut state, TunnelEvent::AcceptTunnelRequest(hex(&id)));
    assert!(state.tunnel_requests.is_empty());
    assert!(matches!(&effects[1], TunnelEffect::ConnectNext(t) if t.0 == id.0));
    let effects = step(&mut state, TunnelEvent::AcceptTunnelRequest("nothing".to_string()));
    assert!(matches!(&effects[1], TunnelEffect::System(p) if p.key == "tunnels.request_accepted"));
}

#[test]
fn declining_forgets_the_offer() {
    let id = TunnelId([1; 32]);
    let mut state = received(id, true, None);
    let effects = step(&mut state, TunnelEvent::DeclineTunnelRequest(hex(&id)));
    assert!(state.received_tunnels.is_empty());
    assert!(matches!(&effects[1], TunnelEffect::System(p) if p.key == "tunnels.request_declined"));
}

#[test]
fn closing_revokes() {
    let mut state = TunnelsState::new();
    let effects = step(&mut state, TunnelEvent::CloseTunnel(TunnelId([2; 32])));
    assert!(matches!(&effects[0], TunnelEffect::Revoke(id) if id.0 == [2; 32]));
    assert!(matches!(&effects[1], TunnelEffect::System(p) if p.key == "tunnels.closed"));
}

#[test]
fn sharing_the_screen_starts_with_its_own_port() {
    let mut state = TunnelsState::new();
    let effects = step(&mut state, TunnelEvent::OpenShareVncTunnel);
    assert_eq!(state.share_service_name, "Screen");
    assert_eq!(state.share_service_port, "5900");
    assert!(!state.share_service_is_http);
    assert_eq!(state.share_service_error.as_deref(), Some("experimental"));
    assert!(matches!(&effects[1], TunnelEffect::Focus(f) if f == "share-service-port-input"));
    let effects = step(
        &mut state,
        TunnelEvent::ConfirmShareLocalService { profile: Some(PEER), supported: true },
    );
    assert!(matches!(&effects[0], TunnelEffect::CheckVncSource { port: 5900, .. }));
    assert!(!state.share_service_submitting);
    step(
        &mut state,
        TunnelEvent::VncSourceChecked {
            peer: PEER,
            port: 5900,
            error: Some("not loopback".to_string()),
        },
    );
    assert_eq!(state.share_service_error.as_deref(), Some("not loopback"));
    let effects = step(
        &mut state,
        TunnelEvent::VncSourceChecked { peer: PEER, port: 5900, error: None },
    );
    assert!(matches!(&effects[0], TunnelEffect::CreateTunnel { port: 5900, .. }));
    let effects = step(
        &mut state,
        TunnelEvent::VncSourceChecked { peer: PEER, port: 5900, error: None },
    );
    assert!(effects.is_empty());
}

#[test]
fn confirming_creates_one_tunnel() {
    let mut state = TunnelsState::new();
    state.share_local_service_open = true;
    state.share_service_name = "  ".to_string();
    let confirm =
        || TunnelEvent::ConfirmShareLocalService { profile: Some(PEER), supported: true };
    let effects = step(&mut state, confirm());
    assert!(state.share_service_submitting);
    match &effects[0] {
        TunnelEffect::CreateTunnel { peer, tunnel_id, port, expiry, service_name } => {
            assert_eq!(*peer, PEER);
            assert_eq!(tunnel_id.0, [7; 32]);
            assert_eq!(*port, 3000);
            assert_eq!(*expiry, TunnelDuration::OneHour);
            assert_eq!(service_name, "Dev");
        }
        other => panic!("unexpected {other:?}"),
    }
    assert!(step(&mut state, confirm()).is_empty());
}

#[test]
fn confirming_fails_where_it_cannot_go_on() {
    let mut state = TunnelsState::new();
    state.share_local_service_open = true;
    let effects = step(
        &mut state,
        TunnelEvent::ConfirmShareLocalService { profile: None, supported: true },
    );
    assert!(effects.is_empty());
    assert!(!state.share_local_service_open);
    state.share_local_service_open = true;
    let effects = step(
        &mut state,
        TunnelEvent::ConfirmShareLocalService { profile: Some(PEER), supported: false },
    );
    assert!(matches!(&effects[0], TunnelEffect::ToastText { counter: 160, .. }));
    assert!(!state.share_local_service_open);
    state.share_local_service_open = true;
    state.share_service_port = "70000".to_string();
    let effects = step(
        &mut state,
        TunnelEvent::ConfirmShareLocalService { profile: Some(PEER), supported: true },
    );
    assert!(matches!(
        &effects[0],
        TunnelEffect::ToastText { shown, counter: 120 } if shown == "bad local port"
    ));
    assert!(state.share_local_service_open);
    assert_eq!(state.share_service_error.as_deref(), Some("bad local port"));
}

#[test]
fn a_created_tunnel_is_remembered_and_offered() {
    let mut state = TunnelsState::new();
    state.share_service_submitting = true;
    state.share_local_service_open = true;
    state.create_tunnel_port = "8000".to_string();
    let id = TunnelId([7; 32]);
    let effects = step(
        &mut state,
        TunnelEvent::TunnelCreated {
            peer: PEER,
            friend: "Ada".to_string(),
            tunnel_id: id,
            service_name: "Web".to_string(),
            created_at_ms: 1,
            expires_at_ms: 2,
        },
    );
    assert!(!state.share_service_submitting);
    assert!(!state.share_local_service_open);
    assert_eq!(state.shared_tunnels.get(&id).unwrap().service_name, "Web");
    assert!(matches!(
        &effects[0],
        TunnelEffect::AnnounceShared { name, friend, expires_at_ms: 2 }
            if name == "Web" && friend == "Ada"
    ));
    match &effects[1] {
        TunnelEffect::SendOffer { offer, created_at_ms, .. } => {
            assert_eq!(offer.preferred_local_port, Some(8000));
            assert_eq!(*created_at_ms, 1);
            assert!(offer.is_http);
        }
        other => panic!("unexpected {other:?}"),
    }
    let effects =
        step(&mut state, TunnelEvent::StopSharingTunnel { tunnel_id: id, error: None });
    assert!(state.shared_tunnels.is_empty());
    assert!(matches!(
        &effects[0],
        TunnelEffect::Toast { phrase, counter: 160 }
            if phrase.key == "tunnels.stopped_sharing"
                && phrase.args == vec![("name".to_string(), "Web".to_string())]
    ));
    let effects = step(
        &mut state,
        TunnelEvent::StopSharingTunnel { tunnel_id: id, error: Some("gone".to_string()) },
    );
    assert!(matches!(
        &effects[0],
        TunnelEffect::Toast { phrase, .. }
            if phrase.key == "tunnels.stop_failed" && phrase.args[0].1 == "a service"
                && phrase.args[1].1 == "gone"
    ));
}

#[test]
fn a_tunnel_that_could_not_be_created_is_reported() {
    let mut state = TunnelsState::new();
    state.share_service_submitting = true;
    let effects = step(
        &mut state,
        TunnelEvent::TunnelCreateFailed {
            message: "Full".to_string(),
            shown: "no room".to_string(),
        },
    );
    assert!(!state.share_service_submitting);
    assert_eq!(state.share_service_error.as_deref(), Some("no room"));
    assert!(matches!(&effects[0], TunnelEffect::AnnounceShareFailed(m) if m == "Full"));
    let effects =
        step(&mut state, TunnelEvent::TunnelShareFailed { message: "Full".to_string() });
    assert!(matches!(
        &effects[0],
        TunnelEffect::Toast { phrase, counter: 160 } if phrase.key == "tunnels.share_failed"
    ));
}

#[test]
fn sharing_is_told_with_its_time() {
    let mut state = TunnelsState::new();
    let mut when = |expires_at_ms: u64| {
        let effects = step(
            &mut state,
            TunnelEvent::TunnelShared {
                name: "Web".to_string(),
                friend: "Ada".to_string(),
                expires_at_ms,
                now_ms: 0,
            },
        );
        assert!(matches!(
            &effects[0],
            TunnelEffect::SystemText(line) if line == "Tunnel request sent to Ada: Web."
        ));
        match effects.into_iter().nth(1).unwrap() {
            TunnelEffect::SharingToast { when, .. } => when,
            other => panic!("unexpected {other:?}"),
        }
    };
    assert_eq!(when(0).key, "tunnels.less_than_minute");
    assert_eq!(when(120_000).args[0].1, "2");
    assert_eq!(when(120_000).key, "tunnels.minutes");
    assert_eq!(when(3_600_000).key, "tunnels.hours");
    assert_eq!(when(86_400_000).key, "tunnels.days");
    let effects = step(&mut state, TunnelEvent::TunnelOfferSent);
    assert!(matches!(&effects[0], TunnelEffect::Toast { counter: 120, .. }));
    let effects =
        step(&mut state, TunnelEvent::TunnelOfferSendFailed { message: "x".to_string() });
    assert!(matches!(
        &effects[0],
        TunnelEffect::Toast { phrase, counter: 160 }
            if phrase.key == "tunnels.offer_send_failed"
    ));
}

#[test]
fn a_tunnel_is_connected_once() {
    let id = TunnelId([1; 32]);
    let mut state = received(id, true, Some(0));
    let effects = step(&mut state, TunnelEvent::ConnectReceivedTunnel(id));
    assert!(matches!(&effects[0], TunnelEffect::Connect { requested_port: None, .. }));
    let mut state = received(id, true, Some(8080));
    let effects = step(&mut state, TunnelEvent::ConnectReceivedTunnel(id));
    assert!(matches!(&effects[0], TunnelEffect::Connect { requested_port: Some(8080), .. }));
    let effects = step(
        &mut state,
        TunnelEvent::ReceivedTunnelConnected {
            tunnel_id: id,
            local_addr: ListenAddress { shown: "127.0.0.1:9000".to_string(), port: 9000 },
            listener: 3,
            requested_port: Some(8080),
        },
    );
    assert!(matches!(
        &effects[0],
        TunnelEffect::Toast { phrase, counter: 200 }
            if phrase.key == "tunnels.port_unavailable" && phrase.args[0].1 == "8080"
                && phrase.args[1].1 == "9000"
    ));
    assert!(step(&mut state, TunnelEvent::ConnectReceivedTunnel(id)).is_empty());
    let effects = step(
        &mut state,
        TunnelEvent::Message(TunnelsMessage::DisconnectReceivedTunnel(id)),
    );
    assert!(matches!(&effects[0], TunnelEffect::StopListener(3)));
    assert_eq!(step(&mut state, TunnelEvent::ConnectReceivedTunnel(id)).len(), 1);
}

#[test]
fn a_failed_connection_is_remembered() {
    let id = TunnelId([1; 32]);
    let mut state = connected(id, true);
    let effects = step(
        &mut state,
        TunnelEvent::ReceivedTunnelConnectFailed {
            tunnel_id: id,
            message: "refused".to_string(),
        },
    );
    let entry = state.received_tunnels.get(&id).unwrap();
    assert!(!entry.connected);
    assert!(entry.local_addr.is_none());
    assert!(entry.connection_failed);
    assert!(entry.live_info);
    assert!(matches!(
        &effects[0],
        TunnelEffect::Toast { phrase, .. }
            if phrase.key == "tunnels.connect_failed" && phrase.args[0].1 == "refused"
    ));
}

#[test]
fn only_http_opens_in_the_browser() {
    let id = TunnelId([1; 32]);
    let mut state = connected(id, true);
    let effects = step(&mut state, TunnelEvent::OpenReceivedTunnel(id));
    assert!(matches!(&effects[0], TunnelEffect::OpenUrl(u) if u == "http://127.0.0.1:9000"));
    let mut state = connected(id, false);
    let effects = step(&mut state, TunnelEvent::OpenReceivedTunnel(id));
    assert!(matches!(
        &effects[0],
        TunnelEffect::Toast { phrase, counter: 160 } if phrase.key == "tunnels.not_http"
    ));
    let effects = step(&mut state, TunnelEvent::CopyReceivedTunnelAddress(id));
    assert!(matches!(&effects[1], TunnelEffect::CopyText(t) if t == "127.0.0.1:9000"));
    let mut state = received(id, true, None);
    assert!(step(&mut state, TunnelEvent::OpenReceivedTunnel(id)).is_empty());
    assert!(step(&mut state, TunnelEvent::CopyReceivedTunnelAddress(id)).is_empty());
}

#[test]
fn an_offer_counts_only_where_it_is_valid() {
    let id = TunnelId([1; 32]);
    let mut state = TunnelsState::new();
    assert!(state
        .handle_received_tunnel_offer(PEER, offer(id, true, None), false, "Ada", 0)
        .is_none());
    assert!(state
        .handle_received_tunnel_offer(PEER, offer(id, true, None), true, "Ada", 7_200_000)
        .is_none());
    assert!(state.received_tunnels.is_empty());
    let (accepted, toast) = state
        .handle_received_tunnel_offer(PEER, offer(id, true, None), true, "Ada", 0)
        .unwrap();
    assert_eq!(accepted.0, id.0);
    assert!(matches!(
        toast,
        TunnelEffect::ToastText { shown, counter: 200 }
            if shown == "Ada shared Web with you (Expires in 2 hours)"
    ));
    assert_eq!(state.received_tunnels.get(&id).unwrap().sharer_label, "Ada");
}

#[test]
fn fresh_identifiers_differ() {
    let mut ids = Vec::new();
    for _ in 0..2 {
        let mut state = TunnelsState::new();
        let effects = state.update_tunnels(
            TunnelEvent::ConfirmShareLocalService { profile: Some(PEER), supported: true },
            &texts(),
        );
        match &effects[0] {
            TunnelEffect::CreateTunnel { tunnel_id, .. } => ids.push(tunnel_id.0),
            other => panic!("unexpected {other:?}"),
        }
    }
    assert_ne!(ids[0], ids[1]);
}

#[test]
fn the_share_dialog_can_be_confirmed_with_a_usable_port() {
    let mut state = TunnelsState::new();
    let dialog = state.view_share_local_service_dialog();
    assert!(dialog.confirm_enabled);
    assert!(dialog.cancel_enabled);
    assert_eq!(dialog.confirm_label, "tunnels.create");
    assert!(matches!(dialog.suggestions, SuggestionsSection::NoneFound));
    state.share_service_port = "0".to_string();
    assert!(!state.view_share_local_service_dialog().confirm_enabled);
    state.share_service_port = "80".to_string();
    state.share_service_submitting = true;
    state.share_service_scanning = true;
    state.share_service_error = Some("e".to_string());
    let dialog = state.view_share_local_service_dialog();
    assert!(!dialog.confirm_enabled);
    assert!(!dialog.cancel_enabled);
    assert_eq!(dialog.confirm_label, "tunnels.creating");
    assert_eq!(dialog.error.as_deref(), Some("e"));
    assert!(matches!(dialog.suggestions, SuggestionsSection::Scanning));
    let labels = share_dialog_labels();
    assert_eq!(labels.title, "tunnels.create");
    assert_eq!(labels.subtitle, "tunnels.subtitle");
    assert_eq!(labels.cancel, "common.cancel");
}

#[test]
fn the_picked_service_is_selected() {
    let mut state = TunnelsState::new();
    state.share_service_suggestions = vec![
        LocalServiceSuggestion { label: "A".to_string(), port: 80, is_http: true },
        LocalServiceSuggestion { label: "B".to_string(), port: 22, is_http: false },
    ];
    state.update(TunnelsMessage::SelectShareLocalServiceSuggestion(22));
    match state.view_share_local_service_dialog().suggestions {
        SuggestionsSection::Found(rows) => {
            assert_eq!(rows.len(), 2);
            assert!(!rows[0].selected);
            assert!(rows[0].http_badge);
            assert_eq!(rows[0].port_label, ":80");
            assert!(rows[1].selected);
            assert!(!rows[1].http_badge);
            assert_eq!(rows[1].label, "B");
        }
        other => panic!("unexpected {other:?}"),
    }
}
