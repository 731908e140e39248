use std::collections::hash_map::DefaultHasher;
use std::hash::{Hash, Hasher};

use boru::home::{
    arrange, chat_list_dependency, network_card, view_chat_list_content, view_photo_home_hero,
    Arrangement, ChatListDependency, HomeInput, HomeMessage, MeshEventRow, NetworkFacts,
    NetworkMap, NetworkMapPointSnapshot, ScreenFacts,
};
use boru::home_cards::{
    activity_visual, mesh_events_empty_message, people_activity_card_data, tunnels_card_data,
    tunnels_header_action_label, view_online_peers_card, view_people_activity_card,
    view_recent_activity_card, view_tunnels_card, CardBody, CardFrame, FriendEntry, PeerPresence,
    TunnelDefinition, ACTIVITY_ROWS, PEOPLE_ACTIVITY_MAX,
};
use boru::id_map::TunnelId;
use boru::layout::{HomeLayout, HomeLayoutMode, HomeSection};
use boru::mesh_status::{
    home_connection_variant, is_transient_mesh_event, mesh_card, mesh_event_tone,
    mesh_event_visual, HomeConnectionVariant, HomeIcon, MeshEventTone, MeshHealth,
    MeshHealthSnapshot, PeerCounts, StatusBadgeKind,
};
use boru::notifications::{ActivityKind, NotificationsState};
use boru::preview_target::IpAddress;
use boru::status_card::LocationInfo;
use boru::tunnel_labels::{ColorRole, TunnelStatus};
use boru::tunnels::{PeerKey, SharedTunnelState, TunnelsState};

const FRAME: CardFrame = CardFrame {
    dark_mode: true,
    theme_revision: 3,
    compact_header: false,
    home_menu_item_opacity_bits: 7,
};

fn friend(name: &str, can_message: bool, key: Option<u8>, presence: PeerPresence) -> FriendEntry {
    FriendEntry {
        can_message,
        key: key.map(|k| PeerKey([k; 32])),
        name: name.to_string(),
        presence,
    }
}

fn friends() -> Vec<FriendEntry> {
    vec![
        friend("Ada", true, Some(1), PeerPresence::Online),
        friend("Bob", true, Some(2), PeerPresence::Offline),
        friend("Cid", false, Some(3), PeerPresence::Away),
        friend("Dan", true, None, PeerPresence::Online),
    ]
}

fn facts(health: MeshHealth, relays: Vec<bool>, direct: u32) -> NetworkFacts {
    NetworkFacts {
        mesh_health: health,
        relays,
        direct_peers: direct,
        relayed_peers: 0,
        neighbors: 0,
        connected_age_secs: Some(75),
        events: (0..6)
            .map(|age| MeshEventRow { message: format!("event {age}"), age_secs: age })
            .collect(),
    }
}

fn screen() -> ScreenFacts {
    ScreenFacts {
        dark_mode: true,
        theme_revision: 3,
        layout_revision: 4,
        window_width_bits: 128_000,
        window_height_bits: 72_000,
        reconnect_frame: 5,
        local_label: "Ada".to_string(),
        time_of_day_greeting: "morning".to_string(),
        home_menu_item_opacity_bits: 7,
        reduced_motion: false,
        network_map: NetworkMap {
            points: vec![NetworkMapPointSnapshot {
                node_id: PeerKey([9; 32]),
                latitude_bits: 59.9f64.to_bits(),
                longitude_bits: 10.7f64.to_bits(),
            }],
            nodes_online: 6,
            countries: 2,
            networks: 3,
        },
        local_network_info: LocationInfo {
            addresses: "1.2.3.4".to_string(),
            location: "Oslo".to_string(),
        },
    }
}

fn dependency(facts: &NetworkFacts) -> ChatListDependency {
    let people = people_activity_card_data(&friends(), &NotificationsState::new(), FRAME);
    let tunnels = tunnels_card_data(&vec![], &TunnelsState::new(), 0, 0, FRAME);
    chat_list_dependency(facts, screen(), people, tunnels)
}

#[test]
fn home_connection_variant_prioritizes_transport_health() {
    assert_eq!(
        home_connection_variant(
            &MeshHealth::Offline("relay unavailable".into()),
            true,
            true,
        ),
        HomeConnectionVariant::Offline
    );
    assert_eq!(
        home_connection_variant(&MeshHealth::Degraded("no peers".into()), true, true),
        HomeConnectionVariant::Degraded
    );
    assert_eq!(
        home_connection_variant(&MeshHealth::Good, true, true),
        HomeConnectionVariant::Ready
    );
    assert_eq!(
        home_connection_variant(&MeshHealth::Good, false, true),
        HomeConnectionVariant::Connecting
    );
    assert_eq!(
        home_connection_variant(&MeshHealth::Good, false, false),
        HomeConnectionVariant::Starting
    );
}

#[test]
fn mesh_event_tone_keeps_unknown_events_neutral() {
    assert_eq!(
        mesh_event_tone("Recovered from relay outage"),
        MeshEventTone::Success
    );
    assert_eq!(
        mesh_event_tone("Mesh degraded: no peers"),
        MeshEventTone::Warning
    );
    assert_eq!(mesh_event_tone("Transport offline"), MeshEventTone::Danger);
    assert_eq!(
        mesh_event_tone("Directory refreshed"),
        MeshEventTone::Neutral
    );
}

#[test]
fn the_gravest_word_gives_the_tone() {
    assert_eq!(mesh_event_tone("Recovered, then OFFLINE"), MeshEventTone::Danger);
    assert_eq!(mesh_event_tone("Peer Discovered"), MeshEventTone::Success);
    assert!(is_transient_mesh_event("Starting up…"));
    assert!(is_transient_mesh_event("Subscribing to topic"));
    assert!(!is_transient_mesh_event("Recovered"));
    assert_eq!(
        mesh_event_visual(MeshEventTone::Danger),
        (HomeIcon::Offline, ColorRole::Error)
    );
}

#[test]
fn health_survives_a_snapshot() {
    let snapshot = MeshHealthSnapshot::of(&MeshHealth::Degraded("slow".to_string()));
    assert!(matches!(
        snapshot.as_mesh_health(),
        MeshHealth::Degraded(reason) if reason == "slow"
    ));
}

#[test]
fn the_mesh_card_tells_how_long_all_was_well() {
    let counts = |secs| PeerCounts { direct: 1, relayed: 2, neighbors: 3, connected_secs: secs };
    let card = mesh_card(&MeshHealth::Good, true, true, counts(Some(3_725)));
    assert_eq!(card.health_label, "status.healthy");
    assert_eq!(card.badge, StatusBadgeKind::Success);
    assert_eq!(card.icon, HomeIcon::Check);
    assert_eq!(card.label.key, "common.connected");
    assert_eq!(card.detail.len(), 2);
    assert_eq!(card.detail[0].key, "status.direct_relay_neighbors");
    assert_eq!(card.detail[0].args[2], ("neighbors".to_string(), "3".to_string()));
    assert_eq!(card.detail[1].key, "status.connected_hr_min");
    assert_eq!(card.detail[1].args[0].1, "1");
    assert_eq!(card.detail[1].args[1].1, "2");
    let card = mesh_card(&MeshHealth::Good, true, true, counts(Some(75)));
    assert_eq!(card.detail[1].key, "status.connected_min_sec");
    assert_eq!(card.detail[1].args[1].1, "15");
    let card = mesh_card(&MeshHealth::Good, true, true, counts(Some(59)));
    assert_eq!(card.detail[1].key, "status.connected_secs");
    let card = mesh_card(&MeshHealth::Good, false, false, counts(Some(59)));
    assert_eq!(card.label.key, "status.starting_up");
    assert_eq!(card.detail[0].key, "status.establishing_mesh");
    let card = mesh_card(&MeshHealth::Offline("cable".to_string()), true, true, counts(None));
    assert_eq!(card.label.key, "status.offline_reason");
    assert_eq!(card.label.args[0].1, "cable");
    assert_eq!(card.badge, StatusBadgeKind::Danger);
}

#[test]
fn typing_a_ticket_forgets_what_was_wrong() {
    let mut input = HomeInput {
        join_ticket_input: "a".to_string(),
        chat_list_error: "bad ticket".to_string(),
    };
    input.update_home(HomeMessage::JoinTicketInputChanged("ab".to_string()));
    assert_eq!(input.join_ticket_input, "ab");
    assert!(input.chat_list_error.is_empty());
}

#[test]
fn the_newest_events_are_kept() {
    let dep = dependency(&facts(MeshHealth::Good, vec![false, true], 0));
    assert!(dep.relay_connected);
    assert!(!dep.has_peer_connections);
    let ages: Vec<u64> = dep.mesh_events.iter().map(|e| e.age_secs).collect();
    assert_eq!(ages, vec![5, 4, 3, 2]);
    assert_eq!(dep.mesh_events[0].message, "event 5");
}

#[test]
fn the_hero_greets() {
    let dep = dependency(&facts(MeshHealth::Good, vec![], 1));
    let hero = view_photo_home_hero(&dep);
    assert_eq!(hero.greeting, "Good morning, Ada");
    assert_eq!(hero.status, "Connected");
    assert_eq!(hero.friends, "3");
    let dep = dependency(&facts(MeshHealth::Good, vec![], 0));
    assert_eq!(view_photo_home_hero(&dep).status, "Connecting");
}

#[test]
fn the_network_card_is_ready_where_anything_is_reached() {
    let dep = dependency(&facts(MeshHealth::Offline("x".to_string()), vec![true], 0));
    let card = network_card(&dep);
    assert_eq!(card.variant, HomeConnectionVariant::Ready);
    assert_eq!(card.headline.key, "home.ready");
    assert!(!card.show_retry);
    assert!(card.animate_mesh);
    assert_eq!(card.encryption_status, "status.idle");
    let dep = dependency(&facts(MeshHealth::Offline("x".to_string()), vec![false], 0));
    let card = network_card(&dep);
    assert_eq!(card.variant, HomeConnectionVariant::Offline);
    assert_eq!(card.headline.args[0].1, "x");
    assert_eq!(card.health_label, "status.offline");
    assert!(card.show_retry && card.show_details && card.dimmed_mesh);
    let dep = dependency(&facts(MeshHealth::Good, vec![], 0));
    let card = network_card(&dep);
    assert_eq!(card.headline.key, "home.starting");
    assert_eq!(card.headline.args[0].1, "\u{2819}");
    let dep = dependency(&facts(MeshHealth::Good, vec![], 2));
    let card = network_card(&dep);
    assert_eq!(card.encryption_status, "status.quic_encrypted");
    assert_eq!(card.health_label, "status.healthy");
}

fn layout(mode: HomeLayoutMode, order: Vec<HomeSection>, hidden: Vec<HomeSection>) -> HomeLayout {
    HomeLayout { section_order: order, hidden_sections: hidden, mode }
}

#[test]
fn sections_stand_where_the_layout_puts_them() {
    let order = vec![
        HomeSection::Tunnels,
        HomeSection::Hero,
        HomeSection::MeshHealth,
        HomeSection::QuickActions,
        HomeSection::PeopleActivity,
    ];
    let grid = layout(HomeLayoutMode::Grid, order.clone(), vec![]);
    match arrange(&grid, 2, false) {
        Arrangement::Wide { hero, primary, rail } => {
            assert!(hero);
            assert_eq!(primary, vec![HomeSection::QuickActions, HomeSection::MeshHealth]);
            assert_eq!(rail, vec![HomeSection::Tunnels, HomeSection::PeopleActivity]);
        }
        other => panic!("unexpected {other:?}"),
    }
    match arrange(&grid, 2, true) {
        Arrangement::Column(sections) => assert_eq!(
            sections,
            vec![
                HomeSection::Hero,
                HomeSection::MeshHealth,
                HomeSection::QuickActions,
                HomeSection::Tunnels,
                HomeSection::PeopleActivity,
            ]
        ),
        other => panic!("unexpected {other:?}"),
    }
    let list = layout(HomeLayoutMode::List, order.clone(), vec![HomeSection::Hero]);
    match arrange(&list, 2, false) {
        Arrangement::Column(sections) => {
            assert_eq!(sections.len(), 4);
            assert_eq!(sections[0], HomeSection::Tunnels);
        }
        other => panic!("unexpected {other:?}"),
    }
    let row = layout(HomeLayoutMode::Row, order, vec![]);
    assert!(matches!(arrange(&row, 1, true), Arrangement::Row(s) if s.len() == 5));
}

#[test]
fn each_visible_section_stands_once() {
    let twice = layout(
        HomeLayoutMode::List,
        vec![HomeSection::Hero, HomeSection::Tunnels, HomeSection::Hero],
        vec![],
    );
    match arrange(&twice, 1, false) {
        Arrangement::Column(s) => assert_eq!(s, vec![HomeSection::Hero, HomeSection::Tunnels]),
        other => panic!("unexpected {other:?}"),
    }
    let hidden = layout(
        HomeLayoutMode::Grid,
        vec![HomeSection::Hero, HomeSection::MeshHealth, HomeSection::Tunnels],
        vec![HomeSection::Hero],
    );
    match arrange(&hidden, 2, false) {
        Arrangement::Wide { hero, primary, rail } => {
            assert!(!hero);
            assert_eq!(primary, vec![HomeSection::MeshHealth]);
            assert_eq!(rail, vec![HomeSection::Tunnels]);
        }
        other => panic!("unexpected {other:?}"),
    }
}

#[test]
fn the_home_screen_is_put_together() {
    let dep = dependency(&facts(MeshHealth::Degraded("slow".to_string()), vec![true], 1));
    let screen = view_chat_list_content(&dep, &HomeLayout::default(), 2, false);
    assert_eq!(screen.hero.status, "Connected");
    assert_eq!(screen.network.variant, HomeConnectionVariant::Ready);
    assert_eq!(screen.mesh.label.key, "status.degraded_reason");
    assert_eq!(screen.mesh.health_label, "status.degraded");
    assert_eq!(screen.network.health_label, "status.degraded");
    assert_eq!(screen.mesh.header_color, ColorRole::Warning);
}

#[test]
fn offline_friends_are_left_out() {
    let data = people_activity_card_data(&friends(), &NotificationsState::new(), FRAME);
    assert_eq!(data.online.total_friends, 3);
    assert_eq!(data.online.frame, FRAME);
    let names: Vec<&str> = data.online.rows.iter().map(|r| r.name.as_str()).collect();
    assert_eq!(names, vec!["Ada", "Cid"]);
    let card = view_online_peers_card(&data.online);
    assert_eq!(card.count, 2);
    assert_eq!(card.count_total, 3);
    assert_eq!(card.visible, 2);
    assert!(matches!(card.body, CardBody::Rows { shown: 2 }));
    let nobody = people_activity_card_data(&vec![], &NotificationsState::new(), FRAME);
    assert!(matches!(
        view_online_peers_card(&nobody.online).body,
        CardBody::Empty(p) if p.key == "home.online_peers_empty"
    ));
}

#[test]
fn only_the_newest_activity_is_shown() {
    let mut state = NotificationsState::new();
    for i in 0..20 {
        state.push_activity(&format!("event {i}"), ActivityKind::Message);
    }
    let data = people_activity_card_data(&friends(), &state, FRAME);
    assert_eq!(data.activity.total, 20);
    assert_eq!(data.activity.rows.len(), ACTIVITY_ROWS);
    assert_eq!(data.activity.rows[0].description, "event 19");
    let recent = view_recent_activity_card(&data.activity);
    assert_eq!(recent.count, 20);
    assert_eq!(recent.rows.len(), ACTIVITY_ROWS);
    assert_eq!(recent.rows[1].description, "event 18");
    assert_eq!(recent.rows[0].icon, HomeIcon::Chat);
    assert_eq!(recent.rows[0].description_limit, 75);
    let card = view_people_activity_card(&data, true);
    assert_eq!(card.activity.unwrap().len(), PEOPLE_ACTIVITY_MAX);
    assert!(view_people_activity_card(&data, false).activity.is_none());
    assert_eq!(
        activity_visual(ActivityKind::Online),
        (HomeIcon::Online, ColorRole::AccentGreen)
    );
    assert_eq!(activity_visual(ActivityKind::FileShared), (HomeIcon::Files, ColorRole::Muted));
}

fn tunnel(id: u8, expires_at_ms: u64) -> TunnelDefinition {
    TunnelDefinition {
        id: TunnelId([id; 32]),
        status: TunnelStatus::Active,
        expires_at_ms,
        host: IpAddress::V4([127, 0, 0, 1]),
        host_text: "127.0.0.1".to_string(),
        port: 3000,
        peer_name: if id == 1 { Some("Ada".to_string()) } else { None },
        peer_short_key: "abcd".to_string(),
    }
}

#[test]
fn tunnels_have_the_best_name_known() {
    let mut state = TunnelsState::new();
    state.put_shared(
        TunnelId([3; 32]),
        SharedTunnelState { service_name: "Web".to_string(), is_http: true },
    );
    let data = tunnels_card_data(
        &vec![tunnel(1, 10), tunnel(2, 5), tunnel(3, 10)],
        &state,
        9,
        5,
        FRAME,
    );
    assert_eq!(data.tick, 9);
    let names: Vec<&str> = data.rows.iter().map(|r| r.name.as_str()).collect();
    assert_eq!(names, vec!["Ada", "abcd", "Web"]);
    let card = view_tunnels_card(&data);
    assert_eq!(card.count, 3);
    assert_eq!(card.rows[0].endpoint, "localhost:3000");
    assert_eq!(card.rows[0].status, "Available");
    assert_eq!(card.rows[1].status, "Expired");
    assert_eq!(card.rows[1].color, ColorRole::Muted);
    assert_eq!(card.header_action.key, "common.view_all");
    assert_eq!(tunnels_header_action_label(0).key, "tunnels.create_action");
    assert_eq!(mesh_events_empty_message().key, "home.mesh_events_empty");
}

#[test]
fn the_home_screen_depends_on_all_it_shows() {
    let facts = facts(MeshHealth::Good, vec![true], 1);
    let dep = dependency(&facts);
    assert!(dep.dark_mode);
    assert_eq!((dep.theme_revision, dep.layout_revision), (3, 4));
    assert_eq!((dep.window_width_bits, dep.window_height_bits), (128_000, 72_000));
    assert_eq!(dep.home_menu_item_opacity_bits, 7);
    assert_eq!(dep.network_map_points.len(), 1);
    assert_eq!(f64::from_bits(dep.network_map_points[0].latitude_bits), 59.9);
    assert_eq!(dep.network_map_points[0].node_id, PeerKey([9; 32]));
    assert_eq!(
        (dep.network_nodes_online, dep.network_countries, dep.network_networks),
        (6, 2, 3)
    );
    assert_eq!(dep.local_network_info.addresses, "1.2.3.4");
    assert_eq!(dep.local_network_info.location, "Oslo");
    assert_eq!(dep, dependency(&facts));
    assert_eq!(dep, dep.clone());
    assert_eq!(hash_of(&dep), hash_of(&dependency(&facts)));
    let people = people_activity_card_data(&friends(), &NotificationsState::new(), FRAME);
    let tunnels = tunnels_card_data(&vec![], &TunnelsState::new(), 0, 0, FRAME);
    let moved = ScreenFacts { layout_revision: 5, ..screen() };
    assert_ne!(dep, chat_list_dependency(&facts, moved, people, tunnels));
}

fn hash_of(dep: &ChatListDependency) -> u64 {
    let mut hasher = DefaultHasher::new();
    dep.hash(&mut hasher);
    hasher.finish()
}
