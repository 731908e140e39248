use boru::home::NetworkCard;
use boru::mesh_status::{HomeConnectionVariant, HomeIcon};
use boru::palette::{rgb8, ColorTokens};
use boru::phrase::Phrase;
use boru::status_card::{
    accent_color, actions_row, layout_tier, mesh_place, mesh_rendered, network_stat_key, network_stat_text,
    network_stats_footer, stable_node_seed, status_heading, status_indicator, variant_accent,
    view_status_card, view_status_card_with_location, CardAction, CardBreakpoints, CardCounts,
    LocationInfo, MeshPlace, StatusAccent, StatusHeading, Tier,
};

const STATUS_CARD_MEDIUM_CONTENT: f32 = 760.0;
const STATUS_CARD_NARROW_CONTENT: f32 = 560.0;
const STATUS_CARD_MESH_HIDE_CONTENT: f32 = 520.0;

fn sizing() -> CardBreakpoints<f32> {
    CardBreakpoints {
        medium_content: STATUS_CARD_MEDIUM_CONTENT,
        narrow_content: STATUS_CARD_NARROW_CONTENT,
        mesh_hide_content: STATUS_CARD_MESH_HIDE_CONTENT,
    }
}

#[test]
fn network_stats_use_singular_only_for_one() {
    assert_eq!(network_stat_key(1, "one", "many"), "one");
    assert_eq!(network_stat_key(0, "one", "many"), "many");
    assert_eq!(network_stat_key(2, "one", "many"), "many");
}

#[test]
fn layout_tiers_are_ordered_and_consistent() {
    let s = sizing();
    assert!(
        STATUS_CARD_MEDIUM_CONTENT > STATUS_CARD_NARROW_CONTENT,
        "the full arrangement must begin above the medium one"
    );
    assert!(
        STATUS_CARD_NARROW_CONTENT > STATUS_CARD_MESH_HIDE_CONTENT,
        "the medium arrangement must begin above the width that hides the mesh"
    );
    assert_eq!(layout_tier(STATUS_CARD_MEDIUM_CONTENT, s), Tier::Full);
    assert_eq!(
        layout_tier(STATUS_CARD_MEDIUM_CONTENT - 1.0, s),
        Tier::Medium
    );
    assert_eq!(layout_tier(STATUS_CARD_NARROW_CONTENT, s), Tier::Medium);
    assert_eq!(
        layout_tier(STATUS_CARD_NARROW_CONTENT - 1.0, s),
        Tier::Narrow
    );
    assert_eq!(layout_tier(STATUS_CARD_MESH_HIDE_CONTENT, s), Tier::Narrow);
    assert_eq!(layout_tier(0.0, s), Tier::Narrow);
    assert_eq!(layout_tier(679.0, s), Tier::Medium);
}

#[test]
fn card_tier_uses_card_width_not_window_width() {
    let window_content = 919.0;
    assert!(window_content >= STATUS_CARD_MEDIUM_CONTENT);
    let card_width = (window_content - 24.0) * 2.0 / 3.0;
    assert!(card_width < STATUS_CARD_MEDIUM_CONTENT);
    assert!(card_width >= STATUS_CARD_NARROW_CONTENT);
    assert_eq!(layout_tier(card_width, sizing()), Tier::Medium);
}

#[test]
fn mesh_is_hidden_below_mesh_hide_width() {
    assert!(STATUS_CARD_MESH_HIDE_CONTENT < STATUS_CARD_NARROW_CONTENT);
    let s = sizing();
    assert!(mesh_rendered(STATUS_CARD_MESH_HIDE_CONTENT, s));
    assert!(mesh_rendered(STATUS_CARD_NARROW_CONTENT, s));
    assert!(mesh_rendered(STATUS_CARD_MEDIUM_CONTENT, s));
    assert!(!mesh_rendered(STATUS_CARD_MESH_HIDE_CONTENT - 1.0, s));
    assert!(!mesh_rendered(500.0, s));
    assert!(!mesh_rendered(400.0, s));
    assert!(!mesh_rendered(0.0, s));
    assert_eq!(layout_tier(STATUS_CARD_MESH_HIDE_CONTENT, s), Tier::Narrow);
}

#[test]
fn the_mesh_stands_where_there_is_room() {
    let s = CardBreakpoints { medium_content: 760, narrow_content: 560, mesh_hide_content: 520 };
    assert_eq!(mesh_place(519, s), MeshPlace::Hidden);
    assert_eq!(mesh_place(520, s), MeshPlace::Below);
    assert_eq!(mesh_place(560, s), MeshPlace::Beside);
    assert_eq!(mesh_place(760, s), MeshPlace::Beside);
}

#[test]
fn variant_accent_covers_every_state() {
    for variant in [
        HomeConnectionVariant::Starting,
        HomeConnectionVariant::Connecting,
        HomeConnectionVariant::Ready,
        HomeConnectionVariant::Degraded,
        HomeConnectionVariant::Offline,
    ] {
        let accent = accent_color(variant_accent(variant));
        assert!(accent.alpha > 900, "{variant:?} accent must be opaque");
    }
    assert_eq!(
        accent_color(variant_accent(HomeConnectionVariant::Ready)),
        ColorTokens::light().status_connected,
        "connected state must use the status green"
    );
    assert_eq!(accent_color(StatusAccent::Danger), rgb8(0xE5, 0x5B, 0x5B));
    assert_eq!(accent_color(StatusAccent::Warning), rgb8(0xE8, 0xA3, 0x3D));
}

#[test]
fn every_state_has_its_colour_and_its_sign() {
    assert_eq!(variant_accent(HomeConnectionVariant::Ready), StatusAccent::Connected);
    assert_eq!(variant_accent(HomeConnectionVariant::Starting), StatusAccent::Warning);
    assert_eq!(variant_accent(HomeConnectionVariant::Connecting), StatusAccent::Warning);
    assert_eq!(variant_accent(HomeConnectionVariant::Degraded), StatusAccent::Warning);
    assert_eq!(variant_accent(HomeConnectionVariant::Offline), StatusAccent::Danger);
    let ready = status_indicator(HomeConnectionVariant::Ready);
    assert_eq!(ready.glyph, HomeIcon::Check);
    assert!(ready.strong_glow && !ready.glyph_in_accent);
    assert_eq!(status_indicator(HomeConnectionVariant::Degraded).glyph, HomeIcon::Mesh);
    assert_eq!(status_indicator(HomeConnectionVariant::Offline).glyph, HomeIcon::Offline);
    assert_eq!(status_indicator(HomeConnectionVariant::Starting).glyph, HomeIcon::Retry);
}

#[test]
fn only_the_ready_heading_has_two_tones() {
    let heading = status_heading(HomeConnectionVariant::Ready, Phrase::new("home.ready"));
    assert!(matches!(
        heading,
        StatusHeading::TwoTone { brand, tail }
            if brand == "Boru\u{a0}" && tail.key == "status.connected_tail"
    ));
    let heading = status_heading(HomeConnectionVariant::Offline, Phrase::new("home.offline"));
    assert!(matches!(heading, StatusHeading::Plain(p) if p.key == "home.offline"));
}

#[test]
fn the_footer_sums_up() {
    let counts = CardCounts { direct: 1, relayed: 20, neighbors: 0 };
    assert_eq!(
        network_stats_footer("healthy", counts, "encrypted"),
        vec!["Mesh healthy", "1 direct", "20 relayed", "encrypted", "0 neighbours"]
    );
    let stat = network_stat_text(2, "status.peer", "status.peers");
    assert_eq!(stat.key, "status.peers");
    assert_eq!(stat.args, vec![("count".to_string(), "2".to_string())]);
    assert_eq!(
        actions_row(true, true),
        vec![CardAction::RetryConnection, CardAction::OpenConnectionDetails]
    );
    assert!(actions_row(false, false).is_empty());
}

fn offline() -> NetworkCard {
    NetworkCard {
        variant: HomeConnectionVariant::Offline,
        headline: Phrase::new("home.offline"),
        show_retry: true,
        show_details: false,
        animate_mesh: false,
        dimmed_mesh: true,
        health_label: "status.offline",
        encryption_status: "status.idle",
    }
}

#[test]
fn the_credit_stands_below_a_location() {
    let counts = CardCounts { direct: 0, relayed: 0, neighbors: 0 };
    let info = LocationInfo { addresses: "1.2.3.4".to_string(), location: "Oslo".to_string() };
    let card = view_status_card_with_location(
        offline(),
        "offline",
        "idle",
        counts,
        Some(info),
        600.0,
        sizing(),
    );
    assert_eq!(card.location_lines, vec!["1.2.3.4", "Oslo"]);
    assert!(card.show_credit);
    assert_eq!(card.tier, Tier::Medium);
    assert_eq!(card.accent, StatusAccent::Danger);
    assert_eq!(card.actions, vec![CardAction::RetryConnection]);
    let card = view_status_card(offline(), "offline", "idle", counts, 400.0, sizing());
    assert!(card.location_lines.is_empty());
    assert!(!card.show_credit);
    assert_eq!(card.mesh, MeshPlace::Hidden);
}

#[test]
fn a_seed_depends_on_the_key_alone() {
    assert_eq!(stable_node_seed(&[0; 32]), 0x0c82_1078_4d8a_f5a5);
    let mut key = [0u8; 32];
    for i in 0..32u8 {
        key[i as usize] = i;
    }
    assert_eq!(stable_node_seed(&key), 0xe6cb_594c_1a14_8ac5);
}
