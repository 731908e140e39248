use std::collections::BTreeMap;

use boru::layout::{
    composer_buttons, effective_columns, holds_section, ButtonPlacement, ByTier, CardOrientation,
    ComponentLayout, ComponentPlacement, ComposerButton, HeightTier, HomeLayout, HomeLayoutMode,
    HomeSection, MetadataAlignment, ResponsiveLayout, SidebarLayout, SidebarMode, SidebarSection,
    ThumbnailPosition, ViewportTier, ViewportTiers,
};
use boru::layout_overrides::{
    ByTierOverrides, ChatOverrides, ComponentOverrides, ComponentPlacementOverrides,
    ComposerOverrides, HomeOverrides, LayoutOverrides, ResponsiveOverrides, ScreenOverrides,
};

fn responsive() -> ResponsiveLayout<f32> {
    ResponsiveLayout {
        viewport_ref_width: 1280.0,
        viewport_ref_height: 800.0,
        viewport_min_width: 1024.0,
        viewport_min_height: 720.0,
        viewport_lg_width: 1440.0,
        viewport_lg_height: 900.0,
        viewport_xl_width: 1920.0,
        viewport_xl_height: 1080.0,
        content_max_width: 720.0,
        home_illustration_full_content: 720.0,
        home_illustration_hide_content: 520.0,
        home_compact_header_content: 560.0,
        narrow_max_width: 360.0,
        ultra_wide_min_width: 1440.0,
        home_columns: ByTier { narrow: 1, desktop: 2, ultra_wide: 2 },
        home_padding_x: ByTier { narrow: 28.0, desktop: 28.0, ultra_wide: 32.0 },
        dialog_body_max_height: ByTier { narrow: 360.0, desktop: 480.0, ultra_wide: 520.0 },
        short_window_body_reserve: 220.0,
        short_window_body_min_height: 180.0,
        short_window_spacing_scale: 0.7,
    }
}

fn body_cap(layout: &ResponsiveLayout<f32>, width: f32, height: f32) -> f32 {
    layout.dialog_body_max_height_for_size(
        width,
        height,
        height - layout.short_window_body_reserve,
    )
}

#[test]
fn width_tier_boundaries_are_explicit_and_configured() {
    let layout = responsive();

    assert_eq!(layout.tier_for_width(359.99), ViewportTier::Narrow);
    assert_eq!(layout.tier_for_width(360.0), ViewportTier::Desktop);
    assert_eq!(layout.tier_for_width(1439.99), ViewportTier::Desktop);
    assert_eq!(layout.tier_for_width(1440.0), ViewportTier::UltraWide);

    let custom = ResponsiveLayout {
        narrow_max_width: 480.0,
        ultra_wide_min_width: 1600.0,
        ..layout
    };
    assert_eq!(custom.tier_for_width(479.99), ViewportTier::Narrow);
    assert_eq!(custom.tier_for_width(480.0), ViewportTier::Desktop);
    assert_eq!(custom.tier_for_width(1599.99), ViewportTier::Desktop);
    assert_eq!(custom.tier_for_width(1600.0), ViewportTier::UltraWide);
}

#[test]
fn per_tier_values_follow_the_resolved_width_tier() {
    let layout = responsive();

    assert_eq!(layout.home_columns_for_width(359.99), 1);
    assert_eq!(layout.home_columns_for_width(360.0), 2);
    assert_eq!(layout.home_columns_for_width(1440.0), 2);
    assert_eq!(layout.home_padding_x_for_width(359.99), 28.0);
    assert_eq!(layout.home_padding_x_for_width(1440.0), 32.0);
    assert_eq!(layout.dialog_body_max_height_for_width(1440.0), 520.0);
}

#[test]
fn short_window_rules_cover_1024x720() {
    let layout = responsive();

    assert_eq!(
        layout.tiers_for_size(1024.0, 720.0).width,
        ViewportTier::Desktop
    );
    assert_eq!(layout.tier_for_height(720.0), HeightTier::Short);
    assert_eq!(layout.vertical_spacing_scale(720.0, 1.0), 0.7);
    assert_eq!(body_cap(&layout, 1024.0, 720.0), 480.0);
}

#[test]
fn short_window_rules_cover_1280x720() {
    let layout = responsive();

    assert_eq!(
        layout.tiers_for_size(1280.0, 720.0).width,
        ViewportTier::Desktop
    );
    assert_eq!(layout.tier_for_height(720.0), HeightTier::Short);
    assert!(body_cap(&layout, 1280.0, 720.0) <= 480.0);
    assert!(layout.vertical_spacing_scale(720.0, 1.0) < 1.0);
}

#[test]
fn normal_height_preserves_default_spacing_and_dialog_caps() {
    let layout = responsive();

    assert_eq!(layout.tier_for_height(800.0), HeightTier::Normal);
    assert_eq!(layout.vertical_spacing_scale(800.0, 1.0), 1.0);
    assert_eq!(body_cap(&layout, 1280.0, 800.0), 480.0);
}

#[test]
fn home_visible_sections_filters_hidden_and_keeps_order() {
    let h = HomeLayout::default();
    assert_eq!(
        h.visible_sections(),
        vec![
            HomeSection::Hero,
            HomeSection::QuickActions,
            HomeSection::MeshHealth,
            HomeSection::PeopleActivity,
            HomeSection::Tunnels,
        ]
    );
    let hidden = HomeLayout {
        section_order: vec![
            HomeSection::Tunnels,
            HomeSection::Hero,
            HomeSection::PeopleActivity,
            HomeSection::MeshHealth,
        ],
        hidden_sections: vec![HomeSection::Hero],
        ..Default::default()
    };
    assert_eq!(
        hidden.visible_sections(),
        vec![
            HomeSection::Tunnels,
            HomeSection::PeopleActivity,
            HomeSection::MeshHealth,
        ]
    );
}

#[test]
fn component_placement_each_leaf_is_configurable() {
    let base = ComponentPlacement::default();
    assert_eq!(base.thumbnail_position, ThumbnailPosition::Left);
    assert_eq!(base.metadata_alignment, MetadataAlignment::Start);
    assert_eq!(base.button_placement, ButtonPlacement::Below);
    assert_eq!(base.card_orientation, CardOrientation::Horizontal);

    let video_card = ComponentPlacement {
        thumbnail_position: ThumbnailPosition::Right,
        metadata_alignment: MetadataAlignment::Center,
        button_placement: ButtonPlacement::Overlay,
        card_orientation: CardOrientation::Vertical,
        ..base
    };
    assert_eq!(video_card.thumbnail_position, ThumbnailPosition::Right);
    assert_eq!(video_card.metadata_alignment, MetadataAlignment::Center);
    assert_eq!(video_card.button_placement, ButtonPlacement::Overlay);
    assert_eq!(video_card.card_orientation, CardOrientation::Vertical);

    let shared_by_me = ComponentPlacement {
        thumbnail_position: ThumbnailPosition::Hidden,
        metadata_alignment: MetadataAlignment::End,
        button_placement: ButtonPlacement::Below,
        card_orientation: CardOrientation::Vertical,
        ..base
    };
    assert_eq!(shared_by_me.thumbnail_position, ThumbnailPosition::Hidden);
    assert_eq!(shared_by_me.metadata_alignment, MetadataAlignment::End);
    assert_eq!(shared_by_me.button_placement, ButtonPlacement::Below);
    assert_eq!(shared_by_me.card_orientation, CardOrientation::Vertical);
}

#[test]
fn component_placements_are_independent_per_component() {
    let mut layout = ComponentLayout::default();
    layout.video_card.thumbnail_position = ThumbnailPosition::Bottom;
    layout.video_card.card_orientation = CardOrientation::Vertical;

    assert_eq!(
        layout.video_card.thumbnail_position,
        ThumbnailPosition::Bottom
    );
    assert_eq!(
        layout.shared_by_me.thumbnail_position,
        ThumbnailPosition::Left,
        "shared-by-me thumbnail is untouched by the video-card override"
    );
    assert_eq!(layout.shared_by_me.button_placement, ButtonPlacement::Side);
    assert_eq!(
        layout.shared_by_me.card_orientation,
        CardOrientation::Horizontal
    );
    assert_eq!(layout.thumbnail_position, ThumbnailPosition::Left);
    assert_eq!(layout.card_orientation, CardOrientation::Horizontal);
}

#[test]
fn responsive_tier_resolution_matches_gallery_vocabulary() {
    let r = responsive();
    assert_eq!(r.tier_for_width(0.0), ViewportTier::Narrow);
    assert_eq!(r.tier_for_width(359.0), ViewportTier::Narrow);
    assert_eq!(r.tier_for_width(360.0), ViewportTier::Desktop);
    assert_eq!(r.tier_for_width(960.0), ViewportTier::Desktop);
    assert_eq!(r.tier_for_width(1280.0), ViewportTier::Desktop);
    assert_eq!(r.tier_for_width(1439.0), ViewportTier::Desktop);
    assert_eq!(r.tier_for_width(1440.0), ViewportTier::UltraWide);
    assert_eq!(r.tier_for_width(1920.0), ViewportTier::UltraWide);
}

#[test]
fn responsive_dialog_body_height_uses_shared_tiers() {
    let r = responsive();
    assert_eq!(r.dialog_body_max_height_for_width(320.0), 360.0);
    assert_eq!(r.dialog_body_max_height_for_width(1024.0), 480.0);
    assert_eq!(r.dialog_body_max_height_for_width(1920.0), 520.0);
}

#[test]
fn responsive_home_columns_switch_by_tier() {
    let r = responsive();
    assert_eq!(r.home_columns_for_width(320.0), 1);
    assert_eq!(r.home_columns_for_width(359.0), 1);
    assert_eq!(r.home_columns_for_width(360.0), 2);
    assert_eq!(r.home_columns_for_width(960.0), 2);
    assert_eq!(r.home_columns_for_width(1280.0), 2);
    assert_eq!(r.home_columns_for_width(1440.0), 2);
    assert_eq!(r.home_columns_for_width(1920.0), 2);
}

#[test]
fn responsive_tier_thresholds_and_tables_are_overridable() {
    let r = ResponsiveLayout {
        narrow_max_width: 500.0,
        ultra_wide_min_width: 1000.0,
        home_columns: ByTier {
            narrow: 1,
            desktop: 3,
            ultra_wide: 4,
        },
        ..responsive()
    };
    assert_eq!(r.tier_for_width(499.0), ViewportTier::Narrow);
    assert_eq!(r.tier_for_width(500.0), ViewportTier::Desktop);
    assert_eq!(r.tier_for_width(999.0), ViewportTier::Desktop);
    assert_eq!(r.tier_for_width(1000.0), ViewportTier::UltraWide);
    assert_eq!(r.home_columns_for_width(300.0), 1);
    assert_eq!(r.home_columns_for_width(600.0), 3);
    assert_eq!(r.home_columns_for_width(1200.0), 4);
}

#[test]
fn responsive_overrides_expose_new_tier_fields() {
    let o = ResponsiveOverrides {
        narrow_max_width: Some(400.0),
        ultra_wide_min_width: Some(1500.0),
        home_columns: Some(ByTierOverrides {
            narrow: Some(1),
            desktop: Some(2),
            ultra_wide: Some(3),
        }),
        ..Default::default()
    };
    assert_eq!(o.narrow_max_width, Some(400.0));
    assert_eq!(o.ultra_wide_min_width, Some(1500.0));
    assert_eq!(o.home_columns.as_ref().unwrap().ultra_wide, Some(3));
    assert!(
        o.home_padding_x.is_none(),
        "missing tier group falls back to defaults"
    );
}

#[test]
fn overrides_default_to_no_changes() {
    let o = LayoutOverrides::<f32>::default();
    assert!(o.home.is_none());
    assert!(o.sidebar.is_none());
    assert!(o.chat.is_none());
    assert!(o.component.is_none());
    assert!(o.tables.is_none());
    assert!(o.responsive.is_none());
    assert!(o.screens.is_empty(), "no per-screen overrides by default");
}

#[test]
fn overrides_missing_leaf_falls_back_to_default() {
    let o = HomeOverrides::<f32> {
        max_content_width: Some(1200.0),
        ..Default::default()
    };
    assert_eq!(o.max_content_width, Some(1200.0));
    assert!(o.section_order.is_none());
    assert!(o.grid.is_none());
    assert!(o.gaps.is_none());
    assert!(o.card_sizing.is_none());

    let root = LayoutOverrides::<f32> {
        home: Some(o),
        ..Default::default()
    };
    assert!(root.sidebar.is_none());
    assert!(root.chat.is_none());
    assert_eq!(root.home.as_ref().unwrap().max_content_width, Some(1200.0));
}

#[test]
fn overrides_enums_and_vectors_are_typed() {
    let home = HomeOverrides::<f32> {
        section_order: Some(vec![HomeSection::Tunnels, HomeSection::Hero]),
        hidden_sections: Some(vec![HomeSection::QuickActions]),
        mode: Some(HomeLayoutMode::List),
        ..Default::default()
    };
    assert_eq!(home.mode, Some(HomeLayoutMode::List));
    assert_eq!(
        home.section_order,
        Some(vec![HomeSection::Tunnels, HomeSection::Hero])
    );

    let comp = ComponentOverrides::<f32> {
        thumbnail_position: Some(ThumbnailPosition::Top),
        metadata_alignment: Some(MetadataAlignment::Center),
        button_placement: Some(ButtonPlacement::Overlay),
        card_orientation: Some(CardOrientation::Vertical),
        ..Default::default()
    };
    assert_eq!(comp.thumbnail_position, Some(ThumbnailPosition::Top));
    assert_eq!(comp.card_orientation, Some(CardOrientation::Vertical));

    let comp = ComponentOverrides::<f32> {
        video_card: Some(ComponentPlacementOverrides {
            thumbnail_position: Some(ThumbnailPosition::Bottom),
            ..Default::default()
        }),
        shared_by_me: Some(ComponentPlacementOverrides {
            button_placement: Some(ButtonPlacement::Overlay),
            ..Default::default()
        }),
        ..comp
    };
    assert_eq!(
        comp.video_card
            .as_ref()
            .expect("video_card overrides present")
            .thumbnail_position,
        Some(ThumbnailPosition::Bottom)
    );
    assert!(
        comp.video_card
            .as_ref()
            .expect("video_card overrides present")
            .metadata_alignment
            .is_none(),
        "unset leaf falls back to the component default"
    );
    assert_eq!(
        comp.shared_by_me
            .as_ref()
            .expect("shared_by_me overrides present")
            .button_placement,
        Some(ButtonPlacement::Overlay)
    );
    assert!(comp
        .shared_by_me
        .as_ref()
        .expect("shared_by_me overrides present")
        .card_orientation
        .is_none());

    let composer = ComposerOverrides::<f32> {
        button_order: Some(vec![ComposerButton::Send, ComposerButton::Gif]),
        ..Default::default()
    };
    assert_eq!(
        composer.button_order,
        Some(vec![ComposerButton::Send, ComposerButton::Gif])
    );

    let chat = ChatOverrides {
        composer: Some(composer),
        ..Default::default()
    };
    assert_eq!(
        chat.composer.as_ref().unwrap().button_order,
        Some(vec![ComposerButton::Send, ComposerButton::Gif])
    );
    assert!(
        chat.emoji_picker.is_none(),
        "missing nested group falls back"
    );
}

#[test]
fn overrides_screens_map_supports_per_screen_keys() {
    let mut screens = BTreeMap::new();
    screens.insert(
        "settings".to_string(),
        ScreenOverrides {
            columns: Some(2),
            ..Default::default()
        },
    );
    let root = LayoutOverrides::<f32> {
        screens,
        ..Default::default()
    };
    let s = root
        .screens
        .get("settings")
        .expect("settings screen present");
    assert_eq!(s.columns, Some(2));
    assert!(s.section_order.is_none());
    assert!(
        root.screens.get("files").is_none(),
        "missing screen key falls back"
    );
}

#[test]
fn responsive_tier_boundaries_are_stable() {
    let responsive = responsive();

    assert_eq!(
        responsive.tier_for_width(responsive.narrow_max_width - 0.01),
        ViewportTier::Narrow
    );
    assert_eq!(
        responsive.tier_for_width(responsive.narrow_max_width),
        ViewportTier::Desktop
    );
    assert_eq!(
        responsive.tier_for_width(responsive.ultra_wide_min_width - 0.01),
        ViewportTier::Desktop
    );
    assert_eq!(
        responsive.tier_for_width(responsive.ultra_wide_min_width),
        ViewportTier::UltraWide
    );
}

#[test]
fn responsive_height_tier_boundaries_are_stable() {
    let responsive = responsive();

    assert_eq!(
        responsive.tier_for_height(responsive.viewport_ref_height - 0.01),
        HeightTier::Short
    );
    assert_eq!(
        responsive.tier_for_height(responsive.viewport_ref_height),
        HeightTier::Normal
    );
    assert_eq!(
        responsive.tier_for_height(responsive.viewport_lg_height - 0.01),
        HeightTier::Normal
    );
    assert_eq!(
        responsive.tier_for_height(responsive.viewport_lg_height),
        HeightTier::Tall
    );

    assert_eq!(
        responsive.tiers_for_size(1440.0, 720.0),
        ViewportTiers {
            width: ViewportTier::UltraWide,
            height: HeightTier::Short,
        }
    );
}

#[test]
fn sidebar_resolves_compact_mode_and_model_widths() {
    let sidebar = SidebarLayout::default();
    let responsive = responsive();
    assert_eq!(
        sidebar.mode_for_width(responsive.viewport_min_width, &responsive),
        SidebarMode::Compact
    );
    assert_eq!(
        sidebar.mode_for_width(responsive.viewport_ref_width, &responsive),
        SidebarMode::Full
    );
}

#[test]
fn sidebar_shows_every_section_in_its_usual_order() {
    let sidebar = SidebarLayout::default();
    assert_eq!(
        sidebar.section_order,
        vec![
            SidebarSection::Chats,
            SidebarSection::Groups,
            SidebarSection::Friends,
            SidebarSection::Discover,
            SidebarSection::PublicRooms,
            SidebarSection::Requests,
        ]
    );
    assert!(sidebar.hidden_sections.is_empty());
}

#[test]
fn buttons_stand_in_their_usual_order() {
    assert_eq!(ComponentLayout::default().video_card, ComponentPlacement::video_card_default());
    assert_eq!(
        ComponentLayout::default().shared_by_me,
        ComponentPlacement::shared_by_me_default()
    );
    assert_eq!(
        composer_buttons(),
        vec![
            ComposerButton::Attach,
            ComposerButton::Folder,
            ComposerButton::Gif,
            ComposerButton::Emoji,
            ComposerButton::Send,
        ]
    );
}

#[test]
fn a_short_window_gives_a_dialog_less_room() {
    let whole: ResponsiveLayout<u32> = ResponsiveLayout {
        viewport_ref_width: 1280,
        viewport_ref_height: 800,
        viewport_min_width: 1024,
        viewport_min_height: 720,
        viewport_lg_width: 1440,
        viewport_lg_height: 900,
        viewport_xl_width: 1920,
        viewport_xl_height: 1080,
        content_max_width: 720,
        home_illustration_full_content: 720,
        home_illustration_hide_content: 520,
        home_compact_header_content: 560,
        narrow_max_width: 360,
        ultra_wide_min_width: 1440,
        home_columns: ByTier { narrow: 1, desktop: 2, ultra_wide: 2 },
        home_padding_x: ByTier { narrow: 28, desktop: 28, ultra_wide: 32 },
        dialog_body_max_height: ByTier { narrow: 360, desktop: 480, ultra_wide: 520 },
        short_window_body_reserve: 220,
        short_window_body_min_height: 180,
        short_window_spacing_scale: 70,
    };
    assert_eq!(whole.dialog_body_max_height_for_size(1280, 600, 380), 380);
    assert_eq!(whole.dialog_body_max_height_for_size(1280, 300, 80), 180);
    assert_eq!(whole.dialog_body_max_height_for_size(1280, 800, 80), 480);
    assert_eq!(whole.vertical_spacing_scale(799, 100), 70);
    assert!(whole.home_compact_headers(559));
    assert!(!whole.home_compact_headers(560));
}

#[test]
fn columns_are_stacked_where_they_do_not_fit() {
    assert_eq!(effective_columns(HomeLayoutMode::Row, 2, false), 2);
    assert_eq!(effective_columns(HomeLayoutMode::Grid, 3, false), 3);
    assert_eq!(effective_columns(HomeLayoutMode::Row, 2, true), 1);
    assert_eq!(effective_columns(HomeLayoutMode::List, 2, false), 1);
    assert_eq!(effective_columns(HomeLayoutMode::Column, 2, false), 1);
    assert_eq!(effective_columns(HomeLayoutMode::Row, 0, false), 1);
    assert!(holds_section(&vec![HomeSection::Hero], HomeSection::Hero));
    assert!(!holds_section(&vec![HomeSection::Hero], HomeSection::Tunnels));
}

#[test]
fn component_defaults_reproduce_current_appearance() {
    let c = ComponentLayout::default();
    assert_eq!(c.thumbnail_position, ThumbnailPosition::Left);
    assert_eq!(c.metadata_alignment, MetadataAlignment::Start);
    assert_eq!(c.button_placement, ButtonPlacement::Below);
    assert_eq!(c.card_orientation, CardOrientation::Horizontal);
    assert_eq!(
        c.video_card.thumbnail_position,
        ThumbnailPosition::Top,
        "video card renders its media frame above the metadata today"
    );
    assert_eq!(c.video_card.metadata_alignment, MetadataAlignment::Start);
    assert_eq!(c.video_card.button_placement, ButtonPlacement::Below);
    assert_eq!(
        c.video_card.card_orientation,
        CardOrientation::Vertical,
        "video card is a vertical stack today"
    );
    assert_eq!(
        c.shared_by_me.thumbnail_position,
        ThumbnailPosition::Left,
        "shared-by-me rows render the icon to the left of the name today"
    );
    assert_eq!(c.shared_by_me.metadata_alignment, MetadataAlignment::Start);
    assert_eq!(
        c.shared_by_me.button_placement,
        ButtonPlacement::Side,
        "shared-by-me rows keep the action menu on the side today"
    );
    assert_eq!(
        c.shared_by_me.card_orientation,
        CardOrientation::Horizontal,
        "shared-by-me rows are horizontal rows today"
    );
}

#[test]
fn responsive_home_padding_reproduces_previous_two_tier_rule() {
    let r = responsive();
    for width in [0.0, 360.0, 960.0, 1280.0, 1439.0] {
        let expected = if width >= r.viewport_lg_width { 32.0 } else { 28.0 };
        assert_eq!(
            r.home_padding_x_for_width(width),
            expected,
            "padding mismatch at width {width}"
        );
    }
    assert_eq!(r.home_padding_x_for_width(1440.0), 32.0);
    assert_eq!(r.home_padding_x_for_width(1920.0), 32.0);
}

#[test]
fn a_length_that_compares_with_nothing_bounds_nothing() {
    let usual = responsive();
    let nan = f32::NAN;
    assert_eq!(body_cap(&usual, 1024.0, 720.0), 480.0);
    assert_eq!(usual.dialog_body_max_height_for_size(1280.0, 600.0, nan), 180.0);
    let floorless = ResponsiveLayout { short_window_body_min_height: nan, ..usual };
    assert_eq!(floorless.dialog_body_max_height_for_size(1280.0, 600.0, 380.0), 380.0);
    let capless = ResponsiveLayout {
        dialog_body_max_height: ByTier { narrow: nan, desktop: nan, ultra_wide: nan },
        ..usual
    };
    assert_eq!(capless.dialog_body_max_height_for_size(1280.0, 600.0, 380.0), 380.0);
    assert!(capless.dialog_body_max_height_for_size(1280.0, 900.0, 380.0).is_nan());
}
