use boru::palette::{rgb, rgb8, rgba, rgba8, Channels, ColorTokens, Rgba};
use boru::theme::BoruTheme;
use boru::typography::{FontFamilyKey, FontWeightKey, TypeRole, TypographyTokens};

const ROLES: [TypeRole; 15] = [
    TypeRole::DisplayHeading,
    TypeRole::PageTitle,
    TypeRole::SectionTitle,
    TypeRole::CardTitle,
    TypeRole::Body,
    TypeRole::BodyEmphasised,
    TypeRole::ButtonLabel,
    TypeRole::SupportingText,
    TypeRole::Metadata,
    TypeRole::ChatMessage,
    TypeRole::ChatSender,
    TypeRole::ChatMetadata,
    TypeRole::ComposerText,
    TypeRole::TechnicalValue,
    TypeRole::BrandWordmark,
];

fn bytes(color: Rgba) -> (u8, u8, u8) {
    match color.channels {
        Channels::Bytes(r, g, b) => (r, g, b),
        Channels::Thousandths(..) => panic!("not given in bytes"),
    }
}

#[test]
fn semantic_colour_tokens_map_to_backing_fields() {
    for c in [ColorTokens::light(), ColorTokens::dark()] {
        let _ = (c.surface, c.surface_elevated, c.surface_hover);
        let _ = (c.text_primary, c.text_secondary);
        let _ = (c.success, c.warning, c.danger);
        assert_eq!(c.background(), c.canvas);
        assert_eq!(c.border(), c.border_muted);
        assert_eq!(c.accent(), c.primary);
        assert_eq!(c.accent_hover(), c.primary_hover);
    }
}

#[test]
fn reference_accent_and_derived_states_are_stable() {
    let c = ColorTokens::light();
    assert_eq!(c.accent(), rgb8(142, 192, 124));
    assert!(bytes(c.accent_hover()).0 < bytes(c.accent()).0);
    assert!(bytes(c.primary_pressed).1 < bytes(c.primary_hover).1);
    assert_eq!(c.primary_soft.alpha, 1000);
}

#[test]
fn soft_colours_are_tints() {
    let c = ColorTokens::light();
    assert_eq!(c.destructive_soft(), rgba8(0xC8, 0x4E, 0x4E, 80));
    assert_eq!(c.success_soft(), rgba8(0x1A, 0x7F, 0x48, 80));
    assert_eq!(c.warning_soft(), rgba8(0x70, 0x45, 0x05, 80));
    assert_eq!(ColorTokens::dark().destructive_soft(), rgba(900, 250, 250, 120));
}

#[test]
fn backdrops_have_their_exact_values() {
    let light = BoruTheme::default().colors;
    let dark = BoruTheme::dark().colors;
    assert_eq!(light.settings_heading_text, rgb(150, 150, 150));
    assert_eq!(dark.settings_heading_text, rgb(900, 900, 900));
    assert_eq!(light.expanded_video_backdrop, rgba(0, 0, 0, 820));
    assert_eq!(dark.expanded_video_backdrop, rgba(0, 0, 0, 820));
    assert_eq!(light.lightbox_backdrop, rgba(0, 0, 0, 900));
    assert_eq!(dark.lightbox_backdrop, rgba(0, 0, 0, 900));
    assert_eq!(light.chat_overlay_backdrop, rgba(0, 0, 0, 250));
    assert_eq!(light.chat_search_backdrop, rgba(0, 0, 0, 150));
    assert_eq!(light.panel_shadow, rgba(0, 0, 0, 300));
    assert_eq!(dark.chat_overlay_backdrop, rgba(0, 0, 0, 450));
    assert_eq!(dark.chat_search_backdrop, rgba(0, 0, 0, 350));
    assert_eq!(light.status_connected, dark.status_connected);
    assert_eq!(light.status_card_bg_top, dark.status_card_bg_top);
}

#[test]
fn typography_weights_match_type_role() {
    let t = TypographyTokens::default();
    let cases: &[(TypeRole, FontWeightKey)] = &[
        (TypeRole::DisplayHeading, FontWeightKey::Bold),
        (TypeRole::PageTitle, FontWeightKey::Bold),
        (TypeRole::SectionTitle, FontWeightKey::Semibold),
        (TypeRole::CardTitle, FontWeightKey::Semibold),
        (TypeRole::Body, FontWeightKey::Normal),
        (TypeRole::BodyEmphasised, FontWeightKey::Semibold),
        (TypeRole::ButtonLabel, FontWeightKey::Semibold),
        (TypeRole::SupportingText, FontWeightKey::Normal),
        (TypeRole::Metadata, FontWeightKey::Normal),
        (TypeRole::ChatMessage, FontWeightKey::Normal),
        (TypeRole::ChatSender, FontWeightKey::Semibold),
        (TypeRole::ChatMetadata, FontWeightKey::Normal),
        (TypeRole::ComposerText, FontWeightKey::Normal),
        (TypeRole::TechnicalValue, FontWeightKey::Normal),
        (TypeRole::BrandWordmark, FontWeightKey::ExtraBold),
    ];
    for (role, expected) in cases {
        assert_eq!(t.weight_for(*role), *expected, "{role:?} weight");
    }
}

#[test]
fn typography_line_heights_match_type_role() {
    let t = TypographyTokens::default();
    for role in ROLES {
        assert_eq!(
            t.line_height_for(role),
            role.default_line_height(),
            "{role:?} line height"
        );
    }
    assert_eq!(t.line_height_for(TypeRole::DisplayHeading), 120);
    assert_eq!(t.line_height_for(TypeRole::ChatMessage), 145);
    assert_eq!(t.line_height_for(TypeRole::Body), 130);
}

#[test]
fn typography_matches_fonts() {
    let t = TypographyTokens::default();
    for role in ROLES {
        assert_eq!(t.size_for(role), role.size_px(), "{role:?} size");
    }
    assert_eq!(t.home_subtitle, 1600);
    assert_eq!(t.dialog_title, 2600);
    assert_eq!(t.dialog_subtitle, 1400);
    assert_eq!(t.display_family, TypeRole::DisplayHeading.family_key());
    assert_eq!(t.ui_family, TypeRole::Body.family_key());
    assert_eq!(t.chat_family, TypeRole::ChatMessage.family_key());
    assert_eq!(t.technical_family, TypeRole::TechnicalValue.family_key());
    assert_eq!(t.brand_family, TypeRole::BrandWordmark.family_key());
    assert_eq!(t.sidebar_name, 1500);
    assert_eq!(t.section_label, 1100);
    assert_eq!(t.badge, 1000);
    assert_eq!(t.call_name_active, 2600);
}

#[test]
fn type_font_resolves_from_theme_family_and_weight() {
    let theme = BoruTheme::default();
    assert_eq!(
        theme.type_font(TypeRole::ChatMessage),
        (FontFamilyKey::Figtree, FontWeightKey::Normal)
    );
    assert_eq!(
        theme.type_font(TypeRole::DisplayHeading),
        (FontFamilyKey::InterTight, FontWeightKey::Bold)
    );
    assert_eq!(
        theme.type_font(TypeRole::TechnicalValue),
        (FontFamilyKey::JetBrainsMono, FontWeightKey::Normal)
    );
    let mut remapped = theme;
    remapped.typography.chat_family = FontFamilyKey::PublicSans;
    remapped.typography.chat_message_weight = FontWeightKey::Semibold;
    assert_eq!(
        remapped.type_font(TypeRole::ChatMessage),
        (FontFamilyKey::PublicSans, FontWeightKey::Semibold)
    );
    assert_eq!(theme.type_size(TypeRole::Body), 1500);
    assert_eq!(theme.type_line_height(TypeRole::Body), 130);
}

#[test]
fn for_theme_selects_mode() {
    assert_eq!(BoruTheme::for_theme(false), BoruTheme::light());
    assert_eq!(BoruTheme::for_theme(true), BoruTheme::dark());
    assert_eq!(BoruTheme::default(), BoruTheme::light());
    let light = BoruTheme::light();
    let dark = BoruTheme::dark();
    assert_ne!(light.colors, dark.colors);
    assert_eq!(light.typography, dark.typography);
    assert_eq!(light.motion, dark.motion);
    assert_eq!(light.motion.sidebar_fade_frames, 5);
}

fn assert_copy<T: Copy>(v: T) -> T {
    v
}

#[test]
fn theme_is_copy_clone() {
    let theme = BoruTheme::default();
    let again = assert_copy(theme);
    let c = assert_copy(theme.colors);
    let t = assert_copy(theme.typography);
    let m = assert_copy(theme.motion);
    assert_eq!(again, theme);
    assert_eq!(again.clone(), theme);
    assert_eq!(c.primary, theme.colors.primary);
    assert_eq!(t, theme.typography);
    assert_eq!(m.sidebar_fade_frames, theme.motion.sidebar_fade_frames);
}
