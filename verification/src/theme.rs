//! The theme: colours, texts and motion.

use vstd::prelude::*;

use crate::palette;
use crate::palette::ColorTokens;
use crate::typography;
use crate::typography::{FontFamilyKey, FontWeightKey, TypeRole, TypographyTokens};

verus! {

/// What moves, and how long.
#[derive(Debug, Clone, Copy, PartialEq, Eq, Structural)]
pub struct MotionTokens {
    /// The pictures in which a section of the sidebar appears.
    pub sidebar_fade_frames: u32,
}

impl Default for MotionTokens {
    fn default() -> (motion: Self)
        ensures
            motion.sidebar_fade_frames == 5,
    {
        MotionTokens { sidebar_fade_frames: 5 }
    }
}

/// The theme.
#[derive(Debug, Clone, Copy, PartialEq, Eq, Structural)]
pub struct BoruTheme {
    pub colors: ColorTokens,
    pub typography: TypographyTokens,
    pub motion: MotionTokens,
}

impl BoruTheme {
    /// The theme with these colours, and all else as it is at first.
    pub open spec fn is_usual(&self, colors: ColorTokens) -> bool {
        *self == (BoruTheme {
            colors,
            typography: typography::usual_typography(),
            motion: MotionTokens { sidebar_fade_frames: 5 },
        })
    }

    /// The light theme.
    pub fn light() -> (theme: Self)
        ensures
            theme.is_usual(palette::light_palette()),
    {
        Self::default()
    }

    /// The dark theme: other colours, and nothing else.
    pub fn dark() -> (theme: Self)
        ensures
            theme.is_usual(palette::dark_palette()),
    {
        BoruTheme { colors: ColorTokens::dark(), ..Self::default() }
    }

    /// The theme for the dark mode, or for any other.
    pub fn for_theme(dark: bool) -> (theme: Self)
        ensures
            theme.is_usual(
                if dark {
                    palette::dark_palette()
                } else {
                    palette::light_palette()
                },
            ),
    {
        if dark {
            Self::dark()
        } else {
            Self::light()
        }
    }

    /// The family and the weight of a text's font.
    pub fn type_font(&self, role: TypeRole) -> (font: (FontFamilyKey, FontWeightKey))
        ensures
            font == (self.typography.spec_family_for(role), self.typography.spec_weight_for(role)),
    {
        (self.typography.family_for(role), self.typography.weight_for(role))
    }

    /// The size of a text, in hundredths of a pixel.
    pub fn type_size(&self, role: TypeRole) -> (size: u32)
        ensures
            size == self.typography.spec_size_for(role),
    {
        self.typography.size_for(role)
    }

    /// The line height of a text, in hundredths of its size.
    pub fn type_line_height(&self, role: TypeRole) -> (height: u32)
        ensures
            height == self.typography.spec_line_height_for(role),
    {
        self.typography.line_height_for(role)
    }
}

impl Default for BoruTheme {
    fn default() -> (theme: Self)
        ensures
            theme.is_usual(palette::light_palette()),
    {
        BoruTheme {
            colors: ColorTokens::default(),
            typography: TypographyTokens::default(),
            motion: MotionTokens::default(),
        }
    }
}

/// The dark theme is the light one with other colours.
pub proof fn dark_differs_in_colours_only(light: BoruTheme, dark: BoruTheme)
    requires
        light.is_usual(palette::light_palette()),
        dark.is_usual(palette::dark_palette()),
    ensures
        dark == (BoruTheme { colors: dark.colors, ..light }),
        light.colors != dark.colors,
{
    assert(light.colors.canvas != dark.colors.canvas);
}

/// The card about the network has the same colours in both themes.
pub proof fn status_card_is_the_same_in_both_themes()
    ensures
        ({
            let light = palette::light_palette();
            let dark = palette::dark_palette();
            &&& light.status_card_bg_top == dark.status_card_bg_top
            &&& light.status_card_bg_mid == dark.status_card_bg_mid
            &&& light.status_card_bg_bottom == dark.status_card_bg_bottom
            &&& light.status_card_border == dark.status_card_border
            &&& light.status_connected == dark.status_connected
            &&& light.status_primary_text == dark.status_primary_text
            &&& light.status_secondary_text == dark.status_secondary_text
            &&& light.status_network_line == dark.status_network_line
            &&& light.status_network_node == dark.status_network_node
            &&& light.status_warning == dark.status_warning
            &&& light.status_danger == dark.status_danger
        }),
{
}

/// The theme for the dark mode is the dark one, and for any other the light one; both set their
/// texts as usual and fade the sidebar in five frames.
pub proof fn themes_go_by_the_mode(dark: bool, theme: BoruTheme, role: TypeRole)
    requires
        call_ensures(BoruTheme::for_theme, (dark,), theme),
    ensures
        dark ==> theme.colors == palette::dark_palette(),
        !dark ==> theme.colors == palette::light_palette(),
        theme.motion.sidebar_fade_frames == 5,
        theme.typography.spec_size_for(role) == role.spec_size_px(),
        theme.typography.spec_family_for(role) == role.spec_family_key(),
        theme.typography.spec_weight_for(role) == role.spec_weight_key(),
        theme.typography.spec_line_height_for(role) == role.spec_default_line_height(),
{
    typography::roles_are_set_as_usual(role);
}

/// A text's font, size and line height are those that the theme's tokens give its role.
pub proof fn texts_are_set_by_the_tokens(
    theme: BoruTheme,
    role: TypeRole,
    font: (FontFamilyKey, FontWeightKey),
    size: u32,
    height: u32,
)
    requires
        call_ensures(BoruTheme::type_font, (&theme, role), font),
        call_ensures(BoruTheme::type_size, (&theme, role), size),
        call_ensures(BoruTheme::type_line_height, (&theme, role), height),
    ensures
        font.0 == theme.typography.spec_family_for(role),
        font.1 == theme.typography.spec_weight_for(role),
        size == theme.typography.spec_size_for(role),
        height == theme.typography.spec_line_height_for(role),
{
}

} // verus!
