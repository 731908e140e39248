//! The colours of the light and of the dark theme.

use vstd::prelude::*;

verus! {

/// The parts of red, green and blue in a colour.
#[derive(Debug, Clone, Copy, PartialEq, Eq, Structural, Hash)]
pub enum Channels {
    /// Each out of 255.
    Bytes(u8, u8, u8),
    /// Each out of 1000.
    Thousandths(u16, u16, u16),
}

/// A colour.
#[derive(Debug, Clone, Copy, PartialEq, Eq, Structural, Hash)]
pub struct Rgba {
    pub channels: Channels,
    /// How opaque it is, out of 1000.
    pub alpha: u16,
}

/// An opaque colour, by bytes.
pub open spec fn spec_rgb8(r: u8, g: u8, b: u8) -> Rgba {
    Rgba { channels: Channels::Bytes(r, g, b), alpha: 1000 }
}

/// An opaque colour, by bytes.
#[verifier::when_used_as_spec(spec_rgb8)]
pub fn rgb8(r: u8, g: u8, b: u8) -> (color: Rgba)
    ensures
        color == spec_rgb8(r, g, b),
{
    Rgba { channels: Channels::Bytes(r, g, b), alpha: 1000 }
}

/// A colour, by bytes.
pub open spec fn spec_rgba8(r: u8, g: u8, b: u8, alpha: u16) -> Rgba {
    Rgba { channels: Channels::Bytes(r, g, b), alpha }
}

/// A colour, by bytes.
#[verifier::when_used_as_spec(spec_rgba8)]
pub fn rgba8(r: u8, g: u8, b: u8, alpha: u16) -> (color: Rgba)
    ensures
        color == spec_rgba8(r, g, b, alpha),
{
    Rgba { channels: Channels::Bytes(r, g, b), alpha }
}

/// An opaque colour, by thousandths.
pub open spec fn spec_rgb(r: u16, g: u16, b: u16) -> Rgba {
    Rgba { channels: Channels::Thousandths(r, g, b), alpha: 1000 }
}

/// An opaque colour, by thousandths.
#[verifier::when_used_as_spec(spec_rgb)]
pub fn rgb(r: u16, g: u16, b: u16) -> (color: Rgba)
    ensures
        color == spec_rgb(r, g, b),
{
    Rgba { channels: Channels::Thousandths(r, g, b), alpha: 1000 }
}

/// A colour, by thousandths.
pub open spec fn spec_rgba(r: u16, g: u16, b: u16, alpha: u16) -> Rgba {
    Rgba { channels: Channels::Thousandths(r, g, b), alpha }
}

/// A colour, by thousandths.
#[verifier::when_used_as_spec(spec_rgba)]
pub fn rgba(r: u16, g: u16, b: u16, alpha: u16) -> (color: Rgba)
    ensures
        color == spec_rgba(r, g, b, alpha),
{
    Rgba { channels: Channels::Thousandths(r, g, b), alpha }
}

/// The colours of a theme.
#[derive(Debug, Clone, Copy, PartialEq, Eq, Structural)]
pub struct ColorTokens {
    /// The main background.
    pub canvas: Rgba,
    /// The background of the sidebar.
    pub sidebar: Rgba,
    /// The background of cards and dialogs.
    pub surface: Rgba,
    /// The background of what floats above the rest.
    pub surface_elevated: Rgba,
    /// The background of what is selected.
    pub surface_selected: Rgba,
    /// The background below the pointer.
    pub surface_hover: Rgba,
    /// The background of what is pressed.
    pub surface_pressed: Rgba,
    /// The background of secondary panels.
    pub surface_secondary: Rgba,
    /// The background of fields.
    pub input_bg: Rgba,
    /// A subtle border.
    pub border_muted: Rgba,
    /// A border that stands out.
    pub border_strong: Rgba,
    /// Text.
    pub text_primary: Rgba,
    /// Supporting text.
    pub text_secondary: Rgba,
    /// Muted text.
    pub text_muted: Rgba,
    /// The label of the user's own messages.
    pub text_local_label: Rgba,
    /// The user's own messages.
    pub text_local_body: Rgba,
    /// The label of others' messages.
    pub text_remote_label: Rgba,
    /// Others' messages.
    pub text_remote_body: Rgba,
    /// The accent.
    pub primary: Rgba,
    /// The accent below the pointer.
    pub primary_hover: Rgba,
    /// The accent where it is pressed.
    pub primary_pressed: Rgba,
    /// A background tinted with the accent.
    pub primary_soft: Rgba,
    /// Success.
    pub success: Rgba,
    /// Danger.
    pub danger: Rgba,
    /// A warning.
    pub warning: Rgba,
    /// The ring round what has the focus.
    pub focus: Rgba,
    /// How opaque the soft tints are, in thousandths.
    pub soft_tint_alpha: u16,
    pub dialog_backdrop: Rgba,
    pub incoming_call_backdrop: Rgba,
    pub chat_overlay_backdrop: Rgba,
    pub chat_search_backdrop: Rgba,
    pub panel_shadow: Rgba,
    pub dialog_panel_bg: Rgba,
    pub dialog_panel_border: Rgba,
    pub media_frame_bg: Rgba,
    pub media_frame_border: Rgba,
    pub media_frame_overlay: Rgba,
    pub on_media_text: Rgba,
    pub glyph_disabled: Rgba,
    pub glyph_muted: Rgba,
    pub glyph_muted_dark: Rgba,
    pub avatar_fallback: Rgba,
    pub tag_text: Rgba,
    pub tag_bg: Rgba,
    pub tag_bg_pressed: Rgba,
    pub download_completed: Rgba,
    pub download_temporary: Rgba,
    pub download_terminal: Rgba,
    pub download_cancelled: Rgba,
    pub request_pending: Rgba,
    pub request_accepted: Rgba,
    pub request_declined: Rgba,
    pub settings_success: Rgba,
    pub settings_danger: Rgba,
    pub settings_danger_strong: Rgba,
    pub settings_heading_text: Rgba,
    pub expanded_video_backdrop: Rgba,
    pub lightbox_backdrop: Rgba,
    pub status_card_bg_top: Rgba,
    pub status_card_bg_mid: Rgba,
    pub status_card_bg_bottom: Rgba,
    pub status_card_border: Rgba,
    pub status_connected: Rgba,
    pub status_primary_text: Rgba,
    pub status_secondary_text: Rgba,
    pub status_network_line: Rgba,
    pub status_network_node: Rgba,
    pub status_warning: Rgba,
    pub status_danger: Rgba,
}

/// The colours of the light theme.
pub open spec fn light_palette() -> ColorTokens {
    ColorTokens {
        canvas: rgb8(0xF7, 0xF9, 0xF8),
        sidebar: rgb8(0xFC, 0xFD, 0xFC),
        surface: rgb8(0xFF, 0xFF, 0xFF),
        surface_elevated: rgb8(0xFF, 0xFF, 0xFF),
        surface_selected: rgb8(0xEC, 0xEF, 0xED),
        surface_hover: rgb8(0xEF, 0xF3, 0xF1),
        surface_pressed: rgb8(0xE4, 0xE8, 0xE5),
        surface_secondary: rgb8(0xEE, 0xF1, 0xEE),
        input_bg: rgb8(0xF0, 0xF0, 0xF4),
        border_muted: rgb8(0xE8, 0xF0, 0xEB),
        border_strong: rgb8(0xC8, 0xD7, 0xCE),
        text_primary: rgb8(0x17, 0x21, 0x1B),
        text_secondary: rgb8(0x5F, 0x6F, 0x66),
        text_muted: rgb8(0x62, 0x6E, 0x68),
        text_local_label: rgb(0, 450, 0),
        text_local_body: rgb(0, 350, 0),
        text_remote_label: rgb(0, 330, 660),
        text_remote_body: rgb8(0x17, 0x21, 0x1B),
        primary: rgb8(0x8E, 0xC0, 0x7C),
        primary_hover: rgb8(0x80, 0xAD, 0x70),
        primary_pressed: rgb8(0x72, 0x9A, 0x63),
        primary_soft: rgb8(0xEA, 0xF5, 0xE8),
        success: rgb8(0x1A, 0x7F, 0x48),
        danger: rgb8(0xC8, 0x4E, 0x4E),
        warning: rgb8(0x70, 0x45, 0x05),
        focus: rgb8(0x2B, 0x9B, 0x67),
        soft_tint_alpha: 80,
        dialog_backdrop: rgba(0, 0, 0, 350),
        incoming_call_backdrop: rgba(0, 0, 0, 720),
        chat_overlay_backdrop: rgba(0, 0, 0, 250),
        chat_search_backdrop: rgba(0, 0, 0, 150),
        panel_shadow: rgba(0, 0, 0, 300),
        dialog_panel_bg: rgb(120, 130, 170),
        dialog_panel_border: rgb(350, 380, 450),
        media_frame_bg: rgb(55, 60, 70),
        media_frame_border: rgba(1000, 1000, 1000, 100),
        media_frame_overlay: rgba(0, 0, 0, 620),
        on_media_text: rgb(780, 800, 820),
        glyph_disabled: rgb(500, 500, 500),
        glyph_muted: rgb(450, 450, 450),
        glyph_muted_dark: rgb(600, 600, 600),
        avatar_fallback: rgb(600, 600, 600),
        tag_text: rgb(400, 400, 400),
        tag_bg: rgba(300, 300, 300, 60),
        tag_bg_pressed: rgba(300, 300, 300, 120),
        download_completed: rgb(200, 700, 200),
        download_temporary: rgb(780, 580, 160),
        download_terminal: rgb(800, 220, 220),
        download_cancelled: rgb(550, 550, 550),
        request_pending: rgb(700, 600, 0),
        request_accepted: rgb(200, 700, 200),
        request_declined: rgb(800, 200, 200),
        settings_success: rgb(150, 550, 200),
        settings_danger: rgb(800, 200, 200),
        settings_danger_strong: rgb(900, 300, 300),
        settings_heading_text: rgb(150, 150, 150),
        expanded_video_backdrop: rgba(0, 0, 0, 820),
        lightbox_backdrop: rgba(0, 0, 0, 900),
        status_card_bg_top: rgb8(0x10, 0x20, 0x1C),
        status_card_bg_mid: rgb8(0x09, 0x17, 0x14),
        status_card_bg_bottom: rgb8(0x06, 0x10, 0x0E),
        status_card_border: rgba8(0x4D, 0xE5, 0xA3, 220),
        status_connected: rgb8(0x4D, 0xE5, 0xA3),
        status_primary_text: rgb8(0xF3, 0xF7, 0xF5),
        status_secondary_text: rgb8(0x9F, 0xB3, 0xAA),
        status_network_line: rgb8(0x4D, 0xE5, 0xA3),
        status_network_node: rgb8(0x4D, 0xE5, 0xA3),
        status_warning: rgb8(0xE8, 0xA3, 0x3D),
        status_danger: rgb8(0xE5, 0x5B, 0x5B),
    }
}

/// The colours of the dark theme.
pub open spec fn dark_palette() -> ColorTokens {
    ColorTokens {
        canvas: rgb(100, 100, 180),
        sidebar: rgb(160, 160, 240),
        surface: rgb(160, 160, 240),
        surface_elevated: rgb(160, 160, 240),
        surface_selected: rgb(160, 230, 340),
        surface_hover: rgb(200, 200, 300),
        surface_pressed: rgb(180, 180, 260),
        surface_secondary: rgb(130, 130, 220),
        input_bg: rgb(130, 130, 220),
        border_muted: rgb(220, 220, 320),
        border_strong: rgb(280, 280, 380),
        text_primary: rgb(800, 800, 800),
        text_secondary: rgb(600, 600, 600),
        text_muted: rgb(600, 600, 600),
        text_local_label: rgb(200, 800, 200),
        text_local_body: rgb(300, 900, 300),
        text_remote_label: rgb(400, 650, 1000),
        text_remote_body: rgb(800, 800, 800),
        primary: rgb(290, 620, 1000),
        primary_hover: rgb(360, 700, 1000),
        primary_pressed: rgb(240, 520, 860),
        primary_soft: rgba(150, 300, 150, 400),
        success: rgb(240, 860, 520),
        danger: rgb(900, 250, 250),
        warning: rgb(950, 650, 150),
        focus: rgb(400, 700, 400),
        soft_tint_alpha: 120,
        dialog_backdrop: rgba(0, 0, 0, 550),
        incoming_call_backdrop: rgba(0, 0, 0, 720),
        chat_overlay_backdrop: rgba(0, 0, 0, 450),
        chat_search_backdrop: rgba(0, 0, 0, 350),
        panel_shadow: rgba(0, 0, 0, 300),
        dialog_panel_bg: rgb(120, 130, 170),
        dialog_panel_border: rgb(350, 380, 450),
        media_frame_bg: rgb(55, 60, 70),
        media_frame_border: rgba(1000, 1000, 1000, 100),
        media_frame_overlay: rgba(0, 0, 0, 620),
        on_media_text: rgb(780, 800, 820),
        glyph_disabled: rgb(500, 500, 500),
        glyph_muted: rgb(450, 450, 450),
        glyph_muted_dark: rgb(600, 600, 600),
        avatar_fallback: rgb(600, 600, 600),
        tag_text: rgb(400, 400, 400),
        tag_bg: rgba(300, 300, 300, 60),
        tag_bg_pressed: rgba(300, 300, 300, 120),
        download_completed: rgb(200, 700, 200),
        download_temporary: rgb(780, 580, 160),
        download_terminal: rgb(800, 220, 220),
        download_cancelled: rgb(550, 550, 550),
        request_pending: rgb(700, 600, 0),
        request_accepted: rgb(200, 700, 200),
        request_declined: rgb(800, 200, 200),
        settings_success: rgb(150, 550, 200),
        settings_danger: rgb(900, 300, 300),
        settings_danger_strong: rgb(600, 150, 150),
        settings_heading_text: rgb(900, 900, 900),
        expanded_video_backdrop: rgba(0, 0, 0, 820),
        lightbox_backdrop: rgba(0, 0, 0, 900),
        status_card_bg_top: rgb8(0x10, 0x20, 0x1C),
        status_card_bg_mid: rgb8(0x09, 0x17, 0x14),
        status_card_bg_bottom: rgb8(0x06, 0x10, 0x0E),
        status_card_border: rgba8(0x4D, 0xE5, 0xA3, 220),
        status_connected: rgb8(0x4D, 0xE5, 0xA3),
        status_primary_text: rgb8(0xF3, 0xF7, 0xF5),
        status_secondary_text: rgb8(0x9F, 0xB3, 0xAA),
        status_network_line: rgb8(0x4D, 0xE5, 0xA3),
        status_network_node: rgb8(0x4D, 0xE5, 0xA3),
        status_warning: rgb8(0xE8, 0xA3, 0x3D),
        status_danger: rgb8(0xE5, 0x5B, 0x5B),
    }
}

impl ColorTokens {
    /// The colours of the light theme.
    pub fn light() -> (colors: Self)
        ensures
            colors == light_palette(),
    {
        ColorTokens {
            canvas: rgb8(0xF7, 0xF9, 0xF8),
            sidebar: rgb8(0xFC, 0xFD, 0xFC),
            surface: rgb8(0xFF, 0xFF, 0xFF),
            surface_elevated: rgb8(0xFF, 0xFF, 0xFF),
            surface_selected: rgb8(0xEC, 0xEF, 0xED),
            surface_hover: rgb8(0xEF, 0xF3, 0xF1),
            surface_pressed: rgb8(0xE4, 0xE8, 0xE5),
            surface_secondary: rgb8(0xEE, 0xF1, 0xEE),
            input_bg: rgb8(0xF0, 0xF0, 0xF4),
            border_muted: rgb8(0xE8, 0xF0, 0xEB),
            border_strong: rgb8(0xC8, 0xD7, 0xCE),
            text_primary: rgb8(0x17, 0x21, 0x1B),
            text_secondary: rgb8(0x5F, 0x6F, 0x66),
            text_muted: rgb8(0x62, 0x6E, 0x68),
            text_local_label: rgb(0, 450, 0),
            text_local_body: rgb(0, 350, 0),
            text_remote_label: rgb(0, 330, 660),
            text_remote_body: rgb8(0x17, 0x21, 0x1B),
            primary: rgb8(0x8E, 0xC0, 0x7C),
            primary_hover: rgb8(0x80, 0xAD, 0x70),
            primary_pressed: rgb8(0x72, 0x9A, 0x63),
            primary_soft: rgb8(0xEA, 0xF5, 0xE8),
            success: rgb8(0x1A, 0x7F, 0x48),
            danger: rgb8(0xC8, 0x4E, 0x4E),
            warning: rgb8(0x70, 0x45, 0x05),
            focus: rgb8(0x2B, 0x9B, 0x67),
            soft_tint_alpha: 80,
            dialog_backdrop: rgba(0, 0, 0, 350),
            incoming_call_backdrop: rgba(0, 0, 0, 720),
            chat_overlay_backdrop: rgba(0, 0, 0, 250),
            chat_search_backdrop: rgba(0, 0, 0, 150),
            panel_shadow: rgba(0, 0, 0, 300),
            dialog_panel_bg: rgb(120, 130, 170),
            dialog_panel_border: rgb(350, 380, 450),
            media_frame_bg: rgb(55, 60, 70),
            media_frame_border: rgba(1000, 1000, 1000, 100),
            media_frame_overlay: rgba(0, 0, 0, 620),
            on_media_text: rgb(780, 800, 820),
            glyph_disabled: rgb(500, 500, 500),
            glyph_muted: rgb(450, 450, 450),
            glyph_muted_dark: rgb(600, 600, 600),
            avatar_fallback: rgb(600, 600, 600),
            tag_text: rgb(400, 400, 400),
            tag_bg: rgba(300, 300, 300, 60),
            tag_bg_pressed: rgba(300, 300, 300, 120),
            download_completed: rgb(200, 700, 200),
            download_temporary: rgb(780, 580, 160),
            download_terminal: rgb(800, 220, 220),
            download_cancelled: rgb(550, 550, 550),
            request_pending: rgb(700, 600, 0),
            request_accepted: rgb(200, 700, 200),
            request_declined: rgb(800, 200, 200),
            settings_success: rgb(150, 550, 200),
            settings_danger: rgb(800, 200, 200),
            settings_danger_strong: rgb(900, 300, 300),
            settings_heading_text: rgb(150, 150, 150),
            expanded_video_backdrop: rgba(0, 0, 0, 820),
            lightbox_backdrop: rgba(0, 0, 0, 900),
            status_card_bg_top: rgb8(0x10, 0x20, 0x1C),
            status_card_bg_mid: rgb8(0x09, 0x17, 0x14),
            status_card_bg_bottom: rgb8(0x06, 0x10, 0x0E),
            status_card_border: rgba8(0x4D, 0xE5, 0xA3, 220),
            status_connected: rgb8(0x4D, 0xE5, 0xA3),
            status_primary_text: rgb8(0xF3, 0xF7, 0xF5),
            status_secondary_text: rgb8(0x9F, 0xB3, 0xAA),
            status_network_line: rgb8(0x4D, 0xE5, 0xA3),
            status_network_node: rgb8(0x4D, 0xE5, 0xA3),
            status_warning: rgb8(0xE8, 0xA3, 0x3D),
            status_danger: rgb8(0xE5, 0x5B, 0x5B),
        }
    }

    /// The colours of the dark theme.
    pub fn dark() -> (colors: Self)
        ensures
            colors == dark_palette(),
    {
        ColorTokens {
            canvas: rgb(100, 100, 180),
            sidebar: rgb(160, 160, 240),
            surface: rgb(160, 160, 240),
            surface_elevated: rgb(160, 160, 240),
            surface_selected: rgb(160, 230, 340),
            surface_hover: rgb(200, 200, 300),
            surface_pressed: rgb(180, 180, 260),
            surface_secondary: rgb(130, 130, 220),
            input_bg: rgb(130, 130, 220),
            border_muted: rgb(220, 220, 320),
            border_strong: rgb(280, 280, 380),
            text_primary: rgb(800, 800, 800),
            text_secondary: rgb(600, 600, 600),
            text_muted: rgb(600, 600, 600),
            text_local_label: rgb(200, 800, 200),
            text_local_body: rgb(300, 900, 300),
            text_remote_label: rgb(400, 650, 1000),
            text_remote_body: rgb(800, 800, 800),
            primary: rgb(290, 620, 1000),
            primary_hover: rgb(360, 700, 1000),
            primary_pressed: rgb(240, 520, 860),
            primary_soft: rgba(150, 300, 150, 400),
            success: rgb(240, 860, 520),
            danger: rgb(900, 250, 250),
            warning: rgb(950, 650, 150),
            focus: rgb(400, 700, 400),
            soft_tint_alpha: 120,
            dialog_backdrop: rgba(0, 0, 0, 550),
            incoming_call_backdrop: rgba(0, 0, 0, 720),
            chat_overlay_backdrop: rgba(0, 0, 0, 450),
            chat_search_backdrop: rgba(0, 0, 0, 350),
            panel_shadow: rgba(0, 0, 0, 300),
            dialog_panel_bg: rgb(120, 130, 170),
            dialog_panel_border: rgb(350, 380, 450),
            media_frame_bg: rgb(55, 60, 70),
            media_frame_border: rgba(1000, 1000, 1000, 100),
            media_frame_overlay: rgba(0, 0, 0, 620),
            on_media_text: rgb(780, 800, 820),
            glyph_disabled: rgb(500, 500, 500),
            glyph_muted: rgb(450, 450, 450),
            glyph_muted_dark: rgb(600, 600, 600),
            avatar_fallback: rgb(600, 600, 600),
            tag_text: rgb(400, 400, 400),
            tag_bg: rgba(300, 300, 300, 60),
            tag_bg_pressed: rgba(300, 300, 300, 120),
            download_completed: rgb(200, 700, 200),
            download_temporary: rgb(780, 580, 160),
            download_terminal: rgb(800, 220, 220),
            download_cancelled: rgb(550, 550, 550),
            request_pending: rgb(700, 600, 0),
            request_accepted: rgb(200, 700, 200),
            request_declined: rgb(800, 200, 200),
            settings_success: rgb(150, 550, 200),
            settings_danger: rgb(900, 300, 300),
            settings_danger_strong: rgb(600, 150, 150),
            settings_heading_text: rgb(900, 900, 900),
            expanded_video_backdrop: rgba(0, 0, 0, 820),
            lightbox_backdrop: rgba(0, 0, 0, 900),
            status_card_bg_top: rgb8(0x10, 0x20, 0x1C),
            status_card_bg_mid: rgb8(0x09, 0x17, 0x14),
            status_card_bg_bottom: rgb8(0x06, 0x10, 0x0E),
            status_card_border: rgba8(0x4D, 0xE5, 0xA3, 220),
            status_connected: rgb8(0x4D, 0xE5, 0xA3),
            status_primary_text: rgb8(0xF3, 0xF7, 0xF5),
            status_secondary_text: rgb8(0x9F, 0xB3, 0xAA),
            status_network_line: rgb8(0x4D, 0xE5, 0xA3),
            status_network_node: rgb8(0x4D, 0xE5, 0xA3),
            status_warning: rgb8(0xE8, 0xA3, 0x3D),
            status_danger: rgb8(0xE5, 0x5B, 0x5B),
        }
    }

    /// A soft background for what destroys.
    pub fn destructive_soft(&self) -> (color: Rgba)
        ensures
            color == (Rgba { channels: self.danger.channels, alpha: self.soft_tint_alpha }),
    {
        Rgba { channels: self.danger.channels, alpha: self.soft_tint_alpha }
    }

    /// A soft background for success.
    pub fn success_soft(&self) -> (color: Rgba)
        ensures
            color == (Rgba { channels: self.success.channels, alpha: self.soft_tint_alpha }),
    {
        Rgba { channels: self.success.channels, alpha: self.soft_tint_alpha }
    }

    /// A soft background for a warning.
    pub fn warning_soft(&self) -> (color: Rgba)
        ensures
            color == (Rgba { channels: self.warning.channels, alpha: self.soft_tint_alpha }),
    {
        Rgba { channels: self.warning.channels, alpha: self.soft_tint_alpha }
    }

    /// The background of the application.
    pub fn background(&self) -> (color: Rgba)
        ensures
            color == self.canvas,
    {
        self.canvas
    }

    /// The usual border.
    pub fn border(&self) -> (color: Rgba)
        ensures
            color == self.border_muted,
    {
        self.border_muted
    }

    /// The accent.
    pub fn accent(&self) -> (color: Rgba)
        ensures
            color == self.primary,
    {
        self.primary
    }

    /// The accent below the pointer.
    pub fn accent_hover(&self) -> (color: Rgba)
        ensures
            color == self.primary_hover,
    {
        self.primary_hover
    }
}

impl Default for ColorTokens {
    fn default() -> (colors: Self)
        ensures
            colors == light_palette(),
    {
        Self::light()
    }
}

/// The colour has these bytes, written as one number, two digits each, and this opacity.
pub open spec fn is_bytes(color: Rgba, code: int, alpha: int) -> bool {
    match color.channels {
        Channels::Bytes(r, g, b) => r * 65536 + g * 256 + b == code && color.alpha == alpha,
        Channels::Thousandths(_, _, _) => false,
    }
}

/// The colour has these thousandths, written as one number, four digits each, and this opacity.
pub open spec fn is_thousandths(color: Rgba, code: int, alpha: int) -> bool {
    match color.channels {
        Channels::Thousandths(r, g, b) => r * 1_0000_0000 + g * 1_0000 + b == code && color.alpha
            == alpha,
        Channels::Bytes(_, _, _) => false,
    }
}

/// The colours of the light theme by their codes.
pub proof fn light_colours_have_these_codes()
    ensures
        is_bytes(light_palette().canvas, 0xF7F9F8, 1000),
        is_bytes(light_palette().sidebar, 0xFCFDFC, 1000),
        is_bytes(light_palette().surface, 0xFFFFFF, 1000),
        is_bytes(light_palette().surface_elevated, 0xFFFFFF, 1000),
        is_bytes(light_palette().surface_selected, 0xECEFED, 1000),
        is_bytes(light_palette().surface_hover, 0xEFF3F1, 1000),
        is_bytes(light_palette().surface_pressed, 0xE4E8E5, 1000),
        is_bytes(light_palette().surface_secondary, 0xEEF1EE, 1000),
        is_bytes(light_palette().input_bg, 0xF0F0F4, 1000),
        is_bytes(light_palette().border_muted, 0xE8F0EB, 1000),
        is_bytes(light_palette().border_strong, 0xC8D7CE, 1000),
        is_bytes(light_palette().text_primary, 0x17211B, 1000),
        is_bytes(light_palette().text_secondary, 0x5F6F66, 1000),
        is_bytes(light_palette().text_muted, 0x626E68, 1000),
        is_thousandths(light_palette().text_local_label, 450_0000, 1000),
        is_thousandths(light_palette().text_local_body, 350_0000, 1000),
        is_thousandths(light_palette().text_remote_label, 330_0660, 1000),
        is_bytes(light_palette().text_remote_body, 0x17211B, 1000),
        is_bytes(light_palette().primary, 0x8EC07C, 1000),
        is_bytes(light_palette().primary_hover, 0x80AD70, 1000),
        is_bytes(light_palette().primary_pressed, 0x729A63, 1000),
        is_bytes(light_palette().primary_soft, 0xEAF5E8, 1000),
        is_bytes(light_palette().success, 0x1A7F48, 1000),
        is_bytes(light_palette().danger, 0xC84E4E, 1000),
        is_bytes(light_palette().warning, 0x704505, 1000),
        is_bytes(light_palette().focus, 0x2B9B67, 1000),
        light_palette().soft_tint_alpha == 80,
        is_thousandths(light_palette().dialog_backdrop, 0, 350),
        is_thousandths(light_palette().incoming_call_backdrop, 0, 720),
        is_thousandths(light_palette().chat_overlay_backdrop, 0, 250),
        is_thousandths(light_palette().chat_search_backdrop, 0, 150),
        is_thousandths(light_palette().panel_shadow, 0, 300),
        is_thousandths(light_palette().dialog_panel_bg, 120_0130_0170, 1000),
        is_thousandths(light_palette().dialog_panel_border, 350_0380_0450, 1000),
        is_thousandths(light_palette().media_frame_bg, 55_0060_0070, 1000),
        is_thousandths(light_palette().media_frame_border, 1000_1000_1000, 100),
        is_thousandths(light_palette().media_frame_overlay, 0, 620),
        is_thousandths(light_palette().on_media_text, 780_0800_0820, 1000),
        is_thousandths(light_palette().glyph_disabled, 500_0500_0500, 1000),
        is_thousandths(light_palette().glyph_muted, 450_0450_0450, 1000),
        is_thousandths(light_palette().glyph_muted_dark, 600_0600_0600, 1000),
        is_thousandths(light_palette().avatar_fallback, 600_0600_0600, 1000),
        is_thousandths(light_palette().tag_text, 400_0400_0400, 1000),
        is_thousandths(light_palette().tag_bg, 300_0300_0300, 60),
        is_thousandths(light_palette().tag_bg_pressed, 300_0300_0300, 120),
        is_thousandths(light_palette().download_completed, 200_0700_0200, 1000),
        is_thousandths(light_palette().download_temporary, 780_0580_0160, 1000),
        is_thousandths(light_palette().download_terminal, 800_0220_0220, 1000),
        is_thousandths(light_palette().download_cancelled, 550_0550_0550, 1000),
        is_thousandths(light_palette().request_pending, 700_0600_0000, 1000),
        is_thousandths(light_palette().request_accepted, 200_0700_0200, 1000),
        is_thousandths(light_palette().request_declined, 800_0200_0200, 1000),
        is_thousandths(light_palette().settings_success, 150_0550_0200, 1000),
        is_thousandths(light_palette().settings_danger, 800_0200_0200, 1000),
        is_thousandths(light_palette().settings_danger_strong, 900_0300_0300, 1000),
        is_thousandths(light_palette().settings_heading_text, 150_0150_0150, 1000),
        is_thousandths(light_palette().expanded_video_backdrop, 0, 820),
        is_thousandths(light_palette().lightbox_backdrop, 0, 900),
        is_bytes(light_palette().status_card_bg_top, 0x10201C, 1000),
        is_bytes(light_palette().status_card_bg_mid, 0x091714, 1000),
        is_bytes(light_palette().status_card_bg_bottom, 0x06100E, 1000),
        is_bytes(light_palette().status_card_border, 0x4DE5A3, 220),
        is_bytes(light_palette().status_connected, 0x4DE5A3, 1000),
        is_bytes(light_palette().status_primary_text, 0xF3F7F5, 1000),
        is_bytes(light_palette().status_secondary_text, 0x9FB3AA, 1000),
        is_bytes(light_palette().status_network_line, 0x4DE5A3, 1000),
        is_bytes(light_palette().status_network_node, 0x4DE5A3, 1000),
        is_bytes(light_palette().status_warning, 0xE8A33D, 1000),
        is_bytes(light_palette().status_danger, 0xE55B5B, 1000),
{
}

/// The colours of the dark theme by their codes.
pub proof fn dark_colours_have_these_codes()
    ensures
        is_thousandths(dark_palette().canvas, 100_0100_0180, 1000),
        is_thousandths(dark_palette().sidebar, 160_0160_0240, 1000),
        is_thousandths(dark_palette().surface, 160_0160_0240, 1000),
        is_thousandths(dark_palette().surface_elevated, 160_0160_0240, 1000),
        is_thousandths(dark_palette().surface_selected, 160_0230_0340, 1000),
        is_thousandths(dark_palette().surface_hover, 200_0200_0300, 1000),
        is_thousandths(dark_palette().surface_pressed, 180_0180_0260, 1000),
        is_thousandths(dark_palette().surface_secondary, 130_0130_0220, 1000),
        is_thousandths(dark_palette().input_bg, 130_0130_0220, 1000),
        is_thousandths(dark_palette().border_muted, 220_0220_0320, 1000),
        is_thousandths(dark_palette().border_strong, 280_0280_0380, 1000),
        is_thousandths(dark_palette().text_primary, 800_0800_0800, 1000),
        is_thousandths(dark_palette().text_secondary, 600_0600_0600, 1000),
        is_thousandths(dark_palette().text_muted, 600_0600_0600, 1000),
        is_thousandths(dark_palette().text_local_label, 200_0800_0200, 1000),
        is_thousandths(dark_palette().text_local_body, 300_0900_0300, 1000),
        is_thousandths(dark_palette().text_remote_label, 400_0650_1000, 1000),
        is_thousandths(dark_palette().text_remote_body, 800_0800_0800, 1000),
        is_thousandths(dark_palette().primary, 290_0620_1000, 1000),
        is_thousandths(dark_palette().primary_hover, 360_0700_1000, 1000),
        is_thousandths(dark_palette().primary_pressed, 240_0520_0860, 1000),
        is_thousandths(dark_palette().primary_soft, 150_0300_0150, 400),
        is_thousandths(dark_palette().success, 240_0860_0520, 1000),
        is_thousandths(dark_palette().danger, 900_0250_0250, 1000),
        is_thousandths(dark_palette().warning, 950_0650_0150, 1000),
        is_thousandths(dark_palette().focus, 400_0700_0400, 1000),
        dark_palette().soft_tint_alpha == 120,
        is_thousandths(dark_palette().dialog_backdrop, 0, 550),
        is_thousandths(dark_palette().incoming_call_backdrop, 0, 720),
        is_thousandths(dark_palette().chat_overlay_backdrop, 0, 450),
        is_thousandths(dark_palette().chat_search_backdrop, 0, 350),
        is_thousandths(dark_palette().panel_shadow, 0, 300),
        is_thousandths(dark_palette().dialog_panel_bg, 120_0130_0170, 1000),
        is_thousandths(dark_palette().dialog_panel_border, 350_0380_0450, 1000),
        is_thousandths(dark_palette().media_frame_bg, 55_0060_0070, 1000),
        is_thousandths(dark_palette().media_frame_border, 1000_1000_1000, 100),
        is_thousandths(dark_palette().media_frame_overlay, 0, 620),
        is_thousandths(dark_palette().on_media_text, 780_0800_0820, 1000),
        is_thousandths(dark_palette().glyph_disabled, 500_0500_0500, 1000),
        is_thousandths(dark_palette().glyph_muted, 450_0450_0450, 1000),
        is_thousandths(dark_palette().glyph_muted_dark, 600_0600_0600, 1000),
        is_thousandths(dark_palette().avatar_fallback, 600_0600_0600, 1000),
        is_thousandths(dark_palette().tag_text, 400_0400_0400, 1000),
        is_thousandths(dark_palette().tag_bg, 300_0300_0300, 60),
        is_thousandths(dark_palette().tag_bg_pressed, 300_0300_0300, 120),
        is_thousandths(dark_palette().download_completed, 200_0700_0200, 1000),
        is_thousandths(dark_palette().download_temporary, 780_0580_0160, 1000),
        is_thousandths(dark_palette().download_terminal, 800_0220_0220, 1000),
        is_thousandths(dark_palette().download_cancelled, 550_0550_0550, 1000),
        is_thousandths(dark_palette().request_pending, 700_0600_0000, 1000),
        is_thousandths(dark_palette().request_accepted, 200_0700_0200, 1000),
        is_thousandths(dark_palette().request_declined, 800_0200_0200, 1000),
        is_thousandths(dark_palette().settings_success, 150_0550_0200, 1000),
        is_thousandths(dark_palette().settings_danger, 900_0300_0300, 1000),
        is_thousandths(dark_palette().settings_danger_strong, 600_0150_0150, 1000),
        is_thousandths(dark_palette().settings_heading_text, 900_0900_0900, 1000),
        is_thousandths(dark_palette().expanded_video_backdrop, 0, 820),
        is_thousandths(dark_palette().lightbox_backdrop, 0, 900),
        is_bytes(dark_palette().status_card_bg_top, 0x10201C, 1000),
        is_bytes(dark_palette().status_card_bg_mid, 0x091714, 1000),
        is_bytes(dark_palette().status_card_bg_bottom, 0x06100E, 1000),
        is_bytes(dark_palette().status_card_border, 0x4DE5A3, 220),
        is_bytes(dark_palette().status_connected, 0x4DE5A3, 1000),
        is_bytes(dark_palette().status_primary_text, 0xF3F7F5, 1000),
        is_bytes(dark_palette().status_secondary_text, 0x9FB3AA, 1000),
        is_bytes(dark_palette().status_network_line, 0x4DE5A3, 1000),
        is_bytes(dark_palette().status_network_node, 0x4DE5A3, 1000),
        is_bytes(dark_palette().status_warning, 0xE8A33D, 1000),
        is_bytes(dark_palette().status_danger, 0xE55B5B, 1000),
{
}

/// The parts of a colour, each out of 255000.
pub open spec fn parts(color: Rgba) -> (int, int, int) {
    match color.channels {
        Channels::Bytes(r, g, b) => (r * 1000, g * 1000, b * 1000),
        Channels::Thousandths(r, g, b) => (r * 255, g * 255, b * 255),
    }
}

/// How bright a colour is, from 0 to 765000.
pub open spec fn brightness(color: Rgba) -> int {
    parts(color).0 + parts(color).1 + parts(color).2
}

/// Text is dark on bright in the light theme and bright on dark in the dark one, and muted text
/// stands out less than text.
pub proof fn texts_can_be_read()
    ensures
        ({
            let (l, d) = (light_palette(), dark_palette());
            &&& brightness(l.canvas) - brightness(l.text_primary) > 382_500
            &&& brightness(l.surface) - brightness(l.text_primary) > 382_500
            &&& brightness(l.sidebar) - brightness(l.text_primary) > 382_500
            &&& brightness(l.text_primary) < brightness(l.text_muted) < brightness(l.canvas)
            &&& brightness(l.text_primary) < brightness(l.text_secondary) < brightness(l.canvas)
            &&& brightness(d.text_primary) - brightness(d.canvas) > 382_500
            &&& brightness(d.text_primary) - brightness(d.surface) > 382_500
            &&& brightness(d.text_primary) - brightness(d.sidebar) > 382_500
            &&& brightness(d.canvas) < brightness(d.text_muted) < brightness(d.text_primary)
            &&& brightness(d.canvas) < brightness(d.text_secondary) < brightness(d.text_primary)
        }),
{
}

/// In both themes danger is mostly red, success mostly green, and a warning has more red than
/// green and more green than blue.
pub proof fn signals_have_their_colours()
    ensures
        ({
            let red = |c: Rgba| parts(c).0 > parts(c).1 && parts(c).0 > parts(c).2;
            let green = |c: Rgba| parts(c).1 > parts(c).0 && parts(c).1 > parts(c).2;
            let amber = |c: Rgba| parts(c).0 > parts(c).1 && parts(c).1 > parts(c).2;
            let (l, d) = (light_palette(), dark_palette());
            &&& red(l.danger) && red(d.danger) && red(l.status_danger) && red(l.settings_danger)
                && red(d.settings_danger) && red(l.download_terminal) && red(l.request_declined)
            &&& green(l.success) && green(d.success) && green(l.status_connected) && green(
                l.settings_success,
            ) && green(l.download_completed) && green(l.request_accepted) && green(l.primary)
            &&& amber(l.warning) && amber(d.warning) && amber(l.status_warning) && amber(
                l.request_pending,
            )
        }),
{
}

/// What is made from parts has just these parts.
pub proof fn colours_are_made_of_their_parts(r: u8, g: u8, b: u8, x: u16, y: u16, z: u16, alpha: u16)
    ensures
        rgb8(r, g, b) == (Rgba { channels: Channels::Bytes(r, g, b), alpha: 1000 }),
        rgba8(r, g, b, alpha) == (Rgba { channels: Channels::Bytes(r, g, b), alpha }),
        rgb(x, y, z) == (Rgba { channels: Channels::Thousandths(x, y, z), alpha: 1000 }),
        rgba(x, y, z, alpha) == (Rgba { channels: Channels::Thousandths(x, y, z), alpha }),
{
}

/// The soft tints have the colour of what they stand for and the theme's opacity; the other
/// names stand for the colours that they name.
pub proof fn names_stand_for_their_colours(
    colors: ColorTokens,
    soft: (Rgba, Rgba, Rgba),
    named: (Rgba, Rgba, Rgba, Rgba),
)
    requires
        call_ensures(ColorTokens::destructive_soft, (&colors,), soft.0),
        call_ensures(ColorTokens::success_soft, (&colors,), soft.1),
        call_ensures(ColorTokens::warning_soft, (&colors,), soft.2),
        call_ensures(ColorTokens::background, (&colors,), named.0),
        call_ensures(ColorTokens::border, (&colors,), named.1),
        call_ensures(ColorTokens::accent, (&colors,), named.2),
        call_ensures(ColorTokens::accent_hover, (&colors,), named.3),
    ensures
        soft.0.channels == colors.danger.channels,
        soft.1.channels == colors.success.channels,
        soft.2.channels == colors.warning.channels,
        soft.0.alpha == colors.soft_tint_alpha && soft.1.alpha == colors.soft_tint_alpha
            && soft.2.alpha == colors.soft_tint_alpha,
        named.0 == colors.canvas && named.1 == colors.border_muted && named.2 == colors.primary
            && named.3 == colors.primary_hover,
{
}

} // verus!
