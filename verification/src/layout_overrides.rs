//! What a user can replace of the layout; where nothing is given, the layout stays as it is.
//!
//! Lengths are of a type `L` that the application chooses.

use vstd::prelude::*;

use crate::layout::{
    ButtonPlacement, CardOrientation, ComposerButton, HomeLayoutMode, HomeSection,
    MetadataAlignment, SidebarSection, ThumbnailPosition,
};

verus! {

/// What replaces the values for the classes of width.
#[derive(Debug, Clone, PartialEq)]
pub struct ByTierOverrides<T> {
    pub narrow: Option<T>,
    pub desktop: Option<T>,
    pub ultra_wide: Option<T>,
}

impl<T> Default for ByTierOverrides<T> {
    fn default() -> (overrides: Self)
        ensures
            overrides == (Self {
                narrow: None,
                desktop: None,
                ultra_wide: None,
            }),
    {
        ByTierOverrides {
            narrow: None,
            desktop: None,
            ultra_wide: None,
        }
    }
}

/// What replaces the columns of the home dashboard.
#[derive(Debug, Clone, PartialEq)]
pub struct HomeGridOverrides<L> {
    pub main_portion: Option<u16>,
    pub rail_portion: Option<u16>,
    pub column_gap: Option<L>,
    pub stack_breakpoint: Option<L>,
}

impl<L> Default for HomeGridOverrides<L> {
    fn default() -> (overrides: Self)
        ensures
            overrides == (Self {
                main_portion: None,
                rail_portion: None,
                column_gap: None,
                stack_breakpoint: None,
            }),
    {
        HomeGridOverrides {
            main_portion: None,
            rail_portion: None,
            column_gap: None,
            stack_breakpoint: None,
        }
    }
}

/// What replaces the grid of quick actions.
#[derive(Debug, Clone, PartialEq)]
pub struct QuickActionsOverrides<L> {
    pub columns_wide: Option<usize>,
    pub columns_mid: Option<usize>,
    pub columns_narrow: Option<usize>,
    pub four_col_breakpoint: Option<L>,
    pub two_col_breakpoint: Option<L>,
    pub card_padding_y: Option<L>,
    pub card_padding_x: Option<L>,
    pub gap: Option<L>,
}

impl<L> Default for QuickActionsOverrides<L> {
    fn default() -> (overrides: Self)
        ensures
            overrides == (Self {
                columns_wide: None,
                columns_mid: None,
                columns_narrow: None,
                four_col_breakpoint: None,
                two_col_breakpoint: None,
                card_padding_y: None,
                card_padding_x: None,
                gap: None,
            }),
    {
        QuickActionsOverrides {
            columns_wide: None,
            columns_mid: None,
            columns_narrow: None,
            four_col_breakpoint: None,
            two_col_breakpoint: None,
            card_padding_y: None,
            card_padding_x: None,
            gap: None,
        }
    }
}

/// What replaces the padding of the home dashboard.
#[derive(Debug, Clone, PartialEq)]
pub struct HomePaddingOverrides<L> {
    pub top: Option<L>,
    pub bottom: Option<L>,
    pub horizontal_large: Option<L>,
    pub horizontal_default: Option<L>,
}

impl<L> Default for HomePaddingOverrides<L> {
    fn default() -> (overrides: Self)
        ensures
            overrides == (Self {
                top: None,
                bottom: None,
                horizontal_large: None,
                horizontal_default: None,
            }),
    {
        HomePaddingOverrides {
            top: None,
            bottom: None,
            horizontal_large: None,
            horizontal_default: None,
        }
    }
}

/// What replaces the gaps of the home dashboard.
#[derive(Debug, Clone, PartialEq)]
pub struct HomeGapsOverrides<L> {
    pub card_gap: Option<L>,
    pub hero_gap: Option<L>,
    pub header_dashboard_gap: Option<L>,
    pub footer_gap: Option<L>,
    pub compact_header_stack_gap: Option<L>,
}

impl<L> Default for HomeGapsOverrides<L> {
    fn default() -> (overrides: Self)
        ensures
            overrides == (Self {
                card_gap: None,
                hero_gap: None,
                header_dashboard_gap: None,
                footer_gap: None,
                compact_header_stack_gap: None,
            }),
    {
        HomeGapsOverrides {
            card_gap: None,
            hero_gap: None,
            header_dashboard_gap: None,
            footer_gap: None,
            compact_header_stack_gap: None,
        }
    }
}

/// What replaces the sizes of the home cards.
#[derive(Debug, Clone, PartialEq)]
pub struct HomeCardSizingOverrides<L> {
    pub peers_body_min: Option<L>,
    pub activity_row_height: Option<L>,
    pub quick_action_icon_size: Option<L>,
    pub status_card_min_content_height: Option<L>,
    pub status_card_medium_content: Option<L>,
    pub status_card_narrow_content: Option<L>,
    pub status_card_mesh_hide_content: Option<L>,
    pub status_card_text_min_width: Option<L>,
    pub status_card_text_min_width_medium: Option<L>,
    pub status_card_mesh_max_width: Option<L>,
    pub status_card_padding_x: Option<L>,
    pub status_icon_text_gap_full: Option<L>,
    pub status_icon_text_gap_medium: Option<L>,
    pub status_text_graph_gap_full: Option<L>,
    pub status_text_graph_gap_medium: Option<L>,
    pub status_divider_width: Option<L>,
    pub status_divider_height: Option<L>,
}

impl<L> Default for HomeCardSizingOverrides<L> {
    fn default() -> (overrides: Self)
        ensures
            overrides == (Self {
                peers_body_min: None,
                activity_row_height: None,
                quick_action_icon_size: None,
                status_card_min_content_height: None,
                status_card_medium_content: None,
                status_card_narrow_content: None,
                status_card_mesh_hide_content: None,
                status_card_text_min_width: None,
                status_card_text_min_width_medium: None,
                status_card_mesh_max_width: None,
                status_card_padding_x: None,
                status_icon_text_gap_full: None,
                status_icon_text_gap_medium: None,
                status_text_graph_gap_full: None,
                status_text_graph_gap_medium: None,
                status_divider_width: None,
                status_divider_height: None,
            }),
    {
        HomeCardSizingOverrides {
            peers_body_min: None,
            activity_row_height: None,
            quick_action_icon_size: None,
            status_card_min_content_height: None,
            status_card_medium_content: None,
            status_card_narrow_content: None,
            status_card_mesh_hide_content: None,
            status_card_text_min_width: None,
            status_card_text_min_width_medium: None,
            status_card_mesh_max_width: None,
            status_card_padding_x: None,
            status_icon_text_gap_full: None,
            status_icon_text_gap_medium: None,
            status_text_graph_gap_full: None,
            status_text_graph_gap_medium: None,
            status_divider_width: None,
            status_divider_height: None,
        }
    }
}

/// What replaces the layout of the home dashboard.
#[derive(Debug, Clone, PartialEq)]
pub struct HomeOverrides<L> {
    pub section_order: Option<Vec<HomeSection>>,
    pub hidden_sections: Option<Vec<HomeSection>>,
    pub mode: Option<HomeLayoutMode>,
    pub grid: Option<HomeGridOverrides<L>>,
    pub quick_actions: Option<QuickActionsOverrides<L>>,
    pub max_content_width: Option<L>,
    pub padding: Option<HomePaddingOverrides<L>>,
    pub gaps: Option<HomeGapsOverrides<L>>,
    pub card_sizing: Option<HomeCardSizingOverrides<L>>,
}

impl<L> Default for HomeOverrides<L> {
    fn default() -> (overrides: Self)
        ensures
            overrides == (Self {
                section_order: None,
                hidden_sections: None,
                mode: None,
                grid: None,
                quick_actions: None,
                max_content_width: None,
                padding: None,
                gaps: None,
                card_sizing: None,
            }),
    {
        HomeOverrides {
            section_order: None,
            hidden_sections: None,
            mode: None,
            grid: None,
            quick_actions: None,
            max_content_width: None,
            padding: None,
            gaps: None,
            card_sizing: None,
        }
    }
}

/// What replaces the padding of the sidebar.
#[derive(Debug, Clone, PartialEq)]
pub struct SidebarPaddingOverrides<L> {
    pub brand_top: Option<L>,
    pub brand_bottom: Option<L>,
    pub identity_top: Option<L>,
    pub identity_bottom: Option<L>,
    pub section_top: Option<L>,
    pub utility_top: Option<L>,
    pub utility_bottom: Option<L>,
    pub row_x: Option<L>,
    pub join_top: Option<L>,
    pub join_bottom: Option<L>,
}

impl<L> Default for SidebarPaddingOverrides<L> {
    fn default() -> (overrides: Self)
        ensures
            overrides == (Self {
                brand_top: None,
                brand_bottom: None,
                identity_top: None,
                identity_bottom: None,
                section_top: None,
                utility_top: None,
                utility_bottom: None,
                row_x: None,
                join_top: None,
                join_bottom: None,
            }),
    {
        SidebarPaddingOverrides {
            brand_top: None,
            brand_bottom: None,
            identity_top: None,
            identity_bottom: None,
            section_top: None,
            utility_top: None,
            utility_bottom: None,
            row_x: None,
            join_top: None,
            join_bottom: None,
        }
    }
}

/// What replaces the heights of the rows of the sidebar.
#[derive(Debug, Clone, PartialEq)]
pub struct SidebarRowHeightsOverrides<L> {
    pub conversation_row: Option<L>,
    pub peer_row: Option<L>,
    pub peer_panel_max_height: Option<L>,
    pub default_list_max_height: Option<L>,
}

impl<L> Default for SidebarRowHeightsOverrides<L> {
    fn default() -> (overrides: Self)
        ensures
            overrides == (Self {
                conversation_row: None,
                peer_row: None,
                peer_panel_max_height: None,
                default_list_max_height: None,
            }),
    {
        SidebarRowHeightsOverrides {
            conversation_row: None,
            peer_row: None,
            peer_panel_max_height: None,
            default_list_max_height: None,
        }
    }
}

/// What replaces the layout of the sidebar.
#[derive(Debug, Clone, PartialEq)]
pub struct SidebarOverrides<L> {
    pub width: Option<L>,
    pub width_min: Option<L>,
    pub width_max: Option<L>,
    pub inset: Option<L>,
    pub section_order: Option<Vec<SidebarSection>>,
    pub hidden_sections: Option<Vec<SidebarSection>>,
    pub padding: Option<SidebarPaddingOverrides<L>>,
    pub row_heights: Option<SidebarRowHeightsOverrides<L>>,
}

impl<L> Default for SidebarOverrides<L> {
    fn default() -> (overrides: Self)
        ensures
            overrides == (Self {
                width: None,
                width_min: None,
                width_max: None,
                inset: None,
                section_order: None,
                hidden_sections: None,
                padding: None,
                row_heights: None,
            }),
    {
        SidebarOverrides {
            width: None,
            width_min: None,
            width_max: None,
            inset: None,
            section_order: None,
            hidden_sections: None,
            padding: None,
            row_heights: None,
        }
    }
}

/// What replaces the size of a picker.
#[derive(Debug, Clone, PartialEq)]
pub struct PickerOverrides<L> {
    pub width: Option<L>,
    pub scroll_height: Option<L>,
}

impl<L> Default for PickerOverrides<L> {
    fn default() -> (overrides: Self)
        ensures
            overrides == (Self {
                width: None,
                scroll_height: None,
            }),
    {
        PickerOverrides {
            width: None,
            scroll_height: None,
        }
    }
}

/// What replaces the size of the picker for moving pictures.
#[derive(Debug, Clone, PartialEq)]
pub struct GifPickerOverrides<L> {
    pub width: Option<L>,
    pub scroll_height: Option<L>,
    pub thumbnail_width: Option<L>,
    pub thumbnail_height: Option<L>,
}

impl<L> Default for GifPickerOverrides<L> {
    fn default() -> (overrides: Self)
        ensures
            overrides == (Self {
                width: None,
                scroll_height: None,
                thumbnail_width: None,
                thumbnail_height: None,
            }),
    {
        GifPickerOverrides {
            width: None,
            scroll_height: None,
            thumbnail_width: None,
            thumbnail_height: None,
        }
    }
}

/// What replaces the size of a shared screen.
#[derive(Debug, Clone, PartialEq)]
pub struct ScreenShareOverrides<L> {
    pub width: Option<L>,
    pub height: Option<L>,
    pub height_ratio: Option<L>,
    pub min_height: Option<L>,
    pub max_height: Option<L>,
}

impl<L> Default for ScreenShareOverrides<L> {
    fn default() -> (overrides: Self)
        ensures
            overrides == (Self {
                width: None,
                height: None,
                height_ratio: None,
                min_height: None,
                max_height: None,
            }),
    {
        ScreenShareOverrides {
            width: None,
            height: None,
            height_ratio: None,
            min_height: None,
            max_height: None,
        }
    }
}

/// What replaces the bar in which messages are written.
#[derive(Debug, Clone, PartialEq)]
pub struct ComposerOverrides<L> {
    pub button_order: Option<Vec<ComposerButton>>,
    pub spacing: Option<L>,
    pub padding: Option<L>,
}

impl<L> Default for ComposerOverrides<L> {
    fn default() -> (overrides: Self)
        ensures
            overrides == (Self {
                button_order: None,
                spacing: None,
                padding: None,
            }),
    {
        ComposerOverrides {
            button_order: None,
            spacing: None,
            padding: None,
        }
    }
}

/// What replaces the list of members.
#[derive(Debug, Clone, PartialEq)]
pub struct MemberListOverrides<L> {
    pub width: Option<L>,
    pub max_height: Option<L>,
    pub name_portion: Option<u16>,
    pub role_portion: Option<u16>,
}

impl<L> Default for MemberListOverrides<L> {
    fn default() -> (overrides: Self)
        ensures
            overrides == (Self {
                width: None,
                max_height: None,
                name_portion: None,
                role_portion: None,
            }),
    {
        MemberListOverrides {
            width: None,
            max_height: None,
            name_portion: None,
            role_portion: None,
        }
    }
}

/// What replaces the layout of a chat.
#[derive(Debug, Clone, PartialEq)]
pub struct ChatOverrides<L> {
    pub bubble_max_width: Option<L>,
    pub bubble_width_ratio: Option<L>,
    pub message_max_width: Option<L>,
    pub image_preview_max_width: Option<L>,
    pub image_preview_max_height: Option<L>,
    pub context_menu_width: Option<L>,
    pub details_panel_width: Option<L>,
    pub emoji_picker: Option<PickerOverrides<L>>,
    pub gif_picker: Option<GifPickerOverrides<L>>,
    pub screen_share: Option<ScreenShareOverrides<L>>,
    pub composer: Option<ComposerOverrides<L>>,
    pub member_list: Option<MemberListOverrides<L>>,
}

impl<L> Default for ChatOverrides<L> {
    fn default() -> (overrides: Self)
        ensures
            overrides == (Self {
                bubble_max_width: None,
                bubble_width_ratio: None,
                message_max_width: None,
                image_preview_max_width: None,
                image_preview_max_height: None,
                context_menu_width: None,
                details_panel_width: None,
                emoji_picker: None,
                gif_picker: None,
                screen_share: None,
                composer: None,
                member_list: None,
            }),
    {
        ChatOverrides {
            bubble_max_width: None,
            bubble_width_ratio: None,
            message_max_width: None,
            image_preview_max_width: None,
            image_preview_max_height: None,
            context_menu_width: None,
            details_panel_width: None,
            emoji_picker: None,
            gif_picker: None,
            screen_share: None,
            composer: None,
            member_list: None,
        }
    }
}

/// What replaces the arrangement of one component.
#[derive(Debug, Clone, PartialEq)]
pub struct ComponentPlacementOverrides {
    pub thumbnail_position: Option<ThumbnailPosition>,
    pub metadata_alignment: Option<MetadataAlignment>,
    pub button_placement: Option<ButtonPlacement>,
    pub card_orientation: Option<CardOrientation>,
}

impl Default for ComponentPlacementOverrides {
    fn default() -> (overrides: Self)
        ensures
            overrides == (Self {
                thumbnail_position: None,
                metadata_alignment: None,
                button_placement: None,
                card_orientation: None,
            }),
    {
        ComponentPlacementOverrides {
            thumbnail_position: None,
            metadata_alignment: None,
            button_placement: None,
            card_orientation: None,
        }
    }
}

/// What replaces the sizes of the card of a video.
#[derive(Debug, Clone, PartialEq)]
pub struct VideoCardOverrides<L> {
    pub narrow_breakpoint: Option<L>,
    pub medium_breakpoint: Option<L>,
    pub play_overlay_size: Option<L>,
    pub header_filename_max_width: Option<L>,
    pub controls_slider_width: Option<L>,
}

impl<L> Default for VideoCardOverrides<L> {
    fn default() -> (overrides: Self)
        ensures
            overrides == (Self {
                narrow_breakpoint: None,
                medium_breakpoint: None,
                play_overlay_size: None,
                header_filename_max_width: None,
                controls_slider_width: None,
            }),
    {
        VideoCardOverrides {
            narrow_breakpoint: None,
            medium_breakpoint: None,
            play_overlay_size: None,
            header_filename_max_width: None,
            controls_slider_width: None,
        }
    }
}

/// What replaces the arrangement of the components.
#[derive(Debug, Clone, PartialEq)]
pub struct ComponentOverrides<L> {
    pub thumbnail_position: Option<ThumbnailPosition>,
    pub metadata_alignment: Option<MetadataAlignment>,
    pub button_placement: Option<ButtonPlacement>,
    pub card_orientation: Option<CardOrientation>,
    pub video_card: Option<ComponentPlacementOverrides>,
    pub shared_by_me: Option<ComponentPlacementOverrides>,
    pub video: Option<VideoCardOverrides<L>>,
}

impl<L> Default for ComponentOverrides<L> {
    fn default() -> (overrides: Self)
        ensures
            overrides == (Self {
                thumbnail_position: None,
                metadata_alignment: None,
                button_placement: None,
                card_orientation: None,
                video_card: None,
                shared_by_me: None,
                video: None,
            }),
    {
        ComponentOverrides {
            thumbnail_position: None,
            metadata_alignment: None,
            button_placement: None,
            card_orientation: None,
            video_card: None,
            shared_by_me: None,
            video: None,
        }
    }
}

/// What replaces the columns of the table of files.
#[derive(Debug, Clone, PartialEq)]
pub struct FileTableOverrides<L> {
    pub size_col: Option<L>,
    pub source_col: Option<L>,
    pub ago_col: Option<L>,
    pub peer_col: Option<L>,
    pub started_col: Option<L>,
    pub state_col: Option<L>,
    pub direction_col: Option<L>,
    pub event_col: Option<L>,
    pub details_col: Option<L>,
    pub download_started_col: Option<L>,
    pub download_state_col: Option<L>,
    pub activity_ago_col: Option<L>,
}

impl<L> Default for FileTableOverrides<L> {
    fn default() -> (overrides: Self)
        ensures
            overrides == (Self {
                size_col: None,
                source_col: None,
                ago_col: None,
                peer_col: None,
                started_col: None,
                state_col: None,
                direction_col: None,
                event_col: None,
                details_col: None,
                download_started_col: None,
                download_state_col: None,
                activity_ago_col: None,
            }),
    {
        FileTableOverrides {
            size_col: None,
            source_col: None,
            ago_col: None,
            peer_col: None,
            started_col: None,
            state_col: None,
            direction_col: None,
            event_col: None,
            details_col: None,
            download_started_col: None,
            download_state_col: None,
            activity_ago_col: None,
        }
    }
}

/// What replaces the columns of the table of shared files.
#[derive(Debug, Clone, PartialEq)]
pub struct SharedTableOverrides<L> {
    pub shared_with: Option<L>,
    pub size: Option<L>,
    pub shared_on: Option<L>,
    pub downloads: Option<L>,
    pub actions: Option<L>,
}

impl<L> Default for SharedTableOverrides<L> {
    fn default() -> (overrides: Self)
        ensures
            overrides == (Self {
                shared_with: None,
                size: None,
                shared_on: None,
                downloads: None,
                actions: None,
            }),
    {
        SharedTableOverrides {
            shared_with: None,
            size: None,
            shared_on: None,
            downloads: None,
            actions: None,
        }
    }
}

/// What replaces the columns of the tables.
#[derive(Debug, Clone, PartialEq)]
pub struct TablesOverrides<L> {
    pub file_table: Option<FileTableOverrides<L>>,
    pub shared_table: Option<SharedTableOverrides<L>>,
}

impl<L> Default for TablesOverrides<L> {
    fn default() -> (overrides: Self)
        ensures
            overrides == (Self {
                file_table: None,
                shared_table: None,
            }),
    {
        TablesOverrides {
            file_table: None,
            shared_table: None,
        }
    }
}

/// What replaces the dependence on the window's size.
#[derive(Debug, Clone, PartialEq)]
pub struct ResponsiveOverrides<L> {
    pub viewport_ref_width: Option<L>,
    pub viewport_ref_height: Option<L>,
    pub viewport_min_width: Option<L>,
    pub viewport_min_height: Option<L>,
    pub viewport_lg_width: Option<L>,
    pub viewport_lg_height: Option<L>,
    pub viewport_xl_width: Option<L>,
    pub viewport_xl_height: Option<L>,
    pub content_max_width: Option<L>,
    pub home_illustration_full_content: Option<L>,
    pub home_illustration_hide_content: Option<L>,
    pub home_compact_header_content: Option<L>,
    pub narrow_max_width: Option<L>,
    pub ultra_wide_min_width: Option<L>,
    pub home_columns: Option<ByTierOverrides<usize>>,
    pub home_padding_x: Option<ByTierOverrides<L>>,
    pub dialog_body_max_height: Option<ByTierOverrides<L>>,
    pub short_window_body_reserve: Option<L>,
    pub short_window_body_min_height: Option<L>,
    pub short_window_spacing_scale: Option<L>,
}

impl<L> Default for ResponsiveOverrides<L> {
    fn default() -> (overrides: Self)
        ensures
            overrides == (Self {
                viewport_ref_width: None,
                viewport_ref_height: None,
                viewport_min_width: None,
                viewport_min_height: None,
                viewport_lg_width: None,
                viewport_lg_height: None,
                viewport_xl_width: None,
                viewport_xl_height: None,
                content_max_width: None,
                home_illustration_full_content: None,
                home_illustration_hide_content: None,
                home_compact_header_content: None,
                narrow_max_width: None,
                ultra_wide_min_width: None,
                home_columns: None,
                home_padding_x: None,
                dialog_body_max_height: None,
                short_window_body_reserve: None,
                short_window_body_min_height: None,
                short_window_spacing_scale: None,
            }),
    {
        ResponsiveOverrides {
            viewport_ref_width: None,
            viewport_ref_height: None,
            viewport_min_width: None,
            viewport_min_height: None,
            viewport_lg_width: None,
            viewport_lg_height: None,
            viewport_xl_width: None,
            viewport_xl_height: None,
            content_max_width: None,
            home_illustration_full_content: None,
            home_illustration_hide_content: None,
            home_compact_header_content: None,
            narrow_max_width: None,
            ultra_wide_min_width: None,
            home_columns: None,
            home_padding_x: None,
            dialog_body_max_height: None,
            short_window_body_reserve: None,
            short_window_body_min_height: None,
            short_window_spacing_scale: None,
        }
    }
}

/// What replaces the layout of another screen.
#[derive(Debug, Clone, PartialEq)]
pub struct ScreenOverrides<L> {
    pub section_order: Option<Vec<String>>,
    pub hidden_sections: Option<Vec<String>>,
    pub max_content_width: Option<L>,
    pub columns: Option<usize>,
}

impl<L> Default for ScreenOverrides<L> {
    fn default() -> (overrides: Self)
        ensures
            overrides == (Self {
                section_order: None,
                hidden_sections: None,
                max_content_width: None,
                columns: None,
            }),
    {
        ScreenOverrides {
            section_order: None,
            hidden_sections: None,
            max_content_width: None,
            columns: None,
        }
    }
}

/// What replaces the layout.
#[derive(Debug, Clone, PartialEq)]
pub struct LayoutOverrides<L> {
    pub home: Option<HomeOverrides<L>>,
    pub sidebar: Option<SidebarOverrides<L>>,
    pub chat: Option<ChatOverrides<L>>,
    pub component: Option<ComponentOverrides<L>>,
    pub tables: Option<TablesOverrides<L>>,
    pub responsive: Option<ResponsiveOverrides<L>>,
    /// Other screens, each by its name.
    pub screens: std::collections::BTreeMap<String, ScreenOverrides<L>>,
}

impl<L> Default for LayoutOverrides<L> {
    fn default() -> (overrides: Self)
        ensures
            overrides.home is None,
            overrides.sidebar is None,
            overrides.chat is None,
            overrides.component is None,
            overrides.tables is None,
            overrides.responsive is None,
            overrides.screens@ == Map::<String, ScreenOverrides<L>>::empty(),
    {
        LayoutOverrides {
            home: None,
            sidebar: None,
            chat: None,
            component: None,
            tables: None,
            responsive: None,
            screens: std::collections::BTreeMap::new(),
        }
    }
}

/// The home dashboard is at first left as it is, part by part.
pub proof fn the_dashboard_is_not_replaced_at_first<L>(
    home_grid: HomeGridOverrides<L>,
    quick_actions: QuickActionsOverrides<L>,
    home_padding: HomePaddingOverrides<L>,
    home_gaps: HomeGapsOverrides<L>,
    home_card_sizing: HomeCardSizingOverrides<L>,
    home: HomeOverrides<L>,
)
    requires
        call_ensures(HomeGridOverrides::<L>::default, (), home_grid),
        call_ensures(QuickActionsOverrides::<L>::default, (), quick_actions),
        call_ensures(HomePaddingOverrides::<L>::default, (), home_padding),
        call_ensures(HomeGapsOverrides::<L>::default, (), home_gaps),
        call_ensures(HomeCardSizingOverrides::<L>::default, (), home_card_sizing),
        call_ensures(HomeOverrides::<L>::default, (), home),
    ensures
        home_grid.main_portion is None,
        home_grid.rail_portion is None,
        home_grid.column_gap is None,
        home_grid.stack_breakpoint is None,
        quick_actions.columns_wide is None,
        quick_actions.columns_mid is None,
        quick_actions.columns_narrow is None,
        quick_actions.four_col_breakpoint is None,
        quick_actions.two_col_breakpoint is None,
        quick_actions.card_padding_y is None,
        quick_actions.card_padding_x is None,
        quick_actions.gap is None,
        home_padding.top is None,
        home_padding.bottom is None,
        home_padding.horizontal_large is None,
        home_padding.horizontal_default is None,
        home_gaps.card_gap is None,
        home_gaps.hero_gap is None,
        home_gaps.header_dashboard_gap is None,
        home_gaps.footer_gap is None,
        home_gaps.compact_header_stack_gap is None,
        home_card_sizing.peers_body_min is None,
        home_card_sizing.activity_row_height is None,
        home_card_sizing.quick_action_icon_size is None,
        home_card_sizing.status_card_min_content_height is None,
        home_card_sizing.status_card_medium_content is None,
        home_card_sizing.status_card_narrow_content is None,
        home_card_sizing.status_card_mesh_hide_content is None,
        home_card_sizing.status_card_text_min_width is None,
        home_card_sizing.status_card_text_min_width_medium is None,
        home_card_sizing.status_card_mesh_max_width is None,
        home_card_sizing.status_card_padding_x is None,
        home_card_sizing.status_icon_text_gap_full is None,
        home_card_sizing.status_icon_text_gap_medium is None,
        home_card_sizing.status_text_graph_gap_full is None,
        home_card_sizing.status_text_graph_gap_medium is None,
        home_card_sizing.status_divider_width is None,
        home_card_sizing.status_divider_height is None,
        home.section_order is None,
        home.hidden_sections is None,
        home.mode is None,
        home.grid is None,
        home.quick_actions is None,
        home.max_content_width is None,
        home.padding is None,
        home.gaps is None,
        home.card_sizing is None,
{
}

/// The sidebar is at first left as it is, part by part.
pub proof fn the_sidebar_is_not_replaced_at_first<L>(
    sidebar_padding: SidebarPaddingOverrides<L>,
    sidebar_row_heights: SidebarRowHeightsOverrides<L>,
    sidebar: SidebarOverrides<L>,
)
    requires
        call_ensures(SidebarPaddingOverrides::<L>::default, (), sidebar_padding),
        call_ensures(SidebarRowHeightsOverrides::<L>::default, (), sidebar_row_heights),
        call_ensures(SidebarOverrides::<L>::default, (), sidebar),
    ensures
        sidebar_padding.brand_top is None,
        sidebar_padding.brand_bottom is None,
        sidebar_padding.identity_top is None,
        sidebar_padding.identity_bottom is None,
        sidebar_padding.section_top is None,
        sidebar_padding.utility_top is None,
        sidebar_padding.utility_bottom is None,
        sidebar_padding.row_x is None,
        sidebar_padding.join_top is None,
        sidebar_padding.join_bottom is None,
        sidebar_row_heights.conversation_row is None,
        sidebar_row_heights.peer_row is None,
        sidebar_row_heights.peer_panel_max_height is None,
        sidebar_row_heights.default_list_max_height is None,
        sidebar.width is None,
        sidebar.width_min is None,
        sidebar.width_max is None,
        sidebar.inset is None,
        sidebar.section_order is None,
        sidebar.hidden_sections is None,
        sidebar.padding is None,
        sidebar.row_heights is None,
{
}

/// Chats are at first left as they are, part by part.
pub proof fn chats_are_not_replaced_at_first<L>(
    picker: PickerOverrides<L>,
    gif_picker: GifPickerOverrides<L>,
    screen_share: ScreenShareOverrides<L>,
    composer: ComposerOverrides<L>,
    member_list: MemberListOverrides<L>,
    chat: ChatOverrides<L>,
)
    requires
        call_ensures(PickerOverrides::<L>::default, (), picker),
        call_ensures(GifPickerOverrides::<L>::default, (), gif_picker),
        call_ensures(ScreenShareOverrides::<L>::default, (), screen_share),
        call_ensures(ComposerOverrides::<L>::default, (), composer),
        call_ensures(MemberListOverrides::<L>::default, (), member_list),
        call_ensures(ChatOverrides::<L>::default, (), chat),
    ensures
        picker.width is None,
        picker.scroll_height is None,
        gif_picker.width is None,
        gif_picker.scroll_height is None,
        gif_picker.thumbnail_width is None,
        gif_picker.thumbnail_height is None,
        screen_share.width is None,
        screen_share.height is None,
        screen_share.height_ratio is None,
        screen_share.min_height is None,
        screen_share.max_height is None,
        composer.button_order is None,
        composer.spacing is None,
        composer.padding is None,
        member_list.width is None,
        member_list.max_height is None,
        member_list.name_portion is None,
        member_list.role_portion is None,
        chat.bubble_max_width is None,
        chat.bubble_width_ratio is None,
        chat.message_max_width is None,
        chat.image_preview_max_width is None,
        chat.image_preview_max_height is None,
        chat.context_menu_width is None,
        chat.details_panel_width is None,
        chat.emoji_picker is None,
        chat.gif_picker is None,
        chat.screen_share is None,
        chat.composer is None,
        chat.member_list is None,
{
}

/// Components and tables are at first left as they are, part by part.
pub proof fn components_are_not_replaced_at_first<L>(
    component_placement: ComponentPlacementOverrides,
    video_card: VideoCardOverrides<L>,
    component: ComponentOverrides<L>,
    file_table: FileTableOverrides<L>,
    shared_table: SharedTableOverrides<L>,
    tables: TablesOverrides<L>,
)
    requires
        call_ensures(ComponentPlacementOverrides::default, (), component_placement),
        call_ensures(VideoCardOverrides::<L>::default, (), video_card),
        call_ensures(ComponentOverrides::<L>::default, (), component),
        call_ensures(FileTableOverrides::<L>::default, (), file_table),
        call_ensures(SharedTableOverrides::<L>::default, (), shared_table),
        call_ensures(TablesOverrides::<L>::default, (), tables),
    ensures
        component_placement.thumbnail_position is None,
        component_placement.metadata_alignment is None,
        component_placement.button_placement is None,
        component_placement.card_orientation is None,
        video_card.narrow_breakpoint is None,
        video_card.medium_breakpoint is None,
        video_card.play_overlay_size is None,
        video_card.header_filename_max_width is None,
        video_card.controls_slider_width is None,
        component.thumbnail_position is None,
        component.metadata_alignment is None,
        component.button_placement is None,
        component.card_orientation is None,
        component.video_card is None,
        component.shared_by_me is None,
        component.video is None,
        file_table.size_col is None,
        file_table.source_col is None,
        file_table.ago_col is None,
        file_table.peer_col is None,
        file_table.started_col is None,
        file_table.state_col is None,
        file_table.direction_col is None,
        file_table.event_col is None,
        file_table.details_col is None,
        file_table.download_started_col is None,
        file_table.download_state_col is None,
        file_table.activity_ago_col is None,
        shared_table.shared_with is None,
        shared_table.size is None,
        shared_table.shared_on is None,
        shared_table.downloads is None,
        shared_table.actions is None,
        tables.file_table is None,
        tables.shared_table is None,
{
}

/// The layout as a whole is at first left as it is, for every window and every screen.
pub proof fn the_layout_is_not_replaced_at_first<L>(
    by_tier: ByTierOverrides<L>,
    responsive: ResponsiveOverrides<L>,
    screen: ScreenOverrides<L>,
    layout: LayoutOverrides<L>,
)
    requires
        call_ensures(ByTierOverrides::<L>::default, (), by_tier),
        call_ensures(ResponsiveOverrides::<L>::default, (), responsive),
        call_ensures(ScreenOverrides::<L>::default, (), screen),
        call_ensures(LayoutOverrides::<L>::default, (), layout),
    ensures
        by_tier.narrow is None,
        by_tier.desktop is None,
        by_tier.ultra_wide is None,
        responsive.viewport_ref_width is None,
        responsive.viewport_ref_height is None,
        responsive.viewport_min_width is None,
        responsive.viewport_min_height is None,
        responsive.viewport_lg_width is None,
        responsive.viewport_lg_height is None,
        responsive.viewport_xl_width is None,
        responsive.viewport_xl_height is None,
        responsive.content_max_width is None,
        responsive.home_illustration_full_content is None,
        responsive.home_illustration_hide_content is None,
        responsive.home_compact_header_content is None,
        responsive.narrow_max_width is None,
        responsive.ultra_wide_min_width is None,
        responsive.home_columns is None,
        responsive.home_padding_x is None,
        responsive.dialog_body_max_height is None,
        responsive.short_window_body_reserve is None,
        responsive.short_window_body_min_height is None,
        responsive.short_window_spacing_scale is None,
        screen.section_order is None,
        screen.hidden_sections is None,
        screen.max_content_width is None,
        screen.columns is None,
        layout.home is None,
        layout.sidebar is None,
        layout.chat is None,
        layout.component is None,
        layout.tables is None,
        layout.responsive is None,
        layout.screens@.dom().len() == 0,
{
}

} // verus!
