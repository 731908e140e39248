//! How the screens are arranged: which sections stand where, and what depends on the window's
//! size.
//!
//! Lengths are of a type `L` that the application chooses; here they are only compared.

use vstd::prelude::*;
use vstd::std_specs::cmp::{PartialOrdIs, PartialOrdSpec};

use crate::lengths;

verus! {

/// A section of the home dashboard.
#[derive(Debug, Clone, Copy, PartialEq, Eq, Structural, PartialOrd, Ord, Hash)]
pub enum HomeSection {
    /// The large card at the top.
    Hero,
    /// The state of the network.
    MeshHealth,
    /// The grid of quick actions.
    QuickActions,
    /// Friends that are online, and what happened lately.
    PeopleActivity,
    /// The tunnels.
    Tunnels,
}

/// How the sections of the home dashboard are presented.
#[derive(Debug, Clone, Copy, PartialEq, Eq, Structural)]
pub enum HomeLayoutMode {
    /// Side by side.
    Row,
    /// One below the other.
    Column,
    /// A main column and a rail beside it.
    Grid,
    /// A single stacked column.
    List,
}

impl Default for HomeLayoutMode {
    fn default() -> (mode: Self)
        ensures
            mode == HomeLayoutMode::Grid,
    {
        HomeLayoutMode::Grid
    }
}

/// The arrangement of the home dashboard.
#[derive(Debug, Clone, PartialEq, Eq)]
pub struct HomeLayout {
    /// The sections, from top to bottom.
    pub section_order: Vec<HomeSection>,
    /// The sections that are not shown.
    pub hidden_sections: Vec<HomeSection>,
    /// How they are presented.
    pub mode: HomeLayoutMode,
}

/// The sections in the order in which they stand at first.
pub open spec fn baseline_sections() -> Seq<HomeSection> {
    seq![
        HomeSection::Hero,
        HomeSection::QuickActions,
        HomeSection::MeshHealth,
        HomeSection::PeopleActivity,
        HomeSection::Tunnels,
    ]
}

/// The sections of `order` that are not in `hidden`, in the order of `order`.
pub open spec fn shown_sections(order: Seq<HomeSection>, hidden: Seq<HomeSection>) -> Seq<
    HomeSection,
> {
    order.filter(|s: HomeSection| !hidden.contains(s))
}

/// Whether a list holds a section.
pub fn holds_section(list: &Vec<HomeSection>, section: HomeSection) -> (found: bool)
    ensures
        found == list@.contains(section),
{
    let mut i: usize = 0;
    while i < list.len()
        invariant
            i <= list.len(),
            forall|k: int| 0 <= k < i ==> list@[k] != section,
        decreases list.len() - i,
    {
        if list[i] == section {
            assert(list@[i as int] == section);
            return true;
        }
        i += 1;
    }
    false
}

impl Default for HomeLayout {
    fn default() -> (layout: Self)
        ensures
            layout.section_order@ == baseline_sections(),
            layout.hidden_sections@ == Seq::<HomeSection>::empty(),
            layout.mode == HomeLayoutMode::Grid,
    {
        let mut order: Vec<HomeSection> = Vec::new();
        order.push(HomeSection::Hero);
        order.push(HomeSection::QuickActions);
        order.push(HomeSection::MeshHealth);
        order.push(HomeSection::PeopleActivity);
        order.push(HomeSection::Tunnels);
        assert(order@ =~= baseline_sections());
        HomeLayout {
            section_order: order,
            hidden_sections: Vec::new(),
            mode: HomeLayoutMode::Grid,
        }
    }
}

impl HomeLayout {
    /// The sections that are shown, in order.
    pub fn visible_sections(&self) -> (shown: Vec<HomeSection>)
        ensures
            shown@ == shown_sections(self.section_order@, self.hidden_sections@),
    {
        let ghost keep = |s: HomeSection| !self.hidden_sections@.contains(s);
        let ghost order = self.section_order@;
        let mut shown: Vec<HomeSection> = Vec::new();
        let mut i: usize = 0;
        proof {
            reveal(Seq::filter);
            assert(order.take(0) =~= Seq::<HomeSection>::empty());
            assert(shown@ =~= order.take(0).filter(keep));
        }
        while i < self.section_order.len()
            invariant
                i <= self.section_order.len(),
                order == self.section_order@,
                keep == (|s: HomeSection| !self.hidden_sections@.contains(s)),
                shown@ == order.take(i as int).filter(keep),
            decreases self.section_order.len() - i,
        {
            let section = self.section_order[i];
            proof {
                reveal(Seq::filter);
                assert(order.take(i + 1).drop_last() =~= order.take(i as int));
                assert(order.take(i + 1).last() == section);
            }
            if !holds_section(&self.hidden_sections, section) {
                shown.push(section);
            }
            i += 1;
        }
        assert(order.take(order.len() as int) =~= order);
        shown
    }
}

/// A section of the sidebar.
#[derive(Debug, Clone, Copy, PartialEq, Eq, Structural, PartialOrd, Ord, Hash)]
pub enum SidebarSection {
    Chats,
    Groups,
    Friends,
    Discover,
    PublicRooms,
    Requests,
}

/// How much of the sidebar is shown.
#[derive(Debug, Clone, Copy, PartialEq, Eq, Structural)]
pub enum SidebarMode {
    Full,
    Compact,
}

/// The arrangement of the sidebar.
#[derive(Debug, Clone, PartialEq, Eq)]
pub struct SidebarLayout {
    /// The sections, from top to bottom.
    pub section_order: Vec<SidebarSection>,
    /// The sections that are not shown.
    pub hidden_sections: Vec<SidebarSection>,
}

impl Default for SidebarLayout {
    fn default() -> (layout: Self)
        ensures
            layout.section_order@ == seq![
                SidebarSection::Chats,
                SidebarSection::Groups,
                SidebarSection::Friends,
                SidebarSection::Discover,
                SidebarSection::PublicRooms,
                SidebarSection::Requests,
            ],
            layout.hidden_sections@ == Seq::<SidebarSection>::empty(),
    {
        let mut order: Vec<SidebarSection> = Vec::new();
        order.push(SidebarSection::Chats);
        order.push(SidebarSection::Groups);
        order.push(SidebarSection::Friends);
        order.push(SidebarSection::Discover);
        order.push(SidebarSection::PublicRooms);
        order.push(SidebarSection::Requests);
        SidebarLayout { section_order: order, hidden_sections: Vec::new() }
    }
}

impl SidebarLayout {
    /// How much of the sidebar is shown in a window of this width.
    pub fn mode_for_width<L: PartialOrd>(&self, width: L, responsive: &ResponsiveLayout<L>) -> (mode:
        SidebarMode)
        ensures
            lengths::finds_at_most(
                width,
                responsive.viewport_min_width,
                mode == SidebarMode::Compact,
            ),
            L::obeys_partial_cmp_spec() ==> mode == if width.is_le(
                &responsive.viewport_min_width,
            ) {
                SidebarMode::Compact
            } else {
                SidebarMode::Full
            },
    {
        if width <= responsive.viewport_min_width {
            SidebarMode::Compact
        } else {
            SidebarMode::Full
        }
    }
}

/// A button of the bar in which messages are written.
#[derive(Debug, Clone, Copy, PartialEq, Eq, Structural, PartialOrd, Ord, Hash)]
pub enum ComposerButton {
    Attach,
    Folder,
    Gif,
    Emoji,
    Send,
}

/// The order of the buttons of the bar in which messages are written; the field for the text
/// stands behind the folder button.
pub fn composer_buttons() -> (buttons: Vec<ComposerButton>)
    ensures
        buttons@ == seq![
            ComposerButton::Attach,
            ComposerButton::Folder,
            ComposerButton::Gif,
            ComposerButton::Emoji,
            ComposerButton::Send,
        ],
{
    let mut buttons: Vec<ComposerButton> = Vec::new();
    buttons.push(ComposerButton::Attach);
    buttons.push(ComposerButton::Folder);
    buttons.push(ComposerButton::Gif);
    buttons.push(ComposerButton::Emoji);
    buttons.push(ComposerButton::Send);
    buttons
}

/// Where the thumbnail of a card stands.
#[derive(Debug, Clone, Copy, PartialEq, Eq, Structural, Hash)]
pub enum ThumbnailPosition {
    Left,
    Right,
    Top,
    Bottom,
    /// There is no thumbnail.
    Hidden,
}

impl Default for ThumbnailPosition {
    fn default() -> (position: Self)
        ensures
            position == ThumbnailPosition::Left,
    {
        ThumbnailPosition::Left
    }
}

/// To which side the metadata of a card is aligned.
#[derive(Debug, Clone, Copy, PartialEq, Eq, Structural, Hash)]
pub enum MetadataAlignment {
    Start,
    Center,
    End,
}

impl Default for MetadataAlignment {
    fn default() -> (alignment: Self)
        ensures
            alignment == MetadataAlignment::Start,
    {
        MetadataAlignment::Start
    }
}

/// Where the buttons of a card stand.
#[derive(Debug, Clone, Copy, PartialEq, Eq, Structural, Hash)]
pub enum ButtonPlacement {
    /// Below the content.
    Below,
    /// On top of the content.
    Overlay,
    /// Beside the content.
    Side,
}

impl Default for ButtonPlacement {
    fn default() -> (placement: Self)
        ensures
            placement == ButtonPlacement::Below,
    {
        ButtonPlacement::Below
    }
}

/// In which direction the content of a card flows.
#[derive(Debug, Clone, Copy, PartialEq, Eq, Structural, Hash)]
pub enum CardOrientation {
    Horizontal,
    Vertical,
}

impl Default for CardOrientation {
    fn default() -> (orientation: Self)
        ensures
            orientation == CardOrientation::Horizontal,
    {
        CardOrientation::Horizontal
    }
}

/// How one component is arranged.
#[derive(Debug, Clone, Copy, PartialEq, Eq, Structural, Hash)]
pub struct ComponentPlacement {
    pub thumbnail_position: ThumbnailPosition,
    pub metadata_alignment: MetadataAlignment,
    pub button_placement: ButtonPlacement,
    pub card_orientation: CardOrientation,
}

impl Default for ComponentPlacement {
    fn default() -> (placement: Self)
        ensures
            placement == (ComponentPlacement {
                thumbnail_position: ThumbnailPosition::Left,
                metadata_alignment: MetadataAlignment::Start,
                button_placement: ButtonPlacement::Below,
                card_orientation: CardOrientation::Horizontal,
            }),
    {
        ComponentPlacement {
            thumbnail_position: ThumbnailPosition::Left,
            metadata_alignment: MetadataAlignment::Start,
            button_placement: ButtonPlacement::Below,
            card_orientation: CardOrientation::Horizontal,
        }
    }
}

impl ComponentPlacement {
    /// The card of a video or a file: the picture above the text.
    pub fn video_card_default() -> (placement: Self)
        ensures
            placement == (ComponentPlacement {
                thumbnail_position: ThumbnailPosition::Top,
                metadata_alignment: MetadataAlignment::Start,
                button_placement: ButtonPlacement::Below,
                card_orientation: CardOrientation::Vertical,
            }),
    {
        ComponentPlacement {
            thumbnail_position: ThumbnailPosition::Top,
            card_orientation: CardOrientation::Vertical,
            ..ComponentPlacement::default()
        }
    }

    /// The row of a file that the user shares: the menu beside the text.
    pub fn shared_by_me_default() -> (placement: Self)
        ensures
            placement == (ComponentPlacement {
                thumbnail_position: ThumbnailPosition::Left,
                metadata_alignment: MetadataAlignment::Start,
                button_placement: ButtonPlacement::Side,
                card_orientation: CardOrientation::Horizontal,
            }),
    {
        ComponentPlacement {
            button_placement: ButtonPlacement::Side,
            ..ComponentPlacement::default()
        }
    }
}

/// How the components are arranged; those without a placement of their own follow the first four
/// fields.
#[derive(Debug, Clone, Copy, PartialEq, Eq, Structural)]
pub struct ComponentLayout {
    pub thumbnail_position: ThumbnailPosition,
    pub metadata_alignment: MetadataAlignment,
    pub button_placement: ButtonPlacement,
    pub card_orientation: CardOrientation,
    /// The card of a video or a file.
    pub video_card: ComponentPlacement,
    /// The row of a file that the user shares.
    pub shared_by_me: ComponentPlacement,
}

impl Default for ComponentLayout {
    fn default() -> (layout: Self)
        ensures
            layout.thumbnail_position == ThumbnailPosition::Left,
            layout.metadata_alignment == MetadataAlignment::Start,
            layout.button_placement == ButtonPlacement::Below,
            layout.card_orientation == CardOrientation::Horizontal,
            layout.video_card == (ComponentPlacement {
                thumbnail_position: ThumbnailPosition::Top,
                metadata_alignment: MetadataAlignment::Start,
                button_placement: ButtonPlacement::Below,
                card_orientation: CardOrientation::Vertical,
            }),
            layout.shared_by_me == (ComponentPlacement {
                thumbnail_position: ThumbnailPosition::Left,
                metadata_alignment: MetadataAlignment::Start,
                button_placement: ButtonPlacement::Side,
                card_orientation: CardOrientation::Horizontal,
            }),
    {
        ComponentLayout {
            thumbnail_position: ThumbnailPosition::Left,
            metadata_alignment: MetadataAlignment::Start,
            button_placement: ButtonPlacement::Below,
            card_orientation: CardOrientation::Horizontal,
            video_card: ComponentPlacement::video_card_default(),
            shared_by_me: ComponentPlacement::shared_by_me_default(),
        }
    }
}

/// The class of a window by its width.
#[derive(Debug, Clone, Copy, PartialEq, Eq, Structural, Hash)]
pub enum ViewportTier {
    Narrow,
    Desktop,
    UltraWide,
}

impl Default for ViewportTier {
    fn default() -> (tier: Self)
        ensures
            tier == ViewportTier::Desktop,
    {
        ViewportTier::Desktop
    }
}

/// The class of a window by its height.
#[derive(Debug, Clone, Copy, PartialEq, Eq, Structural)]
pub enum HeightTier {
    Short,
    Normal,
    Tall,
}

impl Default for HeightTier {
    fn default() -> (tier: Self)
        ensures
            tier == HeightTier::Normal,
    {
        HeightTier::Normal
    }
}

/// The classes of a window.
#[derive(Debug, Clone, Copy, PartialEq, Eq, Structural)]
pub struct ViewportTiers {
    pub width: ViewportTier,
    pub height: HeightTier,
}

/// A value for each class of width.
#[derive(Debug, Clone, Copy, PartialEq)]
pub struct ByTier<T> {
    pub narrow: T,
    pub desktop: T,
    pub ultra_wide: T,
}

impl<T> ByTier<T> {
    /// The value for a class of width.
    pub open spec fn value_for(&self, tier: ViewportTier) -> T {
        match tier {
            ViewportTier::Narrow => self.narrow,
            ViewportTier::Desktop => self.desktop,
            ViewportTier::UltraWide => self.ultra_wide,
        }
    }
}

impl<T: Copy> ByTier<T> {
    /// The value for a class of width.
    pub fn for_tier(&self, tier: ViewportTier) -> (value: T)
        ensures
            value == self.value_for(tier),
    {
        match tier {
            ViewportTier::Narrow => self.narrow,
            ViewportTier::Desktop => self.desktop,
            ViewportTier::UltraWide => self.ultra_wide,
        }
    }
}

/// What depends on the window's size.
#[derive(Debug, Clone, Copy, PartialEq)]
pub struct ResponsiveLayout<L> {
    pub viewport_ref_width: L,
    pub viewport_ref_height: L,
    pub viewport_min_width: L,
    pub viewport_min_height: L,
    pub viewport_lg_width: L,
    pub viewport_lg_height: L,
    pub viewport_xl_width: L,
    pub viewport_xl_height: L,
    pub content_max_width: L,
    pub home_illustration_full_content: L,
    pub home_illustration_hide_content: L,
    /// Below this width of the content the headers of the cards are compact.
    pub home_compact_header_content: L,
    /// Below this width a window is narrow.
    pub narrow_max_width: L,
    /// From this width on a window is ultra-wide.
    pub ultra_wide_min_width: L,
    /// The number of columns of the home dashboard.
    pub home_columns: ByTier<usize>,
    /// The padding of the home dashboard.
    pub home_padding_x: ByTier<L>,
    /// The largest height of a dialog's body.
    pub dialog_body_max_height: ByTier<L>,
    /// The height that a short window reserves for a dialog's title and footer.
    pub short_window_body_reserve: L,
    /// The smallest height of a dialog's body in a short window.
    pub short_window_body_min_height: L,
    /// The factor for the spaces in a short window.
    pub short_window_spacing_scale: L,
}

/// The class of a width, by how it compares with the two thresholds.
pub open spec fn width_tier(below_narrow: bool, from_ultra_wide: bool) -> ViewportTier {
    if below_narrow {
        ViewportTier::Narrow
    } else if from_ultra_wide {
        ViewportTier::UltraWide
    } else {
        ViewportTier::Desktop
    }
}

/// The class of a height, by how it compares with the two thresholds.
pub open spec fn height_tier(below_ref: bool, from_large: bool) -> HeightTier {
    if below_ref {
        HeightTier::Short
    } else if from_large {
        HeightTier::Tall
    } else {
        HeightTier::Normal
    }
}

impl<L: PartialOrd> ResponsiveLayout<L> {
    /// The class of a width.
    pub open spec fn width_class(&self, width: L) -> ViewportTier {
        width_tier(width.is_lt(&self.narrow_max_width), width.is_ge(&self.ultra_wide_min_width))
    }

    /// The class of a height.
    pub open spec fn height_class(&self, height: L) -> HeightTier {
        height_tier(height.is_lt(&self.viewport_ref_height), height.is_ge(&self.viewport_lg_height))
    }

    /// `tier` is the class of a width by how it compares with the two thresholds.
    pub open spec fn finds_width_class(&self, width: L, tier: ViewportTier) -> bool {
        let narrow = self.narrow_max_width;
        let ultra = self.ultra_wide_min_width;
        match tier {
            ViewportTier::Narrow => lengths::finds_less(width, narrow, true),
            ViewportTier::UltraWide => lengths::finds_less(width, narrow, false)
                && lengths::finds_reached(width, ultra, true),
            ViewportTier::Desktop => lengths::finds_less(width, narrow, false)
                && lengths::finds_reached(width, ultra, false),
        }
    }

    /// `tier` is the class of a height by how it compares with the two thresholds.
    pub open spec fn finds_height_class(&self, height: L, tier: HeightTier) -> bool {
        let usual = self.viewport_ref_height;
        let large = self.viewport_lg_height;
        match tier {
            HeightTier::Short => lengths::finds_less(height, usual, true),
            HeightTier::Tall => lengths::finds_less(height, usual, false)
                && lengths::finds_reached(height, large, true),
            HeightTier::Normal => lengths::finds_less(height, usual, false)
                && lengths::finds_reached(height, large, false),
        }
    }

    /// `value` is what `by_tier` holds for a class that a width is found to have.
    pub open spec fn finds_value<T>(&self, by_tier: ByTier<T>, width: L, value: T) -> bool {
        exists|tier: ViewportTier| #[trigger]
            self.finds_width_class(width, tier) && value == by_tier.value_for(tier)
    }

    /// The class of a window of this width.
    pub fn tier_for_width(&self, width: L) -> (tier: ViewportTier)
        ensures
            self.finds_width_class(width, tier),
            L::obeys_partial_cmp_spec() ==> tier == self.width_class(width),
    {
        if width < self.narrow_max_width {
            ViewportTier::Narrow
        } else if width >= self.ultra_wide_min_width {
            ViewportTier::UltraWide
        } else {
            ViewportTier::Desktop
        }
    }

    /// The class of a window of this height.
    pub fn tier_for_height(&self, height: L) -> (tier: HeightTier)
        ensures
            self.finds_height_class(height, tier),
            L::obeys_partial_cmp_spec() ==> tier == self.height_class(height),
    {
        if height < self.viewport_ref_height {
            HeightTier::Short
        } else if height >= self.viewport_lg_height {
            HeightTier::Tall
        } else {
            HeightTier::Normal
        }
    }

    /// The classes of a window of this size.
    pub fn tiers_for_size(&self, width: L, height: L) -> (tiers: ViewportTiers)
        ensures
            self.finds_width_class(width, tiers.width),
            self.finds_height_class(height, tiers.height),
            L::obeys_partial_cmp_spec() ==> tiers.width == self.width_class(width) && tiers.height
                == self.height_class(height),
    {
        ViewportTiers { width: self.tier_for_width(width), height: self.tier_for_height(height) }
    }

    /// The number of columns of the home dashboard in a window of this width.
    pub fn home_columns_for_width(&self, width: L) -> (columns: usize)
        ensures
            self.finds_value(self.home_columns, width, columns),
            L::obeys_partial_cmp_spec() ==> columns == self.home_columns.value_for(
                self.width_class(width),
            ),
    {
        self.home_columns.for_tier(self.tier_for_width(width))
    }
}

impl<L: PartialOrd + Copy> ResponsiveLayout<L> {
    /// The padding of the home dashboard in a window of this width.
    pub fn home_padding_x_for_width(&self, width: L) -> (padding: L)
        ensures
            self.finds_value(self.home_padding_x, width, padding),
            L::obeys_partial_cmp_spec() ==> padding == self.home_padding_x.value_for(
                self.width_class(width),
            ),
    {
        self.home_padding_x.for_tier(self.tier_for_width(width))
    }

    /// The largest height of a dialog's body in a window of this width.
    pub fn dialog_body_max_height_for_width(&self, width: L) -> (height: L)
        ensures
            self.finds_value(self.dialog_body_max_height, width, height),
            L::obeys_partial_cmp_spec() ==> height == self.dialog_body_max_height.value_for(
                self.width_class(width),
            ),
    {
        self.dialog_body_max_height.for_tier(self.tier_for_width(width))
    }

    /// The largest height of a dialog's body in a window of this size, where `room` is left
    /// between the dialog's title and its footer. A short window gives the body no more than
    /// that room, but a smallest height in any case.
    pub fn dialog_body_max_height_for_size(&self, width: L, height: L, room: L) -> (cap: L)
        ensures
            self.finds_body_cap(width, height, room, cap),
            L::obeys_partial_cmp_spec() ==> cap == self.body_cap(width, height, room),
    {
        let width_cap = self.dialog_body_max_height_for_width(width);
        let tier = self.tier_for_height(height);
        match tier {
            HeightTier::Short => {
                let wanted = lengths::larger_length(room, self.short_window_body_min_height);
                let cap = lengths::lesser_length(width_cap, wanted);
                assert(self.fits_class(tier, room, width_cap, cap));
                cap
            },
            HeightTier::Normal => {
                assert(self.fits_class(tier, room, width_cap, width_cap));
                width_cap
            },
            HeightTier::Tall => {
                assert(self.fits_class(tier, room, width_cap, width_cap));
                width_cap
            },
        }
    }

    /// `cap` is the largest height of a dialog's body in a window whose height is of class
    /// `tier` and whose width allows `width_cap`, by how the lengths compare.
    pub open spec fn fits_class(&self, tier: HeightTier, room: L, width_cap: L, cap: L) -> bool {
        if tier == HeightTier::Short {
            exists|wanted: L| #[trigger]
                lengths::is_larger(room, self.short_window_body_min_height, wanted)
                    && lengths::is_lesser(width_cap, wanted, cap)
        } else {
            cap == width_cap
        }
    }

    /// `cap` is the largest height of a dialog's body in a window of this size, by how the
    /// lengths compare.
    pub open spec fn finds_body_cap(&self, width: L, height: L, room: L, cap: L) -> bool {
        exists|tier: HeightTier, width_cap: L|
            {
                &&& self.finds_height_class(height, tier)
                &&& self.finds_value(self.dialog_body_max_height, width, width_cap)
                &&& #[trigger] self.fits_class(tier, room, width_cap, cap)
            }
    }

    /// The factor for the spaces in a window of this height, where `unscaled` changes nothing.
    pub fn vertical_spacing_scale(&self, height: L, unscaled: L) -> (scale: L)
        ensures
            exists|tier: HeightTier| #[trigger]
                self.finds_height_class(height, tier) && scale == if tier == HeightTier::Short {
                    self.short_window_spacing_scale
                } else {
                    unscaled
                },
            L::obeys_partial_cmp_spec() ==> scale == if self.height_class(height)
                == HeightTier::Short {
                self.short_window_spacing_scale
            } else {
                unscaled
            },
    {
        match self.tier_for_height(height) {
            HeightTier::Short => self.short_window_spacing_scale,
            HeightTier::Normal => unscaled,
            HeightTier::Tall => unscaled,
        }
    }

    /// The largest height of a dialog's body in a window of this size.
    pub open spec fn body_cap(&self, width: L, height: L, room: L) -> L {
        let width_cap = self.dialog_body_max_height.value_for(self.width_class(width));
        if self.height_class(height) == HeightTier::Short {
            lengths::lesser(
                width_cap,
                lengths::larger(room, self.short_window_body_min_height),
            )
        } else {
            width_cap
        }
    }

    /// Whether the headers of the home cards are compact where the content has this width.
    pub fn home_compact_headers(&self, content_width: L) -> (compact: bool)
        ensures
            lengths::finds_less(content_width, self.home_compact_header_content, compact),
            L::obeys_partial_cmp_spec() ==> compact == content_width.is_lt(
                &self.home_compact_header_content,
            ),
    {
        content_width < self.home_compact_header_content
    }
}

/// The number of columns that the home dashboard really has: one where it is a list, where one
/// is asked for, or where the content is too narrow.
pub open spec fn columns_of(mode: HomeLayoutMode, columns: usize, below_stack: bool) -> usize {
    if mode == HomeLayoutMode::List || mode == HomeLayoutMode::Column || columns <= 1
        || below_stack {
        1
    } else {
        columns
    }
}

/// The number of columns that the home dashboard really has; `below_stack` tells whether the
/// content is narrower than the width below which the columns are stacked.
pub fn effective_columns(mode: HomeLayoutMode, columns: usize, below_stack: bool) -> (n: usize)
    ensures
        n == columns_of(mode, columns, below_stack),
{
    if mode == HomeLayoutMode::List || mode == HomeLayoutMode::Column || columns <= 1
        || below_stack {
        1
    } else {
        columns
    }
}

/// What is hidden is not shown; what is shown is asked for; and what is asked for and not hidden
/// is shown.
pub proof fn hidden_sections_stay_hidden(
    order: Seq<HomeSection>,
    hidden: Seq<HomeSection>,
    section: HomeSection,
)
    ensures
        shown_sections(order, hidden).contains(section) <==> order.contains(section)
            && !hidden.contains(section),
    decreases order.len(),
{
    let keep = |s: HomeSection| !hidden.contains(s);
    reveal(Seq::filter);
    if order.len() > 0 {
        let front = order.drop_last();
        let last = order.last();
        hidden_sections_stay_hidden(front, hidden, section);
        assert(order =~= front.push(last));
        assert(front.push(last).contains(section) <==> front.contains(section) || section == last)
            by {
            if front.contains(section) {
                let k = choose|k: int| 0 <= k < front.len() && front[k] == section;
                assert(front.push(last)[k] == section);
            }
            if section == last {
                assert(front.push(last)[front.len() as int] == section);
            }
        }
        if keep(last) {
            let kept = front.filter(keep);
            assert(order.filter(keep) == kept.push(last));
            if kept.contains(section) {
                let k = choose|k: int| 0 <= k < kept.len() && kept[k] == section;
                assert(kept.push(last)[k] == section);
            }
            if section == last {
                assert(kept.push(last)[kept.len() as int] == section);
            }
        }
    }
}

/// With the thresholds in order, a wider window is of no narrower class.
pub proof fn wider_windows_are_no_narrower(layout: ResponsiveLayout<i64>, width: i64, wider: i64)
    requires
        width <= wider,
        layout.narrow_max_width <= layout.ultra_wide_min_width,
    ensures
        layout.width_class(wider) is Narrow ==> layout.width_class(width) is Narrow,
        layout.width_class(width) is UltraWide ==> layout.width_class(wider) is UltraWide,
{
}

/// The body of a dialog is never higher than the window's width allows. In a window that is not
/// short it may be as high as that; in a short one it has the room between the title and the
/// footer, or its smallest height where that is more. A length that compares with nothing
/// bounds nothing.
pub proof fn dialog_bodies_fit<L: PartialOrd + Copy>(
    layout: ResponsiveLayout<L>,
    width: L,
    height: L,
    room: L,
)
    ensures
        ({
            let cap = layout.dialog_body_max_height.value_for(layout.width_class(width));
            let given = layout.body_cap(width, height, room);
            &&& cap.is_le(&cap) ==> given == cap || given.is_lt(&cap)
            &&& !(layout.height_class(height) is Short) ==> given == cap
            &&& layout.height_class(height) is Short ==> given == lengths::lesser(
                cap,
                lengths::larger(room, layout.short_window_body_min_height),
            )
        }),
{
}

/// The same for lengths of any kind, by how they compare: what a dialog's body gets is what the
/// window's width allows, or was found to be less than that, unless what the width allows
/// compares with nothing. It is just what the width allows wherever the height was not found to
/// be less than the usual one.
pub proof fn dialog_bodies_fit_by_comparison<L: PartialOrd + Copy>(
    layout: ResponsiveLayout<L>,
    width: L,
    height: L,
    room: L,
    given: L,
)
    requires
        layout.finds_body_cap(width, height, room, given),
    ensures
        exists|cap: L| #[trigger]
            layout.finds_value(layout.dialog_body_max_height, width, cap) && {
                &&& given == cap || lengths::finds_less(given, cap, true)
                    || lengths::finds_at_most(cap, cap, false)
                &&& given != cap ==> lengths::finds_less(
                    height,
                    layout.viewport_ref_height,
                    true,
                )
                &&& given != cap ==> given == room || given == layout.short_window_body_min_height
            },
{
    let (tier, cap) = choose|tier: HeightTier, cap: L|
        {
            &&& layout.finds_height_class(height, tier)
            &&& layout.finds_value(layout.dialog_body_max_height, width, cap)
            &&& #[trigger] layout.fits_class(tier, room, cap, given)
        };
    assert(layout.finds_value(layout.dialog_body_max_height, width, cap));
}

/// At first the home dashboard is a grid and shows every section, in the usual order.
pub proof fn the_dashboard_starts_with_everything(layout: HomeLayout, section: HomeSection)
    requires
        call_ensures(HomeLayout::default, (), layout),
    ensures
        layout.mode is Grid,
        layout.hidden_sections@.len() == 0,
        layout.section_order@.contains(section),
        layout.section_order@.no_duplicates(),
        layout.section_order@[0] is Hero && layout.section_order@[1] is QuickActions
            && layout.section_order@[2] is MeshHealth && layout.section_order@[3] is PeopleActivity
            && layout.section_order@[4] is Tunnels,
        shown_sections(layout.section_order@, layout.hidden_sections@) == layout.section_order@,
{
    let place: int = match section {
        HomeSection::Hero => 0,
        HomeSection::QuickActions => 1,
        HomeSection::MeshHealth => 2,
        HomeSection::PeopleActivity => 3,
        HomeSection::Tunnels => 4,
    };
    assert(baseline_sections()[place] == section);
    lemma_nothing_hidden(layout.section_order@, layout.hidden_sections@);
}

proof fn lemma_nothing_hidden(order: Seq<HomeSection>, hidden: Seq<HomeSection>)
    requires
        hidden.len() == 0,
    ensures
        shown_sections(order, hidden) == order,
    decreases order.len(),
{
    reveal(Seq::filter);
    if order.len() > 0 {
        lemma_nothing_hidden(order.drop_last(), hidden);
        assert(order.drop_last().push(order.last()) =~= order);
    } else {
        assert(shown_sections(order, hidden) =~= order);
    }
}

/// Section by section, one that is hidden is left out and any other follows those before it.
pub proof fn sections_are_shown_in_their_order(
    order: Seq<HomeSection>,
    hidden: Seq<HomeSection>,
    section: HomeSection,
)
    ensures
        hidden.contains(section) ==> shown_sections(order.push(section), hidden) == shown_sections(
            order,
            hidden,
        ),
        !hidden.contains(section) ==> shown_sections(order.push(section), hidden)
            == shown_sections(order, hidden).push(section),
        shown_sections(Seq::empty(), hidden) == Seq::<HomeSection>::empty(),
{
    reveal(Seq::filter);
    assert(order.push(section).drop_last() =~= order);
}

/// At first the sidebar shows every section, in the usual order.
pub proof fn the_sidebar_starts_with_everything(layout: SidebarLayout, section: SidebarSection)
    requires
        call_ensures(SidebarLayout::default, (), layout),
    ensures
        layout.hidden_sections@.len() == 0,
        layout.section_order@.contains(section),
        layout.section_order@.no_duplicates(),
        layout.section_order@[0] is Chats && layout.section_order@[1] is Groups
            && layout.section_order@[2] is Friends && layout.section_order@[3] is Discover
            && layout.section_order@[4] is PublicRooms && layout.section_order@[5] is Requests,
{
    let place: int = match section {
        SidebarSection::Chats => 0,
        SidebarSection::Groups => 1,
        SidebarSection::Friends => 2,
        SidebarSection::Discover => 3,
        SidebarSection::PublicRooms => 4,
        SidebarSection::Requests => 5,
    };
    assert(layout.section_order@[place] == section);
}

/// The sidebar is compact up to the smallest width, and whole in any wider window.
pub proof fn narrow_windows_have_a_compact_sidebar(
    sidebar: SidebarLayout,
    width: i64,
    responsive: ResponsiveLayout<i64>,
    mode: SidebarMode,
)
    requires
        call_ensures(SidebarLayout::mode_for_width::<i64>, (&sidebar, width, &responsive), mode),
    ensures
        mode is Compact <==> width <= responsive.viewport_min_width,
        mode is Full <==> width > responsive.viewport_min_width,
{
}

/// The bar for messages has each of its buttons once, and ends with the one that sends.
pub proof fn the_composer_has_every_button(buttons: Vec<ComposerButton>, button: ComposerButton)
    requires
        call_ensures(composer_buttons, (), buttons),
    ensures
        buttons@.contains(button),
        buttons@.no_duplicates(),
        buttons@.len() == 5,
        buttons@[0] is Attach && buttons@[1] is Folder && buttons@[2] is Gif && buttons@[3]
            is Emoji && buttons@[4] is Send,
{
    let place: int = match button {
        ComposerButton::Attach => 0,
        ComposerButton::Folder => 1,
        ComposerButton::Gif => 2,
        ComposerButton::Emoji => 3,
        ComposerButton::Send => 4,
    };
    assert(buttons@[place] == button);
}

/// Components are placed the same at first, but for the card of a video, which has its picture on
/// top and stands upright, and the row of a shared file, which has its buttons at its side.
pub proof fn components_differ_where_they_must(
    layout: ComponentLayout,
    usual: ComponentPlacement,
)
    requires
        call_ensures(ComponentLayout::default, (), layout),
        call_ensures(ComponentPlacement::default, (), usual),
    ensures
        usual.thumbnail_position is Left && usual.metadata_alignment is Start
            && usual.button_placement is Below && usual.card_orientation is Horizontal,
        layout.thumbnail_position == usual.thumbnail_position && layout.metadata_alignment
            == usual.metadata_alignment && layout.button_placement == usual.button_placement
            && layout.card_orientation == usual.card_orientation,
        layout.video_card.thumbnail_position is Top && layout.video_card.card_orientation
            is Vertical && layout.video_card.metadata_alignment == usual.metadata_alignment
            && layout.video_card.button_placement == usual.button_placement,
        layout.shared_by_me.button_placement is Side && layout.shared_by_me.thumbnail_position
            == usual.thumbnail_position && layout.shared_by_me.metadata_alignment
            == usual.metadata_alignment && layout.shared_by_me.card_orientation
            == usual.card_orientation,
{
}

/// Each class of width has its own value.
pub proof fn each_class_has_its_value<T>(values: ByTier<T>)
    ensures
        values.value_for(ViewportTier::Narrow) == values.narrow,
        values.value_for(ViewportTier::Desktop) == values.desktop,
        values.value_for(ViewportTier::UltraWide) == values.ultra_wide,
{
}

/// The thresholds part the widths and the heights: the lower one belongs to what lies above it,
/// and so does the upper one.
pub proof fn thresholds_belong_to_what_is_above(
    layout: ResponsiveLayout<i64>,
    width: i64,
    height: i64,
)
    requires
        layout.narrow_max_width <= layout.ultra_wide_min_width,
        layout.viewport_ref_height <= layout.viewport_lg_height,
    ensures
        layout.width_class(width) is Narrow <==> width < layout.narrow_max_width,
        layout.width_class(width) is Desktop <==> layout.narrow_max_width <= width
            < layout.ultra_wide_min_width,
        layout.width_class(width) is UltraWide <==> layout.ultra_wide_min_width <= width,
        layout.height_class(height) is Short <==> height < layout.viewport_ref_height,
        layout.height_class(height) is Normal <==> layout.viewport_ref_height <= height
            < layout.viewport_lg_height,
        layout.height_class(height) is Tall <==> layout.viewport_lg_height <= height,
{
}

/// What depends on the window is what the class of its width or height gives.
pub proof fn windows_get_what_their_class_gives(
    layout: ResponsiveLayout<i64>,
    width: i64,
    height: i64,
    unscaled: i64,
    columns: usize,
    padding: i64,
    cap: i64,
    scale: i64,
    tiers: ViewportTiers,
)
    requires
        call_ensures(ResponsiveLayout::<i64>::home_columns_for_width, (&layout, width), columns),
        call_ensures(ResponsiveLayout::<i64>::home_padding_x_for_width, (&layout, width), padding),
        call_ensures(
            ResponsiveLayout::<i64>::dialog_body_max_height_for_width,
            (&layout, width),
            cap,
        ),
        call_ensures(
            ResponsiveLayout::<i64>::vertical_spacing_scale,
            (&layout, height, unscaled),
            scale,
        ),
        call_ensures(ResponsiveLayout::<i64>::tiers_for_size, (&layout, width, height), tiers),
    ensures
        tiers.width == layout.width_class(width) && tiers.height == layout.height_class(height),
        tiers.width is Narrow ==> columns == layout.home_columns.narrow && padding
            == layout.home_padding_x.narrow && cap == layout.dialog_body_max_height.narrow,
        tiers.width is Desktop ==> columns == layout.home_columns.desktop && padding
            == layout.home_padding_x.desktop && cap == layout.dialog_body_max_height.desktop,
        tiers.width is UltraWide ==> columns == layout.home_columns.ultra_wide && padding
            == layout.home_padding_x.ultra_wide && cap == layout.dialog_body_max_height.ultra_wide,
        tiers.height is Short ==> scale == layout.short_window_spacing_scale,
        !(tiers.height is Short) ==> scale == unscaled,
{
}

/// The headers of the cards are compact below their width and only there.
pub proof fn narrow_contents_have_compact_headers(
    layout: ResponsiveLayout<i64>,
    width: i64,
    compact: bool,
)
    requires
        call_ensures(ResponsiveLayout::<i64>::home_compact_headers, (&layout, width), compact),
    ensures
        compact <==> width < layout.home_compact_header_content,
{
}

/// A list and a column have one column, and so has what is too narrow or asks for none; any other
/// has as many as it asks for.
pub proof fn columns_are_stacked_where_they_must(
    mode: HomeLayoutMode,
    columns: usize,
    below_stack: bool,
)
    ensures
        columns_of(mode, columns, below_stack) >= 1,
        mode is List || mode is Column || below_stack ==> columns_of(mode, columns, below_stack)
            == 1,
        (mode is Grid || mode is Row) && !below_stack && columns >= 1 ==> columns_of(
            mode,
            columns,
            below_stack,
        ) == columns,
{
}

/// The body of a dialog in whole numbers: in a short window it has the room that is left, but
/// never less than its smallest height nor more than the width allows, which comes first.
pub proof fn dialog_bodies_in_numbers(
    layout: ResponsiveLayout<i64>,
    width: i64,
    height: i64,
    room: i64,
)
    ensures
        ({
            let cap = layout.dialog_body_max_height.value_for(layout.width_class(width));
            let floor = layout.short_window_body_min_height;
            let given = layout.body_cap(width, height, room);
            &&& given <= cap
            &&& height >= layout.viewport_ref_height ==> given == cap
            &&& height < layout.viewport_ref_height && floor <= room <= cap ==> given == room
            &&& height < layout.viewport_ref_height && room <= floor <= cap ==> given == floor
            &&& height < layout.viewport_ref_height && (cap <= floor || cap <= room) ==> given
                == cap
        }),
{
}

/// Sections, columns and dialogs get what the layout and the window give them.
pub proof fn layouts_are_followed(
    home: HomeLayout,
    layout: ResponsiveLayout<i64>,
    width: i64,
    height: i64,
    room: i64,
    columns: usize,
    below_stack: bool,
    shown: Vec<HomeSection>,
    section: HomeSection,
    found: bool,
    n: usize,
    cap: i64,
    width_tier: ViewportTier,
    height_tier: HeightTier,
)
    requires
        call_ensures(HomeLayout::visible_sections, (&home,), shown),
        call_ensures(holds_section, (&shown, section), found),
        call_ensures(effective_columns, (home.mode, columns, below_stack), n),
        call_ensures(
            ResponsiveLayout::<i64>::dialog_body_max_height_for_size,
            (&layout, width, height, room),
            cap,
        ),
        call_ensures(ResponsiveLayout::<i64>::tier_for_width, (&layout, width), width_tier),
        call_ensures(ResponsiveLayout::<i64>::tier_for_height, (&layout, height), height_tier),
    ensures
        found <==> home.section_order@.contains(section) && !home.hidden_sections@.contains(
            section,
        ),
        n == columns_of(home.mode, columns, below_stack),
        width_tier == layout.width_class(width) && height_tier == layout.height_class(height),
        cap <= layout.dialog_body_max_height.value_for(width_tier),
        height >= layout.viewport_ref_height ==> cap == layout.dialog_body_max_height.value_for(
            width_tier,
        ),
        cap == layout.body_cap(width, height, room),
{
    hidden_sections_stay_hidden(home.section_order@, home.hidden_sections@, section);
}

} // verus!
