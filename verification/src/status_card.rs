//! The card about the network: what it says, what it can do, and how it is arranged.

use vstd::prelude::*;
use vstd::std_specs::cmp::{PartialOrdIs, PartialOrdSpec};
use vstd::string::*;

use crate::home::NetworkCard;
use crate::lengths;
use crate::mesh_status::{HomeConnectionVariant, HomeIcon};
use crate::palette::{ColorTokens, Rgba};
use crate::palette;
use crate::phrase::{Phrase, PhraseView};
use crate::phrase;
use crate::text;

verus! {

/// What is said of where the places on the map come from.
pub const GEOLOCATION_CREDIT: &'static str = "IP Geolocation by DB-IP · CC BY 4.0 · offline";

/// Where the credit leads.
pub const GEOLOCATION_URL: &'static str = "https://db-ip.com/";

/// The first word of the heading, with a space that does not break.
pub const HEADING_BRAND: &'static str = "Boru\u{00A0}";

/// The arrangement of the card, by its width.
#[derive(Debug, Clone, Copy, PartialEq, Eq, Structural)]
pub enum Tier {
    /// The picture of the network beside the text.
    Full,
    /// The same, but closer.
    Medium,
    /// Everything stacked.
    Narrow,
}

/// The widths at which the card changes.
#[derive(Debug, Clone, Copy, PartialEq)]
pub struct CardBreakpoints<L> {
    /// From this width on the card is in full.
    pub medium_content: L,
    /// From this width on the card is not stacked.
    pub narrow_content: L,
    /// From this width on the picture of the network is drawn.
    pub mesh_hide_content: L,
}

/// The arrangement of a card of this width.
pub open spec fn tier_of<L: PartialOrd>(width: L, at: CardBreakpoints<L>) -> Tier {
    if width.is_ge(&at.medium_content) {
        Tier::Full
    } else if width.is_ge(&at.narrow_content) {
        Tier::Medium
    } else {
        Tier::Narrow
    }
}

/// `tier` is the arrangement of a card of this width, by how the widths compare.
pub open spec fn finds_tier<L: PartialOrd>(width: L, at: CardBreakpoints<L>, tier: Tier) -> bool {
    match tier {
        Tier::Full => lengths::finds_reached(width, at.medium_content, true),
        Tier::Medium => lengths::finds_reached(width, at.medium_content, false)
            && lengths::finds_reached(width, at.narrow_content, true),
        Tier::Narrow => lengths::finds_reached(width, at.medium_content, false)
            && lengths::finds_reached(width, at.narrow_content, false),
    }
}

/// The arrangement of a card of this width.
pub fn layout_tier<L: PartialOrd>(content_width: L, at: CardBreakpoints<L>) -> (tier: Tier)
    ensures
        finds_tier(content_width, at, tier),
        L::obeys_partial_cmp_spec() ==> tier == tier_of(content_width, at),
{
    if content_width >= at.medium_content {
        Tier::Full
    } else if content_width >= at.narrow_content {
        Tier::Medium
    } else {
        Tier::Narrow
    }
}

/// Whether the picture of the network is drawn in a card of this width.
pub fn mesh_rendered<L: PartialOrd>(content_width: L, at: CardBreakpoints<L>) -> (drawn: bool)
    ensures
        lengths::finds_reached(content_width, at.mesh_hide_content, drawn),
        L::obeys_partial_cmp_spec() ==> drawn == content_width.is_ge(&at.mesh_hide_content),
{
    content_width >= at.mesh_hide_content
}

/// Where the picture of the network stands.
#[derive(Debug, Clone, Copy, PartialEq, Eq, Structural)]
pub enum MeshPlace {
    /// Nowhere.
    Hidden,
    /// Beside the text, in the room that the text leaves.
    Beside,
    /// Below the text, in its own size.
    Below,
}

/// Where the picture of the network stands in a card of this width.
pub open spec fn place_of<L: PartialOrd>(width: L, at: CardBreakpoints<L>) -> MeshPlace {
    if !width.is_ge(&at.mesh_hide_content) {
        MeshPlace::Hidden
    } else if tier_of(width, at) == Tier::Narrow {
        MeshPlace::Below
    } else {
        MeshPlace::Beside
    }
}

/// `place` is where the picture of the network stands in a card of this width, by how the widths
/// compare.
pub open spec fn finds_place<L: PartialOrd>(
    width: L,
    at: CardBreakpoints<L>,
    place: MeshPlace,
) -> bool {
    match place {
        MeshPlace::Hidden => lengths::finds_reached(width, at.mesh_hide_content, false),
        MeshPlace::Below => lengths::finds_reached(width, at.mesh_hide_content, true)
            && finds_tier(width, at, Tier::Narrow),
        MeshPlace::Beside => lengths::finds_reached(width, at.mesh_hide_content, true) && (
        finds_tier(width, at, Tier::Medium) || finds_tier(width, at, Tier::Full)),
    }
}

/// Where the picture of the network stands in a card of this width.
pub fn mesh_place<L: PartialOrd + Copy>(content_width: L, at: CardBreakpoints<L>) -> (place:
    MeshPlace)
    ensures
        finds_place(content_width, at, place),
        L::obeys_partial_cmp_spec() ==> place == place_of(content_width, at),
{
    if !mesh_rendered(content_width, at) {
        MeshPlace::Hidden
    } else if layout_tier(content_width, at) == Tier::Narrow {
        MeshPlace::Below
    } else {
        MeshPlace::Beside
    }
}

/// The colour of the state.
#[derive(Debug, Clone, Copy, PartialEq, Eq, Structural)]
pub enum StatusAccent {
    Connected,
    Warning,
    Danger,
}

/// The colour of the state: green where the network is ready, amber on the way there or where it
/// works badly, red where it does not work.
pub fn variant_accent(variant: HomeConnectionVariant) -> (accent: StatusAccent)
    ensures
        accent == accent_of(variant),
{
    match variant {
        HomeConnectionVariant::Ready => StatusAccent::Connected,
        HomeConnectionVariant::Starting => StatusAccent::Warning,
        HomeConnectionVariant::Connecting => StatusAccent::Warning,
        HomeConnectionVariant::Degraded => StatusAccent::Warning,
        HomeConnectionVariant::Offline => StatusAccent::Danger,
    }
}

/// The colour of the state.
pub open spec fn accent_of(variant: HomeConnectionVariant) -> StatusAccent {
    match variant {
        HomeConnectionVariant::Ready => StatusAccent::Connected,
        HomeConnectionVariant::Offline => StatusAccent::Danger,
        _ => StatusAccent::Warning,
    }
}

/// The colour itself; the card is dark in either theme, and so is the same in both.
pub open spec fn accent_value(accent: StatusAccent) -> Rgba {
    match accent {
        StatusAccent::Connected => palette::rgb8(0x4D, 0xE5, 0xA3),
        StatusAccent::Warning => palette::rgb8(0xE8, 0xA3, 0x3D),
        StatusAccent::Danger => palette::rgb8(0xE5, 0x5B, 0x5B),
    }
}

/// The colour itself.
pub fn accent_color(accent: StatusAccent) -> (color: Rgba)
    ensures
        color == accent_value(accent),
{
    let colors = ColorTokens::light();
    match accent {
        StatusAccent::Connected => colors.status_connected,
        StatusAccent::Warning => colors.status_warning,
        StatusAccent::Danger => colors.status_danger,
    }
}

/// The sign of the state.
#[derive(Debug, Clone, Copy, PartialEq, Eq, Structural)]
pub struct StatusIndicator {
    pub glyph: HomeIcon,
    /// Whether the glyph has the colour of the state; else it has that of a check mark.
    pub glyph_in_accent: bool,
    /// Whether the glow inside the ring is strong.
    pub strong_glow: bool,
}

/// The sign of the state: a check mark where the network is ready.
pub open spec fn indicator_of(variant: HomeConnectionVariant) -> StatusIndicator {
    StatusIndicator {
        glyph: match variant {
            HomeConnectionVariant::Ready => HomeIcon::Check,
            HomeConnectionVariant::Degraded => HomeIcon::Mesh,
            HomeConnectionVariant::Offline => HomeIcon::Offline,
            _ => HomeIcon::Retry,
        },
        glyph_in_accent: !(variant is Ready),
        strong_glow: variant is Ready,
    }
}

/// The sign of the state.
pub fn status_indicator(variant: HomeConnectionVariant) -> (indicator: StatusIndicator)
    ensures
        indicator == indicator_of(variant),
{
    let ready = variant == HomeConnectionVariant::Ready;
    StatusIndicator {
        glyph: match variant {
            HomeConnectionVariant::Ready => HomeIcon::Check,
            HomeConnectionVariant::Starting => HomeIcon::Retry,
            HomeConnectionVariant::Connecting => HomeIcon::Retry,
            HomeConnectionVariant::Degraded => HomeIcon::Mesh,
            HomeConnectionVariant::Offline => HomeIcon::Offline,
        },
        glyph_in_accent: !ready,
        strong_glow: ready,
    }
}

/// The heading of the card.
#[derive(Debug)]
pub enum StatusHeading {
    /// The brand in green, then the rest of the sentence.
    TwoTone { brand: &'static str, tail: Phrase },
    /// The headline in the colour of the state.
    Plain(Phrase),
}

/// What a [`StatusHeading`] holds.
pub enum HeadingView {
    TwoTone { brand: Seq<char>, tail: PhraseView },
    Plain(PhraseView),
}

impl View for StatusHeading {
    type V = HeadingView;

    open spec fn view(&self) -> HeadingView {
        match self {
            StatusHeading::TwoTone { brand, tail } => HeadingView::TwoTone {
                brand: brand@,
                tail: tail@,
            },
            StatusHeading::Plain(headline) => HeadingView::Plain(headline@),
        }
    }
}

/// The heading of the card: the brand's own sentence where the network is ready, the headline
/// elsewhere.
pub open spec fn heading_of(variant: HomeConnectionVariant, headline: PhraseView) -> HeadingView {
    if variant is Ready {
        HeadingView::TwoTone {
            brand: HEADING_BRAND@,
            tail: phrase::plain("status.connected_tail"@),
        }
    } else {
        HeadingView::Plain(headline)
    }
}

/// The heading of the card.
pub fn status_heading(variant: HomeConnectionVariant, headline: Phrase) -> (heading: StatusHeading)
    ensures
        heading@ == heading_of(variant, headline@),
{
    match variant {
        HomeConnectionVariant::Ready => StatusHeading::TwoTone {
            brand: HEADING_BRAND,
            tail: Phrase::new("status.connected_tail"),
        },
        _ => StatusHeading::Plain(headline),
    }
}

/// The counts that the card sums up.
#[derive(Debug, Clone, Copy, PartialEq, Eq, Structural)]
pub struct CardCounts {
    pub direct: usize,
    pub relayed: usize,
    pub neighbors: usize,
}

/// A number and a word.
pub open spec fn counted(n: usize, word: Seq<char>) -> Seq<char> {
    text::decimal(n as nat) + word
}

/// The summary of the card, part by part.
pub open spec fn footer_parts(health: Seq<char>, counts: CardCounts, encryption: Seq<char>) -> Seq<
    Seq<char>,
> {
    seq![
        "Mesh "@ + health,
        counted(counts.direct, " direct"@),
        counted(counts.relayed, " relayed"@),
        encryption,
        counted(counts.neighbors, " neighbours"@),
    ]
}

/// A number and a word.
fn count_words(n: usize, word: &str) -> (out: String)
    ensures
        out@ == counted(n, word@),
{
    let mut out = text::decimal_text(n as u64);
    out.append(word);
    out
}

/// The summary of the card, part by part.
pub fn network_stats_footer(health: &str, counts: CardCounts, encryption: &str) -> (parts: Vec<
    String,
>)
    ensures
        text::texts(parts@) == footer_parts(health@, counts, encryption@),
{
    let mut mesh = "Mesh ".to_owned();
    mesh.append(health);
    let mut parts: Vec<String> = Vec::new();
    parts.push(mesh);
    parts.push(count_words(counts.direct, " direct"));
    parts.push(count_words(counts.relayed, " relayed"));
    parts.push(encryption.to_owned());
    parts.push(count_words(counts.neighbors, " neighbours"));
    assert(text::texts(parts@) =~= footer_parts(health@, counts, encryption@));
    parts
}

/// The key for a count: one key for one, the other for any other number.
pub open spec fn stat_key(count: usize, singular: Seq<char>, plural: Seq<char>) -> Seq<char> {
    if count == 1 {
        singular
    } else {
        plural
    }
}

/// The key for a count.
pub fn network_stat_key<'a>(count: usize, singular: &'a str, plural: &'a str) -> (key: &'a str)
    ensures
        key@ == stat_key(count, singular@, plural@),
{
    if count == 1 {
        singular
    } else {
        plural
    }
}

/// A count in words.
pub fn network_stat_text(count: usize, singular: &str, plural: &str) -> (stat: Phrase)
    ensures
        stat@ == phrase::with(
            phrase::plain(stat_key(count, singular@, plural@)),
            "count"@,
            text::decimal(count as nat),
        ),
{
    let key = network_stat_key(count, singular, plural);
    Phrase::new(key).arg("count", text::decimal_text(count as u64).as_str())
}

/// Something that the user can do from the card.
#[derive(Debug, Clone, Copy, PartialEq, Eq, Structural)]
pub enum CardAction {
    RetryConnection,
    OpenConnectionDetails,
}

/// What the user can do, in order.
pub open spec fn actions_of(show_retry: bool, show_details: bool) -> Seq<CardAction> {
    (if show_retry {
        seq![CardAction::RetryConnection]
    } else {
        Seq::empty()
    }) + (if show_details {
        seq![CardAction::OpenConnectionDetails]
    } else {
        Seq::empty()
    })
}

/// What the user can do, in order.
pub fn actions_row(show_retry: bool, show_details: bool) -> (actions: Vec<CardAction>)
    ensures
        actions@ == actions_of(show_retry, show_details),
{
    let mut actions: Vec<CardAction> = Vec::new();
    if show_retry {
        actions.push(CardAction::RetryConnection);
    }
    if show_details {
        actions.push(CardAction::OpenConnectionDetails);
    }
    assert(actions@ =~= actions_of(show_retry, show_details));
    actions
}

/// What is known of the machine's own place in the network.
#[derive(Debug, Clone, PartialEq, Eq, Hash)]
pub struct LocationInfo {
    pub addresses: String,
    pub location: String,
}

/// The card about the network as it is drawn.
#[derive(Debug)]
pub struct StatusCard {
    pub accent: StatusAccent,
    pub indicator: StatusIndicator,
    pub heading: StatusHeading,
    /// The summary, part by part.
    pub summary: Vec<String>,
    /// The lines below the summary.
    pub location_lines: Vec<String>,
    /// Whether the credit stands below those lines.
    pub show_credit: bool,
    pub actions: Vec<CardAction>,
    pub tier: Tier,
    pub mesh: MeshPlace,
}

/// The lines about the machine's own place.
pub open spec fn location_texts(info: Option<LocationInfo>) -> Seq<Seq<char>> {
    match info {
        Some(i) => seq![i.addresses@, i.location@],
        None => Seq::empty(),
    }
}

/// The card about the network as it is drawn. `health` and `encryption` are in the user's
/// language.
pub fn view_status_card_with_location<L: PartialOrd + Copy>(
    network: NetworkCard,
    health: &str,
    encryption: &str,
    counts: CardCounts,
    info: Option<LocationInfo>,
    content_width: L,
    at: CardBreakpoints<L>,
) -> (card: StatusCard)
    ensures
        card.accent == accent_of(network.variant),
        card.indicator == indicator_of(network.variant),
        card.heading@ == heading_of(network.variant, network.headline@),
        text::texts(card.summary@) == footer_parts(health@, counts, encryption@),
        text::texts(card.location_lines@) == location_texts(info),
        card.show_credit == (info is Some),
        card.actions@ == actions_of(network.show_retry, network.show_details),
        finds_tier(content_width, at, card.tier),
        finds_place(content_width, at, card.mesh),
        L::obeys_partial_cmp_spec() ==> card.tier == tier_of(content_width, at),
        L::obeys_partial_cmp_spec() ==> card.mesh == place_of(content_width, at),
{
    let show_credit = info.is_some();
    let mut location_lines: Vec<String> = Vec::new();
    if let Some(i) = &info {
        location_lines.push(i.addresses.clone());
        location_lines.push(i.location.clone());
    }
    assert(text::texts(location_lines@) =~= location_texts(info));
    StatusCard {
        accent: variant_accent(network.variant),
        indicator: status_indicator(network.variant),
        heading: status_heading(network.variant, network.headline),
        summary: network_stats_footer(health, counts, encryption),
        location_lines,
        show_credit,
        actions: actions_row(network.show_retry, network.show_details),
        tier: layout_tier(content_width, at),
        mesh: mesh_place(content_width, at),
    }
}

/// The card about the network as it is drawn, without the machine's own place.
pub fn view_status_card<L: PartialOrd + Copy>(
    network: NetworkCard,
    health: &str,
    encryption: &str,
    counts: CardCounts,
    content_width: L,
    at: CardBreakpoints<L>,
) -> (card: StatusCard)
    ensures
        card.accent == accent_of(network.variant),
        card.indicator == indicator_of(network.variant),
        card.heading@ == heading_of(network.variant, network.headline@),
        text::texts(card.summary@) == footer_parts(health@, counts, encryption@),
        card.location_lines@.len() == 0,
        !card.show_credit,
        card.actions@ == actions_of(network.show_retry, network.show_details),
        finds_tier(content_width, at, card.tier),
        finds_place(content_width, at, card.mesh),
        L::obeys_partial_cmp_spec() ==> card.tier == tier_of(content_width, at),
        L::obeys_partial_cmp_spec() ==> card.mesh == place_of(content_width, at),
{
    let card = view_status_card_with_location(
        network,
        health,
        encryption,
        counts,
        None,
        content_width,
        at,
    );
    assert(text::texts(card.location_lines@).len() == 0);
    card
}

/// One step of the hash: the byte is mixed in, then the whole is multiplied.
pub open spec fn seed_step(hash: u64, byte: u8) -> u64 {
    (((hash ^ byte as u64) as int * 0x100000001b3) % 0x1_0000_0000_0000_0000) as u64
}

/// The hash of the first bytes of a key.
pub open spec fn seed_of(key: Seq<u8>) -> u64
    decreases key.len(),
{
    if key.len() == 0 {
        0xcbf29ce484222325
    } else {
        seed_step(seed_of(key.drop_last()), key.last())
    }
}

/// A number that depends on a node's key alone, by which a point on the map is moved aside.
pub fn stable_node_seed(node_id: &[u8; 32]) -> (seed: u64)
    ensures
        seed == seed_of(node_id@),
{
    let mut hash: u64 = 0xcbf29ce484222325;
    let mut i: usize = 0;
    assert(node_id@.take(0) =~= Seq::<u8>::empty());
    while i < 32
        invariant
            i <= 32,
            hash == seed_of(node_id@.take(i as int)),
        decreases 32 - i,
    {
        let byte = node_id[i];
        assert(node_id@.take(i + 1).drop_last() =~= node_id@.take(i as int));
        hash = (hash ^ (byte as u64)).wrapping_mul(0x100000001b3);
        i += 1;
    }
    assert(node_id@.take(32) =~= node_id@);
    hash
}

/// A green state is shown only where the network is ready, and a red one only where it is
/// offline.
pub proof fn colours_are_truthful(variant: HomeConnectionVariant)
    ensures
        accent_of(variant) is Connected <==> variant is Ready,
        accent_of(variant) is Danger <==> variant is Offline,
{
}

/// With the widths in order, the picture of the network is drawn wherever it would stand beside
/// the text.
pub proof fn mesh_is_drawn_beside_the_text(width: i64, at: CardBreakpoints<i64>)
    requires
        at.mesh_hide_content <= at.narrow_content <= at.medium_content,
    ensures
        !(tier_of(width, at) is Narrow) ==> width >= at.mesh_hide_content,
{
}

/// The card is in full from the first width on, closer from the second on, and stacked below
/// both; the picture of the network is drawn from its own width on, beside the text unless that
/// is stacked.
pub proof fn cards_are_arranged_by_width(width: i64, at: CardBreakpoints<i64>)
    requires
        at.narrow_content <= at.medium_content,
    ensures
        tier_of(width, at) is Full <==> at.medium_content <= width,
        tier_of(width, at) is Medium <==> at.narrow_content <= width < at.medium_content,
        tier_of(width, at) is Narrow <==> width < at.narrow_content,
        place_of(width, at) is Hidden <==> width < at.mesh_hide_content,
        place_of(width, at) is Below <==> at.mesh_hide_content <= width && width
            < at.narrow_content,
        place_of(width, at) is Beside <==> at.mesh_hide_content <= width && at.narrow_content
            <= width,
{
}

/// On the way to the network and where it works badly the colour is amber.
pub proof fn amber_is_for_what_is_between(variant: HomeConnectionVariant)
    ensures
        accent_of(variant) is Warning <==> variant is Starting || variant is Connecting || variant
            is Degraded,
{
}

/// The colours of the states are these, by their codes.
pub proof fn accents_have_these_codes(accent: StatusAccent)
    ensures
        palette::is_bytes(accent_value(StatusAccent::Connected), 0x4DE5A3, 1000),
        palette::is_bytes(accent_value(StatusAccent::Warning), 0xE8A33D, 1000),
        palette::is_bytes(accent_value(StatusAccent::Danger), 0xE55B5B, 1000),
        accent_value(accent) == match accent {
            StatusAccent::Connected => palette::light_palette().status_connected,
            StatusAccent::Warning => palette::light_palette().status_warning,
            StatusAccent::Danger => palette::light_palette().status_danger,
        },
{
}

/// The sign is a check mark, glowing strongly and in the colour of a check mark, exactly where
/// the network is ready; elsewhere it has the colour of the state.
pub proof fn signs_tell_the_state(variant: HomeConnectionVariant)
    ensures
        indicator_of(variant).glyph is Check <==> variant is Ready,
        indicator_of(variant).glyph is Mesh <==> variant is Degraded,
        indicator_of(variant).glyph is Offline <==> variant is Offline,
        indicator_of(variant).glyph is Retry <==> variant is Starting || variant is Connecting,
        indicator_of(variant).glyph_in_accent <==> !(variant is Ready),
        indicator_of(variant).strong_glow <==> variant is Ready,
{
}

/// The brand's own sentence is the heading exactly where the network is ready; elsewhere the
/// headline is.
pub proof fn headings_tell_the_state(variant: HomeConnectionVariant, headline: PhraseView)
    ensures
        variant is Ready <==> heading_of(variant, headline) is TwoTone,
        variant is Ready ==> heading_of(variant, headline)->brand == "Boru\u{00A0}"@ && heading_of(
            variant,
            headline,
        )->tail == phrase::plain("status.connected_tail"@),
        !(variant is Ready) ==> heading_of(variant, headline) == HeadingView::Plain(headline),
{
}

/// The summary names the health, then counts the direct peers, the relayed peers and, behind the
/// encryption, the neighbours.
pub proof fn summaries_name_and_count(
    health: Seq<char>,
    counts: CardCounts,
    encryption: Seq<char>,
)
    ensures
        ({
            let parts = footer_parts(health, counts, encryption);
            &&& parts.len() == 5
            &&& parts[0] == "Mesh "@ + health
            &&& parts[1] == text::decimal(counts.direct as nat) + " direct"@
            &&& parts[2] == text::decimal(counts.relayed as nat) + " relayed"@
            &&& parts[3] == encryption
            &&& parts[4] == text::decimal(counts.neighbors as nat) + " neighbours"@
        }),
{
}

/// Exactly one is counted in the singular.
pub proof fn one_is_singular(
    count: usize,
    singular: &str,
    plural: &str,
    key: &str,
    stat: Phrase,
)
    requires
        call_ensures(network_stat_key, (count, singular, plural), key),
        call_ensures(network_stat_text, (count, singular, plural), stat),
    ensures
        count == 1 ==> key@ == singular@ && stat@.key == singular@,
        count != 1 ==> key@ == plural@ && stat@.key == plural@,
        stat@.args == seq![("count"@, text::decimal(count as nat))],
{
    assert(stat@.args =~= seq![("count"@, text::decimal(count as nat))]);
}

/// The user can try again and look at the details where the card shows these, in this order.
pub proof fn actions_are_those_shown(show_retry: bool, show_details: bool)
    ensures
        actions_of(show_retry, show_details).contains(CardAction::RetryConnection) <==> show_retry,
        actions_of(show_retry, show_details).contains(CardAction::OpenConnectionDetails)
            <==> show_details,
        actions_of(true, true) == seq![
            CardAction::RetryConnection,
            CardAction::OpenConnectionDetails,
        ],
        actions_of(show_retry, show_details).no_duplicates(),
{
    let shown = actions_of(show_retry, show_details);
    assert(actions_of(true, true) =~= seq![
        CardAction::RetryConnection,
        CardAction::OpenConnectionDetails,
    ]);
    if show_retry {
        assert(shown[0] == CardAction::RetryConnection);
    }
    if show_details {
        assert(shown.last() == CardAction::OpenConnectionDetails);
        assert(shown[shown.len() - 1] == CardAction::OpenConnectionDetails);
    }
}

/// Where the machine's own place is known, its addresses and its location follow the summary,
/// in this order, and the credit stands below; else neither does.
pub proof fn places_are_credited(
    network: NetworkCard,
    health: &str,
    encryption: &str,
    counts: CardCounts,
    info: Option<LocationInfo>,
    width: i64,
    at: CardBreakpoints<i64>,
    card: StatusCard,
)
    requires
        call_ensures(
            view_status_card_with_location::<i64>,
            (network, health, encryption, counts, info, width, at),
            card,
        ),
    ensures
        card.show_credit <==> info is Some,
        info is Some ==> card.location_lines@.len() == 2 && card.location_lines@[0]@
            == info->0.addresses@ && card.location_lines@[1]@ == info->0.location@,
        info is None ==> card.location_lines@.len() == 0,
        card.accent == accent_of(network.variant) && card.indicator == indicator_of(
            network.variant,
        ) && card.heading@ == heading_of(network.variant, network.headline@),
        card.actions@ == actions_of(network.show_retry, network.show_details),
        text::texts(card.summary@) == footer_parts(health@, counts, encryption@),
        GEOLOCATION_CREDIT@ == "IP Geolocation by DB-IP · CC BY 4.0 · offline"@,
        GEOLOCATION_URL@ == "https://db-ip.com/"@,
{
    let lines = text::texts(card.location_lines@);
    assert(lines.len() == card.location_lines@.len());
    if info is Some {
        assert(lines[0] == card.location_lines@[0]@);
        assert(lines[1] == card.location_lines@[1]@);
    }
}

/// The number of a node mixes in each byte of its key in order: with no byte it is the usual
/// start, and each byte is mixed in by exclusive or and spread by the usual prime.
pub proof fn node_numbers_mix_in_each_byte(key: Seq<u8>, byte: u8)
    ensures
        seed_of(Seq::empty()) == 14695981039346656037,
        seed_of(key.push(byte)) == (((seed_of(key) ^ byte as u64) as int * 1099511628211)
            % 18446744073709551616) as u64,
{
    assert(key.push(byte).drop_last() =~= key);
}

/// The parts of the card are those of its state.
pub proof fn cards_are_made_of_their_state(
    variant: HomeConnectionVariant,
    headline: Phrase,
    health: &str,
    encryption: &str,
    counts: CardCounts,
    retry: bool,
    details: bool,
    key: [u8; 32],
    accent: StatusAccent,
    color: Rgba,
    sign: StatusIndicator,
    heading: StatusHeading,
    summary: Vec<String>,
    actions: Vec<CardAction>,
    seed: u64,
)
    requires
        call_ensures(variant_accent, (variant,), accent),
        call_ensures(accent_color, (accent,), color),
        call_ensures(status_indicator, (variant,), sign),
        call_ensures(status_heading, (variant, headline), heading),
        call_ensures(network_stats_footer, (health, counts, encryption), summary),
        call_ensures(actions_row, (retry, details), actions),
        call_ensures(stable_node_seed, (&key,), seed),
    ensures
        accent is Connected <==> variant is Ready,
        accent is Danger <==> variant is Offline,
        color == accent_value(accent),
        sign == indicator_of(variant),
        heading@ == heading_of(variant, headline@),
        text::texts(summary@) == footer_parts(health@, counts, encryption@),
        actions@ == actions_of(retry, details),
        seed == seed_of(key@),
{
}

/// Without the machine's own place the card is the same, but for the lines about it.
pub proof fn cards_without_a_place_are_the_same(
    network: NetworkCard,
    health: &str,
    encryption: &str,
    counts: CardCounts,
    width: i64,
    at: CardBreakpoints<i64>,
    card: StatusCard,
)
    requires
        call_ensures(
            view_status_card::<i64>,
            (network, health, encryption, counts, width, at),
            card,
        ),
    ensures
        !card.show_credit && card.location_lines@.len() == 0,
        card.accent == accent_of(network.variant) && card.indicator == indicator_of(
            network.variant,
        ) && card.heading@ == heading_of(network.variant, network.headline@),
        card.actions@ == actions_of(network.show_retry, network.show_details),
        text::texts(card.summary@) == footer_parts(health@, counts, encryption@),
        card.tier == tier_of(width, at) && card.mesh == place_of(width, at),
{
}

/// A card's arrangement and the place of its picture go by its width.
pub proof fn widths_decide_the_arrangement(
    width: i64,
    at: CardBreakpoints<i64>,
    tier: Tier,
    drawn: bool,
    place: MeshPlace,
)
    requires
        call_ensures(layout_tier::<i64>, (width, at), tier),
        call_ensures(mesh_rendered::<i64>, (width, at), drawn),
        call_ensures(mesh_place::<i64>, (width, at), place),
    ensures
        tier == tier_of(width, at),
        drawn <==> at.mesh_hide_content <= width,
        place is Hidden <==> !drawn,
        place is Below <==> drawn && tier is Narrow,
        place is Beside <==> drawn && !(tier is Narrow),
{
}

} // verus!
