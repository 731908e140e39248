//! The health of the network, what is shown of it, and its events.

use vstd::prelude::*;
use vstd::string::*;

use crate::network_connection;
use crate::phrase::{Phrase, PhraseView};
use crate::phrase;
use crate::text;
use crate::tunnel_labels::ColorRole;

verus! {

/// The health of the network.
#[derive(Debug)]
pub enum MeshHealth {
    Good,
    /// It works badly, for this reason.
    Degraded(String),
    /// It does not work, for this reason.
    Offline(String),
}

/// What a [`MeshHealth`] holds.
pub enum HealthView {
    Good,
    Degraded(Seq<char>),
    Offline(Seq<char>),
}

impl View for MeshHealth {
    type V = HealthView;

    open spec fn view(&self) -> HealthView {
        match self {
            MeshHealth::Good => HealthView::Good,
            MeshHealth::Degraded(reason) => HealthView::Degraded(reason@),
            MeshHealth::Offline(reason) => HealthView::Offline(reason@),
        }
    }
}

/// The health of the network at the moment when a screen was built.
#[derive(Debug, Clone, PartialEq, Eq, Hash)]
pub enum MeshHealthSnapshot {
    Good,
    Degraded(String),
    Offline(String),
}

impl View for MeshHealthSnapshot {
    type V = HealthView;

    open spec fn view(&self) -> HealthView {
        match self {
            MeshHealthSnapshot::Good => HealthView::Good,
            MeshHealthSnapshot::Degraded(reason) => HealthView::Degraded(reason@),
            MeshHealthSnapshot::Offline(reason) => HealthView::Offline(reason@),
        }
    }
}

impl MeshHealthSnapshot {
    /// The health at this moment.
    pub fn of(health: &MeshHealth) -> (snapshot: Self)
        ensures
            snapshot@ == health@,
    {
        match health {
            MeshHealth::Good => MeshHealthSnapshot::Good,
            MeshHealth::Degraded(reason) => MeshHealthSnapshot::Degraded(reason.clone()),
            MeshHealth::Offline(reason) => MeshHealthSnapshot::Offline(reason.clone()),
        }
    }

    /// The health that was kept.
    pub fn as_mesh_health(&self) -> (health: MeshHealth)
        ensures
            health@ == self@,
    {
        match self {
            MeshHealthSnapshot::Good => MeshHealth::Good,
            MeshHealthSnapshot::Degraded(reason) => MeshHealth::Degraded(reason.clone()),
            MeshHealthSnapshot::Offline(reason) => MeshHealth::Offline(reason.clone()),
        }
    }
}

/// What the home screen says of the connection.
#[derive(Debug, Clone, Copy, PartialEq, Eq, Structural)]
pub enum HomeConnectionVariant {
    /// The network is still starting.
    Starting,
    /// A relay is reached, but no peer.
    Connecting,
    /// There are peers, and the network is well.
    Ready,
    /// The network works badly.
    Degraded,
    /// The network does not work.
    Offline,
}

/// The most severe thing counts: first what is wrong with the network, then whether there are
/// peers, then whether a relay is reached.
pub open spec fn variant_of(health: HealthView, has_peers: bool, relay: bool) ->
    HomeConnectionVariant {
    match health {
        HealthView::Offline(_) => HomeConnectionVariant::Offline,
        HealthView::Degraded(_) => HomeConnectionVariant::Degraded,
        HealthView::Good => if has_peers {
            HomeConnectionVariant::Ready
        } else if relay {
            HomeConnectionVariant::Connecting
        } else {
            HomeConnectionVariant::Starting
        },
    }
}

/// What the home screen says of the connection.
pub fn home_connection_variant(
    mesh_health: &MeshHealth,
    has_peer_connections: bool,
    relay_reachable: bool,
) -> (variant: HomeConnectionVariant)
    ensures
        variant == variant_of(mesh_health@, has_peer_connections, relay_reachable),
{
    match mesh_health {
        MeshHealth::Offline(_) => HomeConnectionVariant::Offline,
        MeshHealth::Degraded(_) => HomeConnectionVariant::Degraded,
        MeshHealth::Good => {
            if has_peer_connections {
                HomeConnectionVariant::Ready
            } else if relay_reachable {
                HomeConnectionVariant::Connecting
            } else {
                HomeConnectionVariant::Starting
            }
        },
    }
}

/// An icon of the home screen.
#[derive(Debug, Clone, Copy, PartialEq, Eq, Structural, Hash)]
pub enum HomeIcon {
    Online,
    Offline,
    Mesh,
    Activity,
    Files,
    Chat,
    Retry,
    Check,
}

/// The tone of an event.
#[derive(Debug, Clone, Copy, PartialEq, Eq, Structural)]
pub enum MeshEventTone {
    Success,
    Warning,
    Danger,
    Neutral,
}

/// Whether a line speaks of a start that is over once the network is well.
pub open spec fn is_transient(line: Seq<char>) -> bool {
    let lower = text::ascii_lowered(line);
    text::occurs(lower, "starting up"@) || text::occurs(lower, "connecting to room"@)
        || text::occurs(lower, "connected to room"@) || text::occurs(lower, "subscribing to"@)
}

/// Whether a line speaks of a start that is over once the network is well.
pub fn is_transient_mesh_event(message: &str) -> (transient: bool)
    ensures
        transient == is_transient(message@),
{
    let lower = text::to_ascii_lowercase(message);
    text::contains(lower.as_str(), "starting up") || text::contains(
        lower.as_str(),
        "connecting to room",
    ) || text::contains(lower.as_str(), "connected to room") || text::contains(
        lower.as_str(),
        "subscribing to",
    )
}

/// The tone of a line, by the first of these words that it holds.
pub open spec fn tone_of(line: Seq<char>) -> MeshEventTone {
    let lower = text::ascii_lowered(line);
    if text::occurs(lower, "offline"@) {
        MeshEventTone::Danger
    } else if text::occurs(lower, "degraded"@) {
        MeshEventTone::Warning
    } else if text::occurs(lower, "recovered"@) || text::occurs(lower, "discovered"@)
        || text::occurs(lower, "connected"@) {
        MeshEventTone::Success
    } else {
        MeshEventTone::Neutral
    }
}

/// The tone of a line.
pub fn mesh_event_tone(message: &str) -> (tone: MeshEventTone)
    ensures
        tone == tone_of(message@),
{
    let lower = text::to_ascii_lowercase(message);
    if text::contains(lower.as_str(), "offline") {
        MeshEventTone::Danger
    } else if text::contains(lower.as_str(), "degraded") {
        MeshEventTone::Warning
    } else if text::contains(lower.as_str(), "recovered") {
        MeshEventTone::Success
    } else if text::contains(lower.as_str(), "discovered") || text::contains(
        lower.as_str(),
        "connected",
    ) {
        MeshEventTone::Success
    } else {
        MeshEventTone::Neutral
    }
}

/// The icon and the colour of a tone.
pub fn mesh_event_visual(tone: MeshEventTone) -> (visual: (HomeIcon, ColorRole))
    ensures
        visual == match tone {
            MeshEventTone::Success => (HomeIcon::Online, ColorRole::AccentGreen),
            MeshEventTone::Warning => (HomeIcon::Mesh, ColorRole::Warning),
            MeshEventTone::Danger => (HomeIcon::Offline, ColorRole::Error),
            MeshEventTone::Neutral => (HomeIcon::Activity, ColorRole::Muted),
        },
{
    match tone {
        MeshEventTone::Success => (HomeIcon::Online, ColorRole::AccentGreen),
        MeshEventTone::Warning => (HomeIcon::Mesh, ColorRole::Warning),
        MeshEventTone::Danger => (HomeIcon::Offline, ColorRole::Error),
        MeshEventTone::Neutral => (HomeIcon::Activity, ColorRole::Muted),
    }
}

/// The badge of a card.
#[derive(Debug, Clone, Copy, PartialEq, Eq, Structural)]
pub enum StatusBadgeKind {
    Success,
    Warning,
    Danger,
}

/// The counts of peers, and how long the network has been well.
#[derive(Debug, Clone, Copy, PartialEq, Eq, Structural)]
pub struct PeerCounts {
    pub direct: u32,
    pub relayed: u32,
    pub neighbors: u32,
    /// In seconds.
    pub connected_secs: Option<u64>,
}

/// What the card about the network's health shows.
#[derive(Debug)]
pub struct MeshCard {
    /// The key of the text on the badge.
    pub health_label: &'static str,
    /// The badge.
    pub badge: StatusBadgeKind,
    /// The colour of the icon in the header.
    pub header_color: ColorRole,
    /// The icon beside the state.
    pub icon: HomeIcon,
    /// The colour of the state.
    pub color: ColorRole,
    /// The state.
    pub label: Phrase,
    /// The line below it, part by part.
    pub detail: Vec<Phrase>,
}

/// The reason why the network works badly.
pub open spec fn degraded_reason(health: HealthView) -> Seq<char> {
    match health {
        HealthView::Degraded(reason) => reason,
        _ => Seq::empty(),
    }
}

/// The reason why the network does not work.
pub open spec fn offline_reason(health: HealthView) -> Seq<char> {
    match health {
        HealthView::Offline(reason) => reason,
        _ => Seq::empty(),
    }
}

/// The state in the card about the network's health.
pub open spec fn card_label(variant: HomeConnectionVariant, health: HealthView) -> PhraseView {
    match variant {
        HomeConnectionVariant::Starting => phrase::plain("status.starting_up"@),
        HomeConnectionVariant::Connecting => phrase::plain("home.connecting"@),
        HomeConnectionVariant::Ready => phrase::plain("common.connected"@),
        HomeConnectionVariant::Degraded => phrase::with(
            phrase::plain("status.degraded_reason"@),
            "reason"@,
            degraded_reason(health),
        ),
        HomeConnectionVariant::Offline => phrase::with(
            phrase::plain("status.offline_reason"@),
            "reason"@,
            offline_reason(health),
        ),
    }
}

/// The icon beside the state, and its colour.
pub open spec fn card_visual(variant: HomeConnectionVariant) -> (HomeIcon, ColorRole) {
    match variant {
        HomeConnectionVariant::Starting => (HomeIcon::Retry, ColorRole::Warning),
        HomeConnectionVariant::Connecting => (HomeIcon::Retry, ColorRole::Warning),
        HomeConnectionVariant::Ready => (HomeIcon::Check, ColorRole::AccentGreen),
        HomeConnectionVariant::Degraded => (HomeIcon::Mesh, ColorRole::Warning),
        HomeConnectionVariant::Offline => (HomeIcon::Offline, ColorRole::Error),
    }
}

/// How long the network has been well.
pub open spec fn connected_phrase(secs: u64) -> PhraseView {
    if secs < 60 {
        phrase::with(
            phrase::plain("status.connected_secs"@),
            "secs"@,
            text::decimal(secs as nat),
        )
    } else if secs < 3600 {
        phrase::with(
            phrase::with(
                phrase::plain("status.connected_min_sec"@),
                "mins"@,
                text::decimal((secs / 60) as nat),
            ),
            "secs"@,
            text::decimal((secs % 60) as nat),
        )
    } else {
        phrase::with(
            phrase::with(
                phrase::plain("status.connected_hr_min"@),
                "hrs"@,
                text::decimal((secs / 3600) as nat),
            ),
            "mins"@,
            text::decimal(((secs % 3600) / 60) as nat),
        )
    }
}

/// The counts of peers.
pub open spec fn counts_phrase(counts: PeerCounts) -> PhraseView {
    phrase::with(
        phrase::with(
            phrase::with(
                phrase::plain("status.direct_relay_neighbors"@),
                "direct"@,
                text::decimal(counts.direct as nat),
            ),
            "relayed"@,
            text::decimal(counts.relayed as nat),
        ),
        "neighbors"@,
        text::decimal(counts.neighbors as nat),
    )
}

/// The line below the state, part by part.
pub open spec fn card_detail(variant: HomeConnectionVariant, counts: PeerCounts) -> Seq<PhraseView> {
    match variant {
        HomeConnectionVariant::Starting => seq![phrase::plain("status.establishing_mesh"@)],
        HomeConnectionVariant::Connecting => seq![phrase::plain("status.waiting_for_peers"@)],
        _ => match counts.connected_secs {
            Some(secs) => seq![counts_phrase(counts), connected_phrase(secs)],
            None => seq![counts_phrase(counts)],
        },
    }
}

/// What each phrase of a list holds.
pub open spec fn phrase_views(phrases: Seq<Phrase>) -> Seq<PhraseView> {
    phrases.map_values(|p: Phrase| p@)
}

/// How long the network has been well.
fn connected_text(secs: u64) -> (p: Phrase)
    ensures
        p@ == connected_phrase(secs),
{
    if secs < 60 {
        Phrase::new("status.connected_secs").arg("secs", text::decimal_text(secs).as_str())
    } else if secs < 3600 {
        Phrase::new("status.connected_min_sec").arg(
            "mins",
            text::decimal_text(secs / 60).as_str(),
        ).arg("secs", text::decimal_text(secs % 60).as_str())
    } else {
        Phrase::new("status.connected_hr_min").arg(
            "hrs",
            text::decimal_text(secs / 3600).as_str(),
        ).arg("mins", text::decimal_text((secs % 3600) / 60).as_str())
    }
}

/// The line below the state, part by part.
fn detail_parts(variant: HomeConnectionVariant, counts: PeerCounts) -> (parts: Vec<Phrase>)
    ensures
        phrase_views(parts@) == card_detail(variant, counts),
{
    let mut parts: Vec<Phrase> = Vec::new();
    match variant {
        HomeConnectionVariant::Starting => {
            parts.push(Phrase::new("status.establishing_mesh"));
        },
        HomeConnectionVariant::Connecting => {
            parts.push(Phrase::new("status.waiting_for_peers"));
        },
        _ => {
            parts.push(
                Phrase::new("status.direct_relay_neighbors").arg(
                    "direct",
                    text::decimal_text(counts.direct as u64).as_str(),
                ).arg("relayed", text::decimal_text(counts.relayed as u64).as_str()).arg(
                    "neighbors",
                    text::decimal_text(counts.neighbors as u64).as_str(),
                ),
            );
            if let Some(secs) = counts.connected_secs {
                parts.push(connected_text(secs));
            }
        },
    }
    assert(phrase_views(parts@) =~= card_detail(variant, counts));
    parts
}

/// The key of the text about the health of the network.
pub open spec fn health_key(health: HealthView) -> Seq<char> {
    match health {
        HealthView::Good => "status.healthy"@,
        HealthView::Degraded(_) => "status.degraded"@,
        HealthView::Offline(_) => "status.offline"@,
    }
}

/// The key of the text about the health of the network.
pub fn health_label(health: &MeshHealth) -> (label: &'static str)
    ensures
        label@ == health_key(health@),
{
    match health {
        MeshHealth::Good => "status.healthy",
        MeshHealth::Degraded(_) => "status.degraded",
        MeshHealth::Offline(_) => "status.offline",
    }
}

/// What the card about the network's health shows.
pub fn mesh_card(
    health: &MeshHealth,
    relay_connected: bool,
    has_peer_connections: bool,
    counts: PeerCounts,
) -> (card: MeshCard)
    ensures
        ({
            let variant = variant_of(
                health@,
                has_peer_connections,
                relay_connected || has_peer_connections,
            );
            &&& (card.icon, card.color) == card_visual(variant)
            &&& card.label@ == card_label(variant, health@)
            &&& phrase_views(card.detail@) == card_detail(variant, counts)
        }),
        card.health_label@ == health_key(health@),
        card.badge == match health@ {
            HealthView::Good => StatusBadgeKind::Success,
            HealthView::Degraded(_) => StatusBadgeKind::Warning,
            HealthView::Offline(_) => StatusBadgeKind::Danger,
        },
        card.header_color == match health@ {
            HealthView::Good => ColorRole::AccentGreen,
            HealthView::Degraded(_) => ColorRole::Warning,
            HealthView::Offline(_) => ColorRole::Error,
        },
{
    let (badge, header_color) = match health {
        MeshHealth::Good => (StatusBadgeKind::Success, ColorRole::AccentGreen),
        MeshHealth::Degraded(_) => (StatusBadgeKind::Warning, ColorRole::Warning),
        MeshHealth::Offline(_) => (StatusBadgeKind::Danger, ColorRole::Error),
    };
    let reachable = network_connection::network_connected(relay_connected, has_peer_connections);
    let variant = home_connection_variant(health, has_peer_connections, reachable);
    let (icon, color) = match variant {
        HomeConnectionVariant::Starting => (HomeIcon::Retry, ColorRole::Warning),
        HomeConnectionVariant::Connecting => (HomeIcon::Retry, ColorRole::Warning),
        HomeConnectionVariant::Ready => (HomeIcon::Check, ColorRole::AccentGreen),
        HomeConnectionVariant::Degraded => (HomeIcon::Mesh, ColorRole::Warning),
        HomeConnectionVariant::Offline => (HomeIcon::Offline, ColorRole::Error),
    };
    let label = match health {
        MeshHealth::Good => match variant {
            HomeConnectionVariant::Starting => Phrase::new("status.starting_up"),
            HomeConnectionVariant::Connecting => Phrase::new("home.connecting"),
            _ => Phrase::new("common.connected"),
        },
        MeshHealth::Degraded(reason) => Phrase::new("status.degraded_reason").arg(
            "reason",
            reason.as_str(),
        ),
        MeshHealth::Offline(reason) => Phrase::new("status.offline_reason").arg(
            "reason",
            reason.as_str(),
        ),
    };
    MeshCard {
        health_label: health_label(health),
        badge,
        header_color,
        icon,
        color,
        label,
        detail: detail_parts(variant, counts),
    }
}

/// What is wrong with the network is said whatever else holds; readiness is claimed only where
/// there are peers and nothing is wrong.
pub proof fn severity_comes_first(health: HealthView, has_peers: bool, relay: bool)
    ensures
        health is Offline <==> variant_of(health, has_peers, relay) is Offline,
        health is Degraded <==> variant_of(health, has_peers, relay) is Degraded,
        variant_of(health, has_peers, relay) is Ready <==> health is Good && has_peers,
        variant_of(health, has_peers, relay) is Starting <==> health is Good && !has_peers
            && !relay,
{
}

/// A line that says that something is offline, whatever else it says, is never shown as a
/// success.
pub proof fn offline_lines_are_dangers(line: Seq<char>)
    requires
        text::occurs(text::ascii_lowered(line), "offline"@),
    ensures
        tone_of(line) is Danger,
{
}

/// What is said of the connection is what its health, its peers and its relays make of it.
pub proof fn connecting_means_a_relay_without_peers(health: HealthView, has_peers: bool, relay: bool)
    ensures
        variant_of(health, has_peers, relay) is Connecting <==> health is Good && !has_peers && relay,
{
}

/// The most serious word of a line gives its tone, however it is written.
pub proof fn tones_go_by_the_most_serious_word(line: Seq<char>)
    ensures
        ({
            let lower = text::ascii_lowered(line);
            let bad = text::occurs(lower, "offline"@);
            let poor = text::occurs(lower, "degraded"@);
            let good = text::occurs(lower, "recovered"@) || text::occurs(lower, "discovered"@)
                || text::occurs(lower, "connected"@);
            &&& tone_of(line) is Danger <==> bad
            &&& tone_of(line) is Warning <==> !bad && poor
            &&& tone_of(line) is Success <==> !bad && !poor && good
            &&& tone_of(line) is Neutral <==> !bad && !poor && !good
        }),
        tone_of(text::ascii_lowered(line)) == tone_of(line),
        is_transient(text::ascii_lowered(line)) == is_transient(line),
{
    assert(text::ascii_lowered(text::ascii_lowered(line)) =~= text::ascii_lowered(line));
}

/// A line that speaks of a start is transient: one about starting up, entering a room, or
/// subscribing. No other is.
pub proof fn lines_about_a_start_are_transient(line: Seq<char>)
    ensures
        is_transient(line) <==> {
            let lower = text::ascii_lowered(line);
            ||| text::occurs(lower, "subscribing to"@)
            ||| text::occurs(lower, "connected to room"@)
            ||| text::occurs(lower, "connecting to room"@)
            ||| text::occurs(lower, "starting up"@)
        },
{
}

/// A success is green and online, a warning amber, a danger red and offline; what is neutral is
/// muted. No two tones look alike.
pub proof fn tones_look_different(
    a: MeshEventTone,
    b: MeshEventTone,
    of_a: (HomeIcon, ColorRole),
    of_b: (HomeIcon, ColorRole),
)
    requires
        call_ensures(mesh_event_visual, (a,), of_a),
        call_ensures(mesh_event_visual, (b,), of_b),
    ensures
        of_a.0 == of_b.0 <==> a == b,
        of_a.1 == of_b.1 <==> a == b,
        a is Success <==> of_a.1 is AccentGreen,
        a is Danger <==> of_a.1 is Error,
        a is Warning <==> of_a.1 is Warning,
        a is Success <==> of_a.0 is Online,
        a is Danger <==> of_a.0 is Offline,
        a is Warning <==> of_a.0 is Mesh,
        a is Neutral <==> of_a.0 is Activity && of_a.1 is Muted,
{
}

/// The text about the health has a key for each of its three states, and those differ.
pub proof fn health_keys_tell_the_states_apart(health: HealthView)
    ensures
        health_key(health) == "status.healthy"@ <==> health is Good,
        health_key(health) == "status.degraded"@ <==> health is Degraded,
        health_key(health) == "status.offline"@ <==> health is Offline,
{
    reveal_strlit("status.healthy");
    reveal_strlit("status.degraded");
    reveal_strlit("status.offline");
    assert("status.healthy"@.len() == 14 && "status.healthy"@[7] == 'h');
    assert("status.degraded"@.len() == 15);
    assert("status.offline"@.len() == 14 && "status.offline"@[7] == 'o');
}

/// The card's state is named after what is wrong, with the reason, or else after how far the
/// network has come: green and checked exactly where it is ready, red exactly where it is
/// offline, amber on the way and where it works badly.
pub proof fn mesh_cards_tell_the_truth(
    health: MeshHealth,
    relay_connected: bool,
    has_peers: bool,
    counts: PeerCounts,
    card: MeshCard,
)
    requires
        call_ensures(mesh_card, (&health, relay_connected, has_peers, counts), card),
    ensures
        ({
            let ready = health@ is Good && has_peers;
            let waiting = health@ is Good && !has_peers && relay_connected;
            let starting = health@ is Good && !has_peers && !relay_connected;
            &&& card.label@.key == "common.connected"@ <==> ready
            &&& card.label@.key == "home.connecting"@ <==> waiting
            &&& card.label@.key == "status.starting_up"@ <==> starting
            &&& card.label@.key == "status.degraded_reason"@ <==> health@ is Degraded
            &&& card.label@.key == "status.offline_reason"@ <==> health@ is Offline
            &&& health@ is Good ==> card.label@.args.len() == 0
            &&& health@ matches HealthView::Degraded(reason) ==> card.label@.args == seq![
                ("reason"@, reason),
            ]
            &&& health@ matches HealthView::Offline(reason) ==> card.label@.args == seq![
                ("reason"@, reason),
            ]
            &&& card.color is AccentGreen <==> ready
            &&& card.color is Error <==> health@ is Offline
            &&& card.color is Warning <==> !ready && !(health@ is Offline)
            &&& card.icon is Check <==> ready
            &&& card.icon is Offline <==> health@ is Offline
            &&& card.icon is Mesh <==> health@ is Degraded
            &&& card.icon is Retry <==> waiting || starting
            &&& card.badge is Success <==> health@ is Good
            &&& card.badge is Warning <==> health@ is Degraded
            &&& card.badge is Danger <==> health@ is Offline
            &&& card.header_color is AccentGreen <==> health@ is Good
            &&& card.header_color is Warning <==> health@ is Degraded
            &&& card.header_color is Error <==> health@ is Offline
            &&& card.health_label@ == health_key(health@)
            &&& waiting ==> phrase_views(card.detail@) == seq![
                phrase::plain("status.waiting_for_peers"@),
            ]
            &&& starting ==> phrase_views(card.detail@) == seq![
                phrase::plain("status.establishing_mesh"@),
            ]
        }),
{
    reveal_strlit("common.connected");
    reveal_strlit("home.connecting");
    reveal_strlit("status.starting_up");
    reveal_strlit("status.degraded_reason");
    reveal_strlit("status.offline_reason");
    assert("common.connected"@.len() == 16);
    assert("home.connecting"@.len() == 15);
    assert("status.starting_up"@.len() == 18);
    assert("status.degraded_reason"@.len() == 22);
    assert("status.offline_reason"@.len() == 21);
    let variant = variant_of(health@, has_peers, relay_connected || has_peers);
    assert(card_label(variant, health@).args =~= match health@ {
        HealthView::Good => Seq::empty(),
        HealthView::Degraded(reason) => seq![("reason"@, reason)],
        HealthView::Offline(reason) => seq![("reason"@, reason)],
    });
}

/// The counts in a card are those of the direct peers, the relayed peers and the neighbours, each
/// under its own name and in this order; how long the network has been well follows where it is
/// known.
pub proof fn cards_count_peers_by_name(
    health: MeshHealth,
    relay_connected: bool,
    has_peers: bool,
    counts: PeerCounts,
    card: MeshCard,
)
    requires
        call_ensures(mesh_card, (&health, relay_connected, has_peers, counts), card),
        has_peers || !(health@ is Good),
    ensures
        card.detail@.len() == if counts.connected_secs is Some {
            2nat
        } else {
            1nat
        },
        card.detail@[0]@.key == "status.direct_relay_neighbors"@,
        card.detail@[0]@.args == seq![
            ("direct"@, text::decimal(counts.direct as nat)),
            ("relayed"@, text::decimal(counts.relayed as nat)),
            ("neighbors"@, text::decimal(counts.neighbors as nat)),
        ],
        counts.connected_secs matches Some(secs) ==> card.detail@[1]@ == connected_phrase(secs),
{
    let views = phrase_views(card.detail@);
    let variant = variant_of(health@, has_peers, relay_connected || has_peers);
    assert(views == card_detail(variant, counts));
    assert(views[0] == card.detail@[0]@);
    if counts.connected_secs is Some {
        assert(views.len() == 2);
        assert(views[1] == card.detail@[1]@);
    }
    assert(card.detail@[0]@.args =~= seq![
        ("direct"@, text::decimal(counts.direct as nat)),
        ("relayed"@, text::decimal(counts.relayed as nat)),
        ("neighbors"@, text::decimal(counts.neighbors as nat)),
    ]);
}

/// How long the network has been well is told in seconds, in minutes and seconds, or in hours
/// and minutes.
pub proof fn well_times_are_told_in_two_units(h: u64, m: u64, s: u64, secs: u64)
    requires
        m < 60,
        s < 60,
        secs == (h * 60 + m) * 60 + s,
    ensures
        ({
            let told = connected_phrase(secs);
            let (hours, mins, rest) = (
                text::decimal(h as nat),
                text::decimal(m as nat),
                text::decimal(s as nat),
            );
            &&& h == 0 && m == 0 ==> told.key == "status.connected_secs"@ && told.args == seq![
                ("secs"@, rest),
            ]
            &&& h == 0 && m > 0 ==> told.key == "status.connected_min_sec"@ && told.args == seq![
                ("mins"@, mins),
                ("secs"@, rest),
            ]
            &&& h > 0 ==> told.key == "status.connected_hr_min"@ && told.args == seq![
                ("hrs"@, hours),
                ("mins"@, mins),
            ]
        }),
{
    assert(secs / 60 == h * 60 + m && secs % 60 == s);
    assert(secs / 3600 == h && (secs % 3600) / 60 == m);
    let told = connected_phrase(secs);
    if h == 0 && m == 0 {
        assert(told.args =~= seq![("secs"@, text::decimal(s as nat))]);
    } else if h == 0 {
        assert(told.args =~= seq![
            ("mins"@, text::decimal(m as nat)),
            ("secs"@, text::decimal(s as nat)),
        ]);
    } else {
        assert(told.args =~= seq![
            ("hrs"@, text::decimal(h as nat)),
            ("mins"@, text::decimal(m as nat)),
        ]);
    }
}

/// The variant, the tone and the transience of a line are told of what they are given.
pub proof fn states_and_lines_are_judged(
    health: MeshHealth,
    has_peers: bool,
    relay: bool,
    line: &str,
    variant: HomeConnectionVariant,
    tone: MeshEventTone,
    transient: bool,
    label: &'static str,
    snapshot: MeshHealthSnapshot,
    kept: MeshHealth,
)
    requires
        call_ensures(home_connection_variant, (&health, has_peers, relay), variant),
        call_ensures(mesh_event_tone, (line,), tone),
        call_ensures(is_transient_mesh_event, (line,), transient),
        call_ensures(health_label, (&health,), label),
        call_ensures(MeshHealthSnapshot::of, (&health,), snapshot),
        call_ensures(MeshHealthSnapshot::as_mesh_health, (&snapshot,), kept),
    ensures
        variant is Offline <==> health is Offline,
        variant is Degraded <==> health is Degraded,
        variant is Ready <==> health is Good && has_peers,
        variant is Connecting <==> health is Good && !has_peers && relay,
        variant is Starting <==> health is Good && !has_peers && !relay,
        tone == tone_of(line@),
        transient == is_transient(line@),
        label@ == health_key(health@),
        kept@ == health@,
{
}

} // verus!
