//! The home screen: what it depends on, what it says, and where its sections stand.

use vstd::prelude::*;
use vstd::string::*;

use crate::home_cards::{PeopleActivityCardData, TunnelsCardData};
use crate::layout::{HomeLayout, HomeLayoutMode, HomeSection};
use crate::layout;
use crate::mesh_status::{
    HealthView, HomeConnectionVariant, MeshCard, MeshHealth, MeshHealthSnapshot, PeerCounts,
    StatusBadgeKind,
};
use crate::mesh_status;
use crate::network_connection;
use crate::phrase::{Phrase, PhraseView};
use crate::phrase;
use crate::status_card::LocationInfo;
use crate::text;
use crate::tunnel_labels::ColorRole;
use crate::tunnels::PeerKey;

verus! {

/// The most events of the network that are kept for the screen.
pub const MESH_EVENT_ROWS: usize = 4;

/// An event of the network.
#[derive(Debug, Clone, PartialEq, Eq, Hash)]
pub struct MeshEventRow {
    pub message: String,
    /// How long ago it happened, in seconds.
    pub age_secs: u64,
}

/// The fields of the home screen that the user fills in.
#[derive(Debug)]
pub struct HomeInput {
    /// The ticket of the chat to join.
    pub join_ticket_input: String,
    /// What is wrong with it; empty where nothing is.
    pub chat_list_error: String,
}

/// A change of the home screen.
#[derive(Debug)]
pub enum HomeMessage {
    /// The ticket changed.
    JoinTicketInputChanged(String),
}

impl HomeInput {
    /// Takes a change into account: what was wrong with the ticket is no longer said.
    pub fn update_home(&mut self, message: HomeMessage)
        ensures
            match message {
                HomeMessage::JoinTicketInputChanged(ticket) => final(self).join_ticket_input@
                    == ticket@ && final(self).chat_list_error@ == Seq::<char>::empty(),
            },
    {
        match message {
            HomeMessage::JoinTicketInputChanged(ticket) => {
                self.join_ticket_input = ticket;
                self.chat_list_error = String::new();
            },
        }
    }
}

/// What is known of the network when the home screen is built.
#[derive(Debug)]
pub struct NetworkFacts {
    pub mesh_health: MeshHealth,
    /// For each home relay, whether it is connected.
    pub relays: Vec<bool>,
    pub direct_peers: u32,
    pub relayed_peers: u32,
    pub neighbors: u32,
    /// For how many seconds the network has been well.
    pub connected_age_secs: Option<u64>,
    /// Its events, oldest first.
    pub events: Vec<MeshEventRow>,
}

/// A point on the map of the network. The coordinates are kept as the bits of the numbers, so
/// that points can be told apart and hashed.
#[derive(Debug, Clone, PartialEq, Eq, Hash)]
pub struct NetworkMapPointSnapshot {
    pub node_id: PeerKey,
    pub latitude_bits: u64,
    pub longitude_bits: u64,
}

/// The map of the network.
#[derive(Debug, Clone, PartialEq, Eq, Hash)]
pub struct NetworkMap {
    pub points: Vec<NetworkMapPointSnapshot>,
    pub nodes_online: usize,
    pub countries: usize,
    pub networks: usize,
}

/// What is known of the window and of the user when the home screen is built.
#[derive(Debug)]
pub struct ScreenFacts {
    pub dark_mode: bool,
    /// Changes with the theme.
    pub theme_revision: u64,
    /// Changes with the layout.
    pub layout_revision: u64,
    /// The width of the window, in hundredths.
    pub window_width_bits: u32,
    /// The height of the window, in hundredths.
    pub window_height_bits: u32,
    /// Counts the pictures of the sign that turns while the network starts.
    pub reconnect_frame: u32,
    pub local_label: String,
    pub time_of_day_greeting: String,
    /// The bits of the number that tells how opaque the background is.
    pub home_menu_item_opacity_bits: u32,
    /// Whether the user wants nothing to move.
    pub reduced_motion: bool,
    pub network_map: NetworkMap,
    /// The machine's own place in the network.
    pub local_network_info: LocationInfo,
}

/// What the home screen depends on: it is built anew only where a part of this has changed.
#[derive(Debug, Clone, PartialEq, Eq, Hash)]
pub struct ChatListDependency {
    pub dark_mode: bool,
    /// Changes with the theme.
    pub theme_revision: u64,
    /// Changes with the layout.
    pub layout_revision: u64,
    /// The width of the window, in hundredths.
    pub window_width_bits: u32,
    /// The height of the window, in hundredths.
    pub window_height_bits: u32,
    pub mesh_health: MeshHealthSnapshot,
    /// Counts the pictures of the sign that turns while the network starts.
    pub main_screen_reconnect_frame: u32,
    pub local_label: String,
    pub time_of_day_greeting: String,
    pub has_peer_connections: bool,
    pub relay_connected: bool,
    pub direct_peers: u32,
    pub relayed_peers: u32,
    pub neighbors_len: u32,
    pub connected_age_secs: Option<u64>,
    /// The newest events of the network, newest first.
    pub mesh_events: Vec<MeshEventRow>,
    pub people_activity: PeopleActivityCardData,
    pub tunnels: TunnelsCardData,
    /// The bits of the number that tells how opaque the background is.
    pub home_menu_item_opacity_bits: u32,
    /// Whether the user wants nothing to move.
    pub reduced_motion: bool,
    /// The points on the map of the network.
    pub network_map_points: Vec<NetworkMapPointSnapshot>,
    pub network_nodes_online: usize,
    pub network_countries: usize,
    pub network_networks: usize,
    /// The machine's own place in the network.
    pub local_network_info: LocationInfo,
}

/// Whether there is a peer of any kind.
pub open spec fn has_peers(facts: NetworkFacts) -> bool {
    facts.neighbors > 0 || facts.relayed_peers > 0 || facts.direct_peers > 0
}

/// The rows are the newest `n` events, newest first.
pub open spec fn newest_events(rows: Seq<MeshEventRow>, events: Seq<MeshEventRow>) -> bool {
    &&& rows.len() == if events.len() < MESH_EVENT_ROWS {
        events.len()
    } else {
        MESH_EVENT_ROWS as nat
    }
    &&& forall|i: int|
        0 <= i < rows.len() ==> (#[trigger] rows[i]).message@ == events[events.len() - 1
            - i].message@ && rows[i].age_secs == events[events.len() - 1 - i].age_secs
}

/// The newest events, newest first.
fn take_newest(events: &Vec<MeshEventRow>) -> (rows: Vec<MeshEventRow>)
    ensures
        newest_events(rows@, events@),
{
    let mut rows: Vec<MeshEventRow> = Vec::new();
    let mut i: usize = 0;
    while i < events.len() && i < MESH_EVENT_ROWS
        invariant
            i <= events.len(),
            i <= MESH_EVENT_ROWS,
            rows@.len() == i,
            forall|k: int|
                0 <= k < i ==> (#[trigger] rows@[k]).message@ == events@[events@.len() - 1
                    - k].message@ && rows@[k].age_secs == events@[events@.len() - 1 - k].age_secs,
        decreases events.len() - i,
    {
        let event = &events[events.len() - 1 - i];
        rows.push(MeshEventRow { message: event.message.clone(), age_secs: event.age_secs });
        i += 1;
    }
    rows
}

/// Whether any relay is connected.
fn any_connected(relays: &Vec<bool>) -> (connected: bool)
    ensures
        connected == relays@.contains(true),
{
    let mut i: usize = 0;
    while i < relays.len()
        invariant
            i <= relays.len(),
            forall|k: int| 0 <= k < i ==> !#[trigger] relays@[k],
        decreases relays.len() - i,
    {
        if relays[i] {
            assert(relays@[i as int] == true);
            return true;
        }
        i += 1;
    }
    false
}

/// What the home screen depends on.
pub fn chat_list_dependency(
    facts: &NetworkFacts,
    screen: ScreenFacts,
    people_activity: PeopleActivityCardData,
    tunnels: TunnelsCardData,
) -> (dep: ChatListDependency)
    ensures
        dep.dark_mode == screen.dark_mode,
        dep.theme_revision == screen.theme_revision,
        dep.layout_revision == screen.layout_revision,
        dep.window_width_bits == screen.window_width_bits,
        dep.window_height_bits == screen.window_height_bits,
        dep.mesh_health@ == facts.mesh_health@,
        dep.main_screen_reconnect_frame == screen.reconnect_frame,
        dep.local_label@ == screen.local_label@,
        dep.time_of_day_greeting@ == screen.time_of_day_greeting@,
        dep.has_peer_connections == has_peers(*facts),
        dep.relay_connected == facts.relays@.contains(true),
        dep.direct_peers == facts.direct_peers,
        dep.relayed_peers == facts.relayed_peers,
        dep.neighbors_len == facts.neighbors,
        dep.connected_age_secs == facts.connected_age_secs,
        newest_events(dep.mesh_events@, facts.events@),
        dep.people_activity == people_activity,
        dep.tunnels == tunnels,
        dep.home_menu_item_opacity_bits == screen.home_menu_item_opacity_bits,
        dep.reduced_motion == screen.reduced_motion,
        dep.network_map_points == screen.network_map.points,
        dep.network_nodes_online == screen.network_map.nodes_online,
        dep.network_countries == screen.network_map.countries,
        dep.network_networks == screen.network_map.networks,
        dep.local_network_info == screen.local_network_info,
{
    ChatListDependency {
        dark_mode: screen.dark_mode,
        theme_revision: screen.theme_revision,
        layout_revision: screen.layout_revision,
        window_width_bits: screen.window_width_bits,
        window_height_bits: screen.window_height_bits,
        mesh_health: MeshHealthSnapshot::of(&facts.mesh_health),
        main_screen_reconnect_frame: screen.reconnect_frame,
        local_label: screen.local_label,
        time_of_day_greeting: screen.time_of_day_greeting,
        has_peer_connections: facts.neighbors > 0 || facts.relayed_peers > 0
            || facts.direct_peers > 0,
        relay_connected: any_connected(&facts.relays),
        direct_peers: facts.direct_peers,
        relayed_peers: facts.relayed_peers,
        neighbors_len: facts.neighbors,
        connected_age_secs: facts.connected_age_secs,
        mesh_events: take_newest(&facts.events),
        people_activity,
        tunnels,
        home_menu_item_opacity_bits: screen.home_menu_item_opacity_bits,
        reduced_motion: screen.reduced_motion,
        network_map_points: screen.network_map.points,
        network_nodes_online: screen.network_map.nodes_online,
        network_countries: screen.network_map.countries,
        network_networks: screen.network_map.networks,
        local_network_info: screen.local_network_info,
    }
}

/// What the large card at the top says.
#[derive(Debug)]
pub struct HomeHero {
    pub greeting: String,
    /// The state of the connection.
    pub status: &'static str,
    /// How peers are reached.
    pub transport: &'static str,
    /// How many friends the user can write to.
    pub friends: String,
}

/// What the large card at the top says.
pub fn view_photo_home_hero(dep: &ChatListDependency) -> (hero: HomeHero)
    ensures
        hero.greeting@ == "Good "@ + dep.time_of_day_greeting@ + ", "@ + dep.local_label@,
        hero.status@ == if dep.relay_connected || dep.has_peer_connections {
            "Connected"@
        } else {
            "Connecting"@
        },
        hero.transport@ == network_connection::transport_text(
            dep.relay_connected,
            dep.direct_peers,
            dep.relayed_peers,
        ),
        hero.friends@ == text::decimal(dep.people_activity.online.total_friends as nat),
{
    let mut greeting = "Good ".to_owned();
    greeting.append(dep.time_of_day_greeting.as_str());
    greeting.append(", ");
    greeting.append(dep.local_label.as_str());
    let connected = network_connection::network_connected(
        dep.relay_connected,
        dep.has_peer_connections,
    );
    HomeHero {
        greeting,
        status: if connected {
            "Connected"
        } else {
            "Connecting"
        },
        transport: network_connection::transport_label(
            dep.relay_connected,
            dep.direct_peers,
            dep.relayed_peers,
        ),
        friends: text::decimal_text(dep.people_activity.online.total_friends as u64),
    }
}

/// The sign that turns while the network starts, picture by picture.
pub open spec fn reconnect_dot(frame: u32) -> Seq<char> {
    if frame % 4 == 0 {
        "\u{280B}"@
    } else if frame % 4 == 1 {
        "\u{2819}"@
    } else if frame % 4 == 2 {
        "\u{2839}"@
    } else {
        "\u{2838}"@
    }
}

/// What the home screen says of the network: with a relay or a peer it is ready, whatever chat
/// is open; without, its health counts.
pub open spec fn screen_variant(health: HealthView, reachable: bool) -> HomeConnectionVariant {
    if reachable {
        HomeConnectionVariant::Ready
    } else {
        mesh_status::variant_of(health, false, false)
    }
}

/// The headline of the card about the network.
pub open spec fn headline_of(
    variant: HomeConnectionVariant,
    health: HealthView,
    frame: u32,
) -> PhraseView {
    match variant {
        HomeConnectionVariant::Starting => phrase::with(
            phrase::plain("home.starting"@),
            "dot"@,
            reconnect_dot(frame),
        ),
        HomeConnectionVariant::Connecting => phrase::plain("home.connecting"@),
        HomeConnectionVariant::Ready => phrase::plain("home.ready"@),
        HomeConnectionVariant::Degraded => phrase::with(
            phrase::plain("home.degraded"@),
            "reason"@,
            mesh_status::degraded_reason(health),
        ),
        HomeConnectionVariant::Offline => phrase::with(
            phrase::plain("home.offline"@),
            "reason"@,
            mesh_status::offline_reason(health),
        ),
    }
}

/// The headline of the card about the network.
fn headline_text(variant: HomeConnectionVariant, health: &MeshHealth, frame: u32) -> (headline:
    Phrase)
    ensures
        headline@ == headline_of(variant, health@, frame),
{
    match variant {
        HomeConnectionVariant::Starting => {
            let turn: u32 = frame % 4;
            let dot = if turn == 0 {
                "\u{280B}"
            } else if turn == 1 {
                "\u{2819}"
            } else if turn == 2 {
                "\u{2839}"
            } else {
                "\u{2838}"
            };
            Phrase::new("home.starting").arg("dot", dot)
        },
        HomeConnectionVariant::Connecting => Phrase::new("home.connecting"),
        HomeConnectionVariant::Ready => Phrase::new("home.ready"),
        HomeConnectionVariant::Degraded => {
            let reason = match health {
                MeshHealth::Degraded(reason) => reason.clone(),
                _ => String::new(),
            };
            Phrase::new("home.degraded").arg("reason", reason.as_str())
        },
        HomeConnectionVariant::Offline => {
            let reason = match health {
                MeshHealth::Offline(reason) => reason.clone(),
                _ => String::new(),
            };
            Phrase::new("home.offline").arg("reason", reason.as_str())
        },
    }
}

/// What the card about the network says.
#[derive(Debug)]
pub struct NetworkCard {
    pub variant: HomeConnectionVariant,
    pub headline: Phrase,
    /// Whether the user can try again.
    pub show_retry: bool,
    /// Whether the user can look at the details.
    pub show_details: bool,
    /// Whether the picture of the network moves.
    pub animate_mesh: bool,
    /// Whether it is dimmed.
    pub dimmed_mesh: bool,
    /// The key of the text about the health of the network.
    pub health_label: &'static str,
    /// The key of the text about the encryption.
    pub encryption_status: &'static str,
}

/// What the card about the network says.
pub fn network_card(dep: &ChatListDependency) -> (card: NetworkCard)
    ensures
        card.variant == screen_variant(
            dep.mesh_health@,
            dep.relay_connected || dep.has_peer_connections,
        ),
        card.headline@ == headline_of(
            card.variant,
            dep.mesh_health@,
            dep.main_screen_reconnect_frame,
        ),
        card.show_retry == (card.variant is Offline),
        card.show_details == (card.variant is Offline || card.variant is Degraded),
        card.animate_mesh == (!dep.reduced_motion && card.variant is Ready),
        card.dimmed_mesh == !(card.variant is Ready),
        card.health_label@ == mesh_status::health_key(dep.mesh_health@),
        card.encryption_status@ == if dep.direct_peers > 0 || dep.relayed_peers > 0 {
            "status.quic_encrypted"@
        } else {
            "status.idle"@
        },
{
    let health = dep.mesh_health.as_mesh_health();
    let reachable = network_connection::network_connected(
        dep.relay_connected,
        dep.has_peer_connections,
    );
    let variant = if reachable {
        HomeConnectionVariant::Ready
    } else {
        mesh_status::home_connection_variant(&health, false, false)
    };
    let ready = variant == HomeConnectionVariant::Ready;
    let offline = variant == HomeConnectionVariant::Offline;
    let degraded = variant == HomeConnectionVariant::Degraded;
    NetworkCard {
        variant,
        headline: headline_text(variant, &health, dep.main_screen_reconnect_frame),
        show_retry: offline,
        show_details: offline || degraded,
        animate_mesh: !dep.reduced_motion && ready,
        dimmed_mesh: !ready,
        health_label: mesh_status::health_label(&health),
        encryption_status: if dep.direct_peers > 0 || dep.relayed_peers > 0 {
            "status.quic_encrypted"
        } else {
            "status.idle"
        },
    }
}

/// Where the sections of the home screen stand.
#[derive(Debug)]
pub enum Arrangement {
    /// Side by side.
    Row(Vec<HomeSection>),
    /// One below the other.
    Column(Vec<HomeSection>),
    /// The large card on top, where it is shown; below it two cards side by side; below those
    /// the rail, side by side too.
    Wide { hero: bool, primary: Vec<HomeSection>, rail: Vec<HomeSection> },
}

/// What an [`Arrangement`] holds.
#[verifier::ext_equal]
pub enum ArrangementView {
    Row(Seq<HomeSection>),
    Column(Seq<HomeSection>),
    Wide { hero: bool, primary: Seq<HomeSection>, rail: Seq<HomeSection> },
}

impl View for Arrangement {
    type V = ArrangementView;

    open spec fn view(&self) -> ArrangementView {
        match self {
            Arrangement::Row(sections) => ArrangementView::Row(sections@),
            Arrangement::Column(sections) => ArrangementView::Column(sections@),
            Arrangement::Wide { hero, primary, rail } => ArrangementView::Wide {
                hero: *hero,
                primary: primary@,
                rail: rail@,
            },
        }
    }
}

/// Whether a section stands in the rail.
pub open spec fn in_rail(section: HomeSection) -> bool {
    section == HomeSection::PeopleActivity || section == HomeSection::Tunnels
}

/// Each section of a list once, where it first stands.
pub open spec fn each_once(sections: Seq<HomeSection>) -> Seq<HomeSection>
    decreases sections.len(),
{
    if sections.len() == 0 {
        Seq::empty()
    } else {
        let front = each_once(sections.drop_last());
        if front.contains(sections.last()) {
            front
        } else {
            front.push(sections.last())
        }
    }
}

/// The sections of a list that stand in the rail, or those that do not.
pub open spec fn side(sections: Seq<HomeSection>, rail: bool) -> Seq<HomeSection> {
    sections.filter(|s: HomeSection| in_rail(s) == rail)
}

/// The section as a list, where it is shown.
pub open spec fn where_shown(sections: Seq<HomeSection>, section: HomeSection) -> Seq<HomeSection> {
    if sections.contains(section) {
        seq![section]
    } else {
        Seq::empty()
    }
}

/// Where the sections stand.
pub open spec fn arranged(
    visible: Seq<HomeSection>,
    mode: HomeLayoutMode,
    columns: usize,
    below_stack: bool,
) -> ArrangementView {
    let sections = each_once(visible);
    let main = side(sections, false);
    let rail = side(sections, true);
    if mode == HomeLayoutMode::Row {
        ArrangementView::Row(sections)
    } else if mode == HomeLayoutMode::List || mode == HomeLayoutMode::Column {
        ArrangementView::Column(sections)
    } else if layout::columns_of(mode, columns, below_stack) <= 1 || main.len() == 0 || rail.len()
        == 0 {
        ArrangementView::Column(main + rail)
    } else {
        ArrangementView::Wide {
            hero: sections.contains(HomeSection::Hero),
            primary: where_shown(sections, HomeSection::QuickActions) + where_shown(
                sections,
                HomeSection::MeshHealth,
            ),
            rail,
        }
    }
}

/// Each section of a list once, where it first stands.
fn dedup_sections(sections: &Vec<HomeSection>) -> (once: Vec<HomeSection>)
    ensures
        once@ == each_once(sections@),
{
    let mut once: Vec<HomeSection> = Vec::new();
    let mut i: usize = 0;
    assert(sections@.take(0) =~= Seq::<HomeSection>::empty());
    while i < sections.len()
        invariant
            i <= sections.len(),
            once@ == each_once(sections@.take(i as int)),
        decreases sections.len() - i,
    {
        let section = sections[i];
        assert(sections@.take(i + 1).drop_last() =~= sections@.take(i as int));
        assert(sections@.take(i + 1).last() == section);
        if !layout::holds_section(&once, section) {
            once.push(section);
        }
        i += 1;
    }
    assert(sections@.take(sections@.len() as int) =~= sections@);
    once
}

/// The sections of a list that stand in the rail, or those that do not.
fn take_side(sections: &Vec<HomeSection>, rail: bool) -> (part: Vec<HomeSection>)
    ensures
        part@ == side(sections@, rail),
{
    let ghost keep = |s: HomeSection| in_rail(s) == rail;
    let mut part: Vec<HomeSection> = Vec::new();
    let mut i: usize = 0;
    proof {
        reveal(Seq::filter);
        assert(sections@.take(0) =~= Seq::<HomeSection>::empty());
        assert(part@ =~= sections@.take(0).filter(keep));
    }
    while i < sections.len()
        invariant
            i <= sections.len(),
            keep == (|s: HomeSection| in_rail(s) == rail),
            part@ == sections@.take(i as int).filter(keep),
        decreases sections.len() - i,
    {
        let section = sections[i];
        proof {
            reveal(Seq::filter);
            assert(sections@.take(i + 1).drop_last() =~= sections@.take(i as int));
            assert(sections@.take(i + 1).last() == section);
        }
        let stands_in_rail = section == HomeSection::PeopleActivity || section
            == HomeSection::Tunnels;
        if stands_in_rail == rail {
            part.push(section);
        }
        i += 1;
    }
    assert(sections@.take(sections@.len() as int) =~= sections@);
    part
}

/// Adds a list to another.
fn append_sections(to: &mut Vec<HomeSection>, from: &Vec<HomeSection>)
    ensures
        final(to)@ == old(to)@ + from@,
{
    let ghost start = to@;
    let mut i: usize = 0;
    assert(from@.take(0) =~= Seq::<HomeSection>::empty());
    assert(start + from@.take(0) =~= start);
    while i < from.len()
        invariant
            i <= from.len(),
            to@ == start + from@.take(i as int),
        decreases from.len() - i,
    {
        to.push(from[i]);
        assert(from@.take(i + 1) =~= from@.take(i as int).push(from@[i as int]));
        i += 1;
    }
    assert(from@.take(from@.len() as int) =~= from@);
}

/// Where the sections of the home screen stand, where `columns` are asked for and `below_stack`
/// tells whether the content is narrower than the width below which they are stacked.
pub fn arrange(home: &HomeLayout, columns: usize, below_stack: bool) -> (arrangement: Arrangement)
    ensures
        arrangement@ == arranged(
            layout::shown_sections(home.section_order@, home.hidden_sections@),
            home.mode,
            columns,
            below_stack,
        ),
{
    let visible = home.visible_sections();
    let sections = dedup_sections(&visible);
    if home.mode == HomeLayoutMode::Row {
        return Arrangement::Row(sections);
    }
    if home.mode == HomeLayoutMode::List || home.mode == HomeLayoutMode::Column {
        return Arrangement::Column(sections);
    }
    let main = take_side(&sections, false);
    let rail = take_side(&sections, true);
    let columns = layout::effective_columns(home.mode, columns, below_stack);
    if columns <= 1 || main.len() == 0 || rail.len() == 0 {
        let mut stacked = main;
        append_sections(&mut stacked, &rail);
        return Arrangement::Column(stacked);
    }
    let mut primary: Vec<HomeSection> = Vec::new();
    if layout::holds_section(&sections, HomeSection::QuickActions) {
        primary.push(HomeSection::QuickActions);
    }
    if layout::holds_section(&sections, HomeSection::MeshHealth) {
        primary.push(HomeSection::MeshHealth);
    }
    let hero = layout::holds_section(&sections, HomeSection::Hero);
    assert(primary@ =~= where_shown(sections@, HomeSection::QuickActions) + where_shown(
        sections@,
        HomeSection::MeshHealth,
    ));
    Arrangement::Wide { hero, primary, rail }
}

/// What the home screen shows.
#[derive(Debug)]
pub struct HomeScreen {
    pub hero: HomeHero,
    pub network: NetworkCard,
    pub mesh: MeshCard,
    pub arrangement: Arrangement,
}

/// What the home screen shows.
pub fn view_chat_list_content(
    dep: &ChatListDependency,
    home: &HomeLayout,
    columns: usize,
    below_stack: bool,
) -> (screen: HomeScreen)
    ensures
        screen.hero.status@ == if dep.relay_connected || dep.has_peer_connections {
            "Connected"@
        } else {
            "Connecting"@
        },
        screen.hero.greeting@ == "Good "@ + dep.time_of_day_greeting@ + ", "@ + dep.local_label@,
        screen.hero.transport@ == network_connection::transport_text(
            dep.relay_connected,
            dep.direct_peers,
            dep.relayed_peers,
        ),
        screen.hero.friends@ == text::decimal(dep.people_activity.online.total_friends as nat),
        screen.network.variant == screen_variant(
            dep.mesh_health@,
            dep.relay_connected || dep.has_peer_connections,
        ),
        screen.network.headline@ == headline_of(
            screen.network.variant,
            dep.mesh_health@,
            dep.main_screen_reconnect_frame,
        ),
        screen.network.show_retry == (screen.network.variant is Offline),
        screen.network.show_details == (screen.network.variant is Offline
            || screen.network.variant is Degraded),
        screen.network.animate_mesh == (!dep.reduced_motion && screen.network.variant is Ready),
        screen.network.dimmed_mesh == !(screen.network.variant is Ready),
        screen.network.health_label@ == mesh_status::health_key(dep.mesh_health@),
        screen.network.encryption_status@ == if dep.direct_peers > 0 || dep.relayed_peers > 0 {
            "status.quic_encrypted"@
        } else {
            "status.idle"@
        },
        ({
            let variant = mesh_status::variant_of(
                dep.mesh_health@,
                dep.has_peer_connections,
                dep.relay_connected || dep.has_peer_connections,
            );
            &&& (screen.mesh.icon, screen.mesh.color) == mesh_status::card_visual(variant)
            &&& screen.mesh.label@ == mesh_status::card_label(variant, dep.mesh_health@)
            &&& mesh_status::phrase_views(screen.mesh.detail@) == mesh_status::card_detail(
                variant,
                (PeerCounts {
                    direct: dep.direct_peers,
                    relayed: dep.relayed_peers,
                    neighbors: dep.neighbors_len,
                    connected_secs: dep.connected_age_secs,
                }),
            )
        }),
        screen.mesh.health_label@ == mesh_status::health_key(dep.mesh_health@),
        screen.mesh.badge == match dep.mesh_health@ {
            HealthView::Good => StatusBadgeKind::Success,
            HealthView::Degraded(_) => StatusBadgeKind::Warning,
            HealthView::Offline(_) => StatusBadgeKind::Danger,
        },
        screen.mesh.header_color == match dep.mesh_health@ {
            HealthView::Good => ColorRole::AccentGreen,
            HealthView::Degraded(_) => ColorRole::Warning,
            HealthView::Offline(_) => ColorRole::Error,
        },
        screen.arrangement@ == arranged(
            layout::shown_sections(home.section_order@, home.hidden_sections@),
            home.mode,
            columns,
            below_stack,
        ),
{
    let health = dep.mesh_health.as_mesh_health();
    HomeScreen {
        hero: view_photo_home_hero(dep),
        network: network_card(dep),
        mesh: mesh_status::mesh_card(
            &health,
            dep.relay_connected,
            dep.has_peer_connections,
            PeerCounts {
                direct: dep.direct_peers,
                relayed: dep.relayed_peers,
                neighbors: dep.neighbors_len,
                connected_secs: dep.connected_age_secs,
            },
        ),
        arrangement: arrange(home, columns, below_stack),
    }
}

/// The sections of an arrangement, as they are read.
pub open spec fn sections_of(arrangement: ArrangementView) -> Seq<HomeSection> {
    match arrangement {
        ArrangementView::Row(sections) => sections,
        ArrangementView::Column(sections) => sections,
        ArrangementView::Wide { hero, primary, rail } => (if hero {
            seq![HomeSection::Hero]
        } else {
            Seq::empty()
        }) + primary + rail,
    }
}

proof fn lemma_each_once(sections: Seq<HomeSection>)
    ensures
        each_once(sections).no_duplicates(),
        forall|s: HomeSection| #[trigger]
            each_once(sections).contains(s) <==> sections.contains(s),
    decreases sections.len(),
{
    if sections.len() > 0 {
        let rest = sections.drop_last();
        let last = sections.last();
        lemma_each_once(rest);
        let front = each_once(rest);
        assert forall|s: HomeSection| each_once(sections).contains(s) <==> sections.contains(s) by {
            if sections.contains(s) {
                let k = choose|k: int| 0 <= k < sections.len() && sections[k] == s;
                if k < rest.len() {
                    assert(rest[k] == s);
                }
            }
            if rest.contains(s) {
                let k = choose|k: int| 0 <= k < rest.len() && rest[k] == s;
                assert(sections[k] == s);
            }
            assert(sections[sections.len() - 1] == last);
            if !front.contains(last) {
                assert(front.push(last)[front.len() as int] == last);
                if front.contains(s) {
                    let k = choose|k: int| 0 <= k < front.len() && front[k] == s;
                    assert(front.push(last)[k] == s);
                }
            }
        }
        if !front.contains(last) {
            assert forall|i: int, j: int|
                0 <= i < front.push(last).len() && 0 <= j < front.push(last).len() && i
                    != j implies front.push(last)[i] != front.push(last)[j] by {
                if i < front.len() {
                    assert(front.contains(front[i]));
                }
                if j < front.len() {
                    assert(front.contains(front[j]));
                }
            }
        }
    }
}

proof fn lemma_side(sections: Seq<HomeSection>, rail: bool)
    requires
        sections.no_duplicates(),
    ensures
        side(sections, rail).no_duplicates(),
        forall|s: HomeSection| #[trigger]
            side(sections, rail).contains(s) <==> sections.contains(s) && in_rail(s) == rail,
    decreases sections.len(),
{
    reveal(Seq::filter);
    if sections.len() > 0 {
        let rest = sections.drop_last();
        let last = sections.last();
        assert(rest.no_duplicates());
        lemma_side(rest, rail);
        let kept = side(rest, rail);
        assert(!rest.contains(last)) by {
            if rest.contains(last) {
                let k = choose|k: int| 0 <= k < rest.len() && rest[k] == last;
                assert(sections[k] == sections[sections.len() - 1]);
            }
        }
        assert forall|s: HomeSection|
            side(sections, rail).contains(s) <==> sections.contains(s) && in_rail(s) == rail by {
            if sections.contains(s) {
                let k = choose|k: int| 0 <= k < sections.len() && sections[k] == s;
                if k < rest.len() {
                    assert(rest[k] == s);
                }
            }
            if rest.contains(s) {
                let k = choose|k: int| 0 <= k < rest.len() && rest[k] == s;
                assert(sections[k] == s);
            }
            assert(sections[sections.len() - 1] == last);
            if in_rail(last) == rail {
                assert(kept.push(last)[kept.len() as int] == last);
                if kept.contains(s) {
                    let k = choose|k: int| 0 <= k < kept.len() && kept[k] == s;
                    assert(kept.push(last)[k] == s);
                }
            }
        }
        if in_rail(last) == rail {
            assert forall|i: int, j: int|
                0 <= i < kept.push(last).len() && 0 <= j < kept.push(last).len() && i
                    != j implies kept.push(last)[i] != kept.push(last)[j] by {
                if i < kept.len() {
                    assert(kept.contains(kept[i]));
                }
                if j < kept.len() {
                    assert(kept.contains(kept[j]));
                }
            }
        }
    }
}

proof fn lemma_joined(a: Seq<HomeSection>, b: Seq<HomeSection>)
    requires
        a.no_duplicates(),
        b.no_duplicates(),
        forall|s: HomeSection| a.contains(s) ==> !b.contains(s),
    ensures
        (a + b).no_duplicates(),
        forall|s: HomeSection| #[trigger]
            (a + b).contains(s) <==> a.contains(s) || b.contains(s),
{
    let both = a + b;
    assert forall|i: int, j: int|
        0 <= i < both.len() && 0 <= j < both.len() && i != j implies both[i] != both[j] by {
        if i < a.len() {
            assert(a.contains(a[i]));
        } else {
            assert(b.contains(b[i - a.len()]));
        }
        if j < a.len() {
            assert(a.contains(a[j]));
        } else {
            assert(b.contains(b[j - a.len()]));
        }
    }
    assert forall|s: HomeSection| both.contains(s) <==> a.contains(s) || b.contains(s) by {
        if a.contains(s) {
            let k = choose|k: int| 0 <= k < a.len() && a[k] == s;
            assert(both[k] == s);
        }
        if b.contains(s) {
            let k = choose|k: int| 0 <= k < b.len() && b[k] == s;
            assert(both[a.len() + k] == s);
        }
        if both.contains(s) {
            let k = choose|k: int| 0 <= k < both.len() && both[k] == s;
            if k < a.len() {
                assert(a[k] == s);
            } else {
                assert(b[k - a.len()] == s);
            }
        }
    }
}

proof fn lemma_where_shown(sections: Seq<HomeSection>, section: HomeSection)
    ensures
        where_shown(sections, section).no_duplicates(),
        forall|s: HomeSection| #[trigger]
            where_shown(sections, section).contains(s) <==> s == section && sections.contains(s),
{
    if sections.contains(section) {
        assert(where_shown(sections, section)[0] == section);
    }
}

/// Whatever the mode and the width, every section that is shown stands in the arrangement exactly
/// once, and no other does.
pub proof fn every_visible_section_stands_once(
    order: Seq<HomeSection>,
    hidden: Seq<HomeSection>,
    mode: HomeLayoutMode,
    columns: usize,
    below_stack: bool,
    section: HomeSection,
)
    ensures
        ({
            let shown = sections_of(
                arranged(layout::shown_sections(order, hidden), mode, columns, below_stack),
            );
            &&& shown.no_duplicates()
            &&& shown.contains(section) <==> order.contains(section) && !hidden.contains(section)
        }),
{
    let visible = layout::shown_sections(order, hidden);
    layout::hidden_sections_stay_hidden(order, hidden, section);
    let sections = each_once(visible);
    let main = side(sections, false);
    let rail = side(sections, true);
    lemma_each_once(visible);
    lemma_side(sections, false);
    lemma_side(sections, true);
    lemma_joined(main, rail);
    let hero = where_shown(sections, HomeSection::Hero);
    let quick = where_shown(sections, HomeSection::QuickActions);
    let mesh = where_shown(sections, HomeSection::MeshHealth);
    lemma_where_shown(sections, HomeSection::Hero);
    lemma_where_shown(sections, HomeSection::QuickActions);
    lemma_where_shown(sections, HomeSection::MeshHealth);
    lemma_joined(quick, mesh);
    lemma_joined(hero, quick + mesh);
    lemma_joined(hero + (quick + mesh), rail);
    assert((quick + mesh).contains(section) <==> quick.contains(section) || mesh.contains(section));
    assert((hero + (quick + mesh)).contains(section) <==> hero.contains(section) || (quick
        + mesh).contains(section));
    assert((hero + (quick + mesh) + rail).contains(section) <==> sections.contains(section));
    assert((main + rail).contains(section) <==> sections.contains(section));
}

/// The order of the layout is kept within the main column and within the rail.
pub proof fn columns_keep_the_order(
    visible: Seq<HomeSection>,
    columns: usize,
    below_stack: bool,
)
    ensures
        layout::columns_of(HomeLayoutMode::Grid, columns, below_stack) <= 1 ==> arranged(
            visible,
            HomeLayoutMode::Grid,
            columns,
            below_stack,
        ) == ArrangementView::Column(
            side(each_once(visible), false) + side(each_once(visible), true),
        ),
        arranged(visible, HomeLayoutMode::List, columns, below_stack) == ArrangementView::Column(
            each_once(visible),
        ),
{
}

/// The card says that the network is ready exactly where a relay or a peer is reached. Else what
/// is wrong with the network is said, with its reason, and where nothing is wrong that it is
/// starting, with the sign that turns. Each state has a headline of its own.
pub open spec fn is_truthful(card: NetworkCard, dep: ChatListDependency) -> bool {
    let reached = dep.relay_connected || dep.has_peer_connections;
    let health = dep.mesh_health@;
    &&& card.variant is Ready <==> reached
    &&& card.variant is Degraded <==> !reached && health is Degraded
    &&& card.variant is Offline <==> !reached && health is Offline
    &&& card.variant is Starting <==> !reached && health is Good
    &&& card.headline@.key == "home.ready"@ <==> reached
    &&& card.headline@.key == "home.degraded"@ <==> !reached && health is Degraded
    &&& card.headline@.key == "home.offline"@ <==> !reached && health is Offline
    &&& card.headline@.key == "home.starting"@ <==> !reached && health is Good
    &&& reached ==> card.headline@.args.len() == 0
    &&& !reached && health is Degraded ==> card.headline@.args == seq![
        ("reason"@, health->Degraded_0),
    ]
    &&& !reached && health is Offline ==> card.headline@.args == seq![
        ("reason"@, health->Offline_0),
    ]
    &&& !reached && health is Good ==> card.headline@.args == seq![
        ("dot"@, reconnect_dot(dep.main_screen_reconnect_frame)),
    ]
    &&& card.show_retry <==> !reached && health is Offline
    &&& card.show_details <==> !reached && !(health is Good)
    &&& card.animate_mesh <==> reached && !dep.reduced_motion
    &&& card.dimmed_mesh <==> !reached
    &&& card.health_label@ == "status.healthy"@ <==> health is Good
    &&& card.health_label@ == "status.degraded"@ <==> health is Degraded
    &&& card.health_label@ == "status.offline"@ <==> health is Offline
    &&& card.encryption_status@ == "status.quic_encrypted"@ <==> dep.direct_peers > 0
        || dep.relayed_peers > 0
    &&& card.encryption_status@ == "status.idle"@ <==> dep.direct_peers == 0
        && dep.relayed_peers == 0
}

/// The card about the network tells the truth.
pub proof fn network_cards_tell_the_truth(dep: ChatListDependency, card: NetworkCard)
    requires
        call_ensures(network_card, (&dep,), card),
    ensures
        is_truthful(card, dep),
{
    reveal_strlit("home.ready");
    reveal_strlit("home.degraded");
    reveal_strlit("home.offline");
    reveal_strlit("home.starting");
    reveal_strlit("home.connecting");
    assert("home.ready"@.len() == 10);
    assert("home.degraded"@.len() == 13 && "home.degraded"@[5] == 'd');
    assert("home.offline"@.len() == 12);
    assert("home.starting"@.len() == 13 && "home.starting"@[5] == 's');
    assert("home.connecting"@.len() == 15);
    reveal_strlit("status.quic_encrypted");
    reveal_strlit("status.idle");
    assert("status.quic_encrypted"@.len() == 21);
    assert("status.idle"@.len() == 11);
    let health = dep.mesh_health@;
    mesh_status::health_keys_tell_the_states_apart(health);
    let frame = dep.main_screen_reconnect_frame;
    assert(headline_of(card.variant, health, frame).args =~= match card.variant {
        HomeConnectionVariant::Starting => seq![("dot"@, reconnect_dot(frame))],
        HomeConnectionVariant::Degraded => seq![("reason"@, mesh_status::degraded_reason(health))],
        HomeConnectionVariant::Offline => seq![("reason"@, mesh_status::offline_reason(health))],
        _ => Seq::empty(),
    });
}

/// On the home screen too the card about the network tells the truth, the large card greets the
/// user and tells whether anything is reached, and the sections stand where they are arranged.
pub proof fn home_screens_tell_the_truth(
    dep: ChatListDependency,
    home: HomeLayout,
    columns: usize,
    below_stack: bool,
    screen: HomeScreen,
)
    requires
        call_ensures(view_chat_list_content, (&dep, &home, columns, below_stack), screen),
    ensures
        is_truthful(screen.network, dep),
        screen.hero.status@ == "Connected"@ <==> dep.relay_connected || dep.has_peer_connections,
        screen.hero.greeting@ == "Good "@ + dep.time_of_day_greeting@ + ", "@ + dep.local_label@,
        screen.hero.friends@ == text::decimal(dep.people_activity.online.total_friends as nat),
        screen.hero.transport@ == network_connection::transport_text(
            dep.relay_connected,
            dep.direct_peers,
            dep.relayed_peers,
        ),
        ({
            let health = dep.mesh_health@;
            let ready = health is Good && dep.has_peer_connections;
            let waiting = health is Good && !dep.has_peer_connections && dep.relay_connected;
            &&& screen.mesh.label@.key == "common.connected"@ <==> ready
            &&& screen.mesh.label@.key == "home.connecting"@ <==> waiting
            &&& screen.mesh.label@.key == "status.starting_up"@ <==> health is Good && !ready
                && !waiting
            &&& screen.mesh.label@.key == "status.degraded_reason"@ <==> health is Degraded
            &&& screen.mesh.label@.key == "status.offline_reason"@ <==> health is Offline
            &&& screen.mesh.color is AccentGreen <==> ready
            &&& screen.mesh.color is Error <==> health is Offline
            &&& screen.mesh.icon is Check <==> ready
            &&& screen.mesh.badge is Success <==> health is Good
            &&& screen.mesh.badge is Danger <==> health is Offline
            &&& screen.mesh.header_color is AccentGreen <==> health is Good
            &&& screen.mesh.header_color is Error <==> health is Offline
            &&& screen.mesh.health_label@ == mesh_status::health_key(health)
        }),
        screen.arrangement@ == arranged(
            layout::shown_sections(home.section_order@, home.hidden_sections@),
            home.mode,
            columns,
            below_stack,
        ),
{
    reveal_strlit("home.ready");
    reveal_strlit("home.degraded");
    reveal_strlit("home.offline");
    reveal_strlit("home.starting");
    reveal_strlit("home.connecting");
    assert("home.ready"@.len() == 10);
    assert("home.degraded"@.len() == 13 && "home.degraded"@[5] == 'd');
    assert("home.offline"@.len() == 12);
    assert("home.starting"@.len() == 13 && "home.starting"@[5] == 's');
    assert("home.connecting"@.len() == 15);
    reveal_strlit("status.quic_encrypted");
    reveal_strlit("status.idle");
    assert("status.quic_encrypted"@.len() == 21);
    assert("status.idle"@.len() == 11);
    let health = dep.mesh_health@;
    mesh_status::health_keys_tell_the_states_apart(health);
    let frame = dep.main_screen_reconnect_frame;
    assert(headline_of(screen.network.variant, health, frame).args =~= match screen.network.variant {
        HomeConnectionVariant::Starting => seq![("dot"@, reconnect_dot(frame))],
        HomeConnectionVariant::Degraded => seq![("reason"@, mesh_status::degraded_reason(health))],
        HomeConnectionVariant::Offline => seq![("reason"@, mesh_status::offline_reason(health))],
        _ => Seq::empty(),
    });
    reveal_strlit("Connected");
    reveal_strlit("Connecting");
    assert("Connected"@.len() == 9);
    assert("Connecting"@.len() == 10);
    reveal_strlit("common.connected");
    reveal_strlit("status.starting_up");
    reveal_strlit("status.degraded_reason");
    reveal_strlit("status.offline_reason");
    assert("common.connected"@.len() == 16);
    assert("home.connecting"@.len() == 15);
    assert("status.starting_up"@.len() == 18);
    assert("status.degraded_reason"@.len() == 22);
    assert("status.offline_reason"@.len() == 21);
}

/// Headlines of different states have different keys, whatever the health and the picture.
pub proof fn headlines_tell_the_states_apart(
    a: HomeConnectionVariant,
    b: HomeConnectionVariant,
    health_a: HealthView,
    health_b: HealthView,
    frame_a: u32,
    frame_b: u32,
)
    ensures
        headline_of(a, health_a, frame_a).key == headline_of(b, health_b, frame_b).key <==> a == b,
        headline_of(a, health_a, frame_a).key == "home.ready"@ <==> a is Ready,
        health_a matches HealthView::Degraded(reason) ==> headline_of(
            HomeConnectionVariant::Degraded,
            health_a,
            frame_a,
        ).args == seq![("reason"@, reason)],
        health_a matches HealthView::Offline(reason) ==> headline_of(
            HomeConnectionVariant::Offline,
            health_a,
            frame_a,
        ).args == seq![("reason"@, reason)],
{
    reveal_strlit("home.ready");
    reveal_strlit("home.degraded");
    reveal_strlit("home.offline");
    reveal_strlit("home.starting");
    reveal_strlit("home.connecting");
    assert("home.ready"@.len() == 10);
    assert("home.degraded"@.len() == 13 && "home.degraded"@[5] == 'd');
    assert("home.offline"@.len() == 12);
    assert("home.starting"@.len() == 13 && "home.starting"@[5] == 's');
    assert("home.connecting"@.len() == 15);
    assert(headline_of(HomeConnectionVariant::Degraded, health_a, frame_a).args =~= seq![
        ("reason"@, mesh_status::degraded_reason(health_a)),
    ]);
    assert(headline_of(HomeConnectionVariant::Offline, health_a, frame_a).args =~= seq![
        ("reason"@, mesh_status::offline_reason(health_a)),
    ]);
}

/// The sign that turns has four pictures, one character each; they follow each other in a circle.
pub proof fn the_sign_turns_in_a_circle(a: u32, b: u32)
    ensures
        reconnect_dot(a) == reconnect_dot(b) <==> a % 4 == b % 4,
        reconnect_dot(a).len() == 1,
        reconnect_dot(a)[0] as u32 == seq![0x280B_u32, 0x2819, 0x2839, 0x2838][a as int % 4],
{
    reveal_strlit("\u{280B}");
    reveal_strlit("\u{2819}");
    reveal_strlit("\u{2839}");
    reveal_strlit("\u{2838}");
    assert("\u{280B}"@.len() == 1 && "\u{280B}"@[0] == '\u{280B}');
    assert("\u{2819}"@.len() == 1 && "\u{2819}"@[0] == '\u{2819}');
    assert("\u{2839}"@.len() == 1 && "\u{2839}"@[0] == '\u{2839}');
    assert("\u{2838}"@.len() == 1 && "\u{2838}"@[0] == '\u{2838}');
}

/// The large card greets the user by name at their time of day, tells whether anything is
/// reached, and counts the friends that the user can write to.
pub proof fn the_hero_greets_and_counts(dep: ChatListDependency, hero: HomeHero)
    requires
        call_ensures(view_photo_home_hero, (&dep,), hero),
    ensures
        hero.status@ == "Connected"@ <==> dep.relay_connected || dep.has_peer_connections,
        hero.status@ == "Connecting"@ <==> !dep.relay_connected && !dep.has_peer_connections,
        hero.greeting@ == "Good "@ + dep.time_of_day_greeting@ + ", "@ + dep.local_label@,
        hero.friends@ == text::decimal(dep.people_activity.online.total_friends as nat),
        hero.transport@ == "Direct P2P"@ <==> dep.direct_peers > 0 && dep.relayed_peers == 0,
        hero.transport@ == "Relayed P2P"@ <==> dep.direct_peers == 0 && dep.relayed_peers > 0,
        hero.transport@ == "Waiting for connection"@ <==> dep.direct_peers == 0
            && dep.relayed_peers == 0 && !dep.relay_connected,
{
    reveal_strlit("Connected");
    reveal_strlit("Connecting");
    assert("Connected"@.len() == 9);
    assert("Connecting"@.len() == 10);
    network_connection::transport_is_told_by_what_there_is(
        dep.relay_connected,
        dep.direct_peers,
        dep.relayed_peers,
    );
}

/// What the screen depends on is what is known: nothing of it is lost or mixed up, a peer of any
/// kind is a peer, one connected relay is enough, and of the events the newest four are kept,
/// newest first.
pub proof fn screens_depend_on_what_is_known(
    facts: NetworkFacts,
    screen: ScreenFacts,
    people: PeopleActivityCardData,
    tunnels: TunnelsCardData,
    dep: ChatListDependency,
    i: int,
)
    requires
        call_ensures(chat_list_dependency, (&facts, screen, people, tunnels), dep),
    ensures
        dep.has_peer_connections <==> facts.direct_peers != 0 || facts.relayed_peers != 0
            || facts.neighbors != 0,
        dep.relay_connected <==> exists|k: int|
            0 <= k < facts.relays@.len() && #[trigger] facts.relays@[k],
        dep.direct_peers == facts.direct_peers && dep.relayed_peers == facts.relayed_peers
            && dep.neighbors_len == facts.neighbors,
        dep.mesh_health@ == facts.mesh_health@,
        dep.connected_age_secs == facts.connected_age_secs,
        dep.mesh_events@.len() <= 4 && dep.mesh_events@.len() <= facts.events@.len(),
        dep.mesh_events@.len() < 4 ==> dep.mesh_events@.len() == facts.events@.len(),
        0 <= i < dep.mesh_events@.len() ==> dep.mesh_events@[i].message@ == facts.events@.reverse(
        )[i].message@ && dep.mesh_events@[i].age_secs == facts.events@.reverse()[i].age_secs,
        dep.people_activity == people && dep.tunnels == tunnels,
        dep.dark_mode == screen.dark_mode && dep.reduced_motion == screen.reduced_motion,
        dep.theme_revision == screen.theme_revision && dep.layout_revision
            == screen.layout_revision,
        dep.window_width_bits == screen.window_width_bits && dep.window_height_bits
            == screen.window_height_bits,
        dep.main_screen_reconnect_frame == screen.reconnect_frame,
        dep.local_label@ == screen.local_label@ && dep.time_of_day_greeting@
            == screen.time_of_day_greeting@,
        dep.home_menu_item_opacity_bits == screen.home_menu_item_opacity_bits,
        dep.network_map_points == screen.network_map.points && dep.network_nodes_online
            == screen.network_map.nodes_online && dep.network_countries
            == screen.network_map.countries && dep.network_networks == screen.network_map.networks,
        dep.local_network_info == screen.local_network_info,
{
    if facts.relays@.contains(true) {
        let k = choose|k: int| 0 <= k < facts.relays@.len() && facts.relays@[k] == true;
        assert(facts.relays@[k]);
    }
    if exists|k: int| 0 <= k < facts.relays@.len() && #[trigger] facts.relays@[k] {
        let k = choose|k: int| 0 <= k < facts.relays@.len() && #[trigger] facts.relays@[k];
        assert(facts.relays@[k] == true);
    }
}

/// A list without repetitions stays as it is where each section is to stand once.
proof fn lemma_once_already(sections: Seq<HomeSection>)
    requires
        sections.no_duplicates(),
    ensures
        each_once(sections) == sections,
    decreases sections.len(),
{
    if sections.len() > 0 {
        lemma_once_already(sections.drop_last());
        assert(!sections.drop_last().contains(sections.last()));
        assert(sections.drop_last().push(sections.last()) =~= sections);
    } else {
        assert(each_once(sections) =~= sections);
    }
}

/// In a row, a list or a column, the sections stand in the order of the layout, whatever the
/// width.
pub proof fn simple_modes_keep_the_order(
    visible: Seq<HomeSection>,
    columns: usize,
    below_stack: bool,
)
    requires
        visible.no_duplicates(),
    ensures
        arranged(visible, HomeLayoutMode::Row, columns, below_stack) == ArrangementView::Row(
            visible,
        ),
        arranged(visible, HomeLayoutMode::List, columns, below_stack) == ArrangementView::Column(
            visible,
        ),
        arranged(visible, HomeLayoutMode::Column, columns, below_stack) == ArrangementView::Column(
            visible,
        ),
{
    lemma_once_already(visible);
}

/// A section that is filtered for is there before and after.
proof fn lemma_side_holds(sections: Seq<HomeSection>, rail: bool, section: HomeSection)
    requires
        sections.no_duplicates(),
    ensures
        side(sections, rail).contains(section) <==> sections.contains(section) && (rail <==>
            section is PeopleActivity || section is Tunnels),
{
    lemma_side(sections, rail);
}

/// A grid is wide exactly where more than one column is asked for, the content is wide enough,
/// and there is something both for the rail and beside it. Then the large card is on top where it
/// is shown, the quick actions stand before the health of the network, and only people and
/// tunnels stand in the rail.
pub proof fn grids_are_wide_where_there_is_room(
    visible: Seq<HomeSection>,
    columns: usize,
    below_stack: bool,
    section: HomeSection,
)
    ensures
        ({
            let found = arranged(visible, HomeLayoutMode::Grid, columns, below_stack);
            let has_rail = visible.contains(HomeSection::PeopleActivity) || visible.contains(
                HomeSection::Tunnels,
            );
            let has_main = visible.contains(HomeSection::Hero) || visible.contains(
                HomeSection::QuickActions,
            ) || visible.contains(HomeSection::MeshHealth);
            &&& found is Wide <==> columns > 1 && !below_stack && has_rail && has_main
            &&& !(found is Wide) ==> found is Column
            &&& found matches ArrangementView::Wide { hero, primary, rail } ==> {
                &&& hero <==> visible.contains(HomeSection::Hero)
                &&& primary.contains(section) <==> visible.contains(section) && (section
                    is QuickActions || section is MeshHealth)
                &&& primary.len() == 2 ==> primary[0] is QuickActions && primary[1] is MeshHealth
                &&& rail.contains(section) <==> visible.contains(section) && (section
                    is PeopleActivity || section is Tunnels)
            }
        }),
{
    let sections = each_once(visible);
    lemma_each_once(visible);
    let main = side(sections, false);
    let rail = side(sections, true);
    lemma_side_holds(sections, true, section);
    lemma_side_holds(sections, true, HomeSection::PeopleActivity);
    lemma_side_holds(sections, true, HomeSection::Tunnels);
    lemma_side_holds(sections, false, HomeSection::Hero);
    lemma_side_holds(sections, false, HomeSection::QuickActions);
    lemma_side_holds(sections, false, HomeSection::MeshHealth);
    if main.len() > 0 {
        assert(main.contains(main[0]));
        lemma_side_holds(sections, false, main[0]);
    }
    if rail.len() > 0 {
        assert(rail.contains(rail[0]));
        lemma_side_holds(sections, true, rail[0]);
    }
    let quick = where_shown(sections, HomeSection::QuickActions);
    let mesh = where_shown(sections, HomeSection::MeshHealth);
    lemma_where_shown(sections, HomeSection::QuickActions);
    lemma_where_shown(sections, HomeSection::MeshHealth);
    assert((quick + mesh).contains(section) <==> quick.contains(section) || mesh.contains(section))
        by {
        lemma_joined(quick, mesh);
    }
    assert(sections.contains(HomeSection::Hero) <==> visible.contains(HomeSection::Hero));
    assert(sections.contains(HomeSection::QuickActions) <==> visible.contains(
        HomeSection::QuickActions,
    ));
    assert(sections.contains(HomeSection::MeshHealth) <==> visible.contains(
        HomeSection::MeshHealth,
    ));
    assert(sections.contains(section) <==> visible.contains(section));
    assert(sections.contains(HomeSection::PeopleActivity) <==> visible.contains(
        HomeSection::PeopleActivity,
    ));
    assert(sections.contains(HomeSection::Tunnels) <==> visible.contains(HomeSection::Tunnels));
}

/// A ticket that is entered is kept as it is, and what was wrong with the last is forgotten.
pub proof fn tickets_are_kept_as_entered(input: &mut HomeInput, ticket: String)
    requires
        call_ensures(
            HomeInput::update_home,
            (input, HomeMessage::JoinTicketInputChanged(ticket)),
            (),
        ),
    ensures
        final(input).join_ticket_input@ == ticket@,
        final(input).chat_list_error@.len() == 0,
{
}

/// The sections stand where the layout, the columns and the width put them.
pub proof fn sections_stand_where_they_are_put(
    home: HomeLayout,
    columns: usize,
    below_stack: bool,
    found: Arrangement,
)
    requires
        call_ensures(arrange, (&home, columns, below_stack), found),
    ensures
        found@ == arranged(
            layout::shown_sections(home.section_order@, home.hidden_sections@),
            home.mode,
            columns,
            below_stack,
        ),
        home.mode is Row <==> found is Row,
        found is Wide ==> home.mode is Grid && columns > 1 && !below_stack,
{
}

} // verus!
