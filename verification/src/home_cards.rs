//! The cards of the home screen: friends that are online, recent activity, tunnels.

use vstd::prelude::*;
use vstd::string::*;

use crate::id_map::TunnelId;
use crate::mesh_status::HomeIcon;
use crate::notifications::{ActivityKind, NotificationsState, RecentActivityEvent};
use crate::phrase::Phrase;
use crate::phrase;
use crate::preview_target::IpAddress;
use crate::text;
use crate::tunnel_labels;
use crate::tunnel_labels::{ColorRole, TunnelStatus};
use crate::tunnels::{PeerKey, SharedView, TunnelsState};

verus! {

/// The most rows of recent activity that are kept for a card.
pub const ACTIVITY_ROWS: usize = 15;

/// The most rows of recent activity in the card about people and activity.
pub const PEOPLE_ACTIVITY_MAX: usize = 4;

/// The most characters of a description that are shown in a row of activity.
pub const ACTIVITY_DESCRIPTION_CHARS: usize = 75;

/// The most friends that are seen at once without scrolling.
pub const VISIBLE_PEERS: usize = 5;

/// What is said where no friend is online.
pub fn online_peers_empty_message() -> (message: Phrase)
    ensures
        message@ == phrase::plain("home.online_peers_empty"@),
{
    Phrase::new("home.online_peers_empty")
}

/// What is said where nothing happened.
pub fn recent_activity_empty_message() -> (message: Phrase)
    ensures
        message@ == phrase::plain("home.recent_activity_empty"@),
{
    Phrase::new("home.recent_activity_empty")
}

/// What is said where there is no tunnel.
pub fn tunnels_empty_message() -> (message: Phrase)
    ensures
        message@ == phrase::plain("home.tunnels_empty"@),
{
    Phrase::new("home.tunnels_empty")
}

/// What is said where the network has no events.
pub fn mesh_events_empty_message() -> (message: Phrase)
    ensures
        message@ == phrase::plain("home.mesh_events_empty"@),
{
    Phrase::new("home.mesh_events_empty")
}

/// What every card depends on.
#[derive(Debug, Clone, Copy, PartialEq, Eq, Structural, Hash)]
pub struct CardFrame {
    pub dark_mode: bool,
    /// Changes with the theme.
    pub theme_revision: u64,
    /// Whether the header takes two lines.
    pub compact_header: bool,
    /// The bits of the number that tells how opaque the background is.
    pub home_menu_item_opacity_bits: u32,
}

/// Whether a peer is there.
#[derive(Debug, Clone, Copy, PartialEq, Eq, Structural, Hash)]
pub enum PeerPresence {
    Online,
    Away,
    Connecting,
    Offline,
}

/// What is known of a friend.
#[derive(Debug)]
pub struct FriendEntry {
    /// Whether the user can write to them.
    pub can_message: bool,
    /// Their key, where what was stored of it can be read.
    pub key: Option<PeerKey>,
    /// What they are called.
    pub name: String,
    /// Whether they are there.
    pub presence: PeerPresence,
}

/// A friend that is online.
#[derive(Debug, Clone, PartialEq, Eq, Hash)]
pub struct OnlinePeerRow {
    pub pk: PeerKey,
    pub name: String,
    pub presence: PeerPresence,
}

/// What an [`OnlinePeerRow`] holds.
pub struct PeerRowView {
    pub pk: Seq<u8>,
    pub name: Seq<char>,
    pub presence: PeerPresence,
}

impl View for OnlinePeerRow {
    type V = PeerRowView;

    open spec fn view(&self) -> PeerRowView {
        PeerRowView { pk: self.pk@, name: self.name@, presence: self.presence }
    }
}

/// Whether a friend has a row: their key is known and they are not offline.
pub open spec fn is_listed(friend: FriendEntry) -> bool {
    friend.key is Some && friend.presence != PeerPresence::Offline
}

/// The row of a friend.
pub open spec fn row_of(friend: FriendEntry) -> PeerRowView {
    PeerRowView { pk: friend.key->0@, name: friend.name@, presence: friend.presence }
}

/// The rows of the friends that have one, in order.
pub open spec fn peer_rows(friends: Seq<FriendEntry>) -> Seq<PeerRowView> {
    friends.filter(|f: FriendEntry| is_listed(f)).map_values(|f: FriendEntry| row_of(f))
}

/// The friends that the user can write to.
pub open spec fn messageable(friends: Seq<FriendEntry>) -> Seq<FriendEntry> {
    friends.filter(|f: FriendEntry| f.can_message)
}

/// What each row of a list holds.
pub open spec fn peer_row_views(rows: Seq<OnlinePeerRow>) -> Seq<PeerRowView> {
    rows.map_values(|r: OnlinePeerRow| r@)
}

/// What the card about friends that are online depends on.
#[derive(Debug, Clone, PartialEq, Eq, Hash)]
pub struct OnlinePeersCardData {
    pub frame: CardFrame,
    /// How many friends the user can write to.
    pub total_friends: usize,
    /// The friends that are not offline.
    pub rows: Vec<OnlinePeerRow>,
}

impl OnlinePeersCardData {
    /// The card shows these friends.
    pub open spec fn shows(&self, friends: Seq<FriendEntry>, frame: CardFrame) -> bool {
        &&& self.frame == frame
        &&& self.total_friends == messageable(friends).len()
        &&& peer_row_views(self.rows@) == peer_rows(friends)
    }
}

/// What the card about friends that are online depends on.
pub fn online_peers_card_data(friends: &Vec<FriendEntry>, frame: CardFrame) -> (data:
    OnlinePeersCardData)
    ensures
        data.shows(friends@, frame),
{
    let ghost listed = |f: FriendEntry| is_listed(f);
    let ghost can = |f: FriendEntry| f.can_message;
    let ghost row = |f: FriendEntry| row_of(f);
    let mut total_friends: usize = 0;
    let mut rows: Vec<OnlinePeerRow> = Vec::new();
    let mut i: usize = 0;
    proof {
        reveal(Seq::filter);
        assert(friends@.take(0) =~= Seq::<FriendEntry>::empty());
        assert(peer_row_views(rows@) =~= peer_rows(friends@.take(0)));
    }
    while i < friends.len()
        invariant
            i <= friends.len(),
            total_friends <= i,
            listed == (|f: FriendEntry| is_listed(f)),
            can == (|f: FriendEntry| f.can_message),
            row == (|f: FriendEntry| row_of(f)),
            total_friends == friends@.take(i as int).filter(can).len(),
            peer_row_views(rows@) == friends@.take(i as int).filter(listed).map_values(row),
        decreases friends.len() - i,
    {
        let friend = &friends[i];
        let ghost before = peer_row_views(rows@);
        proof {
            reveal(Seq::filter);
            assert(friends@.take(i + 1).drop_last() =~= friends@.take(i as int));
            assert(friends@.take(i + 1).last() == *friend);
        }
        if friend.can_message {
            total_friends += 1;
        }
        if let Some(pk) = friend.key {
            if friend.presence != PeerPresence::Offline {
                rows.push(
                    OnlinePeerRow { pk, name: friend.name.clone(), presence: friend.presence },
                );
                assert(peer_row_views(rows@) =~= before.push(row_of(*friend)));
                assert(friends@.take(i + 1).filter(listed).map_values(row) =~= friends@.take(
                    i as int,
                ).filter(listed).map_values(row).push(row_of(*friend)));
            }
        }
        i += 1;
    }
    assert(friends@.take(friends@.len() as int) =~= friends@);
    OnlinePeersCardData { frame, total_friends, rows }
}

/// A row of recent activity.
#[derive(Debug, Clone, PartialEq, Eq, Hash)]
pub struct ActivityRow {
    pub description: String,
    pub kind: ActivityKind,
    pub timestamp: std::time::SystemTime,
}

/// The row tells of this event.
pub open spec fn tells_of(row: ActivityRow, event: RecentActivityEvent) -> bool {
    row.description@ == event.description@ && row.kind == event.kind && row.timestamp
        == event.timestamp
}

/// What the card about recent activity depends on.
#[derive(Debug, Clone, PartialEq, Eq, Hash)]
pub struct RecentActivityCardData {
    pub frame: CardFrame,
    /// Changes every second.
    pub tick: u64,
    /// How many events there are.
    pub total: usize,
    /// The newest of them.
    pub rows: Vec<ActivityRow>,
}

/// How many of `n` rows are shown where there is room for `limit`.
pub open spec fn at_most(n: nat, limit: nat) -> nat {
    if n < limit {
        n
    } else {
        limit
    }
}

impl RecentActivityCardData {
    /// The card shows this feed.
    pub open spec fn shows(
        &self,
        feed: Seq<RecentActivityEvent>,
        tick: u64,
        frame: CardFrame,
    ) -> bool {
        &&& self.frame == frame
        &&& self.tick == tick
        &&& self.total == feed.len()
        &&& self.rows@.len() == at_most(feed.len(), ACTIVITY_ROWS as nat)
        &&& forall|i: int|
            0 <= i < self.rows@.len() ==> tells_of(#[trigger] self.rows@[i], feed[i])
    }
}

/// What the card about recent activity depends on.
pub fn recent_activity_card_data(state: &NotificationsState, frame: CardFrame) -> (data:
    RecentActivityCardData)
    ensures
        data.shows(state@.activity, state@.tick, frame),
{
    let total = state.recent_activity.len();
    let mut rows: Vec<ActivityRow> = Vec::new();
    let mut i: usize = 0;
    while i < total && i < ACTIVITY_ROWS
        invariant
            total == state.recent_activity@.len(),
            i <= total,
            i <= ACTIVITY_ROWS,
            rows@.len() == i,
            forall|k: int|
                0 <= k < i ==> tells_of(#[trigger] rows@[k], state.recent_activity@[k]),
        decreases total - i,
    {
        let event = &state.recent_activity[i];
        rows.push(
            ActivityRow {
                description: event.description.clone(),
                kind: event.kind,
                timestamp: event.timestamp,
            },
        );
        i += 1;
    }
    RecentActivityCardData { frame, tick: state.activity_tick, total, rows }
}

/// What the card about people and activity depends on.
#[derive(Debug, Clone, PartialEq, Eq, Hash)]
pub struct PeopleActivityCardData {
    pub online: OnlinePeersCardData,
    pub activity: RecentActivityCardData,
}

/// What the card about people and activity depends on.
pub fn people_activity_card_data(
    friends: &Vec<FriendEntry>,
    state: &NotificationsState,
    frame: CardFrame,
) -> (data: PeopleActivityCardData)
    ensures
        data.online.shows(friends@, frame),
        data.activity.shows(state@.activity, state@.tick, frame),
{
    PeopleActivityCardData {
        online: online_peers_card_data(friends, frame),
        activity: recent_activity_card_data(state, frame),
    }
}

/// A tunnel as the service knows it.
#[derive(Debug)]
pub struct TunnelDefinition {
    pub id: TunnelId,
    pub status: TunnelStatus,
    pub expires_at_ms: u64,
    /// The host that the tunnel leads to.
    pub host: IpAddress,
    /// The host as it is written.
    pub host_text: String,
    pub port: u16,
    /// What the friend is called who may use the tunnel, where that is known.
    pub peer_name: Option<String>,
    /// The start of that friend's key.
    pub peer_short_key: String,
}

/// A row of the card about tunnels.
#[derive(Debug, Clone, PartialEq, Eq, Hash)]
pub struct TunnelRow {
    pub id: TunnelId,
    pub name: String,
    pub endpoint: String,
    pub status: TunnelStatus,
    pub expired: bool,
}

/// What a [`TunnelRow`] holds.
pub struct TunnelRowView {
    pub id: Seq<u8>,
    pub name: Seq<char>,
    pub endpoint: Seq<char>,
    pub status: TunnelStatus,
    pub expired: bool,
}

impl View for TunnelRow {
    type V = TunnelRowView;

    open spec fn view(&self) -> TunnelRowView {
        TunnelRowView {
            id: self.id@,
            name: self.name@,
            endpoint: self.endpoint@,
            status: self.status,
            expired: self.expired,
        }
    }
}

/// What a tunnel is called: as it was shared, or as the friend, or by the friend's key.
pub open spec fn tunnel_name(tunnel: TunnelDefinition, shared: Map<Seq<u8>, SharedView>) -> Seq<
    char,
> {
    if shared.dom().contains(tunnel.id@) {
        shared[tunnel.id@].service_name
    } else {
        match tunnel.peer_name {
            Some(name) => name@,
            None => tunnel.peer_short_key@,
        }
    }
}

/// The row of a tunnel.
pub open spec fn tunnel_row_of(
    tunnel: TunnelDefinition,
    shared: Map<Seq<u8>, SharedView>,
    now_ms: u64,
) -> TunnelRowView {
    TunnelRowView {
        id: tunnel.id@,
        name: tunnel_name(tunnel, shared),
        endpoint: tunnel_labels::target_text(tunnel.host, tunnel.host_text@, tunnel.port),
        status: tunnel.status,
        expired: tunnel_labels::is_expired(tunnel.status, tunnel.expires_at_ms, now_ms),
    }
}

/// What the card about tunnels depends on.
#[derive(Debug, Clone, PartialEq, Eq, Hash)]
pub struct TunnelsCardData {
    pub frame: CardFrame,
    /// Changes every second.
    pub tick: u64,
    pub rows: Vec<TunnelRow>,
}

/// What the card about tunnels depends on.
pub fn tunnels_card_data(
    tunnels: &Vec<TunnelDefinition>,
    state: &TunnelsState,
    tick: u64,
    now_ms: u64,
    frame: CardFrame,
) -> (data: TunnelsCardData)
    requires
        state.wf(),
    ensures
        data.frame == frame,
        data.tick == tick,
        data.rows@.len() == tunnels@.len(),
        forall|i: int|
            0 <= i < tunnels@.len() ==> (#[trigger] data.rows@[i])@ == tunnel_row_of(
                tunnels@[i],
                state@.shared,
                now_ms,
            ),
{
    let mut rows: Vec<TunnelRow> = Vec::new();
    let mut i: usize = 0;
    while i < tunnels.len()
        invariant
            i <= tunnels.len(),
            rows@.len() == i,
            state.wf(),
            forall|k: int|
                0 <= k < i ==> (#[trigger] rows@[k])@ == tunnel_row_of(
                    tunnels@[k],
                    state@.shared,
                    now_ms,
                ),
        decreases tunnels.len() - i,
    {
        let tunnel = &tunnels[i];
        let name = match state.shared_tunnels.get(&tunnel.id) {
            Some(shared) => {
                assert(state@.shared.dom().contains(tunnel.id@) && state@.shared[tunnel.id@]
                    == shared@);
                shared.service_name.clone()
            },
            None => match &tunnel.peer_name {
                Some(name) => name.clone(),
                None => tunnel.peer_short_key.clone(),
            },
        };
        rows.push(
            TunnelRow {
                id: tunnel.id,
                name,
                endpoint: tunnel_labels::tunnel_target_label(
                    tunnel.host,
                    tunnel.host_text.as_str(),
                    tunnel.port,
                ),
                status: tunnel.status,
                expired: tunnel_labels::tunnel_is_expired(
                    tunnel.status,
                    tunnel.expires_at_ms,
                    now_ms,
                ),
            },
        );
        i += 1;
    }
    TunnelsCardData { frame, tick, rows }
}

/// The key of the text on the action in the header of the card about tunnels.
pub open spec fn header_action(rows: nat) -> Seq<char> {
    if rows == 0 {
        "tunnels.create_action"@
    } else {
        "common.view_all"@
    }
}

/// The text on the action in the header of the card about tunnels.
pub fn tunnels_header_action_label(rows: usize) -> (label: Phrase)
    ensures
        label@ == phrase::plain(header_action(rows as nat)),
{
    if rows == 0 {
        Phrase::new("tunnels.create_action")
    } else {
        Phrase::new("common.view_all")
    }
}

/// The icon of a kind of activity.
pub open spec fn icon_of(kind: ActivityKind) -> HomeIcon {
    match kind {
        ActivityKind::Online => HomeIcon::Online,
        ActivityKind::Offline => HomeIcon::Offline,
        ActivityKind::FileShared => HomeIcon::Files,
        ActivityKind::Message => HomeIcon::Chat,
        ActivityKind::Generic => HomeIcon::Activity,
    }
}

/// The icon of a kind of activity, and its colour: only what came online is green.
pub fn activity_visual(kind: ActivityKind) -> (visual: (HomeIcon, ColorRole))
    ensures
        visual.0 == icon_of(kind),
        visual.1 == if kind == ActivityKind::Online {
            ColorRole::AccentGreen
        } else {
            ColorRole::Muted
        },
{
    match kind {
        ActivityKind::Online => (HomeIcon::Online, ColorRole::AccentGreen),
        ActivityKind::Offline => (HomeIcon::Offline, ColorRole::Muted),
        ActivityKind::FileShared => (HomeIcon::Files, ColorRole::Muted),
        ActivityKind::Message => (HomeIcon::Chat, ColorRole::Muted),
        ActivityKind::Generic => (HomeIcon::Activity, ColorRole::Muted),
    }
}

/// The body of a card: rows, of which the first `shown` are drawn, or what is said where there
/// are none.
#[derive(Debug)]
pub enum CardBody {
    Empty(Phrase),
    Rows { shown: usize },
}

impl CardBody {
    /// The body shows `shown` of `rows` rows, or says that there are none.
    pub open spec fn is_body_of(&self, rows: nat, shown: nat, empty: Seq<char>) -> bool {
        match self {
            CardBody::Empty(message) => rows == 0 && message@ == phrase::plain(empty),
            CardBody::Rows { shown: n } => rows > 0 && *n == shown,
        }
    }
}

/// The card about friends that are online.
#[derive(Debug)]
pub struct OnlinePeersCard {
    /// How many friends have a row.
    pub count: usize,
    /// How many friends the user can write to.
    pub count_total: usize,
    pub body: CardBody,
    /// How many rows are seen without scrolling.
    pub visible: usize,
}

/// The card about friends that are online. All rows are drawn; so many are seen at once.
pub fn view_online_peers_card(data: &OnlinePeersCardData) -> (card: OnlinePeersCard)
    ensures
        card.count == data.rows@.len(),
        card.count_total == data.total_friends,
        card.body.is_body_of(data.rows@.len(), data.rows@.len(), "home.online_peers_empty"@),
        card.visible == at_most(data.rows@.len(), VISIBLE_PEERS as nat),
{
    let count = data.rows.len();
    OnlinePeersCard {
        count,
        count_total: data.total_friends,
        body: if count == 0 {
            CardBody::Empty(online_peers_empty_message())
        } else {
            CardBody::Rows { shown: count }
        },
        visible: if count < VISIBLE_PEERS {
            count
        } else {
            VISIBLE_PEERS
        },
    }
}

/// A row of activity as it is drawn.
#[derive(Debug)]
pub struct DrawnActivity {
    pub icon: HomeIcon,
    pub color: ColorRole,
    /// The whole description, which is shortened for display.
    pub description: String,
    /// To how many characters it is shortened.
    pub description_limit: usize,
    pub timestamp: std::time::SystemTime,
}

/// The row is drawn so. The description is the text to be shortened: it is whole here, and goes
/// with the number of characters to which it is shortened where it is drawn.
pub open spec fn is_drawn(drawn: DrawnActivity, row: ActivityRow) -> bool {
    &&& drawn.icon == icon_of(row.kind)
    &&& drawn.color == if row.kind == ActivityKind::Online {
        ColorRole::AccentGreen
    } else {
        ColorRole::Muted
    }
    &&& drawn.description@ == row.description@
    &&& drawn.description_limit == ACTIVITY_DESCRIPTION_CHARS
    &&& drawn.timestamp == row.timestamp
}

/// The first rows of activity, at most `limit`, as they are drawn.
fn draw_activity(rows: &Vec<ActivityRow>, limit: usize) -> (drawn: Vec<DrawnActivity>)
    ensures
        drawn@.len() == at_most(rows@.len(), limit as nat),
        forall|i: int| 0 <= i < drawn@.len() ==> is_drawn(#[trigger] drawn@[i], rows@[i]),
{
    let mut drawn: Vec<DrawnActivity> = Vec::new();
    let mut i: usize = 0;
    while i < rows.len() && i < limit
        invariant
            i <= rows.len(),
            i <= limit,
            drawn@.len() == i,
            forall|k: int| 0 <= k < i ==> is_drawn(#[trigger] drawn@[k], rows@[k]),
        decreases rows.len() - i,
    {
        let row = &rows[i];
        let (icon, color) = activity_visual(row.kind);
        drawn.push(
            DrawnActivity {
                icon,
                color,
                description: row.description.clone(),
                description_limit: ACTIVITY_DESCRIPTION_CHARS,
                timestamp: row.timestamp,
            },
        );
        i += 1;
    }
    drawn
}

/// The card about recent activity.
#[derive(Debug)]
pub struct RecentActivityCard {
    /// How many events there are.
    pub count: usize,
    pub rows: Vec<DrawnActivity>,
    /// What is said where there are no rows.
    pub empty_message: Phrase,
}

/// The card about recent activity.
pub fn view_recent_activity_card(data: &RecentActivityCardData) -> (card: RecentActivityCard)
    ensures
        card.count == data.total,
        card.rows@.len() == data.rows@.len(),
        forall|i: int|
            0 <= i < card.rows@.len() ==> is_drawn(#[trigger] card.rows@[i], data.rows@[i]),
        card.empty_message@ == phrase::plain("home.recent_activity_empty"@),
{
    RecentActivityCard {
        count: data.total,
        rows: draw_activity(&data.rows, data.rows.len()),
        empty_message: recent_activity_empty_message(),
    }
}

/// The card about people and activity.
#[derive(Debug)]
pub struct PeopleActivityCard {
    /// How many friends have a tile.
    pub count: usize,
    /// How many friends the user can write to.
    pub count_total: usize,
    /// The tiles of the friends.
    pub peers: CardBody,
    /// The newest activity, where the feed is shown; no rows say that nothing happened.
    pub activity: Option<Vec<DrawnActivity>>,
    /// What is said where there is no activity.
    pub activity_empty_message: Phrase,
}

/// The card about people and activity.
pub fn view_people_activity_card(data: &PeopleActivityCardData, show_activity_feed: bool) -> (card:
    PeopleActivityCard)
    ensures
        card.count == data.online.rows@.len(),
        card.count_total == data.online.total_friends,
        card.peers.is_body_of(
            data.online.rows@.len(),
            data.online.rows@.len(),
            "home.online_peers_empty"@,
        ),
        card.activity is Some <==> show_activity_feed,
        match card.activity {
            Some(rows) => {
                &&& rows@.len() == at_most(
                    data.activity.rows@.len(),
                    PEOPLE_ACTIVITY_MAX as nat,
                )
                &&& forall|i: int|
                    0 <= i < rows@.len() ==> is_drawn(
                        #[trigger] rows@[i],
                        data.activity.rows@[i],
                    )
            },
            None => true,
        },
        card.activity_empty_message@ == phrase::plain("home.recent_activity_empty"@),
{
    let count = data.online.rows.len();
    PeopleActivityCard {
        count,
        count_total: data.online.total_friends,
        peers: if count == 0 {
            CardBody::Empty(online_peers_empty_message())
        } else {
            CardBody::Rows { shown: count }
        },
        activity: if show_activity_feed {
            Some(draw_activity(&data.activity.rows, PEOPLE_ACTIVITY_MAX))
        } else {
            None
        },
        activity_empty_message: recent_activity_empty_message(),
    }
}

/// A tunnel as it is drawn; its action closes it.
#[derive(Debug)]
pub struct DrawnTunnel {
    pub id: TunnelId,
    pub name: String,
    pub endpoint: String,
    pub status: &'static str,
    pub color: ColorRole,
}

/// The row is drawn so.
pub open spec fn is_drawn_tunnel(drawn: DrawnTunnel, row: TunnelRow) -> bool {
    &&& drawn.id@ == row.id@
    &&& drawn.name@ == row.name@
    &&& drawn.endpoint@ == row.endpoint@
    &&& drawn.status@ == tunnel_labels::status_text(row.status, row.expired)
    &&& drawn.color == tunnel_labels::status_role(row.status, row.expired)
}

/// The card about tunnels.
#[derive(Debug)]
pub struct TunnelsCard {
    pub count: usize,
    pub rows: Vec<DrawnTunnel>,
    /// The text on the action in the header.
    pub header_action: Phrase,
    /// What is said where there are no rows.
    pub empty_message: Phrase,
}

/// The card about tunnels.
pub fn view_tunnels_card(data: &TunnelsCardData) -> (card: TunnelsCard)
    ensures
        card.count == data.rows@.len(),
        card.rows@.len() == data.rows@.len(),
        forall|i: int|
            0 <= i < card.rows@.len() ==> is_drawn_tunnel(#[trigger] card.rows@[i], data.rows@[i]),
        card.header_action@ == phrase::plain(header_action(data.rows@.len())),
        card.empty_message@ == phrase::plain("home.tunnels_empty"@),
{
    let mut rows: Vec<DrawnTunnel> = Vec::new();
    let mut i: usize = 0;
    while i < data.rows.len()
        invariant
            i <= data.rows.len(),
            rows@.len() == i,
            forall|k: int| 0 <= k < i ==> is_drawn_tunnel(#[trigger] rows@[k], data.rows@[k]),
        decreases data.rows.len() - i,
    {
        let row = &data.rows[i];
        rows.push(
            DrawnTunnel {
                id: row.id,
                name: row.name.clone(),
                endpoint: row.endpoint.clone(),
                status: tunnel_labels::status_label(row.status, row.expired),
                color: tunnel_labels::status_color_role(row.status, row.expired),
            },
        );
        i += 1;
    }
    TunnelsCard {
        count: data.rows.len(),
        rows,
        header_action: tunnels_header_action_label(data.rows.len()),
        empty_message: tunnels_empty_message(),
    }
}

/// No friend who is offline has a row, and every row is that of a friend.
pub proof fn offline_friends_are_not_listed(friends: Seq<FriendEntry>, i: int)
    requires
        0 <= i < peer_rows(friends).len(),
    ensures
        peer_rows(friends)[i].presence != PeerPresence::Offline,
        exists|k: int|
            0 <= k < friends.len() && is_listed(#[trigger] friends[k]) && row_of(friends[k])
                == peer_rows(friends)[i],
{
    let listed = |f: FriendEntry| is_listed(f);
    friends.lemma_filter_pred(listed, i);
    lemma_filtered_are_members(friends, listed, i);
    let k = choose|k: int| 0 <= k < friends.len() && friends[k] == friends.filter(listed)[i];
    assert(is_listed(friends[k]) && row_of(friends[k]) == peer_rows(friends)[i]);
}

proof fn lemma_filtered_are_members(
    friends: Seq<FriendEntry>,
    pred: spec_fn(FriendEntry) -> bool,
    i: int,
)
    requires
        0 <= i < friends.filter(pred).len(),
    ensures
        friends.contains(friends.filter(pred)[i]),
    decreases friends.len(),
{
    reveal(Seq::filter);
    if friends.len() > 0 {
        let front = friends.drop_last();
        let kept = front.filter(pred);
        if i < kept.len() {
            lemma_filtered_are_members(front, pred, i);
            let k = choose|k: int| 0 <= k < front.len() && front[k] == kept[i];
            assert(friends[k] == kept[i]);
        } else {
            assert(friends[friends.len() - 1] == friends.last());
        }
    }
}

/// Each friend counts by themselves: one who can be written to is one more, and one whose key is
/// known and who is not offline has one more row, the last, with their key, name and presence.
pub proof fn each_friend_counts_by_themselves(friends: Seq<FriendEntry>, friend: FriendEntry)
    ensures
        messageable(Seq::empty()).len() == 0,
        peer_rows(Seq::empty()).len() == 0,
        friend.can_message ==> messageable(friends.push(friend)).len() == messageable(friends).len()
            + 1,
        !friend.can_message ==> messageable(friends.push(friend)).len() == messageable(
            friends,
        ).len(),
        friend.key is None || friend.presence is Offline ==> peer_rows(friends.push(friend))
            == peer_rows(friends),
        friend.key is Some && !(friend.presence is Offline) ==> {
            let rows = peer_rows(friends.push(friend));
            &&& rows.len() == peer_rows(friends).len() + 1
            &&& rows.drop_last() == peer_rows(friends)
            &&& rows.last().pk == friend.key->0@ && rows.last().name == friend.name@
                && rows.last().presence == friend.presence
        },
{
    reveal(Seq::filter);
    let more = friends.push(friend);
    assert(more.drop_last() =~= friends);
    let listed = |f: FriendEntry| is_listed(f);
    let row = |f: FriendEntry| row_of(f);
    if is_listed(friend) {
        assert(more.filter(listed) == friends.filter(listed).push(friend));
        assert(peer_rows(more) =~= peer_rows(friends).push(row_of(friend)));
        assert(peer_rows(more).drop_last() =~= peer_rows(friends));
    }
}

/// The card about friends lists just these rows and counts just these friends; both cards about
/// people do, and show the feed as it is.
pub proof fn cards_list_the_friends_that_are_there(
    friends: Vec<FriendEntry>,
    state: NotificationsState,
    frame: CardFrame,
    data: PeopleActivityCardData,
    i: int,
)
    requires
        call_ensures(people_activity_card_data, (&friends, &state, frame), data),
    ensures
        data.online.frame == frame && data.activity.frame == frame,
        data.online.total_friends == messageable(friends@).len(),
        data.online.rows@.len() == peer_rows(friends@).len(),
        0 <= i < data.online.rows@.len() ==> data.online.rows@[i].pk@ == peer_rows(friends@)[i].pk
            && data.online.rows@[i].name@ == peer_rows(friends@)[i].name
            && data.online.rows@[i].presence == peer_rows(friends@)[i].presence,
        data.activity.total == state@.activity.len(),
        data.activity.tick == state@.tick,
        data.activity.rows@.len() <= 15,
        data.activity.rows@.len() < 15 ==> data.activity.rows@.len() == state@.activity.len(),
        0 <= i < data.activity.rows@.len() ==> data.activity.rows@[i].description@
            == state@.activity[i].description@ && data.activity.rows@[i].kind
            == state@.activity[i].kind && data.activity.rows@[i].timestamp
            == state@.activity[i].timestamp,
{
    assert(peer_row_views(data.online.rows@).len() == data.online.rows@.len());
    if 0 <= i < data.online.rows@.len() {
        assert(peer_row_views(data.online.rows@)[i] == data.online.rows@[i]@);
    }
}

/// A tunnel goes by the name under which it was shared; without one by the friend's name; and
/// where that is not known by the start of the friend's key.
pub proof fn tunnels_go_by_the_best_name(
    tunnel: TunnelDefinition,
    shared: Map<Seq<u8>, SharedView>,
    now_ms: u64,
)
    ensures
        ({
            let row = tunnel_row_of(tunnel, shared, now_ms);
            let known = shared.dom().contains(tunnel.id@);
            &&& known ==> row.name == shared[tunnel.id@].service_name
            &&& !known && tunnel.peer_name is Some ==> row.name == tunnel.peer_name->0@
            &&& !known && tunnel.peer_name is None ==> row.name == tunnel.peer_short_key@
            &&& row.id == tunnel.id@ && row.status == tunnel.status
            &&& row.expired <==> !(tunnel.status is Revoked) && tunnel.expires_at_ms <= now_ms
            &&& row.endpoint == tunnel_labels::target_text(
                tunnel.host,
                tunnel.host_text@,
                tunnel.port,
            )
        }),
{
}

/// The card about tunnels has a row for each tunnel, in order.
pub proof fn every_tunnel_has_a_row(
    tunnels: Vec<TunnelDefinition>,
    state: TunnelsState,
    tick: u64,
    now_ms: u64,
    frame: CardFrame,
    data: TunnelsCardData,
    i: int,
)
    requires
        call_ensures(tunnels_card_data, (&tunnels, &state, tick, now_ms, frame), data),
    ensures
        data.frame == frame && data.tick == tick,
        data.rows@.len() == tunnels@.len(),
        0 <= i < tunnels@.len() ==> data.rows@[i]@ == tunnel_row_of(
            tunnels@[i],
            state@.shared,
            now_ms,
        ),
{
}

/// The action in the header creates a tunnel where there is none, and shows all where there are
/// any.
pub proof fn header_actions_fit_the_rows(rows: nat)
    ensures
        header_action(rows) == "tunnels.create_action"@ <==> rows == 0,
        header_action(rows) == "common.view_all"@ <==> rows > 0,
{
    reveal_strlit("tunnels.create_action");
    reveal_strlit("common.view_all");
    assert("tunnels.create_action"@.len() == 21);
    assert("common.view_all"@.len() == 15);
}

/// Each kind of activity has an icon of its own, and only what came online is green.
pub proof fn activities_look_different(
    a: ActivityKind,
    b: ActivityKind,
    of_a: (HomeIcon, ColorRole),
    of_b: (HomeIcon, ColorRole),
)
    requires
        call_ensures(activity_visual, (a,), of_a),
        call_ensures(activity_visual, (b,), of_b),
    ensures
        of_a.0 == of_b.0 <==> a == b,
        a is Online <==> of_a.0 is Online,
        a is Offline <==> of_a.0 is Offline,
        a is FileShared <==> of_a.0 is Files,
        a is Message <==> of_a.0 is Chat,
        a is Generic <==> of_a.0 is Activity,
        of_a.1 is AccentGreen <==> a is Online,
        of_a.1 is Muted <==> !(a is Online),
{
}

/// Cards without rows say that there is nothing, each in its own words.
pub proof fn empty_cards_say_so(
    peers: Phrase,
    activity: Phrase,
    tunnels: Phrase,
    events: Phrase,
)
    requires
        call_ensures(online_peers_empty_message, (), peers),
        call_ensures(recent_activity_empty_message, (), activity),
        call_ensures(tunnels_empty_message, (), tunnels),
        call_ensures(mesh_events_empty_message, (), events),
    ensures
        peers@ == phrase::plain("home.online_peers_empty"@),
        activity@ == phrase::plain("home.recent_activity_empty"@),
        tunnels@ == phrase::plain("home.tunnels_empty"@),
        events@ == phrase::plain("home.mesh_events_empty"@),
{
}

/// The card about friends counts its rows and all friends, draws every row or says that there is
/// none, and lets at most five be seen at once.
pub proof fn online_cards_draw_every_row(data: OnlinePeersCardData, card: OnlinePeersCard)
    requires
        call_ensures(view_online_peers_card, (&data,), card),
    ensures
        card.count == data.rows@.len() && card.count_total == data.total_friends,
        card.body is Empty <==> data.rows@.len() == 0,
        card.body matches CardBody::Rows { shown } ==> shown == data.rows@.len(),
        card.body matches CardBody::Empty(message) ==> message@ == phrase::plain(
            "home.online_peers_empty"@,
        ),
        card.visible <= 5 && card.visible <= data.rows@.len(),
        card.visible < 5 ==> card.visible == data.rows@.len(),
{
}

/// A row of activity is drawn with the icon of its kind, in green only where something came
/// online, with its own time and its whole description, to be shortened to 75 characters.
pub proof fn activity_is_drawn_as_it_is(drawn: DrawnActivity, row: ActivityRow)
    requires
        is_drawn(drawn, row),
    ensures
        drawn.icon is Online <==> row.kind is Online,
        drawn.icon is Offline <==> row.kind is Offline,
        drawn.icon is Files <==> row.kind is FileShared,
        drawn.icon is Chat <==> row.kind is Message,
        drawn.icon is Activity <==> row.kind is Generic,
        drawn.color is AccentGreen <==> row.kind is Online,
        drawn.color is Muted <==> !(row.kind is Online),
        drawn.description@ == row.description@,
        drawn.timestamp == row.timestamp,
        drawn.description_limit == 75,
{
}

/// The card about recent activity draws every row that it has, and counts all events.
pub proof fn activity_cards_draw_every_row(
    data: RecentActivityCardData,
    card: RecentActivityCard,
    i: int,
)
    requires
        call_ensures(view_recent_activity_card, (&data,), card),
    ensures
        card.count == data.total,
        card.rows@.len() == data.rows@.len(),
        0 <= i < card.rows@.len() ==> is_drawn(card.rows@[i], data.rows@[i]),
        card.empty_message@ == phrase::plain("home.recent_activity_empty"@),
{
}

/// The card about people and activity has a tile for every row and, where the feed is shown, the
/// newest four events at most.
pub proof fn people_cards_show_the_newest_four(
    data: PeopleActivityCardData,
    show: bool,
    card: PeopleActivityCard,
    i: int,
)
    requires
        call_ensures(view_people_activity_card, (&data, show), card),
    ensures
        card.count == data.online.rows@.len() && card.count_total == data.online.total_friends,
        card.peers is Empty <==> data.online.rows@.len() == 0,
        card.peers matches CardBody::Rows { shown } ==> shown == data.online.rows@.len(),
        card.peers matches CardBody::Empty(message) ==> message@ == phrase::plain(
            "home.online_peers_empty"@,
        ),
        card.activity is Some <==> show,
        show ==> card.activity->0@.len() <= 4 && card.activity->0@.len()
            <= data.activity.rows@.len(),
        show && card.activity->0@.len() < 4 ==> card.activity->0@.len()
            == data.activity.rows@.len(),
        show && 0 <= i < card.activity->0@.len() ==> is_drawn(
            card.activity->0@[i],
            data.activity.rows@[i],
        ),
        card.activity_empty_message@ == phrase::plain("home.recent_activity_empty"@),
{
}

/// The card about tunnels draws every row, with the name, the endpoint, the status and the colour
/// of its tunnel.
pub proof fn tunnel_cards_draw_every_row(data: TunnelsCardData, card: TunnelsCard, i: int)
    requires
        call_ensures(view_tunnels_card, (&data,), card),
    ensures
        card.count == data.rows@.len() && card.rows@.len() == data.rows@.len(),
        0 <= i < card.rows@.len() ==> {
            let (drawn, row) = (card.rows@[i], data.rows@[i]);
            &&& drawn.id@ == row.id@ && drawn.name@ == row.name@ && drawn.endpoint@ == row.endpoint@
            &&& drawn.status@ == "Expired"@ <==> row.expired
            &&& drawn.status@ == "Connected"@ <==> !row.expired && row.status is Connected
            &&& drawn.status@ == tunnel_labels::status_text(row.status, row.expired)
            &&& drawn.color is AccentGreen <==> !row.expired && row.status is Connected
            &&& drawn.color is Error <==> !row.expired && row.status is Failed
            &&& drawn.color == tunnel_labels::status_role(row.status, row.expired)
        },
        card.header_action@.key == "tunnels.create_action"@ <==> data.rows@.len() == 0,
        card.empty_message@ == phrase::plain("home.tunnels_empty"@),
{
    header_actions_fit_the_rows(data.rows@.len());
    if 0 <= i < card.rows@.len() {
        let row = data.rows@[i];
        assert(is_drawn_tunnel(card.rows@[i], row));
        tunnel_labels::listed_labels_follow_the_judgement(row.status, row.status);
        tunnel_labels::labels_tell_states_apart(row.status, 1, 0);
        tunnel_labels::colours_tell_how_a_tunnel_is(row.status, 1, 0);
        reveal_strlit("Expired");
        reveal_strlit("Connected");
        assert("Expired"@.len() == 7 && "Connected"@.len() == 9);
    }
}

} // verus!
