//! The tunnels that the user shares and receives, and the dialogs about them.

use vstd::prelude::*;
use vstd::string::*;

use crate::clock;
use crate::id_map::{IdMap, TunnelId};
use crate::text;

verus! {

/// The field for the tunnel's name, by which it gets the focus.
pub const SHARE_SERVICE_NAME_INPUT: &'static str = "share-service-name-input";

/// The field for the tunnel's port, by which it gets the focus.
pub const SHARE_SERVICE_PORT_INPUT: &'static str = "share-service-port-input";

/// How long the result of a scan for local services is used, in nanoseconds (half a minute).
pub const SCAN_CACHE_TTL_NANOS: u128 = 30_000_000_000;

/// How long a tunnel is to last.
#[derive(Debug, Clone, Copy, PartialEq, Eq, Structural, Hash)]
pub enum TunnelDuration {
    TenMinutes,
    ThirtyMinutes,
    OneHour,
    EightHours,
    UntilExit,
}

/// The key of a peer.
#[derive(Debug, Clone, Copy, PartialEq, Eq, Hash)]
pub struct PeerKey(pub [u8; 32]);

impl View for PeerKey {
    type V = Seq<u8>;

    open spec fn view(&self) -> Seq<u8> {
        self.0@
    }
}

/// A service that runs on this machine and could be shared.
#[derive(Debug, Clone, PartialEq, Eq)]
pub struct LocalServiceSuggestion {
    pub label: String,
    pub port: u16,
    pub is_http: bool,
}

/// What a [`LocalServiceSuggestion`] holds.
pub struct SuggestionView {
    pub label: Seq<char>,
    pub port: u16,
    pub is_http: bool,
}

impl View for LocalServiceSuggestion {
    type V = SuggestionView;

    open spec fn view(&self) -> SuggestionView {
        SuggestionView { label: self.label@, port: self.port, is_http: self.is_http }
    }
}

/// What each suggestion of a list holds.
pub open spec fn suggestion_views(list: Seq<LocalServiceSuggestion>) -> Seq<SuggestionView> {
    list.map_values(|s: LocalServiceSuggestion| s@)
}

/// A request for a tunnel that waits for an answer.
#[derive(Debug)]
pub struct TunnelRequest {
    pub peer: PeerKey,
    pub tunnel_id: String,
    pub timestamp: i64,
}

/// What a [`TunnelRequest`] holds.
pub struct RequestView {
    pub peer: Seq<u8>,
    pub tunnel_id: Seq<char>,
    pub timestamp: i64,
}

impl View for TunnelRequest {
    type V = RequestView;

    open spec fn view(&self) -> RequestView {
        RequestView { peer: self.peer@, tunnel_id: self.tunnel_id@, timestamp: self.timestamp }
    }
}

/// What each request of a list holds.
pub open spec fn request_views(list: Seq<TunnelRequest>) -> Seq<RequestView> {
    list.map_values(|r: TunnelRequest| r@)
}

/// What a friend offers.
#[derive(Debug)]
pub struct TunnelOffer {
    pub tunnel_id: TunnelId,
    pub service_name: String,
    /// Whether the sharer named the service as HTTP.
    pub is_http: bool,
    pub expires_at_ms: u64,
    /// The local port that the sharer proposes.
    pub preferred_local_port: Option<u16>,
}

/// What a [`TunnelOffer`] holds.
pub struct OfferView {
    pub tunnel_id: Seq<u8>,
    pub service_name: Seq<char>,
    pub is_http: bool,
    pub expires_at_ms: u64,
    pub preferred_local_port: Option<u16>,
}

impl View for TunnelOffer {
    type V = OfferView;

    open spec fn view(&self) -> OfferView {
        OfferView {
            tunnel_id: self.tunnel_id@,
            service_name: self.service_name@,
            is_http: self.is_http,
            expires_at_ms: self.expires_at_ms,
            preferred_local_port: self.preferred_local_port,
        }
    }
}

/// The address at which a local listener waits.
#[derive(Debug)]
pub struct ListenAddress {
    /// Host and port, as they are written.
    pub shown: String,
    /// The port.
    pub port: u16,
}

/// What a [`ListenAddress`] holds.
pub struct AddressView {
    pub shown: Seq<char>,
    pub port: u16,
}

impl View for ListenAddress {
    type V = AddressView;

    open spec fn view(&self) -> AddressView {
        AddressView { shown: self.shown@, port: self.port }
    }
}

/// What an optional address holds.
pub open spec fn opt_address(address: Option<ListenAddress>) -> Option<AddressView> {
    match address {
        Some(a) => Some(a@),
        None => None,
    }
}

/// A tunnel that a friend offered.
#[derive(Debug)]
pub struct ReceivedTunnelState {
    /// What is offered.
    pub offer: TunnelOffer,
    /// Who offers it.
    pub sharer: PeerKey,
    /// What the sharer was called when the offer came.
    pub sharer_label: String,
    /// Whether a local listener is connected.
    pub connected: bool,
    /// Where the listener waits.
    pub local_addr: Option<ListenAddress>,
    /// The number of the listener's task, by which it is stopped.
    pub listener: Option<u64>,
    /// Whether the listener reports on its connection.
    pub live_info: bool,
    /// Whether the last attempt to connect failed.
    pub connection_failed: bool,
}

/// What a [`ReceivedTunnelState`] holds.
pub struct ReceivedView {
    pub offer: OfferView,
    pub sharer: Seq<u8>,
    pub sharer_label: Seq<char>,
    pub connected: bool,
    pub local_addr: Option<AddressView>,
    pub listener: Option<u64>,
    pub live_info: bool,
    pub connection_failed: bool,
}

impl View for ReceivedTunnelState {
    type V = ReceivedView;

    open spec fn view(&self) -> ReceivedView {
        ReceivedView {
            offer: self.offer@,
            sharer: self.sharer@,
            sharer_label: self.sharer_label@,
            connected: self.connected,
            local_addr: opt_address(self.local_addr),
            listener: self.listener,
            live_info: self.live_info,
            connection_failed: self.connection_failed,
        }
    }
}

/// A tunnel that the user shares.
#[derive(Debug)]
pub struct SharedTunnelState {
    pub service_name: String,
    pub is_http: bool,
}

/// What a [`SharedTunnelState`] holds.
pub struct SharedView {
    pub service_name: Seq<char>,
    pub is_http: bool,
}

impl View for SharedTunnelState {
    type V = SharedView;

    open spec fn view(&self) -> SharedView {
        SharedView { service_name: self.service_name@, is_http: self.is_http }
    }
}

/// What each received tunnel holds.
pub open spec fn received_views(map: Map<Seq<u8>, ReceivedTunnelState>) -> Map<
    Seq<u8>,
    ReceivedView,
> {
    map.map_values(|s: ReceivedTunnelState| s@)
}

/// What each shared tunnel holds.
pub open spec fn shared_views(map: Map<Seq<u8>, SharedTunnelState>) -> Map<Seq<u8>, SharedView> {
    map.map_values(|s: SharedTunnelState| s@)
}

/// The state of everything about tunnels.
#[derive(Debug)]
pub struct TunnelsState {
    /// Whether the dialog that picks a friend is shown.
    pub show_create_tunnel_dialog: bool,
    /// The port entered there for the receiving side; empty leaves the choice open.
    pub create_tunnel_port: String,
    /// What is wrong with that port.
    pub create_tunnel_port_error: Option<String>,
    /// The requests that wait, in the order in which they came.
    pub tunnel_requests: Vec<TunnelRequest>,
    /// Whether the share dialog is open.
    pub share_local_service_open: bool,
    /// Whether its content is being submitted.
    pub share_service_submitting: bool,
    /// What is wrong with its content.
    pub share_service_error: Option<String>,
    /// The service's name in the dialog.
    pub share_service_name: String,
    /// The local port in the dialog.
    pub share_service_port: String,
    /// How long the tunnel is to last.
    pub share_service_expiry: TunnelDuration,
    /// Whether the service is named as HTTP.
    pub share_service_is_http: bool,
    /// The local services that were found.
    pub share_service_suggestions: Vec<LocalServiceSuggestion>,
    /// Whether they are being looked for.
    pub share_service_scanning: bool,
    /// When they were last looked for.
    pub share_service_scan_cached_at: Option<std::time::Instant>,
    /// The tunnels that friends offered.
    pub received_tunnels: IdMap<ReceivedTunnelState>,
    /// The tunnels that the user shares.
    pub shared_tunnels: IdMap<SharedTunnelState>,
}

/// What a [`TunnelsState`] holds.
#[verifier::ext_equal]
pub struct TunnelsView {
    pub picker_open: bool,
    pub picker_port: Seq<char>,
    pub picker_error: Option<Seq<char>>,
    pub requests: Seq<RequestView>,
    pub share_open: bool,
    pub submitting: bool,
    pub share_error: Option<Seq<char>>,
    pub name: Seq<char>,
    pub port: Seq<char>,
    pub expiry: TunnelDuration,
    pub is_http: bool,
    pub suggestions: Seq<SuggestionView>,
    pub scanning: bool,
    pub scanned_at: Option<std::time::Instant>,
    pub received: Map<Seq<u8>, ReceivedView>,
    pub shared: Map<Seq<u8>, SharedView>,
}

impl View for TunnelsState {
    type V = TunnelsView;

    open spec fn view(&self) -> TunnelsView {
        TunnelsView {
            picker_open: self.show_create_tunnel_dialog,
            picker_port: self.create_tunnel_port@,
            picker_error: text::opt_text(self.create_tunnel_port_error),
            requests: request_views(self.tunnel_requests@),
            share_open: self.share_local_service_open,
            submitting: self.share_service_submitting,
            share_error: text::opt_text(self.share_service_error),
            name: self.share_service_name@,
            port: self.share_service_port@,
            expiry: self.share_service_expiry,
            is_http: self.share_service_is_http,
            suggestions: suggestion_views(self.share_service_suggestions@),
            scanning: self.share_service_scanning,
            scanned_at: self.share_service_scan_cached_at,
            received: received_views(self.received_tunnels@),
            shared: shared_views(self.shared_tunnels@),
        }
    }
}

/// A change of the tunnels' state alone.
#[derive(Debug, Clone, PartialEq)]
pub enum TunnelsMessage {
    /// The dialog that picks a friend is asked for.
    ShowCreateTunnelDialog,
    /// The port in that dialog changed.
    CreateTunnelPortChanged(String),
    /// That dialog is to close.
    CancelCreateTunnel,
    /// The service's name changed.
    ShareLocalServiceNameChanged(String),
    /// The local port changed.
    ShareLocalServicePortChanged(String),
    /// Another duration was chosen.
    ShareLocalServiceExpiryChanged(TunnelDuration),
    /// The service was named as HTTP, or not any more.
    ShareLocalServiceHttpToggled(bool),
    /// The share dialog is to close.
    CancelShareLocalService,
    /// Local services were found.
    ShareLocalServiceScanDone(Vec<LocalServiceSuggestion>),
    /// One of them was picked, by its port.
    SelectShareLocalServiceSuggestion(u16),
    /// A received tunnel is to be disconnected.
    DisconnectReceivedTunnel(TunnelId),
}

/// The first suggestion with this port.
pub open spec fn suggestion_at(list: Seq<SuggestionView>, port: u16) -> Option<SuggestionView>
    decreases list.len(),
{
    if list.len() == 0 {
        None
    } else if list[0].port == port {
        Some(list[0])
    } else {
        suggestion_at(list.drop_first(), port)
    }
}

/// A received tunnel without its listener.
pub open spec fn disconnected(state: ReceivedView) -> ReceivedView {
    ReceivedView {
        connected: false,
        local_addr: None,
        listener: None,
        live_info: false,
        connection_failed: false,
        ..state
    }
}

impl TunnelsView {
    /// What a message makes of the state, where `now` is the present moment.
    pub open spec fn updated(self, msg: TunnelsMessage, now: std::time::Instant) -> Self {
        match msg {
            TunnelsMessage::ShowCreateTunnelDialog => TunnelsView {
                picker_open: true,
                picker_error: None,
                ..self
            },
            TunnelsMessage::CreateTunnelPortChanged(value) => TunnelsView {
                picker_port: value@,
                picker_error: None,
                ..self
            },
            TunnelsMessage::CancelCreateTunnel => TunnelsView { picker_open: false, ..self },
            TunnelsMessage::ShareLocalServiceNameChanged(value) => TunnelsView {
                name: value@,
                share_error: None,
                ..self
            },
            TunnelsMessage::ShareLocalServicePortChanged(value) => TunnelsView {
                port: value@,
                share_error: None,
                ..self
            },
            TunnelsMessage::ShareLocalServiceExpiryChanged(value) => TunnelsView {
                expiry: value,
                ..self
            },
            TunnelsMessage::ShareLocalServiceHttpToggled(value) => TunnelsView {
                is_http: value,
                ..self
            },
            TunnelsMessage::CancelShareLocalService => if self.submitting {
                self
            } else {
                TunnelsView { share_open: false, share_error: None, ..self }
            },
            TunnelsMessage::ShareLocalServiceScanDone(found) => TunnelsView {
                scanning: false,
                suggestions: suggestion_views(found@),
                scanned_at: Some(now),
                ..self
            },
            TunnelsMessage::SelectShareLocalServiceSuggestion(port) => match suggestion_at(
                self.suggestions,
                port,
            ) {
                Some(suggestion) => TunnelsView {
                    port: text::decimal(port as nat),
                    name: suggestion.label,
                    is_http: suggestion.is_http,
                    share_error: None,
                    ..self
                },
                None => self,
            },
            TunnelsMessage::DisconnectReceivedTunnel(id) => if self.received.dom().contains(id@) {
                TunnelsView {
                    received: self.received.insert(id@, disconnected(self.received[id@])),
                    ..self
                }
            } else {
                self
            },
        }
    }

    /// The number of the listener that a message stops.
    pub open spec fn stopped_listener(self, msg: TunnelsMessage) -> Option<u64> {
        match msg {
            TunnelsMessage::DisconnectReceivedTunnel(id) => if self.received.dom().contains(id@) {
                self.received[id@].listener
            } else {
                None
            },
            _ => None,
        }
    }
}

impl TunnelsState {
    /// The maps hold no identifier twice.
    pub open spec fn wf(&self) -> bool {
        self.received_tunnels.wf() && self.shared_tunnels.wf()
    }

    /// The state at the start.
    pub fn new() -> (state: Self)
        ensures
            state.wf(),
            state@ == (TunnelsView {
                picker_open: false,
                picker_port: Seq::empty(),
                picker_error: None,
                requests: Seq::empty(),
                share_open: false,
                submitting: false,
                share_error: None,
                name: "Development Server"@,
                port: "3000"@,
                expiry: TunnelDuration::OneHour,
                is_http: true,
                suggestions: Seq::empty(),
                scanning: false,
                scanned_at: None,
                received: Map::empty(),
                shared: Map::empty(),
            }),
    {
        let state = TunnelsState {
            show_create_tunnel_dialog: false,
            create_tunnel_port: String::new(),
            create_tunnel_port_error: None,
            tunnel_requests: Vec::new(),
            share_local_service_open: false,
            share_service_submitting: false,
            share_service_error: None,
            share_service_name: "Development Server".to_owned(),
            share_service_port: "3000".to_owned(),
            share_service_expiry: TunnelDuration::OneHour,
            share_service_is_http: true,
            share_service_suggestions: Vec::new(),
            share_service_scanning: false,
            share_service_scan_cached_at: None,
            received_tunnels: IdMap::new(),
            shared_tunnels: IdMap::new(),
        };
        proof {
            assert(state@.requests =~= Seq::empty());
            assert(state@.suggestions =~= Seq::empty());
            assert(state@.received =~= Map::empty());
            assert(state@.shared =~= Map::empty());
        }
        state
    }

    /// The place of the first suggestion with this port.
    fn find_suggestion(&self, port: u16) -> (place: Option<usize>)
        ensures
            match place {
                Some(i) => i < self.share_service_suggestions@.len() && suggestion_at(
                    self@.suggestions,
                    port,
                ) == Some(self.share_service_suggestions@[i as int]@),
                None => suggestion_at(self@.suggestions, port) is None,
            },
    {
        let ghost list = self@.suggestions;
        let mut i: usize = 0;
        assert(list.skip(0) =~= list);
        while i < self.share_service_suggestions.len()
            invariant
                i <= self.share_service_suggestions.len(),
                list == suggestion_views(self.share_service_suggestions@),
                suggestion_at(list, port) == suggestion_at(list.skip(i as int), port),
            decreases self.share_service_suggestions.len() - i,
        {
            assert(list.skip(i as int)[0] == self.share_service_suggestions@[i as int]@);
            if self.share_service_suggestions[i].port == port {
                return Some(i);
            }
            assert(list.skip(i as int).drop_first() =~= list.skip(i + 1));
            i += 1;
        }
        None
    }

    /// Replaces what is known of a received tunnel.
    pub fn put_received(&mut self, id: TunnelId, state: ReceivedTunnelState)
        requires
            old(self).wf(),
        ensures
            final(self).wf(),
            final(self)@ == (TunnelsView {
                received: old(self)@.received.insert(id@, state@),
                ..old(self)@
            }),
    {
        let ghost before = self.received_tunnels@;
        self.received_tunnels.insert(id, state);
        assert(received_views(before.insert(id@, state)) =~= received_views(before).insert(
            id@,
            state@,
        ));
    }

    /// Forgets a received tunnel.
    pub fn take_received(&mut self, id: &TunnelId) -> (state: Option<ReceivedTunnelState>)
        requires
            old(self).wf(),
        ensures
            final(self).wf(),
            final(self)@ == (TunnelsView {
                received: old(self)@.received.remove(id@),
                ..old(self)@
            }),
            match state {
                Some(s) => old(self)@.received.dom().contains(id@) && old(self)@.received[id@]
                    == s@,
                None => !old(self)@.received.dom().contains(id@),
            },
    {
        let ghost before = self.received_tunnels@;
        let state = self.received_tunnels.remove(id);
        assert(received_views(before.remove(id@)) =~= received_views(before).remove(id@));
        state
    }

    /// Replaces what is known of a shared tunnel.
    pub fn put_shared(&mut self, id: TunnelId, state: SharedTunnelState)
        requires
            old(self).wf(),
        ensures
            final(self).wf(),
            final(self)@ == (TunnelsView {
                shared: old(self)@.shared.insert(id@, state@),
                ..old(self)@
            }),
    {
        let ghost before = self.shared_tunnels@;
        self.shared_tunnels.insert(id, state);
        assert(shared_views(before.insert(id@, state)) =~= shared_views(before).insert(
            id@,
            state@,
        ));
    }

    /// Forgets a shared tunnel.
    pub fn take_shared(&mut self, id: &TunnelId) -> (state: Option<SharedTunnelState>)
        requires
            old(self).wf(),
        ensures
            final(self).wf(),
            final(self)@ == (TunnelsView { shared: old(self)@.shared.remove(id@), ..old(self)@ }),
            match state {
                Some(s) => old(self)@.shared.dom().contains(id@) && old(self)@.shared[id@] == s@,
                None => !old(self)@.shared.dom().contains(id@),
            },
    {
        let ghost before = self.shared_tunnels@;
        let state = self.shared_tunnels.remove(id);
        assert(shared_views(before.remove(id@)) =~= shared_views(before).remove(id@));
        state
    }

    /// Takes a message into account at the moment `now`; gives the number of the listener that
    /// is to be stopped.
    pub fn update_at(&mut self, msg: TunnelsMessage, now: std::time::Instant) -> (stop: Option<u64>)
        requires
            old(self).wf(),
        ensures
            final(self).wf(),
            final(self)@ == old(self)@.updated(msg, now),
            stop == old(self)@.stopped_listener(msg),
    {
        match msg {
            TunnelsMessage::ShowCreateTunnelDialog => {
                self.show_create_tunnel_dialog = true;
                self.create_tunnel_port_error = None;
            },
            TunnelsMessage::CreateTunnelPortChanged(value) => {
                self.create_tunnel_port = value;
                self.create_tunnel_port_error = None;
            },
            TunnelsMessage::CancelCreateTunnel => {
                self.show_create_tunnel_dialog = false;
            },
            TunnelsMessage::ShareLocalServiceNameChanged(value) => {
                self.share_service_name = value;
                self.share_service_error = None;
            },
            TunnelsMessage::ShareLocalServicePortChanged(value) => {
                self.share_service_port = value;
                self.share_service_error = None;
            },
            TunnelsMessage::ShareLocalServiceExpiryChanged(value) => {
                self.share_service_expiry = value;
            },
            TunnelsMessage::ShareLocalServiceHttpToggled(value) => {
                self.share_service_is_http = value;
            },
            TunnelsMessage::CancelShareLocalService => {
                if !self.share_service_submitting {
                    self.share_local_service_open = false;
                    self.share_service_error = None;
                }
            },
            TunnelsMessage::ShareLocalServiceScanDone(found) => {
                self.share_service_scanning = false;
                self.share_service_suggestions = found;
                self.share_service_scan_cached_at = Some(now);
            },
            TunnelsMessage::SelectShareLocalServiceSuggestion(port) => {
                if let Some(i) = self.find_suggestion(port) {
                    self.share_service_port = text::decimal_text(port as u64);
                    self.share_service_name = self.share_service_suggestions[i].label.clone();
                    self.share_service_is_http = self.share_service_suggestions[i].is_http;
                    self.share_service_error = None;
                }
            },
            TunnelsMessage::DisconnectReceivedTunnel(id) => {
                let ghost before = self@;
                match self.take_received(&id) {
                    Some(state) => {
                        let stop = state.listener;
                        let changed = ReceivedTunnelState {
                            connected: false,
                            local_addr: None,
                            listener: None,
                            live_info: false,
                            connection_failed: false,
                            ..state
                        };
                        self.put_received(id, changed);
                        assert(before.received.remove(id@).insert(id@, changed@)
                            =~= before.received.insert(id@, changed@));
                        return stop;
                    },
                    None => {
                        assert(before.received.remove(id@) =~= before.received);
                    },
                }
            },
        }
        None
    }

    /// Takes a message into account; gives the number of the listener that is to be stopped.
    pub fn update(&mut self, msg: TunnelsMessage) -> (stop: Option<u64>)
        requires
            old(self).wf(),
        ensures
            final(self).wf(),
            exists|now: std::time::Instant|
                final(self)@ == #[trigger] old(self)@.updated(msg, now),
            stop == old(self)@.stopped_listener(msg),
    {
        let now = std::time::Instant::now();
        self.update_at(msg, now)
    }

    /// Whether the last scan for local services is recent enough to be used again.
    pub fn scan_is_recent(&self) -> (recent: bool)
        ensures
            self.share_service_scan_cached_at is None ==> !recent,
            exists|age: u128|
                recent == #[trigger] recent_scan(self.share_service_scan_cached_at, age),
    {
        let age: u128 = match &self.share_service_scan_cached_at {
            Some(at) => clock::nanos_since(at),
            None => 0,
        };
        self.scan_is_recent_at_age(age)
    }

    /// Whether the last scan for local services is recent enough to be used again when it is
    /// `age` nanoseconds old; where there was none, the age is of no account.
    pub fn scan_is_recent_at_age(&self, age: u128) -> (recent: bool)
        ensures
            recent == recent_scan(self.share_service_scan_cached_at, age),
    {
        self.share_service_scan_cached_at.is_some() && age < SCAN_CACHE_TTL_NANOS
    }
}

/// There was a scan, and at this age in nanoseconds it is younger than
/// [`SCAN_CACHE_TTL_NANOS`].
pub open spec fn recent_scan(scanned_at: Option<std::time::Instant>, age: u128) -> bool {
    scanned_at is Some && age < SCAN_CACHE_TTL_NANOS
}

/// While the share dialog is being submitted it cannot be dismissed.
pub proof fn share_dialog_stays_while_submitting(state: TunnelsView, now: std::time::Instant)
    requires
        state.submitting,
    ensures
        state.updated(TunnelsMessage::CancelShareLocalService, now) == state,
{
}

/// Disconnecting a tunnel twice is the same as once, and touches no other tunnel.
pub proof fn disconnecting_is_idempotent_and_local(
    state: TunnelsView,
    id: TunnelId,
    other: Seq<u8>,
    now: std::time::Instant,
)
    requires
        other != id@,
    ensures
        ({
            let msg = TunnelsMessage::DisconnectReceivedTunnel(id);
            let after = state.updated(msg, now);
            &&& after.updated(msg, now) == after
            &&& after.stopped_listener(msg) is None
            &&& after.received.dom() == state.received.dom()
            &&& after.received[other] == state.received[other]
            &&& after.shared == state.shared
        }),
{
    let msg = TunnelsMessage::DisconnectReceivedTunnel(id);
    let after = state.updated(msg, now);
    assert(after.updated(msg, now).received =~= after.received);
    assert(after.received.dom() =~= state.received.dom());
}

/// Each entry of the dialogs is replaced by what the user gives, and nothing else is touched but
/// what was wrong before.
pub proof fn entries_are_taken_as_given(
    state: TunnelsView,
    value: String,
    duration: TunnelDuration,
    flag: bool,
    now: std::time::Instant,
)
    ensures
        ({
            let name = state.updated(TunnelsMessage::ShareLocalServiceNameChanged(value), now);
            let port = state.updated(TunnelsMessage::ShareLocalServicePortChanged(value), now);
            let expiry = state.updated(
                TunnelsMessage::ShareLocalServiceExpiryChanged(duration),
                now,
            );
            let http = state.updated(TunnelsMessage::ShareLocalServiceHttpToggled(flag), now);
            let picker = state.updated(TunnelsMessage::CreateTunnelPortChanged(value), now);
            &&& name.name == value@ && name.port == state.port && name.expiry == state.expiry
                && name.is_http == state.is_http && name.share_error is None && name.picker_port
                == state.picker_port
            &&& port.port == value@ && port.name == state.name && port.expiry == state.expiry
                && port.is_http == state.is_http && port.share_error is None && port.picker_port
                == state.picker_port
            &&& expiry.expiry == duration && expiry.name == state.name && expiry.port == state.port
                && expiry.is_http == state.is_http && expiry.share_error == state.share_error
            &&& http.is_http == flag && http.name == state.name && http.port == state.port
                && http.expiry == state.expiry && http.share_error == state.share_error
            &&& picker.picker_port == value@ && picker.picker_error is None && picker.picker_open
                == state.picker_open && picker.port == state.port && picker.name == state.name
        }),
{
}

/// No message of the dialogs touches the tunnels, the requests or what is being submitted, but
/// for disconnecting a tunnel; no other stops a listener.
pub proof fn messages_leave_tunnels_alone(
    state: TunnelsView,
    msg: TunnelsMessage,
    now: std::time::Instant,
)
    ensures
        state.updated(msg, now).shared == state.shared,
        state.updated(msg, now).requests == state.requests,
        state.updated(msg, now).submitting == state.submitting,
        !(msg is DisconnectReceivedTunnel) ==> state.updated(msg, now).received == state.received
            && state.stopped_listener(msg) is None,
        !(msg is CancelShareLocalService) ==> state.updated(msg, now).share_open
            == state.share_open,
        !(msg is ShowCreateTunnelDialog || msg is CancelCreateTunnel) ==> state.updated(
            msg,
            now,
        ).picker_open == state.picker_open,
        !(msg is ShareLocalServiceScanDone) ==> state.updated(msg, now).suggestions
            == state.suggestions && state.updated(msg, now).scanned_at == state.scanned_at
            && state.updated(msg, now).scanning == state.scanning,
{
}

/// The dialogs open and close as asked, but the share dialog stays while it is being submitted.
pub proof fn dialogs_open_and_close(state: TunnelsView, now: std::time::Instant)
    ensures
        state.updated(TunnelsMessage::ShowCreateTunnelDialog, now).picker_open,
        state.updated(TunnelsMessage::ShowCreateTunnelDialog, now).picker_error is None,
        !state.updated(TunnelsMessage::CancelCreateTunnel, now).picker_open,
        state.updated(TunnelsMessage::CancelShareLocalService, now).share_open
            == (state.share_open && state.submitting),
        !state.submitting ==> state.updated(
            TunnelsMessage::CancelShareLocalService,
            now,
        ).share_error is None,
{
}

/// What a scan found is listed, the scan is over and dated. It is used again for half a minute.
pub proof fn scans_are_listed_and_dated(
    state: TunnelsView,
    found: Vec<LocalServiceSuggestion>,
    now: std::time::Instant,
    i: int,
    age: u128,
)
    ensures
        ({
            let after = state.updated(TunnelsMessage::ShareLocalServiceScanDone(found), now);
            &&& !after.scanning && after.scanned_at == Some(now)
            &&& after.suggestions.len() == found@.len()
            &&& 0 <= i < found@.len() ==> after.suggestions[i].label == found@[i].label@
                && after.suggestions[i].port == found@[i].port && after.suggestions[i].is_http
                == found@[i].is_http
            &&& recent_scan(after.scanned_at, age) <==> age < 30 * 1_000_000_000
            &&& !recent_scan(None, age)
        }),
{
}

/// A service that was picked fills in the dialog: its own port, name and kind. A port that was
/// not found changes nothing.
pub proof fn picked_services_fill_in_the_dialog(
    state: TunnelsView,
    i: int,
    port: u16,
    now: std::time::Instant,
)
    ensures
        0 <= i < state.suggestions.len() && (forall|k: int|
            0 <= k < i ==> (#[trigger] state.suggestions[k]).port != state.suggestions[i].port)
            ==> {
            let found = state.suggestions[i];
            let after = state.updated(
                TunnelsMessage::SelectShareLocalServiceSuggestion(found.port),
                now,
            );
            &&& after.port == text::decimal(found.port as nat)
            &&& after.name == found.label
            &&& after.is_http == found.is_http
            &&& after.share_error is None
            &&& after.expiry == state.expiry
        },
        (forall|k: int|
            0 <= k < state.suggestions.len() ==> (#[trigger] state.suggestions[k]).port != port)
            ==> state.updated(TunnelsMessage::SelectShareLocalServiceSuggestion(port), now)
            == state,
{
    if 0 <= i < state.suggestions.len() {
        lemma_first_suggestion(state.suggestions, i);
    }
    lemma_no_suggestion(state.suggestions, port);
}

proof fn lemma_first_suggestion(list: Seq<SuggestionView>, i: int)
    requires
        0 <= i < list.len(),
    ensures
        (forall|k: int| 0 <= k < i ==> (#[trigger] list[k]).port != list[i].port)
            ==> suggestion_at(list, list[i].port) == Some(list[i]),
    decreases list.len(),
{
    if i > 0 {
        let rest = list.drop_first();
        lemma_first_suggestion(rest, i - 1);
        assert(rest[i - 1] == list[i]);
        if forall|k: int| 0 <= k < i ==> (#[trigger] list[k]).port != list[i].port {
            assert(list[0].port != list[i].port);
            assert forall|k: int| 0 <= k < i - 1 implies (#[trigger] rest[k]).port != rest[i
                - 1].port by {
                assert(rest[k] == list[k + 1]);
            }
        }
    }
}

proof fn lemma_no_suggestion(list: Seq<SuggestionView>, port: u16)
    ensures
        (forall|k: int| 0 <= k < list.len() ==> (#[trigger] list[k]).port != port)
            ==> suggestion_at(list, port) is None,
    decreases list.len(),
{
    if list.len() > 0 {
        let rest = list.drop_first();
        lemma_no_suggestion(rest, port);
        if forall|k: int| 0 <= k < list.len() ==> (#[trigger] list[k]).port != port {
            assert(list[0].port != port);
            assert forall|k: int| 0 <= k < rest.len() implies (#[trigger] rest[k]).port != port by {
                assert(rest[k] == list[k + 1]);
            }
        }
    }
}

/// A tunnel that is disconnected has its listener stopped, and keeps its offer and its sharer
/// only.
pub proof fn disconnecting_stops_the_listener(
    state: TunnelsView,
    id: TunnelId,
    now: std::time::Instant,
)
    requires
        state.received.dom().contains(id@),
    ensures
        ({
            let msg = TunnelsMessage::DisconnectReceivedTunnel(id);
            let before = state.received[id@];
            let after = state.updated(msg, now).received[id@];
            &&& state.stopped_listener(msg) == before.listener
            &&& !after.connected && after.local_addr is None && after.listener is None
                && !after.live_info && !after.connection_failed
            &&& after.offer == before.offer && after.sharer == before.sharer && after.sharer_label
                == before.sharer_label
        }),
{
}

/// At the start nothing is open, shared, received or asked for, and the share dialog is filled in
/// with the usual service.
pub proof fn tunnels_start_empty(state: TunnelsState, id: Seq<u8>)
    requires
        call_ensures(TunnelsState::new, (), state),
    ensures
        !state@.picker_open && !state@.share_open && !state@.submitting && !state@.scanning,
        state@.requests.len() == 0 && state@.suggestions.len() == 0,
        !state@.received.dom().contains(id) && !state@.shared.dom().contains(id),
        state@.name == "Development Server"@ && state@.port == "3000"@ && state@.expiry is OneHour
            && state@.is_http,
        state@.picker_error is None && state@.share_error is None && state@.scanned_at is None
            && state@.picker_port.len() == 0,
{
}

/// A message makes of the state what it says and stops just the listener that it disconnects.
pub proof fn messages_are_carried_through(
    state: &mut TunnelsState,
    message: TunnelsMessage,
    now: std::time::Instant,
    stop: Option<u64>,
)
    requires
        call_ensures(TunnelsState::update_at, (state, message, now), stop),
    ensures
        final(state)@ == old(state)@.updated(message, now),
        stop == old(state)@.stopped_listener(message),
        !(message is DisconnectReceivedTunnel) ==> stop is None,
{
}

/// What is put among the tunnels is there, what is taken out is given and gone, and no other
/// tunnel is touched.
pub proof fn tunnels_are_put_and_taken(
    put: &mut TunnelsState,
    taken: &mut TunnelsState,
    id: TunnelId,
    value: ReceivedTunnelState,
    given: Option<ReceivedTunnelState>,
    other: Seq<u8>,
)
    requires
        call_ensures(TunnelsState::put_received, (put, id, value), ()),
        call_ensures(TunnelsState::take_received, (taken, &id), given),
        other != id@,
    ensures
        final(put)@.received.dom().contains(id@) && final(put)@.received[id@] == value@,
        final(put)@.received.dom().contains(other) <==> old(put)@.received.dom().contains(other),
        final(put)@.received[other] == old(put)@.received[other],
        final(put)@.shared == old(put)@.shared && final(put)@.requests == old(put)@.requests,
        !final(taken)@.received.dom().contains(id@),
        given is Some <==> old(taken)@.received.dom().contains(id@),
        given is Some ==> given->0@ == old(taken)@.received[id@],
        final(taken)@.received.dom().contains(other) <==> old(taken)@.received.dom().contains(
            other,
        ),
        final(taken)@.shared == old(taken)@.shared,
{
}

/// The same holds of the tunnels that the user shares.
pub proof fn shared_tunnels_are_put_and_taken(
    put: &mut TunnelsState,
    taken: &mut TunnelsState,
    id: TunnelId,
    value: SharedTunnelState,
    given: Option<SharedTunnelState>,
    other: Seq<u8>,
)
    requires
        call_ensures(TunnelsState::put_shared, (put, id, value), ()),
        call_ensures(TunnelsState::take_shared, (taken, &id), given),
        other != id@,
    ensures
        final(put)@.shared.dom().contains(id@) && final(put)@.shared[id@] == value@,
        final(put)@.shared.dom().contains(other) <==> old(put)@.shared.dom().contains(other),
        final(put)@.shared[other] == old(put)@.shared[other],
        final(put)@.received == old(put)@.received && final(put)@.requests == old(put)@.requests,
        !final(taken)@.shared.dom().contains(id@),
        given is Some <==> old(taken)@.shared.dom().contains(id@),
        given is Some ==> given->0@ == old(taken)@.shared[id@],
        final(taken)@.received == old(taken)@.received,
{
}

} // verus!
