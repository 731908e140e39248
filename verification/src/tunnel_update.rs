//! What happens to the tunnels: each event changes the state and asks for effects.

use vstd::prelude::*;
use vstd::string::*;

use crate::id_map::TunnelId;
use crate::phrase::{Phrase, PhraseView};
use crate::phrase;
use crate::text;
use crate::tunnel_labels;
use crate::tunnel_labels::Span;
use crate::tunnels::{
    ListenAddress, OfferView, PeerKey, ReceivedTunnelState, ReceivedView, RequestView,
    SharedTunnelState, SharedView, TunnelDuration, TunnelOffer, TunnelRequest, TunnelsMessage,
    TunnelsState, TunnelsView,
};
use crate::tunnels;

verus! {

/// What is said where a peer's client knows no tunnels.
pub const UNSUPPORTED_TOAST: &'static str =
    "Tunnels unavailable — this peer's client does not support secure tunnels.";

/// The value of a hexadecimal digit.
pub open spec fn hex_digit(c: char) -> Option<nat> {
    if '0' <= c <= '9' {
        Some((c as nat - 48) as nat)
    } else if 'a' <= c <= 'f' {
        Some((c as nat - 87) as nat)
    } else if 'A' <= c <= 'F' {
        Some((c as nat - 55) as nat)
    } else {
        None
    }
}

/// `s` is an even number of hexadecimal digits.
pub open spec fn is_hex(s: Seq<char>) -> bool {
    s.len() % 2 == 0 && forall|i: int| 0 <= i < s.len() ==> hex_digit(#[trigger] s[i]) is Some
}

/// The bytes that the hexadecimal digits of `s` write, two digits a byte.
pub open spec fn hex_bytes(s: Seq<char>) -> Seq<u8> {
    Seq::new(
        s.len() / 2,
        |i: int| (hex_digit(s[2 * i])->0 * 16 + hex_digit(s[2 * i + 1])->0) as u8,
    )
}

/// `hex::decode`: the bytes that an even number of hexadecimal digits write, `None` for any
/// other text.
#[verifier::external_body]
fn decode_hex(s: &str) -> (bytes: Option<Vec<u8>>)
    ensures
        bytes is Some <==> is_hex(s@),
        bytes is Some ==> bytes->0@ == hex_bytes(s@),
{
    hex::decode(s).ok()
}

/// `rand::random`: thirty-two bytes by chance. Nothing is stated of them.
#[verifier::external_body]
fn random_bytes() -> [u8; 32] {
    rand::random()
}

/// The identifier that a text writes in hexadecimal digits.
pub open spec fn id_of(s: Seq<char>) -> Option<Seq<u8>> {
    if is_hex(s) && s.len() == 64 {
        Some(hex_bytes(s))
    } else {
        None
    }
}

/// The identifier that a text writes in hexadecimal digits.
pub fn parse_tunnel_id(s: &str) -> (id: Option<TunnelId>)
    ensures
        match id {
            Some(i) => id_of(s@) == Some(i@),
            None => id_of(s@) is None,
        },
{
    match decode_hex(s) {
        None => None,
        Some(bytes) => {
            if bytes.len() != 32 {
                return None;
            }
            let mut id: [u8; 32] = [0u8;32];
            let mut i: usize = 0;
            while i < 32
                invariant
                    i <= 32,
                    bytes.len() == 32,
                    forall|k: int| 0 <= k < i ==> id@[k] == bytes@[k],
                decreases 32 - i,
            {
                id[i] = bytes[i];
                i += 1;
            }
            assert(id@ =~= bytes@);
            Some(TunnelId(id))
        },
    }
}

/// The durations to choose from, shortest first.
pub fn expiry_choices() -> (choices: Vec<TunnelDuration>)
    ensures
        choices@ == seq![
            TunnelDuration::TenMinutes,
            TunnelDuration::ThirtyMinutes,
            TunnelDuration::OneHour,
            TunnelDuration::EightHours,
            TunnelDuration::UntilExit,
        ],
{
    let mut choices: Vec<TunnelDuration> = Vec::new();
    choices.push(TunnelDuration::TenMinutes);
    choices.push(TunnelDuration::ThirtyMinutes);
    choices.push(TunnelDuration::OneHour);
    choices.push(TunnelDuration::EightHours);
    choices.push(TunnelDuration::UntilExit);
    choices
}

/// Texts in the user's language that become part of the state.
#[derive(Debug)]
pub struct TunnelTexts {
    pub development_server: String,
    pub invalid_port: String,
    pub invalid_local_port: String,
    pub vnc_experimental: String,
    pub vnc_service_name: String,
    pub tunnel: String,
    pub service: String,
}

/// What chance and time contribute to an event.
#[derive(Debug, Clone, Copy)]
pub struct Moment {
    /// An identifier that is not in use.
    pub fresh_id: TunnelId,
    /// Whether the last scan for local services is recent.
    pub scan_recent: bool,
    /// The present moment.
    pub now: std::time::Instant,
}

/// What happens to the tunnels.
#[derive(Debug)]
pub enum TunnelEvent {
    /// A change of the state alone.
    Message(TunnelsMessage),
    /// A friend was picked to share with; `supported` tells whether their client can.
    CreateTunnel { peer: PeerKey, supported: bool },
    /// A friend asks for a tunnel.
    TunnelRequestReceived {
        peer: PeerKey,
        peer_name: String,
        tunnel_id: String,
        timestamp: i64,
    },
    /// The user accepts a request.
    AcceptTunnelRequest(String),
    /// The user declines a request.
    DeclineTunnelRequest(String),
    /// The user closes a tunnel.
    CloseTunnel(TunnelId),
    /// The share dialog is asked for.
    OpenShareLocalService,
    /// The share dialog is asked for, to share the screen.
    OpenShareVncTunnel,
    /// The share dialog is confirmed; `profile` is the friend whose profile is open.
    ConfirmShareLocalService { profile: Option<PeerKey>, supported: bool },
    /// The screen's source was checked; `error` tells what is wrong with it.
    VncSourceChecked { peer: PeerKey, port: u16, error: Option<String> },
    /// The tunnel was created.
    TunnelCreated {
        peer: PeerKey,
        friend: String,
        tunnel_id: TunnelId,
        service_name: String,
        created_at_ms: u64,
        expires_at_ms: u64,
    },
    /// The tunnel could not be created; `shown` is what the dialog says.
    TunnelCreateFailed { message: String, shown: String },
    /// The tunnel is shared.
    TunnelShared { name: String, friend: String, expires_at_ms: u64, now_ms: u64 },
    /// The tunnel could not be shared.
    TunnelShareFailed { message: String },
    /// The offer was sent.
    TunnelOfferSent,
    /// The offer could not be sent.
    TunnelOfferSendFailed { message: String },
    /// A received tunnel is to be connected.
    ConnectReceivedTunnel(TunnelId),
    /// A received tunnel is connected.
    ReceivedTunnelConnected {
        tunnel_id: TunnelId,
        local_addr: ListenAddress,
        listener: u64,
        requested_port: Option<u16>,
    },
    /// A received tunnel could not be connected.
    ReceivedTunnelConnectFailed { tunnel_id: TunnelId, message: String },
    /// A tunnel is no longer shared; `error` tells what went wrong when it was revoked.
    StopSharingTunnel { tunnel_id: TunnelId, error: Option<String> },
    /// A received tunnel is to be opened in the browser.
    OpenReceivedTunnel(TunnelId),
    /// The address of a received tunnel is to be copied.
    CopyReceivedTunnelAddress(TunnelId),
}

/// What is asked of the application.
#[derive(Debug)]
pub enum TunnelEffect {
    /// Show a toast.
    Toast { phrase: Phrase, counter: u32 },
    /// Show a toast with this text.
    ToastText { shown: String, counter: u32 },
    /// Show a toast about a shared tunnel; `when` tells how long it lasts.
    SharingToast { name: String, friend: String, when: Phrase, counter: u32 },
    /// Write a line to the chat.
    System(Phrase),
    /// Write this line to the chat.
    SystemText(String),
    /// Show the list of requests anew.
    RefreshRequests,
    /// Open a friend's profile.
    OpenProfile(PeerKey),
    /// Close the menu of the open profile.
    CloseProfileMenu,
    /// Look for local services, but not at these ports.
    StartScan { excluded: Vec<u16> },
    /// Give a field the focus.
    Focus(String),
    /// Check the screen's source.
    CheckVncSource { peer: PeerKey, port: u16 },
    /// Create a tunnel to a local port.
    CreateTunnel {
        peer: PeerKey,
        tunnel_id: TunnelId,
        port: u16,
        expiry: TunnelDuration,
        service_name: String,
    },
    /// Go on with the news that a tunnel is shared.
    AnnounceShared { name: String, friend: String, expires_at_ms: u64 },
    /// Go on with the news that a tunnel could not be shared.
    AnnounceShareFailed(String),
    /// Send an offer to a friend.
    SendOffer { peer: PeerKey, offer: TunnelOffer, created_at_ms: u64 },
    /// Go on with connecting a received tunnel.
    ConnectNext(TunnelId),
    /// Start a listener for a received tunnel, at this port where one is given.
    Connect { tunnel_id: TunnelId, requested_port: Option<u16> },
    /// Stop a listener.
    StopListener(u64),
    /// Revoke a tunnel.
    Revoke(TunnelId),
    /// Open an address in the browser.
    OpenUrl(String),
    /// Copy a text.
    CopyText(String),
}

/// What a [`TunnelEffect`] holds.
pub enum EffectView {
    Toast { phrase: PhraseView, counter: u32 },
    ToastText { shown: Seq<char>, counter: u32 },
    SharingToast { name: Seq<char>, friend: Seq<char>, when: PhraseView, counter: u32 },
    System(PhraseView),
    SystemText(Seq<char>),
    RefreshRequests,
    OpenProfile(Seq<u8>),
    CloseProfileMenu,
    StartScan { excluded: Set<u16> },
    Focus(Seq<char>),
    CheckVncSource { peer: Seq<u8>, port: u16 },
    CreateTunnel {
        peer: Seq<u8>,
        tunnel_id: Seq<u8>,
        port: u16,
        expiry: TunnelDuration,
        service_name: Seq<char>,
    },
    AnnounceShared { name: Seq<char>, friend: Seq<char>, expires_at_ms: u64 },
    AnnounceShareFailed(Seq<char>),
    SendOffer { peer: Seq<u8>, offer: OfferView, created_at_ms: u64 },
    ConnectNext(Seq<u8>),
    Connect { tunnel_id: Seq<u8>, requested_port: Option<u16> },
    StopListener(u64),
    Revoke(Seq<u8>),
    OpenUrl(Seq<char>),
    CopyText(Seq<char>),
}

impl View for TunnelEffect {
    type V = EffectView;

    open spec fn view(&self) -> EffectView {
        match self {
            TunnelEffect::Toast { phrase, counter } => EffectView::Toast {
                phrase: phrase@,
                counter: *counter,
            },
            TunnelEffect::ToastText { shown, counter } => EffectView::ToastText {
                shown: shown@,
                counter: *counter,
            },
            TunnelEffect::SharingToast { name, friend, when, counter } => {
                EffectView::SharingToast {
                    name: name@,
                    friend: friend@,
                    when: when@,
                    counter: *counter,
                }
            },
            TunnelEffect::System(phrase) => EffectView::System(phrase@),
            TunnelEffect::SystemText(line) => EffectView::SystemText(line@),
            TunnelEffect::RefreshRequests => EffectView::RefreshRequests,
            TunnelEffect::OpenProfile(peer) => EffectView::OpenProfile(peer@),
            TunnelEffect::CloseProfileMenu => EffectView::CloseProfileMenu,
            TunnelEffect::StartScan { excluded } => EffectView::StartScan {
                excluded: excluded@.to_set(),
            },
            TunnelEffect::Focus(field) => EffectView::Focus(field@),
            TunnelEffect::CheckVncSource { peer, port } => EffectView::CheckVncSource {
                peer: peer@,
                port: *port,
            },
            TunnelEffect::CreateTunnel { peer, tunnel_id, port, expiry, service_name } => {
                EffectView::CreateTunnel {
                    peer: peer@,
                    tunnel_id: tunnel_id@,
                    port: *port,
                    expiry: *expiry,
                    service_name: service_name@,
                }
            },
            TunnelEffect::AnnounceShared { name, friend, expires_at_ms } => {
                EffectView::AnnounceShared {
                    name: name@,
                    friend: friend@,
                    expires_at_ms: *expires_at_ms,
                }
            },
            TunnelEffect::AnnounceShareFailed(message) => EffectView::AnnounceShareFailed(
                message@,
            ),
            TunnelEffect::SendOffer { peer, offer, created_at_ms } => EffectView::SendOffer {
                peer: peer@,
                offer: offer@,
                created_at_ms: *created_at_ms,
            },
            TunnelEffect::ConnectNext(id) => EffectView::ConnectNext(id@),
            TunnelEffect::Connect { tunnel_id, requested_port } => EffectView::Connect {
                tunnel_id: tunnel_id@,
                requested_port: *requested_port,
            },
            TunnelEffect::StopListener(listener) => EffectView::StopListener(*listener),
            TunnelEffect::Revoke(id) => EffectView::Revoke(id@),
            TunnelEffect::OpenUrl(url) => EffectView::OpenUrl(url@),
            TunnelEffect::CopyText(copied) => EffectView::CopyText(copied@),
        }
    }
}

/// What each effect of a list holds.
pub open spec fn effect_views(effects: Seq<TunnelEffect>) -> Seq<EffectView> {
    effects.map_values(|e: TunnelEffect| e@)
}

/// A state with the effects that led to it.
pub struct Transition {
    pub state: TunnelsView,
    pub effects: Seq<EffectView>,
}

/// The port that a text writes, where it writes one that can be used.
pub open spec fn usable_port(s: Seq<char>) -> Option<u16> {
    match text::u16_value(text::trimmed(s)) {
        Some(port) => if port == 0 {
            None
        } else {
            Some(port)
        },
        None => None,
    }
}

/// The port that a text writes, where it writes one that can be used.
pub fn parse_port(s: &str) -> (port: Option<u16>)
    ensures
        port == usable_port(s@),
{
    let trimmed = text::trim(s);
    match text::parse_u16(trimmed.as_str()) {
        Some(port) => if port == 0 {
            None
        } else {
            Some(port)
        },
        None => None,
    }
}

/// The ports at which the received tunnels listen.
pub open spec fn listening_ports(received: Map<Seq<u8>, ReceivedView>) -> Set<u16> {
    Set::new(
        |port: u16|
            exists|id: Seq<u8>|
                received.dom().contains(id) && (#[trigger] received[id]).local_addr is Some
                    && received[id].local_addr->0.port == port,
    )
}

/// The scan for local services starts, unless the last one is recent.
pub open spec fn scan_effects(state: TunnelsView, recent: bool) -> Seq<EffectView> {
    if recent {
        Seq::empty()
    } else {
        seq![EffectView::StartScan { excluded: listening_ports(state.received) }]
    }
}

/// The share dialog opens, filled in with what is usual.
pub open spec fn share_opened(state: TunnelsView, name: Seq<char>, recent: bool) -> TunnelsView {
    TunnelsView {
        share_open: true,
        name,
        port: "3000"@,
        expiry: TunnelDuration::OneHour,
        is_http: true,
        submitting: false,
        share_error: None,
        scanning: if recent {
            state.scanning
        } else {
            true
        },
        ..state
    }
}

/// The friend was picked to share with.
pub open spec fn create_spec(
    state: TunnelsView,
    peer: Seq<u8>,
    supported: bool,
    texts: TunnelTexts,
    recent: bool,
) -> Transition {
    if !supported {
        Transition {
            state: TunnelsView { picker_open: false, ..state },
            effects: seq![EffectView::ToastText { shown: UNSUPPORTED_TOAST@, counter: 160 }],
        }
    } else if text::trimmed(state.picker_port).len() > 0 && usable_port(state.picker_port) is None {
        Transition {
            state: TunnelsView { picker_error: Some(texts.invalid_port@), ..state },
            effects: seq![EffectView::ToastText { shown: texts.invalid_port@, counter: 160 }],
        }
    } else {
        let closed = TunnelsView { picker_open: false, picker_error: None, ..state };
        Transition {
            state: share_opened(closed, texts.development_server@, recent),
            effects: seq![EffectView::OpenProfile(peer), EffectView::CloseProfileMenu]
                + scan_effects(state, recent) + seq![
                EffectView::Focus(tunnels::SHARE_SERVICE_NAME_INPUT@),
            ],
        }
    }
}

/// The requests without those for this tunnel.
pub open spec fn without_request(requests: Seq<RequestView>, id: Seq<char>) -> Seq<RequestView> {
    requests.filter(|r: RequestView| r.tunnel_id != id)
}

/// What the offered service behind a request is called.
pub open spec fn requested_service(
    state: TunnelsView,
    id: Seq<char>,
    fallback: Seq<char>,
) -> Seq<char> {
    match id_of(id) {
        Some(key) => if state.received.dom().contains(key) {
            state.received[key].offer.service_name
        } else {
            fallback
        },
        None => fallback,
    }
}

/// A friend asks for a tunnel; an earlier request for the same one is replaced.
pub open spec fn request_spec(
    state: TunnelsView,
    request: RequestView,
    peer_name: Seq<char>,
    fallback: Seq<char>,
) -> Transition {
    Transition {
        state: TunnelsView {
            requests: without_request(state.requests, request.tunnel_id).push(request),
            ..state
        },
        effects: seq![
            EffectView::RefreshRequests,
            EffectView::SystemText(
                "Tunnel request from "@ + peer_name + ": "@ + requested_service(
                    state,
                    request.tunnel_id,
                    fallback,
                ) + " (review it in REQUESTS)."@,
            ),
        ],
    }
}

/// A request is accepted: the offered tunnel is connected, where there is one.
pub open spec fn accept_spec(state: TunnelsView, id: Seq<char>) -> Transition {
    let known = id_of(id) matches Some(key) && state.received.dom().contains(key);
    Transition {
        state: TunnelsView { requests: without_request(state.requests, id), ..state },
        effects: seq![
            EffectView::RefreshRequests,
            if known {
                EffectView::ConnectNext(id_of(id)->0)
            } else {
                EffectView::System(phrase::plain("tunnels.request_accepted"@))
            },
        ],
    }
}

/// A request is declined, and with it the offer.
pub open spec fn decline_spec(state: TunnelsView, id: Seq<char>) -> Transition {
    Transition {
        state: TunnelsView {
            requests: without_request(state.requests, id),
            received: match id_of(id) {
                Some(key) => state.received.remove(key),
                None => state.received,
            },
            ..state
        },
        effects: seq![
            EffectView::RefreshRequests,
            EffectView::System(phrase::plain("tunnels.request_declined"@)),
        ],
    }
}

/// The share dialog opens, to share the screen.
pub open spec fn vnc_spec(state: TunnelsView, texts: TunnelTexts) -> Transition {
    Transition {
        state: TunnelsView {
            share_open: true,
            name: texts.vnc_service_name@,
            port: "5900"@,
            expiry: TunnelDuration::OneHour,
            is_http: false,
            submitting: false,
            share_error: Some(texts.vnc_experimental@),
            scanning: false,
            ..state
        },
        effects: seq![
            EffectView::CloseProfileMenu,
            EffectView::Focus(tunnels::SHARE_SERVICE_PORT_INPUT@),
        ],
    }
}

/// What the shared service is called: as entered, or as usual where nothing is entered.
pub open spec fn chosen_name(state: TunnelsView, usual: Seq<char>) -> Seq<char> {
    let entered = text::trimmed(state.name);
    if entered.len() == 0 {
        usual
    } else {
        entered
    }
}

/// The tunnel is being created.
pub open spec fn submit_spec(
    state: TunnelsView,
    peer: Seq<u8>,
    port: u16,
    usual: Seq<char>,
    fresh: Seq<u8>,
) -> Transition {
    Transition {
        state: TunnelsView { share_error: None, submitting: true, ..state },
        effects: seq![
            EffectView::CreateTunnel {
                peer,
                tunnel_id: fresh,
                port,
                expiry: state.expiry,
                service_name: chosen_name(state, usual),
            },
        ],
    }
}

/// The share dialog is confirmed.
pub open spec fn confirm_spec(
    state: TunnelsView,
    profile: Option<Seq<u8>>,
    supported: bool,
    texts: TunnelTexts,
    fresh: Seq<u8>,
) -> Transition {
    if state.submitting {
        Transition { state, effects: Seq::empty() }
    } else if profile is None {
        Transition {
            state: TunnelsView { share_open: false, ..state },
            effects: Seq::empty(),
        }
    } else if !supported {
        Transition {
            state: TunnelsView { share_open: false, ..state },
            effects: seq![EffectView::ToastText { shown: UNSUPPORTED_TOAST@, counter: 160 }],
        }
    } else {
        match usable_port(state.port) {
            None => Transition {
                state: TunnelsView { share_error: Some(texts.invalid_local_port@), ..state },
                effects: seq![
                    EffectView::ToastText { shown: texts.invalid_local_port@, counter: 120 },
                ],
            },
            Some(port) => if state.name == texts.vnc_service_name@ {
                Transition {
                    state,
                    effects: seq![EffectView::CheckVncSource { peer: profile->0, port }],
                }
            } else {
                submit_spec(state, profile->0, port, texts.development_server@, fresh)
            },
        }
    }
}

/// The screen's source was checked; that counts only while nothing is being submitted.
pub open spec fn vnc_checked_spec(
    state: TunnelsView,
    peer: Seq<u8>,
    port: u16,
    error: Option<Seq<char>>,
    usual: Seq<char>,
    fresh: Seq<u8>,
) -> Transition {
    if state.submitting {
        Transition { state, effects: Seq::empty() }
    } else {
        match error {
            Some(message) => Transition {
                state: TunnelsView { share_error: Some(message), ..state },
                effects: Seq::empty(),
            },
            None => submit_spec(state, peer, port, usual, fresh),
        }
    }
}

/// The tunnel was created: it is remembered, and offered to the friend.
pub open spec fn created_spec(
    state: TunnelsView,
    peer: Seq<u8>,
    friend: Seq<char>,
    id: Seq<u8>,
    service_name: Seq<char>,
    created_at_ms: u64,
    expires_at_ms: u64,
) -> Transition {
    Transition {
        state: TunnelsView {
            submitting: false,
            share_open: false,
            share_error: None,
            shared: state.shared.insert(id, SharedView { service_name, is_http: state.is_http }),
            ..state
        },
        effects: seq![
            EffectView::AnnounceShared { name: service_name, friend, expires_at_ms },
            EffectView::SendOffer {
                peer,
                offer: OfferView {
                    tunnel_id: id,
                    service_name,
                    is_http: state.is_http,
                    expires_at_ms,
                    preferred_local_port: usable_port(state.picker_port),
                },
                created_at_ms,
            },
        ],
    }
}

/// How long a shared tunnel lasts.
pub open spec fn when_phrase(span: Span) -> PhraseView {
    match span {
        Span::Days(n) => phrase::with(
            phrase::plain("tunnels.days"@),
            "count"@,
            text::decimal(n as nat),
        ),
        Span::Hours(n) => phrase::with(
            phrase::plain("tunnels.hours"@),
            "count"@,
            text::decimal(n as nat),
        ),
        Span::Minutes(n) => phrase::with(
            phrase::plain("tunnels.minutes"@),
            "count"@,
            text::decimal(n as nat),
        ),
        _ => phrase::plain("tunnels.less_than_minute"@),
    }
}

/// A toast about a message.
pub open spec fn message_toast(key: Seq<char>, message: Seq<char>) -> EffectView {
    EffectView::Toast {
        phrase: phrase::with(phrase::plain(key), "message"@, message),
        counter: 160,
    }
}

/// A received tunnel is to be connected, unless it is unknown or connected already.
pub open spec fn connect_effects(state: TunnelsView, id: Seq<u8>) -> Seq<EffectView> {
    if state.received.dom().contains(id) && !state.received[id].connected {
        let preferred = state.received[id].offer.preferred_local_port;
        seq![
            EffectView::Connect {
                tunnel_id: id,
                requested_port: if preferred == Some(0u16) {
                    None
                } else {
                    preferred
                },
            },
        ]
    } else {
        Seq::empty()
    }
}

/// A received tunnel is connected; the user is told where the port that was asked for could not
/// be had.
pub open spec fn connected_spec(
    state: TunnelsView,
    id: Seq<u8>,
    address: tunnels::AddressView,
    listener: u64,
    requested: Option<u16>,
) -> Transition {
    Transition {
        state: TunnelsView {
            received: if state.received.dom().contains(id) {
                state.received.insert(
                    id,
                    ReceivedView {
                        connected: true,
                        local_addr: Some(address),
                        listener: Some(listener),
                        live_info: true,
                        connection_failed: false,
                        ..state.received[id]
                    },
                )
            } else {
                state.received
            },
            ..state
        },
        effects: if requested is Some && requested->0 != address.port {
            seq![
                EffectView::Toast {
                    phrase: phrase::with(
                        phrase::with(
                            phrase::plain("tunnels.port_unavailable"@),
                            "requested"@,
                            text::decimal(requested->0 as nat),
                        ),
                        "actual"@,
                        text::decimal(address.port as nat),
                    ),
                    counter: 200,
                },
            ]
        } else {
            Seq::empty()
        },
    }
}

/// A received tunnel could not be connected.
pub open spec fn connect_failed_spec(
    state: TunnelsView,
    id: Seq<u8>,
    message: Seq<char>,
) -> Transition {
    Transition {
        state: TunnelsView {
            received: if state.received.dom().contains(id) {
                state.received.insert(
                    id,
                    ReceivedView {
                        connected: false,
                        local_addr: None,
                        listener: None,
                        connection_failed: true,
                        ..state.received[id]
                    },
                )
            } else {
                state.received
            },
            ..state
        },
        effects: seq![message_toast("tunnels.connect_failed"@, message)],
    }
}

/// A tunnel is no longer shared.
pub open spec fn stop_spec(
    state: TunnelsView,
    id: Seq<u8>,
    error: Option<Seq<char>>,
    fallback: Seq<char>,
) -> Transition {
    let name = if state.shared.dom().contains(id) {
        state.shared[id].service_name
    } else {
        fallback
    };
    Transition {
        state: TunnelsView { shared: state.shared.remove(id), ..state },
        effects: seq![
            EffectView::Toast {
                phrase: match error {
                    None => phrase::with(phrase::plain("tunnels.stopped_sharing"@), "name"@, name),
                    Some(message) => phrase::with(
                        phrase::with(phrase::plain("tunnels.stop_failed"@), "name"@, name),
                        "error"@,
                        message,
                    ),
                },
                counter: 160,
            },
        ],
    }
}

/// The address at which a received tunnel is found.
pub open spec fn shown_address(state: TunnelsView, id: Seq<u8>) -> Option<Seq<char>> {
    if state.received.dom().contains(id) && state.received[id].local_addr is Some {
        Some(
            tunnel_labels::local_address_text(
                state.received[id].offer.is_http,
                state.received[id].local_addr->0.shown,
            ),
        )
    } else {
        None
    }
}

/// A received tunnel is opened in the browser, where it was named as HTTP.
pub open spec fn open_effects(state: TunnelsView, id: Seq<u8>) -> Seq<EffectView> {
    match shown_address(state, id) {
        None => Seq::empty(),
        Some(address) => if state.received[id].offer.is_http {
            seq![EffectView::OpenUrl(address)]
        } else {
            seq![
                EffectView::Toast { phrase: phrase::plain("tunnels.not_http"@), counter: 160 },
            ]
        },
    }
}

/// The address of a received tunnel is copied.
pub open spec fn copy_effects(state: TunnelsView, id: Seq<u8>) -> Seq<EffectView> {
    match shown_address(state, id) {
        None => Seq::empty(),
        Some(address) => seq![
            EffectView::Toast { phrase: phrase::plain("tunnels.address_copied"@), counter: 120 },
            EffectView::CopyText(address),
        ],
    }
}

/// The number of a listener to stop as a list of effects.
pub open spec fn stop_effects(stop: Option<u64>) -> Seq<EffectView> {
    match stop {
        Some(listener) => seq![EffectView::StopListener(listener)],
        None => Seq::empty(),
    }
}

/// The key of a peer, where there is one.
pub open spec fn opt_peer(peer: Option<PeerKey>) -> Option<Seq<u8>> {
    match peer {
        Some(p) => Some(p@),
        None => None,
    }
}

/// What an event makes of the state, and what it asks for.
pub open spec fn transition(
    state: TunnelsView,
    event: TunnelEvent,
    texts: TunnelTexts,
    moment: Moment,
) -> Transition {
    let quiet = |effects: Seq<EffectView>| Transition { state, effects };
    match event {
        TunnelEvent::Message(msg) => Transition {
            state: state.updated(msg, moment.now),
            effects: stop_effects(state.stopped_listener(msg)),
        },
        TunnelEvent::CreateTunnel { peer, supported } => create_spec(
            state,
            peer@,
            supported,
            texts,
            moment.scan_recent,
        ),
        TunnelEvent::TunnelRequestReceived { peer, peer_name, tunnel_id, timestamp } => {
            request_spec(
                state,
                RequestView { peer: peer@, tunnel_id: tunnel_id@, timestamp },
                peer_name@,
                texts.tunnel@,
            )
        },
        TunnelEvent::AcceptTunnelRequest(id) => accept_spec(state, id@),
        TunnelEvent::DeclineTunnelRequest(id) => decline_spec(state, id@),
        TunnelEvent::CloseTunnel(id) => quiet(
            seq![
                EffectView::Revoke(id@),
                EffectView::System(phrase::plain("tunnels.closed"@)),
            ],
        ),
        TunnelEvent::OpenShareLocalService => Transition {
            state: share_opened(state, texts.development_server@, moment.scan_recent),
            effects: seq![EffectView::CloseProfileMenu] + scan_effects(state, moment.scan_recent)
                + seq![EffectView::Focus(tunnels::SHARE_SERVICE_NAME_INPUT@)],
        },
        TunnelEvent::OpenShareVncTunnel => vnc_spec(state, texts),
        TunnelEvent::ConfirmShareLocalService { profile, supported } => confirm_spec(
            state,
            opt_peer(profile),
            supported,
            texts,
            moment.fresh_id@,
        ),
        TunnelEvent::VncSourceChecked { peer, port, error } => vnc_checked_spec(
            state,
            peer@,
            port,
            text::opt_text(error),
            texts.development_server@,
            moment.fresh_id@,
        ),
        TunnelEvent::TunnelCreated {
            peer,
            friend,
            tunnel_id,
            service_name,
            created_at_ms,
            expires_at_ms,
        } => created_spec(
            state,
            peer@,
            friend@,
            tunnel_id@,
            service_name@,
            created_at_ms,
            expires_at_ms,
        ),
        TunnelEvent::TunnelCreateFailed { message, shown } => Transition {
            state: TunnelsView { submitting: false, share_error: Some(shown@), ..state },
            effects: seq![EffectView::AnnounceShareFailed(message@)],
        },
        TunnelEvent::TunnelShared { name, friend, expires_at_ms, now_ms } => quiet(
            seq![
                EffectView::SystemText(
                    "Tunnel request sent to "@ + friend@ + ": "@ + name@ + "."@,
                ),
                EffectView::SharingToast {
                    name: name@,
                    friend: friend@,
                    when: when_phrase(
                        tunnel_labels::span_of(tunnel_labels::remaining_ms(expires_at_ms, now_ms)),
                    ),
                    counter: 160,
                },
            ],
        ),
        TunnelEvent::TunnelShareFailed { message } => quiet(
            seq![message_toast("tunnels.share_failed"@, message@)],
        ),
        TunnelEvent::TunnelOfferSent => quiet(
            seq![EffectView::Toast { phrase: phrase::plain("tunnels.offer_sent"@), counter: 120 }],
        ),
        TunnelEvent::TunnelOfferSendFailed { message } => quiet(
            seq![message_toast("tunnels.offer_send_failed"@, message@)],
        ),
        TunnelEvent::ConnectReceivedTunnel(id) => quiet(connect_effects(state, id@)),
        TunnelEvent::ReceivedTunnelConnected {
            tunnel_id,
            local_addr,
            listener,
            requested_port,
        } => connected_spec(state, tunnel_id@, local_addr@, listener, requested_port),
        TunnelEvent::ReceivedTunnelConnectFailed { tunnel_id, message } => connect_failed_spec(
            state,
            tunnel_id@,
            message@,
        ),
        TunnelEvent::StopSharingTunnel { tunnel_id, error } => stop_spec(
            state,
            tunnel_id@,
            text::opt_text(error),
            texts.service@,
        ),
        TunnelEvent::OpenReceivedTunnel(id) => quiet(open_effects(state, id@)),
        TunnelEvent::CopyReceivedTunnelAddress(id) => quiet(copy_effects(state, id@)),
    }
}

/// No effect.
fn nothing() -> (effects: Vec<TunnelEffect>)
    ensures
        effect_views(effects@) == Seq::<EffectView>::empty(),
{
    let effects: Vec<TunnelEffect> = Vec::new();
    assert(effect_views(effects@) =~= Seq::<EffectView>::empty());
    effects
}

/// One effect.
fn one(effect: TunnelEffect) -> (effects: Vec<TunnelEffect>)
    ensures
        effect_views(effects@) == seq![effect@],
{
    let mut effects: Vec<TunnelEffect> = Vec::new();
    effects.push(effect);
    assert(effect_views(effects@) =~= seq![effect@]);
    effects
}

/// Two effects.
fn two(first: TunnelEffect, second: TunnelEffect) -> (effects: Vec<TunnelEffect>)
    ensures
        effect_views(effects@) == seq![first@, second@],
{
    let mut effects: Vec<TunnelEffect> = Vec::new();
    effects.push(first);
    effects.push(second);
    assert(effect_views(effects@) =~= seq![first@, second@]);
    effects
}

/// A toast without values.
fn plain_toast(key: &str, counter: u32) -> (effect: TunnelEffect)
    ensures
        effect@ == (EffectView::Toast { phrase: phrase::plain(key@), counter }),
{
    TunnelEffect::Toast { phrase: Phrase::new(key), counter }
}

/// A toast about a message.
fn toast_about(key: &str, message: &str) -> (effect: TunnelEffect)
    ensures
        effect@ == message_toast(key@, message@),
{
    TunnelEffect::Toast { phrase: Phrase::new(key).arg("message", message), counter: 160 }
}

/// How long a shared tunnel lasts.
fn when_text(expires_at_ms: u64, now_ms: u64) -> (lasting: Phrase)
    ensures
        lasting@ == when_phrase(
            tunnel_labels::span_of(tunnel_labels::remaining_ms(expires_at_ms, now_ms)),
        ),
{
    match tunnel_labels::time_left(expires_at_ms, now_ms) {
        Span::Days(n) => Phrase::new("tunnels.days").arg("count", text::decimal_text(n).as_str()),
        Span::Hours(n) => Phrase::new("tunnels.hours").arg("count", text::decimal_text(n).as_str()),
        Span::Minutes(n) => Phrase::new("tunnels.minutes").arg(
            "count",
            text::decimal_text(n).as_str(),
        ),
        _ => Phrase::new("tunnels.less_than_minute"),
    }
}

/// The ports at which a listener tries to wait, in this order: the one that was asked for, then
/// any that is free.
pub fn bind_ports(requested: Option<u16>) -> (ports: Vec<u16>)
    ensures
        ports@ == match requested {
            Some(port) => seq![port, 0u16],
            None => seq![0u16],
        },
{
    let mut ports: Vec<u16> = Vec::new();
    if let Some(port) = requested {
        ports.push(port);
    }
    ports.push(0);
    ports
}

impl TunnelsState {
    /// The ports at which the received tunnels listen.
    fn listener_ports(&self) -> (ports: Vec<u16>)
        requires
            self.wf(),
        ensures
            ports@.to_set() == listening_ports(self@.received),
    {
        let mut ports: Vec<u16> = Vec::new();
        let count = self.received_tunnels.len();
        let mut i: usize = 0;
        while i < count
            invariant
                i <= count,
                count == self.received_tunnels.places(),
                self.wf(),
                forall|k: int|
                    0 <= k < ports@.len() ==> listening_ports(self@.received).contains(
                        #[trigger] ports@[k],
                    ),
                forall|j: int|
                    0 <= j < i && self@.received[#[trigger] self.received_tunnels.id_at(
                        j,
                    )].local_addr is Some ==> ports@.contains(
                        self@.received[self.received_tunnels.id_at(j)].local_addr->0.port,
                    ),
            decreases count - i,
        {
            let ghost id = self.received_tunnels.id_at(i as int);
            let ghost before = ports@;
            let state = self.received_tunnels.value_at(i);
            assert(self@.received.dom().contains(id) && self@.received[id] == state@);
            if let Some(address) = &state.local_addr {
                ports.push(address.port);
                proof {
                    assert(listening_ports(self@.received).contains(address.port));
                    assert(ports@[before.len() as int] == address.port);
                    assert forall|p: u16| before.contains(p) implies ports@.contains(p) by {
                        let k = choose|k: int| 0 <= k < before.len() && before[k] == p;
                        assert(ports@[k] == p);
                    }
                }
            }
            i += 1;
        }
        proof {
            self.received_tunnels.places_cover_the_map();
            let all = listening_ports(self@.received);
            assert forall|p: u16| all.contains(p) implies ports@.to_set().contains(p) by {
                let id = choose|id: Seq<u8>|
                    self@.received.dom().contains(id) && (
                    #[trigger] self@.received[id]).local_addr is Some
                        && self@.received[id].local_addr->0.port == p;
                assert(self.received_tunnels@.dom().contains(id));
                let j = choose|j: int|
                    0 <= j < self.received_tunnels.places()
                        && #[trigger] self.received_tunnels.id_at(j) == id;
                assert(self@.received[self.received_tunnels.id_at(j)].local_addr is Some);
            }
            assert(ports@.to_set() =~= all);
        }
        ports
    }

    /// Starts the scan for local services, unless the last one is recent; adds what that asks
    /// for to `effects`.
    pub fn start_share_service_scan(&mut self, recent: bool, effects: &mut Vec<TunnelEffect>)
        requires
            old(self).wf(),
        ensures
            final(self).wf(),
            final(self)@ == (TunnelsView {
                scanning: if recent {
                    old(self)@.scanning
                } else {
                    true
                },
                ..old(self)@
            }),
            effect_views(final(effects)@) == effect_views(old(effects)@) + scan_effects(
                old(self)@,
                recent,
            ),
    {
        if !recent {
            let excluded = self.listener_ports();
            self.share_service_scanning = true;
            effects.push(TunnelEffect::StartScan { excluded });
        }
        assert(effect_views(effects@) =~= effect_views(old(effects)@) + scan_effects(
            old(self)@,
            recent,
        ));
    }

    /// Opens the share dialog, filled in with what is usual; adds what that asks for to
    /// `effects`.
    fn open_share(&mut self, texts: &TunnelTexts, recent: bool, effects: &mut Vec<TunnelEffect>)
        requires
            old(self).wf(),
        ensures
            final(self).wf(),
            final(self)@ == share_opened(old(self)@, texts.development_server@, recent),
            effect_views(final(effects)@) == effect_views(old(effects)@) + scan_effects(
                old(self)@,
                recent,
            ) + seq![EffectView::Focus(tunnels::SHARE_SERVICE_NAME_INPUT@)],
    {
        self.share_local_service_open = true;
        self.share_service_name = texts.development_server.clone();
        self.share_service_port = "3000".to_owned();
        self.share_service_expiry = TunnelDuration::OneHour;
        self.share_service_is_http = true;
        self.share_service_submitting = false;
        self.share_service_error = None;
        self.start_share_service_scan(recent, effects);
        let ghost scanned = effect_views(effects@);
        effects.push(TunnelEffect::Focus(tunnels::SHARE_SERVICE_NAME_INPUT.to_owned()));
        assert(effect_views(effects@) =~= scanned + seq![
            EffectView::Focus(tunnels::SHARE_SERVICE_NAME_INPUT@),
        ]);
    }

    /// A friend was picked to share with.
    fn create_tunnel(
        &mut self,
        peer: PeerKey,
        supported: bool,
        texts: &TunnelTexts,
        recent: bool,
    ) -> (effects: Vec<TunnelEffect>)
        requires
            old(self).wf(),
        ensures
            final(self).wf(),
            final(self)@ == create_spec(old(self)@, peer@, supported, *texts, recent).state,
            effect_views(effects@) == create_spec(
                old(self)@,
                peer@,
                supported,
                *texts,
                recent,
            ).effects,
    {
        if !supported {
            self.show_create_tunnel_dialog = false;
            return one(
                TunnelEffect::ToastText { shown: UNSUPPORTED_TOAST.to_owned(), counter: 160 },
            );
        }
        proof {
            text::lemma_trimmed_empty(self.create_tunnel_port@);
        }
        let entered = !text::is_blank_text(self.create_tunnel_port.as_str());
        if entered && parse_port(self.create_tunnel_port.as_str()).is_none() {
            self.create_tunnel_port_error = Some(texts.invalid_port.clone());
            return one(
                TunnelEffect::ToastText { shown: texts.invalid_port.clone(), counter: 160 },
            );
        }
        self.show_create_tunnel_dialog = false;
        self.create_tunnel_port_error = None;
        let mut effects = two(TunnelEffect::OpenProfile(peer), TunnelEffect::CloseProfileMenu);
        self.open_share(texts, recent, &mut effects);
        effects
    }

    /// Drops the requests for a tunnel.
    fn drop_request(&mut self, id: &str)
        requires
            old(self).wf(),
        ensures
            final(self).wf(),
            final(self)@ == (TunnelsView {
                requests: without_request(old(self)@.requests, id@),
                ..old(self)@
            }),
    {
        let ghost all = self@.requests;
        let ghost keep = |r: RequestView| r.tunnel_id != id@;
        let ghost mut seen: int = 0;
        let mut i: usize = 0;
        proof {
            reveal(Seq::filter);
            assert(all.take(0) =~= Seq::<RequestView>::empty());
            assert(all =~= all.take(0).filter(keep) + all.skip(0));
        }
        while i < self.tunnel_requests.len()
            invariant
                self.wf(),
                0 <= seen <= all.len(),
                i == all.take(seen).filter(keep).len(),
                keep == (|r: RequestView| r.tunnel_id != id@),
                self@ == (TunnelsView {
                    requests: all.take(seen).filter(keep) + all.skip(seen),
                    ..old(self)@
                }),
            decreases self.tunnel_requests.len() - i,
        {
            let ghost done = all.take(seen).filter(keep);
            let ghost now = self@.requests;
            assert(now[i as int] == self.tunnel_requests@[i as int]@);
            assert(now.len() == done.len() + all.len() - seen);
            proof {
                reveal(Seq::filter);
                assert(all.take(seen + 1).drop_last() =~= all.take(seen));
                assert(all.take(seen + 1).last() == all[seen]);
                assert(all[seen] == now[i as int]);
            }
            if text::same_text(self.tunnel_requests[i].tunnel_id.as_str(), id) {
                let ghost held = self.tunnel_requests@;
                self.tunnel_requests.remove(i);
                assert(self.tunnel_requests@ == held.remove(i as int));
                assert(self@.requests =~= now.remove(i as int));
                assert(self@.requests =~= done + all.skip(seen + 1));
            } else {
                i += 1;
                assert(now =~= done.push(all[seen]) + all.skip(seen + 1));
            }
            proof {
                seen = seen + 1;
            }
        }
        assert(self@.requests.len() == self.tunnel_requests@.len());
        assert(all.take(seen) =~= all);
        assert(all.filter(keep) + all.skip(seen) =~= all.filter(keep));
    }

    /// The identifier that a text writes, where a tunnel of that identifier was received.
    fn known_id(&self, id: &str) -> (known: Option<TunnelId>)
        requires
            self.wf(),
        ensures
            match known {
                Some(key) => id_of(id@) == Some(key@) && self@.received.dom().contains(key@),
                None => !(id_of(id@) is Some && self@.received.dom().contains(id_of(id@)->0)),
            },
    {
        match parse_tunnel_id(id) {
            Some(key) => if self.received_tunnels.contains_key(&key) {
                Some(key)
            } else {
                None
            },
            None => None,
        }
    }

    /// A friend asks for a tunnel.
    fn request_received(
        &mut self,
        request: TunnelRequest,
        peer_name: &str,
        fallback: &str,
    ) -> (effects: Vec<TunnelEffect>)
        requires
            old(self).wf(),
        ensures
            final(self).wf(),
            final(self)@ == request_spec(old(self)@, request@, peer_name@, fallback@).state,
            effect_views(effects@) == request_spec(
                old(self)@,
                request@,
                peer_name@,
                fallback@,
            ).effects,
    {
        let mut line = "Tunnel request from ".to_owned();
        line.append(peer_name);
        line.append(": ");
        match self.known_id(request.tunnel_id.as_str()) {
            Some(key) => {
                if let Some(state) = self.received_tunnels.get(&key) {
                    line.append(state.offer.service_name.as_str());
                }
            },
            None => {
                line.append(fallback);
            },
        }
        line.append(" (review it in REQUESTS).");
        self.drop_request(request.tunnel_id.as_str());
        let ghost kept = self@.requests;
        self.tunnel_requests.push(request);
        assert(self@.requests =~= kept.push(request@));
        two(TunnelEffect::RefreshRequests, TunnelEffect::SystemText(line))
    }

    /// The user accepts a request.
    fn accept_request(&mut self, id: &str) -> (effects: Vec<TunnelEffect>)
        requires
            old(self).wf(),
        ensures
            final(self).wf(),
            final(self)@ == accept_spec(old(self)@, id@).state,
            effect_views(effects@) == accept_spec(old(self)@, id@).effects,
    {
        self.drop_request(id);
        match self.known_id(id) {
            Some(key) => two(TunnelEffect::RefreshRequests, TunnelEffect::ConnectNext(key)),
            None => two(
                TunnelEffect::RefreshRequests,
                TunnelEffect::System(Phrase::new("tunnels.request_accepted")),
            ),
        }
    }

    /// The user declines a request.
    fn decline_request(&mut self, id: &str) -> (effects: Vec<TunnelEffect>)
        requires
            old(self).wf(),
        ensures
            final(self).wf(),
            final(self)@ == decline_spec(old(self)@, id@).state,
            effect_views(effects@) == decline_spec(old(self)@, id@).effects,
    {
        self.drop_request(id);
        if let Some(key) = parse_tunnel_id(id) {
            self.take_received(&key);
        }
        two(
            TunnelEffect::RefreshRequests,
            TunnelEffect::System(Phrase::new("tunnels.request_declined")),
        )
    }

    /// The share dialog is asked for, to share the screen.
    fn open_vnc(&mut self, texts: &TunnelTexts) -> (effects: Vec<TunnelEffect>)
        requires
            old(self).wf(),
        ensures
            final(self).wf(),
            final(self)@ == vnc_spec(old(self)@, *texts).state,
            effect_views(effects@) == vnc_spec(old(self)@, *texts).effects,
    {
        self.share_local_service_open = true;
        self.share_service_name = texts.vnc_service_name.clone();
        self.share_service_port = "5900".to_owned();
        self.share_service_expiry = TunnelDuration::OneHour;
        self.share_service_is_http = false;
        self.share_service_submitting = false;
        self.share_service_error = Some(texts.vnc_experimental.clone());
        self.share_service_scanning = false;
        two(
            TunnelEffect::CloseProfileMenu,
            TunnelEffect::Focus(tunnels::SHARE_SERVICE_PORT_INPUT.to_owned()),
        )
    }

    /// The tunnel is being created.
    fn submit_share(&mut self, peer: PeerKey, port: u16, usual: &str, fresh: TunnelId) -> (effects:
        Vec<TunnelEffect>)
        requires
            old(self).wf(),
        ensures
            final(self).wf(),
            final(self)@ == submit_spec(old(self)@, peer@, port, usual@, fresh@).state,
            effect_views(effects@) == submit_spec(
                old(self)@,
                peer@,
                port,
                usual@,
                fresh@,
            ).effects,
    {
        self.share_service_error = None;
        self.share_service_submitting = true;
        proof {
            text::lemma_trimmed_empty(self.share_service_name@);
        }
        let service_name = if text::is_blank_text(self.share_service_name.as_str()) {
            usual.to_owned()
        } else {
            text::trim(self.share_service_name.as_str())
        };
        one(
            TunnelEffect::CreateTunnel {
                peer,
                tunnel_id: fresh,
                port,
                expiry: self.share_service_expiry,
                service_name,
            },
        )
    }

    /// The share dialog is confirmed.
    fn confirm_share(
        &mut self,
        profile: Option<PeerKey>,
        supported: bool,
        texts: &TunnelTexts,
        fresh: TunnelId,
    ) -> (effects: Vec<TunnelEffect>)
        requires
            old(self).wf(),
        ensures
            final(self).wf(),
            final(self)@ == confirm_spec(
                old(self)@,
                opt_peer(profile),
                supported,
                *texts,
                fresh@,
            ).state,
            effect_views(effects@) == confirm_spec(
                old(self)@,
                opt_peer(profile),
                supported,
                *texts,
                fresh@,
            ).effects,
    {
        if self.share_service_submitting {
            return nothing();
        }
        let peer = match profile {
            Some(peer) => peer,
            None => {
                self.share_local_service_open = false;
                return nothing();
            },
        };
        if !supported {
            self.share_local_service_open = false;
            return one(
                TunnelEffect::ToastText { shown: UNSUPPORTED_TOAST.to_owned(), counter: 160 },
            );
        }
        match parse_port(self.share_service_port.as_str()) {
            None => {
                self.share_service_error = Some(texts.invalid_local_port.clone());
                one(
                    TunnelEffect::ToastText {
                        shown: texts.invalid_local_port.clone(),
                        counter: 120,
                    },
                )
            },
            Some(port) => if text::same_text(
                self.share_service_name.as_str(),
                texts.vnc_service_name.as_str(),
            ) {
                one(TunnelEffect::CheckVncSource { peer, port })
            } else {
                self.submit_share(peer, port, texts.development_server.as_str(), fresh)
            },
        }
    }

    /// The screen's source was checked.
    fn vnc_checked(
        &mut self,
        peer: PeerKey,
        port: u16,
        error: Option<String>,
        usual: &str,
        fresh: TunnelId,
    ) -> (effects: Vec<TunnelEffect>)
        requires
            old(self).wf(),
        ensures
            final(self).wf(),
            final(self)@ == vnc_checked_spec(
                old(self)@,
                peer@,
                port,
                text::opt_text(error),
                usual@,
                fresh@,
            ).state,
            effect_views(effects@) == vnc_checked_spec(
                old(self)@,
                peer@,
                port,
                text::opt_text(error),
                usual@,
                fresh@,
            ).effects,
    {
        if self.share_service_submitting {
            return nothing();
        }
        match error {
            Some(message) => {
                self.share_service_error = Some(message);
                nothing()
            },
            None => self.submit_share(peer, port, usual, fresh),
        }
    }

    /// The tunnel was created.
    fn tunnel_created(
        &mut self,
        peer: PeerKey,
        friend: String,
        id: TunnelId,
        service_name: String,
        created_at_ms: u64,
        expires_at_ms: u64,
    ) -> (effects: Vec<TunnelEffect>)
        requires
            old(self).wf(),
        ensures
            final(self).wf(),
            final(self)@ == created_spec(
                old(self)@,
                peer@,
                friend@,
                id@,
                service_name@,
                created_at_ms,
                expires_at_ms,
            ).state,
            effect_views(effects@) == created_spec(
                old(self)@,
                peer@,
                friend@,
                id@,
                service_name@,
                created_at_ms,
                expires_at_ms,
            ).effects,
    {
        self.share_service_submitting = false;
        self.share_local_service_open = false;
        self.share_service_error = None;
        let is_http = self.share_service_is_http;
        self.put_shared(id, SharedTunnelState { service_name: service_name.clone(), is_http });
        let offer = TunnelOffer {
            tunnel_id: id,
            service_name: service_name.clone(),
            is_http,
            expires_at_ms,
            preferred_local_port: parse_port(self.create_tunnel_port.as_str()),
        };
        two(
            TunnelEffect::AnnounceShared { name: service_name, friend, expires_at_ms },
            TunnelEffect::SendOffer { peer, offer, created_at_ms },
        )
    }

    /// A received tunnel is to be connected.
    fn connect_received(&self, id: &TunnelId) -> (effects: Vec<TunnelEffect>)
        requires
            self.wf(),
        ensures
            effect_views(effects@) == connect_effects(self@, id@),
    {
        match self.received_tunnels.get(id) {
            Some(state) => {
                assert(self@.received.dom().contains(id@) && self@.received[id@] == state@);
                if state.connected {
                    return nothing();
                }
                let requested_port = match state.offer.preferred_local_port {
                    Some(port) => if port == 0 {
                        None
                    } else {
                        Some(port)
                    },
                    None => None,
                };
                one(TunnelEffect::Connect { tunnel_id: *id, requested_port })
            },
            None => nothing(),
        }
    }

    /// A received tunnel is connected.
    fn received_connected(
        &mut self,
        id: TunnelId,
        address: ListenAddress,
        listener: u64,
        requested: Option<u16>,
    ) -> (effects: Vec<TunnelEffect>)
        requires
            old(self).wf(),
        ensures
            final(self).wf(),
            final(self)@ == connected_spec(
                old(self)@,
                id@,
                address@,
                listener,
                requested,
            ).state,
            effect_views(effects@) == connected_spec(
                old(self)@,
                id@,
                address@,
                listener,
                requested,
            ).effects,
    {
        let actual = address.port;
        let ghost before = self@;
        match self.take_received(&id) {
            Some(state) => {
                let changed = ReceivedTunnelState {
                    connected: true,
                    local_addr: Some(address),
                    listener: Some(listener),
                    live_info: true,
                    connection_failed: false,
                    ..state
                };
                self.put_received(id, changed);
                assert(before.received.remove(id@).insert(id@, changed@)
                    =~= before.received.insert(id@, changed@));
            },
            None => {
                assert(before.received.remove(id@) =~= before.received);
            },
        }
        match requested {
            Some(port) => if port != actual {
                one(
                    TunnelEffect::Toast {
                        phrase: Phrase::new("tunnels.port_unavailable").arg(
                            "requested",
                            text::decimal_text(port as u64).as_str(),
                        ).arg("actual", text::decimal_text(actual as u64).as_str()),
                        counter: 200,
                    },
                )
            } else {
                nothing()
            },
            None => nothing(),
        }
    }

    /// A received tunnel could not be connected.
    fn received_connect_failed(&mut self, id: TunnelId, message: &str) -> (effects: Vec<
        TunnelEffect,
    >)
        requires
            old(self).wf(),
        ensures
            final(self).wf(),
            final(self)@ == connect_failed_spec(old(self)@, id@, message@).state,
            effect_views(effects@) == connect_failed_spec(old(self)@, id@, message@).effects,
    {
        let ghost before = self@;
        match self.take_received(&id) {
            Some(state) => {
                let changed = ReceivedTunnelState {
                    connected: false,
                    local_addr: None,
                    listener: None,
                    connection_failed: true,
                    ..state
                };
                self.put_received(id, changed);
                assert(before.received.remove(id@).insert(id@, changed@)
                    =~= before.received.insert(id@, changed@));
            },
            None => {
                assert(before.received.remove(id@) =~= before.received);
            },
        }
        one(toast_about("tunnels.connect_failed", message))
    }

    /// A tunnel is no longer shared.
    fn stop_sharing(&mut self, id: &TunnelId, error: Option<String>, fallback: &str) -> (effects:
        Vec<TunnelEffect>)
        requires
            old(self).wf(),
        ensures
            final(self).wf(),
            final(self)@ == stop_spec(old(self)@, id@, text::opt_text(error), fallback@).state,
            effect_views(effects@) == stop_spec(
                old(self)@,
                id@,
                text::opt_text(error),
                fallback@,
            ).effects,
    {
        let name = match self.take_shared(id) {
            Some(state) => state.service_name,
            None => fallback.to_owned(),
        };
        let phrase = match error {
            None => Phrase::new("tunnels.stopped_sharing").arg("name", name.as_str()),
            Some(message) => Phrase::new("tunnels.stop_failed").arg("name", name.as_str()).arg(
                "error",
                message.as_str(),
            ),
        };
        one(TunnelEffect::Toast { phrase, counter: 160 })
    }

    /// The address at which a received tunnel is found, and whether it was named as HTTP.
    fn address_of(&self, id: &TunnelId) -> (address: Option<(String, bool)>)
        requires
            self.wf(),
        ensures
            match address {
                Some(a) => shown_address(self@, id@) == Some(a.0@) && self@.received[id@].offer.is_http
                    == a.1,
                None => shown_address(self@, id@) is None,
            },
    {
        match self.received_tunnels.get(id) {
            Some(state) => {
                assert(self@.received.dom().contains(id@) && self@.received[id@] == state@);
                match &state.local_addr {
                    Some(address) => Some(
                        (
                            tunnel_labels::tunnel_local_address(
                                state.offer.is_http,
                                address.shown.as_str(),
                            ),
                            state.offer.is_http,
                        ),
                    ),
                    None => None,
                }
            },
            None => None,
        }
    }

    /// A received tunnel is to be opened in the browser.
    fn open_received(&self, id: &TunnelId) -> (effects: Vec<TunnelEffect>)
        requires
            self.wf(),
        ensures
            effect_views(effects@) == open_effects(self@, id@),
    {
        match self.address_of(id) {
            Some((address, is_http)) => if is_http {
                one(TunnelEffect::OpenUrl(address))
            } else {
                one(plain_toast("tunnels.not_http", 160))
            },
            None => nothing(),
        }
    }

    /// The address of a received tunnel is to be copied.
    fn copy_received(&self, id: &TunnelId) -> (effects: Vec<TunnelEffect>)
        requires
            self.wf(),
        ensures
            effect_views(effects@) == copy_effects(self@, id@),
    {
        match self.address_of(id) {
            Some((address, _)) => two(
                plain_toast("tunnels.address_copied", 120),
                TunnelEffect::CopyText(address),
            ),
            None => nothing(),
        }
    }

    /// Takes an event into account, where chance and time contribute `moment`; gives what is
    /// asked of the application, in order.
    #[verifier::rlimit(60)]
    #[verifier::spinoff_prover]
    pub fn update_tunnels_with(
        &mut self,
        event: TunnelEvent,
        texts: &TunnelTexts,
        moment: Moment,
    ) -> (effects: Vec<TunnelEffect>)
        requires
            old(self).wf(),
        ensures
            final(self).wf(),
            final(self)@ == transition(old(self)@, event, *texts, moment).state,
            effect_views(effects@) == transition(old(self)@, event, *texts, moment).effects,
    {
        match event {
            TunnelEvent::Message(msg) => match self.update_at(msg, moment.now) {
                Some(listener) => one(TunnelEffect::StopListener(listener)),
                None => nothing(),
            },
            TunnelEvent::CreateTunnel { peer, supported } => self.create_tunnel(
                peer,
                supported,
                texts,
                moment.scan_recent,
            ),
            TunnelEvent::TunnelRequestReceived { peer, peer_name, tunnel_id, timestamp } => {
                self.request_received(
                    TunnelRequest { peer, tunnel_id, timestamp },
                    peer_name.as_str(),
                    texts.tunnel.as_str(),
                )
            },
            TunnelEvent::AcceptTunnelRequest(id) => self.accept_request(id.as_str()),
            TunnelEvent::DeclineTunnelRequest(id) => self.decline_request(id.as_str()),
            TunnelEvent::CloseTunnel(id) => two(
                TunnelEffect::Revoke(id),
                TunnelEffect::System(Phrase::new("tunnels.closed")),
            ),
            TunnelEvent::OpenShareLocalService => {
                let mut effects = one(TunnelEffect::CloseProfileMenu);
                self.open_share(texts, moment.scan_recent, &mut effects);
                effects
            },
            TunnelEvent::OpenShareVncTunnel => self.open_vnc(texts),
            TunnelEvent::ConfirmShareLocalService { profile, supported } => self.confirm_share(
                profile,
                supported,
                texts,
                moment.fresh_id,
            ),
            TunnelEvent::VncSourceChecked { peer, port, error } => self.vnc_checked(
                peer,
                port,
                error,
                texts.development_server.as_str(),
                moment.fresh_id,
            ),
            TunnelEvent::TunnelCreated {
                peer,
                friend,
                tunnel_id,
                service_name,
                created_at_ms,
                expires_at_ms,
            } => self.tunnel_created(
                peer,
                friend,
                tunnel_id,
                service_name,
                created_at_ms,
                expires_at_ms,
            ),
            TunnelEvent::TunnelCreateFailed { message, shown } => {
                self.share_service_submitting = false;
                self.share_service_error = Some(shown);
                one(TunnelEffect::AnnounceShareFailed(message))
            },
            TunnelEvent::TunnelShared { name, friend, expires_at_ms, now_ms } => {
                let mut line = "Tunnel request sent to ".to_owned();
                line.append(friend.as_str());
                line.append(": ");
                line.append(name.as_str());
                line.append(".");
                two(
                    TunnelEffect::SystemText(line),
                    TunnelEffect::SharingToast {
                        name,
                        friend,
                        when: when_text(expires_at_ms, now_ms),
                        counter: 160,
                    },
                )
            },
            TunnelEvent::TunnelShareFailed { message } => one(
                toast_about("tunnels.share_failed", message.as_str()),
            ),
            TunnelEvent::TunnelOfferSent => one(plain_toast("tunnels.offer_sent", 120)),
            TunnelEvent::TunnelOfferSendFailed { message } => one(
                toast_about("tunnels.offer_send_failed", message.as_str()),
            ),
            TunnelEvent::ConnectReceivedTunnel(id) => self.connect_received(&id),
            TunnelEvent::ReceivedTunnelConnected {
                tunnel_id,
                local_addr,
                listener,
                requested_port,
            } => self.received_connected(tunnel_id, local_addr, listener, requested_port),
            TunnelEvent::ReceivedTunnelConnectFailed { tunnel_id, message } => {
                self.received_connect_failed(tunnel_id, message.as_str())
            },
            TunnelEvent::StopSharingTunnel { tunnel_id, error } => self.stop_sharing(
                &tunnel_id,
                error,
                texts.service.as_str(),
            ),
            TunnelEvent::OpenReceivedTunnel(id) => self.open_received(&id),
            TunnelEvent::CopyReceivedTunnelAddress(id) => self.copy_received(&id),
        }
    }

    /// Takes an event into account; gives what is asked of the application, in order.
    pub fn update_tunnels(&mut self, event: TunnelEvent, texts: &TunnelTexts) -> (effects: Vec<
        TunnelEffect,
    >)
        requires
            old(self).wf(),
        ensures
            final(self).wf(),
            exists|moment: Moment|
                {
                    &&& old(self)@.scanned_at is None ==> !moment.scan_recent
                    &&& final(self)@ == (#[trigger] transition(
                        old(self)@,
                        event,
                        *texts,
                        moment,
                    )).state
                    &&& effect_views(effects@) == transition(
                        old(self)@,
                        event,
                        *texts,
                        moment,
                    ).effects
                },
    {
        let moment = Moment {
            fresh_id: TunnelId(random_bytes()),
            scan_recent: self.scan_is_recent(),
            now: std::time::Instant::now(),
        };
        self.update_tunnels_with(event, texts, moment)
    }

    /// Takes an offer from a friend into account. It counts only where its capability is valid
    /// and its time is not over; then it is remembered, as one that is not connected, and the
    /// toast that tells of it is given.
    pub fn handle_received_tunnel_offer(
        &mut self,
        sender: PeerKey,
        offer: TunnelOffer,
        capability_valid: bool,
        sharer_label: &str,
        now_ms: u64,
    ) -> (accepted: Option<(TunnelId, TunnelEffect)>)
        requires
            old(self).wf(),
        ensures
            final(self).wf(),
            accepted is Some <==> offer_counts(capability_valid, offer@, now_ms),
            match accepted {
                None => final(self)@ == old(self)@,
                Some((id, toast)) => {
                    &&& id@ == offer@.tunnel_id
                    &&& final(self)@ == offer_taken(
                        old(self)@,
                        sender@,
                        offer@,
                        sharer_label@,
                    )
                    &&& toast@ == (EffectView::ToastText {
                        shown: offer_text(offer@, sharer_label@, now_ms),
                        counter: 200,
                    })
                },
            },
    {
        if !capability_valid || offer.expires_at_ms <= now_ms {
            return None;
        }
        let mut shown = sharer_label.to_owned();
        shown.append(" shared ");
        shown.append(offer.service_name.as_str());
        shown.append(" with you (");
        shown.append(tunnel_labels::tunnel_expiry_label(offer.expires_at_ms, now_ms).as_str());
        shown.append(")");
        let id = offer.tunnel_id;
        self.put_received(
            id,
            ReceivedTunnelState {
                offer,
                sharer: sender,
                sharer_label: sharer_label.to_owned(),
                connected: false,
                local_addr: None,
                listener: None,
                live_info: false,
                connection_failed: false,
            },
        );
        Some((id, TunnelEffect::ToastText { shown, counter: 200 }))
    }
}

/// An offer counts where its capability is valid and its time is not over.
pub open spec fn offer_counts(capability_valid: bool, offer: OfferView, now_ms: u64) -> bool {
    capability_valid && offer.expires_at_ms > now_ms
}

/// The state with an offer that counts.
pub open spec fn offer_taken(
    state: TunnelsView,
    sender: Seq<u8>,
    offer: OfferView,
    sharer_label: Seq<char>,
) -> TunnelsView {
    TunnelsView {
        received: state.received.insert(
            offer.tunnel_id,
            ReceivedView {
                offer,
                sharer: sender,
                sharer_label,
                connected: false,
                local_addr: None,
                listener: None,
                live_info: false,
                connection_failed: false,
            },
        ),
        ..state
    }
}

/// What is said of an offer that counts.
pub open spec fn offer_text(offer: OfferView, sharer_label: Seq<char>, now_ms: u64) -> Seq<char> {
    sharer_label + " shared "@ + offer.service_name + " with you ("@ + tunnel_labels::expiry_text(
        tunnel_labels::span_of(tunnel_labels::remaining_ms(offer.expires_at_ms, now_ms)),
    ) + ")"@
}

/// No tunnel is requested twice.
pub open spec fn requested_once(requests: Seq<RequestView>) -> bool {
    forall|i: int, j: int|
        #![trigger requests[i], requests[j]]
        0 <= i < j < requests.len() ==> requests[i].tunnel_id != requests[j].tunnel_id
}

proof fn lemma_dropped_requests(requests: Seq<RequestView>, id: Seq<char>)
    requires
        requested_once(requests),
    ensures
        requested_once(without_request(requests, id)),
        forall|i: int|
            0 <= i < without_request(requests, id).len() ==> (#[trigger] without_request(
                requests,
                id,
            )[i]).tunnel_id != id && requests.contains(without_request(requests, id)[i]),
    decreases requests.len(),
{
    reveal(Seq::filter);
    if requests.len() > 0 {
        let front = requests.drop_last();
        let last = requests.last();
        lemma_dropped_requests(front, id);
        let kept = without_request(front, id);
        let all = without_request(requests, id);
        assert forall|r: RequestView| front.contains(r) implies requests.contains(r) && r.tunnel_id
            != last.tunnel_id by {
            let k = choose|k: int| 0 <= k < front.len() && front[k] == r;
            assert(requests[k] == r);
            assert(requests[k].tunnel_id != requests[requests.len() - 1].tunnel_id);
        }
        assert(requests.contains(last)) by {
            assert(requests[requests.len() - 1] == last);
        }
        if last.tunnel_id != id {
            assert(all == kept.push(last));
            assert forall|i: int, j: int|
                #![trigger all[i], all[j]]
                0 <= i < j < all.len() implies all[i].tunnel_id != all[j].tunnel_id by {
                assert(all[i] == kept[i]);
                assert(front.contains(kept[i]));
                if j < kept.len() {
                    assert(kept[i].tunnel_id != kept[j].tunnel_id);
                }
            }
        }
    }
}

/// A request that is sent again replaces the earlier one: whatever happens, no tunnel is
/// requested twice.
pub proof fn requests_never_repeat(
    state: TunnelsView,
    event: TunnelEvent,
    texts: TunnelTexts,
    moment: Moment,
)
    requires
        requested_once(state.requests),
    ensures
        requested_once(transition(state, event, texts, moment).state.requests),
{
    match event {
        TunnelEvent::TunnelRequestReceived { peer, peer_name, tunnel_id, timestamp } => {
            lemma_dropped_requests(state.requests, tunnel_id@);
        },
        TunnelEvent::AcceptTunnelRequest(id) => {
            lemma_dropped_requests(state.requests, id@);
        },
        TunnelEvent::DeclineTunnelRequest(id) => {
            lemma_dropped_requests(state.requests, id@);
        },
        _ => {},
    }
}

/// Whether accepted or declined, a request waits no longer.
pub proof fn answered_requests_are_gone(
    state: TunnelsView,
    id: String,
    texts: TunnelTexts,
    moment: Moment,
)
    ensures
        forall|i: int|
            0 <= i < transition(
                state,
                TunnelEvent::AcceptTunnelRequest(id),
                texts,
                moment,
            ).state.requests.len() ==> (#[trigger] transition(
                state,
                TunnelEvent::AcceptTunnelRequest(id),
                texts,
                moment,
            ).state.requests[i]).tunnel_id != id@,
        transition(state, TunnelEvent::DeclineTunnelRequest(id), texts, moment).state.requests
            == transition(state, TunnelEvent::AcceptTunnelRequest(id), texts, moment).state.requests,
        id_of(id@) is Some ==> !transition(
            state,
            TunnelEvent::DeclineTunnelRequest(id),
            texts,
            moment,
        ).state.received.dom().contains(id_of(id@)->0),
{
    let keep = |r: RequestView| r.tunnel_id != id@;
    assert forall|i: int| 0 <= i < without_request(state.requests, id@).len() implies (
    #[trigger] without_request(state.requests, id@)[i]).tunnel_id != id@ by {
        state.requests.lemma_filter_pred(keep, i);
    }
}

/// A tunnel is created only by the share dialog, never while one is being created, only towards
/// a friend whose client can, and only to a port that can be used; and from then on the dialog
/// is being submitted.
pub proof fn tunnels_are_created_with_care(
    state: TunnelsView,
    event: TunnelEvent,
    texts: TunnelTexts,
    moment: Moment,
    i: int,
)
    requires
        0 <= i < transition(state, event, texts, moment).effects.len(),
        transition(state, event, texts, moment).effects[i] is CreateTunnel,
    ensures
        event is ConfirmShareLocalService || event is VncSourceChecked,
        !state.submitting,
        event matches TunnelEvent::ConfirmShareLocalService { profile, supported } ==> {
            &&& supported
            &&& profile is Some
            &&& transition(state, event, texts, moment).effects[i]->CreateTunnel_peer
                == profile->0@
            &&& usable_port(state.port) == Some(
                transition(state, event, texts, moment).effects[i]->CreateTunnel_port,
            )
            &&& transition(state, event, texts, moment).effects[i]->CreateTunnel_port != 0
        },
        transition(state, event, texts, moment).state.submitting,
{
}

/// The browser opens only what was named as HTTP, by an address that says so.
pub proof fn only_http_is_opened(
    state: TunnelsView,
    event: TunnelEvent,
    texts: TunnelTexts,
    moment: Moment,
    i: int,
)
    requires
        0 <= i < transition(state, event, texts, moment).effects.len(),
        transition(state, event, texts, moment).effects[i] is OpenUrl,
    ensures
        event matches TunnelEvent::OpenReceivedTunnel(id) && state.received.dom().contains(id@)
            && state.received[id@].offer.is_http && state.received[id@].local_addr is Some
            && transition(state, event, texts, moment).effects[i] == EffectView::OpenUrl(
            "http://"@ + state.received[id@].local_addr->0.shown,
        ),
{
}

/// A tunnel that is connected is not connected again.
pub proof fn connected_tunnels_are_left_alone(
    state: TunnelsView,
    id: TunnelId,
    address: ListenAddress,
    listener: u64,
    requested: Option<u16>,
    texts: TunnelTexts,
    moment: Moment,
)
    requires
        state.received.dom().contains(id@),
    ensures
        ({
            let after = transition(
                state,
                TunnelEvent::ReceivedTunnelConnected {
                    tunnel_id: id,
                    local_addr: address,
                    listener,
                    requested_port: requested,
                },
                texts,
                moment,
            ).state;
            transition(after, TunnelEvent::ConnectReceivedTunnel(id), texts, moment).effects.len()
                == 0
        }),
{
}

/// Nothing but the share dialog differs between two states.
pub open spec fn differ_in_share_dialog_only(a: TunnelsView, b: TunnelsView) -> bool {
    &&& a.picker_open == b.picker_open && a.picker_port == b.picker_port && a.picker_error
        == b.picker_error
    &&& a.requests == b.requests && a.received == b.received && a.shared == b.shared
    &&& a.suggestions == b.suggestions && a.scanned_at == b.scanned_at
}

/// What the user entered into the share dialog is the same in two states.
pub open spec fn same_entries(a: TunnelsView, b: TunnelsView) -> bool {
    a.name == b.name && a.port == b.port && a.expiry == b.expiry && a.is_http == b.is_http
}

/// A tunnel is created as the dialog says: for the duration that is chosen, under the name that
/// is entered, or the usual one where none is, with a fresh identifier, and towards the friend
/// and the port of the event. What the user entered stays.
pub proof fn tunnels_are_created_as_entered(
    state: TunnelsView,
    event: TunnelEvent,
    texts: TunnelTexts,
    moment: Moment,
    i: int,
)
    requires
        0 <= i < transition(state, event, texts, moment).effects.len(),
        transition(state, event, texts, moment).effects[i] is CreateTunnel,
    ensures
        ({
            let made = transition(state, event, texts, moment).effects[i];
            let entered = text::trimmed(state.name);
            &&& made->CreateTunnel_expiry == state.expiry
            &&& entered.len() > 0 ==> made->CreateTunnel_service_name == entered
            &&& entered.len() == 0 ==> made->CreateTunnel_service_name
                == texts.development_server@
            &&& made->CreateTunnel_tunnel_id == moment.fresh_id@
            &&& event matches TunnelEvent::VncSourceChecked { peer, port, error }
                ==> made->CreateTunnel_peer == peer@ && made->CreateTunnel_port == port && error
                is None
            &&& same_entries(state, transition(state, event, texts, moment).state)
            &&& differ_in_share_dialog_only(state, transition(state, event, texts, moment).state)
            &&& transition(state, event, texts, moment).effects.len() == 1
        }),
{
}

/// After the user chose a duration, named a service, chose a port and told whether it is HTTP,
/// in this order, a confirmation asks for just that tunnel, for every choice.
pub proof fn every_choice_of_the_dialog_counts(
    state: TunnelsView,
    duration: TunnelDuration,
    name: String,
    port: String,
    is_http: bool,
    peer: PeerKey,
    texts: TunnelTexts,
    moment: Moment,
)
    requires
        !state.submitting,
        text::trimmed(name@).len() > 0,
        name@ != texts.vnc_service_name@,
    ensures
        ({
            let s1 = transition(
                state,
                TunnelEvent::Message(TunnelsMessage::ShareLocalServiceExpiryChanged(duration)),
                texts,
                moment,
            ).state;
            let s2 = transition(
                s1,
                TunnelEvent::Message(TunnelsMessage::ShareLocalServiceNameChanged(name)),
                texts,
                moment,
            ).state;
            let s3 = transition(
                s2,
                TunnelEvent::Message(TunnelsMessage::ShareLocalServicePortChanged(port)),
                texts,
                moment,
            ).state;
            let s4 = transition(
                s3,
                TunnelEvent::Message(TunnelsMessage::ShareLocalServiceHttpToggled(is_http)),
                texts,
                moment,
            ).state;
            let done = transition(
                s4,
                TunnelEvent::ConfirmShareLocalService { profile: Some(peer), supported: true },
                texts,
                moment,
            );
            &&& s4.is_http == is_http
            &&& usable_port(port@) matches Some(n) ==> done.effects == seq![
                EffectView::CreateTunnel {
                    peer: peer@,
                    tunnel_id: moment.fresh_id@,
                    port: n,
                    expiry: duration,
                    service_name: text::trimmed(name@),
                },
            ] && done.state.submitting
            &&& usable_port(port@) is None ==> done.state.share_error == Some(
                texts.invalid_local_port@,
            ) && !done.state.submitting && done.effects == seq![
                EffectView::ToastText { shown: texts.invalid_local_port@, counter: 120 },
            ]
        }),
{
}

/// A port is one that can be used where the text, trimmed, writes a number from 1 on that fits.
pub proof fn usable_ports_are_not_zero(s: Seq<char>, port: u16)
    ensures
        usable_port(s) == Some(port) <==> text::u16_value(text::trimmed(s)) == Some(port) && port
            > 0,
        port > 0 ==> usable_port(text::decimal(port as nat)) == Some(port),
        usable_port(text::decimal(0)) is None,
{
    text::decimal_is_read_back(port);
    text::decimal_is_read_back(0);
}

/// A confirmation does nothing while one is under way, closes the dialog where no profile is open
/// or the friend's client cannot, and has the screen's source checked before the screen is
/// shared.
pub proof fn confirmations_are_refused_for_a_reason(
    state: TunnelsView,
    profile: Option<PeerKey>,
    supported: bool,
    texts: TunnelTexts,
    moment: Moment,
)
    ensures
        ({
            let event = TunnelEvent::ConfirmShareLocalService { profile, supported };
            let done = transition(state, event, texts, moment);
            &&& state.submitting ==> done.state == state && done.effects.len() == 0
            &&& !state.submitting && profile is None ==> !done.state.share_open
                && done.effects.len() == 0
            &&& !state.submitting && profile is Some && !supported ==> !done.state.share_open
                && done.effects == seq![
                EffectView::ToastText {
                    shown:
                        "Tunnels unavailable — this peer's client does not support secure tunnels."@,
                    counter: 160,
                },
            ]
            &&& !state.submitting && (profile is None || !supported) ==> !done.state.submitting
            &&& !state.submitting && profile is Some && supported && state.name
                == texts.vnc_service_name@ && usable_port(state.port) is Some ==> done.state
                == state && done.effects == seq![
                EffectView::CheckVncSource { peer: profile->0@, port: usable_port(state.port)->0 },
            ]
            &&& same_entries(state, done.state) && differ_in_share_dialog_only(state, done.state)
        }),
{
}

/// A screen whose source is not usable is not shared, and the dialog says why; nothing happens
/// while a tunnel is being created.
pub proof fn unusable_screens_are_not_shared(
    state: TunnelsView,
    peer: PeerKey,
    port: u16,
    error: String,
    texts: TunnelTexts,
    moment: Moment,
)
    ensures
        ({
            let bad = transition(
                state,
                TunnelEvent::VncSourceChecked { peer, port, error: Some(error) },
                texts,
                moment,
            );
            let good = transition(
                state,
                TunnelEvent::VncSourceChecked { peer, port, error: None },
                texts,
                moment,
            );
            &&& bad.effects.len() == 0
            &&& !state.submitting ==> bad.state.share_error == Some(error@)
                && !bad.state.submitting
            &&& state.submitting ==> bad.state == state && good.state == state
                && good.effects.len() == 0
            &&& !state.submitting ==> good.effects.len() == 1 && good.effects[0] is CreateTunnel
                && good.state.submitting && good.state.share_error is None
        }),
{
}

/// The share dialog opens with the usual service, port and duration, as HTTP, with nothing wrong
/// and nothing under way; local services are looked for unless that was done lately, at no port
/// at which a received tunnel listens; and the name has the focus.
pub proof fn the_share_dialog_opens_afresh(
    state: TunnelsView,
    texts: TunnelTexts,
    moment: Moment,
    port: u16,
)
    ensures
        ({
            let opened = transition(state, TunnelEvent::OpenShareLocalService, texts, moment);
            let scan = EffectView::StartScan { excluded: listening_ports(state.received) };
            let focus = EffectView::Focus("share-service-name-input"@);
            &&& opened.state.share_open && !opened.state.submitting && opened.state.share_error
                is None
            &&& opened.state.name == texts.development_server@ && opened.state.port == "3000"@
                && opened.state.expiry is OneHour && opened.state.is_http
            &&& differ_in_share_dialog_only(state, opened.state)
            &&& moment.scan_recent ==> opened.effects == seq![EffectView::CloseProfileMenu, focus]
                && opened.state.scanning == state.scanning
            &&& !moment.scan_recent ==> opened.effects == seq![
                EffectView::CloseProfileMenu,
                scan,
                focus,
            ] && opened.state.scanning
            &&& listening_ports(state.received).contains(port) <==> exists|id: Seq<u8>|
                state.received.dom().contains(id) && (#[trigger] state.received[id]).local_addr
                    is Some && state.received[id].local_addr->0.port == port
        }),
{
    let opened = transition(state, TunnelEvent::OpenShareLocalService, texts, moment);
    let scan = EffectView::StartScan { excluded: listening_ports(state.received) };
    let focus = EffectView::Focus("share-service-name-input"@);
    if moment.scan_recent {
        assert(opened.effects =~= seq![EffectView::CloseProfileMenu, focus]);
    } else {
        assert(opened.effects =~= seq![EffectView::CloseProfileMenu, scan, focus]);
    }
}

/// The dialog for the screen opens with the screen's service and port, not as HTTP, with the
/// warning that it is experimental; the port has the focus.
pub proof fn the_screen_dialog_opens_with_a_warning(
    state: TunnelsView,
    texts: TunnelTexts,
    moment: Moment,
)
    ensures
        ({
            let opened = transition(state, TunnelEvent::OpenShareVncTunnel, texts, moment);
            &&& opened.state.share_open && !opened.state.submitting && !opened.state.scanning
            &&& opened.state.share_error == Some(texts.vnc_experimental@)
            &&& opened.state.name == texts.vnc_service_name@ && opened.state.port == "5900"@
                && opened.state.expiry is OneHour && !opened.state.is_http
            &&& differ_in_share_dialog_only(state, opened.state)
            &&& opened.effects == seq![
                EffectView::CloseProfileMenu,
                EffectView::Focus("share-service-port-input"@),
            ]
        }),
{
}

/// Picking a friend whose client cannot closes the picker and says so; a port that cannot be
/// used is pointed out and leaves the picker open; else the friend's profile and the share dialog
/// open.
pub proof fn picking_a_friend_opens_the_share_dialog(
    state: TunnelsView,
    peer: PeerKey,
    supported: bool,
    texts: TunnelTexts,
    moment: Moment,
)
    ensures
        ({
            let picked = transition(
                state,
                TunnelEvent::CreateTunnel { peer, supported },
                texts,
                moment,
            );
            let blank = text::trimmed(state.picker_port).len() == 0;
            let usable = blank || usable_port(state.picker_port) is Some;
            &&& picked.state.requests == state.requests && picked.state.received == state.received
                && picked.state.shared == state.shared && picked.state.picker_port
                == state.picker_port
            &&& !supported ==> !picked.state.picker_open && picked.state.share_open
                == state.share_open && picked.effects == seq![
                EffectView::ToastText {
                    shown:
                        "Tunnels unavailable — this peer's client does not support secure tunnels."@,
                    counter: 160,
                },
            ]
            &&& supported && !usable ==> picked.state.picker_open == state.picker_open
                && picked.state.picker_error == Some(texts.invalid_port@) && picked.effects
                == seq![EffectView::ToastText { shown: texts.invalid_port@, counter: 160 }]
            &&& supported && usable ==> {
                &&& !picked.state.picker_open && picked.state.picker_error is None
                &&& picked.state.share_open && !picked.state.submitting && picked.state.name
                    == texts.development_server@ && picked.state.port == "3000"@
                    && picked.state.expiry is OneHour && picked.state.is_http
                    && picked.state.share_error is None
                &&& picked.effects.len() == if moment.scan_recent {
                    3nat
                } else {
                    4nat
                }
                &&& picked.effects[0] == EffectView::OpenProfile(peer@)
                &&& picked.effects[1] is CloseProfileMenu
                &&& !moment.scan_recent ==> picked.effects[2] == (EffectView::StartScan {
                    excluded: listening_ports(state.received),
                }) && picked.state.scanning
                &&& picked.effects.last() == EffectView::Focus("share-service-name-input"@)
            }
        }),
{
}

/// A request is listed last, with who asks and when; the other requests stay, but for an earlier
/// one for the same tunnel. The user is told who asks for what, under the name of the offered
/// service where it is known.
pub proof fn requests_are_listed_and_told(
    state: TunnelsView,
    peer: PeerKey,
    peer_name: String,
    id: String,
    timestamp: i64,
    texts: TunnelTexts,
    moment: Moment,
    other: RequestView,
)
    ensures
        ({
            let asked = transition(
                state,
                TunnelEvent::TunnelRequestReceived { peer, peer_name, tunnel_id: id, timestamp },
                texts,
                moment,
            );
            let key = id_of(id@);
            let known = key is Some && state.received.dom().contains(key->0);
            let service = if known {
                state.received[key->0].offer.service_name
            } else {
                texts.tunnel@
            };
            &&& asked.state.requests.len() > 0
            &&& asked.state.requests.last().peer == peer@ && asked.state.requests.last().tunnel_id
                == id@ && asked.state.requests.last().timestamp == timestamp
            &&& other.tunnel_id != id@ ==> (asked.state.requests.contains(other)
                <==> state.requests.contains(other))
            &&& asked.state.received == state.received && asked.state.shared == state.shared
                && same_entries(state, asked.state)
            &&& asked.effects.len() == 2 && asked.effects[0] is RefreshRequests
            &&& asked.effects[1] == EffectView::SystemText(
                "Tunnel request from "@ + peer_name@ + ": "@ + service
                    + " (review it in REQUESTS)."@,
            )
        }),
{
    lemma_kept_requests(state.requests, id@, other);
    let kept = without_request(state.requests, id@);
    let request = RequestView { peer: peer@, tunnel_id: id@, timestamp };
    let after = kept.push(request);
    assert(after.last() == request);
    if kept.contains(other) {
        let k = choose|k: int| 0 <= k < kept.len() && kept[k] == other;
        assert(after[k] == other);
    }
    if after.contains(other) && other.tunnel_id != id@ {
        let k = choose|k: int| 0 <= k < after.len() && after[k] == other;
        assert(k < kept.len());
        assert(kept[k] == other);
    }
}

/// Of the requests those for one tunnel are dropped and the others kept.
proof fn lemma_kept_requests(requests: Seq<RequestView>, id: Seq<char>, other: RequestView)
    ensures
        without_request(requests, id).contains(other) <==> requests.contains(other)
            && other.tunnel_id != id,
    decreases requests.len(),
{
    reveal(Seq::filter);
    if requests.len() > 0 {
        let front = requests.drop_last();
        let last = requests.last();
        lemma_kept_requests(front, id, other);
        let kept = without_request(front, id);
        assert(requests =~= front.push(last));
        if requests.contains(other) {
            let k = choose|k: int| 0 <= k < requests.len() && requests[k] == other;
            if k < front.len() {
                assert(front[k] == other);
            }
        }
        if front.contains(other) {
            let k = choose|k: int| 0 <= k < front.len() && front[k] == other;
            assert(requests[k] == other);
        }
        assert(requests[requests.len() - 1] == last);
        if last.tunnel_id != id {
            let all = kept.push(last);
            assert(without_request(requests, id) == all);
            assert(all[all.len() - 1] == last);
            if kept.contains(other) {
                let k = choose|k: int| 0 <= k < kept.len() && kept[k] == other;
                assert(all[k] == other);
            }
            if all.contains(other) {
                let k = choose|k: int| 0 <= k < all.len() && all[k] == other;
                if k < kept.len() {
                    assert(kept[k] == other);
                }
            }
        }
    }
}

/// An accepted request leads to connecting the tunnel that was offered, or to a line that says
/// it was accepted; a declined one forgets the offer and says so. Other requests and offers stay.
pub proof fn answers_to_requests_lead_on(
    state: TunnelsView,
    id: String,
    texts: TunnelTexts,
    moment: Moment,
    other: RequestView,
    other_id: Seq<u8>,
)
    requires
        other.tunnel_id != id@,
        id_of(id@) != Some(other_id),
    ensures
        ({
            let accepted = transition(state, TunnelEvent::AcceptTunnelRequest(id), texts, moment);
            let declined = transition(state, TunnelEvent::DeclineTunnelRequest(id), texts, moment);
            let key = id_of(id@);
            &&& accepted.state.requests.contains(other) <==> state.requests.contains(other)
            &&& declined.state.requests.contains(other) <==> state.requests.contains(other)
            &&& accepted.state.received == state.received && accepted.state.shared == state.shared
            &&& declined.state.received.dom().contains(other_id)
                <==> state.received.dom().contains(other_id)
            &&& state.received.dom().contains(other_id) ==> declined.state.received[other_id]
                == state.received[other_id]
            &&& declined.state.shared == state.shared
            &&& accepted.effects.len() == 2 && accepted.effects[0] is RefreshRequests
            &&& key is Some && state.received.dom().contains(key->0) ==> accepted.effects[1]
                == EffectView::ConnectNext(key->0)
            &&& key is None || !state.received.dom().contains(key->0) ==> accepted.effects[1]
                == EffectView::System(phrase::plain("tunnels.request_accepted"@))
            &&& declined.effects == seq![
                EffectView::RefreshRequests,
                EffectView::System(phrase::plain("tunnels.request_declined"@)),
            ]
        }),
{
    lemma_kept_requests(state.requests, id@, other);
}

/// A tunnel that was created is remembered under its name, as HTTP or not as the dialog says,
/// and offered to the friend with its expiry and the port that the user would like; the dialog
/// closes.
pub proof fn created_tunnels_are_offered_as_they_are(
    state: TunnelsView,
    peer: PeerKey,
    friend: String,
    id: TunnelId,
    service_name: String,
    created_at_ms: u64,
    expires_at_ms: u64,
    texts: TunnelTexts,
    moment: Moment,
    other: Seq<u8>,
)
    requires
        other != id@,
    ensures
        ({
            let made = transition(
                state,
                TunnelEvent::TunnelCreated {
                    peer,
                    friend,
                    tunnel_id: id,
                    service_name,
                    created_at_ms,
                    expires_at_ms,
                },
                texts,
                moment,
            );
            &&& !made.state.submitting && !made.state.share_open && made.state.share_error is None
            &&& made.state.shared.dom().contains(id@)
            &&& made.state.shared[id@].service_name == service_name@
            &&& made.state.shared[id@].is_http == state.is_http
            &&& made.state.shared.dom().contains(other) <==> state.shared.dom().contains(other)
            &&& made.state.shared[other] == state.shared[other]
            &&& made.state.received == state.received && made.state.requests == state.requests
            &&& made.effects.len() == 2
            &&& made.effects[0] == (EffectView::AnnounceShared {
                name: service_name@,
                friend: friend@,
                expires_at_ms,
            })
            &&& made.effects[1] is SendOffer
            &&& made.effects[1]->SendOffer_peer == peer@
            &&& made.effects[1]->SendOffer_created_at_ms == created_at_ms
            &&& made.effects[1]->SendOffer_offer.tunnel_id == id@
            &&& made.effects[1]->SendOffer_offer.service_name == service_name@
            &&& made.effects[1]->SendOffer_offer.is_http == state.is_http
            &&& made.effects[1]->SendOffer_offer.expires_at_ms == expires_at_ms
            &&& made.effects[1]->SendOffer_offer.preferred_local_port == usable_port(
                state.picker_port,
            )
        }),
{
}

/// A tunnel that could not be created leaves the dialog open for another try, with what went
/// wrong, and what was shared stays.
pub proof fn failed_creations_can_be_tried_again(
    state: TunnelsView,
    message: String,
    shown: String,
    texts: TunnelTexts,
    moment: Moment,
)
    ensures
        ({
            let failed = transition(
                state,
                TunnelEvent::TunnelCreateFailed { message, shown },
                texts,
                moment,
            );
            &&& !failed.state.submitting && failed.state.share_error == Some(shown@)
            &&& failed.state.share_open == state.share_open && same_entries(state, failed.state)
            &&& differ_in_share_dialog_only(state, failed.state)
            &&& failed.effects == seq![EffectView::AnnounceShareFailed(message@)]
        }),
{
}

/// The news of a tunnel changes nothing and is told in the user's language, with what went wrong
/// where anything did.
pub proof fn news_of_tunnels_is_told(
    state: TunnelsView,
    name: String,
    friend: String,
    message: String,
    expires_at_ms: u64,
    now_ms: u64,
    id: TunnelId,
    texts: TunnelTexts,
    moment: Moment,
)
    ensures
        ({
            let told = |event: TunnelEvent| transition(state, event, texts, moment);
            let shared = told(TunnelEvent::TunnelShared { name, friend, expires_at_ms, now_ms });
            let share_failed = told(TunnelEvent::TunnelShareFailed { message });
            let offer_failed = told(TunnelEvent::TunnelOfferSendFailed { message });
            let sent = told(TunnelEvent::TunnelOfferSent);
            let closed = told(TunnelEvent::CloseTunnel(id));
            &&& shared.state == state && share_failed.state == state && offer_failed.state == state
                && sent.state == state && closed.state == state
            &&& shared.effects.len() == 2
            &&& shared.effects[0] == EffectView::SystemText(
                "Tunnel request sent to "@ + friend@ + ": "@ + name@ + "."@,
            )
            &&& shared.effects[1] is SharingToast && shared.effects[1]->SharingToast_name == name@
                && shared.effects[1]->SharingToast_friend == friend@
                && shared.effects[1]->SharingToast_counter == 160
            &&& shared.effects[1]->when == when_phrase(
                tunnel_labels::span_of(tunnel_labels::remaining_ms(expires_at_ms, now_ms)),
            )
            &&& share_failed.effects.len() == 1 && share_failed.effects[0] is Toast
                && share_failed.effects[0]->Toast_phrase.key == "tunnels.share_failed"@
                && share_failed.effects[0]->Toast_phrase.args == seq![("message"@, message@)]
                && share_failed.effects[0]->Toast_counter == 160
            &&& offer_failed.effects.len() == 1 && offer_failed.effects[0] is Toast
                && offer_failed.effects[0]->Toast_phrase.key == "tunnels.offer_send_failed"@
                && offer_failed.effects[0]->Toast_phrase.args == seq![("message"@, message@)]
                && offer_failed.effects[0]->Toast_counter == 160
            &&& sent.effects == seq![
                EffectView::Toast { phrase: phrase::plain("tunnels.offer_sent"@), counter: 120 },
            ]
            &&& closed.effects == seq![
                EffectView::Revoke(id@),
                EffectView::System(phrase::plain("tunnels.closed"@)),
            ]
        }),
{
    assert(phrase::with(phrase::plain("tunnels.share_failed"@), "message"@, message@).args
        =~= seq![("message"@, message@)]);
    assert(phrase::with(phrase::plain("tunnels.offer_send_failed"@), "message"@, message@).args
        =~= seq![("message"@, message@)]);
}

/// How long a shared tunnel lasts is told in whole days, hours or minutes.
pub proof fn lasting_is_told_in_whole_units(expires_at_ms: u64, now_ms: u64, n: u64)
    ensures
        ({
            let told = when_phrase(
                tunnel_labels::span_of(tunnel_labels::remaining_ms(expires_at_ms, now_ms)),
            );
            let left = expires_at_ms - now_ms;
            let count = seq![("count"@, text::decimal(n as nat))];
            &&& left < 60_000 ==> told.key == "tunnels.less_than_minute"@ && told.args.len() == 0
            &&& 1 <= n < 60 && n * 60_000 <= left < (n + 1) * 60_000 ==> told.key
                == "tunnels.minutes"@ && told.args == count
            &&& 1 <= n < 24 && n * 3_600_000 <= left < (n + 1) * 3_600_000 ==> told.key
                == "tunnels.hours"@ && told.args == count
            &&& 1 <= n && n * 86_400_000 <= left < (n + 1) * 86_400_000 ==> told.key
                == "tunnels.days"@ && told.args == count
        }),
{
    let left = expires_at_ms - now_ms;
    let count = seq![("count"@, text::decimal(n as nat))];
    assert(phrase::with(
        phrase::plain("tunnels.minutes"@),
        "count"@,
        text::decimal(n as nat),
    ).args =~= count);
    assert(phrase::with(phrase::plain("tunnels.hours"@), "count"@, text::decimal(n as nat)).args
        =~= count);
    assert(phrase::with(phrase::plain("tunnels.days"@), "count"@, text::decimal(n as nat)).args
        =~= count);
    if 1 <= n && n * 60_000 <= left < (n + 1) * 60_000 {
        assert(left / 60_000 == n);
    }
    if 1 <= n && n * 3_600_000 <= left < (n + 1) * 3_600_000 {
        assert(left / 3_600_000 == n);
    }
    if 1 <= n && n * 86_400_000 <= left < (n + 1) * 86_400_000 {
        assert(left / 86_400_000 == n);
    }
}

/// A received tunnel that is not connected is connected at the port that its sharer would like,
/// unless that is none; one that is unknown or connected is left alone.
pub proof fn received_tunnels_are_connected_once(
    state: TunnelsView,
    id: TunnelId,
    texts: TunnelTexts,
    moment: Moment,
)
    ensures
        ({
            let asked = transition(state, TunnelEvent::ConnectReceivedTunnel(id), texts, moment);
            let waits = state.received.dom().contains(id@) && !state.received[id@].connected;
            let preferred = state.received[id@].offer.preferred_local_port;
            &&& asked.state == state
            &&& !waits ==> asked.effects.len() == 0
            &&& waits ==> asked.effects.len() == 1 && asked.effects[0] is Connect
                && asked.effects[0]->Connect_tunnel_id == id@
            &&& waits && preferred is Some && preferred->0 > 0
                ==> asked.effects[0]->Connect_requested_port == preferred
            &&& waits && (preferred is None || preferred->0 == 0)
                ==> asked.effects[0]->Connect_requested_port is None
        }),
{
}

/// A tunnel that is connected has the address and the listener that it got, and the user is told
/// where that is not the port that was asked for. Nothing else of any tunnel changes.
pub proof fn connected_tunnels_have_their_address(
    state: TunnelsView,
    id: TunnelId,
    address: ListenAddress,
    listener: u64,
    requested: Option<u16>,
    texts: TunnelTexts,
    moment: Moment,
    other: Seq<u8>,
)
    requires
        other != id@,
    ensures
        ({
            let done = transition(
                state,
                TunnelEvent::ReceivedTunnelConnected {
                    tunnel_id: id,
                    local_addr: address,
                    listener,
                    requested_port: requested,
                },
                texts,
                moment,
            );
            let before = state.received[id@];
            let after = done.state.received[id@];
            &&& done.state.received.dom() == state.received.dom()
            &&& done.state.received[other] == state.received[other]
            &&& done.state.shared == state.shared && done.state.requests == state.requests
                && same_entries(state, done.state)
            &&& state.received.dom().contains(id@) ==> after.connected && after.local_addr == Some(
                address@,
            ) && after.listener == Some(listener) && after.live_info && !after.connection_failed
                && after.offer == before.offer && after.sharer == before.sharer
                && after.sharer_label == before.sharer_label
            &&& requested is None || requested->0 == address.port ==> done.effects.len() == 0
            &&& requested is Some && requested->0 != address.port ==> done.effects.len() == 1
                && done.effects[0] is Toast && done.effects[0]->Toast_counter == 200
                && done.effects[0]->Toast_phrase.key == "tunnels.port_unavailable"@
                && done.effects[0]->Toast_phrase.args == seq![
                ("requested"@, text::decimal(requested->0 as nat)),
                ("actual"@, text::decimal(address.port as nat)),
            ]
        }),
{
    let event = TunnelEvent::ReceivedTunnelConnected {
        tunnel_id: id,
        local_addr: address,
        listener,
        requested_port: requested,
    };
    let done = transition(state, event, texts, moment);
    assert(done.state.received.dom() =~= state.received.dom());
    if requested is Some && requested->0 != address.port {
        assert(done.effects[0]->Toast_phrase.args =~= seq![
            ("requested"@, text::decimal(requested->0 as nat)),
            ("actual"@, text::decimal(address.port as nat)),
        ]);
    }
}

/// A tunnel that could not be connected has no address and no listener, is marked as failed, and
/// the user is told why. Nothing else of any tunnel changes.
pub proof fn failed_connections_are_marked(
    state: TunnelsView,
    id: TunnelId,
    message: String,
    texts: TunnelTexts,
    moment: Moment,
    other: Seq<u8>,
)
    requires
        other != id@,
    ensures
        ({
            let done = transition(
                state,
                TunnelEvent::ReceivedTunnelConnectFailed { tunnel_id: id, message },
                texts,
                moment,
            );
            let before = state.received[id@];
            let after = done.state.received[id@];
            &&& done.state.received.dom() == state.received.dom()
            &&& done.state.received[other] == state.received[other]
            &&& done.state.shared == state.shared && done.state.requests == state.requests
            &&& state.received.dom().contains(id@) ==> !after.connected && after.local_addr is None
                && after.listener is None && after.connection_failed && after.offer == before.offer
                && after.sharer == before.sharer && after.sharer_label == before.sharer_label
                && after.live_info == before.live_info
            &&& done.effects.len() == 1 && done.effects[0] is Toast
                && done.effects[0]->Toast_counter == 160 && done.effects[0]->Toast_phrase.key
                == "tunnels.connect_failed"@ && done.effects[0]->Toast_phrase.args == seq![
                ("message"@, message@),
            ]
        }),
{
    let event = TunnelEvent::ReceivedTunnelConnectFailed { tunnel_id: id, message };
    let done = transition(state, event, texts, moment);
    assert(done.state.received.dom() =~= state.received.dom());
    assert(done.effects[0]->Toast_phrase.args =~= seq![("message"@, message@)]);
}

/// A tunnel that is no longer shared is forgotten, whatever went wrong when it was revoked, and
/// the user is told so by the name under which it was shared. Other tunnels stay.
pub proof fn stopped_tunnels_are_forgotten(
    state: TunnelsView,
    id: TunnelId,
    error: Option<String>,
    texts: TunnelTexts,
    moment: Moment,
    other: Seq<u8>,
)
    requires
        other != id@,
    ensures
        ({
            let done = transition(
                state,
                TunnelEvent::StopSharingTunnel { tunnel_id: id, error },
                texts,
                moment,
            );
            let name = if state.shared.dom().contains(id@) {
                state.shared[id@].service_name
            } else {
                texts.service@
            };
            &&& !done.state.shared.dom().contains(id@)
            &&& done.state.shared.dom().contains(other) <==> state.shared.dom().contains(other)
            &&& done.state.shared.dom().contains(other) ==> done.state.shared[other]
                == state.shared[other]
            &&& done.state.received == state.received && done.state.requests == state.requests
            &&& done.effects.len() == 1 && done.effects[0] is Toast
                && done.effects[0]->Toast_counter == 160
            &&& error is None ==> done.effects[0]->Toast_phrase.key == "tunnels.stopped_sharing"@
                && done.effects[0]->Toast_phrase.args == seq![("name"@, name)]
            &&& error is Some ==> done.effects[0]->Toast_phrase.key == "tunnels.stop_failed"@
                && done.effects[0]->Toast_phrase.args == seq![
                ("name"@, name),
                ("error"@, error->0@),
            ]
        }),
{
    let done = transition(
        state,
        TunnelEvent::StopSharingTunnel { tunnel_id: id, error },
        texts,
        moment,
    );
    let name = if state.shared.dom().contains(id@) {
        state.shared[id@].service_name
    } else {
        texts.service@
    };
    if error is None {
        assert(done.effects[0]->Toast_phrase.args =~= seq![("name"@, name)]);
    } else {
        assert(done.effects[0]->Toast_phrase.args =~= seq![("name"@, name), ("error"@, error->0@)]);
    }
}

/// A received tunnel with an address is opened where it is HTTP, and the user is told where it is
/// not; its address is copied as it would be opened. Without an address nothing happens.
pub proof fn addresses_are_opened_and_copied(
    state: TunnelsView,
    id: TunnelId,
    texts: TunnelTexts,
    moment: Moment,
)
    ensures
        ({
            let opened = transition(state, TunnelEvent::OpenReceivedTunnel(id), texts, moment);
            let copied = transition(
                state,
                TunnelEvent::CopyReceivedTunnelAddress(id),
                texts,
                moment,
            );
            let tunnel = state.received[id@];
            let found = state.received.dom().contains(id@) && tunnel.local_addr is Some;
            let shown = tunnel.local_addr->0.shown;
            let toast = EffectView::Toast {
                phrase: phrase::plain("tunnels.address_copied"@),
                counter: 120,
            };
            &&& opened.state == state && copied.state == state
            &&& !found ==> opened.effects.len() == 0 && copied.effects.len() == 0
            &&& found && tunnel.offer.is_http ==> opened.effects == seq![
                EffectView::OpenUrl("http://"@ + shown),
            ] && copied.effects == seq![toast, EffectView::CopyText("http://"@ + shown)]
            &&& found && !tunnel.offer.is_http ==> opened.effects == seq![
                EffectView::Toast { phrase: phrase::plain("tunnels.not_http"@), counter: 160 },
            ] && copied.effects == seq![toast, EffectView::CopyText(shown)]
        }),
{
}

/// An offer counts exactly where its capability is valid and its time is not over. Then it is
/// remembered under its identifier, with who sent it, as one that is not connected; other offers
/// stay, and the user is told who shared what and for how long.
pub proof fn offers_are_remembered_as_sent(
    state: TunnelsView,
    sender: Seq<u8>,
    offer: OfferView,
    label: Seq<char>,
    valid: bool,
    now_ms: u64,
    other: Seq<u8>,
)
    requires
        other != offer.tunnel_id,
    ensures
        ({
            let after = offer_taken(state, sender, offer, label);
            let taken = after.received[offer.tunnel_id];
            &&& offer_counts(valid, offer, now_ms) <==> valid && now_ms < offer.expires_at_ms
            &&& after.received.dom().contains(offer.tunnel_id)
            &&& taken.offer == offer && taken.sharer == sender && taken.sharer_label == label
            &&& !taken.connected && taken.local_addr is None && taken.listener is None
                && !taken.live_info && !taken.connection_failed
            &&& after.received.dom().contains(other) <==> state.received.dom().contains(other)
            &&& after.received[other] == state.received[other]
            &&& after.shared == state.shared && after.requests == state.requests
                && same_entries(state, after)
            &&& offer_text(offer, label, now_ms) == label + " shared "@ + offer.service_name
                + " with you ("@ + tunnel_labels::expiry_text(
                tunnel_labels::span_of(tunnel_labels::remaining_ms(offer.expires_at_ms, now_ms)),
            ) + ")"@
        }),
{
}

/// A tunnel that was offered can be connected, and one that was connected and disconnected again
/// can be connected anew.
pub proof fn offered_tunnels_can_be_connected(
    state: TunnelsView,
    sender: Seq<u8>,
    offer: OfferView,
    label: Seq<char>,
    id: TunnelId,
    texts: TunnelTexts,
    moment: Moment,
)
    requires
        id@ == offer.tunnel_id,
    ensures
        ({
            let after = offer_taken(state, sender, offer, label);
            let gone = transition(
                after,
                TunnelEvent::Message(TunnelsMessage::DisconnectReceivedTunnel(id)),
                texts,
                moment,
            ).state;
            let connect = TunnelEvent::ConnectReceivedTunnel(id);
            &&& transition(after, connect, texts, moment).effects.len() == 1
            &&& transition(gone, connect, texts, moment).effects.len() == 1
        }),
{
}

/// The first port tried is the one that was asked for; then any that is free.
pub proof fn any_free_port_is_the_last_resort(requested: Option<u16>, ports: Vec<u16>)
    requires
        call_ensures(bind_ports, (requested,), ports),
    ensures
        ports@.len() > 0 && ports@.last() == 0,
        requested is Some ==> ports@.len() == 2 && ports@[0] == requested->0,
        requested is None ==> ports@.len() == 1,
{
}

/// Every duration can be chosen, once.
pub proof fn every_duration_can_be_chosen(choices: Vec<TunnelDuration>, duration: TunnelDuration)
    requires
        call_ensures(expiry_choices, (), choices),
    ensures
        choices@.contains(duration),
        choices@.no_duplicates(),
        choices@.len() == 5,
        choices@[0] is TenMinutes && choices@[1] is ThirtyMinutes && choices@[2] is OneHour
            && choices@[3] is EightHours && choices@[4] is UntilExit,
{
    let place: int = match duration {
        TunnelDuration::TenMinutes => 0,
        TunnelDuration::ThirtyMinutes => 1,
        TunnelDuration::OneHour => 2,
        TunnelDuration::EightHours => 3,
        TunnelDuration::UntilExit => 4,
    };
    assert(choices@[place] == duration);
}

/// A hexadecimal digit is told by its code point, in small and in capital letters alike.
pub proof fn hex_digits_have_these_values(c: char)
    ensures
        48 <= c as u32 <= 57 ==> hex_digit(c) == Some((c as u32 - 48) as nat),
        97 <= c as u32 <= 102 ==> hex_digit(c) == Some((c as u32 - 97 + 10) as nat),
        65 <= c as u32 <= 70 ==> hex_digit(c) == Some((c as u32 - 65 + 10) as nat),
        hex_digit(c) is Some ==> 48 <= c as u32 <= 57 || 97 <= c as u32 <= 102 || 65 <= c as u32
            <= 70,
{
}

/// An identifier is written with sixty-four digits, two a byte, the first of them for the
/// sixteens; nothing else writes one.
pub proof fn identifiers_are_sixty_four_digits(s: Seq<char>, i: int)
    ensures
        id_of(s) is Some <==> s.len() == 64 && (forall|k: int|
            0 <= k < s.len() ==> hex_digit(#[trigger] s[k]) is Some),
        id_of(s) is Some && 0 <= i < 32 ==> id_of(s)->0.len() == 32 && id_of(s)->0[i]
            == 16 * hex_digit(s[2 * i])->0 + hex_digit(s[2 * i + 1])->0,
{
    if id_of(s) is Some && 0 <= i < 32 {
        assert(hex_digit(s[2 * i]) is Some && hex_digit(s[2 * i + 1]) is Some);
    }
}

/// Identifiers and ports are read as they are written.
pub proof fn identifiers_and_ports_are_read(
    s: &str,
    id: Option<TunnelId>,
    port: Option<u16>,
)
    requires
        call_ensures(parse_tunnel_id, (s,), id),
        call_ensures(parse_port, (s,), port),
    ensures
        id is Some <==> id_of(s@) is Some,
        id is Some ==> id->0@ == id_of(s@)->0,
        port is Some <==> text::u16_value(text::trimmed(s@)) is Some && text::u16_value(
            text::trimmed(s@),
        ) != Some(0u16),
        port is Some ==> port == text::u16_value(text::trimmed(s@)),
{
}

/// An event makes of the state what its transition does and asks for just the effects of that.
pub proof fn events_are_carried_through(
    state: &mut TunnelsState,
    event: TunnelEvent,
    texts: TunnelTexts,
    moment: Moment,
    effects: Vec<TunnelEffect>,
    i: int,
)
    requires
        call_ensures(
            TunnelsState::update_tunnels_with,
            (state, event, &texts, moment),
            effects,
        ),
    ensures
        final(state)@ == transition(old(state)@, event, texts, moment).state,
        effects@.len() == transition(old(state)@, event, texts, moment).effects.len(),
        0 <= i < effects@.len() ==> effects@[i]@ == transition(
            old(state)@,
            event,
            texts,
            moment,
        ).effects[i],
{
    let views = effect_views(effects@);
    assert(views.len() == effects@.len());
    if 0 <= i < effects@.len() {
        assert(views[i] == effects@[i]@);
    }
}

/// A confirmation creates a tunnel for the duration that stands in the dialog, to the port
/// entered there, under the name entered there, towards the friend whose profile is open.
pub proof fn confirmations_create_what_is_entered(
    state: &mut TunnelsState,
    peer: PeerKey,
    texts: TunnelTexts,
    moment: Moment,
    effects: Vec<TunnelEffect>,
)
    requires
        call_ensures(
            TunnelsState::update_tunnels_with,
            (
                state,
                TunnelEvent::ConfirmShareLocalService { profile: Some(peer), supported: true },
                &texts,
                moment,
            ),
            effects,
        ),
        !old(state)@.submitting,
        old(state)@.name != texts.vnc_service_name@,
        usable_port(old(state)@.port) is Some,
        text::trimmed(old(state)@.name).len() > 0,
    ensures
        effects@.len() == 1,
        effects@[0]@ == (EffectView::CreateTunnel {
            peer: peer@,
            tunnel_id: moment.fresh_id@,
            port: usable_port(old(state)@.port)->0,
            expiry: old(state)@.expiry,
            service_name: text::trimmed(old(state)@.name),
        }),
        final(state)@.submitting,
        final(state)@.share_error is None,
{
    let views = effect_views(effects@);
    assert(views.len() == effects@.len());
    assert(views.len() == 1);
    assert(views[0] == effects@[0]@);
}

/// An offer that does not count changes nothing. One that counts is remembered as it was sent,
/// and the toast about it stays for two hundred.
pub proof fn offers_are_taken_where_they_count(
    state: &mut TunnelsState,
    sender: PeerKey,
    offer: TunnelOffer,
    valid: bool,
    label: &str,
    now_ms: u64,
    accepted: Option<(TunnelId, TunnelEffect)>,
)
    requires
        call_ensures(
            TunnelsState::handle_received_tunnel_offer,
            (state, sender, offer, valid, label, now_ms),
            accepted,
        ),
    ensures
        accepted is Some <==> valid && now_ms < offer.expires_at_ms,
        accepted is None ==> final(state)@ == old(state)@,
        accepted matches Some((id, toast)) ==> {
            let taken = final(state)@.received[offer.tunnel_id@];
            &&& id@ == offer.tunnel_id@
            &&& final(state)@.received.dom().contains(offer.tunnel_id@)
            &&& taken.offer == offer@ && taken.sharer == sender@ && taken.sharer_label == label@
                && !taken.connected && taken.local_addr is None
            &&& final(state)@.shared == old(state)@.shared && final(state)@.requests == old(state)@.requests
            &&& toast@ is ToastText && toast@->ToastText_counter == 200
            &&& toast@->ToastText_shown == label@ + " shared "@ + offer.service_name@
                + " with you ("@ + tunnel_labels::expiry_text(
                tunnel_labels::span_of(tunnel_labels::remaining_ms(offer.expires_at_ms, now_ms)),
            ) + ")"@
        },
{
}

/// The scan starts unless the last one is recent: it is then said to be under way and asked for,
/// behind what was asked for before, at no port at which a received tunnel listens.
pub proof fn scans_start_unless_recent(
    state: &mut TunnelsState,
    recent: bool,
    effects: &mut Vec<TunnelEffect>,
)
    requires
        call_ensures(TunnelsState::start_share_service_scan, (state, recent, effects), ()),
    ensures
        recent ==> final(state)@ == old(state)@ && effect_views(final(effects)@) == effect_views(
            old(effects)@,
        ),
        !recent ==> final(state)@.scanning && effect_views(final(effects)@) == effect_views(
            old(effects)@,
        ).push(EffectView::StartScan { excluded: listening_ports(old(state)@.received) }),
        differ_in_share_dialog_only(old(state)@, final(state)@) && same_entries(
            old(state)@,
            final(state)@,
        ),
{
    let before = effect_views(old(effects)@);
    assert(before + Seq::<EffectView>::empty() =~= before);
    let scan = EffectView::StartScan { excluded: listening_ports(old(state)@.received) };
    assert(before + seq![scan] =~= before.push(scan));
}

} // verus!
