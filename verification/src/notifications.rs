//! Notifications, the in-app toast and the feed of recent activity.

use std::collections::VecDeque;
use vstd::prelude::*;
use vstd::string::*;

use crate::text;

verus! {

/// The most events that the activity feed keeps.
pub const ACTIVITY_CAPACITY: usize = 50;

/// How much one tick takes off the toast's counter.
pub const TOAST_TICK: u32 = 60;

/// The most characters of a message that a notification shows.
pub const PREVIEW_CHARS: usize = 200;

/// A moment of the machine's wall clock.
#[verifier::external_type_specification]
#[verifier::external_body]
pub struct ExSystemTime(std::time::SystemTime);

/// `std::time::SystemTime::now`: the present moment. Nothing is stated of it.
pub assume_specification[ std::time::SystemTime::now ]() -> std::time::SystemTime
;

/// `Clone::clone` of `std::time::SystemTime`, which is `Copy`: the same moment.
pub assume_specification[ <std::time::SystemTime as Clone>::clone ](
    moment: &std::time::SystemTime,
) -> (copy: std::time::SystemTime)
    ensures
        copy == *moment,
;

/// What a recent event was about; it decides the icon.
#[derive(Debug, Clone, Copy, PartialEq, Eq, Structural, Hash)]
pub enum ActivityKind {
    Online,
    Offline,
    FileShared,
    Message,
    Generic,
}

/// An event of the activity feed.
#[derive(Debug)]
pub struct RecentActivityEvent {
    /// What happened, in words.
    pub description: String,
    /// When it happened.
    pub timestamp: std::time::SystemTime,
    /// What it was about.
    pub kind: ActivityKind,
}

impl RecentActivityEvent {
    /// An event of no particular kind that happens now.
    pub fn new(description: &str) -> (event: Self)
        ensures
            event.description@ == description@,
            event.kind == ActivityKind::Generic,
    {
        Self::with_kind(description, ActivityKind::Generic)
    }

    /// An event that happens now.
    pub fn with_kind(description: &str, kind: ActivityKind) -> (event: Self)
        ensures
            event.description@ == description@,
            event.kind == kind,
    {
        RecentActivityEvent {
            description: description.to_owned(),
            timestamp: std::time::SystemTime::now(),
            kind,
        }
    }
}

/// Whether the application's window has the focus.
#[derive(Debug, Clone, Copy, PartialEq, Eq, Structural)]
pub struct WindowFocusTracker {
    pub window_focused: bool,
}

impl WindowFocusTracker {
    /// A tracker for a window that has just opened, and so has the focus.
    pub fn new() -> (tracker: Self)
        ensures
            tracker.window_focused,
    {
        WindowFocusTracker { window_focused: true }
    }

    /// The window got the focus.
    pub fn on_focused(&mut self)
        ensures
            final(self).window_focused,
    {
        self.window_focused = true;
    }

    /// The window lost the focus.
    pub fn on_unfocused(&mut self)
        ensures
            !final(self).window_focused,
    {
        self.window_focused = false;
    }
}

/// What the notifications part of the application is told.
#[derive(Debug, Clone, Copy, PartialEq, Eq, Structural)]
pub enum NotificationsMessage {
    /// The window gained or lost the focus.
    WindowFocusChanged(bool),
    /// The toast is to go.
    DismissToast,
    /// A second has passed.
    ActivityTick,
}

/// The state of the notifications part of the application.
#[derive(Debug)]
pub struct NotificationsState {
    /// Whether the window has the focus.
    pub window_focus_tracker: WindowFocusTracker,
    /// The toast that is shown, if one is.
    pub toast_message: Option<String>,
    /// How long the toast stays: [`TOAST_TICK`] of it go by with a tick.
    pub toast_counter: u32,
    /// The feed, newest event first.
    pub recent_activity: VecDeque<RecentActivityEvent>,
    /// Counts the seconds, so that what shows the time is drawn anew.
    pub activity_tick: u64,
}

/// What a [`NotificationsState`] holds.
pub struct NotificationsView {
    pub window_focused: bool,
    pub toast: Option<Seq<char>>,
    pub counter: u32,
    pub activity: Seq<RecentActivityEvent>,
    pub tick: u64,
}

impl View for NotificationsState {
    type V = NotificationsView;

    open spec fn view(&self) -> NotificationsView {
        NotificationsView {
            window_focused: self.window_focus_tracker.window_focused,
            toast: text::opt_text(self.toast_message),
            counter: self.toast_counter,
            activity: self.recent_activity@,
            tick: self.activity_tick,
        }
    }
}

impl NotificationsView {
    /// The feed is within its capacity.
    pub open spec fn wf(self) -> bool {
        self.activity.len() <= ACTIVITY_CAPACITY
    }

    /// The state with another toast.
    pub open spec fn with_toast(self, toast: Option<Seq<char>>, counter: u32) -> Self {
        NotificationsView { toast, counter, ..self }
    }

    /// What a message makes of the state.
    pub open spec fn updated(self, message: NotificationsMessage) -> Self {
        match message {
            NotificationsMessage::WindowFocusChanged(focused) => NotificationsView {
                window_focused: focused,
                ..self
            },
            NotificationsMessage::DismissToast => self.with_toast(None, 0),
            NotificationsMessage::ActivityTick => NotificationsView {
                tick: if self.tick == u64::MAX {
                    0
                } else {
                    (self.tick + 1) as u64
                },
                ..self
            },
        }
    }

    /// What a tick of the toast's clock makes of the state.
    pub open spec fn toast_ticked(self) -> Self {
        if self.counter == 0 {
            self
        } else if self.counter <= TOAST_TICK {
            self.with_toast(None, 0)
        } else {
            self.with_toast(self.toast, (self.counter - TOAST_TICK) as u32)
        }
    }

    /// The state with one more event at the front of the feed; a full feed loses its last event.
    pub open spec fn with_event(self, event: RecentActivityEvent) -> Self {
        let kept = if self.activity.len() >= ACTIVITY_CAPACITY {
            self.activity.drop_last()
        } else {
            self.activity
        };
        NotificationsView { activity: seq![event] + kept, ..self }
    }
}

impl NotificationsState {
    /// The state at the start: a focused window, no toast, nothing in the feed.
    pub fn new() -> (state: Self)
        ensures
            state@ == (NotificationsView {
                window_focused: true,
                toast: None,
                counter: 0,
                activity: Seq::empty(),
                tick: 0,
            }),
            state@.wf(),
    {
        NotificationsState {
            window_focus_tracker: WindowFocusTracker::new(),
            toast_message: None,
            toast_counter: 0,
            recent_activity: VecDeque::new(),
            activity_tick: 0,
        }
    }

    /// Takes a message into account.
    pub fn update(&mut self, msg: NotificationsMessage)
        ensures
            final(self)@ == old(self)@.updated(msg),
    {
        match msg {
            NotificationsMessage::WindowFocusChanged(focused) => {
                if focused {
                    self.window_focus_tracker.on_focused();
                } else {
                    self.window_focus_tracker.on_unfocused();
                }
            },
            NotificationsMessage::DismissToast => {
                self.toast_message = None;
                self.toast_counter = 0;
            },
            NotificationsMessage::ActivityTick => {
                self.activity_tick = self.activity_tick.wrapping_add(1);
            },
        }
    }

    /// Shows a toast, to stay as long as `counter` says.
    pub fn show_toast(&mut self, message: &str, counter: u32)
        ensures
            final(self)@ == old(self)@.with_toast(Some(message@), counter),
    {
        self.toast_message = Some(message.to_owned());
        self.toast_counter = counter;
    }

    /// Takes the toast away.
    pub fn dismiss_toast(&mut self)
        ensures
            final(self)@ == old(self)@.with_toast(None, 0),
    {
        self.toast_message = None;
        self.toast_counter = 0;
    }

    /// Shows a toast and leaves the counter as it is.
    pub fn show_toast_message(&mut self, message: &str)
        ensures
            final(self)@ == old(self)@.with_toast(Some(message@), old(self)@.counter),
    {
        self.toast_message = Some(message.to_owned());
    }

    /// Lets the toast stay a little longer.
    pub fn bump_toast_counter(&mut self)
        ensures
            final(self)@ == old(self)@.with_toast(
                old(self)@.toast,
                if old(self)@.counter == u32::MAX {
                    0
                } else {
                    (old(self)@.counter + 1) as u32
                },
            ),
    {
        self.toast_counter = self.toast_counter.wrapping_add(1);
    }

    /// Lets the toast's time go by; when it is over, the toast goes.
    pub fn tick_toast_auto_dismiss(&mut self)
        ensures
            final(self)@ == old(self)@.toast_ticked(),
    {
        if self.toast_counter > 0 {
            self.toast_counter = self.toast_counter.saturating_sub(60);
            if self.toast_counter == 0 {
                self.toast_message = None;
            }
        }
    }

    /// Puts an event at the front of the feed.
    pub fn push_event(&mut self, event: RecentActivityEvent)
        ensures
            final(self)@ == old(self)@.with_event(event),
    {
        let ghost before = self.recent_activity@;
        if self.recent_activity.len() >= ACTIVITY_CAPACITY {
            self.recent_activity.pop_back();
            assert(self.recent_activity@ =~= before.drop_last());
        }
        self.recent_activity.push_front(event);
    }

    /// Puts an event that happens now at the front of the feed.
    pub fn push_activity(&mut self, description: &str, kind: ActivityKind)
        ensures
            exists|event: RecentActivityEvent|
                event.description@ == description@ && event.kind == kind && final(self)@
                    == #[trigger] old(self)@.with_event(event),
    {
        let event = RecentActivityEvent::with_kind(description, kind);
        self.push_event(event);
    }
}

/// No operation lets the feed grow over its capacity.
pub proof fn feed_stays_within_capacity(
    state: NotificationsView,
    message: NotificationsMessage,
    event: RecentActivityEvent,
)
    requires
        state.wf(),
    ensures
        state.updated(message).wf(),
        state.toast_ticked().wf(),
        state.with_event(event).wf(),
{
}

/// The event that came last stands first, and the others keep their order.
pub proof fn newest_event_is_first(state: NotificationsView, event: RecentActivityEvent, i: int)
    requires
        state.wf(),
        0 <= i < state.activity.len(),
        i < ACTIVITY_CAPACITY - 1,
    ensures
        state.with_event(event).activity[0] == event,
        state.with_event(event).activity[i + 1] == state.activity[i],
{
}

/// The state after `n` ticks of the toast's clock.
pub open spec fn after_toast_ticks(state: NotificationsView, n: nat) -> NotificationsView
    decreases n,
{
    if n == 0 {
        state
    } else {
        after_toast_ticks(state, (n - 1) as nat).toast_ticked()
    }
}

/// A toast with a counter is shown while its counter lasts and is gone afterwards, and gone for
/// good.
pub proof fn toast_lasts_as_long_as_its_counter(state: NotificationsView, n: nat)
    requires
        state.counter > 0,
    ensures
        n * TOAST_TICK < state.counter ==> after_toast_ticks(state, n).toast == state.toast
            && after_toast_ticks(state, n).counter == state.counter - n * TOAST_TICK,
        n * TOAST_TICK >= state.counter ==> after_toast_ticks(state, n).toast is None
            && after_toast_ticks(state, n).counter == 0,
    decreases n,
{
    if n > 0 {
        toast_lasts_as_long_as_its_counter(state, (n - 1) as nat);
        let earlier = after_toast_ticks(state, (n - 1) as nat);
        assert((n - 1) * TOAST_TICK == n * TOAST_TICK - TOAST_TICK) by (nonlinear_arith);
    }
}

/// The toast and the feed do not disturb each other.
pub proof fn toast_and_feed_are_independent(
    state: NotificationsView,
    toast: Option<Seq<char>>,
    counter: u32,
    event: RecentActivityEvent,
)
    ensures
        state.with_toast(toast, counter).activity == state.activity,
        state.with_event(event).toast == state.toast,
        state.with_event(event).counter == state.counter,
        state.with_toast(toast, counter).with_event(event) == state.with_event(event).with_toast(
            toast,
            counter,
        ),
{
}

/// A message as far as a notification shows it.
#[derive(Debug)]
pub enum ChatMessage {
    /// Plain text.
    Text(String),
    /// Text with structured mentions.
    TextWithMentions(String),
    /// A shared file, by name.
    FileShare(String),
    /// An offered file, by name.
    FileOffer(String),
    /// A shared picture.
    ImageShare,
    /// A shared animation.
    SharedGif,
    /// Anything else.
    Other,
}

/// Where mentions of the local user are looked for in a message.
#[derive(Debug, Clone, Copy, PartialEq, Eq, Structural)]
pub enum MentionSource {
    /// In the structured mentions.
    Structured,
    /// In the text, by name.
    ByName,
    /// Nowhere.
    Nowhere,
}

/// Where mentions of the local user are looked for.
pub fn mention_source(message: &ChatMessage) -> (source: MentionSource)
    ensures
        source == (match message {
            ChatMessage::TextWithMentions(_) => MentionSource::Structured,
            ChatMessage::Text(_) => MentionSource::ByName,
            _ => MentionSource::Nowhere,
        }),
{
    match message {
        ChatMessage::TextWithMentions(_) => MentionSource::Structured,
        ChatMessage::Text(_) => MentionSource::ByName,
        _ => MentionSource::Nowhere,
    }
}

/// Someone who can be mentioned.
#[derive(Debug)]
pub struct MentionMember {
    pub key: [u8; 32],
    pub name: String,
}

/// What a [`MentionMember`] holds.
pub open spec fn member_view(member: MentionMember) -> (Seq<u8>, Seq<char>) {
    (member.key@, member.name@)
}

/// What each member of a list holds.
pub open spec fn member_views(members: Seq<MentionMember>) -> Seq<(Seq<u8>, Seq<char>)> {
    members.map_values(|m: MentionMember| member_view(m))
}

/// Those who can be mentioned in a conversation: the local user, then the neighbours.
pub fn mention_members(local: MentionMember, neighbors: &Vec<MentionMember>) -> (members: Vec<
    MentionMember,
>)
    ensures
        member_views(members@) == seq![member_view(local)] + member_views(neighbors@),
{
    let mut members: Vec<MentionMember> = Vec::new();
    let ghost first = member_view(local);
    members.push(local);
    let mut i: usize = 0;
    while i < neighbors.len()
        invariant
            i <= neighbors.len(),
            member_views(members@) == seq![first] + member_views(neighbors@.take(i as int)),
        decreases neighbors.len() - i,
    {
        let ghost before = member_views(members@);
        let copy = MentionMember { key: neighbors[i].key, name: neighbors[i].name.clone() };
        members.push(copy);
        proof {
            assert(member_views(members@) =~= before.push(member_view(neighbors@[i as int])));
            assert(member_views(neighbors@.take(i + 1)) =~= member_views(
                neighbors@.take(i as int),
            ).push(member_view(neighbors@[i as int])));
        }
        i += 1;
    }
    assert(neighbors@.take(neighbors@.len() as int) =~= neighbors@);
    members
}

/// What the application does when a notification is pressed.
#[derive(Debug, Clone, Copy)]
pub enum NotificationTarget {
    /// Opens the conversation on a topic.
    OpenConversation([u8; 32]),
    /// Opens the list of chats.
    OpenChatList,
}

/// What a notification is about.
#[derive(Debug, Clone, Copy, PartialEq, Eq, Structural)]
pub enum NotificationKind {
    NewMessage,
    IncomingCall,
}

/// How urgent a notification is.
#[derive(Debug, Clone, Copy, PartialEq, Eq, Structural)]
pub enum NotificationPriority {
    Normal,
    High,
}

/// A notification to be shown.
#[derive(Debug)]
pub struct NotificationEvent {
    pub kind: NotificationKind,
    pub peer: [u8; 32],
    pub topic: Option<[u8; 32]>,
    pub title: String,
    pub body: String,
    pub target: NotificationTarget,
    pub priority: NotificationPriority,
}

/// What is known of a conversation.
#[derive(Debug)]
pub struct ConversationInfo {
    pub is_group: bool,
    pub name: String,
}

/// What a message looks like in a notification.
pub open spec fn message_body(message: ChatMessage) -> Seq<char> {
    match message {
        ChatMessage::Text(body) => body@,
        ChatMessage::TextWithMentions(body) => body@,
        ChatMessage::FileShare(name) => "File: "@ + name@,
        ChatMessage::FileOffer(name) => "File: "@ + name@,
        ChatMessage::ImageShare => "Image"@,
        ChatMessage::SharedGif => "GIF"@,
        _ => "New message"@,
    }
}

/// The first characters of a text.
pub open spec fn preview_of(body: Seq<char>) -> Seq<char> {
    body.take(
        if PREVIEW_CHARS <= body.len() {
            PREVIEW_CHARS as int
        } else {
            body.len() as int
        },
    )
}

/// The name of the group that a conversation is, `None` where it is not a group.
pub open spec fn group_name(conversation: Option<ConversationInfo>) -> Option<Seq<char>> {
    match conversation {
        Some(info) => if !info.is_group {
            None
        } else if info.name@.len() == 0 {
            Some("Group"@)
        } else {
            Some(info.name@)
        },
        None => None,
    }
}

/// The title and body of the notification of a message: in a group, its name and who says what;
/// else, who says it and what.
pub open spec fn notice_text(
    group: Option<Seq<char>>,
    sender: Seq<char>,
    preview: Seq<char>,
) -> (Seq<char>, Seq<char>) {
    match group {
        Some(name) => (name, sender + ": "@ + preview),
        None => (sender, preview),
    }
}

/// What a message looks like in a notification.
fn body_of_message(message: &ChatMessage) -> (body: String)
    ensures
        body@ == message_body(*message),
{
    match message {
        ChatMessage::Text(body) => body.clone(),
        ChatMessage::TextWithMentions(body) => body.clone(),
        ChatMessage::FileShare(name) => {
            let mut body = "File: ".to_owned();
            body.append(name.as_str());
            body
        },
        ChatMessage::FileOffer(name) => {
            let mut body = "File: ".to_owned();
            body.append(name.as_str());
            body
        },
        ChatMessage::ImageShare => "Image".to_owned(),
        ChatMessage::SharedGif => "GIF".to_owned(),
        _ => "New message".to_owned(),
    }
}

/// The notification of a message, unless message notifications are switched off.
pub fn emit_message_notification(
    messages_enabled: bool,
    conversation: &Option<ConversationInfo>,
    topic: [u8; 32],
    from: [u8; 32],
    sender_name: &str,
    message: &ChatMessage,
) -> (event: Option<NotificationEvent>)
    ensures
        event is Some <==> messages_enabled,
        event matches Some(e) ==> {
            &&& e.kind == NotificationKind::NewMessage
            &&& e.peer == from
            &&& e.topic == Some(topic)
            &&& e.target == NotificationTarget::OpenConversation(topic)
            &&& e.priority == NotificationPriority::Normal
            &&& (e.title@, e.body@) == notice_text(
                group_name(*conversation),
                sender_name@,
                preview_of(message_body(*message)),
            )
        },
{
    if !messages_enabled {
        return None;
    }
    let body = body_of_message(message);
    let preview = text::first_chars(body.as_str(), PREVIEW_CHARS);
    let group: Option<String> = match conversation {
        Some(info) => if !info.is_group {
            None
        } else if info.name.as_str().is_empty() {
            Some("Group".to_owned())
        } else {
            Some(info.name.clone())
        },
        None => None,
    };
    let (title, shown) = match group {
        Some(name) => {
            let mut line = sender_name.to_owned();
            line.append(": ");
            line.append(preview.as_str());
            (name, line)
        },
        None => (sender_name.to_owned(), preview),
    };
    Some(
        NotificationEvent {
            kind: NotificationKind::NewMessage,
            peer: from,
            topic: Some(topic),
            title,
            body: shown,
            target: NotificationTarget::OpenConversation(topic),
            priority: NotificationPriority::Normal,
        },
    )
}

/// The notification of an incoming call, which is urgent.
pub fn emit_incoming_call_notification(peer: [u8; 32], peer_name: &str) -> (event:
    NotificationEvent)
    ensures
        event.kind == NotificationKind::IncomingCall,
        event.peer == peer,
        event.topic is None,
        event.title@ == peer_name@,
        event.body@ == "Incoming call"@,
        event.target == NotificationTarget::OpenChatList,
        event.priority == NotificationPriority::High,
{
    NotificationEvent {
        kind: NotificationKind::IncomingCall,
        peer,
        topic: None,
        title: peer_name.to_owned(),
        body: "Incoming call".to_owned(),
        target: NotificationTarget::OpenChatList,
        priority: NotificationPriority::High,
    }
}

/// Each message changes what it is about and nothing else: the focus, the toast with its counter,
/// or the tick, which goes round after the largest number.
pub proof fn messages_change_what_they_are_about(state: NotificationsView, focused: bool)
    ensures
        ({
            let focus = state.updated(NotificationsMessage::WindowFocusChanged(focused));
            let dismissed = state.updated(NotificationsMessage::DismissToast);
            let ticked = state.updated(NotificationsMessage::ActivityTick);
            &&& focus.window_focused == focused && focus.toast == state.toast && focus.counter
                == state.counter && focus.activity == state.activity && focus.tick == state.tick
            &&& dismissed.toast is None && dismissed.counter == 0 && dismissed.window_focused
                == state.window_focused && dismissed.activity == state.activity && dismissed.tick
                == state.tick
            &&& state.tick < u64::MAX ==> ticked.tick == state.tick + 1
            &&& state.tick == u64::MAX ==> ticked.tick == 0
            &&& ticked.toast == state.toast && ticked.counter == state.counter && ticked.activity
                == state.activity && ticked.window_focused == state.window_focused
        }),
{
}

/// A toast that is shown is the one given, for as long as given, and nothing else changes; each
/// tick takes sixty off its counter, and at nothing it is gone.
pub proof fn toasts_are_shown_and_run_out(
    state: NotificationsView,
    toast: Option<Seq<char>>,
    counter: u32,
)
    ensures
        ({
            let shown = state.with_toast(toast, counter);
            let later = shown.toast_ticked();
            &&& shown.toast == toast && shown.counter == counter
            &&& shown.activity == state.activity && shown.tick == state.tick
                && shown.window_focused == state.window_focused
            &&& counter > 60 ==> later.toast == toast && later.counter == counter - 60
            &&& 0 < counter <= 60 ==> later.toast is None && later.counter == 0
            &&& counter == 0 ==> later.toast == toast && later.counter == 0
            &&& later.activity == state.activity && later.tick == state.tick && later.window_focused
                == state.window_focused
        }),
{
}

/// The feed holds fifty events at most: a new one comes first and takes the place of the oldest
/// where the feed is full; nothing else changes.
pub proof fn the_oldest_event_makes_room(state: NotificationsView, event: RecentActivityEvent)
    ensures
        ({
            let after = state.with_event(event);
            &&& after.activity.len() > 0 && after.activity[0] == event
            &&& state.activity.len() < 50 ==> after.activity.skip(1) == state.activity
            &&& state.activity.len() >= 50 ==> after.activity.skip(1)
                == state.activity.drop_last()
            &&& after.toast == state.toast && after.counter == state.counter && after.tick
                == state.tick && after.window_focused == state.window_focused
        }),
{
    let after = state.with_event(event);
    if state.activity.len() < 50 {
        assert(after.activity.skip(1) =~= state.activity);
    } else {
        assert(after.activity.skip(1) =~= state.activity.drop_last());
    }
}

/// At the start the window has the focus, no toast is shown and nothing has happened.
pub proof fn notifications_start_quiet(state: NotificationsState, tracker: WindowFocusTracker)
    requires
        call_ensures(NotificationsState::new, (), state),
        call_ensures(WindowFocusTracker::new, (), tracker),
    ensures
        state@.window_focused && state@.toast is None && state@.counter == 0,
        state@.activity.len() == 0 && state@.tick == 0,
        tracker.window_focused,
{
}

/// Mentions are looked for where a message can hold them: among the structured ones, or in plain
/// text by name; nowhere in what is no text.
pub proof fn mentions_are_looked_for_in_texts(message: ChatMessage, source: MentionSource)
    requires
        call_ensures(mention_source, (&message,), source),
    ensures
        source is Structured <==> message is TextWithMentions,
        source is ByName <==> message is Text,
        source is Nowhere <==> !(message is Text || message is TextWithMentions),
{
}

/// The local user can be mentioned, and so can every neighbour, in order and each by their own
/// key and name.
pub proof fn everyone_here_can_be_mentioned(
    local: MentionMember,
    neighbors: Vec<MentionMember>,
    members: Vec<MentionMember>,
    i: int,
)
    requires
        call_ensures(mention_members, (local, &neighbors), members),
    ensures
        members@.len() == neighbors@.len() + 1,
        members@[0].key@ == local.key@ && members@[0].name@ == local.name@,
        0 <= i < neighbors@.len() ==> members@[i + 1].key@ == neighbors@[i].key@ && members@[i
            + 1].name@ == neighbors@[i].name@,
{
    let views = member_views(members@);
    assert(views.len() == members@.len());
    assert(member_views(neighbors@).len() == neighbors@.len());
    assert(views[0] == member_view(members@[0]));
    if 0 <= i < neighbors@.len() {
        assert(views[i + 1] == member_view(members@[i + 1]));
        assert(member_views(neighbors@)[i] == member_view(neighbors@[i]));
    }
}

/// A message gives a notification exactly where those are switched on. It is titled with the
/// group's name, or `Group` where that has none, and says who wrote what; outside a group it is
/// titled with the sender. It opens the conversation.
pub proof fn messages_are_notified_of(
    enabled: bool,
    conversation: Option<ConversationInfo>,
    topic: [u8; 32],
    from: [u8; 32],
    sender: &str,
    message: ChatMessage,
    event: Option<NotificationEvent>,
)
    requires
        call_ensures(
            emit_message_notification,
            (enabled, &conversation, topic, from, sender, &message),
            event,
        ),
    ensures
        event is Some <==> enabled,
        event matches Some(e) ==> {
            let preview = preview_of(message_body(message));
            let group = conversation is Some && conversation->0.is_group;
            let named = group && conversation->0.name@.len() > 0;
            &&& !group ==> e.title@ == sender@ && e.body@ == preview
            &&& group ==> e.body@ == sender@ + ": "@ + preview
            &&& named ==> e.title@ == conversation->0.name@
            &&& group && !named ==> e.title@ == "Group"@
            &&& e.peer == from && e.topic == Some(topic)
            &&& e.target == NotificationTarget::OpenConversation(topic)
            &&& e.kind is NewMessage && e.priority is Normal
        },
{
}

/// What a message says is shown where it is text; of a file its name, of a picture and an
/// animation that they are one; of anything else only that there is a message. At most two
/// hundred characters are shown, the first.
pub proof fn previews_say_what_a_message_is(message: ChatMessage, i: int)
    ensures
        ({
            let body = message_body(message);
            &&& message matches ChatMessage::Text(said) ==> body == said@
            &&& message matches ChatMessage::TextWithMentions(said) ==> body == said@
            &&& message matches ChatMessage::FileShare(name) ==> body == "File: "@ + name@
            &&& message matches ChatMessage::FileOffer(name) ==> body == "File: "@ + name@
            &&& message is ImageShare ==> body == "Image"@
            &&& message is SharedGif ==> body == "GIF"@
            &&& message is Other ==> body == "New message"@
            &&& body.len() <= 200 ==> preview_of(body) == body
            &&& body.len() > 200 ==> preview_of(body).len() == 200
            &&& 0 <= i < preview_of(body).len() ==> preview_of(body)[i] == body[i]
        }),
{
    let body = message_body(message);
    if body.len() <= 200 {
        assert(preview_of(body) =~= body);
    }
}

/// A call is notified of as urgent, under the caller's name, and leads to the list of chats.
pub proof fn calls_are_urgent(peer: [u8; 32], name: &str, event: NotificationEvent)
    requires
        call_ensures(emit_incoming_call_notification, (peer, name), event),
    ensures
        event.kind is IncomingCall && event.priority is High,
        event.peer == peer && event.topic is None,
        event.title@ == name@ && event.body@ == "Incoming call"@,
        event.target is OpenChatList,
{
}

/// A toast is shown with its text and its counter, or with its text alone, which leaves the
/// counter as it is; it is dismissed with both. Nothing else changes.
pub proof fn toasts_are_shown_as_asked(
    shown: &mut NotificationsState,
    named: &mut NotificationsState,
    dismissed: &mut NotificationsState,
    bumped: &mut NotificationsState,
    ticked: &mut NotificationsState,
    message: &str,
    counter: u32,
)
    requires
        call_ensures(NotificationsState::show_toast, (shown, message, counter), ()),
        call_ensures(NotificationsState::show_toast_message, (named, message), ()),
        call_ensures(NotificationsState::dismiss_toast, (dismissed,), ()),
        call_ensures(NotificationsState::bump_toast_counter, (bumped,), ()),
        call_ensures(NotificationsState::tick_toast_auto_dismiss, (ticked,), ()),
    ensures
        final(shown)@.toast == Some(message@) && final(shown)@.counter == counter,
        final(shown)@.activity == old(shown)@.activity && final(shown)@.tick == old(shown)@.tick
            && final(shown)@.window_focused == old(shown)@.window_focused,
        final(named)@.toast == Some(message@) && final(named)@.counter == old(named)@.counter,
        final(named)@.activity == old(named)@.activity && final(named)@.tick == old(named)@.tick,
        final(dismissed)@.toast is None && final(dismissed)@.counter == 0,
        final(dismissed)@.activity == old(dismissed)@.activity,
        old(bumped)@.counter < u32::MAX ==> final(bumped)@.counter == old(bumped)@.counter + 1,
        old(bumped)@.counter == u32::MAX ==> final(bumped)@.counter == 0,
        final(bumped)@.toast == old(bumped)@.toast,
        old(ticked)@.counter > 60 ==> final(ticked)@.toast == old(ticked)@.toast
            && final(ticked)@.counter == old(ticked)@.counter - 60,
        0 < old(ticked)@.counter <= 60 ==> final(ticked)@.toast is None && final(ticked)@.counter
            == 0,
        old(ticked)@.counter == 0 ==> final(ticked)@ == old(ticked)@,
{
}

/// What happens comes first in the feed, with its description and its kind; a message is taken
/// into account, and the window's focus is kept track of.
pub proof fn what_happens_is_taken_into_account(
    pushed: &mut NotificationsState,
    happened: &mut NotificationsState,
    updated: &mut NotificationsState,
    focused: &mut WindowFocusTracker,
    unfocused: &mut WindowFocusTracker,
    event: RecentActivityEvent,
    description: &str,
    kind: ActivityKind,
    message: NotificationsMessage,
    made: RecentActivityEvent,
    plain: RecentActivityEvent,
)
    requires
        call_ensures(NotificationsState::push_event, (pushed, event), ()),
        call_ensures(NotificationsState::push_activity, (happened, description, kind), ()),
        call_ensures(NotificationsState::update, (updated, message), ()),
        call_ensures(WindowFocusTracker::on_focused, (focused,), ()),
        call_ensures(WindowFocusTracker::on_unfocused, (unfocused,), ()),
        call_ensures(RecentActivityEvent::with_kind, (description, kind), made),
        call_ensures(RecentActivityEvent::new, (description,), plain),
    ensures
        final(pushed)@.activity.len() > 0 && final(pushed)@.activity[0] == event,
        final(pushed)@ == old(pushed)@.with_event(event),
        final(happened)@.activity.len() > 0,
        final(happened)@.activity[0].description@ == description@ && final(happened)@.activity[0].kind == kind,
        final(happened)@.toast == old(happened)@.toast && final(happened)@.counter == old(happened)@.counter,
        final(updated)@ == old(updated)@.updated(message),
        final(focused).window_focused && !final(unfocused).window_focused,
        made.description@ == description@ && made.kind == kind,
        plain.description@ == description@ && plain.kind is Generic,
{
}

} // verus!
