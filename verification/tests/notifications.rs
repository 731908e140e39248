use boru::network_connection::{network_connected, transport_label};
use boru::notifications::{
    emit_incoming_call_notification, emit_message_notification, mention_members, mention_source,
    ActivityKind, ChatMessage, ConversationInfo, MentionMember, MentionSource,
    NotificationKind, NotificationPriority, NotificationTarget, NotificationsMessage,
    NotificationsState, RecentActivityEvent,
};

fn state() -> NotificationsState {
    NotificationsState::new()
}

#[test]
fn relay_is_connected_without_an_open_chat_or_peer() {
    assert!(network_connected(true, false));
    assert_eq!(
        transport_label(true, 0, 0),
        "Relay connected · waiting for peers"
    );
}

#[test]
fn disconnect_does_not_stick_and_direct_only_connections_work() {
    assert!(!network_connected(false, false));
    assert!(network_connected(false, true));
}

#[test]
fn transport_labels_do_not_claim_direct_connectivity_for_relay() {
    assert_eq!(transport_label(true, 0, 1), "Relayed P2P");
    assert_eq!(transport_label(false, 1, 0), "Direct P2P");
    assert_eq!(transport_label(true, 1, 1), "Direct + relayed P2P");
    assert_eq!(transport_label(false, 0, 0), "Waiting for connection");
}

#[test]
fn window_focus_changed_updates_focus_tracker() {
    let mut s = state();
    assert!(s.window_focus_tracker.window_focused);
    s.update(NotificationsMessage::WindowFocusChanged(false));
    assert!(!s.window_focus_tracker.window_focused);
    s.update(NotificationsMessage::WindowFocusChanged(true));
    assert!(s.window_focus_tracker.window_focused);
}

#[test]
fn dismiss_toast_clears_message_and_counter() {
    let mut s = state();
    s.show_toast("hello", 160);
    assert_eq!(s.toast_message.as_deref(), Some("hello"));
    assert_eq!(s.toast_counter, 160);
    s.update(NotificationsMessage::DismissToast);
    assert!(s.toast_message.is_none());
    assert_eq!(s.toast_counter, 0);
}

#[test]
fn activity_tick_bumps_the_revision() {
    let mut s = state();
    assert_eq!(s.activity_tick, 0);
    s.update(NotificationsMessage::ActivityTick);
    assert_eq!(s.activity_tick, 1);
    s.update(NotificationsMessage::ActivityTick);
    assert_eq!(s.activity_tick, 2);
}

#[test]
fn toast_auto_dismiss_expires_after_counter_elapses() {
    let mut s = state();
    s.show_toast("temporary", 120);
    s.tick_toast_auto_dismiss();
    assert_eq!(s.toast_counter, 60);
    assert!(s.toast_message.is_some());
    s.tick_toast_auto_dismiss();
    assert_eq!(s.toast_counter, 0);
    assert!(s.toast_message.is_none());
    s.tick_toast_auto_dismiss();
    assert!(s.toast_message.is_none());
}

#[test]
fn push_activity_keeps_newest_first_ring_buffer() {
    let mut s = state();
    for i in 0..5 {
        s.push_activity(&format!("event {i}"), ActivityKind::Generic);
    }
    assert_eq!(s.recent_activity.len(), 5);
    assert_eq!(s.recent_activity[0].description, "event 4");
    assert_eq!(s.recent_activity[4].description, "event 0");
}

#[test]
fn push_activity_caps_at_50_events() {
    let mut s = state();
    for i in 0..60 {
        s.push_activity(&format!("event {i}"), ActivityKind::Message);
    }
    assert_eq!(s.recent_activity.len(), 50);
    assert_eq!(s.recent_activity[0].description, "event 59");
    assert_eq!(s.recent_activity[49].description, "event 10");
}

#[test]
fn show_toast_with_kind_does_not_disturb_activity() {
    let mut s = state();
    s.push_activity("online", ActivityKind::Online);
    s.show_toast("toast", 160);
    assert_eq!(s.recent_activity.len(), 1);
    assert_eq!(s.toast_message.as_deref(), Some("toast"));
}

#[test]
fn a_toast_without_a_counter_stays() {
    let mut s = state();
    s.show_toast_message("stays");
    s.tick_toast_auto_dismiss();
    assert_eq!(s.toast_message.as_deref(), Some("stays"));
    s.bump_toast_counter();
    assert_eq!(s.toast_counter, 1);
    s.tick_toast_auto_dismiss();
    assert!(s.toast_message.is_none());
    s.show_toast("again", 60);
    s.dismiss_toast();
    assert!(s.toast_message.is_none());
    assert_eq!(s.toast_counter, 0);
}

#[test]
fn an_event_without_a_kind_is_generic() {
    let event = RecentActivityEvent::new("something");
    assert_eq!(event.description, "something");
    assert_eq!(event.kind, ActivityKind::Generic);
}

#[test]
fn a_group_message_names_the_group_and_the_sender() {
    let group = Some(ConversationInfo { is_group: true, name: "Team".to_string() });
    let event = emit_message_notification(
        true,
        &group,
        [1; 32],
        [2; 32],
        "Ada",
        &ChatMessage::Text("hi".to_string()),
    )
    .unwrap();
    assert_eq!(event.title, "Team");
    assert_eq!(event.body, "Ada: hi");
    assert_eq!(event.kind, NotificationKind::NewMessage);
    assert_eq!(event.priority, NotificationPriority::Normal);
    assert!(matches!(event.target, NotificationTarget::OpenConversation(t) if t == [1; 32]));
    let nameless = Some(ConversationInfo { is_group: true, name: String::new() });
    let event = emit_message_notification(
        true,
        &nameless,
        [1; 32],
        [2; 32],
        "Ada",
        &ChatMessage::ImageShare,
    )
    .unwrap();
    assert_eq!((event.title.as_str(), event.body.as_str()), ("Group", "Ada: Image"));
}

#[test]
fn a_direct_message_names_the_sender_and_is_cut() {
    let body = "é".repeat(250);
    let event = emit_message_notification(
        true,
        &None,
        [1; 32],
        [2; 32],
        "Ada",
        &ChatMessage::Text(body),
    )
    .unwrap();
    assert_eq!(event.title, "Ada");
    assert_eq!(event.body, "é".repeat(200));
    let shown = |message: ChatMessage| {
        emit_message_notification(true, &None, [1; 32], [2; 32], "Ada", &message).unwrap().body
    };
    assert_eq!(shown(ChatMessage::FileShare("a.txt".to_string())), "File: a.txt");
    assert_eq!(shown(ChatMessage::FileOffer("b.txt".to_string())), "File: b.txt");
    assert_eq!(shown(ChatMessage::SharedGif), "GIF");
    assert_eq!(shown(ChatMessage::TextWithMentions("@you".to_string())), "@you");
    assert_eq!(shown(ChatMessage::Other), "New message");
    assert!(emit_message_notification(
        false,
        &None,
        [1; 32],
        [2; 32],
        "Ada",
        &ChatMessage::Other
    )
    .is_none());
}

#[test]
fn a_call_is_urgent() {
    let event = emit_incoming_call_notification([9; 32], "Ada");
    assert_eq!(event.kind, NotificationKind::IncomingCall);
    assert_eq!(event.priority, NotificationPriority::High);
    assert_eq!(event.title, "Ada");
    assert_eq!(event.body, "Incoming call");
    assert!(event.topic.is_none());
    assert!(matches!(event.target, NotificationTarget::OpenChatList));
}

#[test]
fn mentions_are_looked_for_where_they_can_be() {
    assert_eq!(mention_source(&ChatMessage::Text("@a".to_string())), MentionSource::ByName);
    assert_eq!(
        mention_source(&ChatMessage::TextWithMentions("@a".to_string())),
        MentionSource::Structured
    );
    assert_eq!(mention_source(&ChatMessage::ImageShare), MentionSource::Nowhere);
    let members = mention_members(
        MentionMember { key: [1; 32], name: "me".to_string() },
        &vec![MentionMember { key: [2; 32], name: "you".to_string() }],
    );
    assert_eq!(members.len(), 2);
    assert_eq!(members[0].name, "me");
    assert_eq!(members[1].name, "you");
    assert_eq!(members[1].key, [2; 32]);
}
