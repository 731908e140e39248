//! How tunnels are described to the user.

use vstd::prelude::*;
use vstd::string::*;

use crate::preview_target::IpAddress;
use crate::text;

verus! {

/// The milliseconds of a minute.
pub const MINUTE_MS: u64 = 60_000;

/// The milliseconds of an hour.
pub const HOUR_MS: u64 = 3_600_000;

/// The milliseconds of a day.
pub const DAY_MS: u64 = 86_400_000;

/// What stands between the parts of a status line.
pub const PART_SEPARATOR: &'static str = " · ";

/// The state of a tunnel.
#[derive(Debug, Clone, Copy, PartialEq, Eq, Structural, Hash)]
pub enum TunnelStatus {
    Active,
    Connecting,
    Connected,
    Revoked,
    Failed,
    Disconnected,
    Reconnecting,
}

/// How the peer of a tunnel is reached.
#[derive(Debug, Clone, Copy, PartialEq, Eq, Structural, Hash)]
pub enum TunnelRoute {
    Direct,
    Relay,
    Unknown,
}

/// The part that a colour plays; the theme gives each part a colour.
#[derive(Debug, Clone, Copy, PartialEq, Eq, Structural, Hash)]
pub enum ColorRole {
    AccentPrimary,
    AccentGreen,
    Warning,
    Error,
    Muted,
}

/// A span of time in its largest whole unit.
pub enum Span {
    Days(u64),
    Hours(u64),
    Minutes(u64),
    LessThanMinute,
    Nothing,
}

/// The time from `now_ms` to `expires_at_ms`, nothing where that is past.
pub open spec fn remaining_ms(expires_at_ms: u64, now_ms: u64) -> u64 {
    if expires_at_ms >= now_ms {
        (expires_at_ms - now_ms) as u64
    } else {
        0
    }
}

/// A span of milliseconds in its largest whole unit.
pub open spec fn span_of(ms: u64) -> Span {
    if ms >= DAY_MS {
        Span::Days(ms / DAY_MS)
    } else if ms >= HOUR_MS {
        Span::Hours(ms / HOUR_MS)
    } else if ms >= MINUTE_MS {
        Span::Minutes(ms / MINUTE_MS)
    } else if ms > 0 {
        Span::LessThanMinute
    } else {
        Span::Nothing
    }
}

/// The time left, in its largest whole unit.
pub fn time_left(expires_at_ms: u64, now_ms: u64) -> (span: Span)
    ensures
        span == span_of(remaining_ms(expires_at_ms, now_ms)),
{
    let remaining = expires_at_ms.saturating_sub(now_ms);
    if remaining >= DAY_MS {
        Span::Days(remaining / DAY_MS)
    } else if remaining >= HOUR_MS {
        Span::Hours(remaining / HOUR_MS)
    } else if remaining >= MINUTE_MS {
        Span::Minutes(remaining / MINUTE_MS)
    } else if remaining > 0 {
        Span::LessThanMinute
    } else {
        Span::Nothing
    }
}

/// The unit is the largest that fits, and what it leaves out is less than one more of it.
pub proof fn span_is_the_largest_unit(ms: u64)
    ensures
        match span_of(ms) {
            Span::Days(n) => n >= 1 && n * DAY_MS <= ms < (n + 1) * DAY_MS,
            Span::Hours(n) => 1 <= n < 24 && n * HOUR_MS <= ms < (n + 1) * HOUR_MS,
            Span::Minutes(n) => 1 <= n < 60 && n * MINUTE_MS <= ms < (n + 1) * MINUTE_MS,
            Span::LessThanMinute => 0 < ms < MINUTE_MS,
            Span::Nothing => ms == 0,
        },
{
}

/// A number between two texts.
pub open spec fn counted(before: Seq<char>, n: u64, after: Seq<char>) -> Seq<char> {
    before + text::decimal(n as nat) + after
}

/// A number between two texts.
fn count_text(before: &str, n: u64, after: &str) -> (out: String)
    ensures
        out@ == counted(before@, n, after@),
{
    let mut out = before.to_owned();
    let number = text::decimal_text(n);
    out.append(number.as_str());
    out.append(after);
    out
}

/// The time left of a tunnel, in words.
pub open spec fn remaining_text(span: Span) -> Seq<char> {
    match span {
        Span::Days(n) => counted(""@, n, " days remaining"@),
        Span::Hours(n) => counted(""@, n, " hours remaining"@),
        Span::Minutes(n) => counted(""@, n, " minutes remaining"@),
        Span::LessThanMinute => "less than a minute remaining"@,
        Span::Nothing => "Expired"@,
    }
}

/// When a tunnel expires, in words.
pub open spec fn expiry_text(span: Span) -> Seq<char> {
    match span {
        Span::Days(n) => counted("Expires in "@, n, " days"@),
        Span::Hours(n) => counted("Expires in "@, n, " hours"@),
        Span::Minutes(n) => counted("Expires in "@, n, " minutes"@),
        Span::LessThanMinute => "Expires in less than a minute"@,
        Span::Nothing => "Expired"@,
    }
}

/// The time left of a tunnel, as in "38 minutes remaining".
pub fn tunnel_remaining_label(expires_at_ms: u64, now_ms: u64) -> (label: String)
    ensures
        label@ == remaining_text(span_of(remaining_ms(expires_at_ms, now_ms))),
{
    match time_left(expires_at_ms, now_ms) {
        Span::Days(n) => count_text("", n, " days remaining"),
        Span::Hours(n) => count_text("", n, " hours remaining"),
        Span::Minutes(n) => count_text("", n, " minutes remaining"),
        Span::LessThanMinute => "less than a minute remaining".to_owned(),
        Span::Nothing => "Expired".to_owned(),
    }
}

/// When a tunnel expires, as in "Expires in 42 minutes".
pub fn tunnel_expiry_label(expires_at_ms: u64, now_ms: u64) -> (label: String)
    ensures
        label@ == expiry_text(span_of(remaining_ms(expires_at_ms, now_ms))),
{
    match time_left(expires_at_ms, now_ms) {
        Span::Days(n) => count_text("Expires in ", n, " days"),
        Span::Hours(n) => count_text("Expires in ", n, " hours"),
        Span::Minutes(n) => count_text("Expires in ", n, " minutes"),
        Span::LessThanMinute => "Expires in less than a minute".to_owned(),
        Span::Nothing => "Expired".to_owned(),
    }
}

/// The address belongs to the machine itself.
pub open spec fn is_loopback(ip: IpAddress) -> bool {
    match ip {
        IpAddress::V4(octets) => octets@[0] == 127,
        IpAddress::V6(s) => s@[0] == 0 && s@[1] == 0 && s@[2] == 0 && s@[3] == 0 && s@[4] == 0
            && s@[5] == 0 && s@[6] == 0 && s@[7] == 1,
    }
}

/// Where a tunnel leads; the machine itself is called `localhost`.
pub open spec fn target_text(ip: IpAddress, ip_text: Seq<char>, port: u16) -> Seq<char> {
    let host = if is_loopback(ip) {
        "localhost"@
    } else {
        ip_text
    };
    host + ":"@ + text::decimal(port as nat)
}

/// Where a tunnel leads; `ip_text` is the usual way to write `ip`.
pub fn tunnel_target_label(ip: IpAddress, ip_text: &str, port: u16) -> (label: String)
    ensures
        label@ == target_text(ip, ip_text@, port),
{
    let loopback = match ip {
        IpAddress::V4(octets) => octets[0] == 127,
        IpAddress::V6(s) => s[0] == 0 && s[1] == 0 && s[2] == 0 && s[3] == 0 && s[4] == 0 && s[5]
            == 0 && s[6] == 0 && s[7] == 1,
    };
    let mut label = if loopback {
        "localhost".to_owned()
    } else {
        ip_text.to_owned()
    };
    label.append(":");
    let number = text::decimal_text(port as u64);
    label.append(number.as_str());
    label
}

/// Where a connected tunnel is found; only what was named HTTP gets the scheme.
pub open spec fn local_address_text(is_http: bool, address: Seq<char>) -> Seq<char> {
    if is_http {
        "http://"@ + address
    } else {
        address
    }
}

/// Where a connected tunnel is found.
pub fn tunnel_local_address(is_http: bool, address: &str) -> (label: String)
    ensures
        label@ == local_address_text(is_http, address@),
{
    if is_http {
        let mut label = "http://".to_owned();
        label.append(address);
        label
    } else {
        address.to_owned()
    }
}

/// How the peer of a tunnel is reached; nothing is guessed of an unknown route.
pub open spec fn route_text(route: TunnelRoute) -> Seq<char> {
    match route {
        TunnelRoute::Direct => "Direct"@,
        TunnelRoute::Relay => "Relay"@,
        TunnelRoute::Unknown => "Connected"@,
    }
}

/// How the peer of a tunnel is reached, in words.
pub fn tunnel_route_label(route: TunnelRoute) -> (label: &'static str)
    ensures
        label@ == route_text(route),
{
    match route {
        TunnelRoute::Direct => "Direct",
        TunnelRoute::Relay => "Relay",
        TunnelRoute::Unknown => "Connected",
    }
}

/// The bytes that went through a tunnel in both directions.
pub open spec fn total_bytes(sent: u64, received: u64) -> u64 {
    if sent + received <= u64::MAX {
        (sent + received) as u64
    } else {
        u64::MAX
    }
}

/// The bytes that went through a tunnel in both directions.
pub fn tunnel_total_bytes(sent: u64, received: u64) -> (total: u64)
    ensures
        total == total_bytes(sent, received),
{
    sent.saturating_add(received)
}

/// What went through a tunnel; nothing is said of nothing.
pub open spec fn transfer_text(total: u64, size: Seq<char>) -> Option<Seq<char>> {
    if total == 0 {
        None
    } else {
        Some(size + " transferred"@)
    }
}

/// What went through a tunnel; `size` is the usual way to write `total` bytes.
pub fn tunnel_transfer_label(total: u64, size: &str) -> (label: Option<String>)
    ensures
        text::opt_text(label) == transfer_text(total, size@),
{
    if total == 0 {
        None
    } else {
        let mut label = size.to_owned();
        label.append(" transferred");
        Some(label)
    }
}

/// How long a tunnel has been connected; a start of zero stands for no connection.
pub open spec fn duration_text(connected_at_ms: u64, now_ms: u64) -> Option<Seq<char>> {
    let seconds = remaining_ms(now_ms, connected_at_ms) / 1000;
    let minutes = seconds / 60;
    if connected_at_ms == 0 {
        None
    } else if seconds == 0 {
        Some("connected just now"@)
    } else if seconds < 60 {
        Some(counted(""@, seconds, "s"@))
    } else if minutes < 60 {
        Some(counted(""@, minutes, "m "@) + counted(""@, seconds % 60, "s"@))
    } else {
        Some(counted(""@, minutes / 60, "h "@) + counted(""@, minutes % 60, "m"@))
    }
}

/// How long a tunnel has been connected, as in "3m 12s".
pub fn tunnel_duration_label(connected_at_ms: u64, now_ms: u64) -> (label: Option<String>)
    ensures
        text::opt_text(label) == duration_text(connected_at_ms, now_ms),
{
    if connected_at_ms == 0 {
        return None;
    }
    let seconds: u64 = now_ms.saturating_sub(connected_at_ms) / 1000;
    if seconds == 0 {
        return Some("connected just now".to_owned());
    }
    if seconds < 60 {
        return Some(count_text("", seconds, "s"));
    }
    let minutes: u64 = seconds / 60;
    if minutes < 60 {
        let mut label = count_text("", minutes, "m ");
        let rest = count_text("", seconds % 60, "s");
        label.append(rest.as_str());
        return Some(label);
    }
    let mut label = count_text("", minutes / 60, "h ");
    let rest = count_text("", minutes % 60, "m");
    label.append(rest.as_str());
    Some(label)
}

/// What is known of a tunnel's connection.
#[derive(Debug, Clone, Copy)]
pub struct TunnelConnectionInfo {
    pub route: TunnelRoute,
    pub reconnecting: bool,
    pub bytes_sent: u64,
    pub bytes_received: u64,
    pub connected_at_ms: u64,
}

/// The optional text as a list of at most one.
pub open spec fn as_part(part: Option<Seq<char>>) -> Seq<Seq<char>> {
    match part {
        Some(t) => seq![t],
        None => Seq::empty(),
    }
}

/// The parts of a tunnel's status line.
pub open spec fn connection_parts(info: TunnelConnectionInfo, size: Seq<char>, now_ms: u64) -> Seq<
    Seq<char>,
> {
    let lead = if info.reconnecting {
        seq!["Reconnecting"@]
    } else {
        Seq::empty()
    };
    lead + seq![route_text(info.route)] + as_part(
        transfer_text(total_bytes(info.bytes_sent, info.bytes_received), size),
    ) + as_part(duration_text(info.connected_at_ms, now_ms))
}

/// The status line of a tunnel's connection, as in "Direct · 12.4 MB transferred · 3m 12s";
/// `size` is the usual way to write the number of bytes that went through.
pub fn tunnel_connection_info_label(info: TunnelConnectionInfo, size: &str, now_ms: u64) -> (label:
    String)
    ensures
        label@ == text::joined_with(connection_parts(info, size@, now_ms), PART_SEPARATOR@),
{
    let mut parts: Vec<String> = Vec::new();
    if info.reconnecting {
        parts.push("Reconnecting".to_owned());
    }
    parts.push(tunnel_route_label(info.route).to_owned());
    let total = tunnel_total_bytes(info.bytes_sent, info.bytes_received);
    if let Some(transfer) = tunnel_transfer_label(total, size) {
        parts.push(transfer);
    }
    if let Some(duration) = tunnel_duration_label(info.connected_at_ms, now_ms) {
        parts.push(duration);
    }
    assert(text::texts(parts@) =~= connection_parts(info, size@, now_ms));
    text::join(&parts, PART_SEPARATOR)
}

/// The tunnel's time is over; a revoked tunnel counts as revoked.
pub open spec fn is_expired(status: TunnelStatus, expires_at_ms: u64, now_ms: u64) -> bool {
    status != TunnelStatus::Revoked && expires_at_ms <= now_ms
}

/// The state of a tunnel whose time is not over.
pub open spec fn live_status_text(status: TunnelStatus) -> Seq<char> {
    match status {
        TunnelStatus::Active => "Available"@,
        TunnelStatus::Connecting => "Connecting"@,
        TunnelStatus::Connected => "Connected"@,
        TunnelStatus::Revoked => "Revoked"@,
        TunnelStatus::Failed => "Failed"@,
        TunnelStatus::Disconnected => "Disconnected"@,
        TunnelStatus::Reconnecting => "Reconnecting"@,
    }
}

/// The state of a tunnel.
pub open spec fn status_text(status: TunnelStatus, expired: bool) -> Seq<char> {
    if expired {
        "Expired"@
    } else {
        live_status_text(status)
    }
}

/// Whether a tunnel's time is over.
pub fn tunnel_is_expired(status: TunnelStatus, expires_at_ms: u64, now_ms: u64) -> (expired: bool)
    ensures
        expired == is_expired(status, expires_at_ms, now_ms),
{
    status != TunnelStatus::Revoked && expires_at_ms <= now_ms
}

/// The state of a tunnel in words, once it is known whether its time is over.
pub fn status_label(status: TunnelStatus, expired: bool) -> (label: &'static str)
    ensures
        label@ == status_text(status, expired),
{
    if expired {
        return "Expired";
    }
    match status {
        TunnelStatus::Active => "Available",
        TunnelStatus::Connecting => "Connecting",
        TunnelStatus::Connected => "Connected",
        TunnelStatus::Revoked => "Revoked",
        TunnelStatus::Failed => "Failed",
        TunnelStatus::Disconnected => "Disconnected",
        TunnelStatus::Reconnecting => "Reconnecting",
    }
}

/// The state of a tunnel in words.
pub fn tunnel_status_label(status: TunnelStatus, expires_at_ms: u64, now_ms: u64) -> (label:
    &'static str)
    ensures
        label@ == status_text(status, is_expired(status, expires_at_ms, now_ms)),
{
    status_label(status, tunnel_is_expired(status, expires_at_ms, now_ms))
}

/// The colour of a tunnel's state.
pub open spec fn status_role(status: TunnelStatus, expired: bool) -> ColorRole {
    if expired {
        ColorRole::Muted
    } else {
        match status {
            TunnelStatus::Active => ColorRole::AccentPrimary,
            TunnelStatus::Connecting => ColorRole::Warning,
            TunnelStatus::Connected => ColorRole::AccentGreen,
            TunnelStatus::Revoked => ColorRole::Muted,
            TunnelStatus::Failed => ColorRole::Error,
            TunnelStatus::Disconnected => ColorRole::Muted,
            TunnelStatus::Reconnecting => ColorRole::Warning,
        }
    }
}

/// The colour of a tunnel's state, once it is known whether its time is over.
pub fn status_color_role(status: TunnelStatus, expired: bool) -> (role: ColorRole)
    ensures
        role == status_role(status, expired),
{
    if expired {
        return ColorRole::Muted;
    }
    match status {
        TunnelStatus::Active => ColorRole::AccentPrimary,
        TunnelStatus::Connecting => ColorRole::Warning,
        TunnelStatus::Connected => ColorRole::AccentGreen,
        TunnelStatus::Revoked => ColorRole::Muted,
        TunnelStatus::Failed => ColorRole::Error,
        TunnelStatus::Disconnected => ColorRole::Muted,
        TunnelStatus::Reconnecting => ColorRole::Warning,
    }
}

/// The colour of a tunnel's state.
pub fn tunnel_status_color(status: TunnelStatus, expires_at_ms: u64, now_ms: u64) -> (role:
    ColorRole)
    ensures
        role == status_role(status, is_expired(status, expires_at_ms, now_ms)),
{
    status_color_role(status, tunnel_is_expired(status, expires_at_ms, now_ms))
}

/// Expiry is final: a tunnel that is not revoked stays expired as time goes on, and its label
/// and the time left agree on it.
pub proof fn expiry_is_final(status: TunnelStatus, expires_at_ms: u64, now_ms: u64, later_ms: u64)
    requires
        now_ms <= later_ms,
    ensures
        is_expired(status, expires_at_ms, now_ms) ==> is_expired(status, expires_at_ms, later_ms),
        status != TunnelStatus::Revoked ==> (is_expired(status, expires_at_ms, now_ms) <==> span_of(
            remaining_ms(expires_at_ms, now_ms),
        ) is Nothing),
{
}

/// Each state has a label of its own. A tunnel is called connected exactly where it is, and
/// expired exactly where its time is over and it was not revoked.
pub proof fn labels_tell_states_apart(status: TunnelStatus, expires_at_ms: u64, now_ms: u64)
    ensures
        ({
            let label = status_text(status, is_expired(status, expires_at_ms, now_ms));
            let live = now_ms < expires_at_ms;
            &&& label == "Expired"@ <==> !live && !(status is Revoked)
            &&& label == "Revoked"@ <==> status is Revoked
            &&& label == "Available"@ <==> live && status is Active
            &&& label == "Connecting"@ <==> live && status is Connecting
            &&& label == "Connected"@ <==> live && status is Connected
            &&& label == "Failed"@ <==> live && status is Failed
            &&& label == "Disconnected"@ <==> live && status is Disconnected
            &&& label == "Reconnecting"@ <==> live && status is Reconnecting
        }),
{
    reveal_strlit("Expired");
    reveal_strlit("Revoked");
    reveal_strlit("Available");
    reveal_strlit("Connecting");
    reveal_strlit("Connected");
    reveal_strlit("Failed");
    reveal_strlit("Disconnected");
    reveal_strlit("Reconnecting");
    assert("Expired"@[0] == 'E' && "Revoked"@[0] == 'R');
    assert("Available"@.len() == 9 && "Available"@[0] == 'A');
    assert("Connecting"@.len() == 10 && "Connected"@.len() == 9 && "Connected"@[0] == 'C');
    assert("Failed"@.len() == 6 && "Disconnected"@.len() == 12 && "Reconnecting"@.len() == 12);
    assert("Disconnected"@[0] == 'D' && "Reconnecting"@[0] == 'R');
}

/// The label of a tunnel that is listed with its expiry already judged is one of an expired
/// tunnel exactly where it was judged expired; else it is that of the state alone.
pub proof fn listed_labels_follow_the_judgement(a: TunnelStatus, b: TunnelStatus)
    ensures
        status_text(a, true) == "Expired"@,
        status_text(a, false) != "Expired"@,
        a != b ==> status_text(a, false) != status_text(b, false),
        status_text(a, false) == status_text(a, is_expired(a, 1, 0)),
{
    labels_tell_states_apart(a, 1, 0);
    labels_tell_states_apart(b, 1, 0);
}

/// Green is for what is connected, red for what failed, amber for what is on its way, the accent
/// for what waits for a friend; what is over or interrupted is muted. A tunnel that was judged
/// not to be expired has the colour of its state.
pub proof fn colours_tell_how_a_tunnel_is(status: TunnelStatus, expires_at_ms: u64, now_ms: u64)
    ensures
        ({
            let role = status_role(status, is_expired(status, expires_at_ms, now_ms));
            let live = now_ms < expires_at_ms;
            &&& role is AccentGreen <==> live && status is Connected
            &&& role is Error <==> live && status is Failed
            &&& role is Warning <==> live && (status is Connecting || status is Reconnecting)
            &&& role is AccentPrimary <==> live && status is Active
            &&& role is Muted <==> !live || status is Revoked || status is Disconnected
        }),
        status_role(status, true) is Muted,
        status_role(status, false) == status_role(status, is_expired(status, 1, 0)),
{
}

/// The time left is told in whole days, hours or minutes, whichever is the largest of which
/// there is one; a tunnel that has no time left is expired.
pub proof fn time_left_is_told_in_whole_units(expires_at_ms: u64, now_ms: u64, n: u64)
    ensures
        ({
            let span = span_of(remaining_ms(expires_at_ms, now_ms));
            let left = expires_at_ms - now_ms;
            let number = text::decimal(n as nat);
            &&& left <= 0 ==> remaining_text(span) == "Expired"@ && expiry_text(span)
                == "Expired"@
            &&& 0 < left < 60_000 ==> remaining_text(span) == "less than a minute remaining"@
                && expiry_text(span) == "Expires in less than a minute"@
            &&& 1 <= n < 60 && n * 60_000 <= left < (n + 1) * 60_000 ==> remaining_text(span)
                == number + " minutes remaining"@ && expiry_text(span) == "Expires in "@ + number
                + " minutes"@
            &&& 1 <= n < 24 && n * 3_600_000 <= left < (n + 1) * 3_600_000 ==> remaining_text(span)
                == number + " hours remaining"@ && expiry_text(span) == "Expires in "@ + number
                + " hours"@
            &&& 1 <= n && n * 86_400_000 <= left < (n + 1) * 86_400_000 ==> remaining_text(span)
                == number + " days remaining"@ && expiry_text(span) == "Expires in "@ + number
                + " days"@
        }),
{
    let left = expires_at_ms - now_ms;
    if left > 0 {
        let number = text::decimal(n as nat);
        reveal_strlit("");
        assert(""@ + number =~= number);
        if 1 <= n < 60 && n * 60_000 <= left < (n + 1) * 60_000 {
            assert(left / 60_000 == n);
        }
        if 1 <= n < 24 && n * 3_600_000 <= left < (n + 1) * 3_600_000 {
            assert(left / 3_600_000 == n);
        }
        if 1 <= n && n * 86_400_000 <= left < (n + 1) * 86_400_000 {
            assert(left / 86_400_000 == n);
        }
    }
}

/// A tunnel leads to the machine itself for every address that starts with 127 and for `::1`,
/// and is then called `localhost`; any other address is written as it is. The port follows.
pub proof fn targets_name_host_and_port(
    octets: [u8; 4],
    segments: [u16; 8],
    written: Seq<char>,
    port: u16,
)
    ensures
        octets@[0] == 127 ==> target_text(IpAddress::V4(octets), written, port) == "localhost:"@
            + text::decimal(port as nat),
        octets@[0] != 127 ==> target_text(IpAddress::V4(octets), written, port) == written
            + ":"@ + text::decimal(port as nat),
        segments@ == seq![0u16, 0, 0, 0, 0, 0, 0, 1] ==> target_text(
            IpAddress::V6(segments),
            written,
            port,
        ) == "localhost:"@ + text::decimal(port as nat),
        segments@ != seq![0u16, 0, 0, 0, 0, 0, 0, 1] ==> target_text(
            IpAddress::V6(segments),
            written,
            port,
        ) == written + ":"@ + text::decimal(port as nat),
{
    reveal_strlit("localhost");
    reveal_strlit(":");
    reveal_strlit("localhost:");
    assert("localhost"@ + ":"@ =~= "localhost:"@);
    let one = seq![0u16, 0, 0, 0, 0, 0, 0, 1];
    if is_loopback(IpAddress::V6(segments)) {
        assert(segments@ =~= one);
    }
}

/// Two tunnels to different ports of one host, or of the machine itself, are told apart.
pub proof fn different_ports_are_told_apart(ip: IpAddress, written: Seq<char>, a: u16, b: u16)
    ensures
        target_text(ip, written, a) == target_text(ip, written, b) ==> a == b,
{
    if target_text(ip, written, a) == target_text(ip, written, b) {
        let host = if is_loopback(ip) {
            "localhost"@
        } else {
            written
        };
        let n = (host + ":"@).len() as int;
        assert(target_text(ip, written, a).skip(n) =~= text::decimal(a as nat));
        assert(target_text(ip, written, b).skip(n) =~= text::decimal(b as nat));
        text::lemma_decimal_digits(a as nat);
        text::lemma_decimal_digits(b as nat);
    }
}

/// A connected tunnel is a web address exactly where it carries HTTP.
pub proof fn only_http_has_the_scheme(is_http: bool, address: Seq<char>)
    ensures
        local_address_text(false, address) == address,
        local_address_text(true, address).len() == address.len() + 7,
        local_address_text(true, address).take(7) == "http://"@,
        local_address_text(true, address).skip(7) == address,
{
    reveal_strlit("http://");
    assert(local_address_text(true, address).take(7) =~= "http://"@);
    assert(local_address_text(true, address).skip(7) =~= address);
}

/// A route is called direct or relayed exactly where it is known to be.
pub proof fn routes_are_not_guessed(route: TunnelRoute)
    ensures
        route_text(route) == "Direct"@ <==> route is Direct,
        route_text(route) == "Relay"@ <==> route is Relay,
        route_text(route) == "Connected"@ <==> route is Unknown,
{
    reveal_strlit("Direct");
    reveal_strlit("Relay");
    reveal_strlit("Connected");
    assert("Direct"@.len() == 6 && "Relay"@.len() == 5 && "Connected"@.len() == 9);
}

/// Both directions count alike, up to the largest number there is.
pub proof fn both_directions_are_counted(sent: u64, received: u64)
    ensures
        sent + received <= u64::MAX ==> total_bytes(sent, received) == sent + received,
        sent + received > u64::MAX ==> total_bytes(sent, received) == u64::MAX,
{
}

/// What went through is told exactly where anything did.
pub proof fn nothing_is_said_of_nothing(total: u64, size: Seq<char>)
    ensures
        transfer_text(total, size) is None <==> total == 0,
        total > 0 ==> transfer_text(total, size) == Some(size + " transferred"@),
{
}

/// How long a tunnel has been connected is told in seconds, in minutes and seconds, or in hours
/// and minutes; what is left of a second counts for nothing.
pub proof fn durations_are_told_in_two_units(
    connected_at_ms: u64,
    now_ms: u64,
    h: u64,
    m: u64,
    s: u64,
    ms: u64,
)
    requires
        connected_at_ms > 0,
        now_ms == connected_at_ms + ((h * 60 + m) * 60 + s) * 1000 + ms,
        m < 60,
        s < 60,
        ms < 1000,
    ensures
        h == 0 && m == 0 && s == 0 ==> duration_text(connected_at_ms, now_ms) == Some(
            "connected just now"@,
        ),
        h == 0 && m == 0 && s > 0 ==> duration_text(connected_at_ms, now_ms) == Some(
            text::decimal(s as nat) + "s"@,
        ),
        h == 0 && m > 0 ==> duration_text(connected_at_ms, now_ms) == Some(
            text::decimal(m as nat) + "m "@ + text::decimal(s as nat) + "s"@,
        ),
        h > 0 ==> duration_text(connected_at_ms, now_ms) == Some(
            text::decimal(h as nat) + "h "@ + text::decimal(m as nat) + "m"@,
        ),
{
    reveal_strlit("");
    let seconds = (h * 60 + m) * 60 + s;
    assert(remaining_ms(now_ms, connected_at_ms) as int / 1000 == seconds);
    assert(seconds / 60 == h * 60 + m);
    assert(seconds % 60 == s);
    let (hours, minutes, rest) = (
        text::decimal(h as nat),
        text::decimal(m as nat),
        text::decimal(s as nat),
    );
    assert(""@ + hours =~= hours);
    assert(""@ + minutes =~= minutes);
    assert(""@ + rest =~= rest);
    assert(minutes + "m "@ + (rest + "s"@) =~= minutes + "m "@ + rest + "s"@);
    assert(hours + "h "@ + (minutes + "m"@) =~= hours + "h "@ + minutes + "m"@);
}

/// Nothing is told of a connection that was never made, and one whose start lies ahead has just
/// been made.
pub proof fn no_connection_has_no_duration(connected_at_ms: u64, now_ms: u64)
    ensures
        duration_text(connected_at_ms, now_ms) is None <==> connected_at_ms == 0,
        0 < connected_at_ms && now_ms <= connected_at_ms ==> duration_text(
            connected_at_ms,
            now_ms,
        ) == Some("connected just now"@),
{
}

/// The status line names the route, then what went through, then for how long, each behind a dot
/// between two spaces; what there is nothing to say of is left out, and a connection that is
/// being restored says so first.
pub proof fn status_lines_name_route_transfer_and_time(
    info: TunnelConnectionInfo,
    size: Seq<char>,
    now_ms: u64,
)
    ensures
        ({
            let line = text::joined_with(connection_parts(info, size, now_ms), PART_SEPARATOR@);
            let lead = if info.reconnecting {
                "Reconnecting · "@ + route_text(info.route)
            } else {
                route_text(info.route)
            };
            let moved = info.bytes_sent > 0 || info.bytes_received > 0;
            let time = duration_text(info.connected_at_ms, now_ms);
            &&& !moved && time is None ==> line == lead
            &&& moved && time is None ==> line == lead + " · "@ + size + " transferred"@
            &&& !moved && time is Some ==> line == lead + " · "@ + time->0
            &&& moved && time is Some ==> line == lead + " · "@ + size + " transferred · "@
                + time->0
        }),
{
    reveal_strlit(" · ");
    reveal_strlit(" transferred");
    reveal_strlit(" transferred · ");
    reveal_strlit("Reconnecting");
    reveal_strlit("Reconnecting · ");
    reveal_with_fuel(text::joined_with, 5);
    assert(" transferred"@ + " · "@ =~= " transferred · "@);
    assert("Reconnecting"@ + " · "@ =~= "Reconnecting · "@);
    let parts = connection_parts(info, size, now_ms);
    let route = route_text(info.route);
    let moved = info.bytes_sent > 0 || info.bytes_received > 0;
    let time = duration_text(info.connected_at_ms, now_ms);
    let lead = if info.reconnecting {
        seq!["Reconnecting"@, route]
    } else {
        seq![route]
    };
    let head = if info.reconnecting {
        "Reconnecting · "@ + route
    } else {
        route
    };
    assert(lead.drop_last() =~= if info.reconnecting {
        seq!["Reconnecting"@]
    } else {
        Seq::empty()
    });
    assert(text::joined_with(lead, " · "@) =~= head);
    let with_moved = if moved {
        lead.push(size + " transferred"@)
    } else {
        lead
    };
    let moved_head = if moved {
        head + " · "@ + size + " transferred"@
    } else {
        head
    };
    if moved {
        assert(with_moved.drop_last() =~= lead);
        assert(head + " · "@ + (size + " transferred"@) =~= moved_head);
    }
    assert(text::joined_with(with_moved, " · "@) =~= moved_head);
    if time is Some {
        assert(parts =~= with_moved.push(time->0));
        assert(parts.drop_last() =~= with_moved);
        assert(moved_head + " · "@ + time->0 =~= if moved {
            head + " · "@ + size + " transferred · "@ + time->0
        } else {
            head + " · "@ + time->0
        });
    } else {
        assert(parts =~= with_moved);
    }
}

/// A tunnel's status label and colour go by its state and by whether its time is over now.
pub proof fn tunnels_are_labelled_at_a_moment(
    status: TunnelStatus,
    expires_at_ms: u64,
    now_ms: u64,
    expired: bool,
    label: &'static str,
    role: ColorRole,
)
    requires
        call_ensures(tunnel_is_expired, (status, expires_at_ms, now_ms), expired),
        call_ensures(tunnel_status_label, (status, expires_at_ms, now_ms), label),
        call_ensures(tunnel_status_color, (status, expires_at_ms, now_ms), role),
    ensures
        expired <==> expires_at_ms <= now_ms && !(status is Revoked),
        label@ == "Expired"@ <==> expired,
        label@ == "Connected"@ <==> now_ms < expires_at_ms && status is Connected,
        label@ == "Failed"@ <==> now_ms < expires_at_ms && status is Failed,
        label@ == "Available"@ <==> now_ms < expires_at_ms && status is Active,
        label@ == "Revoked"@ <==> status is Revoked,
        role is AccentGreen <==> now_ms < expires_at_ms && status is Connected,
        role is Error <==> now_ms < expires_at_ms && status is Failed,
        role is AccentPrimary <==> now_ms < expires_at_ms && status is Active,
{
    labels_tell_states_apart(status, expires_at_ms, now_ms);
    colours_tell_how_a_tunnel_is(status, expires_at_ms, now_ms);
}

/// In a list the label and the colour go by the state and by whether the tunnel was judged
/// expired.
pub proof fn listed_tunnels_are_labelled_as_judged(
    status: TunnelStatus,
    expired: bool,
    label: &'static str,
    role: ColorRole,
)
    requires
        call_ensures(status_label, (status, expired), label),
        call_ensures(status_color_role, (status, expired), role),
    ensures
        label@ == "Expired"@ <==> expired,
        label@ == "Connected"@ <==> !expired && status is Connected,
        label@ == "Connecting"@ <==> !expired && status is Connecting,
        label@ == "Failed"@ <==> !expired && status is Failed,
        label@ == "Available"@ <==> !expired && status is Active,
        label@ == "Revoked"@ <==> !expired && status is Revoked,
        label@ == "Disconnected"@ <==> !expired && status is Disconnected,
        label@ == "Reconnecting"@ <==> !expired && status is Reconnecting,
        role is AccentGreen <==> !expired && status is Connected,
        role is Error <==> !expired && status is Failed,
        role is AccentPrimary <==> !expired && status is Active,
        role is Warning <==> !expired && (status is Connecting || status is Reconnecting),
{
    labels_tell_states_apart(status, 1, 0);
    labels_tell_states_apart(TunnelStatus::Active, 0, 0);
    labels_tell_states_apart(TunnelStatus::Active, 1, 0);
    labels_tell_states_apart(TunnelStatus::Connecting, 1, 0);
    labels_tell_states_apart(TunnelStatus::Connected, 1, 0);
    labels_tell_states_apart(TunnelStatus::Failed, 1, 0);
    labels_tell_states_apart(TunnelStatus::Revoked, 1, 0);
    labels_tell_states_apart(TunnelStatus::Disconnected, 1, 0);
    labels_tell_states_apart(TunnelStatus::Reconnecting, 1, 0);
}

/// The time left and the expiry are told as of now, and agree with each other.
pub proof fn times_are_told_as_of_now(
    expires_at_ms: u64,
    now_ms: u64,
    left: String,
    expiry: String,
    span: Span,
)
    requires
        call_ensures(tunnel_remaining_label, (expires_at_ms, now_ms), left),
        call_ensures(tunnel_expiry_label, (expires_at_ms, now_ms), expiry),
        call_ensures(time_left, (expires_at_ms, now_ms), span),
    ensures
        left@ == remaining_text(span),
        expiry@ == expiry_text(span),
        span == span_of(remaining_ms(expires_at_ms, now_ms)),
        now_ms <= expires_at_ms ==> remaining_ms(expires_at_ms, now_ms) == expires_at_ms - now_ms,
        expires_at_ms <= now_ms ==> left@ == "Expired"@ && expiry@ == "Expired"@ && span is Nothing,
{
    time_left_is_told_in_whole_units(expires_at_ms, now_ms, 0);
}

/// Target, address, route, transfer and duration are told of what they are given.
pub proof fn connections_are_told_of(
    ip: IpAddress,
    written: &str,
    port: u16,
    is_http: bool,
    info: TunnelConnectionInfo,
    now_ms: u64,
    target: String,
    address: String,
    route: &'static str,
    total: u64,
    transfer: Option<String>,
    duration: Option<String>,
    line: String,
)
    requires
        call_ensures(tunnel_target_label, (ip, written, port), target),
        call_ensures(tunnel_local_address, (is_http, written), address),
        call_ensures(tunnel_route_label, (info.route,), route),
        call_ensures(tunnel_total_bytes, (info.bytes_sent, info.bytes_received), total),
        call_ensures(tunnel_transfer_label, (total, written), transfer),
        call_ensures(tunnel_duration_label, (info.connected_at_ms, now_ms), duration),
        call_ensures(tunnel_connection_info_label, (info, written, now_ms), line),
    ensures
        target@ == target_text(ip, written@, port),
        address@ == local_address_text(is_http, written@),
        route@ == route_text(info.route),
        total == total_bytes(info.bytes_sent, info.bytes_received),
        text::opt_text(transfer) == transfer_text(total, written@),
        text::opt_text(duration) == duration_text(info.connected_at_ms, now_ms),
        line@ == text::joined_with(connection_parts(info, written@, now_ms), " · "@),
        transfer is Some <==> info.bytes_sent > 0 || info.bytes_received > 0,
        duration is Some <==> info.connected_at_ms > 0,
{
}

} // verus!
