//! Which addresses an automatic preview may contact.

use vstd::prelude::*;
use vstd::string::*;

use crate::text;

verus! {

/// An address of the Internet protocol, version four or six.
#[derive(Debug, Clone, Copy, PartialEq, Eq)]
pub enum IpAddress {
    V4([u8; 4]),
    V6([u16; 8]),
}

/// The address belongs to a network that is not part of the public Internet.
pub open spec fn blocked_v4(a: u8, b: u8, c: u8) -> bool {
    // This network, loopback, private networks, link-local.
    ||| a == 0 || a == 127 || a == 10
    ||| a == 172 && 16 <= b <= 31
    ||| a == 192 && b == 168
    ||| a == 169 && b == 254
    // Shared address space and protocol assignments.
    ||| a == 100 && 64 <= b <= 127
    ||| a == 192 && b == 0 && c == 0
    // Documentation.
    ||| a == 192 && b == 0 && c == 2
    ||| a == 198 && b == 51 && c == 100
    ||| a == 203 && b == 0 && c == 113
    // Benchmarking.
    ||| a == 198 && (b == 18 || b == 19)
    // Multicast, reserved and broadcast.
    ||| a >= 224
}

/// The first six segments mark an address of version four inside one of version six.
pub open spec fn is_mapped(s: Seq<u16>) -> bool {
    s[0] == 0 && s[1] == 0 && s[2] == 0 && s[3] == 0 && s[4] == 0 && s[5] == 0xffff
}

/// The address belongs to a network that is not part of the public Internet.
pub open spec fn blocked_v6(s: Seq<u16>) -> bool {
    // Unspecified and loopback.
    ||| s[0] == 0 && s[1] == 0 && s[2] == 0 && s[3] == 0 && s[4] == 0 && s[5] == 0 && s[6] == 0
        && s[7] <= 1
    // Multicast, unique-local, link-local, site-local.
    ||| s[0] >= 0xff00
    ||| 0xfc00 <= s[0] <= 0xfdff
    ||| 0xfe80 <= s[0] <= 0xfebf
    ||| 0xfec0 <= s[0] <= 0xfeff
    // Documentation.
    ||| s[0] == 0x2001 && s[1] == 0xdb8
    ||| s[0] == 0x3fff && s[1] < 0x1000
    // Benchmarking.
    ||| s[0] == 0x2001 && s[1] == 2 && s[2] == 0
    // Discard-only, local-use translation, segment routing.
    ||| s[0] == 0x100 && s[1] == 0 && s[2] == 0 && s[3] == 0
    ||| s[0] == 0x64 && s[1] == 0xff9b && s[2] == 1
    ||| s[0] == 0x5f00
    // An address of version four in disguise.
    ||| is_mapped(s) && blocked_v4((s[6] / 256) as u8, (s[6] % 256) as u8, (s[7] / 256) as u8)
}

/// The address must not be contacted.
pub open spec fn blocked(ip: IpAddress) -> bool {
    match ip {
        IpAddress::V4(octets) => blocked_v4(octets@[0], octets@[1], octets@[2]),
        IpAddress::V6(segments) => blocked_v6(segments@),
    }
}

/// Whether an address of version four must not be contacted.
fn is_blocked_v4(a: u8, b: u8, c: u8) -> (refused: bool)
    ensures
        refused == blocked_v4(a, b, c),
{
    a == 0 || a == 127 || a == 10 || (a == 172 && 16 <= b && b <= 31) || (a == 192 && b == 168) || (
    a == 169 && b == 254) || (a == 100 && 64 <= b && b <= 127) || (a == 192 && b == 0 && (c == 0
        || c == 2)) || (a == 198 && b == 51 && c == 100) || (a == 203 && b == 0 && c == 113) || (a
        == 198 && (b == 18 || b == 19)) || a >= 224
}

/// Whether an address must not be contacted by an automatic preview.
///
/// That holds of loopback, private, link-local, multicast, documentation, benchmarking and
/// otherwise non-routable addresses.
pub fn is_blocked_ip(ip: IpAddress) -> (refused: bool)
    ensures
        refused == blocked(ip),
{
    match ip {
        IpAddress::V4(octets) => is_blocked_v4(octets[0], octets[1], octets[2]),
        IpAddress::V6(s) => {
            let zeros = s[0] == 0 && s[1] == 0 && s[2] == 0 && s[3] == 0 && s[4] == 0;
            let local = (zeros && s[5] == 0 && s[6] == 0 && s[7] <= 1) || s[0] >= 0xff00 || (0xfc00
                <= s[0] && s[0] <= 0xfdff) || (0xfe80 <= s[0] && s[0] <= 0xfeff);
            let set_aside = (s[0] == 0x2001 && s[1] == 0xdb8) || (s[0] == 0x3fff && s[1] < 0x1000)
                || (s[0] == 0x2001 && s[1] == 2 && s[2] == 0);
            let unrouted = (s[0] == 0x100 && s[1] == 0 && s[2] == 0 && s[3] == 0) || (s[0] == 0x64
                && s[1] == 0xff9b && s[2] == 1) || s[0] == 0x5f00;
            let (a, b, c) = ((s[6] / 256) as u8, (s[6] % 256) as u8, (s[7] / 256) as u8);
            local || set_aside || unrouted || (zeros && s[5] == 0xffff && is_blocked_v4(a, b, c))
        },
    }
}

/// An address of version four is refused in its mapped form exactly where it is refused itself.
pub proof fn mapped_addresses_are_judged_alike(v4: [u8; 4], v6: [u16; 8])
    requires
        is_mapped(v6@),
        v6@[6] == v4@[0] * 256 + v4@[1],
        v6@[7] == v4@[2] * 256 + v4@[3],
    ensures
        blocked(IpAddress::V6(v6)) == blocked(IpAddress::V4(v4)),
{
}

/// The parts of a URL that the preview rules look at.
#[derive(Debug)]
pub struct UrlParts {
    /// The whole URL in its normal form.
    pub href: String,
    /// The scheme, in small letters.
    pub scheme: String,
    /// The user name, mostly empty.
    pub username: String,
    /// Whether a password is given.
    pub has_password: bool,
    /// The host, if there is one.
    pub host: Option<String>,
    /// The port, or the default port of the scheme.
    pub port: Option<u16>,
}

/// What a [`UrlParts`] holds.
pub struct UrlView {
    pub href: Seq<char>,
    pub scheme: Seq<char>,
    pub username: Seq<char>,
    pub has_password: bool,
    pub host: Option<Seq<char>>,
    pub port: Option<u16>,
}

impl View for UrlParts {
    type V = UrlView;

    open spec fn view(&self) -> UrlView {
        UrlView {
            href: self.href@,
            scheme: self.scheme@,
            username: self.username@,
            has_password: self.has_password,
            host: text::opt_text(self.host),
            port: self.port,
        }
    }
}

/// What optional URL parts hold.
pub open spec fn opt_url(parts: Option<UrlParts>) -> Option<UrlView> {
    match parts {
        Some(p) => Some(p@),
        None => None,
    }
}

/// The parts of the URL that `text` writes, if it writes one.
pub uninterp spec fn url_parsed(text: Seq<char>) -> Option<UrlView>;

/// The parts of the URL that `location` gives when it is read at the URL `base`, if it gives one.
pub uninterp spec fn url_joined(base: Seq<char>, location: Seq<char>) -> Option<UrlView>;

/// `url::Url::parse`: the parts of an absolute URL, or `None` where the text is not one. What
/// the parts are is not stated; the result has a name.
#[verifier::external_body]
pub(crate) fn parse_url(text: &str) -> (parts: Option<UrlParts>)
    ensures
        opt_url(parts) == url_parsed(text@),
{
    let url = url::Url::parse(text).ok()?;
    Some(
        UrlParts {
            href: url.as_str().to_string(),
            scheme: url.scheme().to_string(),
            username: url.username().to_string(),
            has_password: url.password().is_some(),
            host: url.host_str().map(str::to_string),
            port: url.port_or_known_default(),
        },
    )
}

/// `url::Url::join`: the URL that `location` gives at the URL `base`, or `None` where it gives
/// none. What the parts are is not stated; the result has a name.
#[verifier::external_body]
pub(crate) fn join_url(base: &str, location: &str) -> (parts: Option<UrlParts>)
    ensures
        opt_url(parts) == url_joined(base@, location@),
{
    let url = url::Url::parse(base).ok()?.join(location).ok()?;
    Some(
        UrlParts {
            href: url.as_str().to_string(),
            scheme: url.scheme().to_string(),
            username: url.username().to_string(),
            has_password: url.password().is_some(),
            host: url.host_str().map(str::to_string),
            port: url.port_or_known_default(),
        },
    )
}

/// The parts of the URL that a text writes, if it writes one.
pub fn read_url(text: &str) -> (parts: Option<UrlParts>)
    ensures
        opt_url(parts) == url_parsed(text@),
{
    parse_url(text)
}

/// Whether two optional texts are equal.
pub fn same_opt_text(a: &Option<String>, b: &Option<String>) -> (same: bool)
    ensures
        same == (text::opt_text(*a) == text::opt_text(*b)),
{
    match (a, b) {
        (Some(x), Some(y)) => text::same_text(x.as_str(), y.as_str()),
        (None, None) => true,
        _ => false,
    }
}

/// The two URLs lead to the same host and port.
pub open spec fn same_endpoint(left: UrlView, right: UrlView) -> bool {
    left.host == right.host && left.port == right.port
}

/// The two URLs share scheme, host and port.
pub open spec fn is_same_origin(left: UrlView, right: UrlView) -> bool {
    left.scheme == right.scheme && same_endpoint(left, right)
}

/// A redirect may keep the scheme or go from `http` to `https`, at the same host and port.
pub open spec fn redirect_allowed(current: UrlView, next: UrlView) -> bool {
    same_endpoint(current, next) && (next.scheme == current.scheme || (current.scheme == "http"@
        && next.scheme == "https"@))
}

/// Whether two ports are equal.
fn same_port(a: Option<u16>, b: Option<u16>) -> (same: bool)
    ensures
        same == (a == b),
{
    match (a, b) {
        (Some(x), Some(y)) => x == y,
        (None, None) => true,
        _ => false,
    }
}

/// Whether two URLs share scheme, host and port.
pub fn same_origin(left: &UrlParts, right: &UrlParts) -> (same: bool)
    ensures
        same == is_same_origin(left@, right@),
{
    text::same_text(left.scheme.as_str(), right.scheme.as_str()) && same_opt_text(
        &left.host,
        &right.host,
    ) && same_port(left.port, right.port)
}

/// Whether a redirect from one URL to the other may be followed.
pub fn may_redirect(current: &UrlParts, next: &UrlParts) -> (may: bool)
    ensures
        may == redirect_allowed(current@, next@),
{
    same_opt_text(&next.host, &current.host) && same_port(next.port, current.port) && (
    text::same_text(next.scheme.as_str(), current.scheme.as_str()) || (text::same_text(
        current.scheme.as_str(),
        "http",
    ) && text::same_text(next.scheme.as_str(), "https")))
}

/// Being of the same origin is an equivalence.
pub proof fn same_origin_is_an_equivalence(a: UrlView, b: UrlView, c: UrlView)
    ensures
        is_same_origin(a, a),
        is_same_origin(a, b) == is_same_origin(b, a),
        is_same_origin(a, b) && is_same_origin(b, c) ==> is_same_origin(a, c),
{
}

/// Why a target is not contacted.
#[derive(Debug, Clone, Copy, PartialEq, Eq, Structural)]
pub enum Refusal {
    Scheme,
    Credentials,
    NoHost,
    NoPort,
    Unresolved,
    PrivateAddress,
}

/// What is said of a refusal.
pub open spec fn refusal_message(refusal: Refusal) -> Seq<char> {
    match refusal {
        Refusal::Scheme => "only HTTP(S) preview URLs are allowed"@,
        Refusal::Credentials => "preview URLs with credentials are not allowed"@,
        Refusal::NoHost => "preview URL has no host"@,
        Refusal::NoPort => "preview URL has no valid port"@,
        Refusal::Unresolved => "preview hostname could not be resolved"@,
        Refusal::PrivateAddress => "preview target resolves to a private or reserved address"@,
    }
}

/// What is said of a refusal.
pub fn refusal_text(refusal: Refusal) -> (message: String)
    ensures
        message@ == refusal_message(refusal),
{
    match refusal {
        Refusal::Scheme => "only HTTP(S) preview URLs are allowed".to_owned(),
        Refusal::Credentials => "preview URLs with credentials are not allowed".to_owned(),
        Refusal::NoHost => "preview URL has no host".to_owned(),
        Refusal::NoPort => "preview URL has no valid port".to_owned(),
        Refusal::Unresolved => "preview hostname could not be resolved".to_owned(),
        Refusal::PrivateAddress =>
            "preview target resolves to a private or reserved address".to_owned(),
    }
}

/// The host and port to resolve for a URL, or why it is refused unresolved.
pub open spec fn target_of(url: UrlView) -> Result<(Seq<char>, u16), Refusal> {
    if url.scheme != "http"@ && url.scheme != "https"@ {
        Err(Refusal::Scheme)
    } else if url.username.len() > 0 || url.has_password {
        Err(Refusal::Credentials)
    } else if url.host is None {
        Err(Refusal::NoHost)
    } else if url.port is None {
        Err(Refusal::NoPort)
    } else {
        Ok((url.host->0, url.port->0))
    }
}

/// The host and port to resolve for a URL, or why it is refused unresolved.
pub fn preview_target(url: &UrlParts) -> (target: Result<(String, u16), Refusal>)
    ensures
        match target {
            Ok((host, port)) => target_of(url@) == Ok::<(Seq<char>, u16), Refusal>((host@, port)),
            Err(refusal) => target_of(url@) == Err::<(Seq<char>, u16), Refusal>(refusal),
        },
{
    if !text::same_text(url.scheme.as_str(), "http") && !text::same_text(
        url.scheme.as_str(),
        "https",
    ) {
        return Err(Refusal::Scheme);
    }
    if !url.username.as_str().is_empty() || url.has_password {
        return Err(Refusal::Credentials);
    }
    match &url.host {
        None => Err(Refusal::NoHost),
        Some(host) => match url.port {
            None => Err(Refusal::NoPort),
            Some(port) => Ok((host.clone(), port)),
        },
    }
}

/// The octets from the one at `i` on, in decimal, with dots between them.
pub open spec fn dotted_from(octets: Seq<u8>, i: int) -> Seq<char>
    decreases octets.len() - i,
{
    if i < 0 || i >= octets.len() {
        Seq::empty()
    } else if i == octets.len() - 1 {
        text::decimal(octets[i] as nat)
    } else {
        text::decimal(octets[i] as nat) + (seq!['.'] + dotted_from(octets, i + 1))
    }
}

/// An address of version four as it is written: four octets in decimal, with dots between them.
pub open spec fn dotted(octets: [u8; 4]) -> Seq<char> {
    dotted_from(octets@, 0)
}

/// The address that a host is, where the host is an address of version four.
pub open spec fn literal_of(host: Seq<char>) -> Option<IpAddress> {
    if exists|octets: [u8; 4]| host == #[trigger] dotted(octets) {
        Some(IpAddress::V4(choose|octets: [u8; 4]| host == #[trigger] dotted(octets)))
    } else {
        None
    }
}

/// The octet that starts at `from`, and where it ends.
fn octet_at(chars: &Vec<char>, from: usize) -> (found: Option<(u8, usize)>)
    requires
        from <= chars.len(),
    ensures
        found matches Some((_, end)) ==> from <= end <= chars.len(),
        forall|octet: u8, rest: Seq<char>|
            chars@.skip(from as int) == #[trigger] (text::decimal(octet as nat) + rest) && (
            rest.len() > 0 ==> rest[0] == '.') ==> found == Some(
                (octet, (from + text::decimal(octet as nat).len()) as usize),
            ),
{
    let end = text::digits_end(chars, from);
    let digits = text::string_of(chars, from, end);
    let value = text::parse_u16(digits.as_str());
    proof {
        assert forall|octet: u8, rest: Seq<char>|
            chars@.skip(from as int) == #[trigger] (text::decimal(octet as nat) + rest) && (
            rest.len() > 0 ==> rest[0] == '.') implies value == Some(octet as u16) && end == from
            + text::decimal(octet as nat).len() by {
            let written = text::decimal(octet as nat);
            let tail = chars@.skip(from as int);
            let stop = from + written.len();
            text::lemma_decimal_digits(octet as nat);
            text::decimal_is_read_back(octet as u16);
            if end < stop {
                assert('0' <= written[end - from] <= '9');
                assert(tail[end - from] == chars@[end as int]);
            } else if stop < end {
                assert(tail[stop - from] == rest[0]);
                assert('0' <= chars@[stop as int] <= '9');
            }
            assert(digits@ =~= written);
        }
    }
    match value {
        Some(n) => if n <= 255 {
            Some((n as u8, end))
        } else {
            None
        },
        None => None,
    }
}

/// An address of version four as it is written.
fn dotted_text(octets: &[u8; 4]) -> (written: String)
    ensures
        written@ == dotted(*octets),
{
    let mut written = text::decimal_text(octets[0] as u64);
    written.push('.');
    written.append(text::decimal_text(octets[1] as u64).as_str());
    written.push('.');
    written.append(text::decimal_text(octets[2] as u64).as_str());
    written.push('.');
    written.append(text::decimal_text(octets[3] as u64).as_str());
    proof {
        reveal_with_fuel(dotted_from, 5);
        assert(written@ =~= dotted(*octets));
    }
    written
}

/// The address that a host is, where the host is an address of version four: four octets in
/// decimal, without leading zeros, with dots between them.
pub fn ipv4_literal(host: &str) -> (ip: Option<IpAddress>)
    ensures
        ip == literal_of(host@),
{
    let chars = text::chars_of(host);
    let ghost lit = exists|octets: [u8; 4]| host@ == #[trigger] dotted(octets);
    let ghost want = choose|octets: [u8; 4]| host@ == #[trigger] dotted(octets);
    let mut octets: [u8; 4] = [0, 0, 0, 0];
    let mut at: usize = 0;
    let mut i: usize = 0;
    assert(chars@.skip(0) =~= chars@);
    while i < 4
        invariant
            i <= 4,
            at <= chars.len(),
            chars@ == host@,
            lit == (exists|octets: [u8; 4]| host@ == #[trigger] dotted(octets)),
            lit && i < 4 ==> chars@.skip(at as int) == dotted_from(want@, i as int),
            lit ==> forall|k: int| 0 <= k < i ==> octets@[k] == #[trigger] want@[k],
        decreases 4 - i,
    {
        let ghost rest = if i < 3 {
            seq!['.'] + dotted_from(want@, i + 1)
        } else {
            Seq::empty()
        };
        proof {
            if lit {
                let whole = text::decimal(want@[i as int] as nat) + rest;
                assert(chars@.skip(at as int) =~= whole);
            }
        }
        match octet_at(&chars, at) {
            None => {
                return None;
            },
            Some((octet, end)) => {
                octets[i] = octet;
                proof {
                    if lit {
                        let written = text::decimal(want@[i as int] as nat);
                        let tail = chars@.skip(at as int);
                        assert(tail == written + rest);
                        assert(tail.len() == written.len() + rest.len());
                        assert(end == at + written.len());
                        assert(tail.skip(written.len() as int) =~= rest);
                        assert(chars@.skip(end as int) =~= tail.skip(written.len() as int));
                    }
                }
                if i < 3 {
                    if end >= chars.len() || chars[end] != '.' {
                        assert(lit ==> chars@.skip(end as int)[0] == '.');
                        return None;
                    }
                    at = end + 1;
                    proof {
                        if lit {
                            assert(chars@.skip(at as int) =~= rest.skip(1));
                            assert(rest.skip(1) =~= dotted_from(want@, i + 1));
                        }
                    }
                } else {
                    if end != chars.len() {
                        assert(lit ==> chars@.skip(end as int).len() == 0);
                        return None;
                    }
                    at = end;
                }
            },
        }
        i += 1;
    }
    proof {
        if lit {
            assert(octets@ =~= want@);
            assert(octets =~= want);
        }
    }
    let written = dotted_text(&octets);
    if text::same_text(host, written.as_str()) {
        Some(IpAddress::V4(octets))
    } else {
        None
    }
}

/// An address of version four that is written down is read back.
pub proof fn literal_is_read_back(octets: [u8; 4])
    ensures
        literal_of(dotted(octets)) == Some(IpAddress::V4(octets)),
{
    let host = dotted(octets);
    assert(host == dotted(octets));
    let found = choose|other: [u8; 4]| host == #[trigger] dotted(other);
    lemma_dotted_from(octets@, found@, 0);
    assert(octets@ =~= found@);
    assert(octets =~= found);
}

proof fn lemma_dotted_from(a: Seq<u8>, b: Seq<u8>, i: int)
    requires
        a.len() == 4,
        b.len() == 4,
        0 <= i < 4,
        dotted_from(a, i) == dotted_from(b, i),
    ensures
        forall|k: int| i <= k < 4 ==> a[k] == b[k],
    decreases 4 - i,
{
    let after_a = if i < 3 {
        seq!['.'] + dotted_from(a, i + 1)
    } else {
        Seq::empty()
    };
    let after_b = if i < 3 {
        seq!['.'] + dotted_from(b, i + 1)
    } else {
        Seq::empty()
    };
    assert(text::decimal(a[i] as nat) + after_a =~= dotted_from(a, i));
    assert(text::decimal(b[i] as nat) + after_b =~= dotted_from(b, i));
    text::lemma_decimal_prefix(a[i] as nat, b[i] as nat, after_a, after_b);
    if i < 3 {
        assert(after_a.skip(1) =~= dotted_from(a, i + 1));
        assert(after_b.skip(1) =~= dotted_from(b, i + 1));
        lemma_dotted_from(a, b, i + 1);
    }
}

/// The addresses may all be contacted, and there is one.
pub open spec fn all_public(addresses: Seq<IpAddress>) -> bool {
    addresses.len() > 0 && forall|i: int|
        0 <= i < addresses.len() ==> !blocked(#[trigger] addresses[i])
}

/// Why a list of resolved addresses is refused; a host that does not resolve is refused too.
pub open spec fn address_refusal(addresses: Option<Seq<IpAddress>>) -> Option<Refusal> {
    match addresses {
        None => Some(Refusal::Unresolved),
        Some(list) => if all_public(list) {
            None
        } else {
            Some(Refusal::PrivateAddress)
        },
    }
}

/// The addresses of an optional list.
pub open spec fn opt_addresses(addresses: Option<Vec<IpAddress>>) -> Option<Seq<IpAddress>> {
    match addresses {
        Some(list) => Some(list@),
        None => None,
    }
}

/// The addresses to connect to, exactly as resolved, or why none may be contacted.
pub fn check_addresses(addresses: Option<Vec<IpAddress>>) -> (checked: Result<
    Vec<IpAddress>,
    Refusal,
>)
    ensures
        match checked {
            Ok(list) => opt_addresses(addresses) == Some(list@) && address_refusal(
                opt_addresses(addresses),
            ) is None,
            Err(refusal) => address_refusal(opt_addresses(addresses)) == Some(refusal),
        },
{
    match addresses {
        None => Err(Refusal::Unresolved),
        Some(list) => {
            if list.len() == 0 {
                return Err(Refusal::PrivateAddress);
            }
            let mut i: usize = 0;
            while i < list.len()
                invariant
                    i <= list.len(),
                    list.len() > 0,
                    opt_addresses(addresses) == Some(list@),
                    forall|k: int| 0 <= k < i ==> !blocked(#[trigger] list@[k]),
                decreases list.len() - i,
            {
                if is_blocked_ip(list[i]) {
                    assert(blocked(list@[i as int]));
                    return Err(Refusal::PrivateAddress);
                }
                i += 1;
            }
            Ok(list)
        },
    }
}

/// An address of version four as a number.
pub open spec fn number_of(octets: [u8; 4]) -> int {
    ((octets@[0] * 256 + octets@[1]) * 256 + octets@[2]) * 256 + octets@[3]
}

/// The refused addresses of version four are those of the networks 0/8, 10/8, 100.64/10, 127/8,
/// 169.254/16, 172.16/12, 192.0.0/24, 192.0.2/24, 192.168/16, 198.18/15, 198.51.100/24,
/// 203.0.113/24, and all from 224.0.0.0 on.
pub proof fn refused_v4_addresses_lie_in_these_networks(octets: [u8; 4])
    ensures
        ({
            let n = number_of(octets);
            blocked(IpAddress::V4(octets)) <==> {
                ||| n <= 0x00ff_ffff
                ||| 0x0a00_0000 <= n <= 0x0aff_ffff
                ||| 0x6440_0000 <= n <= 0x647f_ffff
                ||| 0x7f00_0000 <= n <= 0x7fff_ffff
                ||| 0xa9fe_0000 <= n <= 0xa9fe_ffff
                ||| 0xac10_0000 <= n <= 0xac1f_ffff
                ||| 0xc000_0000 <= n <= 0xc000_00ff
                ||| 0xc000_0200 <= n <= 0xc000_02ff
                ||| 0xc0a8_0000 <= n <= 0xc0a8_ffff
                ||| 0xc612_0000 <= n <= 0xc613_ffff
                ||| 0xc633_6400 <= n <= 0xc633_64ff
                ||| 0xcb00_7100 <= n <= 0xcb00_71ff
                ||| 0xe000_0000 <= n
            }
        }),
{
}

/// The refused addresses of version six are `::`, `::1`, those of the networks 64:ff9b:1::/48,
/// 100::/64, 2001:2::/48, 2001:db8::/32, 3fff::/20, 5f00::/16, fc00::/7, fe80::/10, fec0::/10
/// and ff00::/8, and those that stand for a refused address of version four.
pub proof fn refused_v6_addresses_lie_in_these_networks(segments: [u16; 8], octets: [u8; 4])
    ensures
        ({
            let s = segments@;
            let head = ((s[0] * 65536 + s[1]) * 65536 + s[2]) * 65536 + s[3];
            let tail = ((s[4] * 65536 + s[5]) * 65536 + s[6]) * 65536 + s[7];
            let mapped = head == 0 && 0xffff_0000_0000 <= tail <= 0xffff_ffff_ffff;
            &&& mapped && tail - 0xffff_0000_0000 == number_of(octets) ==> (blocked(
                IpAddress::V6(segments),
            ) <==> blocked(IpAddress::V4(octets)))
            &&& !mapped ==> (blocked(IpAddress::V6(segments)) <==> {
                ||| head == 0 && tail <= 1
                ||| 0x0064_ff9b_0001_0000 <= head <= 0x0064_ff9b_0001_ffff
                ||| head == 0x0100_0000_0000_0000
                ||| 0x2001_0002_0000_0000 <= head <= 0x2001_0002_0000_ffff
                ||| 0x2001_0db8_0000_0000 <= head <= 0x2001_0db8_ffff_ffff
                ||| 0x3fff_0000_0000_0000 <= head <= 0x3fff_0fff_ffff_ffff
                ||| 0x5f00_0000_0000_0000 <= head <= 0x5f00_ffff_ffff_ffff
                ||| 0xfc00_0000_0000_0000 <= head <= 0xfdff_ffff_ffff_ffff
                ||| 0xfe80_0000_0000_0000 <= head
            })
        }),
{
    let s = segments@;
    let head = ((s[0] * 65536 + s[1]) * 65536 + s[2]) * 65536 + s[3];
    let tail = ((s[4] * 65536 + s[5]) * 65536 + s[6]) * 65536 + s[7];
    assert(head == 0 <==> s[0] == 0 && s[1] == 0 && s[2] == 0 && s[3] == 0);
    assert(is_mapped(s) <==> head == 0 && 0xffff_0000_0000 <= tail <= 0xffff_ffff_ffff);
    if is_mapped(s) && tail - 0xffff_0000_0000 == number_of(octets) {
        let n = number_of(octets);
        assert(n == s[6] * 65536 + s[7]);
        assert(s[6] == octets@[0] * 256 + octets@[1] && s[7] == octets@[2] * 256 + octets@[3]);
        mapped_addresses_are_judged_alike(octets, segments);
    }
}

/// A URL may be asked for as far as the URL itself tells: it is one of the web, carries no
/// credentials, names a host and a port, and its host is not itself a refused address.
pub open spec fn may_be_asked(url: UrlView) -> bool {
    &&& url.scheme == "http"@ || url.scheme == "https"@
    &&& url.username == Seq::<char>::empty()
    &&& !url.has_password
    &&& url.host is Some
    &&& url.port is Some
    &&& forall|octets: [u8; 4]|
        url.host->0 == #[trigger] dotted(octets) ==> !blocked(IpAddress::V4(octets))
}

/// A target is refused for the first of these reasons that holds: it is not of the web, it
/// carries credentials, it has no host, it has no port. Else its own host and port are given.
pub proof fn targets_are_refused_for_the_first_reason(url: UrlView)
    ensures
        ({
            let web = url.scheme == "http"@ || url.scheme == "https"@;
            let open = url.username == Seq::<char>::empty() && !url.has_password;
            &&& target_of(url) is Ok <==> web && open && url.host is Some && url.port is Some
            &&& target_of(url) matches Ok((host, port)) ==> url.host == Some(host) && url.port
                == Some(port)
            &&& !web ==> refusal_message(target_of(url)->Err_0)
                == "only HTTP(S) preview URLs are allowed"@
            &&& web && !open ==> refusal_message(target_of(url)->Err_0)
                == "preview URLs with credentials are not allowed"@
            &&& web && open && url.host is None ==> refusal_message(target_of(url)->Err_0)
                == "preview URL has no host"@
            &&& web && open && url.host is Some && url.port is None ==> refusal_message(
                target_of(url)->Err_0,
            ) == "preview URL has no valid port"@
        }),
{
    if url.username.len() == 0 {
        assert(url.username =~= Seq::<char>::empty());
    }
}

/// A host is contacted only where it has addresses and none of them is refused; what is said of
/// it tells a host that does not resolve from one that leads to a refused address.
pub proof fn one_refused_address_refuses_the_host(addresses: Option<Seq<IpAddress>>)
    ensures
        address_refusal(addresses) is None <==> addresses is Some && addresses->0.len() > 0 && (
        forall|i: int| 0 <= i < addresses->0.len() ==> !blocked(#[trigger] addresses->0[i])),
        addresses is None ==> refusal_message(address_refusal(addresses)->0)
            == "preview hostname could not be resolved"@,
        addresses is Some && address_refusal(addresses) is Some ==> refusal_message(
            address_refusal(addresses)->0,
        ) == "preview target resolves to a private or reserved address"@,
{
}

/// A redirect is followed to the same host and port with the scheme unchanged or made secure,
/// and never to another host, another port or a scheme less secure.
pub proof fn redirects_keep_the_endpoint(current: UrlView, next: UrlView)
    ensures
        next.host != current.host || next.port != current.port ==> !redirect_allowed(
            current,
            next,
        ),
        current.scheme == "https"@ && next.scheme != "https"@ ==> !redirect_allowed(current, next),
        next.host == current.host && next.port == current.port && next.scheme == current.scheme
            ==> redirect_allowed(current, next),
        next.host == current.host && next.port == current.port && current.scheme == "http"@ && (
        next.scheme == "http"@ || next.scheme == "https"@) ==> redirect_allowed(current, next),
        current.scheme != "http"@ && next.scheme != current.scheme ==> !redirect_allowed(
            current,
            next,
        ),
        next.scheme != "https"@ && next.scheme != current.scheme ==> !redirect_allowed(
            current,
            next,
        ),
{
    reveal_strlit("http");
    reveal_strlit("https");
    assert("http"@.len() != "https"@.len());
}

/// Two URLs that differ in scheme, host or port are not of the same origin; the rest of a URL
/// does not count.
pub proof fn origin_is_scheme_host_and_port(left: UrlView, right: UrlView, other: UrlView)
    ensures
        is_same_origin(left, right) ==> left.scheme == right.scheme && left.host == right.host
            && left.port == right.port,
        other.scheme == right.scheme && other.host == right.host && other.port == right.port ==> (
        is_same_origin(left, other) == is_same_origin(left, right)) && is_same_origin(other, right),
{
}

/// An address of version four is written as its four numbers with dots between them.
pub proof fn addresses_are_written_with_dots(octets: [u8; 4])
    ensures
        dotted(octets) == text::decimal(octets@[0] as nat) + seq!['.'] + text::decimal(
            octets@[1] as nat,
        ) + seq!['.'] + text::decimal(octets@[2] as nat) + seq!['.'] + text::decimal(
            octets@[3] as nat,
        ),
{
    reveal_with_fuel(dotted_from, 5);
    assert(dotted(octets) =~= text::decimal(octets@[0] as nat) + seq!['.'] + text::decimal(
        octets@[1] as nat,
    ) + seq!['.'] + text::decimal(octets@[2] as nat) + seq!['.'] + text::decimal(
        octets@[3] as nat,
    ));
}

/// What is refused is refused in words, and what is not is given as it came.
pub proof fn targets_are_judged_by_these_rules(
    url: UrlParts,
    other: UrlParts,
    addresses: Option<Vec<IpAddress>>,
    ip: IpAddress,
    refusal: Refusal,
    target: Result<(String, u16), Refusal>,
    checked: Result<Vec<IpAddress>, Refusal>,
    refused: bool,
    message: String,
    same: bool,
    may: bool,
)
    requires
        call_ensures(preview_target, (&url,), target),
        call_ensures(check_addresses, (addresses,), checked),
        call_ensures(is_blocked_ip, (ip,), refused),
        call_ensures(refusal_text, (refusal,), message),
        call_ensures(same_origin, (&url, &other), same),
        call_ensures(may_redirect, (&url, &other), may),
    ensures
        target is Ok <==> target_of(url@) is Ok,
        target matches Ok(found) ==> url@.host == Some(found.0@) && url@.port == Some(found.1),
        target matches Err(why) ==> target_of(url@) == Err::<(Seq<char>, u16), Refusal>(why),
        checked matches Ok(list) ==> addresses is Some && list@ == addresses->0@ && list@.len() > 0
            && (forall|i: int| 0 <= i < list@.len() ==> !blocked(#[trigger] list@[i])),
        checked is Err && addresses is Some ==> addresses->0@.len() == 0 || exists|i: int|
            0 <= i < addresses->0@.len() && blocked(#[trigger] addresses->0@[i]),
        addresses is None ==> checked is Err,
        refused == blocked(ip),
        message@ == refusal_message(refusal),
        same == is_same_origin(url@, other@),
        may == redirect_allowed(url@, other@),
{
    targets_are_refused_for_the_first_reason(url@);
    one_refused_address_refuses_the_host(opt_addresses(addresses));
}

/// Each reason for a refusal is told in its own words.
pub proof fn refusals_are_told_apart(a: Refusal, b: Refusal)
    ensures
        refusal_message(a) == refusal_message(b) <==> a == b,
        refusal_message(Refusal::Unresolved) == "preview hostname could not be resolved"@,
        refusal_message(Refusal::PrivateAddress)
            == "preview target resolves to a private or reserved address"@,
{
    reveal_strlit("only HTTP(S) preview URLs are allowed");
    reveal_strlit("preview URLs with credentials are not allowed");
    reveal_strlit("preview URL has no host");
    reveal_strlit("preview URL has no valid port");
    reveal_strlit("preview hostname could not be resolved");
    reveal_strlit("preview target resolves to a private or reserved address");
    assert("only HTTP(S) preview URLs are allowed"@.len() == 37);
    assert("preview URLs with credentials are not allowed"@.len() == 45);
    assert("preview URL has no host"@.len() == 23);
    assert("preview URL has no valid port"@.len() == 29);
    assert("preview hostname could not be resolved"@.len() == 38);
    assert("preview target resolves to a private or reserved address"@.len() == 56);
}

} // verus!
