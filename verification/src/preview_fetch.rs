//! The course of fetching a link preview, as a machine that asks for one thing at a time.
//!
//! The machine decides; whoever runs it resolves names, sends requests and reads bodies, and
//! hands back what came of it.

use vstd::prelude::*;
use vstd::string::*;
use vstd::utf8::*;

use crate::matching;
use crate::page_meta;
use crate::preview_data::{LinkPreviewData, LinkPreviewResult, PreviewDataView, PreviewResultView};
use crate::preview_target::{IpAddress, Refusal, UrlParts, UrlView};
use crate::preview_target;
use crate::text;

verus! {

/// The longest URL, in bytes, that a preview is fetched for.
pub const MAX_PREVIEW_URL_LEN: usize = 2048;

/// The most previews that are fetched at the same time.
pub const MAX_CONCURRENT_FETCHES: usize = 8;

/// The most bytes that are read of a page.
pub const MAX_BODY_BYTES: usize = 262_144;

/// The most bytes that are read of a picture.
pub const MAX_IMAGE_BYTES: usize = 2_097_152;

/// The most bytes that are read of a video description.
pub const MAX_OEMBED_BYTES: usize = 65_536;

/// The most redirects that are followed.
pub const MAX_REDIRECTS: u8 = 5;

/// Matches the address of a video; the first group is the video's identifier.
pub const VIDEO_PATTERN: &'static str =
    "(?:youtube\\.com/watch\\?v=|youtu\\.be/)([A-Za-z0-9_-]{11})";

/// The address at which a video is described, up to the video's identifier.
pub const OEMBED_PREFIX: &'static str =
    "https://www.youtube.com/oembed?format=json&url=https://www.youtube.com/watch?v=";

/// The text under `key` of the JSON object that `body` writes; the outer `None` where `body` is
/// not JSON, the inner where the object has no text under `key`.
pub uninterp spec fn json_text(body: Seq<char>, key: Seq<char>) -> Option<Option<Seq<char>>>;

/// `serde_json::from_str`, `Value::get` and `Value::as_str`: the text under a key of a JSON
/// object. What it is, is not stated; the result has a name.
#[verifier::external_body]
fn read_json_text(body: &str, key: &str) -> (field: Option<Option<String>>)
    ensures
        match field {
            Some(value) => json_text(body@, key@) == Some(text::opt_text(value)),
            None => json_text(body@, key@) is None,
        },
{
    let value: serde_json::Value = serde_json::from_str(body).ok()?;
    Some(value.get(key).and_then(|v| v.as_str()).map(|s| s.to_string()))
}

/// `String::from_utf8`: the text that the bytes encode, or `None` where they encode none.
#[verifier::external_body]
fn text_of_bytes(bytes: Vec<u8>) -> (decoded: Option<String>)
    ensures
        decoded is Some <==> valid_utf8(bytes@),
        decoded is Some ==> decoded->0@ == decode_utf8(bytes@),
{
    String::from_utf8(bytes).ok()
}

/// A body that is being read, up to a limit.
#[derive(Debug)]
pub struct BodyBuffer {
    bytes: Vec<u8>,
    limit: usize,
}

/// The first `limit` bytes of `bytes`, or all of them.
pub open spec fn capped(bytes: Seq<u8>, limit: int) -> Seq<u8> {
    if bytes.len() <= limit {
        bytes
    } else {
        bytes.take(limit)
    }
}

impl View for BodyBuffer {
    type V = Seq<u8>;

    closed spec fn view(&self) -> Seq<u8> {
        self.bytes@
    }
}

impl BodyBuffer {
    /// The most bytes that the buffer takes.
    pub closed spec fn limit_spec(&self) -> int {
        self.limit as int
    }

    /// The buffer holds no more than its limit.
    pub open spec fn wf(&self) -> bool {
        self@.len() <= self.limit_spec()
    }

    /// An empty buffer that takes up to `limit` bytes.
    pub fn new(limit: usize) -> (buffer: Self)
        ensures
            buffer.wf(),
            buffer@ == Seq::<u8>::empty(),
            buffer.limit_spec() == limit,
    {
        BodyBuffer { bytes: Vec::new(), limit }
    }

    /// Takes the next chunk as far as there is room; tells whether there is room for more.
    pub fn push_chunk(&mut self, chunk: &[u8]) -> (room: bool)
        requires
            old(self).wf(),
        ensures
            final(self).wf(),
            final(self).limit_spec() == old(self).limit_spec(),
            final(self)@ == capped(old(self)@ + chunk@, old(self).limit_spec()),
            room == (final(self)@.len() < old(self).limit_spec()),
    {
        let ghost before = self.bytes@;
        let remaining: usize = self.limit - self.bytes.len();
        let end: usize = if chunk.len() <= remaining {
            chunk.len()
        } else {
            remaining
        };
        let mut i: usize = 0;
        while i < end
            invariant
                i <= end <= chunk.len(),
                self.bytes@ == before + chunk@.take(i as int),
                self.limit == old(self).limit,
            decreases end - i,
        {
            self.bytes.push(chunk[i]);
            assert(chunk@.take(i as int).push(chunk@[i as int]) =~= chunk@.take(i + 1));
            i += 1;
        }
        proof {
            if chunk@.len() <= remaining {
                assert(chunk@.take(end as int) =~= chunk@);
            } else {
                assert((before + chunk@).take(self.limit as int) =~= before + chunk@.take(
                    end as int,
                ));
            }
        }
        self.bytes.len() < self.limit
    }

    /// The bytes that were read.
    pub fn into_bytes(self) -> (bytes: Vec<u8>)
        ensures
            bytes@ == self@,
    {
        self.bytes
    }
}

/// However a body is cut into chunks, the buffer ends up with its first bytes.
pub proof fn chunking_does_not_matter(body: Seq<u8>, first: Seq<u8>, limit: int)
    requires
        0 <= limit,
    ensures
        capped(capped(first, limit) + body, limit) == capped(first + body, limit),
{
    assert(capped(capped(first, limit) + body, limit) =~= capped(first + body, limit));
}

/// What is kept of a body are its first bytes, all of them where they are within the limit.
pub proof fn bodies_are_cut_at_the_limit(bytes: Seq<u8>, limit: int, i: int)
    requires
        0 <= limit,
    ensures
        bytes.len() <= limit ==> capped(bytes, limit).len() == bytes.len(),
        bytes.len() > limit ==> capped(bytes, limit).len() == limit,
        0 <= i < capped(bytes, limit).len() ==> capped(bytes, limit)[i] == bytes[i],
{
}

/// A request on its way: where it goes and how many redirects led there.
#[derive(Debug)]
pub struct Hop {
    /// The URL that is requested.
    pub current: UrlParts,
    /// Its host.
    pub host: String,
    /// Its port.
    pub port: u16,
    /// How many redirects were followed to get there.
    pub followed: u8,
}

/// What a [`Hop`] holds.
pub struct HopView {
    pub current: UrlView,
    pub host: Seq<char>,
    pub port: u16,
    pub followed: u8,
}

impl View for Hop {
    type V = HopView;

    open spec fn view(&self) -> HopView {
        HopView {
            current: self.current@,
            host: self.host@,
            port: self.port,
            followed: self.followed,
        }
    }
}

/// How far a fetch has come, and what it waits for.
#[derive(Debug)]
pub enum FetchStage {
    /// The addresses of the page's host; the URL stands on the register.
    Admitting(UrlParts),
    /// A permit to go on.
    AwaitingPermit(UrlParts),
    /// The addresses of the host that describes videos.
    VideoResolving(UrlParts, Hop),
    /// The answer of the host that describes videos.
    VideoRequested(UrlParts),
    /// The description of the video.
    VideoReading(UrlParts),
    /// The addresses of the page's host.
    PageResolving(UrlParts, Hop),
    /// The answer of the page's host.
    PageRequested(UrlParts, Hop),
    /// The page.
    PageReading(UrlParts),
    /// The addresses of the picture's host.
    ImageResolving(LinkPreviewData, Hop),
    /// The answer of the picture's host.
    ImageRequested(LinkPreviewData, Hop),
    /// The picture.
    ImageReading(LinkPreviewData),
    /// Nothing: the result is there.
    Finished,
}

/// What a [`FetchStage`] holds.
pub enum StageView {
    Admitting(UrlView),
    AwaitingPermit(UrlView),
    VideoResolving(UrlView, HopView),
    VideoRequested(UrlView),
    VideoReading(UrlView),
    PageResolving(UrlView, HopView),
    PageRequested(UrlView, HopView),
    PageReading(UrlView),
    ImageResolving(PreviewDataView, HopView),
    ImageRequested(PreviewDataView, HopView),
    ImageReading(PreviewDataView),
    Finished,
}

impl View for FetchStage {
    type V = StageView;

    open spec fn view(&self) -> StageView {
        match self {
            FetchStage::Admitting(page) => StageView::Admitting(page@),
            FetchStage::AwaitingPermit(page) => StageView::AwaitingPermit(page@),
            FetchStage::VideoResolving(page, hop) => StageView::VideoResolving(page@, hop@),
            FetchStage::VideoRequested(page) => StageView::VideoRequested(page@),
            FetchStage::VideoReading(page) => StageView::VideoReading(page@),
            FetchStage::PageResolving(page, hop) => StageView::PageResolving(page@, hop@),
            FetchStage::PageRequested(page, hop) => StageView::PageRequested(page@, hop@),
            FetchStage::PageReading(page) => StageView::PageReading(page@),
            FetchStage::ImageResolving(data, hop) => StageView::ImageResolving(data@, hop@),
            FetchStage::ImageRequested(data, hop) => StageView::ImageRequested(data@, hop@),
            FetchStage::ImageReading(data) => StageView::ImageReading(data@),
            FetchStage::Finished => StageView::Finished,
        }
    }
}

/// What a fetch asks for next.
#[derive(Debug)]
pub enum FetchAction {
    /// Resolve a host.
    Resolve { host: String, port: u16 },
    /// Wait for one of the [`MAX_CONCURRENT_FETCHES`] permits.
    AcquirePermit,
    /// Request a URL, connecting to no other than the given addresses.
    Get {
        url: String,
        host: String,
        port: u16,
        addresses: Vec<IpAddress>,
        privacy_headers: bool,
    },
    /// Read the body of the answer, up to a limit.
    ReadBody { limit: usize },
    /// Deliver the result; `release` tells to take the URL off the register.
    Finish { result: LinkPreviewResult, release: bool },
}

/// What a [`FetchAction`] holds.
pub enum ActionView {
    Resolve { host: Seq<char>, port: u16 },
    AcquirePermit,
    Get {
        url: Seq<char>,
        host: Seq<char>,
        port: u16,
        addresses: Seq<IpAddress>,
        privacy_headers: bool,
    },
    ReadBody { limit: usize },
    Finish { result: PreviewResultView, release: bool },
}

impl View for FetchAction {
    type V = ActionView;

    open spec fn view(&self) -> ActionView {
        match self {
            FetchAction::Resolve { host, port } => ActionView::Resolve { host: host@, port: *port },
            FetchAction::AcquirePermit => ActionView::AcquirePermit,
            FetchAction::Get { url, host, port, addresses, privacy_headers } => ActionView::Get {
                url: url@,
                host: host@,
                port: *port,
                addresses: addresses@,
                privacy_headers: *privacy_headers,
            },
            FetchAction::ReadBody { limit } => ActionView::ReadBody { limit: *limit },
            FetchAction::Finish { result, release } => ActionView::Finish {
                result: result@,
                release: *release,
            },
        }
    }
}

/// A fetch in its course.
#[derive(Debug)]
pub struct PreviewFetch {
    /// The URL whose preview is fetched.
    pub url: String,
    /// How far it has come.
    pub stage: FetchStage,
}

/// What a [`PreviewFetch`] holds.
pub struct FetchView {
    pub url: Seq<char>,
    pub stage: StageView,
}

impl View for PreviewFetch {
    type V = FetchView;

    open spec fn view(&self) -> FetchView {
        FetchView { url: self.url@, stage: self.stage@ }
    }
}

/// What the head of an answer says.
#[derive(Debug)]
pub struct ResponseHead {
    /// The status code.
    pub status: u16,
    /// Where a redirect leads, if that is given and readable.
    pub location: Option<String>,
    /// The kind of content, empty where it is not given.
    pub content_type: String,
}

/// A fetch with what it asks for next.
pub type Step = (PreviewFetch, FetchAction);

/// What a fetch and its next action hold.
pub struct StepView {
    pub fetch: FetchView,
    pub action: ActionView,
}

/// What a [`Step`] holds.
pub open spec fn step_view(step: Step) -> StepView {
    StepView { fetch: step.0@, action: step.1@ }
}

/// The fetch of `url` is over with `result`.
pub open spec fn finished(url: Seq<char>, result: PreviewResultView, release: bool) -> StepView {
    StepView {
        fetch: FetchView { url, stage: StageView::Finished },
        action: ActionView::Finish { result, release },
    }
}

/// The fetch of `url` is over with an error; the URL was registered.
pub open spec fn failed(url: Seq<char>, message: Seq<char>) -> StepView {
    finished(url, PreviewResultView::Error(message), true)
}

/// The fetch of `url` is over with a preview.
pub open spec fn succeeded(url: Seq<char>, data: PreviewDataView) -> StepView {
    finished(url, PreviewResultView::Success(data), true)
}

/// The fetch goes on in `stage`, with the host of `hop` to be resolved.
pub open spec fn resolving(url: Seq<char>, stage: StageView, hop: HopView) -> StepView {
    StepView {
        fetch: FetchView { url, stage },
        action: ActionView::Resolve { host: hop.host, port: hop.port },
    }
}

/// The fetch goes on in `stage`, with a request to one of `addresses`.
pub open spec fn requesting(
    url: Seq<char>,
    stage: StageView,
    hop: HopView,
    addresses: Seq<IpAddress>,
    privacy_headers: bool,
) -> StepView {
    StepView {
        fetch: FetchView { url, stage },
        action: ActionView::Get {
            url: hop.current.href,
            host: hop.host,
            port: hop.port,
            addresses,
            privacy_headers,
        },
    }
}

/// The fetch goes on in `stage`, with a body to be read.
pub open spec fn reading(url: Seq<char>, stage: StageView, limit: usize) -> StepView {
    StepView { fetch: FetchView { url, stage }, action: ActionView::ReadBody { limit } }
}

/// A hop to `to` after `followed` redirects, or why `to` is refused.
pub open spec fn hop_to(to: UrlView, followed: u8) -> Result<HopView, Refusal> {
    match preview_target::target_of(to) {
        Ok((host, port)) => Ok(HopView { current: to, host, port, followed }),
        Err(refusal) => Err(refusal),
    }
}

/// A hop to `to` after `followed` redirects, or why `to` is refused.
fn make_hop(to: UrlParts, followed: u8) -> (hop: Result<Hop, Refusal>)
    ensures
        match hop {
            Ok(h) => hop_to(to@, followed) == Ok::<HopView, Refusal>(h@),
            Err(refusal) => hop_to(to@, followed) == Err::<HopView, Refusal>(refusal),
        },
{
    match preview_target::preview_target(&to) {
        Ok((host, port)) => Ok(Hop { current: to, host, port, followed }),
        Err(refusal) => Err(refusal),
    }
}

/// A copy of URL parts.
fn copy_parts(parts: &UrlParts) -> (copy: UrlParts)
    ensures
        copy@ == parts@,
{
    UrlParts {
        href: parts.href.clone(),
        scheme: parts.scheme.clone(),
        username: parts.username.clone(),
        has_password: parts.has_password,
        host: text::clone_opt(&parts.host),
        port: parts.port,
    }
}

/// What becomes of the addresses of the page's host: where they may be contacted, the fetch
/// waits for a permit.
pub open spec fn admitted(
    url: Seq<char>,
    page: UrlView,
    addresses: Option<Seq<IpAddress>>,
) -> StepView {
    match preview_target::address_refusal(addresses) {
        Some(refusal) => failed(url, preview_target::refusal_message(refusal)),
        None => StepView {
            fetch: FetchView { url, stage: StageView::AwaitingPermit(page) },
            action: ActionView::AcquirePermit,
        },
    }
}

/// The URL is registered when its fetch begins: it is not too long, it parses to a URL that may
/// be contacted as far as can be told, and it does not stand on the register yet.
pub open spec fn registers(url: Seq<char>, parsed: Option<UrlView>, in_flight: bool) -> bool {
    &&& encode_utf8(url).len() <= MAX_PREVIEW_URL_LEN
    &&& parsed is Some
    &&& !in_flight
    &&& preview_target::target_of(parsed->0) is Ok
}

/// The register when the fetch of `url` has begun, where it was `register` before.
pub open spec fn register_after(
    register: Set<Seq<char>>,
    url: Seq<char>,
    parsed: Option<UrlView>,
) -> Set<Seq<char>> {
    if registers(url, parsed, register.contains(url)) {
        register.insert(url)
    } else {
        register
    }
}

/// What the fetch of `url` does first, where `parsed` is what the URL parses to and `in_flight`
/// tells whether it is being fetched already. A duplicate is answered at once.
pub open spec fn begin_spec(url: Seq<char>, parsed: Option<UrlView>, in_flight: bool) -> StepView {
    if encode_utf8(url).len() > MAX_PREVIEW_URL_LEN {
        finished(url, PreviewResultView::Error("URL too long"@), false)
    } else {
        match parsed {
            None => finished(url, PreviewResultView::Error("invalid preview URL"@), false),
            Some(page) => if in_flight {
                finished(url, PreviewResultView::Pending, false)
            } else {
                match preview_target::target_of(page) {
                    Err(refusal) => finished(
                        url,
                        PreviewResultView::Error(preview_target::refusal_message(refusal)),
                        false,
                    ),
                    Ok((host, port)) => match preview_target::literal_of(host) {
                        Some(ip) => admitted(url, page, Some(seq![ip])),
                        None => StepView {
                            fetch: FetchView { url, stage: StageView::Admitting(page) },
                            action: ActionView::Resolve { host, port },
                        },
                    },
                }
            },
        }
    }
}

/// What becomes of the addresses of the page's host at a hop.
pub open spec fn page_addressed(
    url: Seq<char>,
    page: UrlView,
    hop: HopView,
    addresses: Option<Seq<IpAddress>>,
) -> StepView {
    match preview_target::address_refusal(addresses) {
        Some(refusal) => failed(url, preview_target::refusal_message(refusal)),
        None => requesting(url, StageView::PageRequested(page, hop), hop, addresses->0, true),
    }
}

/// The page is asked for at a hop; a host that is an address itself is not looked up.
pub open spec fn page_at(url: Seq<char>, page: UrlView, hop: HopView) -> StepView {
    match preview_target::literal_of(hop.host) {
        Some(ip) => page_addressed(url, page, hop, Some(seq![ip])),
        None => resolving(url, StageView::PageResolving(page, hop), hop),
    }
}

/// The fetch turns to the page itself.
pub open spec fn page_spec(url: Seq<char>, page: UrlView) -> StepView {
    match hop_to(page, 0) {
        Err(refusal) => failed(url, preview_target::refusal_message(refusal)),
        Ok(hop) => page_at(url, page, hop),
    }
}

/// What becomes of the addresses of the host that describes videos.
pub open spec fn video_addressed(
    url: Seq<char>,
    page: UrlView,
    hop: HopView,
    addresses: Option<Seq<IpAddress>>,
) -> StepView {
    match preview_target::address_refusal(addresses) {
        Some(_) => page_spec(url, page),
        None => requesting(url, StageView::VideoRequested(page), hop, addresses->0, false),
    }
}

/// The description of the video is asked for.
pub open spec fn video_at(url: Seq<char>, page: UrlView, hop: HopView) -> StepView {
    match preview_target::literal_of(hop.host) {
        Some(ip) => video_addressed(url, page, hop, Some(seq![ip])),
        None => resolving(url, StageView::VideoResolving(page, hop), hop),
    }
}

/// The fetch turns to the description of the video, where there is one, else to the page.
pub open spec fn video_spec(url: Seq<char>, page: UrlView, oembed: Option<UrlView>) -> StepView {
    match oembed {
        None => page_spec(url, page),
        Some(target) => match hop_to(target, 0) {
            Err(_) => page_spec(url, page),
            Ok(hop) => video_at(url, page, hop),
        },
    }
}

/// What becomes of the addresses of the picture's host at a hop.
pub open spec fn image_addressed(
    url: Seq<char>,
    data: PreviewDataView,
    hop: HopView,
    addresses: Option<Seq<IpAddress>>,
) -> StepView {
    match preview_target::address_refusal(addresses) {
        Some(_) => succeeded(url, data),
        None => requesting(url, StageView::ImageRequested(data, hop), hop, addresses->0, true),
    }
}

/// The picture is asked for at a hop.
pub open spec fn image_at(url: Seq<char>, data: PreviewDataView, hop: HopView) -> StepView {
    match preview_target::literal_of(hop.host) {
        Some(ip) => image_addressed(url, data, hop, Some(seq![ip])),
        None => resolving(url, StageView::ImageResolving(data, hop), hop),
    }
}

/// The fetch turns to the picture at `parsed`, where that is a URL that may be contacted.
pub open spec fn image_spec(
    url: Seq<char>,
    data: PreviewDataView,
    parsed: Option<UrlView>,
) -> StepView {
    match parsed {
        None => succeeded(url, data),
        Some(target) => match hop_to(target, 0) {
            Err(_) => succeeded(url, data),
            Ok(hop) => image_at(url, data, hop),
        },
    }
}

/// What the picture's address parses to; inline data is no address.
pub open spec fn image_target(image_url: Seq<char>) -> Option<UrlView> {
    if text::has_prefix(image_url, "data:"@) {
        None
    } else {
        preview_target::url_parsed(image_url)
    }
}

/// What is done with the resolved addresses.
pub open spec fn resolved_spec(fetch: FetchView, addresses: Option<Seq<IpAddress>>) -> StepView {
    let url = fetch.url;
    match fetch.stage {
        StageView::Admitting(page) => admitted(url, page, addresses),
        StageView::VideoResolving(page, hop) => video_addressed(url, page, hop, addresses),
        StageView::PageResolving(page, hop) => page_addressed(url, page, hop, addresses),
        StageView::ImageResolving(data, hop) => image_addressed(url, data, hop, addresses),
        _ => finished(url, PreviewResultView::Pending, false),
    }
}

/// The fetch waits for addresses.
pub open spec fn awaits_addresses(stage: StageView) -> bool {
    stage is Admitting || stage is VideoResolving || stage is PageResolving
        || stage is ImageResolving
}

/// The fetch waits for an answer.
pub open spec fn awaits_response(stage: StageView) -> bool {
    stage is VideoRequested || stage is PageRequested || stage is ImageRequested
}

/// The fetch waits for a body.
pub open spec fn awaits_body(stage: StageView) -> bool {
    stage is VideoReading || stage is PageReading || stage is ImageReading
}

/// What comes of an answer on the way.
#[derive(Debug)]
pub enum HopStep {
    /// It is the final one.
    Arrived,
    /// It leads on.
    Follow(Hop),
    /// It leads nowhere.
    Failed(String),
}

/// What a [`HopStep`] holds.
pub enum HopStepView {
    Arrived,
    Follow(HopView),
    Failed(Seq<char>),
}

impl View for HopStep {
    type V = HopStepView;

    open spec fn view(&self) -> HopStepView {
        match self {
            HopStep::Arrived => HopStepView::Arrived,
            HopStep::Follow(hop) => HopStepView::Follow(hop@),
            HopStep::Failed(message) => HopStepView::Failed(message@),
        }
    }
}

/// The status code asks to go elsewhere.
pub open spec fn is_redirect(status: u16) -> bool {
    300 <= status < 400
}

/// Where a redirect from `hop` to `next` leads.
pub open spec fn redirect_spec(hop: HopView, next: Option<UrlView>) -> HopStepView {
    match next {
        None => HopStepView::Failed("redirect location is invalid"@),
        Some(target) => if !preview_target::redirect_allowed(hop.current, target) {
            HopStepView::Failed("cross-origin preview redirect blocked"@)
        } else if hop.followed >= MAX_REDIRECTS {
            HopStepView::Failed("too many redirects"@)
        } else {
            match hop_to(target, (hop.followed + 1) as u8) {
                Err(refusal) => HopStepView::Failed(preview_target::refusal_message(refusal)),
                Ok(next_hop) => HopStepView::Follow(next_hop),
            }
        },
    }
}

/// What comes of an answer with this status and location.
pub open spec fn hop_step_spec(
    hop: HopView,
    status: u16,
    location: Option<Seq<char>>,
) -> HopStepView {
    if !is_redirect(status) {
        HopStepView::Arrived
    } else {
        match location {
            None => HopStepView::Failed("redirect has no valid location"@),
            Some(to) => redirect_spec(hop, preview_target::url_joined(hop.current.href, to)),
        }
    }
}

/// Where a redirect from `hop` to `next` leads.
pub fn follow_redirect(hop: &Hop, next: Option<UrlParts>) -> (step: HopStep)
    ensures
        step@ == redirect_spec(hop@, preview_target::opt_url(next)),
{
    match next {
        None => HopStep::Failed("redirect location is invalid".to_owned()),
        Some(target) => {
            if !preview_target::may_redirect(&hop.current, &target) {
                HopStep::Failed("cross-origin preview redirect blocked".to_owned())
            } else if hop.followed >= MAX_REDIRECTS {
                HopStep::Failed("too many redirects".to_owned())
            } else {
                match make_hop(target, hop.followed + 1) {
                    Err(refusal) => HopStep::Failed(preview_target::refusal_text(refusal)),
                    Ok(next_hop) => HopStep::Follow(next_hop),
                }
            }
        },
    }
}

/// What comes of an answer with this status and location.
pub fn take_hop(hop: &Hop, status: u16, location: &Option<String>) -> (step: HopStep)
    ensures
        step@ == hop_step_spec(hop@, status, text::opt_text(*location)),
{
    if !(300 <= status && status < 400) {
        return HopStep::Arrived;
    }
    match location {
        None => HopStep::Failed("redirect has no valid location".to_owned()),
        Some(to) => {
            let next = preview_target::join_url(hop.current.href.as_str(), to.as_str());
            follow_redirect(hop, next)
        },
    }
}

/// The content is a page.
pub open spec fn is_page_type(content_type: Seq<char>) -> bool {
    text::occurs(content_type, "text/html"@) || text::occurs(content_type, "application/xhtml"@)
}

/// What is done with the answer; an error is given as the text to show.
pub open spec fn response_spec(
    fetch: FetchView,
    answer: Result<(u16, Option<Seq<char>>, Seq<char>), Seq<char>>,
) -> StepView {
    let url = fetch.url;
    match fetch.stage {
        StageView::VideoRequested(page) => match answer {
            Err(_) => page_spec(url, page),
            Ok(_) => reading(url, StageView::VideoReading(page), MAX_OEMBED_BYTES),
        },
        StageView::PageRequested(page, hop) => match answer {
            Err(message) => failed(url, message),
            Ok((status, location, content_type)) => match hop_step_spec(hop, status, location) {
                HopStepView::Failed(message) => failed(url, message),
                HopStepView::Follow(next) => page_at(url, page, next),
                HopStepView::Arrived => if is_page_type(content_type) {
                    reading(url, StageView::PageReading(page), MAX_BODY_BYTES)
                } else {
                    failed(url, "not HTML ("@ + content_type + ")"@)
                },
            },
        },
        StageView::ImageRequested(data, hop) => match answer {
            Err(_) => succeeded(url, data),
            Ok((status, location, content_type)) => match hop_step_spec(hop, status, location) {
                HopStepView::Failed(_) => succeeded(url, data),
                HopStepView::Follow(next) => image_at(url, data, next),
                HopStepView::Arrived => if text::has_prefix(content_type, "image/"@) {
                    reading(url, StageView::ImageReading(data), MAX_IMAGE_BYTES)
                } else {
                    succeeded(url, data)
                },
            },
        },
        _ => finished(url, PreviewResultView::Pending, false),
    }
}

/// What the head of an answer, or the error in its place, holds.
pub open spec fn answer_view(answer: Result<ResponseHead, String>) -> Result<
    (u16, Option<Seq<char>>, Seq<char>),
    Seq<char>,
> {
    match answer {
        Ok(head) => Ok((head.status, text::opt_text(head.location), head.content_type@)),
        Err(message) => Err(message@),
    }
}

/// The preview of a video.
pub open spec fn video_data(
    url: Seq<char>,
    title: Option<Seq<char>>,
    thumbnail: Option<Seq<char>>,
) -> PreviewDataView {
    PreviewDataView { url, title, description: None, image_url: thumbnail, image_bytes: None }
}

/// The address of a thumbnail in its best quality.
pub open spec fn best_thumbnail(thumbnail: Seq<char>) -> Seq<char> {
    text::replaced(thumbnail, "hqdefault"@, "maxresdefault"@)
}

/// What is done with a video's description; `title` and `thumbnail` are what it says.
pub open spec fn video_read_spec(
    url: Seq<char>,
    title: Option<Seq<char>>,
    thumbnail: Option<Seq<char>>,
) -> StepView {
    let data = video_data(url, title, thumbnail);
    match thumbnail {
        None => succeeded(url, data),
        Some(t) => image_spec(url, data, image_target(best_thumbnail(t))),
    }
}

/// What the page with body `html` says of itself.
pub open spec fn page_data(url: Seq<char>, html: Seq<char>) -> PreviewDataView {
    PreviewDataView {
        url,
        title: page_meta::page_title(html),
        description: page_meta::page_description(html),
        image_url: matching::regex_group_one(page_meta::IMAGE_PATTERN@, html),
        image_bytes: None,
    }
}

/// The picture of a page is fetched only from the page's own origin.
pub open spec fn own_image(page: UrlView, image: Option<UrlView>) -> Option<UrlView> {
    match image {
        Some(target) => if preview_target::is_same_origin(page, target) {
            image
        } else {
            None
        },
        None => None,
    }
}

/// What is done with a page; `image` is what its picture's address parses to.
pub open spec fn page_read_spec(
    url: Seq<char>,
    page: UrlView,
    data: PreviewDataView,
    image: Option<UrlView>,
) -> StepView {
    image_spec(url, data, own_image(page, image))
}

/// `inner`, where there is one.
pub open spec fn flattened(outer: Option<Option<Seq<char>>>) -> Option<Seq<char>> {
    match outer {
        Some(inner) => inner,
        None => None,
    }
}

/// What is done with the body; an error is given as the text to show.
pub open spec fn body_spec(fetch: FetchView, body: Result<Seq<u8>, Seq<char>>) -> StepView {
    let url = fetch.url;
    match fetch.stage {
        StageView::VideoReading(page) => match body {
            Err(_) => page_spec(url, page),
            Ok(bytes) => {
                let json = decode_utf8(bytes);
                if !valid_utf8(bytes) || json_text(json, "title"@) is None {
                    page_spec(url, page)
                } else {
                    video_read_spec(
                        url,
                        flattened(json_text(json, "title"@)),
                        flattened(json_text(json, "thumbnail_url"@)),
                    )
                }
            },
        },
        StageView::PageReading(page) => match body {
            Err(message) => failed(url, message),
            Ok(bytes) => if !valid_utf8(bytes) {
                failed(url, "body is not valid UTF-8"@)
            } else {
                let data = page_data(url, decode_utf8(bytes));
                match data.image_url {
                    None => succeeded(url, data),
                    Some(image) => page_read_spec(
                        url,
                        page,
                        data,
                        image_target(image),
                    ),
                }
            },
        },
        StageView::ImageReading(data) => match body {
            Err(_) => succeeded(url, data),
            Ok(bytes) => succeeded(
                url,
                PreviewDataView { image_bytes: Some(bytes), ..data },
            ),
        },
        _ => finished(url, PreviewResultView::Pending, false),
    }
}

/// What a body, or the error in its place, holds.
pub open spec fn body_view(body: Result<Vec<u8>, String>) -> Result<Seq<u8>, Seq<char>> {
    match body {
        Ok(bytes) => Ok(bytes@),
        Err(message) => Err(message@),
    }
}

/// What is done once it is known whether a permit is there; `oembed` is what the address of
/// the video's description parses to, where the URL is that of a video.
pub open spec fn permit_spec(fetch: FetchView, granted: bool, oembed: Option<UrlView>) -> StepView {
    if granted {
        video_spec(fetch.url, fetch.stage->AwaitingPermit_0, oembed)
    } else {
        failed(fetch.url, "semaphore closed"@)
    }
}

/// What the address of the description of the video at `url` parses to.
pub open spec fn oembed_target(url: Seq<char>) -> Option<UrlView> {
    match matching::regex_group_one(VIDEO_PATTERN@, url) {
        None => None,
        Some(id) => preview_target::url_parsed(OEMBED_PREFIX@ + id),
    }
}

/// The fetch is over with `result`.
fn finish(url: String, result: LinkPreviewResult, release: bool) -> (step: Step)
    ensures
        step_view(step) == finished(url@, result@, release),
{
    (
        PreviewFetch { url, stage: FetchStage::Finished },
        FetchAction::Finish { result, release },
    )
}

/// The fetch is over with an error.
fn fail(url: String, message: String) -> (step: Step)
    ensures
        step_view(step) == failed(url@, message@),
{
    finish(url, LinkPreviewResult::Error(message), true)
}

/// The fetch is over with a preview.
fn succeed(url: String, data: LinkPreviewData) -> (step: Step)
    ensures
        step_view(step) == succeeded(url@, data@),
{
    finish(url, LinkPreviewResult::Success(data), true)
}

/// What becomes of the addresses of the page's host.
fn address_first(url: String, page: UrlParts, addresses: Option<Vec<IpAddress>>) -> (step: Step)
    ensures
        step_view(step) == admitted(url@, page@, preview_target::opt_addresses(addresses)),
{
    match preview_target::check_addresses(addresses) {
        Err(refusal) => fail(url, preview_target::refusal_text(refusal)),
        Ok(_) => (
            PreviewFetch { url, stage: FetchStage::AwaitingPermit(page) },
            FetchAction::AcquirePermit,
        ),
    }
}

/// The list of one address.
fn only(ip: IpAddress) -> (addresses: Option<Vec<IpAddress>>)
    ensures
        preview_target::opt_addresses(addresses) == Some(seq![ip]),
{
    let mut list: Vec<IpAddress> = Vec::new();
    list.push(ip);
    assert(list@ =~= seq![ip]);
    Some(list)
}

/// Starts to fetch the preview of `url`, which parses to `parsed`; see [`begin`].
pub fn begin_parsed(url: &str, parsed: Option<UrlParts>, register: &mut InFlightUrls) -> (step:
    Step)
    requires
        old(register).wf(),
    ensures
        final(register).wf(),
        step_view(step) == begin_spec(
            url@,
            preview_target::opt_url(parsed),
            old(register)@.contains(url@),
        ),
        final(register)@ == register_after(
            old(register)@,
            url@,
            preview_target::opt_url(parsed),
        ),
{
    let owned = url.to_owned();
    if text::byte_len(url) > MAX_PREVIEW_URL_LEN {
        return finish(owned, LinkPreviewResult::Error("URL too long".to_owned()), false);
    }
    match parsed {
        None => finish(owned, LinkPreviewResult::Error("invalid preview URL".to_owned()), false),
        Some(page) => {
            if register.contains(url) {
                return finish(owned, LinkPreviewResult::Pending, false);
            }
            match preview_target::preview_target(&page) {
                Err(refusal) => finish(
                    owned,
                    LinkPreviewResult::Error(preview_target::refusal_text(refusal)),
                    false,
                ),
                Ok((host, port)) => {
                    register.register(url);
                    match preview_target::ipv4_literal(host.as_str()) {
                        Some(ip) => address_first(owned, page, only(ip)),
                        None => (
                            PreviewFetch { url: owned, stage: FetchStage::Admitting(page) },
                            FetchAction::Resolve { host, port },
                        ),
                    }
                },
            }
        },
    }
}

/// Starts to fetch the preview of `url`.
///
/// A URL that stands on the register is being fetched already: the answer is `Pending` at once,
/// and the register stays as it is. Any other URL that may be contacted is put on the register.
pub fn begin(url: &str, register: &mut InFlightUrls) -> (step: Step)
    requires
        old(register).wf(),
    ensures
        final(register).wf(),
        step_view(step) == begin_spec(
            url@,
            preview_target::url_parsed(url@),
            old(register)@.contains(url@),
        ),
        final(register)@ == register_after(
            old(register)@,
            url@,
            preview_target::url_parsed(url@),
        ),
{
    let parsed = preview_target::parse_url(url);
    begin_parsed(url, parsed, register)
}

/// What becomes of the addresses of the page's host at a hop.
fn address_page(url: String, page: UrlParts, hop: Hop, addresses: Option<Vec<IpAddress>>) -> (step:
    Step)
    ensures
        step_view(step) == page_addressed(
            url@,
            page@,
            hop@,
            preview_target::opt_addresses(addresses),
        ),
{
    match preview_target::check_addresses(addresses) {
        Err(refusal) => fail(url, preview_target::refusal_text(refusal)),
        Ok(list) => {
            let action = request(&hop, list, true);
            (PreviewFetch { url, stage: FetchStage::PageRequested(page, hop) }, action)
        },
    }
}

/// The page is asked for at a hop.
fn ask_page(url: String, page: UrlParts, hop: Hop) -> (step: Step)
    ensures
        step_view(step) == page_at(url@, page@, hop@),
{
    match preview_target::ipv4_literal(hop.host.as_str()) {
        Some(ip) => address_page(url, page, hop, only(ip)),
        None => {
            let action = FetchAction::Resolve { host: hop.host.clone(), port: hop.port };
            (PreviewFetch { url, stage: FetchStage::PageResolving(page, hop) }, action)
        },
    }
}

/// What becomes of the addresses of the host that describes videos.
fn address_video(url: String, page: UrlParts, hop: Hop, addresses: Option<Vec<IpAddress>>) -> (step:
    Step)
    ensures
        step_view(step) == video_addressed(
            url@,
            page@,
            hop@,
            preview_target::opt_addresses(addresses),
        ),
{
    match preview_target::check_addresses(addresses) {
        Err(_) => go_to_page(url, page),
        Ok(list) => {
            let action = request(&hop, list, false);
            (PreviewFetch { url, stage: FetchStage::VideoRequested(page) }, action)
        },
    }
}

/// What becomes of the addresses of the picture's host at a hop.
fn address_image(
    url: String,
    data: LinkPreviewData,
    hop: Hop,
    addresses: Option<Vec<IpAddress>>,
) -> (step: Step)
    ensures
        step_view(step) == image_addressed(
            url@,
            data@,
            hop@,
            preview_target::opt_addresses(addresses),
        ),
{
    match preview_target::check_addresses(addresses) {
        Err(_) => succeed(url, data),
        Ok(list) => {
            let action = request(&hop, list, true);
            (PreviewFetch { url, stage: FetchStage::ImageRequested(data, hop) }, action)
        },
    }
}

/// The picture is asked for at a hop.
fn ask_image(url: String, data: LinkPreviewData, hop: Hop) -> (step: Step)
    ensures
        step_view(step) == image_at(url@, data@, hop@),
{
    match preview_target::ipv4_literal(hop.host.as_str()) {
        Some(ip) => address_image(url, data, hop, only(ip)),
        None => {
            let action = FetchAction::Resolve { host: hop.host.clone(), port: hop.port };
            (PreviewFetch { url, stage: FetchStage::ImageResolving(data, hop) }, action)
        },
    }
}

/// The fetch turns to the page itself.
fn go_to_page(url: String, page: UrlParts) -> (step: Step)
    ensures
        step_view(step) == page_spec(url@, page@),
{
    match make_hop(copy_parts(&page), 0) {
        Err(refusal) => fail(url, preview_target::refusal_text(refusal)),
        Ok(hop) => ask_page(url, page, hop),
    }
}

/// The fetch turns to the picture at `target`, where that may be contacted.
fn go_to_image(url: String, data: LinkPreviewData, target: Option<UrlParts>) -> (step: Step)
    ensures
        step_view(step) == image_spec(url@, data@, preview_target::opt_url(target)),
{
    match target {
        None => succeed(url, data),
        Some(parts) => match make_hop(parts, 0) {
            Err(_) => succeed(url, data),
            Ok(hop) => ask_image(url, data, hop),
        },
    }
}

/// What the picture's address parses to; inline data is no address.
fn parse_image_url(image_url: &str) -> (target: Option<UrlParts>)
    ensures
        preview_target::opt_url(target) == image_target(image_url@),
{
    if text::starts_with(image_url, "data:") {
        None
    } else {
        preview_target::parse_url(image_url)
    }
}

/// The request for `hop`, to be sent to one of `addresses`.
fn request(hop: &Hop, addresses: Vec<IpAddress>, privacy_headers: bool) -> (action: FetchAction)
    ensures
        action@ == (ActionView::Get {
            url: hop@.current.href,
            host: hop@.host,
            port: hop@.port,
            addresses: addresses@,
            privacy_headers,
        }),
{
    FetchAction::Get {
        url: hop.current.href.clone(),
        host: hop.host.clone(),
        port: hop.port,
        addresses,
        privacy_headers,
    }
}

impl PreviewFetch {
    /// Goes on with what the host resolved to, `None` where it did not resolve.
    pub fn on_resolved(self, addresses: Option<Vec<IpAddress>>) -> (step: Step)
        requires
            awaits_addresses(self@.stage),
        ensures
            step_view(step) == resolved_spec(self@, preview_target::opt_addresses(addresses)),
    {
        let url = self.url;
        match self.stage {
            FetchStage::Admitting(page) => address_first(url, page, addresses),
            FetchStage::VideoResolving(page, hop) => address_video(url, page, hop, addresses),
            FetchStage::PageResolving(page, hop) => address_page(url, page, hop, addresses),
            FetchStage::ImageResolving(data, hop) => address_image(url, data, hop, addresses),
            _ => finish(url, LinkPreviewResult::Pending, false),
        }
    }

    /// Goes on once it is known whether a permit is there; `oembed` is what the address of the
    /// video's description parses to.
    pub fn on_permit_with(self, granted: bool, oembed: Option<UrlParts>) -> (step: Step)
        requires
            self@.stage is AwaitingPermit,
        ensures
            step_view(step) == permit_spec(self@, granted, preview_target::opt_url(oembed)),
    {
        let url = self.url;
        if !granted {
            return fail(url, "semaphore closed".to_owned());
        }
        match self.stage {
            FetchStage::AwaitingPermit(page) => match oembed {
                None => go_to_page(url, page),
                Some(target) => match make_hop(target, 0) {
                    Err(_) => go_to_page(url, page),
                    Ok(hop) => match preview_target::ipv4_literal(hop.host.as_str()) {
                        Some(ip) => address_video(url, page, hop, only(ip)),
                        None => {
                            let action = FetchAction::Resolve {
                                host: hop.host.clone(),
                                port: hop.port,
                            };
                            (
                                PreviewFetch { url, stage: FetchStage::VideoResolving(page, hop) },
                                action,
                            )
                        },
                    },
                },
            },
            _ => finish(url, LinkPreviewResult::Pending, false),
        }
    }

    /// Goes on once it is known whether a permit is there.
    pub fn on_permit(self, granted: bool) -> (step: Step)
        requires
            self@.stage is AwaitingPermit,
        ensures
            step_view(step) == permit_spec(self@, granted, oembed_target(self@.url)),
    {
        let oembed = match matching::capture_one(VIDEO_PATTERN, self.url.as_str()) {
            None => None,
            Some(id) => {
                let mut address = OEMBED_PREFIX.to_owned();
                address.append(id.as_str());
                preview_target::parse_url(address.as_str())
            },
        };
        self.on_permit_with(granted, oembed)
    }

    /// Goes on with the head of the answer, or with the text of an error.
    pub fn on_response(self, answer: Result<ResponseHead, String>) -> (step: Step)
        requires
            awaits_response(self@.stage),
        ensures
            step_view(step) == response_spec(self@, answer_view(answer)),
    {
        let url = self.url;
        match self.stage {
            FetchStage::VideoRequested(page) => match answer {
                Err(_) => go_to_page(url, page),
                Ok(_) => (
                    PreviewFetch { url, stage: FetchStage::VideoReading(page) },
                    FetchAction::ReadBody { limit: MAX_OEMBED_BYTES },
                ),
            },
            FetchStage::PageRequested(page, hop) => match answer {
                Err(message) => fail(url, message),
                Ok(head) => match take_hop(&hop, head.status, &head.location) {
                    HopStep::Failed(message) => fail(url, message),
                    HopStep::Follow(next) => ask_page(url, page, next),
                    HopStep::Arrived => if text::contains(head.content_type.as_str(), "text/html")
                        || text::contains(head.content_type.as_str(), "application/xhtml") {
                        (
                            PreviewFetch { url, stage: FetchStage::PageReading(page) },
                            FetchAction::ReadBody { limit: MAX_BODY_BYTES },
                        )
                    } else {
                        let mut message = "not HTML (".to_owned();
                        message.append(head.content_type.as_str());
                        message.append(")");
                        fail(url, message)
                    },
                },
            },
            FetchStage::ImageRequested(data, hop) => match answer {
                Err(_) => succeed(url, data),
                Ok(head) => match take_hop(&hop, head.status, &head.location) {
                    HopStep::Failed(_) => succeed(url, data),
                    HopStep::Follow(next) => ask_image(url, data, next),
                    HopStep::Arrived => if text::starts_with(
                        head.content_type.as_str(),
                        "image/",
                    ) {
                        (
                            PreviewFetch { url, stage: FetchStage::ImageReading(data) },
                            FetchAction::ReadBody { limit: MAX_IMAGE_BYTES },
                        )
                    } else {
                        succeed(url, data)
                    },
                },
            },
            _ => finish(url, LinkPreviewResult::Pending, false),
        }
    }

    /// Goes on with the body of the answer, or with the text of an error.
    pub fn on_body(self, body: Result<Vec<u8>, String>) -> (step: Step)
        requires
            awaits_body(self@.stage),
        ensures
            step_view(step) == body_spec(self@, body_view(body)),
    {
        let url = self.url;
        match self.stage {
            FetchStage::VideoReading(page) => match body {
                Err(_) => go_to_page(url, page),
                Ok(bytes) => match text_of_bytes(bytes) {
                    None => go_to_page(url, page),
                    Some(json) => match read_json_text(json.as_str(), "title") {
                        None => go_to_page(url, page),
                        Some(title) => {
                            let thumbnail = match read_json_text(json.as_str(), "thumbnail_url") {
                                Some(found) => found,
                                None => None,
                            };
                            video_described(url, title, thumbnail)
                        },
                    },
                },
            },
            FetchStage::PageReading(page) => match body {
                Err(message) => fail(url, message),
                Ok(bytes) => match text_of_bytes(bytes) {
                    None => fail(url, "body is not valid UTF-8".to_owned()),
                    Some(html) => {
                        let data = LinkPreviewData {
                            url: url.clone(),
                            title: page_meta::extract_title(html.as_str()),
                            description: page_meta::extract_description(html.as_str()),
                            image_url: page_meta::extract_og_image(html.as_str()),
                            image_bytes: None,
                        };
                        let image = match &data.image_url {
                            None => None,
                            Some(address) => parse_image_url(address.as_str()),
                        };
                        page_described(url, page, data, image)
                    },
                },
            },
            FetchStage::ImageReading(data) => match body {
                Err(_) => succeed(url, data),
                Ok(bytes) => {
                    let mut data = data;
                    data.image_bytes = Some(bytes);
                    succeed(url, data)
                },
            },
            _ => finish(url, LinkPreviewResult::Pending, false),
        }
    }
}

/// Goes on with what a video's description says.
pub fn video_described(url: String, title: Option<String>, thumbnail: Option<String>) -> (step:
    Step)
    ensures
        step_view(step) == video_read_spec(
            url@,
            text::opt_text(title),
            text::opt_text(thumbnail),
        ),
{
    let target = match &thumbnail {
        None => None,
        Some(t) => {
            proof {
                reveal_strlit("hqdefault");
            }
            let best = text::replace(t.as_str(), "hqdefault", "maxresdefault");
            parse_image_url(best.as_str())
        },
    };
    let data = LinkPreviewData {
        url: url.clone(),
        title,
        description: None,
        image_url: thumbnail,
        image_bytes: None,
    };
    go_to_image(url, data, target)
}

/// Goes on with what a page says of itself; `image` is what its picture's address parses to.
pub fn page_described(
    url: String,
    page: UrlParts,
    data: LinkPreviewData,
    image: Option<UrlParts>,
) -> (step: Step)
    ensures
        step_view(step) == page_read_spec(
            url@,
            page@,
            data@,
            preview_target::opt_url(image),
        ),
{
    match image {
        None => succeed(url, data),
        Some(target) => if preview_target::same_origin(&page, &target) {
            go_to_image(url, data, Some(target))
        } else {
            succeed(url, data)
        },
    }
}

/// Where a step sends a request, it goes to addresses of the public Internet only, and those
/// are either just what was resolved or the one address that the host itself is.
pub open spec fn is_checked_request(step: StepView, resolved: Option<Seq<IpAddress>>) -> bool {
    match step.action {
        ActionView::Get { host, addresses, .. } => {
            &&& preview_target::all_public(addresses)
            &&& resolved == Some(addresses) || (preview_target::literal_of(host) matches Some(ip)
                && addresses == seq![ip])
        },
        _ => true,
    }
}

/// A request goes out only to addresses of the public Internet, and to those that were just
/// resolved: no name is looked up again between the check and the request. A host that is an address is not looked up at
/// all, and nothing but that address is contacted for it.
pub proof fn only_checked_addresses_are_contacted(
    fetch: FetchView,
    in_flight: bool,
    granted: bool,
    parsed: Option<UrlView>,
    addresses: Option<Seq<IpAddress>>,
    answer: Result<(u16, Option<Seq<char>>, Seq<char>), Seq<char>>,
    body: Result<Seq<u8>, Seq<char>>,
)
    ensures
        !(begin_spec(fetch.url, parsed, in_flight).action is Get),
        is_checked_request(resolved_spec(fetch, addresses), addresses),
        is_checked_request(permit_spec(fetch, granted, parsed), None),
        is_checked_request(response_spec(fetch, answer), None),
        is_checked_request(body_spec(fetch, body), None),
{
}

/// A host is resolved only where it is not an address itself.
pub open spec fn is_lookup_of_a_name(step: StepView) -> bool {
    step.action matches ActionView::Resolve { host, .. } ==> preview_target::literal_of(host)
        is None
}

/// No address is ever looked up as if it were a name.
pub proof fn addresses_are_not_looked_up(
    fetch: FetchView,
    in_flight: bool,
    granted: bool,
    parsed: Option<UrlView>,
    addresses: Option<Seq<IpAddress>>,
    answer: Result<(u16, Option<Seq<char>>, Seq<char>), Seq<char>>,
    body: Result<Seq<u8>, Seq<char>>,
)
    ensures
        is_lookup_of_a_name(begin_spec(fetch.url, parsed, in_flight)),
        is_lookup_of_a_name(resolved_spec(fetch, addresses)),
        is_lookup_of_a_name(permit_spec(fetch, granted, parsed)),
        is_lookup_of_a_name(response_spec(fetch, answer)),
        is_lookup_of_a_name(body_spec(fetch, body)),
{
}

/// A redirect is followed to the same host and port only, never from `https` to `http`, and
/// at most [`MAX_REDIRECTS`] times in a row.
pub proof fn redirects_stay_at_home(hop: HopView, status: u16, location: Option<Seq<char>>)
    ensures
        hop_step_spec(hop, status, location) matches HopStepView::Follow(next) ==> {
            &&& preview_target::same_endpoint(hop.current, next.current)
            &&& (hop.current.scheme == "https"@ ==> next.current.scheme == "https"@)
            &&& next.followed == hop.followed + 1
            &&& next.followed <= MAX_REDIRECTS
        },
{
    reveal_strlit("http");
    reveal_strlit("https");
    assert("http"@.len() != "https"@.len());
}

/// The URL of the fetch stands on the register.
pub open spec fn is_registered(stage: StageView) -> bool {
    !(stage is Finished)
}

/// What becomes of the register in one step: a fetch that goes on keeps its entry, and one that
/// ends has it taken off exactly where it had one.
pub open spec fn register_is_kept(held: bool, step: StepView) -> bool {
    match step.action {
        ActionView::Finish { release, .. } => release == held && step.fetch.stage is Finished,
        _ => is_registered(step.fetch.stage) == held,
    }
}

/// Every fetch that is registered is taken off the register when it ends, however it ends, and
/// a fetch that was refused as a duplicate leaves the register to the first one.
pub proof fn register_is_balanced(
    fetch: FetchView,
    in_flight: bool,
    granted: bool,
    parsed: Option<UrlView>,
    addresses: Option<Seq<IpAddress>>,
    answer: Result<(u16, Option<Seq<char>>, Seq<char>), Seq<char>>,
    body: Result<Seq<u8>, Seq<char>>,
)
    ensures
        register_is_kept(
            registers(fetch.url, parsed, in_flight),
            begin_spec(fetch.url, parsed, in_flight),
        ),
        awaits_addresses(fetch.stage) ==> register_is_kept(true, resolved_spec(fetch, addresses)),
        fetch.stage is AwaitingPermit ==> register_is_kept(
            true,
            permit_spec(fetch, granted, parsed),
        ),
        awaits_response(fetch.stage) ==> register_is_kept(true, response_spec(fetch, answer)),
        awaits_body(fetch.stage) ==> register_is_kept(true, body_spec(fetch, body)),
{
}

/// A URL that is being fetched already is answered with `Pending` at once: nothing is looked up
/// and nothing is requested, and the register stays as it is.
pub proof fn duplicates_are_pending_at_once(
    register: Set<Seq<char>>,
    url: Seq<char>,
    parsed: Option<UrlView>,
)
    requires
        register.contains(url),
        encode_utf8(url).len() <= MAX_PREVIEW_URL_LEN,
        parsed is Some,
    ensures
        begin_spec(url, parsed, register.contains(url)) == finished(
            url,
            PreviewResultView::Pending,
            false,
        ),
        register_after(register, url, parsed) == register,
{
}

/// A fetch is answered with `Pending` only where its URL is being fetched already.
pub proof fn pending_means_already_fetched(
    fetch: FetchView,
    in_flight: bool,
    granted: bool,
    parsed: Option<UrlView>,
    addresses: Option<Seq<IpAddress>>,
    answer: Result<(u16, Option<Seq<char>>, Seq<char>), Seq<char>>,
    body: Result<Seq<u8>, Seq<char>>,
)
    ensures
        is_pending(begin_spec(fetch.url, parsed, in_flight)) ==> in_flight,
        awaits_addresses(fetch.stage) ==> !is_pending(resolved_spec(fetch, addresses)),
        fetch.stage is AwaitingPermit ==> !is_pending(permit_spec(fetch, granted, parsed)),
        awaits_response(fetch.stage) ==> !is_pending(response_spec(fetch, answer)),
        awaits_body(fetch.stage) ==> !is_pending(body_spec(fetch, body)),
{
}

/// The fetch is over with `Pending`.
pub open spec fn is_pending(step: StepView) -> bool {
    step.action matches ActionView::Finish { result: PreviewResultView::Pending, .. }
}

/// How many redirects the hop of a stage may still follow.
pub open spec fn hops_left(hop: HopView) -> int {
    MAX_REDIRECTS - hop.followed
}

/// The redirects of a stage are within bounds.
pub open spec fn hops_bounded(stage: StageView) -> bool {
    match stage {
        StageView::VideoResolving(_, hop) => hops_left(hop) >= 0,
        StageView::PageResolving(_, hop) => hops_left(hop) >= 0,
        StageView::PageRequested(_, hop) => hops_left(hop) >= 0,
        StageView::ImageResolving(_, hop) => hops_left(hop) >= 0,
        StageView::ImageRequested(_, hop) => hops_left(hop) >= 0,
        _ => true,
    }
}

/// How many steps a fetch may still take at most.
pub open spec fn steps_left(stage: StageView) -> int {
    match stage {
        StageView::Admitting(_) => 33,
        StageView::AwaitingPermit(_) => 32,
        StageView::VideoResolving(_, _) => 31,
        StageView::VideoRequested(_) => 30,
        StageView::VideoReading(_) => 29,
        StageView::PageResolving(_, hop) => 16 + 2 * hops_left(hop),
        StageView::PageRequested(_, hop) => 15 + 2 * hops_left(hop),
        StageView::PageReading(_) => 14,
        StageView::ImageResolving(_, hop) => 3 + 2 * hops_left(hop),
        StageView::ImageRequested(_, hop) => 2 + 2 * hops_left(hop),
        StageView::ImageReading(_) => 1,
        StageView::Finished => 0,
    }
}

/// `after` is closer to the end than `before`, and its redirects are within bounds.
pub open spec fn is_progress(before: StageView, after: StageView) -> bool {
    0 <= steps_left(after) < steps_left(before) && hops_bounded(after)
}

/// Every fetch ends: each step brings it closer, whatever the outside world answers.
pub proof fn every_fetch_ends(
    fetch: FetchView,
    in_flight: bool,
    granted: bool,
    parsed: Option<UrlView>,
    addresses: Option<Seq<IpAddress>>,
    answer: Result<(u16, Option<Seq<char>>, Seq<char>), Seq<char>>,
    body: Result<Seq<u8>, Seq<char>>,
)
    requires
        hops_bounded(fetch.stage),
    ensures
        hops_bounded(begin_spec(fetch.url, parsed, in_flight).fetch.stage),
        awaits_addresses(fetch.stage) ==> is_progress(
            fetch.stage,
            resolved_spec(fetch, addresses).fetch.stage,
        ),
        fetch.stage is AwaitingPermit ==> is_progress(
            fetch.stage,
            permit_spec(fetch, granted, parsed).fetch.stage,
        ),
        awaits_response(fetch.stage) ==> is_progress(
            fetch.stage,
            response_spec(fetch, answer).fetch.stage,
        ),
        awaits_body(fetch.stage) ==> is_progress(fetch.stage, body_spec(fetch, body).fetch.stage),
{
}

/// The preview that a stage or a result carries is one of `url`.
pub open spec fn carries_url(url: Seq<char>, step: StepView) -> bool {
    &&& step.fetch.url == url
    &&& (step.fetch.stage matches StageView::ImageResolving(data, _) ==> data.url == url)
    &&& (step.fetch.stage matches StageView::ImageRequested(data, _) ==> data.url == url)
    &&& (step.fetch.stage matches StageView::ImageReading(data) ==> data.url == url)
    &&& (step.action matches ActionView::Finish { result: PreviewResultView::Success(data), .. }
        ==> data.url == url)
}

/// A preview that is delivered is the preview of the URL that was asked for.
pub proof fn preview_belongs_to_its_url(
    step: StepView,
    in_flight: bool,
    granted: bool,
    parsed: Option<UrlView>,
    addresses: Option<Seq<IpAddress>>,
    answer: Result<(u16, Option<Seq<char>>, Seq<char>), Seq<char>>,
    body: Result<Seq<u8>, Seq<char>>,
)
    requires
        carries_url(step.fetch.url, step),
    ensures
        carries_url(step.fetch.url, begin_spec(step.fetch.url, parsed, in_flight)),
        carries_url(step.fetch.url, permit_spec(step.fetch, granted, parsed)),
        carries_url(step.fetch.url, resolved_spec(step.fetch, addresses)),
        carries_url(step.fetch.url, response_spec(step.fetch, answer)),
        carries_url(step.fetch.url, body_spec(step.fetch, body)),
{
}

/// The URLs that are being fetched.
#[derive(Debug)]
pub struct InFlightUrls {
    urls: Vec<String>,
}

impl View for InFlightUrls {
    type V = Set<Seq<char>>;

    closed spec fn view(&self) -> Set<Seq<char>> {
        Set::new(|u: Seq<char>| crate::link_preview::lists(self.urls@, u))
    }
}

impl InFlightUrls {
    /// No URL stands on the register twice.
    pub closed spec fn wf(&self) -> bool {
        forall|i: int, j: int|
            #![trigger self.urls@[i], self.urls@[j]]
            0 <= i < j < self.urls@.len() ==> self.urls@[i]@ != self.urls@[j]@
    }

    /// An empty register.
    pub fn new() -> (register: Self)
        ensures
            register.wf(),
            register@ == Set::<Seq<char>>::empty(),
    {
        let register = InFlightUrls { urls: Vec::new() };
        assert(register@ =~= Set::<Seq<char>>::empty());
        register
    }

    /// The place of a URL on the register.
    fn find(&self, url: &str) -> (place: Option<usize>)
        ensures
            match place {
                Some(i) => i < self.urls@.len() && self.urls@[i as int]@ == url@
                    && self@.contains(url@),
                None => !self@.contains(url@),
            },
    {
        let mut i: usize = 0;
        while i < self.urls.len()
            invariant
                i <= self.urls.len(),
                forall|k: int| 0 <= k < i ==> (#[trigger] self.urls@[k])@ != url@,
            decreases self.urls.len() - i,
        {
            if text::same_text(self.urls[i].as_str(), url) {
                return Some(i);
            }
            i += 1;
        }
        None
    }

    /// Whether a URL is being fetched.
    pub fn contains(&self, url: &str) -> (found: bool)
        ensures
            found == self@.contains(url@),
    {
        self.find(url).is_some()
    }

    /// Registers a URL; tells whether it was not there yet.
    pub fn register(&mut self, url: &str) -> (granted: bool)
        requires
            old(self).wf(),
        ensures
            final(self).wf(),
            final(self)@ == old(self)@.insert(url@),
            granted == !old(self)@.contains(url@),
    {
        let ghost before = self.urls@;
        if self.find(url).is_some() {
            assert(self@.insert(url@) =~= self@);
            return false;
        }
        self.urls.push(url.to_owned());
        proof {
            let after = self.urls@;
            assert forall|i: int, j: int|
                #![trigger after[i], after[j]]
                0 <= i < j < after.len() implies after[i]@ != after[j]@ by {
                if j == before.len() {
                    if before[i]@ == url@ {
                        assert(crate::link_preview::lists(before, url@));
                    }
                } else {
                    assert(before[i]@ != before[j]@);
                }
            }
            assert forall|u: Seq<char>| crate::link_preview::lists(after, u) <==> (
            crate::link_preview::lists(before, u) || u == url@) by {
                if crate::link_preview::lists(before, u) {
                    let i = choose|i: int| 0 <= i < before.len() && (#[trigger] before[i])@ == u;
                    assert(after[i]@ == u);
                }
                if u == url@ {
                    assert(after[before.len() as int]@ == u);
                }
                if crate::link_preview::lists(after, u) {
                    let i = choose|i: int| 0 <= i < after.len() && (#[trigger] after[i])@ == u;
                    if i < before.len() {
                        assert(before[i]@ == u);
                    }
                }
            }
            assert(self@ =~= old(self)@.insert(url@));
        }
        true
    }

    /// Takes a URL off the register.
    pub fn unregister(&mut self, url: &str)
        requires
            old(self).wf(),
        ensures
            final(self).wf(),
            final(self)@ == old(self)@.remove(url@),
    {
        let ghost before = self.urls@;
        match self.find(url) {
            None => {
                assert(self@.remove(url@) =~= self@);
            },
            Some(place) => {
                self.urls.remove(place);
                proof {
                    let after = self.urls@;
                    assert forall|i: int, j: int|
                        #![trigger after[i], after[j]]
                        0 <= i < j < after.len() implies after[i]@ != after[j]@ by {
                        let bi = if i < place { i } else { i + 1 };
                        let bj = if j < place { j } else { j + 1 };
                        assert(before[bi]@ != before[bj]@);
                    }
                    assert forall|u: Seq<char>| crate::link_preview::lists(after, u) <==> (
                    crate::link_preview::lists(before, u) && u != url@) by {
                        if crate::link_preview::lists(after, u) {
                            let i = choose|i: int|
                                0 <= i < after.len() && (#[trigger] after[i])@ == u;
                            let bi = if i < place { i } else { i + 1 };
                            assert(before[bi]@ == u);
                            if bi < place {
                                assert(before[bi]@ != before[place as int]@);
                            } else {
                                assert(before[place as int]@ != before[bi]@);
                            }
                        }
                        if crate::link_preview::lists(before, u) && u != url@ {
                            let i = choose|i: int|
                                0 <= i < before.len() && (#[trigger] before[i])@ == u;
                            let ai = if i < place { i } else { i - 1 };
                            assert(after[ai]@ == u);
                        }
                    }
                    assert(self@ =~= old(self)@.remove(url@));
                }
            },
        }
    }
}

/// Takes a registered URL off the register when the work on it is over, unless disarmed.
#[derive(Debug)]
pub struct InFlightGuard {
    /// The registered URL.
    pub url: String,
    /// Whether the URL is to be taken off the register.
    pub active: bool,
}

impl InFlightGuard {
    /// A guard for a registered URL.
    pub fn new(url: &str) -> (guard: Self)
        ensures
            guard.url@ == url@,
            guard.active,
    {
        InFlightGuard { url: url.to_owned(), active: true }
    }

    /// The guard, with the URL to stay on the register.
    pub fn disarm(self) -> (guard: Self)
        ensures
            guard.url@ == self.url@,
            !guard.active,
    {
        InFlightGuard { url: self.url, active: false }
    }

    /// Ends the guard's work: an active guard takes its URL off the register.
    pub fn release(self, register: &mut InFlightUrls)
        requires
            old(register).wf(),
        ensures
            final(register).wf(),
            final(register)@ == (if self.active {
                old(register)@.remove(self.url@)
            } else {
                old(register)@
            }),
    {
        if self.active {
            register.unregister(self.url.as_str());
        }
    }
}

/// Taking a URL off the register undoes its registration, where that was granted.
pub proof fn release_undoes_registration(register: Set<Seq<char>>, url: Seq<char>)
    requires
        !register.contains(url),
    ensures
        register.insert(url).remove(url) == register,
{
    assert(register.insert(url).remove(url) =~= register);
}

/// The result that a step delivers, where the fetch is over.
pub open spec fn result_of(step: StepView) -> Option<PreviewResultView> {
    match step.action {
        ActionView::Finish { result, .. } => Some(result),
        _ => None,
    }
}

/// The fetch is over with this error.
pub open spec fn ends_in_error(step: StepView, message: Seq<char>) -> bool {
    result_of(step) == Some(PreviewResultView::Error(message))
}

/// The preview that a step delivers, or carries on while its picture is fetched.
pub open spec fn preview_of(step: StepView) -> Option<PreviewDataView> {
    match step.action {
        ActionView::Finish { result: PreviewResultView::Success(data), .. } => Some(data),
        ActionView::Finish { .. } => None,
        _ => match step.fetch.stage {
            StageView::ImageResolving(data, _) => Some(data),
            StageView::ImageRequested(data, _) => Some(data),
            StageView::ImageReading(data) => Some(data),
            _ => None,
        },
    }
}

/// The hop that the fetch is on, where it is on one.
pub open spec fn hop_of(step: StepView) -> Option<HopView> {
    match step.fetch.stage {
        StageView::VideoResolving(_, hop) => Some(hop),
        StageView::PageResolving(_, hop) => Some(hop),
        StageView::PageRequested(_, hop) => Some(hop),
        StageView::ImageResolving(_, hop) => Some(hop),
        StageView::ImageRequested(_, hop) => Some(hop),
        _ => None,
    }
}

/// The next thing that the fetch asks for is the URL `target`: its host is resolved, or, where
/// the host is an address itself, it is requested.
pub open spec fn asks_for(step: StepView, target: UrlView) -> bool {
    match step.action {
        ActionView::Resolve { host, port } => {
            &&& target.host == Some(host)
            &&& target.port == Some(port)
            &&& hop_of(step) is Some && hop_of(step)->0.current == target && hop_of(step)->0.host
                == host && hop_of(step)->0.port == port
        },
        ActionView::Get { url, host, port, .. } => {
            &&& url == target.href
            &&& target.host == Some(host)
            &&& target.port == Some(port)
        },
        _ => false,
    }
}

/// What is asked for next is the description of the video at `page`.
pub open spec fn is_about_video(step: StepView, page: UrlView) -> bool {
    match step.fetch.stage {
        StageView::VideoResolving(p, _) => p == page,
        StageView::VideoRequested(p) => p == page,
        _ => false,
    }
}

/// What is asked for next is the page itself.
pub open spec fn is_about_page(step: StepView, page: UrlView) -> bool {
    match step.fetch.stage {
        StageView::PageResolving(p, _) => p == page,
        StageView::PageRequested(p, _) => p == page,
        _ => false,
    }
}

/// The fetch turns to the page at `target`, or ends with an error where that may not be asked for.
pub open spec fn turns_to_page(step: StepView, page: UrlView, target: UrlView) -> bool {
    if preview_target::may_be_asked(target) {
        asks_for(step, target) && is_about_page(step, page)
    } else {
        result_of(step) matches Some(PreviewResultView::Error(_))
    }
}

/// The fetch turns to the picture at `target` for `data`, or delivers `data` without it where
/// that may not be asked for.
pub open spec fn turns_to_picture(
    step: StepView,
    data: PreviewDataView,
    target: Option<UrlView>,
) -> bool {
    &&& preview_of(step) == Some(data)
    &&& if target is Some && preview_target::may_be_asked(target->0) {
        asks_for(step, target->0)
    } else {
        result_of(step) == Some(PreviewResultView::Success(data))
    }
}

/// Whether a host is an address, and which, is what [`preview_target::may_be_asked`] goes by.
proof fn lemma_literals_decide(url: UrlView)
    ensures
        preview_target::may_be_asked(url) <==> preview_target::target_of(url) is Ok && (
        preview_target::literal_of(url.host->0) matches Some(ip) ==> !preview_target::blocked(ip)),
{
    preview_target::targets_are_refused_for_the_first_reason(url);
    if preview_target::target_of(url) is Ok {
        let host = url.host->0;
        if preview_target::literal_of(host) is Some {
            let octets = choose|octets: [u8; 4]|
                host == #[trigger] preview_target::dotted(octets);
            assert(host == preview_target::dotted(octets));
            assert(preview_target::literal_of(host) == Some(IpAddress::V4(octets)));
        }
        assert forall|octets: [u8; 4]|
            host == #[trigger] preview_target::dotted(octets) implies preview_target::literal_of(
            host,
        ) == Some(IpAddress::V4(octets)) by {
            preview_target::literal_is_read_back(octets);
        }
    }
}

/// The one address of a list.
proof fn lemma_one_address(ip: IpAddress)
    ensures
        preview_target::address_refusal(Some(seq![ip])) is None <==> !preview_target::blocked(ip),
{
    assert(seq![ip][0] == ip);
}

proof fn lemma_turns_to_page(url: Seq<char>, page: UrlView, target: UrlView, followed: u8)
    ensures
        hop_to(target, followed) matches Ok(hop) ==> turns_to_page(
            page_at(url, page, hop),
            page,
            target,
        ) && hop.followed == followed,
        hop_to(target, followed) is Err ==> !preview_target::may_be_asked(target),
{
    lemma_literals_decide(target);
    if hop_to(target, followed) is Ok {
        if let Some(ip) = preview_target::literal_of(target.host->0) {
            lemma_one_address(ip);
        }
    }
}

proof fn lemma_turns_to_picture(
    url: Seq<char>,
    data: PreviewDataView,
    target: UrlView,
    followed: u8,
)
    ensures
        hop_to(target, followed) matches Ok(hop) ==> turns_to_picture(
            image_at(url, data, hop),
            data,
            Some(target),
        ) && hop.followed == followed,
        hop_to(target, followed) is Err ==> !preview_target::may_be_asked(target),
{
    lemma_literals_decide(target);
    if hop_to(target, followed) is Ok {
        if let Some(ip) = preview_target::literal_of(target.host->0) {
            lemma_one_address(ip);
        }
    }
}

/// A fetch that begins refuses what is too long, what is no URL and what may not be contacted,
/// each with its own message; any other URL that is not being fetched yet has its host resolved,
/// or waits for a permit where its host is an address of the public Internet.
pub proof fn fetches_begin_with_a_check(url: Seq<char>, page: UrlView, in_flight: bool)
    ensures
        encode_utf8(url).len() > 2048 ==> ends_in_error(
            begin_spec(url, Some(page), in_flight),
            "URL too long"@,
        ) && ends_in_error(begin_spec(url, None, in_flight), "URL too long"@),
        encode_utf8(url).len() <= 2048 ==> ends_in_error(
            begin_spec(url, None, in_flight),
            "invalid preview URL"@,
        ),
        encode_utf8(url).len() <= 2048 && !in_flight ==> {
            let step = begin_spec(url, Some(page), false);
            let web = page.scheme == "http"@ || page.scheme == "https"@;
            let open = page.username == Seq::<char>::empty() && !page.has_password;
            let whole = web && open && page.host is Some && page.port is Some;
            &&& !web ==> ends_in_error(step, "only HTTP(S) preview URLs are allowed"@)
            &&& web && !open ==> ends_in_error(
                step,
                "preview URLs with credentials are not allowed"@,
            )
            &&& web && open && page.host is None ==> ends_in_error(step, "preview URL has no host"@)
            &&& web && open && page.host is Some && page.port is None ==> ends_in_error(
                step,
                "preview URL has no valid port"@,
            )
            &&& whole && !preview_target::may_be_asked(page) ==> ends_in_error(
                step,
                "preview target resolves to a private or reserved address"@,
            )
            &&& preview_target::may_be_asked(page) && preview_target::literal_of(page.host->0)
                is Some ==> step.action is AcquirePermit && step.fetch.stage
                == StageView::AwaitingPermit(page)
            &&& preview_target::may_be_asked(page) && preview_target::literal_of(page.host->0)
                is None ==> step.action == (ActionView::Resolve {
                host: page.host->0,
                port: page.port->0,
            }) && step.fetch.stage == StageView::Admitting(page)
        },
{
    preview_target::targets_are_refused_for_the_first_reason(page);
    lemma_literals_decide(page);
    if page.host is Some {
        if let Some(ip) = preview_target::literal_of(page.host->0) {
            lemma_one_address(ip);
        }
    }
}

/// Once its addresses are there, a page's host is waited for or requested where all of them are
/// public; else the fetch ends, and says whether there were none or one was refused. A picture's
/// host that is refused costs the picture only, and that of a video's description leads to the
/// page.
pub proof fn addresses_decide_how_a_fetch_goes_on(
    url: Seq<char>,
    page: UrlView,
    data: PreviewDataView,
    hop: HopView,
    addresses: Option<Seq<IpAddress>>,
)
    ensures
        ({
            let public = addresses is Some && addresses->0.len() > 0 && (forall|i: int|
                0 <= i < addresses->0.len() ==> !preview_target::blocked(
                    #[trigger] addresses->0[i],
                ));
            let at = |stage: StageView| resolved_spec(FetchView { url, stage }, addresses);
            let message = if addresses is None {
                "preview hostname could not be resolved"@
            } else {
                "preview target resolves to a private or reserved address"@
            };
            let request = ActionView::Get {
                url: hop.current.href,
                host: hop.host,
                port: hop.port,
                addresses: addresses->0,
                privacy_headers: true,
            };
            let bare_request = ActionView::Get {
                url: hop.current.href,
                host: hop.host,
                port: hop.port,
                addresses: addresses->0,
                privacy_headers: false,
            };
            &&& public ==> at(StageView::Admitting(page)).action is AcquirePermit && at(
                StageView::Admitting(page),
            ).fetch.stage == StageView::AwaitingPermit(page)
            &&& !public ==> ends_in_error(at(StageView::Admitting(page)), message)
            &&& public ==> at(StageView::PageResolving(page, hop)).action == request && at(
                StageView::PageResolving(page, hop),
            ).fetch.stage == StageView::PageRequested(page, hop)
            &&& !public ==> ends_in_error(at(StageView::PageResolving(page, hop)), message)
            &&& public ==> at(StageView::VideoResolving(page, hop)).action == bare_request && at(
                StageView::VideoResolving(page, hop),
            ).fetch.stage == StageView::VideoRequested(page)
            &&& !public ==> turns_to_page(at(StageView::VideoResolving(page, hop)), page, page)
            &&& public ==> at(StageView::ImageResolving(data, hop)).action == request && at(
                StageView::ImageResolving(data, hop),
            ).fetch.stage == StageView::ImageRequested(data, hop)
            &&& !public ==> result_of(at(StageView::ImageResolving(data, hop))) == Some(
                PreviewResultView::Success(data),
            )
        }),
{
    preview_target::one_refused_address_refuses_the_host(addresses);
    lemma_turns_to_page(url, page, page, 0);
}

/// With a permit, the fetch of a video turns to its description on the site's own service, where
/// the address of that parses to a URL that may be asked for; any other fetch turns to the page.
/// Without one it ends.
pub proof fn videos_are_asked_to_be_described(
    url: Seq<char>,
    page: UrlView,
    granted: bool,
)
    ensures
        ({
            let fetch = FetchView { url, stage: StageView::AwaitingPermit(page) };
            let step = permit_spec(fetch, granted, oembed_target(url));
            let id = matching::regex_group_one(
                "(?:youtube\\.com/watch\\?v=|youtu\\.be/)([A-Za-z0-9_-]{11})"@,
                url,
            );
            let described = preview_target::url_parsed(
                "https://www.youtube.com/oembed?format=json&url=https://www.youtube.com/watch?v="@
                    + id->0,
            );
            &&& !granted ==> ends_in_error(step, "semaphore closed"@)
            &&& granted && id is None ==> turns_to_page(step, page, page)
            &&& granted && id is Some && described is None ==> turns_to_page(step, page, page)
            &&& granted && id is Some && described is Some && preview_target::may_be_asked(
                described->0,
            ) ==> asks_for(step, described->0) && is_about_video(step, page)
            &&& granted && id is Some && described is Some && !preview_target::may_be_asked(
                described->0,
            ) ==> turns_to_page(step, page, page)
        }),
{
    lemma_turns_to_page(url, page, page, 0);
    if let Some(target) = oembed_target(url) {
        lemma_literals_decide(target);
        if hop_to(target, 0) is Ok {
            if let Some(ip) = preview_target::literal_of(target.host->0) {
                lemma_one_address(ip);
            }
        }
    }
}

/// A video's description is read whatever its status; where there is none, the fetch turns to
/// the page.
pub proof fn video_answers_are_read(
    url: Seq<char>,
    page: UrlView,
    head: (u16, Option<Seq<char>>, Seq<char>),
    message: Seq<char>,
)
    ensures
        ({
            let fetch = FetchView { url, stage: StageView::VideoRequested(page) };
            let step = response_spec(fetch, Ok(head));
            &&& step.action == (ActionView::ReadBody { limit: 65_536 })
            &&& step.fetch.stage == StageView::VideoReading(page)
            &&& turns_to_page(response_spec(fetch, Err(message)), page, page)
        }),
{
    lemma_turns_to_page(url, page, page, 0);
}

/// An answer that is no redirect is read where it is a page, up to its limit, and ends the fetch
/// where it is not. A redirect is followed to a URL of the same host and port that is no less
/// secure, at most five times; any other ends the fetch, and the message tells why.
pub proof fn page_answers_are_read_followed_or_refused(
    url: Seq<char>,
    page: UrlView,
    hop: HopView,
    status: u16,
    location: Option<Seq<char>>,
    content_type: Seq<char>,
    message: Seq<char>,
)
    ensures
        ({
            let fetch = FetchView { url, stage: StageView::PageRequested(page, hop) };
            let step = response_spec(fetch, Ok((status, location, content_type)));
            let elsewhere = status / 100 == 3;
            let html = text::occurs(content_type, "text/html"@) || text::occurs(
                content_type,
                "application/xhtml"@,
            );
            let next = preview_target::url_joined(hop.current.href, location->0);
            let same_place = next is Some && next->0.host == hop.current.host && next->0.port
                == hop.current.port && (next->0.scheme == hop.current.scheme || (
            hop.current.scheme == "http"@ && next->0.scheme == "https"@));
            &&& ends_in_error(response_spec(fetch, Err(message)), message)
            &&& !elsewhere && html ==> step.action == (ActionView::ReadBody { limit: 262_144 })
                && step.fetch.stage == StageView::PageReading(page)
            &&& !elsewhere && !html ==> ends_in_error(step, "not HTML ("@ + content_type + ")"@)
            &&& elsewhere && location is None ==> ends_in_error(
                step,
                "redirect has no valid location"@,
            )
            &&& elsewhere && location is Some && next is None ==> ends_in_error(
                step,
                "redirect location is invalid"@,
            )
            &&& elsewhere && location is Some && next is Some && !same_place ==> ends_in_error(
                step,
                "cross-origin preview redirect blocked"@,
            )
            &&& elsewhere && location is Some && same_place && hop.followed >= 5 ==> ends_in_error(
                step,
                "too many redirects"@,
            )
            &&& elsewhere && location is Some && same_place && hop.followed < 5 ==> {
                &&& turns_to_page(step, page, next->0)
                &&& hop_of(step) is Some ==> hop_of(step)->0.followed == hop.followed + 1
            }
        }),
{
    if location is Some {
        if let Some(target) = preview_target::url_joined(hop.current.href, location->0) {
            lemma_turns_to_page(url, page, target, (hop.followed + 1) as u8);
        }
    }
}

/// A picture is read where the answer is one, up to its limit, and looked for elsewhere where a
/// redirect leads to the same place; whatever goes wrong with it, the preview is delivered
/// without it.
pub proof fn picture_answers_never_cost_the_preview(
    url: Seq<char>,
    data: PreviewDataView,
    hop: HopView,
    status: u16,
    location: Option<Seq<char>>,
    content_type: Seq<char>,
    message: Seq<char>,
)
    ensures
        ({
            let fetch = FetchView { url, stage: StageView::ImageRequested(data, hop) };
            let step = response_spec(fetch, Ok((status, location, content_type)));
            let elsewhere = status / 100 == 3;
            let next = preview_target::url_joined(hop.current.href, location->0);
            let followed = location is Some && next is Some && next->0.host == hop.current.host
                && next->0.port == hop.current.port && (next->0.scheme == hop.current.scheme || (
            hop.current.scheme == "http"@ && next->0.scheme == "https"@)) && hop.followed < 5;
            let picture = content_type.len() >= 6 && content_type.take(6) == "image/"@;
            &&& preview_of(step) == Some(data)
            &&& result_of(response_spec(fetch, Err(message))) == Some(
                PreviewResultView::Success(data),
            )
            &&& !elsewhere && picture ==> step.action == (ActionView::ReadBody {
                limit: 2_097_152,
            }) && step.fetch.stage == StageView::ImageReading(data)
            &&& !elsewhere && !picture ==> result_of(step) == Some(PreviewResultView::Success(data))
            &&& elsewhere && !followed ==> result_of(step) == Some(PreviewResultView::Success(data))
            &&& elsewhere && followed ==> turns_to_picture(step, data, next)
        }),
{
    reveal_strlit("image/");
    if content_type.len() >= 6 {
        assert(content_type.take(6) =~= content_type.subrange(0, 6));
    }
    if location is Some {
        if let Some(target) = preview_target::url_joined(hop.current.href, location->0) {
            lemma_turns_to_picture(url, data, target, (hop.followed + 1) as u8);
        }
    }
}

/// A video's preview has the title and the thumbnail that its description gives, and the next
/// thing asked for is the thumbnail in its best quality, where that is a URL that may be asked
/// for. What is no description leads to the page.
pub proof fn video_previews_have_title_and_thumbnail(
    url: Seq<char>,
    page: UrlView,
    bytes: Seq<u8>,
    message: Seq<char>,
)
    ensures
        ({
            let fetch = FetchView { url, stage: StageView::VideoReading(page) };
            let step = body_spec(fetch, Ok(bytes));
            let title = json_text(decode_utf8(bytes), "title"@);
            let thumbnail = json_text(decode_utf8(bytes), "thumbnail_url"@);
            let best = text::replaced(thumbnail->0->0, "hqdefault"@, "maxresdefault"@);
            let inline = best.len() >= 5 && best.take(5) == "data:"@;
            let preview = PreviewDataView {
                url,
                title: title->0,
                description: None,
                image_url: if thumbnail is Some {
                    thumbnail->0
                } else {
                    None
                },
                image_bytes: None,
            };
            &&& valid_utf8(bytes) && title is Some ==> preview_of(step) == Some(preview)
            &&& valid_utf8(bytes) && title is Some && preview.image_url is None ==> result_of(step)
                == Some(PreviewResultView::Success(preview))
            &&& valid_utf8(bytes) && title is Some && preview.image_url is Some && inline
                ==> result_of(step) == Some(PreviewResultView::Success(preview))
            &&& valid_utf8(bytes) && title is Some && preview.image_url is Some && !inline
                ==> turns_to_picture(step, preview, preview_target::url_parsed(best))
            &&& !valid_utf8(bytes) || title is None ==> turns_to_page(step, page, page)
            &&& turns_to_page(body_spec(fetch, Err(message)), page, page)
        }),
{
    reveal_strlit("data:");
    lemma_turns_to_page(url, page, page, 0);
    let title = json_text(decode_utf8(bytes), "title"@);
    let thumbnail = json_text(decode_utf8(bytes), "thumbnail_url"@);
    if valid_utf8(bytes) && title is Some && thumbnail is Some && thumbnail->0 is Some {
        let best = text::replaced(thumbnail->0->0, "hqdefault"@, "maxresdefault"@);
        if best.len() >= 5 {
            assert(best.take(5) =~= best.subrange(0, 5));
        }
        if let Some(target) = preview_target::url_parsed(best) {
            lemma_turns_to_picture(url, video_data(url, title->0, thumbnail->0), target, 0);
        }
    }
}

/// A page's preview has the title, the description and the picture that its tags give, and its
/// picture is asked for next where it comes from the page's own scheme, host and port and may be
/// asked for. What is no text, or could not be read, ends the fetch.
pub proof fn page_previews_have_what_the_page_says(
    url: Seq<char>,
    page: UrlView,
    bytes: Seq<u8>,
    message: Seq<char>,
)
    ensures
        ({
            let fetch = FetchView { url, stage: StageView::PageReading(page) };
            let step = body_spec(fetch, Ok(bytes));
            let html = decode_utf8(bytes);
            let image = matching::regex_group_one(page_meta::IMAGE_PATTERN@, html);
            let inline = image->0.len() >= 5 && image->0.take(5) == "data:"@;
            let target = preview_target::url_parsed(image->0);
            let own = target is Some && target->0.scheme == page.scheme && target->0.host
                == page.host && target->0.port == page.port;
            let preview = PreviewDataView {
                url,
                title: page_meta::page_title(html),
                description: page_meta::page_description(html),
                image_url: image,
                image_bytes: None,
            };
            &&& ends_in_error(body_spec(fetch, Err(message)), message)
            &&& !valid_utf8(bytes) ==> ends_in_error(step, "body is not valid UTF-8"@)
            &&& valid_utf8(bytes) ==> preview_of(step) == Some(preview)
            &&& valid_utf8(bytes) && (image is None || inline || !own) ==> result_of(step) == Some(
                PreviewResultView::Success(preview),
            )
            &&& valid_utf8(bytes) && image is Some && !inline && own ==> turns_to_picture(
                step,
                preview,
                target,
            )
        }),
{
    reveal_strlit("data:");
    let html = decode_utf8(bytes);
    let image = matching::regex_group_one(page_meta::IMAGE_PATTERN@, html);
    if valid_utf8(bytes) && image is Some {
        if image->0.len() >= 5 {
            assert(image->0.take(5) =~= image->0.subrange(0, 5));
        }
        if let Some(target) = preview_target::url_parsed(image->0) {
            lemma_turns_to_picture(url, page_data(url, html), target, 0);
        }
    }
}

/// The bytes of a picture become part of the preview and nothing else of it changes; without
/// them the preview is delivered as it is.
pub proof fn pictures_complete_the_preview(
    url: Seq<char>,
    data: PreviewDataView,
    bytes: Seq<u8>,
    message: Seq<char>,
)
    ensures
        ({
            let fetch = FetchView { url, stage: StageView::ImageReading(data) };
            let done = preview_of(body_spec(fetch, Ok(bytes)));
            &&& body_spec(fetch, Ok(bytes)).action is Finish
            &&& done is Some
            &&& done->0.image_bytes == Some(bytes)
            &&& done->0.url == data.url && done->0.title == data.title && done->0.description
                == data.description && done->0.image_url == data.image_url
            &&& result_of(body_spec(fetch, Err(message))) == Some(PreviewResultView::Success(data))
        }),
{
}

/// The limits are those that the client promises: eight fetches at a time, a quarter of a
/// mebibyte of a page, two mebibytes of a picture, five redirects.
pub proof fn limits_are_as_promised()
    ensures
        MAX_CONCURRENT_FETCHES == 8,
        MAX_BODY_BYTES == 256 * 1024,
        MAX_IMAGE_BYTES == 2 * 1024 * 1024,
        MAX_OEMBED_BYTES == 64 * 1024,
        MAX_REDIRECTS == 5,
        MAX_PREVIEW_URL_LEN == 2048,
{
}

/// Each event of a fetch leads to the step that its stage and the event give; what the outside
/// world answered is taken as it is.
pub proof fn events_lead_to_their_steps(
    fetch: PreviewFetch,
    addresses: Option<Vec<IpAddress>>,
    granted: bool,
    answer: Result<ResponseHead, String>,
    body: Result<Vec<u8>, String>,
    resolved: Step,
    permitted: Step,
    answered: Step,
    read: Step,
)
    requires
        call_ensures(PreviewFetch::on_resolved, (fetch, addresses), resolved),
        call_ensures(PreviewFetch::on_permit, (fetch, granted), permitted),
        call_ensures(PreviewFetch::on_response, (fetch, answer), answered),
        call_ensures(PreviewFetch::on_body, (fetch, body), read),
    ensures
        addresses is None ==> step_view(resolved) == resolved_spec(fetch@, None),
        addresses is Some ==> step_view(resolved) == resolved_spec(
            fetch@,
            Some(addresses->0@),
        ),
        step_view(permitted) == permit_spec(fetch@, granted, oembed_target(fetch.url@)),
        answer matches Err(message) ==> step_view(answered) == response_spec(
            fetch@,
            Err(message@),
        ),
        answer matches Ok(head) ==> step_view(answered) == response_spec(
            fetch@,
            Ok((head.status, text::opt_text(head.location), head.content_type@)),
        ),
        body matches Err(message) ==> step_view(read) == body_spec(fetch@, Err(message@)),
        body matches Ok(bytes) ==> step_view(read) == body_spec(fetch@, Ok(bytes@)),
        fetch@.url == fetch.url@,
{
}

/// Once a video's description is read, its preview has the title and the thumbnail given, and the
/// thumbnail is asked for in its best quality; once a page is read, its picture is asked for
/// where it comes from the page's own origin.
pub proof fn descriptions_lead_to_pictures(
    url: String,
    title: Option<String>,
    thumbnail: Option<String>,
    page: UrlParts,
    data: LinkPreviewData,
    image: Option<UrlParts>,
    video: Step,
    read: Step,
)
    requires
        call_ensures(video_described, (url, title, thumbnail), video),
        call_ensures(page_described, (url, page, data, image), read),
    ensures
        ({
            let preview = preview_of(step_view(video));
            let best = text::replaced(thumbnail->0@, "hqdefault"@, "maxresdefault"@);
            let inline = best.len() >= 5 && best.take(5) == "data:"@;
            &&& preview is Some && preview->0.url == url@ && preview->0.title == text::opt_text(
                title,
            ) && preview->0.image_url == text::opt_text(thumbnail) && preview->0.description is None
                && preview->0.image_bytes is None
            &&& thumbnail is Some && !inline ==> turns_to_picture(
                step_view(video),
                preview->0,
                preview_target::url_parsed(best),
            )
            &&& thumbnail is None || inline ==> result_of(step_view(video)) == Some(
                PreviewResultView::Success(preview->0),
            )
        }),
        ({
            let own = image is Some && image->0@.scheme == page@.scheme && image->0@.host
                == page@.host && image->0@.port == page@.port;
            &&& own ==> turns_to_picture(step_view(read), data@, Some(image->0@))
            &&& !own ==> result_of(step_view(read)) == Some(PreviewResultView::Success(data@))
        }),
{
    reveal_strlit("data:");
    if thumbnail is Some {
        let best = text::replaced(thumbnail->0@, "hqdefault"@, "maxresdefault"@);
        if best.len() >= 5 {
            assert(best.take(5) =~= best.subrange(0, 5));
        }
        if let Some(target) = preview_target::url_parsed(best) {
            lemma_turns_to_picture(
                url@,
                video_data(url@, text::opt_text(title), text::opt_text(thumbnail)),
                target,
                0,
            );
        }
    }
    if image is Some {
        lemma_turns_to_picture(url@, data@, image->0@, 0);
    }
}

/// A fetch that begins registers its URL exactly where it goes on, and takes the first step that
/// the URL gives; a URL that is being fetched already is pending, and the register stays.
pub proof fn fetches_begin_on_the_register(
    url: &str,
    parsed: Option<UrlParts>,
    register: &mut InFlightUrls,
    step: Step,
)
    requires
        call_ensures(begin_parsed, (url, parsed, register), step),
    ensures
        step_view(step) == begin_spec(
            url@,
            preview_target::opt_url(parsed),
            old(register)@.contains(url@),
        ),
        parsed is Some && encode_utf8(url@).len() <= 2048 && old(register)@.contains(url@) ==> {
            &&& result_of(step_view(step)) == Some(PreviewResultView::Pending)
            &&& final(register)@ == old(register)@
        },
        !(step.1@ is Finish) ==> final(register)@ == old(register)@.insert(url@) && !old(register)@.contains(url@),
        step.1@ matches ActionView::Finish { release, .. } ==> final(register)@ == if release {
            old(register)@.insert(url@)
        } else {
            old(register)@
        },
{
}

/// A fetch that begins reads its URL itself.
pub proof fn fetches_begin_with_their_url(url: &str, register: &mut InFlightUrls, step: Step)
    requires
        call_ensures(begin, (url, register), step),
    ensures
        step_view(step) == begin_spec(
            url@,
            preview_target::url_parsed(url@),
            old(register)@.contains(url@),
        ),
        final(register)@ == register_after(
            old(register)@,
            url@,
            preview_target::url_parsed(url@),
        ),
{
}

/// A URL is registered once; taken off the register it can be registered again. A guard takes its
/// URL off where it was not disarmed. No other URL is touched.
pub proof fn registers_keep_each_url_once(
    entered: &mut InFlightUrls,
    left: &mut InFlightUrls,
    freed: &mut InFlightUrls,
    url: &str,
    granted: bool,
    guard: InFlightGuard,
    fresh: InFlightGuard,
    disarmed: InFlightGuard,
    other: Seq<char>,
)
    requires
        call_ensures(InFlightUrls::register, (entered, url), granted),
        call_ensures(InFlightUrls::unregister, (left, url), ()),
        call_ensures(InFlightGuard::release, (guard, freed), ()),
        call_ensures(InFlightGuard::new, (url,), fresh),
        call_ensures(InFlightGuard::disarm, (guard,), disarmed),
        other != url@,
        other != guard.url@,
    ensures
        final(entered)@.contains(url@) && granted == !old(entered)@.contains(url@),
        final(entered)@.contains(other) <==> old(entered)@.contains(other),
        !final(left)@.contains(url@),
        final(left)@.contains(other) <==> old(left)@.contains(other),
        guard.active ==> !final(freed)@.contains(guard.url@),
        !guard.active ==> final(freed)@ == old(freed)@,
        final(freed)@.contains(other) <==> old(freed)@.contains(other),
        fresh.active && fresh.url@ == url@,
        !disarmed.active && disarmed.url@ == guard.url@,
{
}

/// A chunk is added to what was read as far as the limit lets it, and there is room for more
/// exactly where the limit is not reached.
pub proof fn chunks_are_added_up_to_the_limit(
    buffer: &mut BodyBuffer,
    chunk: &[u8],
    room: bool,
    fresh: BodyBuffer,
    limit: usize,
    i: int,
)
    requires
        call_ensures(BodyBuffer::push_chunk, (buffer, chunk), room),
        call_ensures(BodyBuffer::new, (limit,), fresh),
        old(buffer).wf(),
    ensures
        ({
            let all = old(buffer)@ + chunk@;
            let most = old(buffer).limit_spec();
            &&& all.len() <= most ==> final(buffer)@.len() == all.len()
            &&& all.len() > most ==> final(buffer)@.len() == most
            &&& 0 <= i < final(buffer)@.len() ==> final(buffer)@[i] == all[i]
            &&& room <==> all.len() < most
        }),
        final(buffer).limit_spec() == old(buffer).limit_spec(),
        fresh@.len() == 0 && fresh.limit_spec() == limit,
{
}

} // verus!
