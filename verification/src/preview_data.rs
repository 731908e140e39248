//! What is known of a linked page.

use vstd::prelude::*;

use crate::text;

verus! {

/// Data fetched for a link preview card.
#[derive(Debug, Clone)]
pub struct LinkPreviewData {
    /// The URL that was fetched.
    pub url: String,
    /// Page title.
    pub title: Option<String>,
    /// Page description or snippet.
    pub description: Option<String>,
    /// Address of the page's picture, if any.
    pub image_url: Option<String>,
    /// Raw bytes of the picture, shown as a thumbnail on the card.
    pub image_bytes: Option<Vec<u8>>,
}

/// Outcome of fetching a link preview.
#[derive(Debug, Clone)]
pub enum LinkPreviewResult {
    /// Successfully fetched and parsed.
    Success(LinkPreviewData),
    /// Fetch failed or produced unusable data.
    Error(String),
    /// The URL is already being fetched by another request, whose result will come.
    Pending,
}

/// What a [`LinkPreviewData`] holds.
pub struct PreviewDataView {
    pub url: Seq<char>,
    pub title: Option<Seq<char>>,
    pub description: Option<Seq<char>>,
    pub image_url: Option<Seq<char>>,
    pub image_bytes: Option<Seq<u8>>,
}

/// What a [`LinkPreviewResult`] holds.
pub enum PreviewResultView {
    Success(PreviewDataView),
    Error(Seq<char>),
    Pending,
}

/// The bytes of an optional list of bytes.
pub open spec fn opt_bytes(bytes: Option<Vec<u8>>) -> Option<Seq<u8>> {
    match bytes {
        Some(b) => Some(b@),
        None => None,
    }
}

impl View for LinkPreviewData {
    type V = PreviewDataView;

    open spec fn view(&self) -> PreviewDataView {
        PreviewDataView {
            url: self.url@,
            title: text::opt_text(self.title),
            description: text::opt_text(self.description),
            image_url: text::opt_text(self.image_url),
            image_bytes: opt_bytes(self.image_bytes),
        }
    }
}

impl View for LinkPreviewResult {
    type V = PreviewResultView;

    open spec fn view(&self) -> PreviewResultView {
        match self {
            LinkPreviewResult::Success(data) => PreviewResultView::Success(data@),
            LinkPreviewResult::Error(message) => PreviewResultView::Error(message@),
            LinkPreviewResult::Pending => PreviewResultView::Pending,
        }
    }
}

/// A copy of a list of bytes.
pub fn copy_bytes(bytes: &Vec<u8>) -> (copy: Vec<u8>)
    ensures
        copy@ == bytes@,
{
    let mut copy: Vec<u8> = Vec::new();
    let mut i: usize = 0;
    while i < bytes.len()
        invariant
            i <= bytes.len(),
            copy@ == bytes@.take(i as int),
        decreases bytes.len() - i,
    {
        copy.push(bytes[i]);
        assert(bytes@.take(i as int).push(bytes@[i as int]) =~= bytes@.take(i + 1));
        i += 1;
    }
    assert(bytes@.take(bytes@.len() as int) =~= bytes@);
    copy
}

/// A copy of a preview result.
pub fn copy_result(result: &LinkPreviewResult) -> (copy: LinkPreviewResult)
    ensures
        copy@ == result@,
{
    match result {
        LinkPreviewResult::Success(data) => LinkPreviewResult::Success(
            LinkPreviewData {
                url: data.url.clone(),
                title: text::clone_opt(&data.title),
                description: text::clone_opt(&data.description),
                image_url: text::clone_opt(&data.image_url),
                image_bytes: match &data.image_bytes {
                    Some(bytes) => Some(copy_bytes(bytes)),
                    None => None,
                },
            },
        ),
        LinkPreviewResult::Error(message) => LinkPreviewResult::Error(message.clone()),
        LinkPreviewResult::Pending => LinkPreviewResult::Pending,
    }
}

/// A copy of a result holds what the result holds, part by part.
pub proof fn copies_hold_the_same(result: LinkPreviewResult, copy: LinkPreviewResult)
    requires
        call_ensures(copy_result, (&result,), copy),
    ensures
        result is Success <==> copy is Success,
        result is Error <==> copy is Error,
        result is Pending <==> copy is Pending,
        result matches LinkPreviewResult::Error(message) ==> copy matches LinkPreviewResult::Error(
            said,
        ) && said@ == message@,
        result matches LinkPreviewResult::Success(data) ==> copy
            matches LinkPreviewResult::Success(same) && same.url@ == data.url@ && text::opt_text(
            same.title,
        ) == text::opt_text(data.title) && text::opt_text(same.description) == text::opt_text(
            data.description,
        ) && text::opt_text(same.image_url) == text::opt_text(data.image_url) && opt_bytes(
            same.image_bytes,
        ) == opt_bytes(data.image_bytes),
{
    assert(copy@ == result@);
}

} // verus!
