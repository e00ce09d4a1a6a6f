//! The response to a request: the bytes of a file with the media kind of
//! its name, or a rendered document that reports why the read failed.

use vstd::prelude::*;
use vstd::utf8::encode_utf8;
use crate::listing::{error_page_spec, render_error, INDEX_PREFIX, INDEX_SUFFIX};
use crate::media::{classify, classify_spec, MediaKind};

verus! {

/// The status every response carries: a failed read is reported in the
/// body, never in the status.
pub const STATUS_OK: u16 = 200;

/// What the read of a resolved path gave.
#[derive(Debug, PartialEq, Eq)]
pub enum ReadOutcome {
    /// The bytes read, and the media kind of the path they were read from.
    Content(Vec<u8>, MediaKind),
    /// The read failed; holds the description of the failure.
    RenderedError(String),
}

/// The mathematical content of a [`ReadOutcome`].
pub enum ReadOutcomeView {
    Content(Seq<u8>, MediaKind),
    RenderedError(Seq<char>),
}

impl View for ReadOutcome {
    type V = ReadOutcomeView;

    open spec fn view(&self) -> ReadOutcomeView {
        match self {
            ReadOutcome::Content(bytes, kind) => ReadOutcomeView::Content(bytes@, *kind),
            ReadOutcome::RenderedError(description) => ReadOutcomeView::RenderedError(
                description@,
            ),
        }
    }
}

/// A response body under the media kind that selects its content type.
#[derive(Debug, PartialEq, Eq)]
pub enum Response {
    Html(Vec<u8>),
    Css(Vec<u8>),
    Js(Vec<u8>),
    Wasm(Vec<u8>),
}

/// The mathematical content of a [`Response`].
pub struct ResponseView {
    pub kind: MediaKind,
    pub body: Seq<u8>,
}

impl View for Response {
    type V = ResponseView;

    open spec fn view(&self) -> ResponseView {
        match self {
            Response::Html(body) => ResponseView { kind: MediaKind::Html, body: body@ },
            Response::Css(body) => ResponseView { kind: MediaKind::Css, body: body@ },
            Response::Js(body) => ResponseView { kind: MediaKind::Js, body: body@ },
            Response::Wasm(body) => ResponseView { kind: MediaKind::Wasm, body: body@ },
        }
    }
}

/// The outcome of reading `path`, given what the read returned: the bytes
/// with the kind of `path`, or the failure's description.
pub open spec fn read_outcome_spec(path: Seq<char>, read: Result<Vec<u8>, String>)
    -> ReadOutcomeView {
    match read {
        Ok(bytes) => ReadOutcomeView::Content(bytes@, classify_spec(path)),
        Err(description) => ReadOutcomeView::RenderedError(description@),
    }
}

/// The response that renders `outcome`: content goes out byte for byte
/// under its kind; a failure goes out as the bytes of the document that
/// reports it, as HTML.
pub open spec fn render_spec(outcome: ReadOutcomeView) -> ResponseView {
    match outcome {
        ReadOutcomeView::Content(bytes, kind) => ResponseView { kind, body: bytes },
        ReadOutcomeView::RenderedError(description) => ResponseView {
            kind: MediaKind::Html,
            body: encode_utf8(error_page_spec(description)),
        },
    }
}

/// The bytes of a text are the bytes of its parts, one after the other.
pub proof fn lemma_encode_concat(head: Seq<char>, tail: Seq<char>)
    ensures
        encode_utf8(head + tail) == encode_utf8(head) + encode_utf8(tail),
    decreases head.len(),
{
    if head.len() == 0 {
        assert(head + tail =~= tail);
        assert(encode_utf8(head) + encode_utf8(tail) =~= encode_utf8(tail));
    } else {
        lemma_encode_concat(head.drop_first(), tail);
        assert((head + tail).drop_first() =~= head.drop_first() + tail);
        assert(encode_utf8(head + tail) =~= encode_utf8(head) + encode_utf8(tail));
    }
}

/// A read that succeeded is answered with the bytes read, unchanged, under
/// the kind that the path selects.
pub proof fn law_content_is_served_unchanged(path: Seq<char>, bytes: Vec<u8>)
    ensures
        render_spec(read_outcome_spec(path, Ok(bytes))) == (ResponseView {
            kind: classify_spec(path),
            body: bytes@,
        }),
{
}

/// A read that failed is answered as HTML with a body that holds, between
/// the bytes of the listing frame, the bytes of the failure's description
/// inside a preformatted block.
pub proof fn law_failed_read_is_rendered(path: Seq<char>, description: String)
    ensures
        render_spec(read_outcome_spec(path, Err(description))).kind == MediaKind::Html,
        render_spec(read_outcome_spec(path, Err(description))).body == encode_utf8(INDEX_PREFIX@)
            + encode_utf8("<li><pre><code>"@) + encode_utf8(description@) + encode_utf8(
            "</code></pre></li>"@,
        ) + encode_utf8(INDEX_SUFFIX@),
{
    let open = "<li><pre><code>"@;
    let close = "</code></pre></li>"@;
    let text = description@;
    lemma_encode_concat(INDEX_PREFIX@ + (open + text + close), INDEX_SUFFIX@);
    lemma_encode_concat(INDEX_PREFIX@, open + text + close);
    lemma_encode_concat(open + text, close);
    lemma_encode_concat(open, text);
}

impl Response {
    /// Puts `body` under `kind`.
    pub fn new(kind: MediaKind, body: Vec<u8>) -> (response: Response)
        ensures
            response@ == (ResponseView { kind, body: body@ }),
    {
        match kind {
            MediaKind::Html => Response::Html(body),
            MediaKind::Css => Response::Css(body),
            MediaKind::Js => Response::Js(body),
            MediaKind::Wasm => Response::Wasm(body),
        }
    }

    /// Returns the media kind of the response.
    pub fn kind(&self) -> (kind: MediaKind)
        ensures
            kind == self@.kind,
    {
        match self {
            Response::Html(_) => MediaKind::Html,
            Response::Css(_) => MediaKind::Css,
            Response::Js(_) => MediaKind::Js,
            Response::Wasm(_) => MediaKind::Wasm,
        }
    }

    /// Returns the value of the response's `content-type` header.
    pub fn content_type(&self) -> (label: &'static str)
        ensures
            label@ == self@.kind.content_type_spec(),
    {
        self.kind().content_type()
    }

    /// Returns the status of the response, which is always [`STATUS_OK`].
    pub fn status(&self) -> (status: u16)
        ensures
            status == STATUS_OK,
    {
        STATUS_OK
    }

    /// Returns the bytes of the response body.
    pub fn body(&self) -> (body: &Vec<u8>)
        ensures
            body@ == self@.body,
    {
        match self {
            Response::Html(body) => body,
            Response::Css(body) => body,
            Response::Js(body) => body,
            Response::Wasm(body) => body,
        }
    }

    /// Gives up the response for the bytes of its body.
    pub fn into_body(self) -> (body: Vec<u8>)
        ensures
            body@ == self@.body,
    {
        match self {
            Response::Html(body) => body,
            Response::Css(body) => body,
            Response::Js(body) => body,
            Response::Wasm(body) => body,
        }
    }
}

/// Tells content from failure: the bytes read from `path` are content of
/// the kind that `path` selects; a failed read is kept by its description.
pub fn read_outcome(path: &str, read: Result<Vec<u8>, String>) -> (outcome: ReadOutcome)
    ensures
        outcome@ == read_outcome_spec(path@, read),
{
    match read {
        Ok(bytes) => ReadOutcome::Content(bytes, classify(path)),
        Err(description) => ReadOutcome::RenderedError(description),
    }
}

/// Renders `outcome` into a response.
pub fn render(outcome: ReadOutcome) -> (response: Response)
    ensures
        response@ == render_spec(outcome@),
{
    match outcome {
        ReadOutcome::Content(bytes, kind) => Response::new(kind, bytes),
        ReadOutcome::RenderedError(description) => {
            let page = render_error(description.as_str());
            Response::Html(page.as_str().as_bytes_vec())
        },
    }
}

/// Answers the request whose resolved path is `path`, given what the read
/// of `path` returned. A failed read never fails the request.
pub fn read_path(path: &str, read: Result<Vec<u8>, String>) -> (response: Response)
    ensures
        response@ == render_spec(read_outcome_spec(path@, read)),
{
    render(read_outcome(path, read))
}

} // verus!
