//! The fixed payloads of the service and the responses built from them.

use vstd::prelude::*;

verus! {

/// The status code of every successful response.
pub const STATUS_OK: u16 = 200;

/// The content type of the page.
pub open spec fn html_type() -> Seq<char> {
    "text/html; charset=utf-8"@
}

/// The content type of the image.
pub open spec fn png_type() -> Seq<char> {
    "image/png"@
}

/// The cache directive of every successful response.
pub open spec fn no_cache() -> Seq<char> {
    "no-cache"@
}

/// The payloads that the service hands out: a page and an image.
///
/// The value is made once, before the first request, and is only read
/// afterwards. Any number of work items may read it at the same time without
/// synchronisation, because no operation of this type changes it.
pub struct StaticContent {
    page: Vec<u8>,
    image: Vec<u8>,
}

/// What a [`StaticContent`] holds, as mathematical sequences.
pub ghost struct StaticContentView {
    pub page: Seq<u8>,
    pub image: Seq<u8>,
}

impl View for StaticContent {
    type V = StaticContentView;

    closed spec fn view(&self) -> StaticContentView {
        StaticContentView { page: self.page@, image: self.image@ }
    }
}

impl StaticContent {
    /// Takes the bytes of the page and of the image.
    pub fn new(page: Vec<u8>, image: Vec<u8>) -> (content: StaticContent)
        ensures
            content@.page == page@,
            content@.image == image@,
    {
        StaticContent { page, image }
    }

    /// The bytes of the page.
    pub fn page(&self) -> (bytes: &Vec<u8>)
        ensures
            bytes@ == self@.page,
    {
        &self.page
    }

    /// The bytes of the image.
    pub fn image(&self) -> (bytes: &Vec<u8>)
        ensures
            bytes@ == self@.image,
    {
        &self.image
    }
}

/// One response: a status code, two header values and a body.
#[derive(Debug)]
pub struct Response {
    pub status: u16,
    pub content_type: &'static str,
    pub cache_control: &'static str,
    pub body: Vec<u8>,
}

/// A [`Response`] as a mathematical value.
pub ghost struct ResponseView {
    pub status: u16,
    pub content_type: Seq<char>,
    pub cache_control: Seq<char>,
    pub body: Seq<u8>,
}

impl View for Response {
    type V = ResponseView;

    open spec fn view(&self) -> ResponseView {
        ResponseView {
            status: self.status,
            content_type: self.content_type@,
            cache_control: self.cache_control@,
            body: self.body@,
        }
    }
}

/// The response that carries the page.
pub open spec fn page_response(content: StaticContentView) -> ResponseView {
    ResponseView {
        status: 200,
        content_type: html_type(),
        cache_control: no_cache(),
        body: content.page,
    }
}

/// The response that carries the image.
pub open spec fn image_response(content: StaticContentView) -> ResponseView {
    ResponseView {
        status: 200,
        content_type: png_type(),
        cache_control: no_cache(),
        body: content.image,
    }
}

/// A fresh vector with the bytes of `source`.
pub fn copy_bytes(source: &[u8]) -> (copy: Vec<u8>)
    ensures
        copy@ == source@,
{
    let mut copy: Vec<u8> = Vec::with_capacity(source.len());
    let mut i: usize = 0;
    while i < source.len()
        invariant
            i <= source.len(),
            copy@ == source@.subrange(0, i as int),
        decreases source.len() - i,
    {
        copy.push(source[i]);
        i += 1;
        assert(copy@ == source@.subrange(0, i as int));
    }
    assert(source@.subrange(0, source.len() as int) == source@);
    copy
}

/// Builds the response to a request for the page.
pub fn serve_main(content: &StaticContent) -> (response: Response)
    ensures
        response@ == page_response(content@),
{
    Response {
        status: STATUS_OK,
        content_type: "text/html; charset=utf-8",
        cache_control: "no-cache",
        body: copy_bytes(content.page().as_slice()),
    }
}

/// Builds the response to a request for the image. The caller has done the
/// blocking work before it asks for the response.
pub fn serve_sleepy(content: &StaticContent) -> (response: Response)
    ensures
        response@ == image_response(content@),
{
    Response {
        status: STATUS_OK,
        content_type: "image/png",
        cache_control: "no-cache",
        body: copy_bytes(content.image().as_slice()),
    }
}

} // verus!
