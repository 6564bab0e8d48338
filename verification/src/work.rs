//! Work items: what one request asks the service to compute.

use vstd::prelude::*;
use crate::content::{
    image_response, page_response, serve_main, serve_sleepy, Response, ResponseView,
    StaticContent, StaticContentView,
};

verus! {

/// How long the slow computation holds the thread that runs it, in seconds.
pub const BLOCKING_DELAY_SECS: u64 = 5;

/// The two kinds of computation.
#[derive(Clone, Copy, Debug, PartialEq, Eq, Structural)]
pub enum WorkKind {
    /// Cheap: hands out the page at once.
    Static,
    /// Bound to the processor: holds its thread for
    /// [`BLOCKING_DELAY_SECS`] without yielding, then hands out the image.
    Slow,
}

impl WorkKind {
    /// The seconds for which an item of this kind holds its thread.
    pub open spec fn spec_blocking_secs(self) -> u64 {
        match self {
            WorkKind::Static => 0,
            WorkKind::Slow => 5,
        }
    }

    #[verifier::when_used_as_spec(spec_blocking_secs)]
    pub fn blocking_secs(self) -> (secs: u64)
        ensures
            secs == self.spec_blocking_secs(),
    {
        match self {
            WorkKind::Static => 0,
            WorkKind::Slow => BLOCKING_DELAY_SECS,
        }
    }

    /// Whether an item of this kind holds its thread without yielding.
    pub open spec fn spec_is_blocking(self) -> bool {
        self == WorkKind::Slow
    }

    #[verifier::when_used_as_spec(spec_is_blocking)]
    pub fn is_blocking(self) -> (blocking: bool)
        ensures
            blocking == self.spec_is_blocking(),
    {
        match self {
            WorkKind::Static => false,
            WorkKind::Slow => true,
        }
    }
}

/// One unit of work, made when a request arrives and consumed when it is
/// executed.
///
/// `context` is a value that belongs to the request (the last segment of its
/// path). `shared` is a snapshot of the state that the service shares among
/// its requests. Both are passed by value, so an item can move to another
/// thread without any synchronisation.
#[derive(Debug)]
pub struct WorkItem {
    pub kind: WorkKind,
    pub context: Option<Vec<u8>>,
    pub shared: Option<Vec<u8>>,
}

/// A [`WorkItem`] as a mathematical value.
pub ghost struct WorkItemView {
    pub kind: WorkKind,
    pub context: Option<Seq<u8>>,
    pub shared: Option<Seq<u8>>,
}

/// The view of an optional byte vector.
pub open spec fn optional_bytes(bytes: Option<Vec<u8>>) -> Option<Seq<u8>> {
    match bytes {
        Some(b) => Some(b@),
        None => None,
    }
}

impl View for WorkItem {
    type V = WorkItemView;

    open spec fn view(&self) -> WorkItemView {
        WorkItemView {
            kind: self.kind,
            context: optional_bytes(self.context),
            shared: optional_bytes(self.shared),
        }
    }
}

impl WorkItem {
    /// An item of the given kind with no context and no shared state.
    pub fn new(kind: WorkKind) -> (item: WorkItem)
        ensures
            item@ == (WorkItemView { kind, context: None, shared: None }),
    {
        WorkItem { kind, context: None, shared: None }
    }

    /// The same item with `context` as its request-scoped value.
    pub fn with_context(self, context: Vec<u8>) -> (item: WorkItem)
        ensures
            item@ == (WorkItemView { context: Some(context@), ..self@ }),
    {
        WorkItem { kind: self.kind, context: Some(context), shared: self.shared }
    }

    /// The same item with `shared` as its snapshot of the shared state.
    pub fn with_shared(self, shared: Vec<u8>) -> (item: WorkItem)
        ensures
            item@ == (WorkItemView { shared: Some(shared@), ..self@ }),
    {
        WorkItem { kind: self.kind, context: self.context, shared: Some(shared) }
    }
}

/// The response that an item of the given kind produces. It depends on the
/// kind and on the fixed payloads, and on nothing else.
pub open spec fn spec_execute(kind: WorkKind, content: StaticContentView) -> ResponseView {
    match kind {
        WorkKind::Static => page_response(content),
        WorkKind::Slow => image_response(content),
    }
}

/// Computes the response of `item`. For a slow item, the thread that calls
/// this has been held for [`BLOCKING_DELAY_SECS`] before the call.
pub fn execute(item: &WorkItem, content: &StaticContent) -> (response: Response)
    ensures
        response@ == spec_execute(item@.kind, content@),
{
    match item.kind {
        WorkKind::Static => serve_main(content),
        WorkKind::Slow => serve_sleepy(content),
    }
}

/// Neither the context of an item nor its snapshot of the shared state
/// alters its response: two items of one kind produce the same response from
/// the same payloads.
pub proof fn lemma_response_ignores_context(
    a: WorkItemView,
    b: WorkItemView,
    content: StaticContentView,
)
    requires
        a.kind == b.kind,
    ensures
        spec_execute(a.kind, content) == spec_execute(b.kind, content),
{
}

/// Every response is a success with the cache directive `no-cache`.
pub proof fn lemma_response_shape(kind: WorkKind, content: StaticContentView)
    ensures
        spec_execute(kind, content).status == 200,
        spec_execute(kind, content).cache_control == "no-cache"@,
        kind == WorkKind::Static ==> spec_execute(kind, content).content_type
            == "text/html; charset=utf-8"@ && spec_execute(kind, content).body == content.page,
        kind == WorkKind::Slow ==> spec_execute(kind, content).content_type == "image/png"@
            && spec_execute(kind, content).body == content.image,
{
}

} // verus!
