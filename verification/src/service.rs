//! The service: one dispatch policy for each route, and the work item behind
//! each request.

use vstd::prelude::*;
use crate::content::{copy_bytes, image_response, page_response, StaticContentView};
use crate::policy::DispatchPolicy;
use crate::router::{
    is_segment, match_path, segment_under, spec_match_path, Matched, MatchedView, Method, Route,
    SHARED_STATE, SLASH, STATEFUL_PREFIX, STATELESS_PREFIX,
};
use crate::work::{spec_execute, WorkItem, WorkItemView, WorkKind};

verus! {

/// What the service does with one request.
#[derive(Debug)]
pub enum Resolution {
    /// Run this item under this policy and answer with its response.
    Dispatch(DispatchPolicy, WorkItem),
    /// No route has this path.
    NotFound,
    /// The path has a route, which does not answer this method.
    MethodNotAllowed,
}

/// A [`Resolution`] as a mathematical value.
pub ghost enum ResolutionView {
    Dispatch(DispatchPolicy, WorkItemView),
    NotFound,
    MethodNotAllowed,
}

impl View for Resolution {
    type V = ResolutionView;

    open spec fn view(&self) -> ResolutionView {
        match self {
            Resolution::Dispatch(policy, item) => ResolutionView::Dispatch(*policy, item@),
            Resolution::NotFound => ResolutionView::NotFound,
            Resolution::MethodNotAllowed => ResolutionView::MethodNotAllowed,
        }
    }
}

/// A [`Service`] as a mathematical value.
pub ghost struct ServiceView {
    pub main: DispatchPolicy,
    pub stateless: DispatchPolicy,
    pub stateful: DispatchPolicy,
    pub state: Seq<u8>,
}

impl ServiceView {
    /// The policy of `route`.
    pub open spec fn policy_of(self, route: Route) -> DispatchPolicy {
        match route {
            Route::Main => self.main,
            Route::Stateless => self.stateless,
            Route::Stateful => self.stateful,
        }
    }

    /// Whether one of the routes of the service has `policy`.
    pub open spec fn uses(self, policy: DispatchPolicy) -> bool {
        policy == self.main || policy == self.stateless || policy == self.stateful
    }

    /// The work item behind a path that matched. The page is cheap; both
    /// image routes do the slow work and carry the last segment of the path;
    /// the stateful one carries the shared state as well.
    pub open spec fn work_for(self, matched: MatchedView) -> WorkItemView {
        match matched.route {
            Route::Main => WorkItemView { kind: WorkKind::Static, context: None, shared: None },
            Route::Stateless => WorkItemView {
                kind: WorkKind::Slow,
                context: matched.parameter,
                shared: None,
            },
            Route::Stateful => WorkItemView {
                kind: WorkKind::Slow,
                context: matched.parameter,
                shared: Some(self.state),
            },
        }
    }

    /// What the service does with a request for `path` by `method`.
    pub open spec fn resolve(self, method: Method, path: Seq<u8>) -> ResolutionView {
        match spec_match_path(path) {
            None => ResolutionView::NotFound,
            Some(matched) => if method == Method::Other {
                ResolutionView::MethodNotAllowed
            } else {
                ResolutionView::Dispatch(self.policy_of(matched.route), self.work_for(matched))
            },
        }
    }
}

/// The routes of a service with the policy of each, and the state that its
/// requests share. Both are fixed when the service is built.
///
/// The shared state is only read, and every item that wants it gets a copy
/// of its own, so items on different threads need no synchronisation. A
/// state that requests could change would need mutual exclusion, or an
/// equivalent, around every access; the service offers no such state.
pub struct Service {
    main: DispatchPolicy,
    stateless: DispatchPolicy,
    stateful: DispatchPolicy,
    state: Vec<u8>,
}

impl View for Service {
    type V = ServiceView;

    closed spec fn view(&self) -> ServiceView {
        ServiceView {
            main: self.main,
            stateless: self.stateless,
            stateful: self.stateful,
            state: self.state@,
        }
    }
}

impl Service {
    /// A service with a policy for each route.
    pub fn new(main: DispatchPolicy, stateless: DispatchPolicy, stateful: DispatchPolicy) -> (service:
        Service)
        ensures
            service@ == (ServiceView { main, stateless, stateful, state: SHARED_STATE@ }),
    {
        let state = SHARED_STATE;
        Service { main, stateless, stateful, state: copy_bytes(state.as_slice()) }
    }

    /// A service with one policy for all of its routes.
    pub fn uniform(policy: DispatchPolicy) -> (service: Service)
        ensures
            service@ == (ServiceView {
                main: policy,
                stateless: policy,
                stateful: policy,
                state: SHARED_STATE@,
            }),
    {
        Service::new(policy, policy, policy)
    }

    /// The policy of `route`.
    pub fn policy_of(&self, route: Route) -> (policy: DispatchPolicy)
        ensures
            policy == self@.policy_of(route),
    {
        match route {
            Route::Main => self.main,
            Route::Stateless => self.stateless,
            Route::Stateful => self.stateful,
        }
    }

    /// The state that the requests share.
    pub fn state(&self) -> (state: &Vec<u8>)
        ensures
            state@ == self@.state,
    {
        &self.state
    }

    /// Makes the work item for a path that matched.
    pub fn work_for(&self, matched: Matched) -> (item: WorkItem)
        ensures
            item@ == self@.work_for(matched@),
    {
        match matched.route {
            Route::Main => WorkItem::new(WorkKind::Static),
            Route::Stateless => WorkItem {
                kind: WorkKind::Slow,
                context: matched.parameter,
                shared: None,
            },
            Route::Stateful => WorkItem {
                kind: WorkKind::Slow,
                context: matched.parameter,
                shared: Some(copy_bytes(self.state.as_slice())),
            },
        }
    }

    /// Decides what to do with a request for `path` by `method`.
    pub fn resolve(&self, method: Method, path: &[u8]) -> (resolution: Resolution)
        ensures
            resolution@ == self@.resolve(method, path@),
    {
        match match_path(path) {
            None => Resolution::NotFound,
            Some(matched) => {
                match method {
                    Method::Other => Resolution::MethodNotAllowed,
                    _ => {
                        let policy = self.policy_of(matched.route);
                        Resolution::Dispatch(policy, self.work_for(matched))
                    },
                }
            },
        }
    }
}

/// The service that runs every item on the thread that took the request.
pub fn serve_blocking() -> (service: Service)
    ensures
        service@ == (ServiceView {
            main: DispatchPolicy::Inline,
            stateless: DispatchPolicy::Inline,
            stateful: DispatchPolicy::Inline,
            state: SHARED_STATE@,
        }),
{
    Service::uniform(DispatchPolicy::Inline)
}

/// The service that hands every item to the scheduler as a task of its own.
/// The slow items still run on driver threads: this service starves as
/// `serve_blocking` does.
pub fn serve_spawning() -> (service: Service)
    ensures
        service@ == (ServiceView {
            main: DispatchPolicy::RescheduledTask,
            stateless: DispatchPolicy::RescheduledTask,
            stateful: DispatchPolicy::RescheduledTask,
            state: SHARED_STATE@,
        }),
{
    Service::uniform(DispatchPolicy::RescheduledTask)
}

/// The service that hands every item to the blocking executor and keeps the
/// driver threads free.
pub fn serve_nonblocking() -> (service: Service)
    ensures
        service@ == (ServiceView {
            main: DispatchPolicy::PooledBlocking,
            stateless: DispatchPolicy::PooledBlocking,
            stateful: DispatchPolicy::PooledBlocking,
            state: SHARED_STATE@,
        }),
{
    Service::uniform(DispatchPolicy::PooledBlocking)
}

/// A request for `/` is always answered with the page: status 200, the
/// content type of the page, and the bytes of the page as its body,
/// whatever the policy of the route.
pub proof fn lemma_root_serves_the_page(
    service: ServiceView,
    method: Method,
    content: StaticContentView,
)
    requires
        method != Method::Other,
    ensures
        service.resolve(method, seq![SLASH]) matches ResolutionView::Dispatch(policy, item)
            && policy == service.main && item.kind == WorkKind::Static && spec_execute(
            item.kind,
            content,
        ) == page_response(content),
        page_response(content).status == 200,
        page_response(content).content_type == "text/html; charset=utf-8"@,
        page_response(content).body == content.page,
{
}

/// The path of the image with `id` as its last segment, under `prefix`.
pub open spec fn image_path(prefix: Seq<u8>, id: Seq<u8>) -> Seq<u8> {
    prefix + id
}

/// A request for `/stateless/{id}` or `/stateful/{id}` is always answered
/// with the image, whatever segment `id` is, after work that holds its
/// thread for the fixed delay. The shared state of the stateful route does
/// not alter the response.
pub proof fn lemma_image_routes_serve_the_image(
    service: ServiceView,
    method: Method,
    id: Seq<u8>,
    content: StaticContentView,
)
    requires
        method != Method::Other,
        is_segment(id),
    ensures
        service.resolve(method, image_path(STATELESS_PREFIX@, id)) == ResolutionView::Dispatch(
            service.stateless,
            WorkItemView { kind: WorkKind::Slow, context: Some(id), shared: None },
        ),
        service.resolve(method, image_path(STATEFUL_PREFIX@, id)) == ResolutionView::Dispatch(
            service.stateful,
            WorkItemView { kind: WorkKind::Slow, context: Some(id), shared: Some(service.state) },
        ),
        spec_execute(WorkKind::Slow, content) == image_response(content),
        image_response(content).status == 200,
        image_response(content).content_type == "image/png"@,
        image_response(content).body == content.image,
        WorkKind::Slow.spec_blocking_secs() == 5,
{
    let stateless = image_path(STATELESS_PREFIX@, id);
    assert(stateless.subrange(0, 11) =~= STATELESS_PREFIX@);
    assert(stateless.skip(11) =~= id);
    assert(stateless != seq![SLASH]) by {
        assert(stateless.len() > 1);
        assert(seq![SLASH].len() == 1);
    }
    let stateful = image_path(STATEFUL_PREFIX@, id);
    assert(stateful.subrange(0, 10) =~= STATEFUL_PREFIX@);
    assert(stateful.skip(10) =~= id);
    assert(stateful != seq![SLASH]) by {
        assert(stateful.len() > 1);
        assert(seq![SLASH].len() == 1);
    }
    assert(segment_under(stateful, STATELESS_PREFIX@) is None) by {
        crate::router::lemma_routes_are_disjoint(stateful);
    }
}

/// Two requests for `/` get the same body, byte for byte, whichever services
/// answer them and under whichever policies.
pub proof fn lemma_page_is_always_the_same(
    first: ServiceView,
    second: ServiceView,
    first_method: Method,
    second_method: Method,
    content: StaticContentView,
)
    requires
        first_method != Method::Other,
        second_method != Method::Other,
    ensures
        first.resolve(first_method, seq![SLASH]) matches ResolutionView::Dispatch(_, a)
            && second.resolve(second_method, seq![SLASH]) matches ResolutionView::Dispatch(_, b)
            && spec_execute(a.kind, content) == spec_execute(b.kind, content),
{
}

} // verus!
