//! The whole service in one value: its routes, its dispatcher, and every
//! request that is in flight. Any number of requests may be open at a time;
//! each one keeps to itself.

use vstd::prelude::*;
use crate::content::{StaticContent, StaticContentView};
use crate::dispatch::Dispatcher;
use crate::error::DispatchError;
use crate::handoff::{observation_view, outcome_view, Outcome, OutcomeView, StageView, Step};
use crate::policy::{DispatchPolicy, ExecutionSite};
use crate::router::Method;
use crate::runtime::{placed, CooperativeScheduler, Task, TaskView};
use crate::scheduler::{Admission, SchedulerView};
use crate::service::{Resolution, ResolutionView, Service, ServiceView};
use crate::work::spec_execute;

verus! {

/// Whether `task` holds a thread of kind `site`.
pub open spec fn holds(task: TaskView, site: ExecutionSite) -> bool {
    task.stage is Running && task.policy.spec_site() == site
}

/// How many of `tasks` hold a thread of kind `site`.
pub open spec fn holding(tasks: Seq<TaskView>, site: ExecutionSite) -> nat
    decreases tasks.len(),
{
    if tasks.len() == 0 {
        0
    } else {
        let last: nat = if holds(tasks.last(), site) {
            1
        } else {
            0
        };
        holding(tasks.drop_last(), site) + last
    }
}

/// A new task counts if it holds a thread.
pub proof fn lemma_holding_push(tasks: Seq<TaskView>, task: TaskView, site: ExecutionSite)
    ensures
        holding(tasks.push(task), site) == holding(tasks, site) + (if holds(task, site) {
            1nat
        } else {
            0nat
        }),
{
    assert(tasks.push(task).drop_last() =~= tasks);
}

/// Replacing one task changes the count by that task alone.
pub proof fn lemma_holding_update(
    tasks: Seq<TaskView>,
    at: int,
    task: TaskView,
    site: ExecutionSite,
)
    requires
        0 <= at < tasks.len(),
    ensures
        holding(tasks.update(at, task), site) + (if holds(tasks[at], site) {
            1nat
        } else {
            0nat
        }) == holding(tasks, site) + (if holds(task, site) {
            1nat
        } else {
            0nat
        }),
    decreases tasks.len(),
{
    if at == tasks.len() - 1 {
        assert(tasks.update(at, task).drop_last() =~= tasks.drop_last());
    } else {
        assert(tasks.update(at, task).drop_last() =~= tasks.drop_last().update(at, task));
        lemma_holding_update(tasks.drop_last(), at, task, site);
    }
}

/// Where no task runs under a policy that takes a thread of kind `site`,
/// none holds one.
pub proof fn lemma_holding_none(tasks: Seq<TaskView>, site: ExecutionSite)
    requires
        forall|i: int| 0 <= i < tasks.len() ==> (#[trigger] tasks[i]).policy.spec_site() != site,
    ensures
        holding(tasks, site) == 0,
    decreases tasks.len(),
{
    if tasks.len() > 0 {
        assert(tasks.last() == tasks[tasks.len() - 1]);
        assert forall|i: int| 0 <= i < tasks.drop_last().len() implies (#[trigger] tasks.drop_last()[i]).policy.spec_site()
            != site by {
            assert(tasks.drop_last()[i] == tasks[i]);
        }
        lemma_holding_none(tasks.drop_last(), site);
    }
}

/// A [`Server`] as a mathematical value.
pub ghost struct ServerView {
    pub service: ServiceView,
    pub pools: SchedulerView,
    pub content: StaticContentView,
    pub tasks: Seq<TaskView>,
}

impl ServerView {
    /// The books agree with the tasks: each pool holds exactly as many
    /// threads as there are tasks that run on it, and every task runs under
    /// a policy of the service.
    pub open spec fn wf(self) -> bool {
        &&& self.pools.wf()
        &&& self.pools.held == holding(self.tasks, ExecutionSite::DriverThread)
        &&& self.pools.working == holding(self.tasks, ExecutionSite::WorkerThread)
        &&& forall|i: int|
            0 <= i < self.tasks.len() ==> self.service.uses((#[trigger] self.tasks[i]).policy)
    }
}

/// What became of a request at the door.
#[derive(Clone, Copy, Debug, PartialEq, Eq, Structural)]
pub enum Accepted {
    /// The request is in flight under this ticket.
    Ticket(usize),
    /// No route has its path.
    NotFound,
    /// Its path has a route, which does not answer its method.
    MethodNotAllowed,
}

/// What one request gets when it is taken through its whole life at once.
#[derive(Debug)]
pub enum Reply {
    /// The outcome of its work item.
    Answered(Outcome),
    /// Nothing yet: every driver thread is held, and the request waits under
    /// this ticket.
    Waiting(usize),
    /// No route has its path.
    NotFound,
    /// Its path has a route, which does not answer its method.
    MethodNotAllowed,
}

/// A [`Reply`] as a mathematical value.
pub ghost enum ReplyView {
    Answered(OutcomeView),
    Waiting(int),
    NotFound,
    MethodNotAllowed,
}

impl View for Reply {
    type V = ReplyView;

    open spec fn view(&self) -> ReplyView {
        match self {
            Reply::Answered(outcome) => ReplyView::Answered(outcome_view(*outcome)),
            Reply::Waiting(ticket) => ReplyView::Waiting(*ticket as int),
            Reply::NotFound => ReplyView::NotFound,
            Reply::MethodNotAllowed => ReplyView::MethodNotAllowed,
        }
    }
}

/// The service with its dispatcher and the tasks of its requests. A request
/// is known by its ticket, the place of its task in the order of arrival.
pub struct Server {
    service: Service,
    dispatcher: Dispatcher,
    tasks: Vec<Task>,
}

impl View for Server {
    type V = ServerView;

    closed spec fn view(&self) -> ServerView {
        ServerView {
            service: self.service@,
            pools: self.dispatcher@.pools,
            content: self.dispatcher@.content,
            tasks: self.tasks@.map_values(|task: Task| task@),
        }
    }
}

impl Server {
    /// The invariant of the type.
    pub closed spec fn wf(&self) -> bool {
        &&& self.dispatcher.wf()
        &&& self@.wf()
    }

    /// The invariant of the type says that the books agree with the tasks.
    pub proof fn lemma_wf_view(&self)
        requires
            self.wf(),
        ensures
            self@.wf(),
    {
    }

    /// A server for `service` over `scheduler`, with `content` to hand out
    /// and no request in flight. The scheduler must be idle: a thread that
    /// is held already belongs to no request of this server.
    pub fn new(service: Service, scheduler: CooperativeScheduler, content: StaticContent) -> (made:
        Option<Server>)
        requires
            scheduler.wf(),
        ensures
            made is Some <==> scheduler@.held == 0 && scheduler@.working == 0,
            made matches Some(server) ==> server.wf() && server@ == (ServerView {
                service: service@,
                pools: scheduler@,
                content: content@,
                tasks: Seq::empty(),
            }),
    {
        if scheduler.held_drivers() != 0 || scheduler.busy_workers() != 0 {
            return None;
        }
        let server = Server {
            service,
            dispatcher: Dispatcher::new(scheduler, content),
            tasks: Vec::new(),
        };
        assert(server@.tasks =~= Seq::empty());
        Some(server)
    }

    /// The number of requests that were accepted so far.
    pub fn accepted(&self) -> (count: usize)
        ensures
            count == self@.tasks.len(),
    {
        self.tasks.len()
    }

    /// The number of driver threads that are held.
    pub fn held_drivers(&self) -> (count: usize)
        ensures
            count == self@.pools.held,
    {
        self.dispatcher.scheduler().held_drivers()
    }

    /// The number of worker threads that are held.
    pub fn busy_workers(&self) -> (count: usize)
        ensures
            count == self@.pools.working,
    {
        self.dispatcher.scheduler().busy_workers()
    }

    /// Whether a driver thread is free to take a request up.
    pub fn has_free_driver(&self) -> (free: bool)
        ensures
            free == self@.pools.has_free_driver(),
    {
        self.dispatcher.scheduler().has_free_driver()
    }

    /// Takes a request at the door. A request for a route is dispatched
    /// under the policy of the route and gets the next ticket; any other
    /// request changes nothing.
    pub fn accept(&mut self, method: Method, path: &[u8]) -> (accepted: Accepted)
        requires
            old(self).wf(),
        ensures
            final(self).wf(),
            final(self)@.service == old(self)@.service,
            final(self)@.content == old(self)@.content,
            match old(self)@.service.resolve(method, path@) {
                ResolutionView::Dispatch(policy, item) => {
                    &&& (accepted matches Accepted::Ticket(ticket)
                        && ticket == old(self)@.tasks.len())
                    &&& final(self)@.pools == old(self)@.pools.arrive(policy)
                    &&& final(self)@.tasks == old(self)@.tasks.push(
                        TaskView {
                            item,
                            policy,
                            stage: placed(old(self)@.pools.admission(policy)),
                        },
                    )
                },
                ResolutionView::NotFound => accepted == Accepted::NotFound
                    && final(self)@ == old(self)@,
                ResolutionView::MethodNotAllowed => accepted == Accepted::MethodNotAllowed
                    && final(self)@ == old(self)@,
            },
    {
        match self.service.resolve(method, path) {
            Resolution::NotFound => Accepted::NotFound,
            Resolution::MethodNotAllowed => Accepted::MethodNotAllowed,
            Resolution::Dispatch(policy, item) => {
                let ticket: usize = self.tasks.len();
                let task = self.dispatcher.dispatch(policy, item);
                proof {
                    let before = old(self)@.tasks;
                    lemma_holding_push(before, task@, ExecutionSite::DriverThread);
                    lemma_holding_push(before, task@, ExecutionSite::WorkerThread);
                }
                self.tasks.push(task);
                assert(self@.tasks =~= old(self)@.tasks.push(task@));
                Accepted::Ticket(ticket)
            },
        }
    }

    /// Tries again to take up the request under `ticket`, if it waits. Says
    /// what became of it; a request that does not wait, or a ticket that was
    /// never given, changes nothing. No other request is touched.
    pub fn retry(&mut self, ticket: usize) -> (admission: Option<Admission>)
        requires
            old(self).wf(),
        ensures
            final(self).wf(),
            final(self)@.service == old(self)@.service,
            final(self)@.content == old(self)@.content,
            old(self)@.waits(ticket as int) ==> admission == Some(
                old(self)@.pools.admission(old(self)@.tasks[ticket as int].policy),
            ) && final(self)@.pools == old(self)@.pools.arrive(
                old(self)@.tasks[ticket as int].policy,
            ) && final(self)@.tasks == old(self)@.tasks.update(
                ticket as int,
                TaskView {
                    stage: placed(
                        old(self)@.pools.admission(old(self)@.tasks[ticket as int].policy),
                    ),
                    ..old(self)@.tasks[ticket as int]
                },
            ),
            !old(self)@.waits(ticket as int) ==> admission is None && final(self)@ == old(self)@,
    {
        if ticket >= self.tasks.len() {
            return None;
        }
        let ghost before = self@.tasks;
        let admission = self.dispatcher.resume(&mut self.tasks[ticket]);
        proof {
            let after = self.tasks[ticket as int]@;
            assert(self@.tasks =~= before.update(ticket as int, after));
            lemma_holding_update(before, ticket as int, after, ExecutionSite::DriverThread);
            lemma_holding_update(before, ticket as int, after, ExecutionSite::WorkerThread);
            if !(before[ticket as int].stage is Pending) {
                assert(self@.tasks =~= before);
            }
        }
        admission
    }

    /// Runs the request under `ticket` to its end, if it holds a thread:
    /// its response is written to its handoff and its thread is free again.
    /// Returns whether it did; if not, nothing changes. No other request is
    /// touched.
    pub fn finish(&mut self, ticket: usize) -> (done: bool)
        requires
            old(self).wf(),
        ensures
            final(self).wf(),
            final(self)@.service == old(self)@.service,
            final(self)@.content == old(self)@.content,
            done == old(self)@.runs(ticket as int),
            done ==> final(self)@.pools == old(self)@.pools.release(
                old(self)@.tasks[ticket as int].policy.spec_site(),
            ) && final(self)@.tasks == old(self)@.tasks.update(
                ticket as int,
                TaskView {
                    stage: StageView::Completed(
                        spec_execute(old(self)@.tasks[ticket as int].item.kind, old(self)@.content),
                    ),
                    ..old(self)@.tasks[ticket as int]
                },
            ),
            !done ==> final(self)@ == old(self)@,
    {
        if ticket >= self.tasks.len() {
            return false;
        }
        let ghost before = self@.tasks;
        let done = self.dispatcher.complete(&mut self.tasks[ticket]);
        proof {
            let after = self.tasks[ticket as int]@;
            assert(self@.tasks =~= before.update(ticket as int, after));
            lemma_holding_update(before, ticket as int, after, ExecutionSite::DriverThread);
            lemma_holding_update(before, ticket as int, after, ExecutionSite::WorkerThread);
            if !done {
                assert(self@.tasks =~= before);
            }
        }
        done
    }

    /// Records that the thread or task of the request under `ticket` ended
    /// abnormally. That request will be answered with a join failure; a
    /// thread that it held is free again. Returns whether the request was
    /// still open; if not, nothing changes. No other request is touched.
    pub fn crash(&mut self, ticket: usize) -> (was_open: bool)
        requires
            old(self).wf(),
        ensures
            final(self).wf(),
            final(self)@.service == old(self)@.service,
            final(self)@.content == old(self)@.content,
            was_open == (old(self)@.waits(ticket as int) || old(self)@.runs(ticket as int)),
            was_open ==> final(self)@.tasks == old(self)@.tasks.update(
                ticket as int,
                TaskView {
                    stage: StageView::Failed(DispatchError::JoinFailure),
                    ..old(self)@.tasks[ticket as int]
                },
            ),
            old(self)@.runs(ticket as int) ==> final(self)@.pools == old(self)@.pools.release(
                old(self)@.tasks[ticket as int].policy.spec_site(),
            ),
            !old(self)@.runs(ticket as int) ==> final(self)@.pools == old(self)@.pools,
            !was_open ==> final(self)@ == old(self)@,
    {
        if ticket >= self.tasks.len() {
            return false;
        }
        let ghost before = self@.tasks;
        let was_open = self.dispatcher.crash(&mut self.tasks[ticket]);
        proof {
            let after = self.tasks[ticket as int]@;
            assert(self@.tasks =~= before.update(ticket as int, after));
            lemma_holding_update(before, ticket as int, after, ExecutionSite::DriverThread);
            lemma_holding_update(before, ticket as int, after, ExecutionSite::WorkerThread);
            if !was_open {
                assert(self@.tasks =~= before);
            }
        }
        was_open
    }

    /// Withdraws the request under `ticket` if it waits and its policy
    /// allows that; it will be answered with a join failure. A request that
    /// runs cannot be stopped. Returns whether the request was withdrawn; if
    /// not, nothing changes. No other request is touched, and no thread
    /// changes hands.
    pub fn cancel(&mut self, ticket: usize) -> (withdrawn: bool)
        requires
            old(self).wf(),
        ensures
            final(self).wf(),
            final(self)@.service == old(self)@.service,
            final(self)@.content == old(self)@.content,
            final(self)@.pools == old(self)@.pools,
            withdrawn == (old(self)@.waits(ticket as int)
                && old(self)@.tasks[ticket as int].policy.spec_can_cancel_before_start()),
            withdrawn ==> final(self)@.tasks == old(self)@.tasks.update(
                ticket as int,
                TaskView {
                    stage: StageView::Failed(DispatchError::JoinFailure),
                    ..old(self)@.tasks[ticket as int]
                },
            ),
            !withdrawn ==> final(self)@ == old(self)@,
    {
        if ticket >= self.tasks.len() {
            return false;
        }
        let ghost before = self@.tasks;
        let withdrawn = self.dispatcher.cancel(&mut self.tasks[ticket]);
        proof {
            let after = self.tasks[ticket as int]@;
            assert(self@.tasks =~= before.update(ticket as int, after));
            lemma_holding_update(before, ticket as int, after, ExecutionSite::DriverThread);
            lemma_holding_update(before, ticket as int, after, ExecutionSite::WorkerThread);
            if !withdrawn {
                assert(self@.tasks =~= before);
            }
        }
        withdrawn
    }

    /// Looks for the outcome of the request under `ticket`, as the caller
    /// that waits for it. The first look that finds one takes it; no later
    /// look finds one. No other request is touched, and no thread changes
    /// hands.
    pub fn respond(&mut self, ticket: usize) -> (observed: Option<Outcome>)
        requires
            old(self).wf(),
        ensures
            final(self).wf(),
            final(self)@.service == old(self)@.service,
            final(self)@.content == old(self)@.content,
            final(self)@.pools == old(self)@.pools,
            ticket < old(self)@.tasks.len() ==> observation_view(observed)
                == old(self)@.tasks[ticket as int].stage.observed(Step::Poll)
                && final(self)@.tasks == old(self)@.tasks.update(
                ticket as int,
                TaskView {
                    stage: old(self)@.tasks[ticket as int].stage.next(Step::Poll),
                    ..old(self)@.tasks[ticket as int]
                },
            ),
            ticket >= old(self)@.tasks.len() ==> observed is None && final(self)@ == old(self)@,
    {
        if ticket >= self.tasks.len() {
            return None;
        }
        let ghost before = self@.tasks;
        let observed = self.tasks[ticket].poll();
        proof {
            let after = self.tasks[ticket as int]@;
            assert(self@.tasks =~= before.update(ticket as int, after));
            lemma_holding_update(before, ticket as int, after, ExecutionSite::DriverThread);
            lemma_holding_update(before, ticket as int, after, ExecutionSite::WorkerThread);
        }
        observed
    }

    /// Takes one request through its whole life with nothing in between:
    /// accepts it, runs it to its end and hands over what its caller sees.
    /// Every thread that it held is free again afterwards. A request that
    /// finds every driver thread held is not answered: it waits under its
    /// ticket.
    pub fn handle(&mut self, method: Method, path: &[u8]) -> (reply: Reply)
        requires
            old(self).wf(),
        ensures
            final(self).wf(),
            final(self)@.service == old(self)@.service,
            final(self)@.content == old(self)@.content,
            final(self)@.pools == old(self)@.pools,
            reply@ == old(self)@.reply(method, path@),
            final(self)@.tasks == (match old(self)@.service.resolve(method, path@) {
                ResolutionView::Dispatch(policy, item) => old(self)@.tasks.push(
                    TaskView {
                        item,
                        policy,
                        stage: if old(self)@.pools.admission(policy) is Starved {
                            StageView::Pending
                        } else {
                            StageView::Delivered
                        },
                    },
                ),
                _ => old(self)@.tasks,
            }),
    {
        match self.accept(method, path) {
            Accepted::NotFound => Reply::NotFound,
            Accepted::MethodNotAllowed => Reply::MethodNotAllowed,
            Accepted::Ticket(ticket) => {
                let ghost before = old(self)@.tasks;
                assert(self@.tasks.len() == before.len() + 1);
                assert(self@.tasks.drop_last() =~= before);
                self.finish(ticket);
                assert(self@.tasks.drop_last() =~= before);
                let observed = self.respond(ticket);
                assert(self@.tasks.drop_last() =~= before);
                assert(self@.tasks =~= before.push(self@.tasks[ticket as int]));
                match observed {
                    Some(outcome) => Reply::Answered(outcome),
                    None => Reply::Waiting(ticket),
                }
            },
        }
    }
}

impl ServerView {
    /// Whether `ticket` was given and its request waits to be taken up.
    pub open spec fn waits(self, ticket: int) -> bool {
        0 <= ticket < self.tasks.len() && self.tasks[ticket].stage is Pending
    }

    /// Whether `ticket` was given and its request holds a thread.
    pub open spec fn runs(self, ticket: int) -> bool {
        0 <= ticket < self.tasks.len() && self.tasks[ticket].stage is Running
    }

    /// What a request for `path` by `method` gets when it is taken through
    /// its whole life at once.
    pub open spec fn reply(self, method: Method, path: Seq<u8>) -> ReplyView {
        match self.service.resolve(method, path) {
            ResolutionView::NotFound => ReplyView::NotFound,
            ResolutionView::MethodNotAllowed => ReplyView::MethodNotAllowed,
            ResolutionView::Dispatch(policy, item) => match self.pools.admission(policy) {
                Admission::Admitted(_) => ReplyView::Answered(
                    Ok(spec_execute(item.kind, self.content)),
                ),
                Admission::Refused => ReplyView::Answered(
                    Err(DispatchError::CapacityExhaustion),
                ),
                Admission::Starved => ReplyView::Waiting(self.tasks.len() as int),
            },
        }
    }

    /// Every route of the service hands its work to the blocking executor.
    pub open spec fn offloads(self) -> bool {
        &&& self.service.main.spec_is_starvation_free()
        &&& self.service.stateless.spec_is_starvation_free()
        &&& self.service.stateful.spec_is_starvation_free()
    }
}

/// A server that hands all of its work to the blocking executor never
/// starves. In every state that it can reach, with any number of slow
/// requests in flight, no driver thread is held, and the next request is
/// taken up at once.
pub proof fn lemma_offloading_server_never_starves(server: ServerView, next: DispatchPolicy)
    requires
        server.wf(),
        server.offloads(),
    ensures
        server.pools.held == 0,
        server.pools.has_free_driver(),
        !(server.pools.admission(next) is Starved),
{
    assert forall|i: int| 0 <= i < server.tasks.len() implies (#[trigger] server.tasks[i]).policy.spec_site()
        != ExecutionSite::DriverThread by {
        assert(server.service.uses(server.tasks[i].policy));
    }
    lemma_holding_none(server.tasks, ExecutionSite::DriverThread);
}

/// A server that runs its work on driver threads starves under load: once
/// as many of its requests run as there are driver threads, the next
/// request is not taken up, whatever it asks for, until one of them ends.
pub proof fn lemma_driver_bound_server_starves(
    server: ServerView,
    method: Method,
    path: Seq<u8>,
)
    requires
        server.wf(),
        holding(server.tasks, ExecutionSite::DriverThread) == server.pools.drivers,
        server.service.resolve(method, path) is Dispatch,
    ensures
        server.reply(method, path) == ReplyView::Waiting(server.tasks.len() as int),
{
}

/// Load does not change an answer. Whatever else is in flight, a request
/// for `/` that is admitted is answered with the page, and a request for
/// an image that is admitted is answered with the image.
pub proof fn lemma_load_does_not_change_the_answer(
    server: ServerView,
    method: Method,
    path: Seq<u8>,
)
    requires
        server.reply(method, path) matches ReplyView::Answered(Ok(_)),
    ensures
        path == seq![crate::router::SLASH] ==> server.reply(method, path) == ReplyView::Answered(
            Ok(crate::content::page_response(server.content)),
        ),
        path != seq![crate::router::SLASH] ==> server.reply(method, path) == ReplyView::Answered(
            Ok(crate::content::image_response(server.content)),
        ),
{
}

} // verus!
