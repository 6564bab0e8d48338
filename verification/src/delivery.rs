//! What holds of every sequence of steps on a handoff: the caller sees one
//! outcome, once, and it is the one that was written.

use vstd::prelude::*;
use crate::content::ResponseView;
use crate::error::DispatchError;
use crate::handoff::{OutcomeView, StageView, Step};

verus! {

/// Running a sequence that ends in `step` is running the sequence before it
/// and then taking `step`.
pub proof fn lemma_run_push(start: StageView, steps: Seq<Step>, step: Step)
    ensures
        start.run(steps.push(step)) == start.run(steps).next(step),
        start.deliveries(steps.push(step)) == start.deliveries(steps) + (if start.run(
            steps,
        ).observed(step) is Some {
            1nat
        } else {
            0nat
        }),
{
    assert(steps.push(step).drop_last() =~= steps);
    assert(steps.push(step).last() == step);
}

/// Whatever happens to a fresh handoff, and in whatever order, the caller is
/// shown an outcome at most once; it has been shown one exactly when the
/// handoff stands at `Delivered`.
pub proof fn lemma_delivered_at_most_once(steps: Seq<Step>)
    ensures
        StageView::Pending.deliveries(steps) <= 1,
        StageView::Pending.deliveries(steps) == 1 <==> StageView::Pending.run(steps) is Delivered,
    decreases steps.len(),
{
    if steps.len() > 0 {
        lemma_delivered_at_most_once(steps.drop_last());
    }
}

/// After the caller has seen the outcome nothing changes any more, and
/// nothing more is shown.
pub proof fn lemma_delivered_is_the_end(steps: Seq<Step>)
    ensures
        StageView::Delivered.run(steps) is Delivered,
        StageView::Delivered.deliveries(steps) == 0,
    decreases steps.len(),
{
    if steps.len() > 0 {
        lemma_delivered_is_the_end(steps.drop_last());
    }
}

/// An outcome is final: as long as the caller does not poll, no step of the
/// running context changes or replaces it.
pub proof fn lemma_outcome_is_final(stage: StageView, steps: Seq<Step>)
    requires
        stage.settled(),
        forall|i: int| 0 <= i < steps.len() ==> !(#[trigger] steps[i] is Poll),
    ensures
        stage.run(steps) == stage,
    decreases steps.len(),
{
    if steps.len() > 0 {
        lemma_outcome_is_final(stage, steps.drop_last());
    }
}

/// The caller never waits in vain: once an outcome is there, the next poll
/// shows it, and with that poll the caller has seen exactly one outcome.
pub proof fn lemma_poll_delivers(steps: Seq<Step>)
    requires
        StageView::Pending.run(steps).settled(),
    ensures
        StageView::Pending.run(steps).observed(Step::Poll) == StageView::Pending.run(
            steps,
        ).outcome(),
        StageView::Pending.run(steps).observed(Step::Poll) is Some,
        StageView::Pending.run(steps.push(Step::Poll)) is Delivered,
        StageView::Pending.deliveries(steps.push(Step::Poll)) == 1,
{
    lemma_run_push(StageView::Pending, steps, Step::Poll);
    lemma_delivered_at_most_once(steps);
}

/// While no outcome is there, a poll shows nothing and changes nothing, so
/// the caller may poll again.
pub proof fn lemma_early_poll_is_harmless(stage: StageView)
    requires
        stage is Pending || stage is Running,
    ensures
        stage.observed(Step::Poll) is None,
        stage.next(Step::Poll) == stage,
{
}

/// Whether the step at `at` wrote `outcome`: it fitted the stage that the
/// steps before it had reached, and it settled the handoff with `outcome`.
pub open spec fn wrote(steps: Seq<Step>, at: int, outcome: OutcomeView) -> bool {
    &&& 0 <= at < steps.len()
    &&& !StageView::Pending.run(steps.subrange(0, at)).settled()
    &&& StageView::Pending.run(steps.subrange(0, at)).next(steps[at]).outcome() == Some(outcome)
}

/// An outcome that waits for the caller was written by one of the steps
/// before: nothing is made up.
pub proof fn lemma_outcome_was_written(steps: Seq<Step>) -> (at: int)
    requires
        StageView::Pending.run(steps).settled(),
    ensures
        wrote(steps, at, StageView::Pending.run(steps).outcome()->0),
    decreases steps.len(),
{
    let before = StageView::Pending.run(steps.drop_last());
    if before.settled() {
        let at = lemma_outcome_was_written(steps.drop_last());
        assert(steps.drop_last().subrange(0, at) =~= steps.subrange(0, at));
        at
    } else {
        let at = steps.len() - 1;
        assert(steps.subrange(0, at) =~= steps.drop_last());
        at
    }
}

/// A step writes a payload only if it is the return of an item that runs,
/// and the payload is the one returned; it writes a join failure only if it
/// is an abnormal end; and it writes a lack of capacity only if it is a
/// refusal of an item that has not started.
pub proof fn lemma_writer_kinds(steps: Seq<Step>, at: int, outcome: OutcomeView)
    requires
        wrote(steps, at, outcome),
    ensures
        outcome is Ok ==> steps[at] == Step::Finish(outcome->Ok_0) && StageView::Pending.run(
            steps.subrange(0, at),
        ) is Running,
        outcome == Err::<ResponseView, DispatchError>(DispatchError::JoinFailure) ==> steps[at]
            is Abort,
        outcome == Err::<ResponseView, DispatchError>(DispatchError::CapacityExhaustion)
            ==> steps[at] is Refuse && StageView::Pending.run(steps.subrange(0, at)) is Pending,
{
}

/// When the thread or task of an item ends abnormally before an outcome is
/// there, the caller of that item sees a join failure, and no payload.
pub proof fn lemma_abort_surfaces(steps: Seq<Step>)
    requires
        !StageView::Pending.run(steps).settled(),
        !(StageView::Pending.run(steps) is Delivered),
    ensures
        StageView::Pending.run(steps.push(Step::Abort)).observed(Step::Poll) == Some(
            Err::<ResponseView, DispatchError>(DispatchError::JoinFailure),
        ),
        StageView::Pending.deliveries(steps.push(Step::Abort).push(Step::Poll)) == 1,
{
    lemma_run_push(StageView::Pending, steps, Step::Abort);
    lemma_poll_delivers(steps.push(Step::Abort));
}

/// The whole life of an item that runs to its end: started, returned,
/// polled. The caller sees the payload that was returned, once.
pub proof fn lemma_normal_life(response: ResponseView)
    ensures
        StageView::Pending.run(seq![Step::Start, Step::Finish(response)]) == StageView::Completed(
            response,
        ),
        StageView::Pending.run(seq![Step::Start, Step::Finish(response)]).observed(Step::Poll)
            == Some(Ok::<ResponseView, DispatchError>(response)),
        StageView::Pending.deliveries(seq![Step::Start, Step::Finish(response), Step::Poll]) == 1,
{
    let empty = Seq::<Step>::empty();
    lemma_run_push(StageView::Pending, empty, Step::Start);
    lemma_run_push(StageView::Pending, empty.push(Step::Start), Step::Finish(response));
    assert(empty.push(Step::Start).push(Step::Finish(response)) =~= seq![
        Step::Start,
        Step::Finish(response),
    ]);
    lemma_poll_delivers(seq![Step::Start, Step::Finish(response)]);
    assert(seq![Step::Start, Step::Finish(response)].push(Step::Poll) =~= seq![
        Step::Start,
        Step::Finish(response),
        Step::Poll,
    ]);
}

} // verus!
