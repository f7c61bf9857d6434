//! What holds of every task, whatever the world replies.
//!
//! A task is followed through a sequence of replies, from its start: the laws
//! speak of the state that the replies lead to, of the events that are emitted
//! on the way and of the replies themselves.

use vstd::prelude::*;

use crate::executor_model::{
    accepts, action_in, approval_event, cancelled_result, cost_sum, done_event, done_result,
    enter_plan, failed_event, failed_result, failure_reason, invariant_holds, new_run, plan_event,
    planning_event, replan_event, start, step, successes, with_result, ActionView,
    ApprovalOutcome, ExecutorConfigView, ExecutorView, OrchestratorRequestView, PlanOutcomeView,
    ReplyView, TaskView,
};
use crate::types::{
    AgentEventView, AutoResultView, AutoRunView, AutoStatus, PlanView, WorkerResultView,
};

verus! {

/// One more worker in the ledger adds its cost, and its result if it succeeded.
proof fn lemma_ledger_push(results: Seq<WorkerResultView>, result: WorkerResultView)
    ensures
        cost_sum(results.push(result)) == cost_sum(results) + result.cost_cents,
        successes(results.push(result)) == if result.status is Success {
            successes(results).push(result)
        } else {
            successes(results)
        },
{
    reveal(Seq::filter);
    assert(results.push(result).drop_last() =~= results);
}

/// Every step that can be taken leads to a state in which the invariant holds.
pub proof fn lemma_step_keeps_invariant(s: ExecutorView, reply: ReplyView)
    requires
        invariant_holds(s),
        accepts(s, reply),
    ensures
        invariant_holds(step(s, reply).0),
{
    if let (
        ExecutorView::RunningWorker { task, .. },
        ReplyView::WorkerFinished(result),
    ) = (s, reply) {
        lemma_ledger_push(task.run.worker_results, result);
    }
}

/// The state that a task is in after these replies.
pub open spec fn state_after(config: ExecutorConfigView, replies: Seq<ReplyView>) -> ExecutorView
    decreases replies.len(),
{
    if replies.len() == 0 {
        start(config).0
    } else {
        step(state_after(config, replies.drop_last()), replies.last()).0
    }
}

/// The events that a task emits up to and with the last of these replies.
pub open spec fn events_after(config: ExecutorConfigView, replies: Seq<ReplyView>) -> Seq<
    AgentEventView,
>
    decreases replies.len(),
{
    if replies.len() == 0 {
        start(config).1
    } else {
        events_after(config, replies.drop_last()) + step(
            state_after(config, replies.drop_last()),
            replies.last(),
        ).1
    }
}

/// Each reply is one that the task waits for when it comes.
pub open spec fn is_history(config: ExecutorConfigView, replies: Seq<ReplyView>) -> bool
    decreases replies.len(),
{
    replies.len() > 0 ==> {
        &&& is_history(config, replies.drop_last())
        &&& accepts(state_after(config, replies.drop_last()), replies.last())
    }
}

/// In every state of every task: the record carries the task's ids, the status
/// says where the task stands, no more replans were used than the budget
/// allows, the plan version counts them, the cost is the sum of what the
/// workers cost, as far as it can be told, and the results that are shown on
/// are those of the workers that succeeded, in order.
pub proof fn law_invariant(config: ExecutorConfigView, replies: Seq<ReplyView>)
    requires
        is_history(config, replies),
    ensures
        invariant_holds(state_after(config, replies)),
        state_after(config, replies).config() == config,
    decreases replies.len(),
{
    if replies.len() == 0 {
        reveal(Seq::filter);
    } else {
        law_invariant(config, replies.drop_last());
        lemma_step_keeps_invariant(state_after(config, replies.drop_last()), replies.last());
    }
}

/// The results that the replies bring, in their order.
pub open spec fn results_in(replies: Seq<ReplyView>) -> Seq<WorkerResultView>
    decreases replies.len(),
{
    if replies.len() == 0 {
        Seq::empty()
    } else {
        match replies.last() {
            ReplyView::WorkerFinished(result) => results_in(replies.drop_last()).push(result),
            _ => results_in(replies.drop_last()),
        }
    }
}

/// The plans that the replies bring, in their order.
pub open spec fn plans_in(replies: Seq<ReplyView>) -> Seq<PlanView>
    decreases replies.len(),
{
    if replies.len() == 0 {
        Seq::empty()
    } else {
        match replies.last() {
            ReplyView::PlanGenerated(PlanOutcomeView::Planned(plan)) => plans_in(
                replies.drop_last(),
            ).push(plan),
            _ => plans_in(replies.drop_last()),
        }
    }
}

/// The record holds every plan that the orchestrator returned and every result
/// that a worker left, each once and in order, whatever the worker's status.
pub proof fn law_record_is_complete(config: ExecutorConfigView, replies: Seq<ReplyView>)
    requires
        is_history(config, replies),
    ensures
        state_after(config, replies).run().worker_results == results_in(replies),
        state_after(config, replies).run().plan_versions == plans_in(replies),
    decreases replies.len(),
{
    if replies.len() > 0 {
        law_record_is_complete(config, replies.drop_last());
    }
}

/// What earlier replies put into the record stays there: plans and results are
/// only ever added, at the end, also over a replan.
pub proof fn law_record_only_grows(config: ExecutorConfigView, replies: Seq<ReplyView>, n: int)
    requires
        is_history(config, replies),
        0 <= n <= replies.len(),
    ensures
        state_after(config, replies.take(n)).run().worker_results.is_prefix_of(
            state_after(config, replies).run().worker_results,
        ),
        state_after(config, replies.take(n)).run().plan_versions.is_prefix_of(
            state_after(config, replies).run().plan_versions,
        ),
        successes(state_after(config, replies.take(n)).run().worker_results).is_prefix_of(
            successes(state_after(config, replies).run().worker_results),
        ),
    decreases replies.len(),
{
    if n == replies.len() {
        assert(replies.take(n) =~= replies);
    } else {
        assert(replies.drop_last().take(n) =~= replies.take(n));
        law_record_only_grows(config, replies.drop_last(), n);
        let before = state_after(config, replies.drop_last());
        if let ReplyView::WorkerFinished(result) = replies.last() {
            lemma_ledger_push(before.run().worker_results, result);
        }
    }
}

/// What the orchestrator and a worker are shown of earlier workers: the results
/// of those that succeeded, over all plans so far, in order.
pub proof fn law_shown_results(config: ExecutorConfigView, replies: Seq<ReplyView>)
    requires
        is_history(config, replies),
    ensures
        match action_in(state_after(config, replies)) {
            ActionView::Generate(request) => request.prior_results == successes(
                results_in(replies),
            ),
            ActionView::RunWorker { prior_results, .. } => prior_results == successes(
                results_in(replies),
            ),
            _ => true,
        },
{
    law_invariant(config, replies);
    law_record_is_complete(config, replies);
}

/// How often the orchestrator answered.
pub open spec fn orchestrator_calls(replies: Seq<ReplyView>) -> nat
    decreases replies.len(),
{
    if replies.len() == 0 {
        0
    } else {
        orchestrator_calls(replies.drop_last()) + if replies.last() is PlanGenerated {
            1nat
        } else {
            0
        }
    }
}

/// The calls of the orchestrator follow the plan version.
proof fn lemma_orchestrator_calls(config: ExecutorConfigView, replies: Seq<ReplyView>)
    requires
        is_history(config, replies),
    ensures
        match state_after(config, replies) {
            ExecutorView::BeforePlanning { task } => orchestrator_calls(replies)
                == task.current_version - 1,
            ExecutorView::Generating { task } => orchestrator_calls(replies)
                == task.current_version - 1,
            ExecutorView::AwaitingApproval { task, .. } => orchestrator_calls(replies)
                == task.current_version,
            ExecutorView::BeforeWorker { task, .. } => orchestrator_calls(replies)
                == task.current_version,
            ExecutorView::RunningWorker { task, .. } => orchestrator_calls(replies)
                == task.current_version,
            ExecutorView::Finished { result, .. } => orchestrator_calls(replies)
                <= result.run().replans_used + 1,
        },
    decreases replies.len(),
{
    if replies.len() > 0 {
        lemma_orchestrator_calls(config, replies.drop_last());
        law_invariant(config, replies.drop_last());
    }
}

/// The orchestrator is called at most once more than the replan budget, the
/// call that is about to be made included, and the call for plan version `n` is
/// the `n`-th.
pub proof fn law_orchestrator_calls_are_bounded(
    config: ExecutorConfigView,
    replies: Seq<ReplyView>,
)
    requires
        is_history(config, replies),
    ensures
        orchestrator_calls(replies) <= 1 + config.replan_budget,
        action_in(state_after(config, replies)) matches ActionView::Generate(request) ==> {
            &&& orchestrator_calls(replies) + 1 == request.plan_version
            &&& orchestrator_calls(replies) + 1 <= 1 + config.replan_budget
        },
{
    law_invariant(config, replies);
    lemma_orchestrator_calls(config, replies);
}

/// The user let the first plan run.
pub open spec fn is_go(reply: ReplyView) -> bool {
    reply == ReplyView::ApprovalAnswered(ApprovalOutcome::Answered(true))
}

/// Past the approval the user has let a plan run; before it no worker has run.
proof fn lemma_go_before_workers(config: ExecutorConfigView, replies: Seq<ReplyView>)
    requires
        is_history(config, replies),
    ensures
        match state_after(config, replies) {
            ExecutorView::BeforePlanning { task } => task.current_version > 1 ==> exists|i: int|
                0 <= i < replies.len() && is_go(#[trigger] replies[i]),
            ExecutorView::Generating { task } => task.current_version > 1 ==> exists|i: int|
                0 <= i < replies.len() && is_go(#[trigger] replies[i]),
            ExecutorView::AwaitingApproval { .. } => true,
            ExecutorView::BeforeWorker { .. } => exists|i: int|
                0 <= i < replies.len() && is_go(#[trigger] replies[i]),
            ExecutorView::RunningWorker { .. } => exists|i: int|
                0 <= i < replies.len() && is_go(#[trigger] replies[i]),
            ExecutorView::Finished { .. } => true,
        },
    decreases replies.len(),
{
    if replies.len() > 0 {
        let earlier = replies.drop_last();
        lemma_go_before_workers(config, earlier);
        law_invariant(config, earlier);
        if exists|i: int| 0 <= i < earlier.len() && is_go(#[trigger] earlier[i]) {
            let i = choose|i: int| 0 <= i < earlier.len() && is_go(#[trigger] earlier[i]);
            assert(is_go(replies[i]));
        }
        assert(replies[replies.len() - 1] == replies.last());
    }
}

/// No worker runs before the user let the first plan run.
pub proof fn law_no_worker_before_approval(
    config: ExecutorConfigView,
    replies: Seq<ReplyView>,
)
    requires
        is_history(config, replies),
        action_in(state_after(config, replies)) is RunWorker,
    ensures
        exists|i: int| 0 <= i < replies.len() && is_go(#[trigger] replies[i]),
{
    lemma_go_before_workers(config, replies);
}

/// The user is asked about the first plan only: when approval is due, one plan
/// was made and no worker has run.
pub proof fn law_only_first_plan_needs_approval(
    config: ExecutorConfigView,
    replies: Seq<ReplyView>,
)
    requires
        is_history(config, replies),
    ensures
        action_in(state_after(config, replies)) matches ActionView::Approve(plan) ==> {
            &&& plans_in(replies) == seq![plan]
            &&& results_in(replies).len() == 0
        },
{
    law_invariant(config, replies);
    law_record_is_complete(config, replies);
    if let ExecutorView::AwaitingApproval { task, plan } = state_after(config, replies) {
        assert(task.run.plan_versions =~= seq![plan]);
    }
}

/// A plan after the first goes straight to its workers.
pub proof fn law_later_plan_runs_at_once(task: TaskView, plan: PlanView)
    requires
        task.current_version > 1,
    ensures
        step(
            ExecutorView::Generating { task },
            ReplyView::PlanGenerated(PlanOutcomeView::Planned(plan)),
        ).0 == enter_plan(
            TaskView {
                run: AutoRunView {
                    plan_versions: task.run.plan_versions.push(plan),
                    ..task.run
                },
                ..task
            },
            plan,
        ).0,
{
}

/// A plan that the user does not let run ends the task, with no worker run and
/// no other plan made.
pub proof fn law_rejected_plan_fails(config: ExecutorConfigView, replies: Seq<ReplyView>)
    requires
        is_history(config, replies),
        replies.len() > 0,
        replies.last() == ReplyView::ApprovalAnswered(ApprovalOutcome::Answered(false)),
    ensures
        state_after(config, replies) matches ExecutorView::Finished { result, .. } && {
            &&& result matches AutoResultView::Failed { reason, run } && {
                &&& reason == "plan rejected by user"@
                &&& run.worker_results.len() == 0
                &&& run.plan_versions.len() == 1
                &&& run.replans_used == 0
            }
        },
        events_after(config, replies) == events_after(config, replies.drop_last()).push(
            failed_event(config, "plan rejected by user"@, None),
        ),
{
    law_invariant(config, replies.drop_last());
    assert(events_after(config, replies) =~= events_after(config, replies.drop_last()).push(
        failed_event(config, "plan rejected by user"@, None),
    ));
}

/// An error of the orchestrator ends the task: there is no replan for it.
pub proof fn law_orchestrator_error_fails(task: TaskView, message: Seq<char>)
    ensures
        step(
            ExecutorView::Generating { task },
            ReplyView::PlanGenerated(PlanOutcomeView::Failed { message }),
        ) == (
            ExecutorView::Finished {
                config: task.config,
                result: failed_result(task.run, "orchestrator error: "@ + message),
            },
            seq![failed_event(task.config, "orchestrator error: "@ + message, None)],
        ),
{
}

/// A hard failure when the budget is used up ends the task with the failure's
/// reason; the event also shows what the worker said.
pub proof fn law_exhausted_budget_fails(
    task: TaskView,
    plan: PlanView,
    next: nat,
    result: WorkerResultView,
)
    requires
        result.status.is_hard_failure(),
        task.run.replans_used >= task.config.replan_budget,
    ensures
        step(
            ExecutorView::RunningWorker { task, plan, next },
            ReplyView::WorkerFinished(result),
        ) == (
            ExecutorView::Finished {
                config: task.config,
                result: failed_result(
                    with_result(task.run, result),
                    failure_reason(plan.workers[next as int], result),
                ),
            },
            seq![
                failed_event(
                    task.config,
                    failure_reason(plan.workers[next as int], result),
                    Some(result.summary),
                ),
            ],
        ),
{
}

/// A hard failure while the budget lasts uses one replan and, unless the task
/// is cancelled meanwhile, asks the orchestrator for the next version, with the
/// reason and with the results of all workers that succeeded so far. The other
/// workers of the failed plan do not run.
pub proof fn law_hard_failure_replans(
    task: TaskView,
    plan: PlanView,
    next: nat,
    result: WorkerResultView,
)
    requires
        invariant_holds(ExecutorView::RunningWorker { task, plan, next }),
        accepts(
            ExecutorView::RunningWorker { task, plan, next },
            ReplyView::WorkerFinished(result),
        ),
        result.status.is_hard_failure(),
        task.run.replans_used < task.config.replan_budget,
    ensures
        ({
            let s = ExecutorView::RunningWorker { task, plan, next };
            let reason = failure_reason(plan.workers[next as int], result);
            let (replanning, events) = step(s, ReplyView::WorkerFinished(result));
            let (asking, silence) = step(replanning, ReplyView::CancelPolled { cancelled: false });
            &&& events == seq![replan_event(task.config, reason), planning_event(task.config)]
            &&& silence.len() == 0
            &&& action_in(replanning) is PollCancel
            &&& action_in(asking) == ActionView::Generate(
                OrchestratorRequestView {
                    task: task.config.task,
                    worker_pool: task.config.worker_pool,
                    prior_results: successes(task.run.worker_results),
                    replan_reason: Some(reason),
                    plan_version: (task.current_version + 1) as u32,
                },
            )
            &&& asking.run().replans_used == task.run.replans_used + 1
        }),
{
}

/// A task fails exactly when the orchestrator gives up, the user turns the first
/// plan down, or a worker fails hard when every replan is used.
pub proof fn law_when_a_task_fails(s: ExecutorView, reply: ReplyView)
    requires
        invariant_holds(s),
        accepts(s, reply),
    ensures
        ({
            &&& step(s, reply).0 matches ExecutorView::Finished { result, .. }
            &&& result is Failed
        }) <==> match reply {
            ReplyView::CancelPolled { .. } => false,
            ReplyView::PlanGenerated(outcome) => outcome is Failed,
            ReplyView::ApprovalAnswered(outcome) => outcome == ApprovalOutcome::Answered(false),
            ReplyView::WorkerFinished(result) => result.status.is_hard_failure()
                && s.run().replans_used == s.config().replan_budget,
        },
{
}

/// A task is done exactly when the last worker of a plan succeeds, or when a plan
/// without workers is cleared to run.
pub proof fn law_when_a_task_is_done(s: ExecutorView, reply: ReplyView)
    requires
        invariant_holds(s),
        accepts(s, reply),
    ensures
        ({
            &&& step(s, reply).0 matches ExecutorView::Finished { result, .. }
            &&& result is Done
        }) <==> match (s, reply) {
            (
                ExecutorView::Generating { task },
                ReplyView::PlanGenerated(PlanOutcomeView::Planned(plan)),
            ) => task.current_version > 1 && plan.workers.len() == 0,
            (
                ExecutorView::AwaitingApproval { plan, .. },
                ReplyView::ApprovalAnswered(outcome),
            ) => outcome == ApprovalOutcome::Answered(true) && plan.workers.len() == 0,
            (
                ExecutorView::RunningWorker { plan, next, .. },
                ReplyView::WorkerFinished(result),
            ) => result.status is Success && next + 1 == plan.workers.len(),
            _ => false,
        },
{
}

/// The reply says that the task is cancelled.
pub open spec fn is_cancel(reply: ReplyView) -> bool {
    match reply {
        ReplyView::CancelPolled { cancelled } => cancelled,
        ReplyView::PlanGenerated(outcome) => outcome is Cancelled,
        ReplyView::ApprovalAnswered(outcome) => outcome is Cancelled,
        ReplyView::WorkerFinished(result) => result.status is Cancelled,
    }
}

/// The task is cancelled exactly when a reply says so. It then ends at once and
/// silently; the record keeps what it held, and the cancelled worker's result.
pub proof fn law_cancel_ends_the_task(s: ExecutorView, reply: ReplyView)
    requires
        accepts(s, reply),
    ensures
        is_cancel(reply) <==> {
            &&& step(s, reply).0 matches ExecutorView::Finished { result, .. }
            &&& result is Cancelled
        },
        is_cancel(reply) ==> step(s, reply) == (
            ExecutorView::Finished {
                config: s.config(),
                result: cancelled_result(
                    match reply {
                        ReplyView::WorkerFinished(result) => with_result(s.run(), result),
                        _ => s.run(),
                    },
                ),
            },
            Seq::<AgentEventView>::empty(),
        ),
{
}

/// A task that is cancelled before its first plan ends without one: the
/// orchestrator is not called.
pub proof fn law_cancel_before_planning(config: ExecutorConfigView)
    ensures
        ({
            let replies = seq![ReplyView::CancelPolled { cancelled: true }];
            &&& is_history(config, replies)
            &&& state_after(config, replies) == ExecutorView::Finished {
                config,
                result: cancelled_result(new_run(config.auto_run_id, config.session_id)),
            }
            &&& events_after(config, replies) == seq![planning_event(config)]
        }),
{
    let replies = seq![ReplyView::CancelPolled { cancelled: true }];
    assert(replies.drop_last() =~= Seq::empty());
    assert(is_history(config, replies.drop_last()));
    assert(state_after(config, replies.drop_last()) == start(config).0);
    assert(events_after(config, replies.drop_last()) == start(config).1);
    assert(events_after(config, replies) =~= seq![planning_event(config)]);
}

/// Every event carries the session and the task that it belongs to.
pub proof fn law_events_carry_the_ids(config: ExecutorConfigView, replies: Seq<ReplyView>)
    requires
        is_history(config, replies),
    ensures
        forall|i: int|
            0 <= i < events_after(config, replies).len() ==> {
                &&& (#[trigger] events_after(config, replies)[i]).session() == config.session_id
                &&& events_after(config, replies)[i].task() == config.auto_run_id
            },
    decreases replies.len(),
{
    if replies.len() > 0 {
        let earlier = events_after(config, replies.drop_last());
        let added = step(state_after(config, replies.drop_last()), replies.last()).1;
        law_events_carry_the_ids(config, replies.drop_last());
        law_invariant(config, replies.drop_last());
        assert forall|i: int| 0 <= i < events_after(config, replies).len() implies {
            &&& (#[trigger] events_after(config, replies)[i]).session() == config.session_id
            &&& events_after(config, replies)[i].task() == config.auto_run_id
        } by {
            if i < earlier.len() {
                assert(events_after(config, replies)[i] == earlier[i]);
            } else {
                assert(events_after(config, replies)[i] == added[i - earlier.len()]);
            }
        }
    }
}

/// What the result says of the last event: a task that is done or failed ends
/// with the event that says so, with the same summary and cost or the same
/// reason; a task that was cancelled or still runs has emitted no such event.
pub open spec fn events_fit(s: ExecutorView, events: Seq<AgentEventView>) -> bool {
    match s {
        ExecutorView::Finished { config, result } => match result {
            AutoResultView::Done { summary, run } => {
                &&& events.len() > 0
                &&& events.last() == done_event(config, run, Some(summary))
                &&& no_terminal(events.drop_last())
            },
            AutoResultView::Failed { reason, .. } => {
                &&& events.len() > 0
                &&& exists|output: Option<Seq<char>>|
                    events.last() == #[trigger] failed_event(config, reason, output)
                &&& no_terminal(events.drop_last())
            },
            AutoResultView::Cancelled { .. } => no_terminal(events),
        },
        _ => no_terminal(events),
    }
}

/// None of the events says that the task is over.
pub open spec fn no_terminal(events: Seq<AgentEventView>) -> bool {
    forall|i: int| 0 <= i < events.len() ==> !(#[trigger] events[i]).is_terminal()
}

/// A task ends with exactly one terminal event, its last, if it is done or
/// failed, and with none if it was cancelled; while it runs there is none.
pub proof fn law_one_terminal_event(config: ExecutorConfigView, replies: Seq<ReplyView>)
    requires
        is_history(config, replies),
    ensures
        events_fit(state_after(config, replies), events_after(config, replies)),
    decreases replies.len(),
{
    if replies.len() > 0 {
        let earlier = replies.drop_last();
        law_one_terminal_event(config, earlier);
        let s = state_after(config, earlier);
        let (next, added) = step(s, replies.last());
        let events = events_after(config, replies);
        assert(no_terminal(events_after(config, earlier)));
        assert(events == events_after(config, earlier) + added);
        if next is Finished && added.len() > 0 {
            assert(events.drop_last() =~= events_after(config, earlier) + added.drop_last());
            assert(events.last() == added.last());
        }
    }
}

/// A task that is over waits for nothing.
pub proof fn law_finished_is_final(s: ExecutorView, reply: ReplyView)
    requires
        s is Finished,
    ensures
        !accepts(s, reply),
{
}

/// How far a state is from the end of its plan.
pub open spec fn stage(s: ExecutorView) -> nat {
    match s {
        ExecutorView::BeforePlanning { .. } => 4,
        ExecutorView::Generating { .. } => 3,
        ExecutorView::AwaitingApproval { .. } => 2,
        ExecutorView::BeforeWorker { .. } => 1,
        ExecutorView::RunningWorker { .. } => 1,
        ExecutorView::Finished { .. } => 0,
    }
}

/// How many steps the workers of the plan still take if all goes well.
pub open spec fn worker_steps_left(s: ExecutorView) -> int {
    match s {
        ExecutorView::BeforeWorker { plan, next, .. } => 2 * (plan.workers.len() - next),
        ExecutorView::RunningWorker { plan, next, .. } => 2 * (plan.workers.len() - next) - 1,
        _ => 0,
    }
}

/// Every step brings the task nearer to its end: it leaves fewer replans, or as
/// many and an earlier stage, or the same stage and fewer workers. So no task
/// goes on for ever.
pub proof fn law_every_step_makes_progress(s: ExecutorView, reply: ReplyView)
    requires
        invariant_holds(s),
        accepts(s, reply),
    ensures
        ({
            let t = step(s, reply).0;
            let replans = s.config().replan_budget - s.run().replans_used;
            let replans_later = t.config().replan_budget - t.run().replans_used;
            decreases_to!(
                replans, stage(s), worker_steps_left(s)
                    => replans_later, stage(t), worker_steps_left(t))
        }),
{
    lemma_step_keeps_invariant(s, reply);
}

/// The results that the replies bring after the last answer of the orchestrator:
/// those of the workers of the latest plan, in the order in which they ran.
pub open spec fn results_since_plan(replies: Seq<ReplyView>) -> Seq<WorkerResultView>
    decreases replies.len(),
{
    if replies.len() == 0 {
        Seq::empty()
    } else {
        match replies.last() {
            ReplyView::PlanGenerated(_) => Seq::empty(),
            ReplyView::WorkerFinished(result) => results_since_plan(replies.drop_last()).push(
                result,
            ),
            _ => results_since_plan(replies.drop_last()),
        }
    }
}

/// All workers that left these results succeeded.
pub open spec fn all_succeeded(results: Seq<WorkerResultView>) -> bool {
    forall|i: int| 0 <= i < results.len() ==> (#[trigger] results[i]).status is Success
}

/// A plan that waits or runs is the latest one, and the place in it is the number
/// of its workers that have run, all of which succeeded.
pub proof fn lemma_place_in_plan(config: ExecutorConfigView, replies: Seq<ReplyView>)
    requires
        is_history(config, replies),
    ensures
        match state_after(config, replies) {
            ExecutorView::AwaitingApproval { plan, .. } => {
                &&& plans_in(replies).len() > 0
                &&& plan == plans_in(replies).last()
                &&& results_since_plan(replies).len() == 0
            },
            ExecutorView::BeforeWorker { plan, next, .. } => {
                &&& plans_in(replies).len() > 0
                &&& plan == plans_in(replies).last()
                &&& results_since_plan(replies).len() == next
                &&& all_succeeded(results_since_plan(replies))
            },
            ExecutorView::RunningWorker { plan, next, .. } => {
                &&& plans_in(replies).len() > 0
                &&& plan == plans_in(replies).last()
                &&& results_since_plan(replies).len() == next
                &&& all_succeeded(results_since_plan(replies))
            },
            _ => true,
        },
    decreases replies.len(),
{
    if replies.len() > 0 {
        lemma_place_in_plan(config, replies.drop_last());
    }
}

/// Each plan is run from its first worker, in order, with none left out: the
/// worker that is to run is the one of the latest plan whose place is the number
/// of workers that have run since that plan came, and all of those succeeded.
pub proof fn law_workers_run_in_order(config: ExecutorConfigView, replies: Seq<ReplyView>)
    requires
        is_history(config, replies),
    ensures
        action_in(state_after(config, replies)) matches ActionView::RunWorker { spec, .. } ==> {
            let place = results_since_plan(replies).len();
            &&& plans_in(replies).len() > 0
            &&& place < plans_in(replies).last().workers.len()
            &&& spec == plans_in(replies).last().workers[place as int]
            &&& all_succeeded(results_since_plan(replies))
        },
{
    law_invariant(config, replies);
    lemma_place_in_plan(config, replies);
}

/// A task is done only when the latest plan has run to its end: each of its
/// workers has run since the plan came, and succeeded.
pub proof fn law_done_means_all_succeeded(config: ExecutorConfigView, replies: Seq<ReplyView>)
    requires
        is_history(config, replies),
        state_after(config, replies) matches ExecutorView::Finished { result, .. }
            && result is Done,
    ensures
        plans_in(replies).len() > 0,
        results_since_plan(replies).len() == plans_in(replies).last().workers.len(),
        all_succeeded(results_since_plan(replies)),
{
    law_invariant(config, replies.drop_last());
    lemma_place_in_plan(config, replies.drop_last());
}

/// How many of the events announce another plan.
pub open spec fn replan_events(events: Seq<AgentEventView>) -> nat
    decreases events.len(),
{
    if events.len() == 0 {
        0
    } else {
        replan_events(events.drop_last()) + if events.last() is AutoReplan {
            1nat
        } else {
            0
        }
    }
}

/// The announcements in two rows of events, one after the other, add up.
proof fn lemma_replan_events_add(a: Seq<AgentEventView>, b: Seq<AgentEventView>)
    ensures
        replan_events(a + b) == replan_events(a) + replan_events(b),
    decreases b.len(),
{
    if b.len() == 0 {
        assert(a + b =~= a);
    } else {
        assert((a + b).drop_last() =~= a + b.drop_last());
        lemma_replan_events_add(a, b.drop_last());
    }
}

/// Every replan is announced, once: the record counts as many replans as there
/// are such events.
pub proof fn law_every_replan_is_announced(config: ExecutorConfigView, replies: Seq<ReplyView>)
    requires
        is_history(config, replies),
    ensures
        replan_events(events_after(config, replies)) == state_after(
            config,
            replies,
        ).run().replans_used,
    decreases replies.len(),
{
    reveal_with_fuel(replan_events, 4);
    if replies.len() > 0 {
        let earlier = replies.drop_last();
        let added = step(state_after(config, earlier), replies.last()).1;
        law_every_replan_is_announced(config, earlier);
        law_invariant(config, earlier);
        lemma_replan_events_add(events_after(config, earlier), added);
    }
}

/// The replies of workers that are not cancelled and leave these results.
pub open spec fn worker_replies(results: Seq<WorkerResultView>) -> Seq<ReplyView>
    decreases results.len(),
{
    if results.len() == 0 {
        Seq::empty()
    } else {
        worker_replies(results.drop_last()) + seq![
            ReplyView::CancelPolled { cancelled: false },
            ReplyView::WorkerFinished(results.last()),
        ]
    }
}

/// The replies that lead to an approved first plan.
pub open spec fn approved(plan: PlanView) -> Seq<ReplyView> {
    seq![
        ReplyView::CancelPolled { cancelled: false },
        ReplyView::PlanGenerated(PlanOutcomeView::Planned(plan)),
        ReplyView::ApprovalAnswered(ApprovalOutcome::Answered(true)),
    ]
}

/// The record of a task with one plan whose workers left these results.
pub open spec fn one_plan_run(
    config: ExecutorConfigView,
    plan: PlanView,
    results: Seq<WorkerResultView>,
) -> AutoRunView {
    AutoRunView {
        id: config.auto_run_id,
        session_id: config.session_id,
        status: AutoStatus::Running,
        plan_versions: seq![plan],
        worker_results: results,
        cost_cents: if cost_sum(results) > u64::MAX {
            u64::MAX
        } else {
            cost_sum(results) as u64
        },
        replans_used: 0,
    }
}

/// One reply more.
proof fn lemma_history_push(config: ExecutorConfigView, replies: Seq<ReplyView>, reply: ReplyView)
    requires
        is_history(config, replies),
        accepts(state_after(config, replies), reply),
    ensures
        is_history(config, replies.push(reply)),
        state_after(config, replies.push(reply)) == step(state_after(config, replies), reply).0,
        events_after(config, replies.push(reply)) == events_after(config, replies) + step(
            state_after(config, replies),
            reply,
        ).1,
{
    assert(replies.push(reply).drop_last() =~= replies);
}

/// Where a task with an approved plan stands when its first workers have
/// succeeded.
proof fn lemma_workers_succeed(
    config: ExecutorConfigView,
    plan: PlanView,
    results: Seq<WorkerResultView>,
)
    requires
        plan.workers.len() > 0,
        results.len() <= plan.workers.len(),
        forall|i: int| 0 <= i < results.len() ==> (#[trigger] results[i]).status is Success,
    ensures
        ({
            let replies = approved(plan) + worker_replies(results);
            let opening = seq![
                planning_event(config),
                plan_event(config, plan),
                approval_event(config),
            ];
            let run = one_plan_run(config, plan, results);
            &&& is_history(config, replies)
            &&& if results.len() < plan.workers.len() {
                &&& state_after(config, replies) == ExecutorView::BeforeWorker {
                    task: TaskView {
                        config,
                        run,
                        prior_results: results,
                        current_version: 1,
                        replan_reason: None,
                    },
                    plan,
                    next: results.len(),
                }
                &&& events_after(config, replies) == opening
            } else {
                &&& state_after(config, replies) == ExecutorView::Finished {
                    config,
                    result: done_result(run, Some(results.last().summary)),
                }
                &&& events_after(config, replies) == opening.push(
                    done_event(config, run, Some(results.last().summary)),
                )
            }
        }),
    decreases results.len(),
{
    let replies = approved(plan) + worker_replies(results);
    let opening = seq![planning_event(config), plan_event(config, plan), approval_event(config)];
    assert(opening + Seq::<AgentEventView>::empty() =~= opening);
    if results.len() == 0 {
        lemma_approved(config, plan);
        assert(replies =~= approved(plan));
        assert(results =~= Seq::empty());
    } else {
        let earlier = results.drop_last();
        let last = results.last();
        lemma_workers_succeed(config, plan, earlier);
        let before = approved(plan) + worker_replies(earlier);
        let go_on = ReplyView::CancelPolled { cancelled: false };
        let finished = ReplyView::WorkerFinished(last);
        lemma_history_push(config, before, go_on);
        lemma_history_push(config, before.push(go_on), finished);
        assert(before.push(go_on).push(finished) =~= replies);
        assert(earlier.push(last) =~= results);
        lemma_ledger_push(earlier, last);
        let run = one_plan_run(config, plan, results);
        let done = done_event(config, run, Some(last.summary));
        assert(opening + seq![done] =~= opening.push(done));
    }
}

/// Where a task stands when its first plan is approved.
proof fn lemma_approved(config: ExecutorConfigView, plan: PlanView)
    ensures
        is_history(config, approved(plan)),
        state_after(config, approved(plan)) == enter_plan(
            TaskView {
                config,
                run: one_plan_run(config, plan, Seq::empty()),
                prior_results: Seq::empty(),
                current_version: 1,
                replan_reason: None,
            },
            plan,
        ).0,
        events_after(config, approved(plan)) == seq![
            planning_event(config),
            plan_event(config, plan),
            approval_event(config),
        ] + enter_plan(
            TaskView {
                config,
                run: one_plan_run(config, plan, Seq::empty()),
                prior_results: Seq::empty(),
                current_version: 1,
                replan_reason: None,
            },
            plan,
        ).1,
{
    let nothing = Seq::<ReplyView>::empty();
    let go_on = ReplyView::CancelPolled { cancelled: false };
    let planned = ReplyView::PlanGenerated(PlanOutcomeView::Planned(plan));
    let go = ReplyView::ApprovalAnswered(ApprovalOutcome::Answered(true));
    lemma_history_push(config, nothing, go_on);
    lemma_history_push(config, nothing.push(go_on), planned);
    lemma_history_push(config, nothing.push(go_on).push(planned), go);
    assert(nothing.push(go_on).push(planned).push(go) =~= approved(plan));
    assert(Seq::<PlanView>::empty().push(plan) =~= seq![plan]);
    assert(events_after(config, nothing.push(go_on).push(planned)) =~= seq![
        planning_event(config),
        plan_event(config, plan),
        approval_event(config),
    ]);
}

/// A task whose first plan is approved, whose workers all succeed and that
/// nobody cancels is done. The summary is the last worker's, or says only that
/// the task is complete if the plan has no workers; the record holds the plan
/// and the results, no replan was used, and four events are emitted.
pub proof fn law_all_workers_succeed(
    config: ExecutorConfigView,
    plan: PlanView,
    results: Seq<WorkerResultView>,
)
    requires
        results.len() == plan.workers.len(),
        forall|i: int| 0 <= i < results.len() ==> (#[trigger] results[i]).status is Success,
    ensures
        ({
            let replies = approved(plan) + worker_replies(results);
            let run = one_plan_run(config, plan, results);
            let hint = if results.len() == 0 {
                None
            } else {
                Some(results.last().summary)
            };
            &&& is_history(config, replies)
            &&& state_after(config, replies) == ExecutorView::Finished {
                config,
                result: done_result(run, hint),
            }
            &&& events_after(config, replies) == seq![
                planning_event(config),
                plan_event(config, plan),
                approval_event(config),
                done_event(config, run, hint),
            ]
        }),
{
    let replies = approved(plan) + worker_replies(results);
    let run = one_plan_run(config, plan, results);
    let opening = seq![planning_event(config), plan_event(config, plan), approval_event(config)];
    if results.len() == 0 {
        lemma_approved(config, plan);
        assert(replies =~= approved(plan));
        assert(results =~= Seq::empty());
        let done = done_event(config, run, None);
        assert(opening + seq![done] =~= seq![opening[0], opening[1], opening[2], done]);
    } else {
        lemma_workers_succeed(config, plan, results);
        let done = done_event(config, run, Some(results.last().summary));
        assert(opening.push(done) =~= seq![opening[0], opening[1], opening[2], done]);
    }
}

} // verus!
