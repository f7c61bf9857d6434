//! What is seen of a task from outside, reply by reply.
//!
//! The laws here speak of the configuration, of the replies so far and of what
//! comes next: the events that are emitted, the action that is wanted and, at
//! the end, the result. Texts, fields and lists are spelled out.

use vstd::prelude::*;

use crate::executor_laws::{
    events_after, is_history, law_invariant, law_record_is_complete,
    lemma_place_in_plan, plans_in, results_in, results_since_plan, state_after,
};
use crate::executor_model::{
    accepts, action_in, cancelled_result, cost_sum, done_event, done_result, failed_event,
    failed_result, failure_reason, invariant_holds, new_run, start, status_label_text, step,
    successes, ActionView, ApprovalOutcome, ExecutorConfigView, ExecutorView, PlanOutcomeView,
    ReplyView, TaskView,
};
use crate::text::{law_truncated, truncated};
use crate::types::{
    AgentEventView, AutoResultView, AutoRunView, AutoStatus, PlanView, WorkerResultView,
    WorkerSpecView, WorkerStatusView,
};

verus! {

/// A worker with this status ran and failed.
pub open spec fn is_failure(status: WorkerStatusView) -> bool {
    match status {
        WorkerStatusView::MaxIterations => true,
        WorkerStatusView::ToolError { .. } => true,
        WorkerStatusView::LlmError { .. } => true,
        WorkerStatusView::Success => false,
        WorkerStatusView::Cancelled => false,
    }
}

/// How many of the replies bring the result of a worker that failed.
pub open spec fn failures_in(replies: Seq<ReplyView>) -> nat
    decreases replies.len(),
{
    if replies.len() == 0 {
        0
    } else {
        failures_in(replies.drop_last()) + match replies.last() {
            ReplyView::WorkerFinished(result) => if is_failure(result.status) {
                1nat
            } else {
                0
            },
            _ => 0,
        }
    }
}

/// How a reason names a status.
pub open spec fn is_label(label: Seq<char>, status: WorkerStatusView) -> bool {
    match status {
        WorkerStatusView::Success => label == "ok"@,
        WorkerStatusView::MaxIterations => label == "max_iterations"@,
        WorkerStatusView::ToolError { .. } => label == "tool_error"@,
        WorkerStatusView::LlmError { .. } => label == "llm_error"@,
        WorkerStatusView::Cancelled => label == "cancelled"@,
    }
}

/// `quote` is `text`, or its first 240 characters and an ellipsis if it has more.
pub open spec fn is_quote(quote: Seq<char>, text: Seq<char>) -> bool {
    if text.len() <= 240 {
        quote == text
    } else {
        quote == text.take(240).push('…')
    }
}

/// `reason` says which worker failed on which model, how, and what it said.
pub open spec fn is_reason(
    reason: Seq<char>,
    spec: WorkerSpecView,
    result: WorkerResultView,
) -> bool {
    exists|label: Seq<char>, quote: Seq<char>|
        {
            &&& #[trigger] is_label(label, result.status)
            &&& #[trigger] is_quote(quote, result.summary)
            &&& reason == "worker "@ + spec.id + " ("@ + spec.model + ") failed ["@ + label
                + "]: "@ + quote
        }
}

/// The record of the task `config` with this status, these plans, these results,
/// their cost, as far as it can be told, and this number of replans.
pub open spec fn is_record(
    run: AutoRunView,
    config: ExecutorConfigView,
    status: AutoStatus,
    plans: Seq<PlanView>,
    results: Seq<WorkerResultView>,
    replans: nat,
) -> bool {
    &&& run.id == config.auto_run_id
    &&& run.session_id == config.session_id
    &&& run.status == status
    &&& run.plan_versions == plans
    &&& run.worker_results == results
    &&& run.cost_cents == if cost_sum(results) > u64::MAX {
        u64::MAX as nat
    } else {
        cost_sum(results)
    }
    &&& run.replans_used == replans
}

/// The workers' costs add up one by one, and the successes are picked one by
/// one, in order.
pub proof fn law_ledger_is_read_one_by_one(
    results: Seq<WorkerResultView>,
    result: WorkerResultView,
)
    ensures
        cost_sum(Seq::empty()) == 0,
        cost_sum(results.push(result)) == cost_sum(results) + result.cost_cents,
        successes(Seq::empty()) == Seq::<WorkerResultView>::empty(),
        result.status is Success ==> successes(results.push(result)) == successes(results).push(
            result,
        ),
        !(result.status is Success) ==> successes(results.push(result)) == successes(results),
{
    reveal(Seq::filter);
    assert(results.push(result).drop_last() =~= results);
}

/// What each reply adds to the plans, the results, the results of the latest plan
/// and the failures of a history.
pub proof fn law_replies_are_read_one_by_one(replies: Seq<ReplyView>, reply: ReplyView)
    ensures
        plans_in(Seq::empty()) == Seq::<PlanView>::empty(),
        results_in(Seq::empty()) == Seq::<WorkerResultView>::empty(),
        results_since_plan(Seq::empty()) == Seq::<WorkerResultView>::empty(),
        failures_in(Seq::empty()) == 0,
        plans_in(replies.push(reply)) == match reply {
            ReplyView::PlanGenerated(PlanOutcomeView::Planned(plan)) => plans_in(replies).push(
                plan,
            ),
            _ => plans_in(replies),
        },
        results_in(replies.push(reply)) == match reply {
            ReplyView::WorkerFinished(result) => results_in(replies).push(result),
            _ => results_in(replies),
        },
        results_since_plan(replies.push(reply)) == match reply {
            ReplyView::PlanGenerated(_) => Seq::<WorkerResultView>::empty(),
            ReplyView::WorkerFinished(result) => results_since_plan(replies).push(result),
            _ => results_since_plan(replies),
        },
        failures_in(replies.push(reply)) == failures_in(replies) + match reply {
            ReplyView::WorkerFinished(result) => if result.status is MaxIterations
                || result.status is ToolError || result.status is LlmError {
                1nat
            } else {
                0
            },
            _ => 0,
        },
{
    assert(replies.push(reply).drop_last() =~= replies);
}

/// A history goes on with exactly the replies that are accepted, and each brings
/// the state and the events of its step.
pub proof fn law_history_goes_step_by_step(
    config: ExecutorConfigView,
    replies: Seq<ReplyView>,
    reply: ReplyView,
)
    ensures
        is_history(config, replies.push(reply)) <==> is_history(config, replies) && accepts(
            state_after(config, replies),
            reply,
        ),
        state_after(config, replies.push(reply)) == step(state_after(config, replies), reply).0,
        events_after(config, replies.push(reply)) == events_after(config, replies) + step(
            state_after(config, replies),
            reply,
        ).1,
{
    assert(replies.push(reply).drop_last() =~= replies);
}

/// A task begins by saying that it plans, and first looks whether it was
/// cancelled.
pub proof fn law_task_begins(config: ExecutorConfigView)
    ensures
        is_history(config, Seq::empty()),
        state_after(config, Seq::empty()) == start(config).0,
        events_after(config, Seq::empty()) == start(config).1,
        start(config).1 == seq![
            AgentEventView::AutoPlanning {
                session_id: config.session_id,
                run_id: config.auto_run_id,
            },
        ],
        action_in(start(config).0) == ActionView::PollCancel,
        is_record(
            start(config).0.run(),
            config,
            AutoStatus::Planning,
            Seq::empty(),
            Seq::empty(),
            0,
        ),
{
    assert(start(config).1 =~= seq![
        AgentEventView::AutoPlanning { session_id: config.session_id, run_id: config.auto_run_id },
    ]);
}

/// The label of a status is its own, and a reason says which worker ended on which
/// model, how, and what it said, shortened only if that has more than 240
/// characters.
pub proof fn law_reason_tells_the_worker(spec: WorkerSpecView, result: WorkerResultView)
    ensures
        is_label(status_label_text(result.status), result.status),
        is_reason(failure_reason(spec, result), spec, result),
{
    let label = status_label_text(result.status);
    let quote = truncated(result.summary, 240);
    law_truncated(result.summary, 240);
    if result.summary.len() > 240 {
        assert(quote =~= result.summary.take(240).push('…'));
    }
    assert(is_label(label, result.status));
    assert(is_quote(quote, result.summary));
}

/// A task that is done ends with the whole summary that it is given, or the stock
/// phrase if it is given none; one that failed, with the whole reason; and all of
/// its record but the status is as it was. The event tells the same.
pub proof fn law_ends_tell_what_they_are_given(
    config: ExecutorConfigView,
    run: AutoRunView,
    text: Seq<char>,
    output: Option<Seq<char>>,
)
    ensures
        done_result(run, Some(text)) == (AutoResultView::Done {
            summary: text,
            run: AutoRunView { status: AutoStatus::Done, ..run },
        }),
        done_event(config, run, Some(text)) == (AgentEventView::AutoDone {
            session_id: config.session_id,
            run_id: config.auto_run_id,
            summary: text,
            total_cost_cents: run.cost_cents,
        }),
        done_result(run, None) == (AutoResultView::Done {
            summary: "Auto task complete."@,
            run: AutoRunView { status: AutoStatus::Done, ..run },
        }),
        done_event(config, run, None) == (AgentEventView::AutoDone {
            session_id: config.session_id,
            run_id: config.auto_run_id,
            summary: "Auto task complete."@,
            total_cost_cents: run.cost_cents,
        }),
        failed_result(run, text) == (AutoResultView::Failed {
            reason: text,
            run: AutoRunView { status: AutoStatus::Failed, ..run },
        }),
        failed_event(config, text, output) == (AgentEventView::AutoFailed {
            session_id: config.session_id,
            run_id: config.auto_run_id,
            reason: text,
            last_worker_output: output,
        }),
        cancelled_result(run) == (AutoResultView::Cancelled {
            run: AutoRunView { status: AutoStatus::Cancelled, ..run },
        }),
{
}

/// The record of a task that has not begun holds its ids and nothing else.
pub proof fn law_new_record_is_empty(id: Seq<char>, session_id: Seq<char>)
    ensures
        new_run(id, session_id).id == id,
        new_run(id, session_id).session_id == session_id,
        new_run(id, session_id).status == AutoStatus::Planning,
        new_run(id, session_id).plan_versions.len() == 0,
        new_run(id, session_id).worker_results.len() == 0,
        new_run(id, session_id).cost_cents == 0,
        new_run(id, session_id).replans_used == 0,
{
}

/// How a state follows from the replies.
proof fn lemma_state_is_seen(config: ExecutorConfigView, replies: Seq<ReplyView>)
    requires
        is_history(config, replies),
    ensures
        match state_after(config, replies) {
            ExecutorView::BeforePlanning { task } => {
                &&& failures_in(replies) == task.run.replans_used
                &&& failures_in(replies) > 0 ==> {
                    &&& plans_in(replies).len() > 0
                    &&& results_since_plan(replies).len() > 0
                    &&& results_since_plan(replies).last() == results_in(replies).last()
                    &&& is_failure(results_in(replies).last().status)
                    &&& task.replan_reason == Some(
                        failure_reason(
                            plans_in(replies).last().workers[results_since_plan(replies).len()
                                - 1],
                            results_in(replies).last(),
                        ),
                    )
                }
            },
            ExecutorView::Generating { task } => {
                &&& failures_in(replies) == task.run.replans_used
                &&& failures_in(replies) > 0 ==> {
                    &&& plans_in(replies).len() > 0
                    &&& results_since_plan(replies).len() > 0
                    &&& results_since_plan(replies).last() == results_in(replies).last()
                    &&& is_failure(results_in(replies).last().status)
                    &&& task.replan_reason == Some(
                        failure_reason(
                            plans_in(replies).last().workers[results_since_plan(replies).len()
                                - 1],
                            results_in(replies).last(),
                        ),
                    )
                }
            },
            ExecutorView::AwaitingApproval { task, .. } => failures_in(replies)
                == task.run.replans_used,
            ExecutorView::BeforeWorker { task, .. } => failures_in(replies)
                == task.run.replans_used,
            ExecutorView::RunningWorker { task, .. } => failures_in(replies)
                == task.run.replans_used,
            ExecutorView::Finished { .. } => true,
        },
    decreases replies.len(),
{
    if replies.len() > 0 {
        lemma_state_is_seen(config, replies.drop_last());
        law_invariant(config, replies.drop_last());
        lemma_place_in_plan(config, replies.drop_last());
    }
}

/// All that ties a state to the replies.
proof fn lemma_seen(config: ExecutorConfigView, replies: Seq<ReplyView>)
    requires
        is_history(config, replies),
    ensures
        state_after(config, replies).config() == config,
        state_after(config, replies).run().worker_results == results_in(replies),
        state_after(config, replies).run().plan_versions == plans_in(replies),
        invariant_holds(state_after(config, replies)),
{
    law_invariant(config, replies);
    law_record_is_complete(config, replies);
}

/// What is waited for is the reply to the action that is wanted, and nothing when
/// the task is over. The one exception is the failure after which the next plan's
/// version would not fit in 32 bits.
pub proof fn law_what_is_waited_for(
    config: ExecutorConfigView,
    replies: Seq<ReplyView>,
    reply: ReplyView,
)
    requires
        is_history(config, replies),
    ensures
        accepts(state_after(config, replies), reply) <==> match action_in(
            state_after(config, replies),
        ) {
            ActionView::PollCancel => reply is CancelPolled,
            ActionView::Generate(_) => reply is PlanGenerated,
            ActionView::Approve(_) => reply is ApprovalAnswered,
            ActionView::RunWorker { .. } => match reply {
                ReplyView::WorkerFinished(result) => !(is_failure(result.status) && failures_in(
                    replies,
                ) < config.replan_budget && plans_in(replies).len() == u32::MAX),
                _ => false,
            },
            ActionView::Finish(_) => false,
        },
{
    lemma_seen(config, replies);
    lemma_state_is_seen(config, replies);
}

/// A task that is not cancelled goes on after the look whether it was: if the
/// latest plan failed or there is none yet, the orchestrator is asked, and is told
/// the task, the worker pool, the results of all workers that succeeded, why the
/// latest plan failed, if one did, and which version is due; otherwise the next
/// worker of the latest plan runs, and is shown the results of all workers that
/// succeeded. No event is emitted.
pub proof fn law_after_a_poll(config: ExecutorConfigView, replies: Seq<ReplyView>)
    requires
        is_history(config, replies.push(ReplyView::CancelPolled { cancelled: false })),
    ensures
        ({
            let later = replies.push(ReplyView::CancelPolled { cancelled: false });
            let action = action_in(state_after(config, later));
            &&& events_after(config, later) == events_after(config, replies)
            &&& if plans_in(replies).len() == failures_in(replies) {
                &&& action matches ActionView::Generate(request)
                &&& request.task == config.task
                &&& request.worker_pool == config.worker_pool
                &&& request.prior_results == successes(results_in(replies))
                &&& request.plan_version == failures_in(replies) + 1
                &&& match request.replan_reason {
                    None => failures_in(replies) == 0,
                    Some(reason) => failures_in(replies) > 0 && is_reason(
                        reason,
                        plans_in(replies).last().workers[results_since_plan(replies).len() - 1],
                        results_in(replies).last(),
                    ),
                }
            } else {
                let place = results_since_plan(replies).len();
                &&& plans_in(replies).len() == failures_in(replies) + 1
                &&& place < plans_in(replies).last().workers.len()
                &&& action == (ActionView::RunWorker {
                    spec: plans_in(replies).last().workers[place as int],
                    prior_results: successes(results_in(replies)),
                })
            }
        }),
{
    let reply = ReplyView::CancelPolled { cancelled: false };
    law_history_goes_step_by_step(config, replies, reply);
    lemma_seen(config, replies);
    lemma_state_is_seen(config, replies);
    lemma_place_in_plan(config, replies);
    assert(events_after(config, replies.push(reply)) =~= events_after(config, replies));
    if failures_in(replies) > 0 && plans_in(replies).len() == failures_in(replies) {
        law_reason_tells_the_worker(
            plans_in(replies).last().workers[results_since_plan(replies).len() - 1],
            results_in(replies).last(),
        );
    }
}

/// Whenever the orchestrator is to be asked, it is told the task and the whole
/// worker pool, for the first plan as for every later one.
pub proof fn law_orchestrator_is_told_the_task(
    config: ExecutorConfigView,
    replies: Seq<ReplyView>,
)
    requires
        is_history(config, replies),
    ensures
        action_in(state_after(config, replies)) matches ActionView::Generate(request) ==> {
            &&& request.task == config.task
            &&& request.worker_pool == config.worker_pool
            &&& request.prior_results == successes(results_in(replies))
            &&& request.plan_version == plans_in(replies).len() + 1
            &&& (request.replan_reason is None <==> plans_in(replies).len() == 0)
        },
{
    lemma_seen(config, replies);
    lemma_state_is_seen(config, replies);
}

/// The orchestrator and a worker are only ever called right after a look whether
/// the task was cancelled.
pub proof fn law_cancel_is_looked_for_first(config: ExecutorConfigView, replies: Seq<ReplyView>)
    requires
        is_history(config, replies),
    ensures
        action_in(state_after(config, replies)) is Generate || action_in(
            state_after(config, replies),
        ) is RunWorker ==> replies.len() > 0 && replies.last() == (ReplyView::CancelPolled {
            cancelled: false,
        }),
{
    if replies.len() > 0 {
        lemma_seen(config, replies.drop_last());
    }
}

/// A reply that says that the task is cancelled ends it there: no event is
/// emitted, and the record holds all plans and results so far, the cancelled
/// worker's included.
pub proof fn law_after_a_cancel(
    config: ExecutorConfigView,
    replies: Seq<ReplyView>,
    reply: ReplyView,
)
    requires
        is_history(config, replies.push(reply)),
        match reply {
            ReplyView::CancelPolled { cancelled } => cancelled,
            ReplyView::PlanGenerated(outcome) => outcome is Cancelled,
            ReplyView::ApprovalAnswered(outcome) => outcome is Cancelled,
            ReplyView::WorkerFinished(result) => result.status is Cancelled,
        },
    ensures
        events_after(config, replies.push(reply)) == events_after(config, replies),
        ({
            &&& action_in(state_after(config, replies.push(reply))) matches ActionView::Finish(
                result,
            )
            &&& result matches AutoResultView::Cancelled { run }
            &&& is_record(
                run,
                config,
                AutoStatus::Cancelled,
                plans_in(replies),
                match reply {
                    ReplyView::WorkerFinished(result) => results_in(replies).push(result),
                    _ => results_in(replies),
                },
                failures_in(replies),
            )
        }),
{
    law_history_goes_step_by_step(config, replies, reply);
    lemma_seen(config, replies);
    lemma_seen(config, replies.push(reply));
    lemma_state_is_seen(config, replies);
    law_replies_are_read_one_by_one(replies, reply);
    assert(events_after(config, replies.push(reply)) =~= events_after(config, replies));
}

/// A plan that comes is shown whole: its version, its reasoning and all its
/// workers. The user is asked about the first; a later one runs at once, and is
/// done at once if it has no workers.
pub proof fn law_after_a_plan(
    config: ExecutorConfigView,
    replies: Seq<ReplyView>,
    plan: PlanView,
)
    requires
        is_history(
            config,
            replies.push(ReplyView::PlanGenerated(PlanOutcomeView::Planned(plan))),
        ),
    ensures
        ({
            let later = replies.push(ReplyView::PlanGenerated(PlanOutcomeView::Planned(plan)));
            let shown = AgentEventView::AutoPlan {
                session_id: config.session_id,
                run_id: config.auto_run_id,
                version: plan.version,
                reasoning: plan.reasoning,
                plan: plan.workers,
            };
            let action = action_in(state_after(config, later));
            if plans_in(replies).len() == 0 {
                &&& events_after(config, later) == events_after(config, replies) + seq![
                    shown,
                    AgentEventView::AutoAwaitingApproval {
                        session_id: config.session_id,
                        run_id: config.auto_run_id,
                    },
                ]
                &&& action == ActionView::Approve(plan)
            } else if plan.workers.len() > 0 {
                &&& events_after(config, later) == events_after(config, replies) + seq![shown]
                &&& action == ActionView::PollCancel
            } else {
                &&& action matches ActionView::Finish(result)
                &&& result matches AutoResultView::Done { summary, run }
                &&& summary == "Auto task complete."@
                &&& is_record(
                    run,
                    config,
                    AutoStatus::Done,
                    plans_in(replies).push(plan),
                    results_in(replies),
                    failures_in(replies),
                )
                &&& events_after(config, later) == events_after(config, replies) + seq![
                    shown,
                    AgentEventView::AutoDone {
                        session_id: config.session_id,
                        run_id: config.auto_run_id,
                        summary: "Auto task complete."@,
                        total_cost_cents: run.cost_cents,
                    },
                ]
            }
        }),
{
    let reply = ReplyView::PlanGenerated(PlanOutcomeView::Planned(plan));
    let later = replies.push(reply);
    law_history_goes_step_by_step(config, replies, reply);
    lemma_seen(config, replies);
    lemma_seen(config, later);
    lemma_state_is_seen(config, replies);
    law_replies_are_read_one_by_one(replies, reply);
    let shown = AgentEventView::AutoPlan {
        session_id: config.session_id,
        run_id: config.auto_run_id,
        version: plan.version,
        reasoning: plan.reasoning,
        plan: plan.workers,
    };
    let added = step(state_after(config, replies), reply).1;
    if plans_in(replies).len() == 0 {
        assert(added =~= seq![
            shown,
            AgentEventView::AutoAwaitingApproval {
                session_id: config.session_id,
                run_id: config.auto_run_id,
            },
        ]);
    } else if plan.workers.len() > 0 {
        assert(added =~= seq![shown]);
    } else {
        let run = state_after(config, later).run();
        assert(added =~= seq![
            shown,
            AgentEventView::AutoDone {
                session_id: config.session_id,
                run_id: config.auto_run_id,
                summary: "Auto task complete."@,
                total_cost_cents: run.cost_cents,
            },
        ]);
    }
}

/// An orchestrator that gives up ends the task with its message.
pub proof fn law_after_an_orchestrator_error(
    config: ExecutorConfigView,
    replies: Seq<ReplyView>,
    message: Seq<char>,
)
    requires
        is_history(
            config,
            replies.push(ReplyView::PlanGenerated(PlanOutcomeView::Failed { message })),
        ),
    ensures
        ({
            let later = replies.push(
                ReplyView::PlanGenerated(PlanOutcomeView::Failed { message }),
            );
            &&& action_in(state_after(config, later)) matches ActionView::Finish(result)
            &&& result matches AutoResultView::Failed { reason, run }
            &&& reason == "orchestrator error: "@ + message
            &&& is_record(
                run,
                config,
                AutoStatus::Failed,
                plans_in(replies),
                results_in(replies),
                failures_in(replies),
            )
            &&& events_after(config, later) == events_after(config, replies).push(
                AgentEventView::AutoFailed {
                    session_id: config.session_id,
                    run_id: config.auto_run_id,
                    reason: "orchestrator error: "@ + message,
                    last_worker_output: None,
                },
            )
        }),
{
    let reply = ReplyView::PlanGenerated(PlanOutcomeView::Failed { message });
    let later = replies.push(reply);
    law_history_goes_step_by_step(config, replies, reply);
    lemma_seen(config, replies);
    lemma_seen(config, later);
    lemma_state_is_seen(config, replies);
    law_replies_are_read_one_by_one(replies, reply);
    assert(events_after(config, later) =~= events_after(config, replies).push(
        AgentEventView::AutoFailed {
            session_id: config.session_id,
            run_id: config.auto_run_id,
            reason: "orchestrator error: "@ + message,
            last_worker_output: None,
        },
    ));
}

/// The user's word on the first plan: yes runs it, and ends the task well if it
/// has no workers; no ends the task.
pub proof fn law_after_the_users_word(
    config: ExecutorConfigView,
    replies: Seq<ReplyView>,
    approved: bool,
)
    requires
        is_history(
            config,
            replies.push(ReplyView::ApprovalAnswered(ApprovalOutcome::Answered(approved))),
        ),
    ensures
        ({
            let later = replies.push(
                ReplyView::ApprovalAnswered(ApprovalOutcome::Answered(approved)),
            );
            let action = action_in(state_after(config, later));
            &&& plans_in(replies).len() == 1
            &&& results_in(replies).len() == 0
            &&& if !approved {
                &&& action matches ActionView::Finish(result)
                &&& result matches AutoResultView::Failed { reason, run }
                &&& reason == "plan rejected by user"@
                &&& is_record(
                    run,
                    config,
                    AutoStatus::Failed,
                    plans_in(replies),
                    Seq::empty(),
                    0,
                )
                &&& events_after(config, later) == events_after(config, replies).push(
                    AgentEventView::AutoFailed {
                        session_id: config.session_id,
                        run_id: config.auto_run_id,
                        reason: "plan rejected by user"@,
                        last_worker_output: None,
                    },
                )
            } else if plans_in(replies).last().workers.len() > 0 {
                &&& action == ActionView::PollCancel
                &&& events_after(config, later) == events_after(config, replies)
            } else {
                &&& action matches ActionView::Finish(result)
                &&& result matches AutoResultView::Done { summary, run }
                &&& summary == "Auto task complete."@
                &&& is_record(
                    run,
                    config,
                    AutoStatus::Done,
                    plans_in(replies),
                    Seq::empty(),
                    0,
                )
                &&& events_after(config, later) == events_after(config, replies).push(
                    AgentEventView::AutoDone {
                        session_id: config.session_id,
                        run_id: config.auto_run_id,
                        summary: "Auto task complete."@,
                        total_cost_cents: run.cost_cents,
                    },
                )
            }
        }),
{
    let reply = ReplyView::ApprovalAnswered(ApprovalOutcome::Answered(approved));
    let later = replies.push(reply);
    law_history_goes_step_by_step(config, replies, reply);
    lemma_seen(config, replies);
    lemma_seen(config, later);
    lemma_state_is_seen(config, replies);
    lemma_place_in_plan(config, replies);
    law_replies_are_read_one_by_one(replies, reply);
    assert(results_in(replies) =~= Seq::empty());
    if !approved {
        assert(events_after(config, later) =~= events_after(config, replies).push(
            AgentEventView::AutoFailed {
                session_id: config.session_id,
                run_id: config.auto_run_id,
                reason: "plan rejected by user"@,
                last_worker_output: None,
            },
        ));
    } else if plans_in(replies).last().workers.len() > 0 {
        assert(events_after(config, later) =~= events_after(config, replies));
    } else {
        assert(events_after(config, later) =~= events_after(config, replies).push(
            AgentEventView::AutoDone {
                session_id: config.session_id,
                run_id: config.auto_run_id,
                summary: "Auto task complete."@,
                total_cost_cents: state_after(config, later).run().cost_cents,
            },
        ));
    }
}

/// A worker that succeeds is followed by the next one of the plan, silently. If
/// it was the last, the task is done: the result and the event report the
/// worker's summary, whole, and the event the cost of all workers.
pub proof fn law_after_a_success(
    config: ExecutorConfigView,
    replies: Seq<ReplyView>,
    result: WorkerResultView,
)
    requires
        is_history(config, replies.push(ReplyView::WorkerFinished(result))),
        result.status is Success,
    ensures
        ({
            let later = replies.push(ReplyView::WorkerFinished(result));
            let action = action_in(state_after(config, later));
            if results_since_plan(replies).len() + 1 < plans_in(replies).last().workers.len() {
                &&& action == ActionView::PollCancel
                &&& events_after(config, later) == events_after(config, replies)
            } else {
                &&& results_since_plan(replies).len() + 1 == plans_in(
                    replies,
                ).last().workers.len()
                &&& action matches ActionView::Finish(end)
                &&& end matches AutoResultView::Done { summary, run }
                &&& summary == result.summary
                &&& is_record(
                    run,
                    config,
                    AutoStatus::Done,
                    plans_in(replies),
                    results_in(replies).push(result),
                    failures_in(replies),
                )
                &&& events_after(config, later) == events_after(config, replies).push(
                    AgentEventView::AutoDone {
                        session_id: config.session_id,
                        run_id: config.auto_run_id,
                        summary: result.summary,
                        total_cost_cents: run.cost_cents,
                    },
                )
            }
        }),
{
    let reply = ReplyView::WorkerFinished(result);
    let later = replies.push(reply);
    law_history_goes_step_by_step(config, replies, reply);
    lemma_seen(config, replies);
    lemma_seen(config, later);
    lemma_state_is_seen(config, replies);
    lemma_place_in_plan(config, replies);
    law_replies_are_read_one_by_one(replies, reply);
    if results_since_plan(replies).len() + 1 < plans_in(replies).last().workers.len() {
        assert(events_after(config, later) =~= events_after(config, replies));
    } else {
        assert(events_after(config, later) =~= events_after(config, replies).push(
            AgentEventView::AutoDone {
                session_id: config.session_id,
                run_id: config.auto_run_id,
                summary: result.summary,
                total_cost_cents: state_after(config, later).run().cost_cents,
            },
        ));
    }
}

/// A worker that fails ends the task if as many plans have failed before as the
/// budget has replans: the result and the event give the reason, and the event
/// shows what the worker said. Otherwise a replan is announced with the reason,
/// and the planning after it.
pub proof fn law_after_a_failure(
    config: ExecutorConfigView,
    replies: Seq<ReplyView>,
    result: WorkerResultView,
)
    requires
        is_history(config, replies.push(ReplyView::WorkerFinished(result))),
        result.status is MaxIterations || result.status is ToolError || result.status is LlmError,
    ensures
        ({
            let later = replies.push(ReplyView::WorkerFinished(result));
            let action = action_in(state_after(config, later));
            let spec = plans_in(replies).last().workers[results_since_plan(replies).len() as int];
            if failures_in(replies) == config.replan_budget {
                &&& action matches ActionView::Finish(end)
                &&& end matches AutoResultView::Failed { reason, run }
                &&& is_reason(reason, spec, result)
                &&& is_record(
                    run,
                    config,
                    AutoStatus::Failed,
                    plans_in(replies),
                    results_in(replies).push(result),
                    failures_in(replies),
                )
                &&& events_after(config, later) == events_after(config, replies).push(
                    AgentEventView::AutoFailed {
                        session_id: config.session_id,
                        run_id: config.auto_run_id,
                        reason,
                        last_worker_output: Some(result.summary),
                    },
                )
            } else {
                &&& failures_in(replies) < config.replan_budget
                &&& action == ActionView::PollCancel
                &&& exists|reason: Seq<char>| #[trigger]
                    is_reason(reason, spec, result) && events_after(config, later)
                        == events_after(config, replies) + seq![
                        AgentEventView::AutoReplan {
                            session_id: config.session_id,
                            run_id: config.auto_run_id,
                            reason,
                        },
                        AgentEventView::AutoPlanning {
                            session_id: config.session_id,
                            run_id: config.auto_run_id,
                        },
                    ]
            }
        }),
{
    let reply = ReplyView::WorkerFinished(result);
    let later = replies.push(reply);
    law_history_goes_step_by_step(config, replies, reply);
    lemma_seen(config, replies);
    lemma_seen(config, later);
    lemma_state_is_seen(config, replies);
    lemma_place_in_plan(config, replies);
    law_replies_are_read_one_by_one(replies, reply);
    let spec = plans_in(replies).last().workers[results_since_plan(replies).len() as int];
    let reason = failure_reason(spec, result);
    law_reason_tells_the_worker(spec, result);
    if failures_in(replies) == config.replan_budget {
        assert(events_after(config, later) =~= events_after(config, replies).push(
            AgentEventView::AutoFailed {
                session_id: config.session_id,
                run_id: config.auto_run_id,
                reason,
                last_worker_output: Some(result.summary),
            },
        ));
    } else {
        assert(step(state_after(config, replies), reply).1 =~= seq![
            AgentEventView::AutoReplan {
                session_id: config.session_id,
                run_id: config.auto_run_id,
                reason,
            },
            AgentEventView::AutoPlanning {
                session_id: config.session_id,
                run_id: config.auto_run_id,
            },
        ]);
    }
}

/// A task that is done after at least one worker of its latest plan ends on the
/// reply that brings the last worker's result, and reports what that worker said,
/// whole: in the result, and in the last event, which also gives the cost of the
/// record.
pub proof fn law_done_reports_the_last_summary(
    config: ExecutorConfigView,
    replies: Seq<ReplyView>,
)
    requires
        is_history(config, replies),
        results_since_plan(replies).len() > 0,
    ensures
        action_in(state_after(config, replies)) matches ActionView::Finish(end) ==> (
        end matches AutoResultView::Done { summary, run } ==> {
            &&& replies.last() matches ReplyView::WorkerFinished(result)
            &&& summary == result.summary
            &&& events_after(config, replies).len() > 0
            &&& events_after(config, replies).last() == (AgentEventView::AutoDone {
                session_id: config.session_id,
                run_id: config.auto_run_id,
                summary: result.summary,
                total_cost_cents: run.cost_cents,
            })
        }),
{
    let earlier = replies.drop_last();
    assert(replies == earlier.push(replies.last()));
    lemma_seen(config, earlier);
    lemma_place_in_plan(config, earlier);
    law_replies_are_read_one_by_one(earlier, replies.last());
    if let ReplyView::WorkerFinished(result) = replies.last() {
        if result.status is Success {
            law_after_a_success(config, earlier, result);
        }
    }
}

/// Whatever the task has been through, the first event on a plan shows the plan:
/// its version, its reasoning and its workers, one by one.
pub proof fn law_plan_is_shown_whole(task: TaskView, plan: PlanView)
    ensures
        ({
            let events = step(
                ExecutorView::Generating { task },
                ReplyView::PlanGenerated(PlanOutcomeView::Planned(plan)),
            ).1;
            &&& events.len() > 0
            &&& events[0] matches AgentEventView::AutoPlan {
                session_id,
                run_id,
                version,
                reasoning,
                plan: workers,
            }
            &&& session_id == task.config.session_id
            &&& run_id == task.config.auto_run_id
            &&& version == plan.version
            &&& reasoning == plan.reasoning
            &&& workers.len() == plan.workers.len()
            &&& forall|i: int|
                0 <= i < plan.workers.len() ==> #[trigger] workers[i] == plan.workers[i]
        }),
{
}

} // verus!
