//! What a call gives, told of the values that go in and come out.
//!
//! The models leave the rest of the library free to speak of texts and lists as
//! sequences. The laws here tie the calls themselves to the histories and to the
//! fields of their arguments and results.

use vstd::prelude::*;

use crate::approval::answer_or_denial;
use crate::executor::{
    finalize_cancelled, finalize_done, finalize_failed, new_auto_run, status_label,
    worker_failure_reason, Action, Executor, ExecutorConfig, PlanOutcome, Reply,
};
use crate::executor_laws::{events_after, is_history, plans_in, state_after};
use crate::executor_model::{action_in, ActionView, PlanOutcomeView, ReplyView};
use crate::executor_seen::{
    failures_in, is_reason, law_ends_tell_what_they_are_given, law_history_goes_step_by_step,
    law_new_record_is_empty, law_orchestrator_is_told_the_task, law_plan_is_shown_whole,
    law_reason_tells_the_worker, law_task_begins, law_what_is_waited_for,
};
use crate::settings::{
    agent_set_auto_orchestrator_model, agent_set_auto_replan_budget, agent_set_auto_worker_pool,
    is_auto_mode, law_budget_is_what_was_fetched, law_pool_is_what_was_decoded,
    law_settings_are_what_was_fetched, read_auto_orchestrator, read_auto_replan_budget,
    read_auto_settings, read_auto_worker_pool, worker_pool_or_empty, AutoSettings, Fetched,
    FetchedSettings, SettingWrite,
};
use crate::text::{decimal, law_truncated, parse_u32, truncate, u32_of_text};
use crate::turn::{
    build_auto_turn, is_run_id, law_turn_carries_what_it_is_given, prepare_auto_turn,
    turn_result, validate_auto_settings, AutoTurn, ReadySettings, TurnRequest,
};
use crate::types::{
    AgentEvent, AutoResult, AutoRun, AutoStatus, LlmClientConfig, ModelRef, Plan, WorkerPoolEntry,
    WorkerResult, WorkerSpec, WorkerStatus,
};

verus! {

/// Two pools have the same entries, text by text.
pub open spec fn same_pool(a: Seq<WorkerPoolEntry>, b: Seq<WorkerPoolEntry>) -> bool {
    &&& a.len() == b.len()
    &&& forall|i: int|
        0 <= i < a.len() ==> {
            &&& (#[trigger] a[i]).provider_id@ == b[i].provider_id@
            &&& a[i].model@ == b[i].model@
            &&& a[i].description@ == b[i].description@
        }
}

/// Two plans or events list the same workers.
pub open spec fn same_workers(a: Seq<WorkerSpec>, b: Seq<WorkerSpec>) -> bool {
    &&& a.len() == b.len()
    &&& forall|i: int|
        0 <= i < a.len() ==> {
            &&& (#[trigger] a[i]).id@ == b[i].id@
            &&& a[i].model@ == b[i].model@
            &&& a[i].prompt@ == b[i].prompt@
            &&& a[i].see_prior.deep_view() == b[i].see_prior.deep_view()
        }
}

/// Two records are the same but for the status.
pub open spec fn same_but_for_status(a: AutoRun, b: AutoRun) -> bool {
    &&& a.id@ == b.id@
    &&& a.session_id@ == b.session_id@
    &&& a.plan_versions.deep_view() == b.plan_versions.deep_view()
    &&& a.worker_results.deep_view() == b.worker_results.deep_view()
    &&& a.cost_cents == b.cost_cents
    &&& a.replans_used == b.replans_used
}

/// A session is in Auto mode if both its provider and its model say so, and in no
/// other case.
pub proof fn law_auto_mode(provider_id: &str, model: &str, res: bool)
    requires
        call_ensures(is_auto_mode, (provider_id, model), res),
    ensures
        res == (provider_id@ == "auto"@ && model@ == "auto"@),
{
}

/// A text is kept if it is short enough, and otherwise cut to its beginning, with
/// an ellipsis behind.
pub proof fn law_text_is_cut(s: &str, max: usize, res: String)
    requires
        call_ensures(truncate, (s, max), res),
    ensures
        res@ == if s@.len() <= max {
            s@
        } else {
            s@.take(max as int).push('…')
        },
{
    law_truncated(s@, max as nat);
    if s@.len() > max {
        assert(res@ =~= s@.take(max as int).push('…'));
    }
}

/// A worker that ran into its iteration limit, a tool error or a model error has
/// failed; one that succeeded or was cancelled has not.
pub proof fn law_failed_workers(status: WorkerStatus, res: bool)
    requires
        call_ensures(WorkerStatus::is_hard_failure, (&status,), res),
    ensures
        match status {
            WorkerStatus::Success => !res,
            WorkerStatus::MaxIterations => res,
            WorkerStatus::ToolError { .. } => res,
            WorkerStatus::LlmError { .. } => res,
            WorkerStatus::Cancelled => !res,
        },
{
}

/// Every status has its own label.
pub proof fn law_labels(status: WorkerStatus, res: &'static str)
    requires
        call_ensures(status_label, (&status,), res),
    ensures
        match status {
            WorkerStatus::Success => res@ == "ok"@,
            WorkerStatus::MaxIterations => res@ == "max_iterations"@,
            WorkerStatus::ToolError { .. } => res@ == "tool_error"@,
            WorkerStatus::LlmError { .. } => res@ == "llm_error"@,
            WorkerStatus::Cancelled => res@ == "cancelled"@,
        },
{
}

/// The reason that a failed worker gives names its id, its model and how it ended,
/// and quotes what it said.
pub proof fn law_reasons(spec: WorkerSpec, result: WorkerResult, res: String)
    requires
        call_ensures(worker_failure_reason, (&spec, &result), res),
    ensures
        is_reason(res@, spec.deep_view(), result.deep_view()),
        spec.deep_view().id == spec.id@,
        spec.deep_view().model == spec.model@,
        result.deep_view().summary == result.summary@,
{
    law_reason_tells_the_worker(spec.deep_view(), result.deep_view());
}

/// The record that a result is persisted with is the one in the result, all of it.
pub proof fn law_final_run(result: AutoResult, res: AutoRun)
    requires
        call_ensures(AutoResult::final_run, (&result,), res),
    ensures
        match result {
            AutoResult::Done { run, .. } => same_but_for_status(res, run) && res.status
                == run.status,
            AutoResult::Failed { run, .. } => same_but_for_status(res, run) && res.status
                == run.status,
            AutoResult::Cancelled { run } => same_but_for_status(res, run) && res.status
                == run.status,
        },
{
}

/// A new record has its two ids and nothing else.
pub proof fn law_new_auto_run(id: &str, session_id: &str, res: AutoRun)
    requires
        call_ensures(new_auto_run, (id, session_id), res),
    ensures
        res.id@ == id@,
        res.session_id@ == session_id@,
        res.status == AutoStatus::Planning,
        res.plan_versions@.len() == 0,
        res.worker_results@.len() == 0,
        res.cost_cents == 0,
        res.replans_used == 0,
{
    law_new_record_is_empty(id@, session_id@);
    assert(res.plan_versions.deep_view().len() == res.plan_versions@.len());
    assert(res.worker_results.deep_view().len() == res.worker_results@.len());
}

/// A task that is done reports the summary that it is given, whole, in its result
/// and in its event, or the stock phrase; its record is kept but for the status.
pub proof fn law_finalize_done(
    run: AutoRun,
    config: ExecutorConfig,
    hint: Option<String>,
    res: (AutoResult, AgentEvent),
)
    requires
        call_ensures(finalize_done, (run, &config, hint), res),
    ensures
        ({
            &&& res.0 matches AutoResult::Done { summary, run: kept }
            &&& res.1 matches AgentEvent::AutoDone {
                session_id,
                run_id,
                summary: told,
                total_cost_cents,
            }
            &&& summary@ == match hint {
                Some(text) => text@,
                None => "Auto task complete."@,
            }
            &&& told@ == summary@
            &&& session_id@ == config.session_id@
            &&& run_id@ == config.auto_run_id@
            &&& total_cost_cents == run.cost_cents
            &&& kept.status == AutoStatus::Done
            &&& same_but_for_status(kept, run)
        }),
{
    let text = match hint {
        Some(t) => t@,
        None => Seq::empty(),
    };
    law_ends_tell_what_they_are_given(config.deep_view(), run.deep_view(), text, None);
}

/// A task that failed reports the reason that it is given, whole, in its result
/// and in its event, and the worker's output as it is given; its record is kept but
/// for the status.
pub proof fn law_finalize_failed(
    run: AutoRun,
    config: ExecutorConfig,
    why: String,
    output: Option<String>,
    res: (AutoResult, AgentEvent),
)
    requires
        call_ensures(finalize_failed, (run, &config, why, output), res),
    ensures
        ({
            &&& res.0 matches AutoResult::Failed { reason, run: kept }
            &&& res.1 matches AgentEvent::AutoFailed {
                session_id,
                run_id,
                reason: told,
                last_worker_output,
            }
            &&& reason@ == why@
            &&& told@ == why@
            &&& match output {
                Some(text) => last_worker_output matches Some(shown) && shown@ == text@,
                None => last_worker_output is None,
            }
            &&& session_id@ == config.session_id@
            &&& run_id@ == config.auto_run_id@
            &&& kept.status == AutoStatus::Failed
            &&& same_but_for_status(kept, run)
        }),
{
    law_ends_tell_what_they_are_given(
        config.deep_view(),
        run.deep_view(),
        why@,
        output.deep_view(),
    );
}

/// The record of a task that was cancelled is kept but for the status.
pub proof fn law_finalize_cancelled(run: AutoRun, res: AutoResult)
    requires
        call_ensures(finalize_cancelled, (run,), res),
    ensures
        res matches AutoResult::Cancelled { run: kept } && kept.status == AutoStatus::Cancelled
            && same_but_for_status(kept, run),
{
    law_ends_tell_what_they_are_given(
        arbitrary(),
        run.deep_view(),
        Seq::empty(),
        None,
    );
}

/// A wait that ends without an answer is a denial.
pub proof fn law_answers(received: Option<bool>, res: bool)
    requires
        call_ensures(answer_or_denial, (received,), res),
    ensures
        res == (received == Some(true)),
{
}

/// An executor that begins a task is at the start of the task's history.
pub proof fn law_executor_starts(config: ExecutorConfig, res: (Executor, Vec<AgentEvent>))
    requires
        call_ensures(Executor::start, (config,), res),
    ensures
        is_history(config.deep_view(), Seq::empty()),
        res.0.deep_view() == state_after(config.deep_view(), Seq::empty()),
        res.1.deep_view() == events_after(config.deep_view(), Seq::empty()),
        res.1@.len() == 1,
        res.1@[0] matches AgentEvent::AutoPlanning { session_id, run_id } && session_id@
            == config.session_id@ && run_id@ == config.auto_run_id@,
{
    law_task_begins(config.deep_view());
    assert(res.1.deep_view().len() == res.1@.len());
    assert(res.1.deep_view()[0] == res.1@[0].deep_view());
}

/// A step takes an executor from one place in its task's history to the next, and
/// gives back the events in between.
pub proof fn law_executor_steps(
    config: ExecutorConfig,
    replies: Seq<ReplyView>,
    executor: Executor,
    reply: Reply,
    res: (Executor, Vec<AgentEvent>),
)
    requires
        is_history(config.deep_view(), replies.push(reply.deep_view())),
        executor.deep_view() == state_after(config.deep_view(), replies),
        call_ensures(Executor::step, (executor, reply), res),
    ensures
        is_history(config.deep_view(), replies),
        res.0.deep_view() == state_after(config.deep_view(), replies.push(reply.deep_view())),
        events_after(config.deep_view(), replies.push(reply.deep_view())) == events_after(
            config.deep_view(),
            replies,
        ) + res.1.deep_view(),
{
    law_history_goes_step_by_step(config.deep_view(), replies, reply.deep_view());
}

/// An executor accepts the reply to the action that it wants, and no other. The one
/// exception is the failure after which the next plan's version would not fit in 32
/// bits.
pub proof fn law_executor_waits(
    config: ExecutorConfig,
    replies: Seq<ReplyView>,
    executor: Executor,
    reply: Reply,
    res: bool,
)
    requires
        is_history(config.deep_view(), replies),
        executor.deep_view() == state_after(config.deep_view(), replies),
        call_ensures(Executor::accepts, (&executor, &reply), res),
    ensures
        res == match action_in(executor.deep_view()) {
            ActionView::PollCancel => reply is CancelPolled,
            ActionView::Generate(_) => reply is PlanGenerated,
            ActionView::Approve(_) => reply is ApprovalAnswered,
            ActionView::RunWorker { .. } => match reply {
                Reply::WorkerFinished(result) => !((result.status is MaxIterations
                    || result.status is ToolError || result.status is LlmError) && failures_in(
                    replies,
                ) < config.replan_budget && plans_in(replies).len() == u32::MAX),
                _ => false,
            },
            ActionView::Finish(_) => false,
        },
{
    law_what_is_waited_for(config.deep_view(), replies, reply.deep_view());
}

/// The action that an executor wants is the one that is due in its task's history;
/// one that asks the orchestrator hands it the task's text and the whole pool.
pub proof fn law_executor_asks(
    config: ExecutorConfig,
    replies: Seq<ReplyView>,
    executor: Executor,
    res: Action<'_>,
)
    requires
        is_history(config.deep_view(), replies),
        executor.deep_view() == state_after(config.deep_view(), replies),
        call_ensures(Executor::action, (&executor,), res),
    ensures
        res.deep_view() == action_in(state_after(config.deep_view(), replies)),
        res matches Action::Generate(request) ==> request.task@ == config.task@ && same_pool(
            request.worker_pool@,
            config.worker_pool@,
        ),
{
    law_orchestrator_is_told_the_task(config.deep_view(), replies);
    if let Action::Generate(request) = res {
        let pool = request.worker_pool;
        assert(pool.deep_view() == config.worker_pool.deep_view());
        assert(pool@.len() == pool.deep_view().len());
        assert(config.worker_pool@.len() == config.worker_pool.deep_view().len());
        assert forall|i: int| 0 <= i < pool@.len() implies {
            &&& (#[trigger] pool@[i]).provider_id@ == config.worker_pool@[i].provider_id@
            &&& pool@[i].model@ == config.worker_pool@[i].model@
            &&& pool@[i].description@ == config.worker_pool@[i].description@
        } by {
            assert(pool.deep_view()[i] == pool@[i].deep_view());
            assert(config.worker_pool.deep_view()[i] == config.worker_pool@[i].deep_view());
        }
    }
}

/// The first event of a step that takes a plan shows the plan: its version, its
/// reasoning and its workers, for the first plan and for every later one.
pub proof fn law_executor_shows_plans(
    config: ExecutorConfig,
    replies: Seq<ReplyView>,
    executor: Executor,
    plan: Plan,
    res: (Executor, Vec<AgentEvent>),
)
    requires
        is_history(
            config.deep_view(),
            replies.push(
                ReplyView::PlanGenerated(PlanOutcomeView::Planned(plan.deep_view())),
            ),
        ),
        executor.deep_view() == state_after(config.deep_view(), replies),
        call_ensures(
            Executor::step,
            (executor, Reply::PlanGenerated(PlanOutcome::Planned(plan))),
            res,
        ),
    ensures
        res.1@.len() > 0,
        res.1@[0] matches AgentEvent::AutoPlan { version, reasoning, plan: workers, .. }
            && version == plan.version && reasoning@ == plan.reasoning@ && same_workers(
            workers@,
            plan.workers@,
        ),
{
    let reply = Reply::PlanGenerated(PlanOutcome::Planned(plan));
    law_history_goes_step_by_step(config.deep_view(), replies, reply.deep_view());
    let task = executor.deep_view()->Generating_task;
    law_plan_is_shown_whole(task, plan.deep_view());
    assert(res.1.deep_view().len() == res.1@.len());
    assert(res.1.deep_view()[0] == res.1@[0].deep_view());
    if let AgentEvent::AutoPlan { plan: workers, .. } = res.1@[0] {
        assert(workers.deep_view() =~= plan.workers.deep_view());
        assert(workers@.len() == workers.deep_view().len());
        assert(plan.workers@.len() == plan.workers.deep_view().len());
        assert forall|i: int| 0 <= i < workers@.len() implies {
            &&& (#[trigger] workers@[i]).id@ == plan.workers@[i].id@
            &&& workers@[i].model@ == plan.workers@[i].model@
            &&& workers@[i].prompt@ == plan.workers@[i].prompt@
            &&& workers@[i].see_prior.deep_view() == plan.workers@[i].see_prior.deep_view()
        } by {
            assert(workers.deep_view()[i] == workers@[i].deep_view());
            assert(plan.workers.deep_view()[i] == plan.workers@[i].deep_view());
        }
    }
}

/// The result that an executor hands over is the one that its last action shows,
/// and there is none before that.
pub proof fn law_executor_ends(executor: Executor, res: Option<AutoResult>)
    requires
        call_ensures(Executor::into_result, (executor,), res),
    ensures
        match res {
            Some(result) => action_in(executor.deep_view()) == ActionView::Finish(
                result.deep_view(),
            ),
            None => !(action_in(executor.deep_view()) is Finish),
        },
{
}

/// The budget that is read is the number that was fetched, or two.
pub proof fn law_budget_call(fetched: Fetched, res: u32)
    requires
        call_ensures(read_auto_replan_budget, (&fetched,), res),
    ensures
        match fetched {
            Ok(Some(raw)) => match u32_of_text(raw@) {
                Some(budget) => res == budget,
                None => res == 2,
            },
            Ok(None) => res == 2,
            Err(_) => res == 2,
        },
{
    law_budget_is_what_was_fetched(fetched);
}

/// A budget of up to five is stored in decimal, and a larger one is refused.
pub proof fn law_budget_is_set(budget: u32, res: Result<SettingWrite, String>)
    requires
        call_ensures(agent_set_auto_replan_budget, (budget,), res),
    ensures
        if budget <= 5 {
            &&& res matches Ok(SettingWrite::Put { key, value })
            &&& key@ == "auto_replan_budget"@
            &&& value@ == decimal(budget as nat)
        } else {
            &&& res matches Err(e)
            &&& e@ == "replan budget "@ + decimal(budget as nat)
                + " exceeds max (5); see PHASE_AUTO_MODE.md"@
        },
{
}

/// What is read as a number is the number that the text spells.
pub proof fn law_number_call(raw: &str, res: Option<u32>)
    requires
        call_ensures(parse_u32, (raw,), res),
    ensures
        res == u32_of_text(raw@),
{
}

/// A pool that was decoded is kept, entry by entry.
pub proof fn law_pool_call(decoded: Option<Vec<WorkerPoolEntry>>, res: Vec<WorkerPoolEntry>)
    requires
        call_ensures(worker_pool_or_empty, (decoded,), res),
    ensures
        match decoded {
            Some(pool) => res.deep_view() == pool.deep_view() && res@.len() == pool@.len(),
            None => res@.len() == 0,
        },
{
    assert(res.deep_view().len() == res@.len());
    if let Some(pool) = decoded {
        assert(pool.deep_view().len() == pool@.len());
    }
}

/// The orchestrator model that is read is what the decoder makes of the text that
/// was fetched, whatever its length.
pub proof fn law_orchestrator_call<F: Fn(&str) -> Option<ModelRef>>(
    fetched: Fetched,
    decode: F,
    res: Option<ModelRef>,
)
    requires
        call_ensures(read_auto_orchestrator::<F>, (&fetched, &decode), res),
    ensures
        match fetched {
            Ok(Some(raw)) => exists|text: &str|
                text@ == raw@ && #[trigger] decode.ensures((text,), res),
            Ok(None) => res is None,
            Err(_) => res is None,
        },
{
}

/// The pool that is read is what the decoder makes of the text that was fetched,
/// whatever its length.
pub proof fn law_worker_pool_call<F: Fn(&str) -> Option<Vec<WorkerPoolEntry>>>(
    fetched: Fetched,
    decode: F,
    res: Vec<WorkerPoolEntry>,
)
    requires
        call_ensures(read_auto_worker_pool::<F>, (&fetched, &decode), res),
    ensures
        match fetched {
            Ok(Some(raw)) => exists|text: &str, decoded: Option<Vec<WorkerPoolEntry>>|
                {
                    &&& text@ == raw@
                    &&& #[trigger] decode.ensures((text,), decoded)
                    &&& match decoded {
                        Some(pool) => res.deep_view() == pool.deep_view(),
                        None => res.deep_view().len() == 0,
                    }
                },
            Ok(None) => res@.len() == 0,
            Err(_) => res@.len() == 0,
        },
{
    assert(res.deep_view().len() == res@.len());
    law_pool_is_what_was_decoded(fetched, decode, res.deep_view());
}

/// The settings that are read are what the decoders make of the texts that were
/// fetched, each of its own.
pub proof fn law_settings_call<
    F: Fn(&str) -> Option<ModelRef>,
    G: Fn(&str) -> Option<Vec<WorkerPoolEntry>>,
>(fetched: FetchedSettings, decode_model: F, decode_pool: G, res: AutoSettings)
    requires
        call_ensures(
            read_auto_settings::<F, G>,
            (&fetched, &decode_model, &decode_pool),
            res,
        ),
    ensures
        match fetched.orchestrator {
            Ok(Some(raw)) => exists|text: &str|
                text@ == raw@ && #[trigger] decode_model.ensures((text,), res.orchestrator),
            Ok(None) => res.orchestrator is None,
            Err(_) => res.orchestrator is None,
        },
        match fetched.worker_pool {
            Ok(Some(raw)) => exists|text: &str, decoded: Option<Vec<WorkerPoolEntry>>|
                {
                    &&& text@ == raw@
                    &&& #[trigger] decode_pool.ensures((text,), decoded)
                    &&& match decoded {
                        Some(pool) => res.worker_pool.deep_view() == pool.deep_view(),
                        None => res.worker_pool@.len() == 0,
                    }
                },
            Ok(None) => res.worker_pool@.len() == 0,
            Err(_) => res.worker_pool@.len() == 0,
        },
        match fetched.replan_budget {
            Ok(Some(raw)) => match u32_of_text(raw@) {
                Some(budget) => res.replan_budget == budget,
                None => res.replan_budget == 2,
            },
            Ok(None) => res.replan_budget == 2,
            Err(_) => res.replan_budget == 2,
        },
{
    law_settings_are_what_was_fetched(fetched, decode_model, decode_pool, res);
}

/// A model is stored as what the encoder makes of it, whole, under its key, and to
/// pick none removes it. What the encoder says of a model that it cannot encode is
/// passed on.
pub proof fn law_orchestrator_is_set<F: Fn(&ModelRef) -> Result<String, String>>(
    model: Option<ModelRef>,
    encode: F,
    res: Result<SettingWrite, String>,
)
    requires
        call_ensures(agent_set_auto_orchestrator_model::<F>, (&model, &encode), res),
    ensures
        match model {
            Some(m) => exists|encoded: Result<String, String>|
                {
                    &&& #[trigger] encode.ensures((&m,), encoded)
                    &&& match encoded {
                        Ok(raw) => {
                            &&& res matches Ok(SettingWrite::Put { key, value })
                            &&& key@ == "auto_orchestrator_model"@
                            &&& value@ == raw@
                        },
                        Err(e) => res matches Err(f) && f@ == e@,
                    }
                },
            None => res matches Ok(SettingWrite::Delete { key }) && key@
                == "auto_orchestrator_model"@,
        },
{
}

/// A pool is stored as what the encoder makes of it, whole, under its key. What the
/// encoder says of a pool that it cannot encode is passed on.
pub proof fn law_worker_pool_is_set<F: Fn(&Vec<WorkerPoolEntry>) -> Result<String, String>>(
    pool: Vec<WorkerPoolEntry>,
    encode: F,
    res: Result<SettingWrite, String>,
)
    requires
        call_ensures(agent_set_auto_worker_pool::<F>, (&pool, &encode), res),
    ensures
        exists|encoded: Result<String, String>|
            {
                &&& #[trigger] encode.ensures((&pool,), encoded)
                &&& match encoded {
                    Ok(raw) => {
                        &&& res matches Ok(SettingWrite::Put { key, value })
                        &&& key@ == "auto_worker_pool"@
                        &&& value@ == raw@
                    },
                    Err(e) => res matches Err(f) && f@ == e@,
                }
            },
{
}

/// Settings are ready exactly if an orchestrator model is picked and the pool is
/// not empty, and nothing of them is changed.
pub proof fn law_validation(settings: AutoSettings, res: Result<ReadySettings, String>)
    requires
        call_ensures(validate_auto_settings, (settings,), res),
    ensures
        match settings.orchestrator {
            None => res matches Err(e) && e@
                == "Auto mode: orchestrator model not configured in Settings → Auto"@,
            Some(model) => if settings.worker_pool@.len() == 0 {
                res matches Err(e) && e@
                    == "Auto mode: worker pool is empty in Settings → Auto"@
            } else {
                &&& res matches Ok(r)
                &&& r.orchestrator.provider_id@ == model.provider_id@
                &&& r.orchestrator.model@ == model.model@
                &&& same_pool(r.worker_pool@, settings.worker_pool@)
                &&& r.replan_budget == settings.replan_budget
            },
        },
{
    let pool = settings.worker_pool;
    assert(pool.deep_view().len() == pool@.len());
    if let Ok(r) = res {
        assert(r.worker_pool.deep_view() == pool.deep_view());
        assert(r.worker_pool.deep_view().len() == r.worker_pool@.len());
        assert forall|i: int| 0 <= i < pool@.len() implies {
            &&& (#[trigger] r.worker_pool@[i]).provider_id@ == pool@[i].provider_id@
            &&& r.worker_pool@[i].model@ == pool@[i].model@
            &&& r.worker_pool@[i].description@ == pool@[i].description@
        } by {
            assert(r.worker_pool.deep_view()[i] == r.worker_pool@[i].deep_view());
            assert(pool.deep_view()[i] == pool@[i].deep_view());
        }
    }
}

/// A turn that is built has the whole message as its task, the whole pool, the
/// budget, and the provider's model call but for the cache flag.
pub proof fn law_turn_is_built(
    settings: ReadySettings,
    provider_llm: Option<LlmClientConfig>,
    request: TurnRequest,
    run_id: String,
    res: Result<AutoTurn, String>,
)
    requires
        call_ensures(build_auto_turn, (settings, provider_llm, request, run_id), res),
    ensures
        match provider_llm {
            Some(llm) => {
                &&& res matches Ok(turn)
                &&& turn.run_id@ == run_id@
                &&& turn.config.auto_run_id@ == run_id@
                &&& turn.config.task@ == request.message@
                &&& turn.config.session_id@ == request.session_id@
                &&& turn.config.replan_budget == settings.replan_budget
                &&& same_pool(turn.config.worker_pool@, settings.worker_pool@)
                &&& turn.plan_gen.llm.provider@ == llm.provider@
                &&& turn.plan_gen.llm.base_url@ == llm.base_url@
                &&& turn.plan_gen.llm.api_key@ == llm.api_key@
                &&& turn.plan_gen.llm.model@ == llm.model@
                &&& turn.plan_gen.llm.disable_cache_control
            },
            None => res matches Err(e) && e@ == "Auto mode: orchestrator provider `"@
                + settings.orchestrator.provider_id@ + "` is not configured"@,
        },
{
    law_turn_carries_what_it_is_given(settings, provider_llm, request, run_id@, res);
}

/// A turn that is prepared has an id of the right form, which all of its parts
/// carry, the whole message as its task, the whole pool, the budget, and the
/// provider's model call but for the cache flag.
pub proof fn law_turn_is_prepared(
    settings: ReadySettings,
    provider_llm: Option<LlmClientConfig>,
    request: TurnRequest,
    res: Result<AutoTurn, String>,
)
    requires
        call_ensures(prepare_auto_turn, (settings, provider_llm, request), res),
    ensures
        match provider_llm {
            Some(llm) => {
                &&& res matches Ok(turn)
                &&& is_run_id(turn.run_id@)
                &&& turn.config.auto_run_id@ == turn.run_id@
                &&& turn.runner.ctx.run_id@ == turn.run_id@
                &&& turn.initial_run.id@ == turn.run_id@
                &&& turn.config.task@ == request.message@
                &&& turn.config.session_id@ == request.session_id@
                &&& turn.runner.ctx.working_dir@ == request.folder@
                &&& turn.config.replan_budget == settings.replan_budget
                &&& same_pool(turn.config.worker_pool@, settings.worker_pool@)
                &&& turn.plan_gen.llm.provider@ == llm.provider@
                &&& turn.plan_gen.llm.base_url@ == llm.base_url@
                &&& turn.plan_gen.llm.api_key@ == llm.api_key@
                &&& turn.plan_gen.llm.model@ == llm.model@
                &&& turn.plan_gen.llm.disable_cache_control
            },
            None => res matches Err(e) && e@ == "Auto mode: orchestrator provider `"@
                + settings.orchestrator.provider_id@ + "` is not configured"@,
        },
{
    let id = choose|id: Seq<char>|
        is_run_id(id) && #[trigger] turn_result(
            settings.deep_view(),
            provider_llm.deep_view(),
            request.deep_view(),
            id,
            res,
        );
    law_turn_carries_what_it_is_given(settings, provider_llm, request, id, res);
}

} // verus!
