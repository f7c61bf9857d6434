//! The executor as a mathematical state machine: its states, what it waits for
//! in each, and the step that it takes on each reply.

use vstd::prelude::*;

use crate::text::truncated;
use crate::types::{
    AgentEventView, AutoResultView, AutoRunView, AutoStatus, PlanView, WorkerPoolEntryView,
    WorkerResultView, WorkerSpecView, WorkerStatusView,
};

verus! {

/// Model of an executor configuration.
pub struct ExecutorConfigView {
    pub task: Seq<char>,
    pub auto_run_id: Seq<char>,
    pub session_id: Seq<char>,
    pub worker_pool: Seq<WorkerPoolEntryView>,
    pub replan_budget: u32,
}

/// Everything that a task in progress carries from step to step.
pub struct TaskView {
    pub config: ExecutorConfigView,
    pub run: AutoRunView,
    /// The results of the workers that succeeded, over all plans so far.
    pub prior_results: Seq<WorkerResultView>,
    /// The version of the plan that is made or carried out, from 1.
    pub current_version: u32,
    /// Why the orchestrator is asked again, from the second plan on.
    pub replan_reason: Option<Seq<char>>,
}

/// A state of the executor, named by what it waits for.
pub enum ExecutorView {
    /// Whether the task was cancelled, before the orchestrator is asked.
    BeforePlanning { task: TaskView },
    /// The orchestrator's plan.
    Generating { task: TaskView },
    /// The user's word on the first plan.
    AwaitingApproval { task: TaskView, plan: PlanView },
    /// Whether the task was cancelled, before worker `next` of the plan runs.
    BeforeWorker { task: TaskView, plan: PlanView, next: nat },
    /// The result of worker `next` of the plan.
    RunningWorker { task: TaskView, plan: PlanView, next: nat },
    /// Nothing: the task is over.
    Finished { config: ExecutorConfigView, result: AutoResultView },
}

/// What came of asking the orchestrator for a plan.
pub enum PlanOutcomeView {
    Planned(PlanView),
    Cancelled,
    Failed { message: Seq<char> },
}

/// What came of asking the user for approval.
#[derive(Debug, Clone, Copy, PartialEq, Eq, Structural)]
pub enum ApprovalOutcome {
    /// The user let the plan run, or did not.
    Answered(bool),
    /// The task was cancelled first.
    Cancelled,
}

/// What the world answers to an action.
pub enum ReplyView {
    CancelPolled { cancelled: bool },
    PlanGenerated(PlanOutcomeView),
    ApprovalAnswered(ApprovalOutcome),
    WorkerFinished(WorkerResultView),
}

/// What the orchestrator is told.
pub struct OrchestratorRequestView {
    pub task: Seq<char>,
    pub worker_pool: Seq<WorkerPoolEntryView>,
    pub prior_results: Seq<WorkerResultView>,
    pub replan_reason: Option<Seq<char>>,
    pub plan_version: u32,
}

/// What the executor wants done next.
pub enum ActionView {
    PollCancel,
    Generate(OrchestratorRequestView),
    Approve(PlanView),
    RunWorker { spec: WorkerSpecView, prior_results: Seq<WorkerResultView> },
    Finish(AutoResultView),
}

impl ExecutorView {
    /// The configuration of the task.
    pub open spec fn config(self) -> ExecutorConfigView {
        match self {
            ExecutorView::BeforePlanning { task } => task.config,
            ExecutorView::Generating { task } => task.config,
            ExecutorView::AwaitingApproval { task, .. } => task.config,
            ExecutorView::BeforeWorker { task, .. } => task.config,
            ExecutorView::RunningWorker { task, .. } => task.config,
            ExecutorView::Finished { config, .. } => config,
        }
    }

    /// The record of the task so far.
    pub open spec fn run(self) -> AutoRunView {
        match self {
            ExecutorView::BeforePlanning { task } => task.run,
            ExecutorView::Generating { task } => task.run,
            ExecutorView::AwaitingApproval { task, .. } => task.run,
            ExecutorView::BeforeWorker { task, .. } => task.run,
            ExecutorView::RunningWorker { task, .. } => task.run,
            ExecutorView::Finished { result, .. } => result.run(),
        }
    }
}

/// The label of a worker status in messages.
pub open spec fn status_label_text(s: WorkerStatusView) -> Seq<char> {
    match s {
        WorkerStatusView::Success => "ok"@,
        WorkerStatusView::MaxIterations => "max_iterations"@,
        WorkerStatusView::ToolError { .. } => "tool_error"@,
        WorkerStatusView::LlmError { .. } => "llm_error"@,
        WorkerStatusView::Cancelled => "cancelled"@,
    }
}

/// How many characters of a failed worker's summary a failure reason quotes.
pub const REASON_SUMMARY_CHARS: usize = 240;

/// The reason that a failed worker gives for a replan or for the task's
/// failure.
pub open spec fn failure_reason(spec: WorkerSpecView, result: WorkerResultView) -> Seq<char> {
    "worker "@ + spec.id + " ("@ + spec.model + ") failed ["@ + status_label_text(result.status)
        + "]: "@ + truncated(result.summary, REASON_SUMMARY_CHARS as nat)
}

/// The event that opens a round of planning.
pub open spec fn planning_event(config: ExecutorConfigView) -> AgentEventView {
    AgentEventView::AutoPlanning { session_id: config.session_id, run_id: config.auto_run_id }
}

/// The event that shows a plan.
pub open spec fn plan_event(config: ExecutorConfigView, plan: PlanView) -> AgentEventView {
    AgentEventView::AutoPlan {
        session_id: config.session_id,
        run_id: config.auto_run_id,
        version: plan.version,
        reasoning: plan.reasoning,
        plan: plan.workers,
    }
}

/// The event that asks for approval.
pub open spec fn approval_event(config: ExecutorConfigView) -> AgentEventView {
    AgentEventView::AutoAwaitingApproval {
        session_id: config.session_id,
        run_id: config.auto_run_id,
    }
}

/// The event that announces another plan.
pub open spec fn replan_event(config: ExecutorConfigView, reason: Seq<char>) -> AgentEventView {
    AgentEventView::AutoReplan {
        session_id: config.session_id,
        run_id: config.auto_run_id,
        reason,
    }
}

/// The summary of a task that is done: the last worker's, if a worker ran.
pub open spec fn done_summary(hint: Option<Seq<char>>) -> Seq<char> {
    match hint {
        Some(summary) => summary,
        None => "Auto task complete."@,
    }
}

/// The result of a task that is done.
pub open spec fn done_result(run: AutoRunView, hint: Option<Seq<char>>) -> AutoResultView {
    AutoResultView::Done {
        summary: done_summary(hint),
        run: AutoRunView { status: AutoStatus::Done, ..run },
    }
}

/// The event that reports a task that is done.
pub open spec fn done_event(
    config: ExecutorConfigView,
    run: AutoRunView,
    hint: Option<Seq<char>>,
) -> AgentEventView {
    AgentEventView::AutoDone {
        session_id: config.session_id,
        run_id: config.auto_run_id,
        summary: done_summary(hint),
        total_cost_cents: run.cost_cents,
    }
}

/// The result of a task that failed.
pub open spec fn failed_result(run: AutoRunView, reason: Seq<char>) -> AutoResultView {
    AutoResultView::Failed { reason, run: AutoRunView { status: AutoStatus::Failed, ..run } }
}

/// The event that reports a task that failed.
pub open spec fn failed_event(
    config: ExecutorConfigView,
    reason: Seq<char>,
    last_worker_output: Option<Seq<char>>,
) -> AgentEventView {
    AgentEventView::AutoFailed {
        session_id: config.session_id,
        run_id: config.auto_run_id,
        reason,
        last_worker_output,
    }
}

/// The result of a task that was cancelled.
pub open spec fn cancelled_result(run: AutoRunView) -> AutoResultView {
    AutoResultView::Cancelled { run: AutoRunView { status: AutoStatus::Cancelled, ..run } }
}

/// The task ends well.
pub open spec fn finish_done(task: TaskView, hint: Option<Seq<char>>) -> (
    ExecutorView,
    Seq<AgentEventView>,
) {
    (
        ExecutorView::Finished { config: task.config, result: done_result(task.run, hint) },
        seq![done_event(task.config, task.run, hint)],
    )
}

/// The task ends badly.
pub open spec fn finish_failed(
    task: TaskView,
    reason: Seq<char>,
    last_worker_output: Option<Seq<char>>,
) -> (ExecutorView, Seq<AgentEventView>) {
    (
        ExecutorView::Finished { config: task.config, result: failed_result(task.run, reason) },
        seq![failed_event(task.config, reason, last_worker_output)],
    )
}

/// The task ends because someone stopped it. No event says so.
pub open spec fn finish_cancelled(task: TaskView) -> (ExecutorView, Seq<AgentEventView>) {
    (
        ExecutorView::Finished { config: task.config, result: cancelled_result(task.run) },
        Seq::empty(),
    )
}

/// `task` with another record.
pub open spec fn with_run(task: TaskView, run: AutoRunView) -> TaskView {
    TaskView { run, ..task }
}

/// `task` with another status in its record.
pub open spec fn with_status(task: TaskView, status: AutoStatus) -> TaskView {
    with_run(task, AutoRunView { status, ..task.run })
}

/// The record of a task that has not begun.
pub open spec fn new_run(id: Seq<char>, session_id: Seq<char>) -> AutoRunView {
    AutoRunView {
        id,
        session_id,
        status: AutoStatus::Planning,
        plan_versions: Seq::empty(),
        worker_results: Seq::empty(),
        cost_cents: 0,
        replans_used: 0,
    }
}

/// A task begins: the first round of planning is announced.
pub open spec fn start(config: ExecutorConfigView) -> (ExecutorView, Seq<AgentEventView>) {
    (
        ExecutorView::BeforePlanning {
            task: TaskView {
                config,
                run: new_run(config.auto_run_id, config.session_id),
                prior_results: Seq::empty(),
                current_version: 1,
                replan_reason: None,
            },
        },
        seq![planning_event(config)],
    )
}

/// A plan is cleared to run: its first worker is next. A plan without workers
/// is done.
pub open spec fn enter_plan(task: TaskView, plan: PlanView) -> (
    ExecutorView,
    Seq<AgentEventView>,
) {
    let running = with_status(task, AutoStatus::Running);
    if plan.workers.len() == 0 {
        finish_done(running, None)
    } else {
        (ExecutorView::BeforeWorker { task: running, plan, next: 0 }, Seq::empty())
    }
}

/// The orchestrator answered. Only the first plan needs approval.
pub open spec fn on_plan(task: TaskView, outcome: PlanOutcomeView) -> (
    ExecutorView,
    Seq<AgentEventView>,
) {
    match outcome {
        PlanOutcomeView::Planned(plan) => {
            let planned = with_run(
                task,
                AutoRunView { plan_versions: task.run.plan_versions.push(plan), ..task.run },
            );
            if task.current_version == 1 {
                (
                    ExecutorView::AwaitingApproval {
                        task: with_status(planned, AutoStatus::AwaitingApproval),
                        plan,
                    },
                    seq![plan_event(task.config, plan), approval_event(task.config)],
                )
            } else {
                let entered = enter_plan(planned, plan);
                (entered.0, seq![plan_event(task.config, plan)] + entered.1)
            }
        },
        PlanOutcomeView::Cancelled => finish_cancelled(task),
        PlanOutcomeView::Failed { message } => finish_failed(
            task,
            "orchestrator error: "@ + message,
            None,
        ),
    }
}

/// The user answered.
pub open spec fn on_approval(task: TaskView, plan: PlanView, outcome: ApprovalOutcome) -> (
    ExecutorView,
    Seq<AgentEventView>,
) {
    match outcome {
        ApprovalOutcome::Answered(approved) => if approved {
            enter_plan(task, plan)
        } else {
            finish_failed(task, "plan rejected by user"@, None)
        },
        ApprovalOutcome::Cancelled => finish_cancelled(task),
    }
}

/// The sum of two costs, at most the largest one that can be told.
pub open spec fn saturating_sum(x: u64, y: u64) -> u64 {
    if x + y > u64::MAX {
        u64::MAX
    } else {
        (x + y) as u64
    }
}

/// The record with one more worker in the ledger.
pub open spec fn with_result(run: AutoRunView, result: WorkerResultView) -> AutoRunView {
    AutoRunView {
        cost_cents: saturating_sum(run.cost_cents, result.cost_cents),
        worker_results: run.worker_results.push(result),
        ..run
    }
}

/// A worker failed and the budget has room: the orchestrator is asked again.
pub open spec fn replan(task: TaskView, reason: Seq<char>) -> (ExecutorView, Seq<AgentEventView>) {
    (
        ExecutorView::BeforePlanning {
            task: TaskView {
                run: AutoRunView {
                    status: AutoStatus::Planning,
                    replans_used: (task.run.replans_used + 1) as u32,
                    ..task.run
                },
                current_version: (task.current_version + 1) as u32,
                replan_reason: Some(reason),
                ..task
            },
        },
        seq![replan_event(task.config, reason), planning_event(task.config)],
    )
}

/// Worker `next` of the plan finished.
pub open spec fn on_worker(task: TaskView, plan: PlanView, next: nat, result: WorkerResultView) -> (
    ExecutorView,
    Seq<AgentEventView>,
) {
    let noted = with_run(task, with_result(task.run, result));
    if result.status is Cancelled {
        finish_cancelled(noted)
    } else if result.status.is_hard_failure() {
        let reason = failure_reason(plan.workers[next as int], result);
        if task.run.replans_used >= task.config.replan_budget {
            finish_failed(noted, reason, Some(result.summary))
        } else {
            replan(noted, reason)
        }
    } else {
        let fed = TaskView { prior_results: task.prior_results.push(result), ..noted };
        if next + 1 < plan.workers.len() {
            (ExecutorView::BeforeWorker { task: fed, plan, next: next + 1 }, Seq::empty())
        } else {
            finish_done(fed, Some(result.summary))
        }
    }
}

/// The next state, and the events to emit on the way.
pub open spec fn step(s: ExecutorView, reply: ReplyView) -> (ExecutorView, Seq<AgentEventView>) {
    match (s, reply) {
        (ExecutorView::BeforePlanning { task }, ReplyView::CancelPolled { cancelled }) =>
        if cancelled {
            finish_cancelled(task)
        } else {
            (ExecutorView::Generating { task }, Seq::empty())
        },
        (ExecutorView::Generating { task }, ReplyView::PlanGenerated(outcome)) => on_plan(
            task,
            outcome,
        ),
        (
            ExecutorView::AwaitingApproval { task, plan },
            ReplyView::ApprovalAnswered(outcome),
        ) => on_approval(task, plan, outcome),
        (ExecutorView::BeforeWorker { task, plan, next }, ReplyView::CancelPolled { cancelled }) =>
        if cancelled {
            finish_cancelled(task)
        } else {
            (ExecutorView::RunningWorker { task, plan, next }, Seq::empty())
        },
        (
            ExecutorView::RunningWorker { task, plan, next },
            ReplyView::WorkerFinished(result),
        ) => on_worker(task, plan, next, result),
        _ => (s, Seq::empty()),
    }
}

/// The reply would start a plan whose version does not fit in 32 bits.
pub open spec fn exhausts_versions(task: TaskView, result: WorkerResultView) -> bool {
    &&& result.status.is_hard_failure()
    &&& task.run.replans_used < task.config.replan_budget
    &&& task.current_version == u32::MAX
}

/// The reply is one that the state waits for, and the step that it leads to can
/// be taken.
pub open spec fn accepts(s: ExecutorView, reply: ReplyView) -> bool {
    match (s, reply) {
        (ExecutorView::BeforePlanning { .. }, ReplyView::CancelPolled { .. }) => true,
        (ExecutorView::Generating { .. }, ReplyView::PlanGenerated(_)) => true,
        (ExecutorView::AwaitingApproval { .. }, ReplyView::ApprovalAnswered(_)) => true,
        (ExecutorView::BeforeWorker { .. }, ReplyView::CancelPolled { .. }) => true,
        (ExecutorView::RunningWorker { task, .. }, ReplyView::WorkerFinished(result)) =>
            !exhausts_versions(task, result),
        _ => false,
    }
}

/// What the executor wants done in a state.
pub open spec fn action_in(s: ExecutorView) -> ActionView {
    match s {
        ExecutorView::BeforePlanning { .. } => ActionView::PollCancel,
        ExecutorView::Generating { task } => ActionView::Generate(
            OrchestratorRequestView {
                task: task.config.task,
                worker_pool: task.config.worker_pool,
                prior_results: task.prior_results,
                replan_reason: task.replan_reason,
                plan_version: task.current_version,
            },
        ),
        ExecutorView::AwaitingApproval { plan, .. } => ActionView::Approve(plan),
        ExecutorView::BeforeWorker { .. } => ActionView::PollCancel,
        ExecutorView::RunningWorker { task, plan, next } => ActionView::RunWorker {
            spec: plan.workers[next as int],
            prior_results: task.prior_results,
        },
        ExecutorView::Finished { result, .. } => ActionView::Finish(result),
    }
}

/// The results of the workers that succeeded.
pub open spec fn successes(results: Seq<WorkerResultView>) -> Seq<WorkerResultView> {
    results.filter(|r: WorkerResultView| r.status is Success)
}

/// The sum of what the workers cost.
pub open spec fn cost_sum(results: Seq<WorkerResultView>) -> nat
    decreases results.len(),
{
    if results.len() == 0 {
        0
    } else {
        cost_sum(results.drop_last()) + results.last().cost_cents as nat
    }
}

/// What holds of the record in every state.
pub open spec fn ledger_adds_up(config: ExecutorConfigView, run: AutoRunView) -> bool {
    &&& run.id == config.auto_run_id
    &&& run.session_id == config.session_id
    &&& run.replans_used <= config.replan_budget
    &&& run.cost_cents == if cost_sum(run.worker_results) > u64::MAX {
        u64::MAX as nat
    } else {
        cost_sum(run.worker_results)
    }
}

/// What holds of a task between two steps, when `plans` plans have been made.
pub open spec fn task_invariant(task: TaskView, status: AutoStatus, plans: int) -> bool {
    &&& ledger_adds_up(task.config, task.run)
    &&& task.run.status == status
    &&& task.run.plan_versions.len() == plans
    &&& task.current_version == task.run.replans_used + 1
    &&& task.prior_results == successes(task.run.worker_results)
    &&& task.replan_reason is Some <==> task.current_version > 1
}

/// What holds of a task while a plan for it is made.
pub open spec fn planning_invariant(task: TaskView) -> bool {
    &&& task_invariant(task, AutoStatus::Planning, task.current_version - 1)
    &&& task.current_version == 1 ==> task.run.worker_results.len() == 0
}

/// What holds of a task while a plan of it waits or runs.
pub open spec fn plan_invariant(task: TaskView, plan: PlanView, status: AutoStatus) -> bool {
    &&& task_invariant(task, status, task.current_version as int)
    &&& task.run.plan_versions.last() == plan
}

/// What holds of the record of a task that is over.
pub open spec fn result_invariant(config: ExecutorConfigView, result: AutoResultView) -> bool {
    &&& ledger_adds_up(config, result.run())
    &&& result.run().replans_used <= result.run().plan_versions.len()
        <= result.run().replans_used + 1
    &&& result.run().status == match result {
        AutoResultView::Done { .. } => AutoStatus::Done,
        AutoResultView::Failed { .. } => AutoStatus::Failed,
        AutoResultView::Cancelled { .. } => AutoStatus::Cancelled,
    }
}

/// What holds in every state that the executor can get into.
pub open spec fn invariant_holds(s: ExecutorView) -> bool {
    match s {
        ExecutorView::BeforePlanning { task } => planning_invariant(task),
        ExecutorView::Generating { task } => planning_invariant(task),
        ExecutorView::AwaitingApproval { task, plan } => {
            &&& plan_invariant(task, plan, AutoStatus::AwaitingApproval)
            &&& task.current_version == 1
            &&& task.run.worker_results.len() == 0
        },
        ExecutorView::BeforeWorker { task, plan, next } => {
            &&& plan_invariant(task, plan, AutoStatus::Running)
            &&& next < plan.workers.len()
        },
        ExecutorView::RunningWorker { task, plan, next } => {
            &&& plan_invariant(task, plan, AutoStatus::Running)
            &&& next < plan.workers.len()
        },
        ExecutorView::Finished { config, result } => result_invariant(config, result),
    }
}

} // verus!
