//! The executor: carries an Auto task from its start to its result.
//!
//! It plans, waits for approval of the first plan, runs the plan's workers one
//! after the other, and on a hard failure asks the orchestrator for a new plan
//! as long as the replan budget lasts. A new plan is run from its first worker;
//! the orchestrator decides what it redoes. The results of the workers that
//! succeeded pile up over all plans and are shown to the orchestrator and to
//! later workers.
//!
//! [`Executor`] decides and never waits. [`Executor::action`] says what is to
//! be done next; whoever drives it does that, hands the outcome to
//! [`Executor::step`], and emits the events that come back, in their order,
//! before it looks at the next action.

use vstd::prelude::*;
use vstd::string::*;

use crate::executor_laws::lemma_step_keeps_invariant;
use crate::executor_model::{
    accepts, action_in, cancelled_result, done_event, done_result, enter_plan,
    exhausts_versions, failed_event, failed_result, failure_reason, finish_cancelled,
    finish_done, finish_failed, invariant_holds, new_run, on_approval, on_plan, on_worker,
    planning_event, replan, start, status_label_text, step, ActionView, ApprovalOutcome,
    ExecutorConfigView, ExecutorView, OrchestratorRequestView, PlanOutcomeView, ReplyView,
    TaskView, REASON_SUMMARY_CHARS,
};
use crate::text::truncate;
use crate::types::{
    AgentEvent, AgentEventView, AutoResult, AutoRun, AutoStatus, Plan, WorkerPoolEntry,
    WorkerResult, WorkerSpec, WorkerStatus,
};

verus! {

/// What the executor needs to know about a task.
#[derive(Debug)]
pub struct ExecutorConfig {
    pub task: String,
    pub auto_run_id: String,
    pub session_id: String,
    pub worker_pool: Vec<WorkerPoolEntry>,
    /// How often the orchestrator may be asked again after the first plan: it
    /// is asked at most once more than this. With 0 the first hard failure ends
    /// the task.
    pub replan_budget: u32,
}

impl DeepView for ExecutorConfig {
    type V = ExecutorConfigView;

    open spec fn deep_view(&self) -> ExecutorConfigView {
        ExecutorConfigView {
            task: self.task@,
            auto_run_id: self.auto_run_id@,
            session_id: self.session_id@,
            worker_pool: self.worker_pool.deep_view(),
            replan_budget: self.replan_budget,
        }
    }
}

/// What the orchestrator is told.
#[derive(Debug)]
pub struct OrchestratorRequest<'a> {
    pub task: &'a str,
    pub worker_pool: &'a [WorkerPoolEntry],
    pub prior_results: &'a [WorkerResult],
    pub replan_reason: Option<&'a str>,
    pub plan_version: u32,
}

impl<'a> DeepView for OrchestratorRequest<'a> {
    type V = OrchestratorRequestView;

    open spec fn deep_view(&self) -> OrchestratorRequestView {
        OrchestratorRequestView {
            task: self.task@,
            worker_pool: self.worker_pool.deep_view(),
            prior_results: self.prior_results.deep_view(),
            replan_reason: self.replan_reason.deep_view(),
            plan_version: self.plan_version,
        }
    }
}

/// What is to be done next.
#[derive(Debug)]
pub enum Action<'a> {
    /// Look whether the task was cancelled.
    PollCancel,
    /// Ask the orchestrator for a plan.
    Generate(OrchestratorRequest<'a>),
    /// Ask the user whether the plan may run.
    Approve(&'a Plan),
    /// Run a worker to its end.
    RunWorker { spec: &'a WorkerSpec, prior_results: &'a [WorkerResult] },
    /// Nothing: take the result.
    Finish(&'a AutoResult),
}

impl<'a> DeepView for Action<'a> {
    type V = ActionView;

    open spec fn deep_view(&self) -> ActionView {
        match self {
            Action::PollCancel => ActionView::PollCancel,
            Action::Generate(request) => ActionView::Generate(request.deep_view()),
            Action::Approve(plan) => ActionView::Approve(plan.deep_view()),
            Action::RunWorker { spec, prior_results } => ActionView::RunWorker {
                spec: spec.deep_view(),
                prior_results: prior_results.deep_view(),
            },
            Action::Finish(result) => ActionView::Finish(result.deep_view()),
        }
    }
}

/// What came of asking the orchestrator for a plan.
#[derive(Debug)]
pub enum PlanOutcome {
    Planned(Plan),
    Cancelled,
    /// The orchestrator gave up, with this message.
    Failed { message: String },
}

impl DeepView for PlanOutcome {
    type V = PlanOutcomeView;

    open spec fn deep_view(&self) -> PlanOutcomeView {
        match self {
            PlanOutcome::Planned(plan) => PlanOutcomeView::Planned(plan.deep_view()),
            PlanOutcome::Cancelled => PlanOutcomeView::Cancelled,
            PlanOutcome::Failed { message } => PlanOutcomeView::Failed { message: message@ },
        }
    }
}

/// What came of an action.
#[derive(Debug)]
pub enum Reply {
    CancelPolled { cancelled: bool },
    PlanGenerated(PlanOutcome),
    ApprovalAnswered(ApprovalOutcome),
    WorkerFinished(WorkerResult),
}

impl DeepView for Reply {
    type V = ReplyView;

    open spec fn deep_view(&self) -> ReplyView {
        match self {
            Reply::CancelPolled { cancelled } => ReplyView::CancelPolled { cancelled: *cancelled },
            Reply::PlanGenerated(outcome) => ReplyView::PlanGenerated(outcome.deep_view()),
            Reply::ApprovalAnswered(outcome) => ReplyView::ApprovalAnswered(*outcome),
            Reply::WorkerFinished(result) => ReplyView::WorkerFinished(result.deep_view()),
        }
    }
}

/// Lets every plan run without asking anyone.
#[derive(Debug, Clone, Copy)]
pub struct AutoApprove;

impl AutoApprove {
    /// Always yes.
    pub fn approve(&self, _plan: &Plan) -> (res: bool)
        ensures
            res,
    {
        true
    }
}

/// The record of a task that has not begun.
pub fn new_auto_run(id: &str, session_id: &str) -> (res: AutoRun)
    ensures
        res.deep_view() == new_run(id@, session_id@),
{
    let res = AutoRun {
        id: id.to_owned(),
        session_id: session_id.to_owned(),
        status: AutoStatus::Planning,
        plan_versions: Vec::new(),
        worker_results: Vec::new(),
        cost_cents: 0,
        replans_used: 0,
    };
    assert(res.plan_versions.deep_view() =~= Seq::empty());
    assert(res.worker_results.deep_view() =~= Seq::empty());
    res
}

/// Ends a task whose last plan ran to its end. The summary is the last
/// worker's, if a worker ran.
pub fn finalize_done(run: AutoRun, config: &ExecutorConfig, summary_hint: Option<String>) -> (res: (
    AutoResult,
    AgentEvent,
))
    ensures
        res.0.deep_view() == done_result(run.deep_view(), summary_hint.deep_view()),
        res.1.deep_view() == done_event(
            config.deep_view(),
            run.deep_view(),
            summary_hint.deep_view(),
        ),
{
    let mut run = run;
    run.status = AutoStatus::Done;
    let summary = match summary_hint {
        Some(summary) => summary,
        None => "Auto task complete.".to_owned(),
    };
    let event = AgentEvent::AutoDone {
        session_id: config.session_id.clone(),
        run_id: config.auto_run_id.clone(),
        summary: summary.clone(),
        total_cost_cents: run.cost_cents,
    };
    (AutoResult::Done { summary, run }, event)
}

/// Ends a task that failed.
pub fn finalize_failed(
    run: AutoRun,
    config: &ExecutorConfig,
    reason: String,
    last_worker_output: Option<String>,
) -> (res: (AutoResult, AgentEvent))
    ensures
        res.0.deep_view() == failed_result(run.deep_view(), reason@),
        res.1.deep_view() == failed_event(
            config.deep_view(),
            reason@,
            last_worker_output.deep_view(),
        ),
{
    let mut run = run;
    run.status = AutoStatus::Failed;
    let event = AgentEvent::AutoFailed {
        session_id: config.session_id.clone(),
        run_id: config.auto_run_id.clone(),
        reason: reason.clone(),
        last_worker_output,
    };
    (AutoResult::Failed { reason, run }, event)
}

/// Ends a task that was cancelled. No event goes with it: whoever cancelled
/// knows.
pub fn finalize_cancelled(run: AutoRun) -> (res: AutoResult)
    ensures
        res.deep_view() == cancelled_result(run.deep_view()),
{
    let mut run = run;
    run.status = AutoStatus::Cancelled;
    AutoResult::Cancelled { run }
}

/// The label of a worker status in messages.
pub fn status_label(s: &WorkerStatus) -> (res: &'static str)
    ensures
        res@ == status_label_text(s.deep_view()),
{
    match s {
        WorkerStatus::Success => "ok",
        WorkerStatus::MaxIterations => "max_iterations",
        WorkerStatus::ToolError { .. } => "tool_error",
        WorkerStatus::LlmError { .. } => "llm_error",
        WorkerStatus::Cancelled => "cancelled",
    }
}

/// The reason that a failed worker gives for a replan or for the task's
/// failure.
pub fn worker_failure_reason(spec: &WorkerSpec, result: &WorkerResult) -> (res: String)
    ensures
        res@ == failure_reason(spec.deep_view(), result.deep_view()),
{
    let mut res = "worker ".to_owned();
    res.append(spec.id.as_str());
    res.append(" (");
    res.append(spec.model.as_str());
    res.append(") failed [");
    res.append(status_label(&result.status));
    res.append("]: ");
    res.append(truncate(result.summary.as_str(), REASON_SUMMARY_CHARS).as_str());
    res
}

/// What a task in progress carries from step to step.
struct Task {
    config: ExecutorConfig,
    run: AutoRun,
    prior_results: Vec<WorkerResult>,
    current_version: u32,
    replan_reason: Option<String>,
}

impl DeepView for Task {
    type V = TaskView;

    closed spec fn deep_view(&self) -> TaskView {
        TaskView {
            config: self.config.deep_view(),
            run: self.run.deep_view(),
            prior_results: self.prior_results.deep_view(),
            current_version: self.current_version,
            replan_reason: self.replan_reason.deep_view(),
        }
    }
}

/// What the executor waits for.
enum Phase {
    BeforePlanning { task: Task },
    Generating { task: Task },
    AwaitingApproval { task: Task, plan: Plan },
    BeforeWorker { task: Task, plan: Plan, next: usize },
    RunningWorker { task: Task, plan: Plan, next: usize },
    Finished { config: ExecutorConfig, result: AutoResult },
}

impl DeepView for Phase {
    type V = ExecutorView;

    closed spec fn deep_view(&self) -> ExecutorView {
        match self {
            Phase::BeforePlanning { task } => ExecutorView::BeforePlanning {
                task: task.deep_view(),
            },
            Phase::Generating { task } => ExecutorView::Generating { task: task.deep_view() },
            Phase::AwaitingApproval { task, plan } => ExecutorView::AwaitingApproval {
                task: task.deep_view(),
                plan: plan.deep_view(),
            },
            Phase::BeforeWorker { task, plan, next } => ExecutorView::BeforeWorker {
                task: task.deep_view(),
                plan: plan.deep_view(),
                next: *next as nat,
            },
            Phase::RunningWorker { task, plan, next } => ExecutorView::RunningWorker {
                task: task.deep_view(),
                plan: plan.deep_view(),
                next: *next as nat,
            },
            Phase::Finished { config, result } => ExecutorView::Finished {
                config: config.deep_view(),
                result: result.deep_view(),
            },
        }
    }
}

/// A phase together with the events to emit.
spec fn entered(res: (Phase, Vec<AgentEvent>)) -> (ExecutorView, Seq<AgentEventView>) {
    (res.0.deep_view(), res.1.deep_view())
}

/// An Auto task between two steps. It is always in a state that a task can get
/// into: see [`invariant_holds`].
pub struct Executor {
    phase: Phase,
}

impl DeepView for Executor {
    type V = ExecutorView;

    closed spec fn deep_view(&self) -> ExecutorView {
        self.phase.deep_view()
    }
}

/// An executor together with the events to emit.
pub open spec fn stepped(res: (Executor, Vec<AgentEvent>)) -> (ExecutorView, Seq<AgentEventView>) {
    (res.0.deep_view(), res.1.deep_view())
}

impl Task {
    fn planning(&self) -> (res: AgentEvent)
        ensures
            res.deep_view() == planning_event(self.deep_view().config),
    {
        AgentEvent::AutoPlanning {
            session_id: self.config.session_id.clone(),
            run_id: self.config.auto_run_id.clone(),
        }
    }

    fn done(self, summary_hint: Option<String>) -> (res: (Phase, Vec<AgentEvent>))
        ensures
            entered(res) == finish_done(self.deep_view(), summary_hint.deep_view()),
    {
        let (result, event) = finalize_done(self.run, &self.config, summary_hint);
        let events = vec![event];
        assert(events.deep_view() =~= seq![event.deep_view()]);
        (Phase::Finished { config: self.config, result }, events)
    }

    fn failed(self, reason: String, last_worker_output: Option<String>) -> (res: (
        Phase,
        Vec<AgentEvent>,
    ))
        ensures
            entered(res) == finish_failed(
                self.deep_view(),
                reason@,
                last_worker_output.deep_view(),
            ),
    {
        let (result, event) = finalize_failed(self.run, &self.config, reason, last_worker_output);
        let events = vec![event];
        assert(events.deep_view() =~= seq![event.deep_view()]);
        (Phase::Finished { config: self.config, result }, events)
    }

    fn cancelled(self) -> (res: (Phase, Vec<AgentEvent>))
        ensures
            entered(res) == finish_cancelled(self.deep_view()),
    {
        let result = finalize_cancelled(self.run);
        let events: Vec<AgentEvent> = Vec::new();
        assert(events.deep_view() =~= Seq::empty());
        (Phase::Finished { config: self.config, result }, events)
    }

    fn run_plan(self, plan: Plan) -> (res: (Phase, Vec<AgentEvent>))
        ensures
            entered(res) == enter_plan(self.deep_view(), plan.deep_view()),
    {
        let mut task = self;
        task.run.status = AutoStatus::Running;
        if plan.workers.len() == 0 {
            return task.done(None);
        }
        let events: Vec<AgentEvent> = Vec::new();
        assert(events.deep_view() =~= Seq::empty());
        (Phase::BeforeWorker { task, plan, next: 0 }, events)
    }

    fn take_plan(self, outcome: PlanOutcome) -> (res: (Phase, Vec<AgentEvent>))
        ensures
            entered(res) == on_plan(self.deep_view(), outcome.deep_view()),
    {
        let plan = match outcome {
            PlanOutcome::Planned(plan) => plan,
            PlanOutcome::Cancelled => {
                return self.cancelled();
            },
            PlanOutcome::Failed { message } => {
                let mut reason = "orchestrator error: ".to_owned();
                reason.append(message.as_str());
                return self.failed(reason, None);
            },
        };
        let mut task = self;
        task.run.plan_versions.push(plan.clone());
        assert(task.run.plan_versions.deep_view() =~= self.run.plan_versions.deep_view().push(
            plan.deep_view(),
        ));
        let workers = plan.workers.clone();
        assert(workers.deep_view() =~= plan.workers.deep_view());
        let shown = AgentEvent::AutoPlan {
            session_id: task.config.session_id.clone(),
            run_id: task.config.auto_run_id.clone(),
            version: plan.version,
            reasoning: plan.reasoning.clone(),
            plan: workers,
        };
        if task.current_version == 1 {
            task.run.status = AutoStatus::AwaitingApproval;
            let asked = AgentEvent::AutoAwaitingApproval {
                session_id: task.config.session_id.clone(),
                run_id: task.config.auto_run_id.clone(),
            };
            let events = vec![shown, asked];
            assert(events.deep_view() =~= seq![shown.deep_view(), asked.deep_view()]);
            (Phase::AwaitingApproval { task, plan }, events)
        } else {
            let (phase, mut later) = task.run_plan(plan);
            let mut events = vec![shown];
            let ghost later_view = later.deep_view();
            events.append(&mut later);
            assert(events.deep_view() =~= seq![shown.deep_view()] + later_view);
            (phase, events)
        }
    }

    fn take_approval(self, plan: Plan, outcome: ApprovalOutcome) -> (res: (
        Phase,
        Vec<AgentEvent>,
    ))
        ensures
            entered(res) == on_approval(self.deep_view(), plan.deep_view(), outcome),
    {
        match outcome {
            ApprovalOutcome::Answered(approved) => {
                if approved {
                    self.run_plan(plan)
                } else {
                    self.failed("plan rejected by user".to_owned(), None)
                }
            },
            ApprovalOutcome::Cancelled => self.cancelled(),
        }
    }

    fn plan_again(self, reason: String) -> (res: (Phase, Vec<AgentEvent>))
        requires
            self.deep_view().run.replans_used < u32::MAX,
            self.deep_view().current_version < u32::MAX,
        ensures
            entered(res) == replan(self.deep_view(), reason@),
    {
        let mut task = self;
        task.run.status = AutoStatus::Planning;
        task.run.replans_used = task.run.replans_used + 1;
        task.current_version = task.current_version + 1;
        let announced = AgentEvent::AutoReplan {
            session_id: task.config.session_id.clone(),
            run_id: task.config.auto_run_id.clone(),
            reason: reason.clone(),
        };
        let planning = task.planning();
        task.replan_reason = Some(reason);
        let events = vec![announced, planning];
        assert(events.deep_view() =~= seq![announced.deep_view(), planning.deep_view()]);
        (Phase::BeforePlanning { task }, events)
    }

    fn take_result(self, plan: Plan, next: usize, result: WorkerResult) -> (res: (
        Phase,
        Vec<AgentEvent>,
    ))
        requires
            next < plan.deep_view().workers.len(),
            !exhausts_versions(self.deep_view(), result.deep_view()),
        ensures
            entered(res) == on_worker(
                self.deep_view(),
                plan.deep_view(),
                next as nat,
                result.deep_view(),
            ),
    {
        let mut task = self;
        let summary = result.summary.clone();
        task.run.cost_cents = task.run.cost_cents.saturating_add(result.cost_cents);
        task.run.worker_results.push(result.clone());
        assert(task.run.worker_results.deep_view() =~= self.run.worker_results.deep_view().push(
            result.deep_view(),
        ));
        if let WorkerStatus::Cancelled = result.status {
            return task.cancelled();
        }
        if result.status.is_hard_failure() {
            let reason = worker_failure_reason(&plan.workers[next], &result);
            if task.run.replans_used >= task.config.replan_budget {
                return task.failed(reason, Some(summary));
            }
            return task.plan_again(reason);
        }
        task.prior_results.push(result);
        assert(task.prior_results.deep_view() =~= self.prior_results.deep_view().push(
            result.deep_view(),
        ));
        let count: usize = plan.workers.len();
        assert(next < count);
        if next + 1 < count {
            let events: Vec<AgentEvent> = Vec::new();
            assert(events.deep_view() =~= Seq::empty());
            (Phase::BeforeWorker { task, plan, next: next + 1 }, events)
        } else {
            task.done(Some(summary))
        }
    }
}

impl Executor {
    #[verifier::type_invariant]
    spec fn can_be_reached(&self) -> bool {
        invariant_holds(self.deep_view())
    }

    /// Begins a task. The events come back with the executor.
    pub fn start(config: ExecutorConfig) -> (res: (Executor, Vec<AgentEvent>))
        ensures
            invariant_holds(res.0.deep_view()),
            stepped(res) == start(config.deep_view()),
    {
        let run = new_auto_run(config.auto_run_id.as_str(), config.session_id.as_str());
        let task = Task {
            config,
            run,
            prior_results: Vec::new(),
            current_version: 1,
            replan_reason: None,
        };
        let planning = task.planning();
        let events = vec![planning];
        assert(events.deep_view() =~= seq![planning.deep_view()]);
        assert(task.prior_results.deep_view() =~= Seq::empty());
        proof {
            reveal(Seq::filter);
        }
        (Executor { phase: Phase::BeforePlanning { task } }, events)
    }

    /// What is to be done next.
    pub fn action(&self) -> (res: Action<'_>)
        ensures
            res.deep_view() == action_in(self.deep_view()),
    {
        proof {
            use_type_invariant(self);
        }
        match &self.phase {
            Phase::BeforePlanning { .. } => Action::PollCancel,
            Phase::Generating { task } => {
                let replan_reason = match &task.replan_reason {
                    Some(reason) => Some(reason.as_str()),
                    None => None,
                };
                let request = OrchestratorRequest {
                    task: task.config.task.as_str(),
                    worker_pool: task.config.worker_pool.as_slice(),
                    prior_results: task.prior_results.as_slice(),
                    replan_reason,
                    plan_version: task.current_version,
                };
                assert(request.worker_pool.deep_view()
                    =~= task.config.worker_pool.deep_view());
                assert(request.prior_results.deep_view() =~= task.prior_results.deep_view());
                Action::Generate(request)
            },
            Phase::AwaitingApproval { plan, .. } => Action::Approve(plan),
            Phase::BeforeWorker { .. } => Action::PollCancel,
            Phase::RunningWorker { task, plan, next } => {
                let prior_results = task.prior_results.as_slice();
                assert(prior_results.deep_view() =~= task.prior_results.deep_view());
                Action::RunWorker { spec: &plan.workers[*next], prior_results }
            },
            Phase::Finished { result, .. } => Action::Finish(result),
        }
    }

    /// Whether the reply is one that the executor waits for. The one reply of
    /// the right kind that it does not accept is the failure of a worker of the
    /// plan with the largest version that 32 bits can hold, when the budget
    /// asks for another plan.
    pub fn accepts(&self, reply: &Reply) -> (res: bool)
        ensures
            res == accepts(self.deep_view(), reply.deep_view()),
    {
        match (&self.phase, reply) {
            (Phase::BeforePlanning { .. }, Reply::CancelPolled { .. }) => true,
            (Phase::Generating { .. }, Reply::PlanGenerated(_)) => true,
            (Phase::AwaitingApproval { .. }, Reply::ApprovalAnswered(_)) => true,
            (Phase::BeforeWorker { .. }, Reply::CancelPolled { .. }) => true,
            (Phase::RunningWorker { task, .. }, Reply::WorkerFinished(result)) => {
                !(result.status.is_hard_failure() && task.run.replans_used
                    < task.config.replan_budget && task.current_version == u32::MAX)
            },
            _ => false,
        }
    }

    /// Takes the reply to the action and moves on. The events are to be emitted
    /// in their order, before the next action.
    pub fn step(self, reply: Reply) -> (res: (Executor, Vec<AgentEvent>))
        requires
            accepts(self.deep_view(), reply.deep_view()),
        ensures
            invariant_holds(res.0.deep_view()),
            stepped(res) == step(self.deep_view(), reply.deep_view()),
    {
        proof {
            use_type_invariant(&self);
            lemma_step_keeps_invariant(self.deep_view(), reply.deep_view());
        }
        let silence: Vec<AgentEvent> = Vec::new();
        assert(silence.deep_view() =~= Seq::empty());
        let (phase, events) = match (self.phase, reply) {
            (Phase::BeforePlanning { task }, Reply::CancelPolled { cancelled }) => {
                if cancelled {
                    task.cancelled()
                } else {
                    (Phase::Generating { task }, silence)
                }
            },
            (Phase::Generating { task }, Reply::PlanGenerated(outcome)) => task.take_plan(outcome),
            (
                Phase::AwaitingApproval { task, plan },
                Reply::ApprovalAnswered(outcome),
            ) => task.take_approval(plan, outcome),
            (Phase::BeforeWorker { task, plan, next }, Reply::CancelPolled { cancelled }) => {
                if cancelled {
                    task.cancelled()
                } else {
                    (Phase::RunningWorker { task, plan, next }, silence)
                }
            },
            (
                Phase::RunningWorker { task, plan, next },
                Reply::WorkerFinished(result),
            ) => task.take_result(plan, next, result),
            (phase, _) => (phase, silence),
        };
        (Executor { phase }, events)
    }

    /// The result of a task that is over.
    pub fn into_result(self) -> (res: Option<AutoResult>)
        ensures
            res.deep_view() == match self.deep_view() {
                ExecutorView::Finished { result, .. } => Some(result),
                _ => None,
            },
    {
        match self.phase {
            Phase::Finished { result, .. } => Some(result),
            _ => None,
        }
    }
}

/// The model of a configuration tells all of it, the pool entry by entry.
pub proof fn law_model_of_config(x: ExecutorConfig)
    ensures
        x.deep_view().task == x.task@,
        x.deep_view().auto_run_id == x.auto_run_id@,
        x.deep_view().session_id == x.session_id@,
        x.deep_view().worker_pool.len() == x.worker_pool@.len(),
        forall|i: int|
            0 <= i < x.worker_pool@.len() ==> #[trigger] x.deep_view().worker_pool[i]
                == x.worker_pool@[i].deep_view(),
        x.deep_view().replan_budget == x.replan_budget,
{
}

/// The model of a request tells all that the orchestrator is told.
pub proof fn law_model_of_request<'a>(x: OrchestratorRequest<'a>)
    ensures
        x.deep_view().task == x.task@,
        x.deep_view().worker_pool.len() == x.worker_pool@.len(),
        forall|i: int|
            0 <= i < x.worker_pool@.len() ==> #[trigger] x.deep_view().worker_pool[i]
                == x.worker_pool@[i].deep_view(),
        x.deep_view().prior_results.len() == x.prior_results@.len(),
        forall|i: int|
            0 <= i < x.prior_results@.len() ==> #[trigger] x.deep_view().prior_results[i]
                == x.prior_results@[i].deep_view(),
        match x.replan_reason {
            Some(reason) => x.deep_view().replan_reason == Some(reason@),
            None => x.deep_view().replan_reason is None,
        },
        x.deep_view().plan_version == x.plan_version,
{
}

/// The model of an action tells the action, with all that goes with it.
pub proof fn law_model_of_action<'a>(x: Action<'a>)
    ensures
        match x {
            Action::PollCancel => x.deep_view() == ActionView::PollCancel,
            Action::Generate(request) => x.deep_view() == ActionView::Generate(
                request.deep_view(),
            ),
            Action::Approve(plan) => x.deep_view() == ActionView::Approve(plan.deep_view()),
            Action::RunWorker { spec, prior_results } => {
                &&& x.deep_view() matches ActionView::RunWorker { spec: s, prior_results: shown }
                &&& s == spec.deep_view()
                &&& shown.len() == prior_results@.len()
                &&& forall|i: int|
                    0 <= i < prior_results@.len() ==> #[trigger] shown[i]
                        == prior_results@[i].deep_view()
            },
            Action::Finish(result) => x.deep_view() == ActionView::Finish(result.deep_view()),
        },
{
}

/// The model of a reply tells the reply, with all that it brings.
pub proof fn law_model_of_reply(x: Reply)
    ensures
        match x {
            Reply::CancelPolled { cancelled } => x.deep_view() == (ReplyView::CancelPolled {
                cancelled,
            }),
            Reply::PlanGenerated(PlanOutcome::Planned(plan)) => x.deep_view()
                == ReplyView::PlanGenerated(PlanOutcomeView::Planned(plan.deep_view())),
            Reply::PlanGenerated(PlanOutcome::Cancelled) => x.deep_view()
                == ReplyView::PlanGenerated(PlanOutcomeView::Cancelled),
            Reply::PlanGenerated(PlanOutcome::Failed { message }) => x.deep_view()
                == ReplyView::PlanGenerated(PlanOutcomeView::Failed { message: message@ }),
            Reply::ApprovalAnswered(outcome) => x.deep_view() == ReplyView::ApprovalAnswered(
                outcome,
            ),
            Reply::WorkerFinished(result) => x.deep_view() == ReplyView::WorkerFinished(
                result.deep_view(),
            ),
        },
{
}

/// What a step comes to is the executor and the events that it gives back, one by
/// one.
pub proof fn law_step_gives_its_events(executor: Executor, events: Vec<AgentEvent>)
    ensures
        stepped((executor, events)).0 == executor.deep_view(),
        stepped((executor, events)).1.len() == events@.len(),
        forall|i: int|
            0 <= i < events@.len() ==> #[trigger] stepped((executor, events)).1[i]
                == events@[i].deep_view(),
{
}

} // verus!
