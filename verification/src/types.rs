//! The data of an Auto task and its mathematical models.
//!
//! Each type that holds text or a list has a model, the type of the same name
//! that ends in `View`; `deep_view` maps a value to it.

use vstd::prelude::*;

verus! {

/// A model as the user picks it: the provider and the provider's model name.
#[derive(Debug)]
pub struct ModelRef {
    pub provider_id: String,
    pub model: String,
}

/// Model of a [`ModelRef`].
pub struct ModelRefView {
    pub provider_id: Seq<char>,
    pub model: Seq<char>,
}

impl DeepView for ModelRef {
    type V = ModelRefView;

    open spec fn deep_view(&self) -> ModelRefView {
        ModelRefView {
            provider_id: self.provider_id@,
            model: self.model@,
        }
    }
}

impl Clone for ModelRef {
    fn clone(&self) -> (res: Self)
        ensures
            res.deep_view() == self.deep_view(),
    {
        ModelRef {
            provider_id: self.provider_id.clone(),
            model: self.model.clone(),
        }
    }
}

/// One model of the user's worker pool.
#[derive(Debug)]
pub struct WorkerPoolEntry {
    pub provider_id: String,
    pub model: String,
    /// What the user says the model is good for.
    pub description: String,
}

/// Model of a [`WorkerPoolEntry`].
pub struct WorkerPoolEntryView {
    pub provider_id: Seq<char>,
    pub model: Seq<char>,
    pub description: Seq<char>,
}

impl DeepView for WorkerPoolEntry {
    type V = WorkerPoolEntryView;

    open spec fn deep_view(&self) -> WorkerPoolEntryView {
        WorkerPoolEntryView {
            provider_id: self.provider_id@,
            model: self.model@,
            description: self.description@,
        }
    }
}

impl Clone for WorkerPoolEntry {
    fn clone(&self) -> (res: Self)
        ensures
            res.deep_view() == self.deep_view(),
    {
        WorkerPoolEntry {
            provider_id: self.provider_id.clone(),
            model: self.model.clone(),
            description: self.description.clone(),
        }
    }
}

/// What it takes to call a model.
#[derive(Debug)]
pub struct LlmClientConfig {
    pub provider: String,
    pub base_url: String,
    pub api_key: String,
    pub model: String,
    /// No cache markers are sent when this is set.
    pub disable_cache_control: bool,
}

/// Model of a [`LlmClientConfig`].
pub struct LlmClientConfigView {
    pub provider: Seq<char>,
    pub base_url: Seq<char>,
    pub api_key: Seq<char>,
    pub model: Seq<char>,
    pub disable_cache_control: bool,
}

impl DeepView for LlmClientConfig {
    type V = LlmClientConfigView;

    open spec fn deep_view(&self) -> LlmClientConfigView {
        LlmClientConfigView {
            provider: self.provider@,
            base_url: self.base_url@,
            api_key: self.api_key@,
            model: self.model@,
            disable_cache_control: self.disable_cache_control,
        }
    }
}

impl Clone for LlmClientConfig {
    fn clone(&self) -> (res: Self)
        ensures
            res.deep_view() == self.deep_view(),
    {
        LlmClientConfig {
            provider: self.provider.clone(),
            base_url: self.base_url.clone(),
            api_key: self.api_key.clone(),
            model: self.model.clone(),
            disable_cache_control: self.disable_cache_control,
        }
    }
}

/// The two shorthands of [`SeePrior`].
#[derive(Debug, Clone, Copy, PartialEq, Eq, Structural)]
pub enum SeePriorKeyword {
    Nothing,
    All,
}

/// Which earlier workers' outputs a worker may read.
#[derive(Debug)]
pub enum SeePrior {
    Keyword(SeePriorKeyword),
    /// The outputs of the workers with these ids.
    Workers(Vec<String>),
}

/// Model of a [`SeePrior`].
pub enum SeePriorView {
    Keyword(SeePriorKeyword),
    Workers(Seq<Seq<char>>),
}

impl DeepView for SeePrior {
    type V = SeePriorView;

    open spec fn deep_view(&self) -> SeePriorView {
        match self {
            SeePrior::Keyword(k) => SeePriorView::Keyword(*k),
            SeePrior::Workers(ids) => SeePriorView::Workers(ids.deep_view()),
        }
    }
}

impl Clone for SeePrior {
    fn clone(&self) -> (res: Self)
        ensures
            res.deep_view() == self.deep_view(),
    {
        match self {
            SeePrior::Keyword(k) => SeePrior::Keyword(*k),
            SeePrior::Workers(ids) => {
                let copied = ids.clone();
                assert(copied.deep_view() =~= ids.deep_view());
                SeePrior::Workers(copied)
            },
        }
    }
}

/// One step of a plan: which model runs which prompt, and what it may read.
#[derive(Debug)]
pub struct WorkerSpec {
    pub id: String,
    pub model: String,
    pub prompt: String,
    pub see_prior: SeePrior,
}

/// Model of a [`WorkerSpec`].
pub struct WorkerSpecView {
    pub id: Seq<char>,
    pub model: Seq<char>,
    pub prompt: Seq<char>,
    pub see_prior: SeePriorView,
}

impl DeepView for WorkerSpec {
    type V = WorkerSpecView;

    open spec fn deep_view(&self) -> WorkerSpecView {
        WorkerSpecView {
            id: self.id@,
            model: self.model@,
            prompt: self.prompt@,
            see_prior: self.see_prior.deep_view(),
        }
    }
}

impl Clone for WorkerSpec {
    fn clone(&self) -> (res: Self)
        ensures
            res.deep_view() == self.deep_view(),
    {
        WorkerSpec {
            id: self.id.clone(),
            model: self.model.clone(),
            prompt: self.prompt.clone(),
            see_prior: self.see_prior.clone(),
        }
    }
}

/// What the orchestrator returns: the workers, in the order in which they run.
#[derive(Debug)]
pub struct Plan {
    pub version: u32,
    pub reasoning: String,
    pub workers: Vec<WorkerSpec>,
}

/// Model of a [`Plan`].
pub struct PlanView {
    pub version: u32,
    pub reasoning: Seq<char>,
    pub workers: Seq<WorkerSpecView>,
}

impl DeepView for Plan {
    type V = PlanView;

    open spec fn deep_view(&self) -> PlanView {
        PlanView {
            version: self.version,
            reasoning: self.reasoning@,
            workers: self.workers.deep_view(),
        }
    }
}

impl Clone for Plan {
    fn clone(&self) -> (res: Self)
        ensures
            res.deep_view() == self.deep_view(),
    {
        let res = Plan {
            version: self.version,
            reasoning: self.reasoning.clone(),
            workers: self.workers.clone(),
        };
        assert(res.workers.deep_view() =~= self.workers.deep_view());
        res
    }
}

/// How a worker ended.
#[derive(Debug)]
pub enum WorkerStatus {
    Success,
    MaxIterations,
    ToolError { message: String },
    LlmError { message: String },
    Cancelled,
}

/// Model of a [`WorkerStatus`].
pub enum WorkerStatusView {
    Success,
    MaxIterations,
    ToolError { message: Seq<char> },
    LlmError { message: Seq<char> },
    Cancelled,
}

impl WorkerStatusView {
    /// The worker ran and did not succeed, and nobody stopped it.
    pub open spec fn is_hard_failure(self) -> bool {
        self is MaxIterations || self is ToolError || self is LlmError
    }
}

impl DeepView for WorkerStatus {
    type V = WorkerStatusView;

    open spec fn deep_view(&self) -> WorkerStatusView {
        match self {
            WorkerStatus::Success => WorkerStatusView::Success,
            WorkerStatus::MaxIterations => WorkerStatusView::MaxIterations,
            WorkerStatus::ToolError { message } => WorkerStatusView::ToolError {
                message: message@,
            },
            WorkerStatus::LlmError { message } => WorkerStatusView::LlmError { message: message@ },
            WorkerStatus::Cancelled => WorkerStatusView::Cancelled,
        }
    }
}

impl Clone for WorkerStatus {
    fn clone(&self) -> (res: Self)
        ensures
            res.deep_view() == self.deep_view(),
    {
        match self {
            WorkerStatus::Success => WorkerStatus::Success,
            WorkerStatus::MaxIterations => WorkerStatus::MaxIterations,
            WorkerStatus::ToolError { message } => WorkerStatus::ToolError {
                message: message.clone(),
            },
            WorkerStatus::LlmError { message } => WorkerStatus::LlmError {
                message: message.clone(),
            },
            WorkerStatus::Cancelled => WorkerStatus::Cancelled,
        }
    }
}

impl WorkerStatus {
    /// Whether the plan cannot go on after this worker: it ran into its
    /// iteration limit, a tool error or a model error. A cancelled worker is
    /// not a failure.
    pub fn is_hard_failure(&self) -> (res: bool)
        ensures
            res == self.deep_view().is_hard_failure(),
    {
        match self {
            WorkerStatus::Success => false,
            WorkerStatus::MaxIterations => true,
            WorkerStatus::ToolError { .. } => true,
            WorkerStatus::LlmError { .. } => true,
            WorkerStatus::Cancelled => false,
        }
    }
}

/// What a worker leaves behind.
#[derive(Debug)]
pub struct WorkerResult {
    pub id: String,
    pub model: String,
    pub prompt: String,
    pub summary: String,
    pub tool_count: u32,
    pub cost_cents: u64,
    pub status: WorkerStatus,
}

/// Model of a [`WorkerResult`].
pub struct WorkerResultView {
    pub id: Seq<char>,
    pub model: Seq<char>,
    pub prompt: Seq<char>,
    pub summary: Seq<char>,
    pub tool_count: u32,
    pub cost_cents: u64,
    pub status: WorkerStatusView,
}

impl DeepView for WorkerResult {
    type V = WorkerResultView;

    open spec fn deep_view(&self) -> WorkerResultView {
        WorkerResultView {
            id: self.id@,
            model: self.model@,
            prompt: self.prompt@,
            summary: self.summary@,
            tool_count: self.tool_count,
            cost_cents: self.cost_cents,
            status: self.status.deep_view(),
        }
    }
}

impl Clone for WorkerResult {
    fn clone(&self) -> (res: Self)
        ensures
            res.deep_view() == self.deep_view(),
    {
        WorkerResult {
            id: self.id.clone(),
            model: self.model.clone(),
            prompt: self.prompt.clone(),
            summary: self.summary.clone(),
            tool_count: self.tool_count,
            cost_cents: self.cost_cents,
            status: self.status.clone(),
        }
    }
}

/// Where an Auto task stands.
#[derive(Debug, Clone, Copy, PartialEq, Eq, Structural)]
pub enum AutoStatus {
    Planning,
    AwaitingApproval,
    Running,
    Done,
    Failed,
    Cancelled,
}

/// The persisted record of one Auto task.
#[derive(Debug)]
pub struct AutoRun {
    pub id: String,
    pub session_id: String,
    pub status: AutoStatus,
    /// Every plan that the orchestrator returned, oldest first.
    pub plan_versions: Vec<Plan>,
    /// Every worker that ran, in order, whatever became of it.
    pub worker_results: Vec<WorkerResult>,
    pub cost_cents: u64,
    pub replans_used: u32,
}

/// Model of a [`AutoRun`].
pub struct AutoRunView {
    pub id: Seq<char>,
    pub session_id: Seq<char>,
    pub status: AutoStatus,
    pub plan_versions: Seq<PlanView>,
    pub worker_results: Seq<WorkerResultView>,
    pub cost_cents: u64,
    pub replans_used: u32,
}

impl DeepView for AutoRun {
    type V = AutoRunView;

    open spec fn deep_view(&self) -> AutoRunView {
        AutoRunView {
            id: self.id@,
            session_id: self.session_id@,
            status: self.status,
            plan_versions: self.plan_versions.deep_view(),
            worker_results: self.worker_results.deep_view(),
            cost_cents: self.cost_cents,
            replans_used: self.replans_used,
        }
    }
}

impl Clone for AutoRun {
    fn clone(&self) -> (res: Self)
        ensures
            res.deep_view() == self.deep_view(),
    {
        let res = AutoRun {
            id: self.id.clone(),
            session_id: self.session_id.clone(),
            status: self.status,
            plan_versions: self.plan_versions.clone(),
            worker_results: self.worker_results.clone(),
            cost_cents: self.cost_cents,
            replans_used: self.replans_used,
        };
        assert(res.plan_versions.deep_view() =~= self.plan_versions.deep_view());
        assert(res.worker_results.deep_view() =~= self.worker_results.deep_view());
        res
    }
}

/// How an Auto task ended.
#[derive(Debug)]
pub enum AutoResult {
    Done { summary: String, run: AutoRun },
    Failed { reason: String, run: AutoRun },
    Cancelled { run: AutoRun },
}

/// Model of an [`AutoResult`].
pub enum AutoResultView {
    Done { summary: Seq<char>, run: AutoRunView },
    Failed { reason: Seq<char>, run: AutoRunView },
    Cancelled { run: AutoRunView },
}

impl AutoResultView {
    /// The record that the task ended with.
    pub open spec fn run(self) -> AutoRunView {
        match self {
            AutoResultView::Done { run, .. } => run,
            AutoResultView::Failed { run, .. } => run,
            AutoResultView::Cancelled { run } => run,
        }
    }
}

impl DeepView for AutoResult {
    type V = AutoResultView;

    open spec fn deep_view(&self) -> AutoResultView {
        match self {
            AutoResult::Done { summary, run } => AutoResultView::Done {
                summary: summary@,
                run: run.deep_view(),
            },
            AutoResult::Failed { reason, run } => AutoResultView::Failed {
                reason: reason@,
                run: run.deep_view(),
            },
            AutoResult::Cancelled { run } => AutoResultView::Cancelled { run: run.deep_view() },
        }
    }
}

impl AutoResult {
    /// The terminal record, which is what gets persisted when the task is over.
    pub fn final_run(&self) -> (res: AutoRun)
        ensures
            res.deep_view() == self.deep_view().run(),
    {
        match self {
            AutoResult::Done { run, .. } => run.clone(),
            AutoResult::Failed { run, .. } => run.clone(),
            AutoResult::Cancelled { run } => run.clone(),
        }
    }
}

/// What the executor tells the interface while a task runs.
#[derive(Debug)]
pub enum AgentEvent {
    AutoPlanning { session_id: String, run_id: String },
    AutoPlan {
        session_id: String,
        run_id: String,
        version: u32,
        reasoning: String,
        plan: Vec<WorkerSpec>,
    },
    AutoAwaitingApproval { session_id: String, run_id: String },
    AutoReplan { session_id: String, run_id: String, reason: String },
    AutoDone { session_id: String, run_id: String, summary: String, total_cost_cents: u64 },
    AutoFailed {
        session_id: String,
        run_id: String,
        reason: String,
        last_worker_output: Option<String>,
    },
}

/// Model of an [`AgentEvent`].
pub enum AgentEventView {
    AutoPlanning { session_id: Seq<char>, run_id: Seq<char> },
    AutoPlan {
        session_id: Seq<char>,
        run_id: Seq<char>,
        version: u32,
        reasoning: Seq<char>,
        plan: Seq<WorkerSpecView>,
    },
    AutoAwaitingApproval { session_id: Seq<char>, run_id: Seq<char> },
    AutoReplan { session_id: Seq<char>, run_id: Seq<char>, reason: Seq<char> },
    AutoDone {
        session_id: Seq<char>,
        run_id: Seq<char>,
        summary: Seq<char>,
        total_cost_cents: u64,
    },
    AutoFailed {
        session_id: Seq<char>,
        run_id: Seq<char>,
        reason: Seq<char>,
        last_worker_output: Option<Seq<char>>,
    },
}

impl AgentEventView {
    /// The event says that the task is over.
    pub open spec fn is_terminal(self) -> bool {
        self is AutoDone || self is AutoFailed
    }

    /// The session that the event belongs to.
    pub open spec fn session(self) -> Seq<char> {
        match self {
            AgentEventView::AutoPlanning { session_id, .. } => session_id,
            AgentEventView::AutoPlan { session_id, .. } => session_id,
            AgentEventView::AutoAwaitingApproval { session_id, .. } => session_id,
            AgentEventView::AutoReplan { session_id, .. } => session_id,
            AgentEventView::AutoDone { session_id, .. } => session_id,
            AgentEventView::AutoFailed { session_id, .. } => session_id,
        }
    }

    /// The task that the event belongs to.
    pub open spec fn task(self) -> Seq<char> {
        match self {
            AgentEventView::AutoPlanning { run_id, .. } => run_id,
            AgentEventView::AutoPlan { run_id, .. } => run_id,
            AgentEventView::AutoAwaitingApproval { run_id, .. } => run_id,
            AgentEventView::AutoReplan { run_id, .. } => run_id,
            AgentEventView::AutoDone { run_id, .. } => run_id,
            AgentEventView::AutoFailed { run_id, .. } => run_id,
        }
    }
}

impl DeepView for AgentEvent {
    type V = AgentEventView;

    open spec fn deep_view(&self) -> AgentEventView {
        match self {
            AgentEvent::AutoPlanning { session_id, run_id } => AgentEventView::AutoPlanning {
                session_id: session_id@,
                run_id: run_id@,
            },
            AgentEvent::AutoPlan { session_id, run_id, version, reasoning, plan } =>
                AgentEventView::AutoPlan {
                session_id: session_id@,
                run_id: run_id@,
                version: *version,
                reasoning: reasoning@,
                plan: plan.deep_view(),
            },
            AgentEvent::AutoAwaitingApproval { session_id, run_id } =>
                AgentEventView::AutoAwaitingApproval { session_id: session_id@, run_id: run_id@ },
            AgentEvent::AutoReplan { session_id, run_id, reason } => AgentEventView::AutoReplan {
                session_id: session_id@,
                run_id: run_id@,
                reason: reason@,
            },
            AgentEvent::AutoDone { session_id, run_id, summary, total_cost_cents } =>
                AgentEventView::AutoDone {
                session_id: session_id@,
                run_id: run_id@,
                summary: summary@,
                total_cost_cents: *total_cost_cents,
            },
            AgentEvent::AutoFailed { session_id, run_id, reason, last_worker_output } =>
                AgentEventView::AutoFailed {
                session_id: session_id@,
                run_id: run_id@,
                reason: reason@,
                last_worker_output: last_worker_output.deep_view(),
            },
        }
    }
}

/// Which statuses are hard failures: the three errors, whatever their message.
pub proof fn law_hard_failures(status: WorkerStatusView)
    ensures
        match status {
            WorkerStatusView::Success => !status.is_hard_failure(),
            WorkerStatusView::MaxIterations => status.is_hard_failure(),
            WorkerStatusView::ToolError { message } => status.is_hard_failure(),
            WorkerStatusView::LlmError { message } => status.is_hard_failure(),
            WorkerStatusView::Cancelled => !status.is_hard_failure(),
        },
{
}

/// The record of a result is the one that the result holds, however the task
/// ended.
pub proof fn law_record_of_a_result(text: Seq<char>, run: AutoRunView)
    ensures
        (AutoResultView::Done { summary: text, run }).run() == run,
        (AutoResultView::Failed { reason: text, run }).run() == run,
        (AutoResultView::Cancelled { run }).run() == run,
{
}

/// The model of a picked model tells both its texts.
pub proof fn law_model_of_model_ref(x: ModelRef)
    ensures
        x.deep_view().provider_id == x.provider_id@,
        x.deep_view().model == x.model@,
{
}

/// The model of a pool entry tells its three texts.
pub proof fn law_model_of_pool_entry(x: WorkerPoolEntry)
    ensures
        x.deep_view().provider_id == x.provider_id@,
        x.deep_view().model == x.model@,
        x.deep_view().description == x.description@,
{
}

/// The model of a model call tells all that the call takes.
pub proof fn law_model_of_llm_config(x: LlmClientConfig)
    ensures
        x.deep_view().provider == x.provider@,
        x.deep_view().base_url == x.base_url@,
        x.deep_view().api_key == x.api_key@,
        x.deep_view().model == x.model@,
        x.deep_view().disable_cache_control == x.disable_cache_control,
{
}

/// The model of what a worker may read tells the keyword, or the ids one by one.
pub proof fn law_model_of_see_prior(x: SeePrior)
    ensures
        match x {
            SeePrior::Keyword(k) => x.deep_view() == SeePriorView::Keyword(k),
            SeePrior::Workers(ids) => {
                &&& x.deep_view() matches SeePriorView::Workers(names)
                &&& names.len() == ids@.len()
                &&& forall|i: int| 0 <= i < ids@.len() ==> #[trigger] names[i] == ids@[i]@
            },
        },
{
}

/// The model of a worker tells its id, model and prompt, and what it may read.
pub proof fn law_model_of_worker_spec(x: WorkerSpec)
    ensures
        x.deep_view().id == x.id@,
        x.deep_view().model == x.model@,
        x.deep_view().prompt == x.prompt@,
        x.deep_view().see_prior == x.see_prior.deep_view(),
{
}

/// The model of a plan tells its version, its reasoning and its workers, one by
/// one.
pub proof fn law_model_of_plan(x: Plan)
    ensures
        x.deep_view().version == x.version,
        x.deep_view().reasoning == x.reasoning@,
        x.deep_view().workers.len() == x.workers@.len(),
        forall|i: int|
            0 <= i < x.workers@.len() ==> #[trigger] x.deep_view().workers[i]
                == x.workers@[i].deep_view(),
{
}

/// The model of a worker status tells the status, with its message.
pub proof fn law_model_of_worker_status(x: WorkerStatus)
    ensures
        match x {
            WorkerStatus::Success => x.deep_view() == WorkerStatusView::Success,
            WorkerStatus::MaxIterations => x.deep_view() == WorkerStatusView::MaxIterations,
            WorkerStatus::ToolError { message } => x.deep_view() == (WorkerStatusView::ToolError {
                message: message@,
            }),
            WorkerStatus::LlmError { message } => x.deep_view() == (WorkerStatusView::LlmError {
                message: message@,
            }),
            WorkerStatus::Cancelled => x.deep_view() == WorkerStatusView::Cancelled,
        },
{
}

/// The model of a worker's result tells all that the worker left behind.
pub proof fn law_model_of_worker_result(x: WorkerResult)
    ensures
        x.deep_view().id == x.id@,
        x.deep_view().model == x.model@,
        x.deep_view().prompt == x.prompt@,
        x.deep_view().summary == x.summary@,
        x.deep_view().tool_count == x.tool_count,
        x.deep_view().cost_cents == x.cost_cents,
        x.deep_view().status == x.status.deep_view(),
{
}

/// The model of a record tells all that is persisted, plans and results one by
/// one.
pub proof fn law_model_of_auto_run(x: AutoRun)
    ensures
        x.deep_view().id == x.id@,
        x.deep_view().session_id == x.session_id@,
        x.deep_view().status == x.status,
        x.deep_view().plan_versions.len() == x.plan_versions@.len(),
        forall|i: int|
            0 <= i < x.plan_versions@.len() ==> #[trigger] x.deep_view().plan_versions[i]
                == x.plan_versions@[i].deep_view(),
        x.deep_view().worker_results.len() == x.worker_results@.len(),
        forall|i: int|
            0 <= i < x.worker_results@.len() ==> #[trigger] x.deep_view().worker_results[i]
                == x.worker_results@[i].deep_view(),
        x.deep_view().cost_cents == x.cost_cents,
        x.deep_view().replans_used == x.replans_used,
{
}

/// The model of a result tells how the task ended, with its text and its record.
pub proof fn law_model_of_auto_result(x: AutoResult)
    ensures
        match x {
            AutoResult::Done { summary, run } => x.deep_view() == (AutoResultView::Done {
                summary: summary@,
                run: run.deep_view(),
            }),
            AutoResult::Failed { reason, run } => x.deep_view() == (AutoResultView::Failed {
                reason: reason@,
                run: run.deep_view(),
            }),
            AutoResult::Cancelled { run } => x.deep_view() == (AutoResultView::Cancelled {
                run: run.deep_view(),
            }),
        },
{
}

/// The model of an event tells all that the event tells.
pub proof fn law_model_of_event(x: AgentEvent)
    ensures
        match x {
            AgentEvent::AutoPlanning { session_id, run_id } => x.deep_view() == (
            AgentEventView::AutoPlanning { session_id: session_id@, run_id: run_id@ }),
            AgentEvent::AutoPlan { session_id, run_id, version, reasoning, plan } => {
                &&& x.deep_view() == (AgentEventView::AutoPlan {
                    session_id: session_id@,
                    run_id: run_id@,
                    version,
                    reasoning: reasoning@,
                    plan: plan.deep_view(),
                })
                &&& plan.deep_view().len() == plan@.len()
                &&& forall|i: int|
                    0 <= i < plan@.len() ==> #[trigger] plan.deep_view()[i]
                        == plan@[i].deep_view()
            },
            AgentEvent::AutoAwaitingApproval { session_id, run_id } => x.deep_view() == (
            AgentEventView::AutoAwaitingApproval { session_id: session_id@, run_id: run_id@ }),
            AgentEvent::AutoReplan { session_id, run_id, reason } => x.deep_view() == (
            AgentEventView::AutoReplan {
                session_id: session_id@,
                run_id: run_id@,
                reason: reason@,
            }),
            AgentEvent::AutoDone { session_id, run_id, summary, total_cost_cents } => x.deep_view()
                == (AgentEventView::AutoDone {
                session_id: session_id@,
                run_id: run_id@,
                summary: summary@,
                total_cost_cents,
            }),
            AgentEvent::AutoFailed { session_id, run_id, reason, last_worker_output } => {
                &&& x.deep_view() matches AgentEventView::AutoFailed {
                    session_id: session,
                    run_id: task,
                    reason: why,
                    last_worker_output: said,
                }
                &&& session == session_id@
                &&& task == run_id@
                &&& why == reason@
                &&& match last_worker_output {
                    Some(output) => said == Some(output@),
                    None => said is None,
                }
            },
        },
{
}

/// The session and the task of an event are the ones that it names, and the two
/// events that end a task are the terminal ones.
pub proof fn law_event_names_its_task(x: AgentEventView)
    ensures
        match x {
            AgentEventView::AutoPlanning { session_id, run_id } => x.session() == session_id
                && x.task() == run_id && !x.is_terminal(),
            AgentEventView::AutoPlan { session_id, run_id, .. } => x.session() == session_id
                && x.task() == run_id && !x.is_terminal(),
            AgentEventView::AutoAwaitingApproval { session_id, run_id } => x.session()
                == session_id && x.task() == run_id && !x.is_terminal(),
            AgentEventView::AutoReplan { session_id, run_id, .. } => x.session() == session_id
                && x.task() == run_id && !x.is_terminal(),
            AgentEventView::AutoDone { session_id, run_id, .. } => x.session() == session_id
                && x.task() == run_id && x.is_terminal(),
            AgentEventView::AutoFailed { session_id, run_id, .. } => x.session() == session_id
                && x.task() == run_id && x.is_terminal(),
        },
{
}

} // verus!
