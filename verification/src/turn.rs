//! The preparation of an Auto turn: what a user's message becomes before the
//! executor starts.

use vstd::prelude::*;
use vstd::string::*;

use crate::executor::{new_auto_run, ExecutorConfig};
use crate::executor_model::{new_run, ExecutorConfigView};
use crate::settings::{AutoSettings, AutoSettingsView};
use crate::types::{
    AutoRun, AutoRunView, LlmClientConfig, LlmClientConfigView, ModelRef, ModelRefView,
    WorkerPoolEntry, WorkerPoolEntryView,
};

verus! {

/// How many iterations a worker gets, the same as an ordinary agent run.
pub const WORKER_MAX_ITERATIONS: u32 = 100;

/// `c` is a hexadecimal digit, in lower case.
pub open spec fn is_hex(c: char) -> bool {
    '0' <= c <= '9' || 'a' <= c <= 'f'
}

/// A hyphen stands at this place of an id.
pub open spec fn is_hyphen_place(i: int) -> bool {
    i == 8 || i == 13 || i == 18 || i == 23
}

/// `id` is a random (version 4) UUID in its usual form: groups of 8, 4, 4, 4 and
/// 12 hexadecimal digits, with the version and the variant in their places.
pub open spec fn is_run_id(id: Seq<char>) -> bool {
    &&& id.len() == 36
    &&& forall|i: int|
        0 <= i < 36 ==> if is_hyphen_place(i) {
            #[trigger] id[i] == '-'
        } else {
            is_hex(id[i])
        }
    &&& id[14] == '4'
    &&& (id[19] == '8' || id[19] == '9' || id[19] == 'a' || id[19] == 'b')
}

/// Calls `uuid::Uuid::new_v4` and writes the id down with its `Display`: the
/// text is a version 4 UUID in lower case, with hyphens. The other digits are
/// random. If the system has no random bytes to give, `new_v4` panics.
#[verifier::external_body]
pub(crate) fn random_run_id() -> (res: String)
    ensures
        is_run_id(res@),
{
    uuid::Uuid::new_v4().to_string()
}

/// Settings with which a task can be started.
#[derive(Debug)]
pub struct ReadySettings {
    pub orchestrator: ModelRef,
    pub worker_pool: Vec<WorkerPoolEntry>,
    pub replan_budget: u32,
}

/// Model of [`ReadySettings`].
pub struct ReadySettingsView {
    pub orchestrator: ModelRefView,
    pub worker_pool: Seq<WorkerPoolEntryView>,
    pub replan_budget: u32,
}

impl DeepView for ReadySettings {
    type V = ReadySettingsView;

    open spec fn deep_view(&self) -> ReadySettingsView {
        ReadySettingsView {
            orchestrator: self.orchestrator.deep_view(),
            worker_pool: self.worker_pool.deep_view(),
            replan_budget: self.replan_budget,
        }
    }
}

/// The settings, if a task can be started with them, or what is missing.
pub open spec fn ready(settings: AutoSettingsView) -> Result<ReadySettingsView, Seq<char>> {
    match settings.orchestrator {
        None => Err("Auto mode: orchestrator model not configured in Settings → Auto"@),
        Some(orchestrator) => if settings.worker_pool.len() == 0 {
            Err("Auto mode: worker pool is empty in Settings → Auto"@)
        } else {
            Ok(
                ReadySettingsView {
                    orchestrator,
                    worker_pool: settings.worker_pool,
                    replan_budget: settings.replan_budget,
                },
            )
        },
    }
}

/// Checks that a task can be started: an orchestrator model is picked and there
/// is a model for workers.
pub fn validate_auto_settings(settings: AutoSettings) -> (res: Result<ReadySettings, String>)
    ensures
        match res {
            Ok(r) => ready(settings.deep_view()) == Ok::<ReadySettingsView, Seq<char>>(
                r.deep_view(),
            ),
            Err(e) => ready(settings.deep_view()) == Err::<ReadySettingsView, Seq<char>>(e@),
        },
{
    match settings.orchestrator {
        None => Err(
            "Auto mode: orchestrator model not configured in Settings → Auto".to_owned(),
        ),
        Some(orchestrator) => {
            if settings.worker_pool.len() == 0 {
                return Err("Auto mode: worker pool is empty in Settings → Auto".to_owned());
            }
            Ok(
                ReadySettings {
                    orchestrator,
                    worker_pool: settings.worker_pool,
                    replan_budget: settings.replan_budget,
                },
            )
        },
    }
}

/// Makes plans with a model.
#[derive(Debug)]
pub struct LlmPlanGenerator {
    pub llm: LlmClientConfig,
}

/// What every worker of a task is started with.
#[derive(Debug)]
pub struct WorkerContext {
    pub session_id: String,
    pub run_id: String,
    pub working_dir: String,
    /// The model call that a worker starts from; its own model name goes in.
    pub llm_base_config: LlmClientConfig,
    /// The model that shortens a worker's history, if not the worker's own.
    pub compaction_llm: Option<LlmClientConfig>,
    pub max_iterations: u32,
    /// The repository that a context engine would search.
    pub context_engine_repo_path: Option<String>,
    /// Where a worker's checkpoints would go.
    pub checkpoint_dir: Option<String>,
}

/// Model of a [`WorkerContext`].
pub struct WorkerContextView {
    pub session_id: Seq<char>,
    pub run_id: Seq<char>,
    pub working_dir: Seq<char>,
    pub llm_base_config: LlmClientConfigView,
    pub compaction_llm: Option<LlmClientConfigView>,
    pub max_iterations: u32,
    pub context_engine_repo_path: Option<Seq<char>>,
    pub checkpoint_dir: Option<Seq<char>>,
}

impl DeepView for WorkerContext {
    type V = WorkerContextView;

    open spec fn deep_view(&self) -> WorkerContextView {
        WorkerContextView {
            session_id: self.session_id@,
            run_id: self.run_id@,
            working_dir: self.working_dir@,
            llm_base_config: self.llm_base_config.deep_view(),
            compaction_llm: self.compaction_llm.deep_view(),
            max_iterations: self.max_iterations,
            context_engine_repo_path: self.context_engine_repo_path.deep_view(),
            checkpoint_dir: self.checkpoint_dir.deep_view(),
        }
    }
}

/// Runs workers.
#[derive(Debug)]
pub struct LiveWorkerRunner {
    pub ctx: WorkerContext,
}

/// All that it takes to start a task.
#[derive(Debug)]
pub struct AutoTurn {
    pub run_id: String,
    pub plan_gen: LlmPlanGenerator,
    pub runner: LiveWorkerRunner,
    pub config: ExecutorConfig,
    /// The record to persist before the task starts.
    pub initial_run: AutoRun,
}

/// Model of an [`AutoTurn`].
pub struct AutoTurnView {
    pub run_id: Seq<char>,
    pub plan_llm: LlmClientConfigView,
    pub worker: WorkerContextView,
    pub config: ExecutorConfigView,
    pub initial_run: AutoRunView,
}

impl DeepView for AutoTurn {
    type V = AutoTurnView;

    open spec fn deep_view(&self) -> AutoTurnView {
        AutoTurnView {
            run_id: self.run_id@,
            plan_llm: self.plan_gen.llm.deep_view(),
            worker: self.runner.ctx.deep_view(),
            config: self.config.deep_view(),
            initial_run: self.initial_run.deep_view(),
        }
    }
}

/// What the user sends.
#[derive(Debug)]
pub struct TurnRequest {
    pub session_id: String,
    /// The folder that the workers work in.
    pub folder: String,
    pub message: String,
}

/// Model of a [`TurnRequest`].
pub struct TurnRequestView {
    pub session_id: Seq<char>,
    pub folder: Seq<char>,
    pub message: Seq<char>,
}

impl DeepView for TurnRequest {
    type V = TurnRequestView;

    open spec fn deep_view(&self) -> TurnRequestView {
        TurnRequestView {
            session_id: self.session_id@,
            folder: self.folder@,
            message: self.message@,
        }
    }
}

/// What is said when the orchestrator's provider is not there.
pub open spec fn provider_error(provider_id: Seq<char>) -> Seq<char> {
    "Auto mode: orchestrator provider `"@ + provider_id + "` is not configured"@
}

/// The turn that these settings, the provider's model call, the request and the
/// id make. The orchestrator and the workers share one model call, without cache
/// markers.
pub open spec fn turn_of(
    settings: ReadySettingsView,
    llm: LlmClientConfigView,
    request: TurnRequestView,
    run_id: Seq<char>,
) -> AutoTurnView {
    let uncached = LlmClientConfigView { disable_cache_control: true, ..llm };
    AutoTurnView {
        run_id,
        plan_llm: uncached,
        worker: WorkerContextView {
            session_id: request.session_id,
            run_id,
            working_dir: request.folder,
            llm_base_config: uncached,
            compaction_llm: None,
            max_iterations: WORKER_MAX_ITERATIONS,
            context_engine_repo_path: None,
            checkpoint_dir: None,
        },
        config: ExecutorConfigView {
            task: request.message,
            auto_run_id: run_id,
            session_id: request.session_id,
            worker_pool: settings.worker_pool,
            replan_budget: settings.replan_budget,
        },
        initial_run: new_run(run_id, request.session_id),
    }
}

/// The turn that comes of a request, or the error where the orchestrator's
/// provider is not there.
pub open spec fn turn_result(
    settings: ReadySettingsView,
    llm: Option<LlmClientConfigView>,
    request: TurnRequestView,
    run_id: Seq<char>,
    res: Result<AutoTurn, String>,
) -> bool {
    match llm {
        Some(llm) => res matches Ok(turn) && turn.deep_view() == turn_of(
            settings,
            llm,
            request,
            run_id,
        ),
        None => res matches Err(e) && e@ == provider_error(settings.orchestrator.provider_id),
    }
}

/// Puts a turn together under a given id. `provider_llm` is how the
/// orchestrator's model is called through its provider, if the provider is
/// configured.
pub fn build_auto_turn(
    settings: ReadySettings,
    provider_llm: Option<LlmClientConfig>,
    request: TurnRequest,
    run_id: String,
) -> (res: Result<AutoTurn, String>)
    ensures
        turn_result(
            settings.deep_view(),
            provider_llm.deep_view(),
            request.deep_view(),
            run_id@,
            res,
        ),
{
    let mut llm = match provider_llm {
        Some(llm) => llm,
        None => {
            let mut e = "Auto mode: orchestrator provider `".to_owned();
            e.append(settings.orchestrator.provider_id.as_str());
            e.append("` is not configured");
            return Err(e);
        },
    };
    llm.disable_cache_control = true;
    let ctx = WorkerContext {
        session_id: request.session_id.clone(),
        run_id: run_id.clone(),
        working_dir: request.folder,
        llm_base_config: llm.clone(),
        compaction_llm: None,
        max_iterations: WORKER_MAX_ITERATIONS,
        context_engine_repo_path: None,
        checkpoint_dir: None,
    };
    let initial_run = new_auto_run(run_id.as_str(), request.session_id.as_str());
    let config = ExecutorConfig {
        task: request.message,
        auto_run_id: run_id.clone(),
        session_id: request.session_id,
        worker_pool: settings.worker_pool,
        replan_budget: settings.replan_budget,
    };
    Ok(
        AutoTurn {
            run_id,
            plan_gen: LlmPlanGenerator { llm },
            runner: LiveWorkerRunner { ctx },
            config,
            initial_run,
        },
    )
}

/// Puts a turn together under a fresh id.
pub fn prepare_auto_turn(
    settings: ReadySettings,
    provider_llm: Option<LlmClientConfig>,
    request: TurnRequest,
) -> (res: Result<AutoTurn, String>)
    ensures
        exists|run_id: Seq<char>|
            is_run_id(run_id) && #[trigger] turn_result(
                settings.deep_view(),
                provider_llm.deep_view(),
                request.deep_view(),
                run_id,
                res,
            ),
{
    let run_id = random_run_id();
    let ghost id = run_id@;
    let ghost (s, p, r) = (settings.deep_view(), provider_llm.deep_view(), request.deep_view());
    let res = build_auto_turn(settings, provider_llm, request, run_id);
    assert(turn_result(s, p, r, id, res));
    res
}

/// Every part of a turn carries the turn's id and the request's session, so the
/// approval that the task waits for, its events, its workers and its record
/// belong together; and the record is the one that the executor starts from.
pub proof fn law_turn_is_consistent(
    settings: ReadySettingsView,
    llm: LlmClientConfigView,
    request: TurnRequestView,
    run_id: Seq<char>,
)
    ensures
        ({
            let turn = turn_of(settings, llm, request, run_id);
            &&& turn.config.auto_run_id == turn.run_id
            &&& turn.worker.run_id == turn.run_id
            &&& turn.initial_run.id == turn.run_id
            &&& turn.config.session_id == request.session_id
            &&& turn.worker.session_id == request.session_id
            &&& turn.initial_run == crate::executor_model::start(turn.config).0.run()
            &&& turn.worker.llm_base_config == turn.plan_llm
            &&& turn.plan_llm.disable_cache_control
        }),
{
}

/// The model of settings that are ready tells all of them.
pub proof fn law_model_of_ready_settings(x: ReadySettings)
    ensures
        x.deep_view().orchestrator.provider_id == x.orchestrator.provider_id@,
        x.deep_view().orchestrator.model == x.orchestrator.model@,
        x.deep_view().worker_pool.len() == x.worker_pool@.len(),
        forall|i: int|
            0 <= i < x.worker_pool@.len() ==> #[trigger] x.deep_view().worker_pool[i]
                == x.worker_pool@[i].deep_view(),
        x.deep_view().replan_budget == x.replan_budget,
{
}

/// A task can be started exactly if an orchestrator model is picked and the pool
/// is not empty. It is started with the very model, pool and budget of the
/// settings. Otherwise the missing orchestrator is named first.
pub proof fn law_ready_settings_are_the_settings(settings: AutoSettingsView)
    ensures
        match ready(settings) {
            Ok(r) => {
                &&& settings.orchestrator == Some(r.orchestrator)
                &&& settings.worker_pool.len() > 0
                &&& r.worker_pool == settings.worker_pool
                &&& r.replan_budget == settings.replan_budget
            },
            Err(e) => {
                ||| settings.orchestrator is None && e
                    == "Auto mode: orchestrator model not configured in Settings → Auto"@
                ||| settings.orchestrator is Some && settings.worker_pool.len() == 0 && e
                    == "Auto mode: worker pool is empty in Settings → Auto"@
            },
        },
{
}

/// A turn carries what it was given: the whole message as the task, the whole
/// pool, entry by entry, the budget, the session and the folder; and the
/// provider's model call for the orchestrator and the workers, but without cache
/// markers. Its record is that of a task that has not begun. There is a turn
/// whenever the provider is there; otherwise the provider is named.
pub proof fn law_turn_carries_what_it_is_given(
    settings: ReadySettings,
    provider_llm: Option<LlmClientConfig>,
    request: TurnRequest,
    run_id: Seq<char>,
    res: Result<AutoTurn, String>,
)
    requires
        turn_result(
            settings.deep_view(),
            provider_llm.deep_view(),
            request.deep_view(),
            run_id,
            res,
        ),
    ensures
        match provider_llm {
            Some(llm) => {
                &&& res matches Ok(turn)
                &&& turn.run_id@ == run_id
                &&& turn.config.task@ == request.message@
                &&& turn.config.auto_run_id@ == run_id
                &&& turn.config.session_id@ == request.session_id@
                &&& turn.config.replan_budget == settings.replan_budget
                &&& turn.config.worker_pool@.len() == settings.worker_pool@.len()
                &&& forall|i: int|
                    0 <= i < settings.worker_pool@.len() ==> {
                        &&& (#[trigger] turn.config.worker_pool@[i]).provider_id@
                            == settings.worker_pool@[i].provider_id@
                        &&& turn.config.worker_pool@[i].model@ == settings.worker_pool@[i].model@
                        &&& turn.config.worker_pool@[i].description@
                            == settings.worker_pool@[i].description@
                    }
                &&& turn.plan_gen.llm.provider@ == llm.provider@
                &&& turn.plan_gen.llm.base_url@ == llm.base_url@
                &&& turn.plan_gen.llm.api_key@ == llm.api_key@
                &&& turn.plan_gen.llm.model@ == llm.model@
                &&& turn.plan_gen.llm.disable_cache_control
                &&& turn.runner.ctx.llm_base_config.provider@ == llm.provider@
                &&& turn.runner.ctx.llm_base_config.base_url@ == llm.base_url@
                &&& turn.runner.ctx.llm_base_config.api_key@ == llm.api_key@
                &&& turn.runner.ctx.llm_base_config.model@ == llm.model@
                &&& turn.runner.ctx.llm_base_config.disable_cache_control
                &&& turn.runner.ctx.session_id@ == request.session_id@
                &&& turn.runner.ctx.run_id@ == run_id
                &&& turn.runner.ctx.working_dir@ == request.folder@
                &&& turn.runner.ctx.compaction_llm is None
                &&& turn.runner.ctx.max_iterations == 100
                &&& turn.runner.ctx.context_engine_repo_path is None
                &&& turn.runner.ctx.checkpoint_dir is None
                &&& turn.initial_run.id@ == run_id
                &&& turn.initial_run.session_id@ == request.session_id@
                &&& turn.initial_run.status == crate::types::AutoStatus::Planning
                &&& turn.initial_run.plan_versions@.len() == 0
                &&& turn.initial_run.worker_results@.len() == 0
                &&& turn.initial_run.cost_cents == 0
                &&& turn.initial_run.replans_used == 0
            },
            None => {
                &&& res matches Err(e)
                &&& e@ == "Auto mode: orchestrator provider `"@
                    + settings.orchestrator.provider_id@ + "` is not configured"@
            },
        },
{
    if let Some(llm) = provider_llm {
        let turn = res->Ok_0;
        let pool = turn.config.worker_pool;
        assert(pool.deep_view() == settings.worker_pool.deep_view());
        assert(pool@.len() == pool.deep_view().len());
        assert(settings.worker_pool@.len() == settings.worker_pool.deep_view().len());
        assert forall|i: int| 0 <= i < settings.worker_pool@.len() implies {
            &&& (#[trigger] pool@[i]).provider_id@ == settings.worker_pool@[i].provider_id@
            &&& pool@[i].model@ == settings.worker_pool@[i].model@
            &&& pool@[i].description@ == settings.worker_pool@[i].description@
        } by {
            assert(pool.deep_view()[i] == pool@[i].deep_view());
            assert(settings.worker_pool.deep_view()[i] == settings.worker_pool@[i].deep_view());
        }
        assert(turn.initial_run.plan_versions.deep_view().len() == 0);
        assert(turn.initial_run.worker_results.deep_view().len() == 0);
    }
}

/// An id has 36 characters: hyphens in four places, the version in one, one of
/// four variants in another, and hexadecimal digits in lower case elsewhere.
pub proof fn law_id_has_its_form(id: Seq<char>)
    requires
        is_run_id(id),
    ensures
        id.len() == 36,
        id[8] == '-' && id[13] == '-' && id[18] == '-' && id[23] == '-',
        id[14] == '4',
        id[19] == '8' || id[19] == '9' || id[19] == 'a' || id[19] == 'b',
        forall|i: int|
            0 <= i < 36 && i != 8 && i != 13 && i != 18 && i != 23 ==> '0' <= #[trigger] id[i]
                <= '9' || 'a' <= id[i] <= 'f',
{
    assert(is_hyphen_place(8) && is_hyphen_place(13) && is_hyphen_place(18) && is_hyphen_place(23));
    assert forall|i: int| 0 <= i < 36 && i != 8 && i != 13 && i != 18 && i != 23 implies '0'
        <= #[trigger] id[i] <= '9' || 'a' <= id[i] <= 'f' by {
        assert(is_hex(id[i]));
    }
}

} // verus!
