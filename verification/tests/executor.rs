use std::collections::HashMap;

use auto_mode::executor::{
    finalize_cancelled, finalize_done, finalize_failed, new_auto_run, status_label,
    worker_failure_reason, Action, AutoApprove, Executor, ExecutorConfig, PlanOutcome, Reply,
};
use auto_mode::executor_model::ApprovalOutcome;
use auto_mode::types::{
    AgentEvent, AutoResult, AutoStatus, Plan, SeePrior, SeePriorKeyword, WorkerPoolEntry,
    WorkerResult, WorkerSpec, WorkerStatus,
};

/// Returns queued plan outcomes in order; panics if asked for more.
struct MockPlanGen {
    queue: Vec<PlanOutcome>,
    calls: u32,
    requests: Vec<(u32, Option<String>, Vec<String>)>,
}

impl MockPlanGen {
    fn new(queue: Vec<PlanOutcome>) -> Self {
        MockPlanGen { queue, calls: 0, requests: Vec::new() }
    }
}

/// Returns queued results by worker id, and a plain success for any other.
struct MockRunner {
    results_by_id: HashMap<String, Vec<WorkerResult>>,
    invocations: Vec<String>,
    prior_seen: Vec<Vec<String>>,
}

impl MockRunner {
    fn new() -> Self {
        MockRunner { results_by_id: HashMap::new(), invocations: Vec::new(), prior_seen: Vec::new() }
    }

    fn enqueue(&mut self, id: &str, result: WorkerResult) {
        self.results_by_id.entry(id.to_string()).or_default().push(result);
    }

    fn run(&mut self, spec: &WorkerSpec, prior: &[WorkerResult]) -> WorkerResult {
        self.invocations.push(spec.id.clone());
        self.prior_seen.push(prior.iter().map(|r| r.id.clone()).collect());
        if let Some(queue) = self.results_by_id.get_mut(&spec.id) {
            if !queue.is_empty() {
                return queue.remove(0);
            }
        }
        WorkerResult {
            id: spec.id.clone(),
            model: spec.model.clone(),
            prompt: spec.prompt.clone(),
            summary: format!("ok: {}", spec.prompt),
            tool_count: 0,
            cost_cents: 0,
            status: WorkerStatus::Success,
        }
    }
}

/// Drives an executor to its end. `cancelled` is polled before each poll's
/// reply; `approve` answers for the first plan.
fn run(
    config: ExecutorConfig,
    plan_gen: &mut MockPlanGen,
    runner: &mut MockRunner,
    approve: &dyn Fn(&Plan) -> ApprovalOutcome,
    cancelled: &dyn Fn(usize) -> bool,
) -> (AutoResult, Vec<AgentEvent>) {
    let (mut executor, mut events) = Executor::start(config);
    let mut polls = 0;
    loop {
        let reply = match executor.action() {
            Action::PollCancel => {
                polls += 1;
                Reply::CancelPolled { cancelled: cancelled(polls) }
            }
            Action::Generate(request) => {
                plan_gen.calls += 1;
                plan_gen.requests.push((
                    request.plan_version,
                    request.replan_reason.map(|r| r.to_string()),
                    request.prior_results.iter().map(|r| r.id.clone()).collect(),
                ));
                if plan_gen.queue.is_empty() {
                    panic!("no more plans queued");
                }
                Reply::PlanGenerated(plan_gen.queue.remove(0))
            }
            Action::Approve(plan) => Reply::ApprovalAnswered(approve(plan)),
            Action::RunWorker { spec, prior_results } => {
                Reply::WorkerFinished(runner.run(spec, prior_results))
            }
            Action::Finish(_) => break,
        };
        assert!(executor.accepts(&reply));
        let (next, emitted) = executor.step(reply);
        executor = next;
        events.extend(emitted);
    }
    (executor.into_result().expect("finished"), events)
}

fn auto_approve(plan: &Plan) -> ApprovalOutcome {
    ApprovalOutcome::Answered(AutoApprove.approve(plan))
}

fn always_reject(_: &Plan) -> ApprovalOutcome {
    ApprovalOutcome::Answered(false)
}

fn never(_: usize) -> bool {
    false
}

fn plan(version: u32, ids: &[&str]) -> Plan {
    Plan {
        version,
        reasoning: format!("plan v{version}"),
        workers: ids
            .iter()
            .map(|id| WorkerSpec {
                id: (*id).into(),
                model: "test-model".into(),
                prompt: format!("task for {id}"),
                see_prior: SeePrior::Keyword(SeePriorKeyword::Nothing),
            })
            .collect(),
    }
}

fn planned(version: u32, ids: &[&str]) -> PlanOutcome {
    PlanOutcome::Planned(plan(version, ids))
}

fn worker_ok(id: &str, summary: &str) -> WorkerResult {
    WorkerResult {
        id: id.into(),
        model: "test-model".into(),
        prompt: "p".into(),
        summary: summary.into(),
        tool_count: 1,
        cost_cents: 5,
        status: WorkerStatus::Success,
    }
}

fn worker_fail(id: &str, kind: WorkerStatus) -> WorkerResult {
    WorkerResult {
        id: id.into(),
        model: "test-model".into(),
        prompt: "p".into(),
        summary: format!("worker {id} failed"),
        tool_count: 0,
        cost_cents: 1,
        status: kind,
    }
}

fn cfg(replan_budget: u32) -> ExecutorConfig {
    ExecutorConfig {
        task: "test task".into(),
        auto_run_id: "auto-run-test".into(),
        session_id: "sess-test".into(),
        worker_pool: vec![WorkerPoolEntry {
            provider_id: "anthropic".into(),
            model: "test-model".into(),
            description: "the only worker".into(),
        }],
        replan_budget,
    }
}

#[test]
fn happy_path_all_workers_ok_yields_autodone() {
    let mut plan_gen = MockPlanGen::new(vec![planned(1, &["w1", "w2"])]);
    let mut runner = MockRunner::new();
    runner.enqueue("w1", worker_ok("w1", "explored 12 files"));
    runner.enqueue("w2", worker_ok("w2", "synthesized result"));

    let (result, events) = run(cfg(2), &mut plan_gen, &mut runner, &auto_approve, &never);

    match result {
        AutoResult::Done { ref summary, ref run } => {
            assert!(summary.contains("synthesized"), "summary={summary}");
            assert_eq!(run.status, AutoStatus::Done);
            assert_eq!(run.worker_results.len(), 2);
            assert_eq!(run.replans_used, 0);
            assert_eq!(run.plan_versions.len(), 1);
            assert_eq!(run.cost_cents, 10);
        }
        other => panic!("expected Done, got {other:?}"),
    }
    assert_eq!(plan_gen.calls, 1, "no replans expected on happy path");
    assert_eq!(runner.invocations, vec!["w1", "w2"]);

    let has = |needle: &str| events.iter().any(|e| format!("{e:?}").contains(needle));
    assert!(has("AutoPlanning"));
    assert!(has("AutoPlan {"));
    assert!(has("AutoAwaitingApproval"));
    assert!(has("AutoDone"));
    assert!(!has("AutoReplan"), "no replan expected");
    assert!(!has("AutoFailed"), "no failure expected");
    assert_eq!(events.len(), 4);
    assert!(matches!(events[0], AgentEvent::AutoPlanning { .. }));
    assert!(matches!(events[1], AgentEvent::AutoPlan { version: 1, .. }));
    assert!(matches!(events[2], AgentEvent::AutoAwaitingApproval { .. }));
    assert!(matches!(events[3], AgentEvent::AutoDone { total_cost_cents: 10, .. }));
}

#[test]
fn worker_hard_failure_triggers_replan_then_succeeds() {
    let mut plan_gen =
        MockPlanGen::new(vec![planned(1, &["w1", "w2"]), planned(2, &["w2_retry"])]);
    let mut runner = MockRunner::new();
    runner.enqueue("w1", worker_ok("w1", "step 1 done"));
    runner.enqueue("w2", worker_fail("w2", WorkerStatus::MaxIterations));
    runner.enqueue("w2_retry", worker_ok("w2_retry", "step 2 recovered"));

    let (result, events) = run(cfg(2), &mut plan_gen, &mut runner, &auto_approve, &never);

    assert!(
        matches!(result, AutoResult::Done { .. }),
        "expected Done after successful replan, got {result:?}"
    );
    assert_eq!(plan_gen.calls, 2);
    assert_eq!(runner.invocations, vec!["w1", "w2", "w2_retry"]);

    let auto_run = match &result {
        AutoResult::Done { run, .. } => run,
        _ => unreachable!(),
    };
    assert_eq!(auto_run.replans_used, 1);
    assert_eq!(auto_run.plan_versions.len(), 2);
    assert_eq!(auto_run.worker_results.len(), 3);

    assert!(events.iter().any(|e| matches!(e, AgentEvent::AutoReplan { .. })));
}

#[test]
fn replan_budget_exhaustion_yields_autofailed() {
    let mut plan_gen = MockPlanGen::new(vec![planned(1, &["w1"]), planned(2, &["w1_retry"])]);
    let mut runner = MockRunner::new();
    runner.enqueue("w1", worker_fail("w1", WorkerStatus::ToolError { message: "boom".into() }));
    runner.enqueue(
        "w1_retry",
        worker_fail("w1_retry", WorkerStatus::ToolError { message: "still boom".into() }),
    );

    let (result, events) = run(cfg(1), &mut plan_gen, &mut runner, &auto_approve, &never);

    match &result {
        AutoResult::Failed { reason, run } => {
            assert!(
                reason.contains("w1_retry"),
                "reason should mention the last failed worker: {reason}"
            );
            assert_eq!(run.replans_used, 1, "budget=1 means exactly 1 replan attempted");
            assert_eq!(run.plan_versions.len(), 2);
            assert_eq!(run.status, AutoStatus::Failed);
        }
        other => panic!("expected Failed, got {other:?}"),
    }
    assert!(events.iter().any(|e| matches!(e, AgentEvent::AutoFailed { .. })));
}

#[test]
fn zero_replan_budget_fails_immediately_on_worker_failure() {
    let mut plan_gen = MockPlanGen::new(vec![planned(1, &["w1"])]);
    let mut runner = MockRunner::new();
    runner.enqueue("w1", worker_fail("w1", WorkerStatus::LlmError { message: "5xx".into() }));

    let (result, _) = run(cfg(0), &mut plan_gen, &mut runner, &auto_approve, &never);

    match result {
        AutoResult::Failed { run, .. } => {
            assert_eq!(run.replans_used, 0);
            assert_eq!(run.plan_versions.len(), 1);
        }
        other => panic!("expected immediate Failed with budget=0, got {other:?}"),
    }
}

#[test]
fn user_rejects_plan_yields_failed_with_rejection_reason() {
    let mut plan_gen = MockPlanGen::new(vec![planned(1, &["w1"])]);
    let mut runner = MockRunner::new();

    let (result, events) = run(cfg(2), &mut plan_gen, &mut runner, &always_reject, &never);

    match result {
        AutoResult::Failed { reason, run } => {
            assert!(reason.contains("rejected"), "reason: {reason}");
            assert_eq!(run.plan_versions.len(), 1, "plan was still generated and emitted");
            assert!(run.worker_results.is_empty(), "no workers should run if rejected");
        }
        other => panic!("expected Failed on plan rejection, got {other:?}"),
    }
    assert!(runner.invocations.is_empty(), "runner must not be invoked on rejection");
    assert!(events.iter().any(|e| matches!(e, AgentEvent::AutoFailed { .. })));
}

#[test]
fn orchestrator_error_yields_failed_no_replan() {
    let mut plan_gen = MockPlanGen::new(vec![PlanOutcome::Failed {
        message: "all parse attempts failed".into(),
    }]);
    let mut runner = MockRunner::new();

    let (result, _) = run(cfg(2), &mut plan_gen, &mut runner, &auto_approve, &never);

    match result {
        AutoResult::Failed { reason, run } => {
            assert!(reason.contains("orchestrator error"), "reason: {reason}");
            assert_eq!(reason, "orchestrator error: all parse attempts failed");
            assert!(run.plan_versions.is_empty(), "no plan was produced");
            assert_eq!(run.replans_used, 0);
        }
        other => panic!("expected Failed on orchestrator error, got {other:?}"),
    }
    assert!(runner.invocations.is_empty());
}

#[test]
fn cancel_during_worker_run_yields_cancelled() {
    let mut plan_gen = MockPlanGen::new(vec![planned(1, &["w1", "w2"])]);
    let mut runner = MockRunner::new();
    runner.enqueue("w1", worker_fail("w1", WorkerStatus::Cancelled));

    let (result, _) = run(cfg(2), &mut plan_gen, &mut runner, &auto_approve, &never);

    match result {
        AutoResult::Cancelled { run } => {
            assert_eq!(run.status, AutoStatus::Cancelled);
            assert_eq!(run.worker_results.len(), 1, "only w1 ran before cancel");
            assert_eq!(runner.invocations, vec!["w1"]);
        }
        other => panic!("expected Cancelled, got {other:?}"),
    }
}

#[test]
fn cancel_token_fired_before_orchestrator_yields_cancelled() {
    let mut plan_gen = MockPlanGen::new(vec![planned(1, &["w1"])]);
    let mut runner = MockRunner::new();

    let (result, events) = run(cfg(2), &mut plan_gen, &mut runner, &auto_approve, &|_| true);

    match result {
        AutoResult::Cancelled { run } => {
            assert!(run.plan_versions.is_empty(), "no plan should be generated");
        }
        other => panic!("expected Cancelled with pre-fired token, got {other:?}"),
    }
    assert_eq!(plan_gen.calls, 0, "orchestrator must not be called when cancelled");
    assert_eq!(events.len(), 1);
    assert!(matches!(events[0], AgentEvent::AutoPlanning { .. }));
}

#[test]
fn cancel_between_workers_keeps_the_ledger_and_is_silent() {
    let mut plan_gen = MockPlanGen::new(vec![planned(1, &["w1", "w2"])]);
    let mut runner = MockRunner::new();
    runner.enqueue("w1", worker_ok("w1", "one"));

    let (result, events) =
        run(cfg(2), &mut plan_gen, &mut runner, &auto_approve, &|poll| poll == 3);

    match &result {
        AutoResult::Cancelled { run } => {
            assert_eq!(run.worker_results.len(), 1);
            assert_eq!(run.cost_cents, 5);
        }
        other => panic!("expected Cancelled, got {other:?}"),
    }
    assert_eq!(runner.invocations, vec!["w1"]);
    assert!(!events
        .iter()
        .any(|e| matches!(e, AgentEvent::AutoDone { .. } | AgentEvent::AutoFailed { .. })));
}

#[test]
fn cancel_while_planning_or_waiting_for_approval() {
    let mut plan_gen = MockPlanGen::new(vec![PlanOutcome::Cancelled]);
    let mut runner = MockRunner::new();
    let (result, _) = run(cfg(2), &mut plan_gen, &mut runner, &auto_approve, &never);
    assert!(matches!(result, AutoResult::Cancelled { .. }));

    let mut plan_gen = MockPlanGen::new(vec![planned(1, &["w1"])]);
    let (result, _) =
        run(cfg(2), &mut plan_gen, &mut runner, &|_| ApprovalOutcome::Cancelled, &never);
    match result {
        AutoResult::Cancelled { run } => assert_eq!(run.plan_versions.len(), 1),
        other => panic!("expected Cancelled, got {other:?}"),
    }
    assert!(runner.invocations.is_empty());
}

#[test]
fn plan_without_workers_is_done_with_the_stock_summary() {
    let mut plan_gen = MockPlanGen::new(vec![planned(1, &[])]);
    let mut runner = MockRunner::new();
    let (result, events) = run(cfg(0), &mut plan_gen, &mut runner, &auto_approve, &never);
    match result {
        AutoResult::Done { summary, run } => {
            assert_eq!(summary, "Auto task complete.");
            assert!(run.worker_results.is_empty());
        }
        other => panic!("expected Done, got {other:?}"),
    }
    assert_eq!(events.len(), 4);
}

#[test]
fn replans_see_the_reason_and_the_successes_and_skip_approval() {
    let mut plan_gen = MockPlanGen::new(vec![
        planned(1, &["w1", "w2", "w3"]),
        planned(2, &["w4", "w5"]),
        planned(3, &["w6"]),
    ]);
    let mut runner = MockRunner::new();
    runner.enqueue("w1", worker_ok("w1", "one"));
    runner.enqueue("w2", worker_fail("w2", WorkerStatus::MaxIterations));
    runner.enqueue("w4", worker_ok("w4", "four"));
    runner.enqueue("w5", worker_fail("w5", WorkerStatus::LlmError { message: "x".into() }));
    runner.enqueue("w6", worker_ok("w6", "six"));

    let (result, events) = run(cfg(2), &mut plan_gen, &mut runner, &auto_approve, &never);

    match &result {
        AutoResult::Done { summary, run } => {
            assert_eq!(summary, "six");
            assert_eq!(run.replans_used, 2);
            assert_eq!(run.plan_versions.len(), 3);
            assert_eq!(run.cost_cents, 5 + 1 + 5 + 1 + 5);
            let ids: Vec<&str> = run.worker_results.iter().map(|r| r.id.as_str()).collect();
            assert_eq!(ids, vec!["w1", "w2", "w4", "w5", "w6"]);
        }
        other => panic!("expected Done, got {other:?}"),
    }
    assert_eq!(plan_gen.calls, 3);
    assert_eq!(plan_gen.requests[0], (1, None, vec![]));
    assert_eq!(
        plan_gen.requests[1],
        (
            2,
            Some("worker w2 (test-model) failed [max_iterations]: worker w2 failed".to_string()),
            vec!["w1".to_string()],
        )
    );
    assert_eq!(
        plan_gen.requests[2],
        (
            3,
            Some("worker w5 (test-model) failed [llm_error]: worker w5 failed".to_string()),
            vec!["w1".to_string(), "w4".to_string()],
        )
    );
    assert_eq!(runner.invocations, vec!["w1", "w2", "w4", "w5", "w6"]);
    assert_eq!(runner.prior_seen[4], vec!["w1", "w4"]);
    let approvals =
        events.iter().filter(|e| matches!(e, AgentEvent::AutoAwaitingApproval { .. })).count();
    assert_eq!(approvals, 1);
    let replans = events.iter().filter(|e| matches!(e, AgentEvent::AutoReplan { .. })).count();
    assert_eq!(replans, 2);
}

#[test]
fn failure_event_shows_the_last_worker_output() {
    let mut plan_gen = MockPlanGen::new(vec![planned(1, &["w1"])]);
    let mut runner = MockRunner::new();
    runner.enqueue("w1", worker_fail("w1", WorkerStatus::MaxIterations));
    let (_, events) = run(cfg(0), &mut plan_gen, &mut runner, &auto_approve, &never);
    match events.last() {
        Some(AgentEvent::AutoFailed { session_id, run_id, reason, last_worker_output }) => {
            assert_eq!(session_id, "sess-test");
            assert_eq!(run_id, "auto-run-test");
            assert_eq!(reason, "worker w1 (test-model) failed [max_iterations]: worker w1 failed");
            assert_eq!(last_worker_output.as_deref(), Some("worker w1 failed"));
        }
        other => panic!("expected AutoFailed, got {other:?}"),
    }
}

#[test]
fn cost_stops_at_the_largest_number() {
    let mut plan_gen = MockPlanGen::new(vec![planned(1, &["w1", "w2"])]);
    let mut runner = MockRunner::new();
    let mut dear = worker_ok("w1", "dear");
    dear.cost_cents = u64::MAX - 2;
    runner.enqueue("w1", dear);
    runner.enqueue("w2", worker_ok("w2", "cheap"));
    let (result, _) = run(cfg(0), &mut plan_gen, &mut runner, &auto_approve, &never);
    assert_eq!(result.final_run().cost_cents, u64::MAX);
}

#[test]
fn replies_of_another_kind_are_not_accepted() {
    let (executor, _) = Executor::start(cfg(0));
    assert!(matches!(executor.action(), Action::PollCancel));
    assert!(executor.accepts(&Reply::CancelPolled { cancelled: true }));
    assert!(!executor.accepts(&Reply::PlanGenerated(PlanOutcome::Cancelled)));
    assert!(!executor.accepts(&Reply::ApprovalAnswered(ApprovalOutcome::Cancelled)));
    assert!(!executor.accepts(&Reply::WorkerFinished(worker_ok("w1", "x"))));
    let (executor, _) = executor.step(Reply::CancelPolled { cancelled: true });
    assert!(!executor.accepts(&Reply::CancelPolled { cancelled: true }));
    assert!(matches!(executor.action(), Action::Finish(AutoResult::Cancelled { .. })));
}

#[test]
fn unfinished_task_has_no_result() {
    let (executor, _) = Executor::start(cfg(0));
    assert!(executor.into_result().is_none());
}

#[test]
fn labels_of_all_statuses() {
    assert_eq!(status_label(&WorkerStatus::Success), "ok");
    assert_eq!(status_label(&WorkerStatus::MaxIterations), "max_iterations");
    assert_eq!(status_label(&WorkerStatus::ToolError { message: "m".into() }), "tool_error");
    assert_eq!(status_label(&WorkerStatus::LlmError { message: "m".into() }), "llm_error");
    assert_eq!(status_label(&WorkerStatus::Cancelled), "cancelled");
    assert!(!WorkerStatus::Success.is_hard_failure());
    assert!(WorkerStatus::MaxIterations.is_hard_failure());
    assert!(WorkerStatus::ToolError { message: "m".into() }.is_hard_failure());
    assert!(WorkerStatus::LlmError { message: "m".into() }.is_hard_failure());
    assert!(!WorkerStatus::Cancelled.is_hard_failure());
}

#[test]
fn failure_reason_quotes_the_first_240_characters() {
    let spec = plan(1, &["w7"]).workers.remove(0);
    let mut result = worker_fail("w7", WorkerStatus::MaxIterations);
    result.summary = "é".repeat(240);
    let reason = worker_failure_reason(&spec, &result);
    assert_eq!(
        reason,
        format!("worker w7 (test-model) failed [max_iterations]: {}", "é".repeat(240))
    );
    result.summary = "é".repeat(241);
    let reason = worker_failure_reason(&spec, &result);
    assert_eq!(
        reason,
        format!("worker w7 (test-model) failed [max_iterations]: {}…", "é".repeat(240))
    );
}

#[test]
fn finalizers_set_status_and_event() {
    let config = cfg(0);
    let (result, event) = finalize_done(new_auto_run("r", "s"), &config, None);
    assert!(matches!(result, AutoResult::Done { ref summary, ref run }
        if summary == "Auto task complete." && run.status == AutoStatus::Done));
    assert!(matches!(event, AgentEvent::AutoDone { total_cost_cents: 0, .. }));

    let (result, event) =
        finalize_failed(new_auto_run("r", "s"), &config, "why".into(), Some("out".into()));
    assert!(matches!(result, AutoResult::Failed { ref reason, ref run }
        if reason == "why" && run.status == AutoStatus::Failed));
    assert!(matches!(event, AgentEvent::AutoFailed { last_worker_output: Some(ref o), .. }
        if o == "out"));

    let result = finalize_cancelled(new_auto_run("r", "s"));
    assert!(matches!(result, AutoResult::Cancelled { ref run }
        if run.status == AutoStatus::Cancelled && run.id == "r" && run.session_id == "s"));
}

#[test]
fn each_plan_runs_from_its_first_worker() {
    let mut plan_gen = MockPlanGen::new(vec![
        planned(1, &["a", "b", "c"]),
        planned(2, &["a", "b", "c"]),
    ]);
    let mut runner = MockRunner::new();
    runner.enqueue("b", worker_fail("b", WorkerStatus::MaxIterations));
    let (result, events) = run(cfg(1), &mut plan_gen, &mut runner, &auto_approve, &never);
    assert!(matches!(result, AutoResult::Done { .. }));
    assert_eq!(runner.invocations, vec!["a", "b", "a", "b", "c"]);
    let announced = events.iter().filter(|e| matches!(e, AgentEvent::AutoReplan { .. })).count();
    assert_eq!(announced, result.final_run().replans_used as usize);
}
