use auto_mode::settings::AutoSettings;
use auto_mode::turn::{
    build_auto_turn, prepare_auto_turn, validate_auto_settings, ReadySettings, TurnRequest,
};
use auto_mode::types::{AutoStatus, LlmClientConfig, ModelRef, WorkerPoolEntry};

fn settings() -> AutoSettings {
    AutoSettings {
        orchestrator: Some(ModelRef { provider_id: "anthropic".into(), model: "big".into() }),
        worker_pool: vec![WorkerPoolEntry {
            provider_id: "anthropic".into(),
            model: "small".into(),
            description: "cheap".into(),
        }],
        replan_budget: 4,
    }
}

fn ready() -> ReadySettings {
    validate_auto_settings(settings()).unwrap()
}

fn llm() -> LlmClientConfig {
    LlmClientConfig {
        provider: "anthropic".into(),
        base_url: "https://example.test".into(),
        api_key: "key".into(),
        model: "big".into(),
        disable_cache_control: false,
    }
}

fn request() -> TurnRequest {
    TurnRequest { session_id: "s1".into(), folder: "/work".into(), message: "do it".into() }
}

#[test]
fn settings_without_orchestrator_are_refused() {
    let mut s = settings();
    s.orchestrator = None;
    s.worker_pool.clear();
    assert_eq!(
        validate_auto_settings(s).unwrap_err(),
        "Auto mode: orchestrator model not configured in Settings → Auto"
    );
}

#[test]
fn settings_without_workers_are_refused() {
    let mut s = settings();
    s.worker_pool.clear();
    assert_eq!(
        validate_auto_settings(s).unwrap_err(),
        "Auto mode: worker pool is empty in Settings → Auto"
    );
}

#[test]
fn missing_provider_is_refused() {
    assert_eq!(
        build_auto_turn(ready(), None, request(), "id".into()).unwrap_err(),
        "Auto mode: orchestrator provider `anthropic` is not configured"
    );
}

#[test]
fn a_turn_carries_its_id_everywhere() {
    let turn = build_auto_turn(ready(), Some(llm()), request(), "run-9".into()).unwrap();
    assert_eq!(turn.run_id, "run-9");
    assert_eq!(turn.config.auto_run_id, "run-9");
    assert_eq!(turn.config.session_id, "s1");
    assert_eq!(turn.config.task, "do it");
    assert_eq!(turn.config.replan_budget, 4);
    assert_eq!(turn.config.worker_pool.len(), 1);
    assert_eq!(turn.initial_run.id, "run-9");
    assert_eq!(turn.initial_run.status, AutoStatus::Planning);
    assert_eq!(turn.runner.ctx.run_id, "run-9");
    assert_eq!(turn.runner.ctx.session_id, "s1");
    assert_eq!(turn.runner.ctx.working_dir, "/work");
    assert_eq!(turn.runner.ctx.max_iterations, 100);
    assert!(turn.runner.ctx.compaction_llm.is_none());
    assert!(turn.runner.ctx.context_engine_repo_path.is_none());
    assert!(turn.runner.ctx.checkpoint_dir.is_none());
    assert!(turn.plan_gen.llm.disable_cache_control);
    assert!(turn.runner.ctx.llm_base_config.disable_cache_control);
    assert_eq!(turn.runner.ctx.llm_base_config.base_url, "https://example.test");
    assert_eq!(turn.plan_gen.llm.model, "big");
}

#[test]
fn fresh_ids_are_random_uuids() {
    let id = prepare_auto_turn(ready(), Some(llm()), request()).unwrap().run_id;
    let chars: Vec<char> = id.chars().collect();
    assert_eq!(chars.len(), 36);
    for (i, c) in chars.iter().enumerate() {
        match i {
            8 | 13 | 18 | 23 => assert_eq!(*c, '-'),
            _ => assert!(c.is_ascii_digit() || ('a'..='f').contains(c)),
        }
    }
    assert_eq!(chars[14], '4');
    assert!("89ab".contains(chars[19]));
}

#[test]
fn prepared_turns_have_fresh_ids() {
    let a = prepare_auto_turn(ready(), Some(llm()), request()).unwrap();
    let b = prepare_auto_turn(ready(), Some(llm()), request()).unwrap();
    assert_eq!(a.run_id.len(), 36);
    assert_eq!(a.run_id, a.config.auto_run_id);
    assert_ne!(a.run_id, b.run_id);
}
