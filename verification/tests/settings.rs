use std::cell::RefCell;
use std::collections::HashMap;

use auto_mode::settings::{
    agent_set_auto_orchestrator_model, agent_set_auto_replan_budget, agent_set_auto_worker_pool,
    is_auto_mode, read_auto_orchestrator, read_auto_replan_budget, read_auto_settings,
    read_auto_worker_pool, AutoSettings, Fetched, FetchedSettings, SettingWrite,
    AUTO_ORCHESTRATOR_KEY, AUTO_REPLAN_BUDGET_KEY, AUTO_SENTINEL_MODEL, AUTO_SENTINEL_PROVIDER_ID,
    AUTO_WORKER_POOL_KEY, DEFAULT_REPLAN_BUDGET,
};
use auto_mode::types::{ModelRef, WorkerPoolEntry};
use serde_json::Value;

/// A settings table in memory.
struct Store {
    rows: RefCell<HashMap<String, String>>,
}

impl Store {
    fn new() -> Self {
        Store { rows: RefCell::new(HashMap::new()) }
    }

    fn get(&self, key: &str) -> Fetched {
        Ok(self.rows.borrow().get(key).cloned())
    }

    fn set(&self, key: &str, value: &str) {
        self.rows.borrow_mut().insert(key.to_string(), value.to_string());
    }

    fn apply(&self, write: SettingWrite) {
        match write {
            SettingWrite::Put { key, value } => self.set(key, &value),
            SettingWrite::Delete { key } => {
                self.rows.borrow_mut().remove(key);
            }
        }
    }

    fn fetch(&self) -> FetchedSettings {
        FetchedSettings {
            orchestrator: self.get(AUTO_ORCHESTRATOR_KEY),
            worker_pool: self.get(AUTO_WORKER_POOL_KEY),
            replan_budget: self.get(AUTO_REPLAN_BUDGET_KEY),
        }
    }

    fn read(&self) -> AutoSettings {
        read_auto_settings(&self.fetch(), &decode_model, &decode_pool)
    }
}

fn field(value: &Value, name: &str) -> Option<String> {
    Some(value.get(name)?.as_str()?.to_string())
}

fn decode_model(raw: &str) -> Option<ModelRef> {
    let value: Value = serde_json::from_str(raw).ok()?;
    Some(ModelRef { provider_id: field(&value, "provider_id")?, model: field(&value, "model")? })
}

fn decode_pool(raw: &str) -> Option<Vec<WorkerPoolEntry>> {
    let value: Value = serde_json::from_str(raw).ok()?;
    let mut pool = Vec::new();
    for entry in value.as_array()? {
        pool.push(WorkerPoolEntry {
            provider_id: field(entry, "provider_id")?,
            model: field(entry, "model")?,
            description: field(entry, "description")?,
        });
    }
    Some(pool)
}

fn encode_model(model: &ModelRef) -> Result<String, String> {
    let mut map = serde_json::Map::new();
    map.insert("provider_id".into(), Value::from(model.provider_id.clone()));
    map.insert("model".into(), Value::from(model.model.clone()));
    serde_json::to_string(&Value::Object(map)).map_err(|e| e.to_string())
}

fn encode_pool(pool: &Vec<WorkerPoolEntry>) -> Result<String, String> {
    let mut rows = Vec::new();
    for entry in pool {
        let mut map = serde_json::Map::new();
        map.insert("provider_id".into(), Value::from(entry.provider_id.clone()));
        map.insert("model".into(), Value::from(entry.model.clone()));
        map.insert("description".into(), Value::from(entry.description.clone()));
        rows.push(Value::Object(map));
    }
    serde_json::to_string(&Value::Array(rows)).map_err(|e| e.to_string())
}

#[test]
fn is_auto_mode_recognizes_only_the_sentinel_pair() {
    assert!(is_auto_mode(AUTO_SENTINEL_PROVIDER_ID, AUTO_SENTINEL_MODEL));
    assert!(!is_auto_mode("auto", "something-else"));
    assert!(!is_auto_mode("anthropic", "auto"));
    assert!(!is_auto_mode("anthropic", "sonnet-4-6"));
    assert!(!is_auto_mode("", ""));
}

#[test]
fn read_auto_settings_returns_documented_defaults_when_unset() {
    let store = Store::new();
    let s = store.read();
    assert!(s.orchestrator.is_none());
    assert!(s.worker_pool.is_empty());
    assert_eq!(s.replan_budget, DEFAULT_REPLAN_BUDGET);
    assert_eq!(DEFAULT_REPLAN_BUDGET, 2, "default budget");
}

#[test]
fn orchestrator_model_writes_then_reads_unchanged() {
    let store = Store::new();
    let model = ModelRef { provider_id: "anthropic".into(), model: "sonnet-4-6".into() };
    store.apply(agent_set_auto_orchestrator_model(&Some(model), &encode_model).unwrap());

    let loaded = read_auto_orchestrator(&store.get(AUTO_ORCHESTRATOR_KEY), &decode_model)
        .expect("should round-trip");
    assert_eq!(loaded.provider_id, "anthropic");
    assert_eq!(loaded.model, "sonnet-4-6");
}

#[test]
fn orchestrator_returns_none_when_value_is_corrupt() {
    let store = Store::new();
    store.set(AUTO_ORCHESTRATOR_KEY, "not valid json");
    assert!(read_auto_orchestrator(&store.get(AUTO_ORCHESTRATOR_KEY), &decode_model).is_none());
}

#[test]
fn worker_pool_writes_then_reads_unchanged() {
    let store = Store::new();
    let pool = vec![
        WorkerPoolEntry {
            provider_id: "anthropic".into(),
            model: "haiku-4-5".into(),
            description: "cheap exploration".into(),
        },
        WorkerPoolEntry {
            provider_id: "anthropic".into(),
            model: "sonnet-4-6".into(),
            description: "design + synthesis".into(),
        },
    ];
    store.apply(agent_set_auto_worker_pool(&pool, &encode_pool).unwrap());

    let loaded = read_auto_worker_pool(&store.get(AUTO_WORKER_POOL_KEY), &decode_pool);
    assert_eq!(loaded.len(), 2);
    assert_eq!(loaded[0].model, "haiku-4-5");
    assert_eq!(loaded[0].description, "cheap exploration");
    assert_eq!(loaded[1].model, "sonnet-4-6");
}

#[test]
fn worker_pool_defaults_to_empty_when_corrupt() {
    let store = Store::new();
    store.set(AUTO_WORKER_POOL_KEY, "{broken");
    assert!(read_auto_worker_pool(&store.get(AUTO_WORKER_POOL_KEY), &decode_pool).is_empty());
}

#[test]
fn replan_budget_writes_then_reads_unchanged() {
    let store = Store::new();
    store.set(AUTO_REPLAN_BUDGET_KEY, "5");
    assert_eq!(read_auto_replan_budget(&store.get(AUTO_REPLAN_BUDGET_KEY)), 5);
    store.set(AUTO_REPLAN_BUDGET_KEY, "0");
    assert_eq!(read_auto_replan_budget(&store.get(AUTO_REPLAN_BUDGET_KEY)), 0);
}

#[test]
fn replan_budget_defaults_when_unparseable() {
    let store = Store::new();
    store.set(AUTO_REPLAN_BUDGET_KEY, "garbage");
    assert_eq!(
        read_auto_replan_budget(&store.get(AUTO_REPLAN_BUDGET_KEY)),
        DEFAULT_REPLAN_BUDGET
    );
}

#[test]
fn read_auto_settings_assembles_all_three_keys() {
    let store = Store::new();
    let model = ModelRef { provider_id: "anthropic".into(), model: "sonnet-4-6".into() };
    store.set(AUTO_ORCHESTRATOR_KEY, &encode_model(&model).unwrap());
    let pool = vec![WorkerPoolEntry {
        provider_id: "anthropic".into(),
        model: "haiku-4-5".into(),
        description: "cheap".into(),
    }];
    store.set(AUTO_WORKER_POOL_KEY, &encode_pool(&pool).unwrap());
    store.set(AUTO_REPLAN_BUDGET_KEY, "3");

    let s = store.read();
    assert!(s.orchestrator.is_some());
    assert_eq!(s.orchestrator.unwrap().model, "sonnet-4-6");
    assert_eq!(s.worker_pool.len(), 1);
    assert_eq!(s.replan_budget, 3);
}

#[test]
fn every_allowed_budget_is_stored_and_read_back() {
    let store = Store::new();
    for budget in 0..6 {
        store.apply(agent_set_auto_replan_budget(budget).unwrap());
        assert_eq!(read_auto_replan_budget(&store.get(AUTO_REPLAN_BUDGET_KEY)), budget);
    }
}

#[test]
fn budget_above_the_maximum_is_an_error() {
    assert_eq!(
        agent_set_auto_replan_budget(6).unwrap_err(),
        "replan budget 6 exceeds max (5); see PHASE_AUTO_MODE.md"
    );
    assert_eq!(
        agent_set_auto_replan_budget(4294967295).unwrap_err(),
        "replan budget 4294967295 exceeds max (5); see PHASE_AUTO_MODE.md"
    );
}

#[test]
fn budget_text_is_read_like_a_number() {
    let read = |raw: &str| read_auto_replan_budget(&Ok(Some(raw.to_string())));
    assert_eq!(read("+3"), 3);
    assert_eq!(read("007"), 7);
    assert_eq!(read("4294967295"), 4294967295);
    for bad in ["4294967296", "99999999999999999999", "", "+", "-1", "-0", " 1", "1 ", "++1", "1e2"] {
        assert_eq!(read(bad), DEFAULT_REPLAN_BUDGET, "{bad:?}");
    }
}

#[test]
fn store_errors_read_as_unset() {
    let down: Fetched = Err("database is locked".to_string());
    assert!(read_auto_orchestrator(&down, &decode_model).is_none());
    assert!(read_auto_worker_pool(&down, &decode_pool).is_empty());
    assert_eq!(read_auto_replan_budget(&down), DEFAULT_REPLAN_BUDGET);
}

#[test]
fn picking_no_orchestrator_removes_only_that_setting() {
    let store = Store::new();
    let model = ModelRef { provider_id: "p".into(), model: "m".into() };
    store.apply(agent_set_auto_orchestrator_model(&Some(model), &encode_model).unwrap());
    store.apply(agent_set_auto_replan_budget(4).unwrap());
    store.apply(agent_set_auto_orchestrator_model(&None, &encode_model).unwrap());
    let s = store.read();
    assert!(s.orchestrator.is_none());
    assert_eq!(s.replan_budget, 4);
}

#[test]
fn encoder_errors_are_handed_on() {
    let model = ModelRef { provider_id: "p".into(), model: "m".into() };
    let fail = |_: &ModelRef| -> Result<String, String> { Err("no".to_string()) };
    assert_eq!(agent_set_auto_orchestrator_model(&Some(model), &fail).unwrap_err(), "no");
    let fail = |_: &Vec<WorkerPoolEntry>| -> Result<String, String> { Err("nope".to_string()) };
    assert_eq!(agent_set_auto_worker_pool(&Vec::new(), &fail).unwrap_err(), "nope");
}

#[test]
fn default_settings_are_empty() {
    let s = AutoSettings::default();
    assert!(s.orchestrator.is_none());
    assert!(s.worker_pool.is_empty());
    assert_eq!(s.replan_budget, 0);
}

#[test]
fn settings_set_in_any_order_are_read_back_together() {
    let pool = vec![WorkerPoolEntry {
        provider_id: "p".into(),
        model: "small".into(),
        description: "cheap".into(),
    }];
    let orders = [[0, 1, 2], [0, 2, 1], [1, 0, 2], [1, 2, 0], [2, 0, 1], [2, 1, 0]];
    for order in orders {
        let store = Store::new();
        store.apply(agent_set_auto_replan_budget(1).unwrap());
        for which in order {
            let model = ModelRef { provider_id: "p".into(), model: "big".into() };
            store.apply(match which {
                0 => agent_set_auto_orchestrator_model(&Some(model), &encode_model).unwrap(),
                1 => agent_set_auto_worker_pool(&pool, &encode_pool).unwrap(),
                _ => agent_set_auto_replan_budget(5).unwrap(),
            });
        }
        let s = store.read();
        let model = s.orchestrator.unwrap();
        assert_eq!((model.provider_id.as_str(), model.model.as_str()), ("p", "big"));
        assert_eq!(s.worker_pool.len(), 1);
        assert_eq!(s.worker_pool[0].model, "small");
        assert_eq!(s.worker_pool[0].description, "cheap");
        assert_eq!(s.replan_budget, 5);
    }
}

#[test]
fn a_corrupt_setting_defaults_its_own_field_only() {
    let model = ModelRef { provider_id: "p".into(), model: "big".into() };
    let healthy = Store::new();
    healthy.apply(agent_set_auto_orchestrator_model(&Some(model), &encode_model).unwrap());
    healthy.apply(agent_set_auto_replan_budget(5).unwrap());
    let mut fetched = healthy.fetch();
    fetched.worker_pool = Ok(Some("{broken".to_string()));
    fetched.replan_budget = Err("database is locked".to_string());
    let s = read_auto_settings(&fetched, &decode_model, &decode_pool);
    assert_eq!(s.orchestrator.unwrap().model, healthy.read().orchestrator.unwrap().model);
    assert!(s.worker_pool.is_empty());
    assert_eq!(s.replan_budget, DEFAULT_REPLAN_BUDGET);
}
