//! The Auto settings: which values are stored under which keys, what is read
//! back from them, and how a session is marked as being in Auto mode.
//!
//! The store holds text under a key. Fetching and writing happen outside, and
//! so does turning a model or a pool into text and back: a caller hands in what
//! it fetched and how to decode it, or how to encode, and gets the value, or
//! the write to carry out.

use vstd::prelude::*;
use vstd::string::*;

use crate::text::{
    decimal, decimal_text, law_decimal_reads_back, parse_u32, same_text, u32_of_text,
};
use crate::types::{ModelRef, ModelRefView, WorkerPoolEntry, WorkerPoolEntryView};

verus! {

/// The provider that stands for Auto mode. Together with
/// [`AUTO_SENTINEL_MODEL`] it marks a session as being in Auto mode.
pub const AUTO_SENTINEL_PROVIDER_ID: &'static str = "auto";

/// The model that stands for Auto mode.
pub const AUTO_SENTINEL_MODEL: &'static str = "auto";

/// The key of the orchestrator model.
pub const AUTO_ORCHESTRATOR_KEY: &'static str = "auto_orchestrator_model";

/// The key of the worker pool.
pub const AUTO_WORKER_POOL_KEY: &'static str = "auto_worker_pool";

/// The key of the replan budget.
pub const AUTO_REPLAN_BUDGET_KEY: &'static str = "auto_replan_budget";

/// The replan budget when the user has not set one.
pub const DEFAULT_REPLAN_BUDGET: u32 = 2;

/// The largest replan budget that the user can set.
pub const MAX_REPLAN_BUDGET: u32 = 5;

/// Whether a session with this provider and model is in Auto mode.
pub fn is_auto_mode(provider_id: &str, model: &str) -> (res: bool)
    ensures
        res <==> provider_id@ == "auto"@ && model@ == "auto"@,
{
    same_text(provider_id, AUTO_SENTINEL_PROVIDER_ID) && same_text(model, AUTO_SENTINEL_MODEL)
}

/// The settings of Auto mode.
#[derive(Debug)]
pub struct AutoSettings {
    /// The orchestrator model; `None` until the user has picked one.
    pub orchestrator: Option<ModelRef>,
    /// The models that workers may run on.
    pub worker_pool: Vec<WorkerPoolEntry>,
    /// How often a task may be planned again.
    pub replan_budget: u32,
}

/// Model of [`AutoSettings`].
pub struct AutoSettingsView {
    pub orchestrator: Option<ModelRefView>,
    pub worker_pool: Seq<WorkerPoolEntryView>,
    pub replan_budget: u32,
}

impl DeepView for AutoSettings {
    type V = AutoSettingsView;

    open spec fn deep_view(&self) -> AutoSettingsView {
        AutoSettingsView {
            orchestrator: self.orchestrator.deep_view(),
            worker_pool: self.worker_pool.deep_view(),
            replan_budget: self.replan_budget,
        }
    }
}

impl Clone for AutoSettings {
    fn clone(&self) -> (res: Self)
        ensures
            res.deep_view() == self.deep_view(),
    {
        let res = AutoSettings {
            orchestrator: self.orchestrator.clone(),
            worker_pool: self.worker_pool.clone(),
            replan_budget: self.replan_budget,
        };
        assert(res.worker_pool.deep_view() =~= self.worker_pool.deep_view());
        res
    }
}

impl Default for AutoSettings {
    /// Nothing is set, and no replan is allowed.
    fn default() -> (res: Self)
        ensures
            res.deep_view() == (AutoSettingsView {
                orchestrator: None,
                worker_pool: Seq::empty(),
                replan_budget: 0,
            }),
    {
        let res = AutoSettings { orchestrator: None, worker_pool: Vec::new(), replan_budget: 0 };
        assert(res.worker_pool.deep_view() =~= Seq::empty());
        res
    }
}

/// What came of fetching a setting: the text, if there is one, or the store's
/// error.
pub type Fetched = Result<Option<String>, String>;

/// The text that was fetched. An error of the store is as good as no setting.
pub open spec fn fetched_text(fetched: Fetched) -> Option<Seq<char>> {
    match fetched {
        Ok(Some(raw)) => Some(raw@),
        _ => None,
    }
}

/// `decode` may turn the text `raw` into `res`.
pub open spec fn decodes<T, F: Fn(&str) -> Option<T>>(
    decode: F,
    raw: Seq<char>,
    res: Option<T>,
) -> bool {
    exists|text: &str| text@ == raw && #[trigger] decode.ensures((text,), res)
}

/// `decode` can be called on every text.
pub open spec fn decodes_any<T, F: Fn(&str) -> Option<T>>(decode: F) -> bool {
    forall|text: &str| #[trigger] decode.requires((text,))
}

/// Decodes what was fetched.
fn decode_fetched<T, F: Fn(&str) -> Option<T>>(fetched: &Fetched, decode: &F) -> (res: Option<T>)
    requires
        decodes_any(*decode),
    ensures
        match fetched_text(*fetched) {
            Some(raw) => decodes(*decode, raw, res),
            None => res is None,
        },
{
    match fetched {
        Ok(Some(raw)) => {
            let text = raw.as_str();
            let res = decode(text);
            assert(decode.ensures((text,), res));
            res
        },
        _ => None,
    }
}

/// The stored orchestrator model: what `decode` makes of the stored text, and
/// none if nothing is stored or the store fails.
pub fn read_auto_orchestrator<F: Fn(&str) -> Option<ModelRef>>(
    fetched: &Fetched,
    decode: &F,
) -> (res: Option<ModelRef>)
    requires
        decodes_any(*decode),
    ensures
        match fetched_text(*fetched) {
            Some(raw) => decodes(*decode, raw, res),
            None => res is None,
        },
{
    decode_fetched(fetched, decode)
}

/// The pool, or the empty one where there is none.
pub open spec fn pool_or_empty(decoded: Option<Vec<WorkerPoolEntry>>) -> Seq<WorkerPoolEntryView> {
    match decoded {
        Some(pool) => pool.deep_view(),
        None => Seq::empty(),
    }
}

/// The pool that was decoded, or the empty one.
pub fn worker_pool_or_empty(decoded: Option<Vec<WorkerPoolEntry>>) -> (res: Vec<WorkerPoolEntry>)
    ensures
        res.deep_view() == pool_or_empty(decoded),
{
    match decoded {
        Some(pool) => pool,
        None => {
            let res: Vec<WorkerPoolEntry> = Vec::new();
            assert(res.deep_view() =~= Seq::empty());
            res
        },
    }
}

/// The pool `res` is what `fetched` and `decode` give.
pub open spec fn pool_read<F: Fn(&str) -> Option<Vec<WorkerPoolEntry>>>(
    fetched: Fetched,
    decode: F,
    res: Seq<WorkerPoolEntryView>,
) -> bool {
    match fetched_text(fetched) {
        Some(raw) => exists|decoded: Option<Vec<WorkerPoolEntry>>|
            #[trigger] decodes(decode, raw, decoded) && res == pool_or_empty(decoded),
        None => res.len() == 0,
    }
}

/// The stored worker pool: what `decode` makes of the stored text, and the empty
/// pool if nothing is stored, the store fails or the text is not a pool.
pub fn read_auto_worker_pool<F: Fn(&str) -> Option<Vec<WorkerPoolEntry>>>(
    fetched: &Fetched,
    decode: &F,
) -> (res: Vec<WorkerPoolEntry>)
    requires
        decodes_any(*decode),
    ensures
        pool_read(*fetched, *decode, res.deep_view()),
{
    let decoded = decode_fetched(fetched, decode);
    let ghost seen = decoded;
    let res = worker_pool_or_empty(decoded);
    proof {
        if let Some(raw) = fetched_text(*fetched) {
            assert(decodes(*decode, raw, seen));
        }
    }
    res
}

/// The budget that a stored text stands for. What is not a number is as good as
/// no setting.
pub open spec fn budget_of(stored: Option<Seq<char>>) -> u32 {
    match stored {
        Some(raw) => match u32_of_text(raw) {
            Some(budget) => budget,
            None => DEFAULT_REPLAN_BUDGET,
        },
        None => DEFAULT_REPLAN_BUDGET,
    }
}

/// The stored replan budget, or the default one if nothing is stored, the store
/// fails or the text is not a number that fits.
pub fn read_auto_replan_budget(fetched: &Fetched) -> (res: u32)
    ensures
        res == budget_of(fetched_text(*fetched)),
{
    match fetched {
        Ok(Some(raw)) => match parse_u32(raw.as_str()) {
            Some(budget) => budget,
            None => DEFAULT_REPLAN_BUDGET,
        },
        _ => DEFAULT_REPLAN_BUDGET,
    }
}

/// What was fetched for each of the three settings.
#[derive(Debug)]
pub struct FetchedSettings {
    pub orchestrator: Fetched,
    pub worker_pool: Fetched,
    pub replan_budget: Fetched,
}

/// `res` is what was fetched, decoded: each field comes of its own text alone.
pub open spec fn settings_read<
    F: Fn(&str) -> Option<ModelRef>,
    G: Fn(&str) -> Option<Vec<WorkerPoolEntry>>,
>(fetched: FetchedSettings, decode_model: F, decode_pool: G, res: AutoSettings) -> bool {
    &&& match fetched_text(fetched.orchestrator) {
        Some(raw) => decodes(decode_model, raw, res.orchestrator),
        None => res.orchestrator is None,
    }
    &&& pool_read(fetched.worker_pool, decode_pool, res.worker_pool.deep_view())
    &&& res.replan_budget == budget_of(fetched_text(fetched.replan_budget))
}

/// All three settings. Each is read on its own: that one is missing or cannot be
/// read does not touch the others.
pub fn read_auto_settings<
    F: Fn(&str) -> Option<ModelRef>,
    G: Fn(&str) -> Option<Vec<WorkerPoolEntry>>,
>(fetched: &FetchedSettings, decode_model: &F, decode_pool: &G) -> (res: AutoSettings)
    requires
        decodes_any(*decode_model),
        decodes_any(*decode_pool),
    ensures
        settings_read(*fetched, *decode_model, *decode_pool, res),
{
    AutoSettings {
        orchestrator: read_auto_orchestrator(&fetched.orchestrator, decode_model),
        worker_pool: read_auto_worker_pool(&fetched.worker_pool, decode_pool),
        replan_budget: read_auto_replan_budget(&fetched.replan_budget),
    }
}

/// A change of the store.
#[derive(Debug)]
pub enum SettingWrite {
    Put { key: &'static str, value: String },
    Delete { key: &'static str },
}

/// Model of a [`SettingWrite`].
pub enum SettingWriteView {
    Put { key: Seq<char>, value: Seq<char> },
    Delete { key: Seq<char> },
}

impl DeepView for SettingWrite {
    type V = SettingWriteView;

    open spec fn deep_view(&self) -> SettingWriteView {
        match self {
            SettingWrite::Put { key, value } => SettingWriteView::Put { key: key@, value: value@ },
            SettingWrite::Delete { key } => SettingWriteView::Delete { key: key@ },
        }
    }
}

/// `res` is the write of the text that was encoded, or the encoder's error.
pub open spec fn writes_encoded(
    key: Seq<char>,
    encoded: Result<String, String>,
    res: Result<SettingWrite, String>,
) -> bool {
    match encoded {
        Ok(raw) => res matches Ok(write) && write.deep_view() == (SettingWriteView::Put {
            key,
            value: raw@,
        }),
        Err(e) => res == Err::<SettingWrite, String>(e),
    }
}

/// The write of a text that was encoded.
pub fn write_encoded(key: &'static str, encoded: Result<String, String>) -> (res: Result<
    SettingWrite,
    String,
>)
    ensures
        writes_encoded(key@, encoded, res),
{
    match encoded {
        Ok(value) => Ok(SettingWrite::Put { key, value }),
        Err(e) => Err(e),
    }
}

/// How the orchestrator model is stored: what `encode` makes of it, under its
/// key. To pick no model removes the setting.
pub fn agent_set_auto_orchestrator_model<F: Fn(&ModelRef) -> Result<String, String>>(
    model: &Option<ModelRef>,
    encode: &F,
) -> (res: Result<SettingWrite, String>)
    requires
        model matches Some(m) ==> encode.requires((&m,)),
    ensures
        match model {
            Some(m) => exists|encoded: Result<String, String>|
                #[trigger] encode.ensures((&m,), encoded) && writes_encoded(
                    AUTO_ORCHESTRATOR_KEY@,
                    encoded,
                    res,
                ),
            None => res matches Ok(write) && write.deep_view() == (SettingWriteView::Delete {
                key: AUTO_ORCHESTRATOR_KEY@,
            }),
        },
{
    match model {
        Some(m) => {
            let encoded = encode(m);
            let ghost seen = encoded;
            let res = write_encoded(AUTO_ORCHESTRATOR_KEY, encoded);
            assert(encode.ensures((m,), seen));
            res
        },
        None => Ok(SettingWrite::Delete { key: AUTO_ORCHESTRATOR_KEY }),
    }
}

/// How the worker pool is stored: what `encode` makes of it, under its key.
pub fn agent_set_auto_worker_pool<F: Fn(&Vec<WorkerPoolEntry>) -> Result<String, String>>(
    pool: &Vec<WorkerPoolEntry>,
    encode: &F,
) -> (res: Result<SettingWrite, String>)
    requires
        encode.requires((pool,)),
    ensures
        exists|encoded: Result<String, String>|
            #[trigger] encode.ensures((pool,), encoded) && writes_encoded(
                AUTO_WORKER_POOL_KEY@,
                encoded,
                res,
            ),
{
    let encoded = encode(pool);
    let ghost seen = encoded;
    let res = write_encoded(AUTO_WORKER_POOL_KEY, encoded);
    assert(encode.ensures((pool,), seen));
    res
}

/// What is said of a budget that is too large.
pub open spec fn budget_error(budget: u32) -> Seq<char> {
    "replan budget "@ + decimal(budget as nat) + " exceeds max (5); see PHASE_AUTO_MODE.md"@
}

/// The write that stores a budget.
pub open spec fn budget_write(budget: u32) -> SettingWriteView {
    SettingWriteView::Put { key: AUTO_REPLAN_BUDGET_KEY@, value: decimal(budget as nat) }
}

/// How the replan budget is stored: in decimal, under its key. A budget above
/// the largest one is an error.
pub fn agent_set_auto_replan_budget(budget: u32) -> (res: Result<SettingWrite, String>)
    ensures
        match res {
            Ok(write) => budget <= MAX_REPLAN_BUDGET && write.deep_view() == budget_write(budget),
            Err(e) => budget > MAX_REPLAN_BUDGET && e@ == budget_error(budget),
        },
{
    if budget > MAX_REPLAN_BUDGET {
        let mut e = "replan budget ".to_owned();
        e.append(decimal_text(budget).as_str());
        e.append(" exceeds max (5); see PHASE_AUTO_MODE.md");
        return Err(e);
    }
    Ok(SettingWrite::Put { key: AUTO_REPLAN_BUDGET_KEY, value: decimal_text(budget) })
}

/// The store after a write.
pub open spec fn store_after(store: Map<Seq<char>, Seq<char>>, write: SettingWriteView) -> Map<
    Seq<char>,
    Seq<char>,
> {
    match write {
        SettingWriteView::Put { key, value } => store.insert(key, value),
        SettingWriteView::Delete { key } => store.remove(key),
    }
}

/// What the store holds under a key.
pub open spec fn stored(store: Map<Seq<char>, Seq<char>>, key: Seq<char>) -> Option<Seq<char>> {
    if store.contains_key(key) {
        Some(store[key])
    } else {
        None
    }
}

/// A budget that was stored is read back unchanged.
pub proof fn law_budget_reads_back(store: Map<Seq<char>, Seq<char>>, budget: u32)
    ensures
        budget_of(stored(store_after(store, budget_write(budget)), AUTO_REPLAN_BUDGET_KEY@))
            == budget,
{
    law_decimal_reads_back(budget);
}

/// A text that was stored is fetched unchanged, so a model or a pool comes back
/// as whatever its decoder makes of the very text that its encoder made; a
/// setting that was removed is not there.
pub proof fn law_text_reads_back(
    store: Map<Seq<char>, Seq<char>>,
    key: Seq<char>,
    value: Seq<char>,
)
    ensures
        stored(store_after(store, SettingWriteView::Put { key, value }), key) == Some(value),
        stored(store_after(store, SettingWriteView::Delete { key }), key) is None,
{
}

/// `decode` gives `value` back on the text `raw`, and nothing else.
pub open spec fn reads_back<T: DeepView, F: Fn(&str) -> Option<T>>(
    decode: F,
    raw: Seq<char>,
    value: T::V,
) -> bool {
    forall|res: Option<T>| #[trigger] decodes(decode, raw, res) ==> res.deep_view() == Some(value)
}

/// An orchestrator model that was stored is read back unchanged, if the decoder
/// gives the model back on the text that the encoder made of it.
pub proof fn law_orchestrator_reads_back<F: Fn(&str) -> Option<ModelRef>>(
    store: Map<Seq<char>, Seq<char>>,
    model: ModelRef,
    encoded: String,
    written: Result<SettingWrite, String>,
    fetched: Fetched,
    decode: F,
    res: Option<ModelRef>,
)
    requires
        reads_back(decode, encoded@, model.deep_view()),
        writes_encoded(AUTO_ORCHESTRATOR_KEY@, Ok(encoded), written),
        fetched_text(fetched) == stored(
            store_after(store, written->Ok_0.deep_view()),
            AUTO_ORCHESTRATOR_KEY@,
        ),
        match fetched_text(fetched) {
            Some(raw) => decodes(decode, raw, res),
            None => res is None,
        },
    ensures
        res.deep_view() == Some(model.deep_view()),
{
    law_text_reads_back(store, AUTO_ORCHESTRATOR_KEY@, encoded@);
}

/// A worker pool that was stored is read back unchanged, if the decoder gives
/// the pool back on the text that the encoder made of it.
pub proof fn law_worker_pool_reads_back<F: Fn(&str) -> Option<Vec<WorkerPoolEntry>>>(
    store: Map<Seq<char>, Seq<char>>,
    pool: Vec<WorkerPoolEntry>,
    encoded: String,
    written: Result<SettingWrite, String>,
    fetched: Fetched,
    decode: F,
    res: Vec<WorkerPoolEntry>,
)
    requires
        reads_back(decode, encoded@, pool.deep_view()),
        writes_encoded(AUTO_WORKER_POOL_KEY@, Ok(encoded), written),
        fetched_text(fetched) == stored(
            store_after(store, written->Ok_0.deep_view()),
            AUTO_WORKER_POOL_KEY@,
        ),
        pool_read(fetched, decode, res.deep_view()),
    ensures
        res.deep_view() == pool.deep_view(),
{
    law_text_reads_back(store, AUTO_WORKER_POOL_KEY@, encoded@);
}

/// The key that a write changes.
pub open spec fn written_key(write: SettingWriteView) -> Seq<char> {
    match write {
        SettingWriteView::Put { key, .. } => key,
        SettingWriteView::Delete { key } => key,
    }
}

/// The three settings have three keys, and a write under one of them leaves what
/// is stored under every other key as it was.
pub proof fn law_settings_are_independent(
    store: Map<Seq<char>, Seq<char>>,
    write: SettingWriteView,
    key: Seq<char>,
)
    ensures
        AUTO_ORCHESTRATOR_KEY@ != AUTO_WORKER_POOL_KEY@,
        AUTO_ORCHESTRATOR_KEY@ != AUTO_REPLAN_BUDGET_KEY@,
        AUTO_WORKER_POOL_KEY@ != AUTO_REPLAN_BUDGET_KEY@,
        key != written_key(write) ==> stored(store_after(store, write), key) == stored(store, key),
{
    reveal_strlit("auto_orchestrator_model");
    reveal_strlit("auto_worker_pool");
    reveal_strlit("auto_replan_budget");
    assert(AUTO_ORCHESTRATOR_KEY@.len() == 23);
    assert(AUTO_WORKER_POOL_KEY@.len() == 16);
    assert(AUTO_REPLAN_BUDGET_KEY@.len() == 18);
}

/// `decode` makes the same of a text whenever it is called.
pub open spec fn is_repeatable<T: DeepView, F: Fn(&str) -> Option<T>>(decode: F) -> bool {
    forall|raw: Seq<char>, a: Option<T>, b: Option<T>|
        #[trigger] decodes(decode, raw, a) && #[trigger] decodes(decode, raw, b) ==> a.deep_view()
            == b.deep_view()
}

/// Each setting depends on what is stored under its own key alone: two stores
/// that agree under a key give the same value for its setting, whatever is
/// stored, missing, corrupt or failing under the other two keys.
pub proof fn law_each_setting_is_read_alone<
    F: Fn(&str) -> Option<ModelRef>,
    G: Fn(&str) -> Option<Vec<WorkerPoolEntry>>,
>(
    a: FetchedSettings,
    b: FetchedSettings,
    decode_model: F,
    decode_pool: G,
    from_a: AutoSettings,
    from_b: AutoSettings,
)
    requires
        is_repeatable(decode_model),
        is_repeatable(decode_pool),
        settings_read(a, decode_model, decode_pool, from_a),
        settings_read(b, decode_model, decode_pool, from_b),
    ensures
        fetched_text(a.orchestrator) == fetched_text(b.orchestrator)
            ==> from_a.orchestrator.deep_view() == from_b.orchestrator.deep_view(),
        fetched_text(a.worker_pool) == fetched_text(b.worker_pool)
            ==> from_a.worker_pool.deep_view() == from_b.worker_pool.deep_view(),
        fetched_text(a.replan_budget) == fetched_text(b.replan_budget) ==> from_a.replan_budget
            == from_b.replan_budget,
{
    if fetched_text(a.worker_pool) == fetched_text(b.worker_pool) {
        match fetched_text(a.worker_pool) {
            Some(raw) => {
                let x = choose|x: Option<Vec<WorkerPoolEntry>>| #[trigger]
                    decodes(decode_pool, raw, x) && from_a.worker_pool.deep_view()
                        == pool_or_empty(x);
                let y = choose|y: Option<Vec<WorkerPoolEntry>>| #[trigger]
                    decodes(decode_pool, raw, y) && from_b.worker_pool.deep_view()
                        == pool_or_empty(y);
                assert(x.deep_view() == y.deep_view());
            },
            None => {
                assert(from_a.worker_pool.deep_view() =~= from_b.worker_pool.deep_view());
            },
        }
    }
}

/// The store after a row of writes.
pub open spec fn store_after_all(
    store: Map<Seq<char>, Seq<char>>,
    writes: Seq<SettingWriteView>,
) -> Map<Seq<char>, Seq<char>>
    decreases writes.len(),
{
    if writes.len() == 0 {
        store
    } else {
        store_after(store_after_all(store, writes.drop_last()), writes.last())
    }
}

/// `write` is among the writes, and no later one is under its key.
pub open spec fn stands(writes: Seq<SettingWriteView>, write: SettingWriteView) -> bool {
    exists|i: int|
        {
            &&& 0 <= i < writes.len()
            &&& #[trigger] writes[i] == write
            &&& forall|j: int|
                i < j < writes.len() ==> written_key(#[trigger] writes[j]) != written_key(write)
        }
}

/// A text that no later write is under the key of is what the store holds.
proof fn lemma_standing_write_is_stored(
    store: Map<Seq<char>, Seq<char>>,
    writes: Seq<SettingWriteView>,
    key: Seq<char>,
    value: Seq<char>,
)
    requires
        stands(writes, SettingWriteView::Put { key, value }),
    ensures
        stored(store_after_all(store, writes), key) == Some(value),
    decreases writes.len(),
{
    let write = SettingWriteView::Put { key, value };
    let i = choose|i: int|
        {
            &&& 0 <= i < writes.len()
            &&& #[trigger] writes[i] == write
            &&& forall|j: int|
                i < j < writes.len() ==> written_key(#[trigger] writes[j]) != written_key(write)
        };
    if i < writes.len() - 1 {
        let earlier = writes.drop_last();
        assert(earlier[i] == write);
        assert forall|j: int| i < j < earlier.len() implies written_key(#[trigger] earlier[j])
            != written_key(write) by {
            assert(earlier[j] == writes[j]);
        }
        lemma_standing_write_is_stored(store, earlier, key, value);
        assert(written_key(writes[writes.len() - 1]) != key);
    }
}

/// What was set is what is read: after the three setters have succeeded, in any
/// order and among any other writes, with no later write under their keys, the
/// settings are the model, the pool, entry by entry, and the budget that were
/// set. The decoders have to give back, on the text that an encoder made, what
/// the encoder was given.
pub proof fn law_settings_read_back<
    F: Fn(&str) -> Option<ModelRef>,
    G: Fn(&str) -> Option<Vec<WorkerPoolEntry>>,
>(
    store: Map<Seq<char>, Seq<char>>,
    writes: Seq<SettingWriteView>,
    model: ModelRef,
    encoded_model: String,
    model_written: Result<SettingWrite, String>,
    pool: Vec<WorkerPoolEntry>,
    encoded_pool: String,
    pool_written: Result<SettingWrite, String>,
    budget: u32,
    fetched: FetchedSettings,
    decode_model: F,
    decode_pool: G,
    res: AutoSettings,
)
    requires
        reads_back(decode_model, encoded_model@, model.deep_view()),
        reads_back(decode_pool, encoded_pool@, pool.deep_view()),
        writes_encoded(AUTO_ORCHESTRATOR_KEY@, Ok(encoded_model), model_written),
        writes_encoded(AUTO_WORKER_POOL_KEY@, Ok(encoded_pool), pool_written),
        stands(writes, model_written->Ok_0.deep_view()),
        stands(writes, pool_written->Ok_0.deep_view()),
        stands(writes, budget_write(budget)),
        fetched_text(fetched.orchestrator) == stored(
            store_after_all(store, writes),
            AUTO_ORCHESTRATOR_KEY@,
        ),
        fetched_text(fetched.worker_pool) == stored(
            store_after_all(store, writes),
            AUTO_WORKER_POOL_KEY@,
        ),
        fetched_text(fetched.replan_budget) == stored(
            store_after_all(store, writes),
            AUTO_REPLAN_BUDGET_KEY@,
        ),
        settings_read(fetched, decode_model, decode_pool, res),
    ensures
        res.deep_view() == (AutoSettingsView {
            orchestrator: Some(model.deep_view()),
            worker_pool: pool.deep_view(),
            replan_budget: budget,
        }),
{
    lemma_standing_write_is_stored(store, writes, AUTO_ORCHESTRATOR_KEY@, encoded_model@);
    lemma_standing_write_is_stored(store, writes, AUTO_WORKER_POOL_KEY@, encoded_pool@);
    lemma_standing_write_is_stored(
        store,
        writes,
        AUTO_REPLAN_BUDGET_KEY@,
        decimal(budget as nat),
    );
    law_decimal_reads_back(budget);
}

/// The text that is read is the text that was fetched, whatever its length. There
/// is none if nothing is stored or the store fails.
pub proof fn law_text_is_read_whole(raw: String, error: String)
    ensures
        fetched_text(Ok(Some(raw))) == Some(raw@),
        fetched_text(Ok(None)) is None,
        fetched_text(Err(error)) is None,
{
}

/// To decode a text is to hand the decoder that very text, and a decoder is any
/// that takes every text.
pub proof fn law_decoder_gets_the_text<T, F: Fn(&str) -> Option<T>>(
    decode: F,
    raw: Seq<char>,
    res: Option<T>,
)
    ensures
        decodes(decode, raw, res) <==> exists|text: &str|
            text@ == raw && #[trigger] decode.ensures((text,), res),
        decodes_any(decode) <==> forall|text: &str| #[trigger] decode.requires((text,)),
{
}

/// Every text that was fetched for a pool goes to the decoder, whatever its
/// length, and the pool that it makes of the text is the one that is read, entry by
/// entry.
pub proof fn law_pool_is_what_was_decoded<F: Fn(&str) -> Option<Vec<WorkerPoolEntry>>>(
    fetched: Fetched,
    decode: F,
    res: Seq<WorkerPoolEntryView>,
)
    requires
        pool_read(fetched, decode, res),
    ensures
        match fetched {
            Ok(Some(raw)) => exists|text: &str, decoded: Option<Vec<WorkerPoolEntry>>|
                {
                    &&& text@ == raw@
                    &&& #[trigger] decode.ensures((text,), decoded)
                    &&& match decoded {
                        Some(pool) => res == pool.deep_view(),
                        None => res.len() == 0,
                    }
                },
            Ok(None) => res.len() == 0,
            Err(_) => res.len() == 0,
        },
{
    if let Ok(Some(raw)) = fetched {
        let decoded = choose|decoded: Option<Vec<WorkerPoolEntry>>|
            #[trigger] decodes(decode, raw@, decoded) && res == pool_or_empty(decoded);
        let text = choose|text: &str|
            text@ == raw@ && #[trigger] decode.ensures((text,), decoded);
        assert(decode.ensures((text,), decoded));
    }
}

/// Every text that was fetched for a budget is read as a number, whatever its
/// length; the budget is two where there is no number.
pub proof fn law_budget_is_what_was_fetched(fetched: Fetched)
    ensures
        match fetched {
            Ok(Some(raw)) => match u32_of_text(raw@) {
                Some(budget) => budget_of(fetched_text(fetched)) == budget,
                None => budget_of(fetched_text(fetched)) == 2,
            },
            Ok(None) => budget_of(fetched_text(fetched)) == 2,
            Err(_) => budget_of(fetched_text(fetched)) == 2,
        },
{
}

/// Settings that were read are what was fetched: of each text, whatever its
/// length, what its decoder makes of it.
pub proof fn law_settings_are_what_was_fetched<
    F: Fn(&str) -> Option<ModelRef>,
    G: Fn(&str) -> Option<Vec<WorkerPoolEntry>>,
>(fetched: FetchedSettings, decode_model: F, decode_pool: G, res: AutoSettings)
    requires
        settings_read(fetched, decode_model, decode_pool, res),
    ensures
        match fetched.orchestrator {
            Ok(Some(raw)) => exists|text: &str|
                text@ == raw@ && #[trigger] decode_model.ensures((text,), res.orchestrator),
            Ok(None) => res.orchestrator is None,
            Err(_) => res.orchestrator is None,
        },
        match fetched.worker_pool {
            Ok(Some(raw)) => exists|text: &str, decoded: Option<Vec<WorkerPoolEntry>>|
                {
                    &&& text@ == raw@
                    &&& #[trigger] decode_pool.ensures((text,), decoded)
                    &&& match decoded {
                        Some(pool) => res.worker_pool.deep_view() == pool.deep_view(),
                        None => res.worker_pool@.len() == 0,
                    }
                },
            Ok(None) => res.worker_pool@.len() == 0,
            Err(_) => res.worker_pool@.len() == 0,
        },
        match fetched.replan_budget {
            Ok(Some(raw)) => match u32_of_text(raw@) {
                Some(budget) => res.replan_budget == budget,
                None => res.replan_budget == 2,
            },
            Ok(None) => res.replan_budget == 2,
            Err(_) => res.replan_budget == 2,
        },
{
    let pool = res.worker_pool.deep_view();
    assert(pool.len() == res.worker_pool@.len());
    law_pool_is_what_was_decoded(fetched.worker_pool, decode_pool, pool);
    if let Ok(Some(raw)) = fetched.worker_pool {
        let (text, decoded) = choose|text: &str, decoded: Option<Vec<WorkerPoolEntry>>|
            {
                &&& text@ == raw@
                &&& #[trigger] decode_pool.ensures((text,), decoded)
                &&& match decoded {
                    Some(p) => pool == p.deep_view(),
                    None => pool.len() == 0,
                }
            };
        assert(decode_pool.ensures((text,), decoded));
    }
}

/// A text that was encoded is written whole, under the key that it is for; what
/// the encoder says of a value that it cannot encode is passed on.
pub proof fn law_encoded_text_is_written_whole(
    key: Seq<char>,
    encoded: Result<String, String>,
    res: Result<SettingWrite, String>,
)
    requires
        writes_encoded(key, encoded, res),
    ensures
        match encoded {
            Ok(raw) => {
                &&& res matches Ok(SettingWrite::Put { key: k, value })
                &&& k@ == key
                &&& value@ == raw@
            },
            Err(e) => res matches Err(f) && f@ == e@,
        },
{
}

/// Which texts the settings are stored under, how a budget is stored, and what is
/// said of one that is too large.
pub proof fn law_how_settings_are_stored(budget: u32)
    ensures
        AUTO_ORCHESTRATOR_KEY@ == "auto_orchestrator_model"@,
        AUTO_WORKER_POOL_KEY@ == "auto_worker_pool"@,
        AUTO_REPLAN_BUDGET_KEY@ == "auto_replan_budget"@,
        budget_write(budget) == (SettingWriteView::Put {
            key: "auto_replan_budget"@,
            value: decimal(budget as nat),
        }),
        budget_error(budget) == "replan budget "@ + decimal(budget as nat)
            + " exceeds max (5); see PHASE_AUTO_MODE.md"@,
{
}

/// The model of a write tells the key and the text.
pub proof fn law_model_of_write(x: SettingWrite)
    ensures
        match x {
            SettingWrite::Put { key, value } => x.deep_view() == (SettingWriteView::Put {
                key: key@,
                value: value@,
            }),
            SettingWrite::Delete { key } => x.deep_view() == (SettingWriteView::Delete {
                key: key@,
            }),
        },
{
}

/// The model of the settings tells all of them, the pool entry by entry.
pub proof fn law_model_of_settings(x: AutoSettings)
    ensures
        match x.orchestrator {
            Some(model) => x.deep_view().orchestrator == Some(model.deep_view()),
            None => x.deep_view().orchestrator is None,
        },
        x.deep_view().worker_pool.len() == x.worker_pool@.len(),
        forall|i: int|
            0 <= i < x.worker_pool@.len() ==> #[trigger] x.deep_view().worker_pool[i]
                == x.worker_pool@[i].deep_view(),
        x.deep_view().replan_budget == x.replan_budget,
{
}

/// A pool that was decoded is kept as it is, and one that was not is empty.
pub proof fn law_decoded_pool_is_kept(pool: Vec<WorkerPoolEntry>)
    ensures
        pool_or_empty(Some(pool)).len() == pool@.len(),
        forall|i: int|
            0 <= i < pool@.len() ==> #[trigger] pool_or_empty(Some(pool))[i]
                == pool@[i].deep_view(),
        pool_or_empty(None).len() == 0,
{
}

} // verus!
