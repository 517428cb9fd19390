//! The query result cache component.
//!
//! The cache maps the case-folded canonical text of a plan-inspection
//! statement to the rows a backend last returned for it. One instance lives
//! in the shared policy state for the lifetime of the process: entries are
//! never evicted, and the keyspace is deliberately not partitioned by client
//! user or target database, even though the component carries both — every
//! connection shares one keyspace.

use vstd::prelude::*;

use crate::ascii::bytes_eq;
use crate::bytebuf::{
    buf_bytes, buf_extend_from_buf, buf_new, buf_put_u32, buf_put_u8, clone_rows, responses_view,
    rows_view,
};
use crate::messages::{
    check_row_fits, command_complete, command_complete_bytes, data_row, data_row_bytes,
    fields_bytes, pairs_view, ready_for_query_idle, row_description, row_description_bytes,
    row_fits, DataType, STATUS_IDLE, TAG_READY_FOR_QUERY,
};
use crate::plugins::{Error, Plugin, PluginOutput, PluginState};
use crate::statement::{key_of, texts_of, Statement};

verus! {

/// One stored entry: a normalized key and the rows last observed for it.
struct CacheEntry {
    key: Vec<u8>,
    rows: Vec<bytes::BytesMut>,
}

/// The mapping a sequence of entries stands for; a later entry overrides an
/// earlier one with the same key.
spec fn entries_map(s: Seq<CacheEntry>) -> Map<Seq<u8>, Seq<Seq<u8>>>
    decreases s.len(),
{
    if s.len() == 0 {
        Map::empty()
    } else {
        entries_map(s.drop_last()).insert(s.last().key@, rows_view(s.last().rows@))
    }
}

/// No two entries share a key.
spec fn keys_unique(s: Seq<CacheEntry>) -> bool {
    forall|i: int, j: int| 0 <= i < j < s.len() ==> s[i].key@ != s[j].key@
}

/// Every stored response fits inside one data-row frame, so any hit can be
/// answered with a well-formed synthesized reply.
spec fn entries_fit(s: Seq<CacheEntry>) -> bool {
    forall|i: int| 0 <= i < s.len() ==> row_fits(rows_view((#[trigger] s[i]).rows@))
}

/// Shared sub-state of the query result cache component.
pub struct QueryCacheImpl {
    explain_analyze_cache: Vec<CacheEntry>,
}

impl View for QueryCacheImpl {
    type V = Map<Seq<u8>, Seq<Seq<u8>>>;

    closed spec fn view(&self) -> Map<Seq<u8>, Seq<Seq<u8>>> {
        entries_map(self.explain_analyze_cache@)
    }
}

/// An entry whose key differs from every entry of `s` is absent from the
/// mapping `s` stands for.
proof fn lemma_entries_map_absent(s: Seq<CacheEntry>, k: Seq<u8>)
    requires
        forall|i: int| 0 <= i < s.len() ==> (#[trigger] s[i]).key@ != k,
    ensures
        !entries_map(s).contains_key(k),
    decreases s.len(),
{
    if s.len() > 0 {
        lemma_entries_map_absent(s.drop_last(), k);
    }
}

/// With unique keys, the mapping holds exactly each entry's rows under its
/// key.
proof fn lemma_entries_map_index(s: Seq<CacheEntry>, i: int)
    requires
        keys_unique(s),
        0 <= i < s.len(),
    ensures
        entries_map(s).contains_key(s[i].key@),
        entries_map(s)[s[i].key@] == rows_view(s[i].rows@),
    decreases s.len(),
{
    if i < s.len() - 1 {
        assert(keys_unique(s.drop_last()));
        lemma_entries_map_index(s.drop_last(), i);
        assert(s.drop_last()[i] == s[i]);
        assert(s.last().key@ != s[i].key@);
    }
}

/// Replacing the rows of the entry that holds a key updates the mapping at
/// that key and nothing else.
proof fn lemma_entries_map_update(s: Seq<CacheEntry>, i: int, e: CacheEntry)
    requires
        keys_unique(s),
        0 <= i < s.len(),
        e.key@ == s[i].key@,
    ensures
        entries_map(s.update(i, e)) == entries_map(s).insert(e.key@, rows_view(e.rows@)),
    decreases s.len(),
{
    let s2 = s.update(i, e);
    if i == s.len() - 1 {
        assert(s2.drop_last() =~= s.drop_last());
        assert(s2.last() == e);
        assert(s.last() == s[i]);
        assert(entries_map(s.drop_last()).insert(s[i].key@, rows_view(s[i].rows@)).insert(
            e.key@,
            rows_view(e.rows@),
        ) =~= entries_map(s.drop_last()).insert(e.key@, rows_view(e.rows@)));
    } else {
        assert(keys_unique(s.drop_last()));
        assert(s.drop_last()[i] == s[i]);
        lemma_entries_map_update(s.drop_last(), i, e);
        assert(s2.drop_last() =~= s.drop_last().update(i, e));
        assert(s2.last() == s.last());
        assert(s.last().key@ != e.key@);
        assert(entries_map(s.drop_last()).insert(e.key@, rows_view(e.rows@)).insert(
            s.last().key@,
            rows_view(s.last().rows@),
        ) =~= entries_map(s.drop_last()).insert(s.last().key@, rows_view(s.last().rows@)).insert(
            e.key@,
            rows_view(e.rows@),
        ));
    }
}

/// Finds the index of the entry holding a key, if any.
fn find_entry(entries: &Vec<CacheEntry>, key: &Vec<u8>) -> (r: Option<usize>)
    ensures
        match r {
            Some(i) => i < entries@.len() && entries@[i as int].key@ == key@,
            None => forall|j: int|
                0 <= j < entries@.len() ==> (#[trigger] entries@[j]).key@ != key@,
        },
{
    for i in 0..entries.len()
        invariant
            forall|j: int| 0 <= j < i ==> (#[trigger] entries@[j]).key@ != key@,
    {
        if bytes_eq(&entries[i].key, key) {
            return Some(i);
        }
    }
    None
}

impl QueryCacheImpl {
    /// The representation invariant: keys are unique, so each key stands for
    /// exactly one response, and every stored response fits a data-row frame.
    #[verifier::type_invariant]
    spec fn inv(self) -> bool {
        keys_unique(self.explain_analyze_cache@) && entries_fit(self.explain_analyze_cache@)
    }

    /// A fresh, empty cache.
    pub fn new() -> (c: Self)
        ensures
            c@ == Map::<Seq<u8>, Seq<Seq<u8>>>::empty(),
    {
        QueryCacheImpl { explain_analyze_cache: Vec::new() }
    }

    /// Looks up the response stored under a normalized key.
    pub fn get(&self, key: &Vec<u8>) -> (r: Option<&Vec<bytes::BytesMut>>)
        ensures
            match r {
                Some(rows) => self@.contains_key(key@) && rows_view(rows@) == self@[key@]
                    && row_fits(rows_view(rows@)),
                None => !self@.contains_key(key@),
            },
    {
        proof {
            use_type_invariant(&*self);
        }
        let n = self.explain_analyze_cache.len();
        for i in 0..n
            invariant
                n == self.explain_analyze_cache@.len(),
                keys_unique(self.explain_analyze_cache@),
                entries_fit(self.explain_analyze_cache@),
                forall|j: int|
                    0 <= j < i ==> (#[trigger] self.explain_analyze_cache@[j]).key@ != key@,
        {
            if bytes_eq(&self.explain_analyze_cache[i].key, key) {
                proof {
                    lemma_entries_map_index(self.explain_analyze_cache@, i as int);
                }
                return Some(&self.explain_analyze_cache[i].rows);
            }
        }
        proof {
            lemma_entries_map_absent(self.explain_analyze_cache@, key@);
        }
        None
    }

    /// Stores a response under a normalized key, overwriting whatever the
    /// key held before: the last observed response wins.
    pub fn insert(&mut self, key: Vec<u8>, rows: Vec<bytes::BytesMut>)
        requires
            row_fits(rows_view(rows@)),
        ensures
            final(self)@ == old(self)@.insert(key@, rows_view(rows@)),
    {
        proof {
            use_type_invariant(&*self);
        }
        let ghost s0 = self.explain_analyze_cache@;
        let ghost kk = key@;
        let ghost rv = rows_view(rows@);
        let mut entries: Vec<CacheEntry> = Vec::new();
        std::mem::swap(&mut entries, &mut self.explain_analyze_cache);
        match find_entry(&entries, &key) {
            Some(i) => {
                let e = CacheEntry { key, rows };
                entries[i] = e;
                proof {
                    lemma_entries_map_update(s0, i as int, entries@[i as int]);
                    assert(keys_unique(entries@)) by {
                        assert(forall|a: int|
                            0 <= a < entries@.len() && a != i ==> entries@[a] == s0[a]);
                    }
                }
            },
            None => {
                entries.push(CacheEntry { key, rows });
                proof {
                    assert(entries@.drop_last() =~= s0);
                    assert(entries@.last().key@ == kk);
                    assert(keys_unique(entries@)) by {
                        assert(forall|a: int|
                            0 <= a < entries@.len() - 1 ==> entries@[a] == s0[a]);
                    }
                }
            },
        }
        proof {
            assert(entries_fit(entries@));
        }
        self.explain_analyze_cache = entries;
    }
}

/// `QUERY PLAN`, the column name a synthesized plan response declares.
pub open spec fn query_plan_label() -> Seq<u8> {
    seq![81u8, 85u8, 69u8, 82u8, 89u8, 32u8, 80u8, 76u8, 65u8, 78u8]
}

/// Builds the declared column name as a byte vector.
fn query_plan_label_vec() -> (r: Vec<u8>)
    ensures
        r@ == query_plan_label(),
{
    let mut r: Vec<u8> = Vec::new();
    r.push(81);
    r.push(85);
    r.push(69);
    r.push(82);
    r.push(89);
    r.push(32);
    r.push(80);
    r.push(76);
    r.push(65);
    r.push(78);
    proof {
        assert(r@ =~= query_plan_label());
    }
    r
}

/// `EXPLAIN`, the completion tag of a synthesized plan response.
pub open spec fn explain_tag() -> Seq<u8> {
    seq![69u8, 88u8, 80u8, 76u8, 65u8, 73u8, 78u8]
}

/// Builds the completion tag as a byte vector.
fn explain_tag_vec() -> (r: Vec<u8>)
    ensures
        r@ == explain_tag(),
{
    let mut r: Vec<u8> = Vec::new();
    r.push(69);
    r.push(88);
    r.push(80);
    r.push(76);
    r.push(65);
    r.push(73);
    r.push(78);
    proof {
        assert(r@ =~= explain_tag());
    }
    r
}

/// The column declarations of a synthesized plan response: one text column
/// named `QUERY PLAN`.
pub open spec fn plan_columns() -> Seq<(Seq<u8>, DataType)> {
    seq![(query_plan_label(), DataType::Text)]
}

/// The complete synthesized response for a cached plan: a row description
/// declaring the plan column, one data row holding the cached rows, an
/// `EXPLAIN` completion tag, and an idle ready-for-query frame.
pub open spec fn intercept_bytes(rows: Seq<Seq<u8>>) -> Seq<u8> {
    row_description_bytes(plan_columns()) + data_row_bytes(rows) + command_complete_bytes(
        explain_tag(),
    ) + ready_for_query_idle()
}

/// Whether a pre-hook evaluation is served from the cache: the component is
/// enabled, the batch holds exactly one statement, and the statement's
/// normalized key is present.
pub open spec fn serves_from_cache(
    enabled: bool,
    cache: Map<Seq<u8>, Seq<Seq<u8>>>,
    batch: Seq<Seq<u8>>,
) -> bool {
    enabled && batch.len() == 1 && cache.contains_key(key_of(batch[0]))
}

/// The cache contents after one post-hook observation: an enabled component
/// that saw a single-statement batch with at least one response stores that
/// response under the statement's key, unconditionally overwriting what the
/// key held. Anything else — a disabled component, an empty or
/// multi-statement batch, a missing response — leaves the cache untouched,
/// as does a response too large to ever fit one data-row frame.
pub open spec fn observed(
    cache: Map<Seq<u8>, Seq<Seq<u8>>>,
    enabled: bool,
    batch: Seq<Seq<u8>>,
    responses: Seq<Seq<Seq<u8>>>,
) -> Map<Seq<u8>, Seq<Seq<u8>>> {
    if enabled && batch.len() == 1 && responses.len() >= 1 && row_fits(responses[0]) {
        cache.insert(key_of(batch[0]), responses[0])
    } else {
        cache
    }
}

/// The query result cache policy component. It is constructed per
/// query-processing context, with identity copied from the session; the
/// identity plays no part in lookups, since all connections share one
/// keyspace.
pub struct QueryCache {
    /// Whether the component takes part in query processing at all.
    pub enabled: bool,
    /// User the session authenticated as, carried for identification only.
    pub user: Vec<u8>,
    /// Name of the database the session targets, likewise only carried.
    pub db: Vec<u8>,
}

impl Plugin for QueryCache {
    open spec fn run_ens(
        pre: Self,
        post: Self,
        pre_state: PluginState,
        post_state: PluginState,
        ast: Seq<Statement>,
        r: Result<PluginOutput, Error>,
    ) -> bool {
        let cache = pre_state.query_cache@;
        let batch = texts_of(ast);
        &&& post == pre
        &&& post_state == pre_state
        &&& (!serves_from_cache(pre.enabled, cache, batch) ==> r == Ok::<PluginOutput, Error>(
            PluginOutput::Allow,
        ))
        &&& (serves_from_cache(pre.enabled, cache, batch) ==> (r matches Ok(
            PluginOutput::Intercept(buf),
        ) && buf_bytes(buf) == intercept_bytes(cache[key_of(batch[0])])))
    }

    open spec fn run_post_ens(
        pre: Self,
        post: Self,
        pre_state: PluginState,
        post_state: PluginState,
        ast: Seq<Statement>,
        responses: Seq<Vec<bytes::BytesMut>>,
    ) -> bool {
        &&& post == pre
        &&& post_state.query_cache@ == observed(
            pre_state.query_cache@,
            pre.enabled,
            texts_of(ast),
            responses_view(responses),
        )
    }

    /// Pre-hook: a disabled component, an empty batch, and a multi-statement
    /// batch always pass through; a single statement whose normalized key is
    /// cached is answered with the complete synthesized response instead of
    /// reaching a backend.
    fn run(&mut self, plugin_state: &mut PluginState, ast: &Vec<Statement>) -> (r: Result<
        PluginOutput,
        Error,
    >) {
        if !self.enabled || ast.len() == 0 {
            return Ok(PluginOutput::Allow);
        }
        if ast.len() > 1 {
            return Ok(PluginOutput::Allow);
        }
        let query = ast[0].key();
        proof {
            assert(texts_of(ast@)[0] == ast@[0]@);
        }
        match plugin_state.query_cache.get(&query) {
            None => Ok(PluginOutput::Allow),
            Some(rows) => {
                let mut columns: Vec<(Vec<u8>, DataType)> = Vec::new();
                columns.push((query_plan_label_vec(), DataType::Text));
                proof {
                    assert(pairs_view(columns@) =~= plan_columns());
                    crate::messages::lemma_fields_bytes_single(
                        (query_plan_label(), DataType::Text),
                    );
                    assert(fields_bytes(plan_columns()).len() == 29);
                }
                let rd = row_description(&columns);
                let dr = data_row(rows);
                let tag = explain_tag_vec();
                let cc = command_complete(&tag);
                let mut result = buf_new();
                buf_extend_from_buf(&mut result, &rd);
                buf_extend_from_buf(&mut result, &dr);
                buf_extend_from_buf(&mut result, &cc);
                buf_put_u8(&mut result, TAG_READY_FOR_QUERY);
                buf_put_u32(&mut result, 5);
                buf_put_u8(&mut result, STATUS_IDLE);
                proof {
                    let cache = plugin_state.query_cache@;
                    let k = key_of(texts_of(ast@)[0]);
                    assert(buf_bytes(rd) == row_description_bytes(plan_columns()));
                    assert(buf_bytes(dr) == data_row_bytes(cache[k]));
                    assert(buf_bytes(cc) == command_complete_bytes(explain_tag()));
                    assert(5u32 >> 24 == 0 && 5u32 >> 16 == 0 && 5u32 >> 8 == 0) by (bit_vector);
                    assert(crate::bytebuf::be32(5) =~= seq![0u8, 0u8, 0u8, 5u8]);
                    assert(buf_bytes(result) =~= buf_bytes(rd) + buf_bytes(dr) + buf_bytes(cc)
                        + ready_for_query_idle());
                    assert(buf_bytes(result) =~= intercept_bytes(cache[k]));
                }
                Ok(PluginOutput::Intercept(result))
            },
        }
    }

    /// Post-hook: pairs the batch with the backend's responses positionally
    /// — the pairing is truncated to the shorter of the two — and stores the
    /// response of a single-statement batch under the statement's key, the
    /// last write winning. Multi-statement batches are never written to the
    /// cache, and a disabled component never touches shared state.
    fn run_post(
        &mut self,
        plugin_state: &mut PluginState,
        ast: &Vec<Statement>,
        responses: &Vec<Vec<bytes::BytesMut>>,
    ) {
        if !self.enabled {
            return;
        }
        if ast.len() != 1 || responses.len() == 0 {
            return;
        }
        let query = ast[0].key();
        let rows = clone_rows(&responses[0]);
        proof {
            assert(texts_of(ast@)[0] == ast@[0]@);
            assert(responses_view(responses@)[0] == rows_view(responses@[0]@));
        }
        if check_row_fits(&rows) {
            plugin_state.query_cache.insert(query, rows);
        }
    }
}

/// Multi-statement exclusion: a batch of more than one statement is never
/// served from the cache, and a post-hook observation of one never writes to
/// the cache, whatever the cache holds.
pub proof fn lemma_multi_statement_excluded(
    enabled: bool,
    cache: Map<Seq<u8>, Seq<Seq<u8>>>,
    batch: Seq<Seq<u8>>,
    responses: Seq<Seq<Seq<u8>>>,
)
    requires
        batch.len() > 1,
    ensures
        !serves_from_cache(enabled, cache, batch),
        observed(cache, enabled, batch, responses) == cache,
{
}

/// Disabled invariant: a disabled component is inert — its pre-hook is never
/// served from the cache, and its post-hook leaves the cache untouched, for
/// all inputs.
pub proof fn lemma_disabled_inert(
    cache: Map<Seq<u8>, Seq<Seq<u8>>>,
    batch: Seq<Seq<u8>>,
    responses: Seq<Seq<Seq<u8>>>,
)
    ensures
        !serves_from_cache(false, cache, batch),
        observed(cache, false, batch, responses) == cache,
{
}

/// Cache round trip: once a post-hook has observed response `rows` for a
/// single-statement batch, a pre-hook evaluation of any statement with the
/// same normalized key — from the same session or any other — is served
/// from the cache, and the entry it is served holds exactly `rows`, so the
/// synthesized buffer's data row carries them.
pub proof fn lemma_cache_round_trip(
    cache: Map<Seq<u8>, Seq<Seq<u8>>>,
    observed_text: Seq<u8>,
    later_text: Seq<u8>,
    rows: Seq<Seq<u8>>,
)
    requires
        key_of(later_text) == key_of(observed_text),
        row_fits(rows),
    ensures
        ({
            let after = observed(cache, true, seq![observed_text], seq![rows]);
            serves_from_cache(true, after, seq![later_text]) && after[key_of(later_text)] == rows
        }),
{
}

/// Last write wins: two successive observations for the same key leave the
/// cache holding only the second response, with no merging and no staleness
/// check.
pub proof fn lemma_last_write_wins(
    cache: Map<Seq<u8>, Seq<Seq<u8>>>,
    text: Seq<u8>,
    first: Seq<Seq<u8>>,
    second: Seq<Seq<u8>>,
)
    requires
        row_fits(first),
        row_fits(second),
    ensures
        ({
            let twice = observed(
                observed(cache, true, seq![text], seq![first]),
                true,
                seq![text],
                seq![second],
            );
            twice == observed(cache, true, seq![text], seq![second]) && twice[key_of(text)]
                == second
        }),
{
    assert(cache.insert(key_of(text), first).insert(key_of(text), second) =~= cache.insert(
        key_of(text),
        second,
    ));
}

} // verus!
