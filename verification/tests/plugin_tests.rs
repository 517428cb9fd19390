use bytes::BytesMut;
use pgplugins::{Plugin, PluginOutput, PluginState, QueryCache, QueryCacheImpl, QueryLogger, Statement};

fn cache_component(enabled: bool) -> QueryCache {
    QueryCache { enabled, user: b"alice".to_vec(), db: b"mydb".to_vec() }
}

fn batch(texts: &[&str]) -> Vec<Statement> {
    texts.iter().map(|t| Statement::new(t.as_bytes().to_vec())).collect()
}

fn response(values: &[&str]) -> Vec<BytesMut> {
    values.iter().map(|v| BytesMut::from(v.as_bytes())).collect()
}

/// The complete synthesized reply for a one-column plan response `rows`:
/// row description, one data row, `EXPLAIN` completion, ready-for-query.
fn expected_intercept(rows: &[&str]) -> Vec<u8> {
    let mut out: Vec<u8> = Vec::new();
    // Row description: one text column named QUERY PLAN.
    out.push(b'T');
    out.extend_from_slice(&35u32.to_be_bytes());
    out.extend_from_slice(&1u16.to_be_bytes());
    out.extend_from_slice(b"QUERY PLAN\0");
    out.extend_from_slice(&0u32.to_be_bytes()); // table id
    out.extend_from_slice(&0u16.to_be_bytes()); // column id
    out.extend_from_slice(&25u32.to_be_bytes()); // text type oid
    out.extend_from_slice(&0xffffu16.to_be_bytes()); // size -1
    out.extend_from_slice(&0xffff_ffffu32.to_be_bytes()); // modifier -1
    out.extend_from_slice(&0u16.to_be_bytes()); // text format
    // Data row.
    let mut payload: Vec<u8> = Vec::new();
    payload.extend_from_slice(&(rows.len() as u16).to_be_bytes());
    for r in rows {
        payload.extend_from_slice(&(r.len() as u32).to_be_bytes());
        payload.extend_from_slice(r.as_bytes());
    }
    out.push(b'D');
    out.extend_from_slice(&((payload.len() + 4) as u32).to_be_bytes());
    out.extend_from_slice(&payload);
    // Command complete.
    out.push(b'C');
    out.extend_from_slice(&12u32.to_be_bytes());
    out.extend_from_slice(b"EXPLAIN\0");
    // Ready for query, idle.
    out.extend_from_slice(&[b'Z', 0, 0, 0, 5, b'I']);
    out
}

fn assert_allow(r: Result<PluginOutput, pgplugins::Error>) {
    match r {
        Ok(PluginOutput::Allow) => {}
        _ => panic!("expected Allow"),
    }
}

fn assert_intercept(r: Result<PluginOutput, pgplugins::Error>, expected: &[u8]) {
    match r {
        Ok(PluginOutput::Intercept(buf)) => assert_eq!(&buf[..], expected),
        _ => panic!("expected Intercept"),
    }
}

#[test]
fn scenario_a_post_hook_populates_cache() {
    let mut state = PluginState::new();
    let mut cache = cache_component(true);
    let ast = batch(&["EXPLAIN ANALYZE SELECT 1"]);
    assert_allow(cache.run(&mut state, &ast));
    cache.run_post(&mut state, &ast, &vec![response(&["42"])]);
    // The entry is now served for the case-folded key.
    let ast2 = batch(&["explain analyze select 1"]);
    assert_intercept(cache.run(&mut state, &ast2), &expected_intercept(&["42"]));
}

#[test]
fn scenario_b_hit_synthesizes_wire_exact_response() {
    let mut state = PluginState::new();
    let mut cache = cache_component(true);
    let ast = batch(&["EXPLAIN ANALYZE SELECT 1"]);
    cache.run_post(&mut state, &ast, &vec![response(&["42"])]);
    let ast2 = batch(&["explain analyze select 1"]);
    let expected = expected_intercept(&["42"]);
    // Byte-for-byte: column name, row value, completion tag, ready marker.
    assert_intercept(cache.run(&mut state, &ast2), &expected);
}

#[test]
fn scenario_c_multi_statement_batch_always_allows() {
    let mut state = PluginState::new();
    let mut cache = cache_component(true);
    // Populate both keys individually.
    let first = batch(&["SELECT 1"]);
    let second = batch(&["SELECT 2"]);
    cache.run_post(&mut state, &first, &vec![response(&["one"])]);
    cache.run_post(&mut state, &second, &vec![response(&["two"])]);
    assert_intercept(cache.run(&mut state, &first), &expected_intercept(&["one"]));
    // The combined batch still passes through untouched.
    let both = batch(&["SELECT 1", "SELECT 2"]);
    assert_allow(cache.run(&mut state, &both));
}

#[test]
fn scenario_d_disabled_component_bypasses_cache() {
    let mut state = PluginState::new();
    let mut cache = cache_component(true);
    let ast = batch(&["explain analyze select 1"]);
    cache.run_post(&mut state, &ast, &vec![response(&["42"])]);
    let mut disabled = cache_component(false);
    assert_allow(disabled.run(&mut state, &ast));
}

#[test]
fn scenario_e_audit_record_joins_statements_under_labels() {
    let logger = QueryLogger { enabled: true, user: b"alice".to_vec(), db: b"mydb".to_vec() };
    let ast = batch(&["SELECT 1", "SELECT 2"]);
    let rec = logger.audit_record(&ast).expect("enabled logger must produce a record");
    assert_eq!(rec, b"[pool: alice][user: mydb] SELECT 1; SELECT 2".to_vec());
}

#[test]
fn normalization_is_idempotent_on_keys() {
    let s = Statement::new(b"ExPlAiN AnAlYzE SELECT 1".to_vec());
    let n = s.normalize();
    assert_eq!(s.key(), n.key());
    assert_eq!(n.key(), n.normalize().key());
    assert_eq!(s.key(), b"explain analyze select 1".to_vec());
}

#[test]
fn last_write_wins_leaves_only_second_response() {
    let mut state = PluginState::new();
    let mut cache = cache_component(true);
    let ast = batch(&["EXPLAIN ANALYZE SELECT 1"]);
    cache.run_post(&mut state, &ast, &vec![response(&["first"])]);
    cache.run_post(&mut state, &ast, &vec![response(&["second"])]);
    assert_intercept(cache.run(&mut state, &ast), &expected_intercept(&["second"]));
}

#[test]
fn round_trip_serves_other_sessions_from_shared_state() {
    let mut state = PluginState::new();
    let mut cache = cache_component(true);
    let ast = batch(&["EXPLAIN ANALYZE SELECT 1"]);
    cache.run_post(&mut state, &ast, &vec![response(&["42"])]);
    // A component for another user and database shares the keyspace.
    let mut other = QueryCache { enabled: true, user: b"bob".to_vec(), db: b"otherdb".to_vec() };
    assert_intercept(other.run(&mut state, &ast), &expected_intercept(&["42"]));
}

#[test]
fn multi_statement_observation_never_writes() {
    let mut state = PluginState::new();
    let mut cache = cache_component(true);
    let both = batch(&["SELECT 1", "SELECT 2"]);
    cache.run_post(
        &mut state,
        &both,
        &vec![response(&["one"]), response(&["two"])],
    );
    // Neither statement was cached.
    assert_allow(cache.run(&mut state, &batch(&["SELECT 1"])));
    assert_allow(cache.run(&mut state, &batch(&["SELECT 2"])));
}

#[test]
fn disabled_observation_never_writes() {
    let mut state = PluginState::new();
    let mut disabled = cache_component(false);
    let ast = batch(&["EXPLAIN ANALYZE SELECT 1"]);
    disabled.run_post(&mut state, &ast, &vec![response(&["42"])]);
    let mut cache = cache_component(true);
    assert_allow(cache.run(&mut state, &ast));
}

#[test]
fn empty_batch_allows_and_observes_nothing() {
    let mut state = PluginState::new();
    let mut cache = cache_component(true);
    let empty: Vec<Statement> = Vec::new();
    assert_allow(cache.run(&mut state, &empty));
    cache.run_post(&mut state, &empty, &Vec::new());
    assert_allow(cache.run(&mut state, &empty));
}

#[test]
fn missing_response_is_not_stored() {
    let mut state = PluginState::new();
    let mut cache = cache_component(true);
    let ast = batch(&["EXPLAIN ANALYZE SELECT 1"]);
    // A response sequence shorter than the batch truncates the pairing.
    cache.run_post(&mut state, &ast, &Vec::new());
    assert_allow(cache.run(&mut state, &ast));
}

#[test]
fn multi_row_response_round_trips() {
    let mut state = PluginState::new();
    let mut cache = cache_component(true);
    let ast = batch(&["EXPLAIN ANALYZE SELECT 1"]);
    cache.run_post(&mut state, &ast, &vec![response(&["Seq Scan", "cost=0.00"])]);
    assert_intercept(
        cache.run(&mut state, &ast),
        &expected_intercept(&["Seq Scan", "cost=0.00"]),
    );
}

#[test]
fn logger_hooks_allow_and_do_not_touch_state() {
    let mut state = PluginState::new();
    let mut logger = QueryLogger { enabled: true, user: b"alice".to_vec(), db: b"mydb".to_vec() };
    let ast = batch(&["SELECT 1"]);
    assert_allow(logger.run(&mut state, &ast));
    logger.run_post(&mut state, &ast, &vec![response(&["42"])]);
    // The cache stays empty: the logger never writes shared state.
    let mut cache = cache_component(true);
    assert_allow(cache.run(&mut state, &ast));
}

#[test]
fn disabled_logger_produces_no_record() {
    let logger = QueryLogger { enabled: false, user: b"alice".to_vec(), db: b"mydb".to_vec() };
    assert!(logger.audit_record(&batch(&["SELECT 1"])).is_none());
}

#[test]
fn logger_record_of_empty_batch_holds_labels_only() {
    let logger = QueryLogger { enabled: true, user: b"alice".to_vec(), db: b"mydb".to_vec() };
    let rec = logger.audit_record(&Vec::new()).expect("record");
    assert_eq!(rec, b"[pool: alice][user: mydb] ".to_vec());
}

#[test]
fn fresh_cache_misses() {
    let mut state = PluginState::new();
    let cache_state = QueryCacheImpl::new();
    assert!(cache_state.get(&b"explain analyze select 1".to_vec()).is_none());
    let mut cache = cache_component(true);
    assert_allow(cache.run(&mut state, &batch(&["SELECT 1"])));
}

#[test]
fn insert_and_get_share_exact_rows() {
    let mut cache_state = QueryCacheImpl::new();
    cache_state.insert(b"k".to_vec(), response(&["a", "b"]));
    let rows = cache_state.get(&b"k".to_vec()).expect("hit");
    assert_eq!(rows.len(), 2);
    assert_eq!(&rows[0][..], b"a");
    assert_eq!(&rows[1][..], b"b");
    assert!(cache_state.get(&b"other".to_vec()).is_none());
}

#[test]
fn statements_parsed_by_sqlparser_round_trip() {
    // The hosting router parses client SQL; the policy layer sees the
    // canonical rendering of each statement.
    let dialect = sqlparser::dialect::PostgreSqlDialect {};
    let parsed = sqlparser::parser::Parser::parse_sql(&dialect, "EXPLAIN ANALYZE SELECT 1")
        .expect("parse");
    let ast: Vec<Statement> =
        parsed.iter().map(|s| Statement::new(s.to_string().into_bytes())).collect();
    let mut state = PluginState::new();
    let mut cache = cache_component(true);
    cache.run_post(&mut state, &ast, &vec![response(&["42"])]);
    let reparsed = sqlparser::parser::Parser::parse_sql(&dialect, "explain analyze select 1")
        .expect("parse");
    let ast2: Vec<Statement> =
        reparsed.iter().map(|s| Statement::new(s.to_string().into_bytes())).collect();
    assert_intercept(cache.run(&mut state, &ast2), &expected_intercept(&["42"]));
}
