use revicta_lancedb::{
    payload_columns, DistanceType, FieldValue, LanceDbVectorIndex, QueryEntry, QueryPlan, Row,
    SerevictahParams, SerevictahType, VectorStoreError,
};

fn row(fields: Vec<(&str, FieldValue)>) -> Row {
    Row {
        fields: fields.into_iter().map(|(k, v)| (k.to_string(), v)).collect(),
    }
}

fn num(x: f64) -> FieldValue {
    FieldValue::Number(x.to_bits())
}

fn text(s: &str) -> FieldValue {
    FieldValue::Text(s.to_string())
}

fn index(params: SerevictahParams) -> LanceDbVectorIndex<(), ()> {
    LanceDbVectorIndex::new((), (), "id", params)
}

fn payload(s: &str) -> Result<u32, serde_json::Error> {
    serde_json::from_str::<u32>(s)
}

#[test]
fn default_params_set_nothing() {
    let p = SerevictahParams::default();
    assert!(p.distance_type.is_none());
    assert!(p.serevictah_type.is_none());
    assert!(p.nprobes.is_none());
    assert!(p.refine_factor.is_none());
    assert!(p.post_filter.is_none());
    assert!(p.column.is_none());
}

#[test]
fn builders_set_each_parameter() {
    let p = SerevictahParams::default()
        .distance_type(DistanceType::Cosine)
        .serevictah_type(SerevictahType::Approximate)
        .nprobes(20)
        .refine_factor(5)
        .post_filter(true)
        .column("embedding");
    assert_eq!(p.distance_type, Some(DistanceType::Cosine));
    assert_eq!(p.serevictah_type, Some(SerevictahType::Approximate));
    assert_eq!(p.nprobes, Some(20));
    assert_eq!(p.refine_factor, Some(5));
    assert_eq!(p.post_filter, Some(true));
    assert_eq!(p.column.as_deref(), Some("embedding"));
}

#[test]
fn approximate_with_probes_sets_probes_without_bypass() {
    let p = SerevictahParams::default()
        .serevictah_type(SerevictahType::Approximate)
        .nprobes(10);
    let q = p.apply(QueryPlan::new(QueryEntry::VectorSearch));
    assert_eq!(q.nprobes, Some(10));
    assert!(!q.bypass_vector_index);
    assert_eq!(q.refine_factor, None);
}

#[test]
fn flat_bypasses_index_and_ignores_probes() {
    let p = SerevictahParams::default()
        .nprobes(10)
        .refine_factor(3)
        .serevictah_type(SerevictahType::Flat);
    let q = p.apply(QueryPlan::new(QueryEntry::VectorSearch));
    assert!(q.bypass_vector_index);
    assert_eq!(q.nprobes, None);
    assert_eq!(q.refine_factor, None);
}

#[test]
fn probes_ignored_without_search_type() {
    let p = SerevictahParams::default().nprobes(10).refine_factor(3);
    let q = p.apply(QueryPlan::new(QueryEntry::NearestTo));
    assert!(!q.bypass_vector_index);
    assert_eq!(q.nprobes, None);
    assert_eq!(q.refine_factor, None);
}

#[test]
fn post_filter_false_leaves_prefilter() {
    let q = SerevictahParams::default()
        .post_filter(false)
        .apply(QueryPlan::new(QueryEntry::VectorSearch));
    assert!(!q.postfilter);
    let q = SerevictahParams::default()
        .post_filter(true)
        .apply(QueryPlan::new(QueryEntry::VectorSearch));
    assert!(q.postfilter);
}

#[test]
fn builder_order_does_not_change_configured_query() {
    let a = SerevictahParams::default()
        .distance_type(DistanceType::Dot)
        .serevictah_type(SerevictahType::Approximate)
        .nprobes(10)
        .refine_factor(2)
        .post_filter(true)
        .column("vec");
    let b = SerevictahParams::default()
        .column("vec")
        .post_filter(true)
        .refine_factor(2)
        .nprobes(10)
        .serevictah_type(SerevictahType::Approximate)
        .distance_type(DistanceType::Dot);
    let qa = a.apply(QueryPlan::new(QueryEntry::VectorSearch).limit(4));
    let qb = b.apply(QueryPlan::new(QueryEntry::VectorSearch).limit(4));
    assert_eq!(qa.distance_type, qb.distance_type);
    assert_eq!(qa.distance_type, Some(DistanceType::Dot));
    assert_eq!(qa.bypass_vector_index, qb.bypass_vector_index);
    assert_eq!(qa.nprobes, qb.nprobes);
    assert_eq!(qa.refine_factor, qb.refine_factor);
    assert_eq!(qa.refine_factor, Some(2));
    assert_eq!(qa.postfilter, qb.postfilter);
    assert_eq!(qa.column, qb.column);
    assert_eq!(qa.column.as_deref(), Some("vec"));
    assert_eq!(qa.limit, qb.limit);
}

#[test]
fn embedding_failure_stops_before_the_store() {
    let idx = index(SerevictahParams::default());
    let r = idx.top_n_query(Err("model down".to_string()), 3);
    assert!(matches!(r, Err(VectorStoreError::EmbeddingError(ref m)) if m == "model down"));
    let r = idx.top_n_ids_query(Err(String::new()), 3);
    assert!(matches!(r, Err(VectorStoreError::EmbeddingError(ref m)) if m.is_empty()));
}

#[test]
fn payload_query_is_a_limited_vector_search() {
    let idx = index(SerevictahParams::default().serevictah_type(SerevictahType::Flat));
    let q = idx.top_n_query(Ok(()), 7).unwrap();
    assert_eq!(q.entry, QueryEntry::VectorSearch);
    assert_eq!(q.limit, Some(7));
    assert!(q.select.is_none());
    assert!(q.bypass_vector_index);
}

#[test]
fn ids_query_projects_the_id_column() {
    let idx = index(SerevictahParams::default().column("v"));
    let q = idx.top_n_ids_query(Ok(()), 2).unwrap();
    assert_eq!(q.entry, QueryEntry::NearestTo);
    assert_eq!(q.limit, Some(2));
    assert_eq!(q.select, Some(vec!["id".to_string()]));
    assert_eq!(q.column.as_deref(), Some("v"));
}

#[test]
fn payload_columns_skip_vector_columns() {
    let fields = vec![
        ("id".to_string(), false),
        ("vector".to_string(), true),
        ("definition".to_string(), false),
        ("other_vector".to_string(), true),
    ];
    assert_eq!(
        payload_columns(&fields),
        vec!["id".to_string(), "definition".to_string()]
    );
    assert!(payload_columns(&Vec::new()).is_empty());
}

#[test]
fn zero_results_requested_gives_empty_results() {
    let idx = index(SerevictahParams::default());
    let rows = vec![(row(vec![("id", text("a"))]), payload("x"))];
    let r = idx.top_n_results(0, rows).unwrap();
    assert!(r.is_empty());
    let r = idx.top_n_ids_results(0, &vec![row(vec![("id", text("a"))])]);
    assert!(r.is_empty());
}

#[test]
fn at_most_n_results() {
    let idx = index(SerevictahParams::default());
    let rows = vec![
        (row(vec![("id", text("a"))]), payload("1")),
        (row(vec![("id", text("b"))]), payload("2")),
        (row(vec![("id", text("c"))]), payload("3")),
    ];
    let r = idx.top_n_results(2, rows).unwrap();
    assert_eq!(r.len(), 2);
    assert_eq!(r[1].1, "b");
    let ids = vec![row(vec![("id", text("a"))]), row(vec![("id", text("b"))])];
    assert_eq!(idx.top_n_ids_results(1, &ids).len(), 1);
    assert_eq!(idx.top_n_ids_results(5, &ids).len(), 2);
}

#[test]
fn payload_rows_decode_distance_id_and_payload() {
    let idx = index(SerevictahParams::default());
    let rows = vec![
        (row(vec![("_distance", num(0.25)), ("id", text("doc0"))]), payload("11")),
        (row(vec![("id", text("doc1")), ("_distance", num(1.5))]), payload("12")),
    ];
    let r = idx.top_n_results(10, rows).unwrap();
    assert_eq!(r.len(), 2);
    assert_eq!(f64::from_bits(r[0].0), 0.25);
    assert_eq!(r[0].1, "doc0");
    assert_eq!(r[0].2, 11);
    assert_eq!(f64::from_bits(r[1].0), 1.5);
    assert_eq!(r[1].1, "doc1");
    assert_eq!(r[1].2, 12);
}

#[test]
fn missing_distance_scores_zero() {
    let idx = index(SerevictahParams::default());
    let rows = vec![
        (row(vec![("id", text("a"))]), payload("1")),
        (row(vec![("_distance", text("far")), ("id", text("b"))]), payload("2")),
        (row(vec![("distance", num(3.0)), ("id", text("c"))]), payload("3")),
    ];
    let r = idx.top_n_results(3, rows).unwrap();
    assert_eq!(f64::from_bits(r[0].0), 0.0);
    assert_eq!(f64::from_bits(r[1].0), 0.0);
    assert_eq!(f64::from_bits(r[2].0), 0.0);
    let ids = idx.top_n_ids_results(3, &vec![
        row(vec![("id", text("a"))]),
        row(vec![("_distance", num(2.0)), ("id", text("b"))]),
        row(vec![("distance", num(3.0)), ("id", text("c"))]),
    ]);
    assert_eq!(f64::from_bits(ids[0].0), 0.0);
    assert_eq!(f64::from_bits(ids[1].0), 0.0);
    assert_eq!(f64::from_bits(ids[2].0), 3.0);
}

#[test]
fn payload_missing_id_gets_unknown_index() {
    let idx = index(SerevictahParams::default());
    let mut rows = Vec::new();
    for i in 0..12 {
        if i == 0 || i == 11 {
            rows.push((row(vec![("_distance", num(0.5))]), payload("1")));
        } else if i == 1 {
            rows.push((row(vec![("id", FieldValue::Number(4))]), payload("1")));
        } else {
            rows.push((row(vec![("id", text("x"))]), payload("1")));
        }
    }
    let r = idx.top_n_results(12, rows).unwrap();
    assert_eq!(r[0].1, "unknown0");
    assert_eq!(r[1].1, "unknown1");
    assert_eq!(r[2].1, "x");
    assert_eq!(r[11].1, "unknown11");
}

#[test]
fn ids_only_missing_id_is_empty() {
    let idx = index(SerevictahParams::default());
    let r = idx.top_n_ids_results(
        2,
        &vec![
            row(vec![("distance", num(0.1))]),
            row(vec![("id", FieldValue::Other), ("distance", num(0.2))]),
        ],
    );
    assert_eq!(r[0].1, "");
    assert_ne!(r[0].1, "unknown0");
    assert_eq!(r[1].1, "");
}

#[test]
fn one_bad_payload_fails_the_whole_search() {
    let idx = index(SerevictahParams::default());
    let rows = vec![
        (row(vec![("id", text("a"))]), payload("1")),
        (row(vec![("id", text("b"))]), payload("\"not a number\"")),
        (row(vec![("id", text("c"))]), payload("3")),
    ];
    let r = idx.top_n_results(3, rows);
    assert!(matches!(r, Err(VectorStoreError::JsonError(_))));
}

#[test]
fn bad_payload_beyond_n_is_not_read() {
    let idx = index(SerevictahParams::default());
    let rows = vec![
        (row(vec![("id", text("a"))]), payload("1")),
        (row(vec![("id", text("b"))]), payload("oops")),
    ];
    let r = idx.top_n_results(1, rows).unwrap();
    assert_eq!(r.len(), 1);
    assert_eq!(r[0].2, 1);
}

#[test]
fn index_keeps_its_configuration() {
    let idx = index(SerevictahParams::default().nprobes(4));
    assert_eq!(idx.id_field(), "id");
    assert_eq!(idx.serevictah_params().nprobes, Some(4));
    let q = idx.build_query(QueryPlan::new(QueryEntry::NearestTo));
    assert_eq!(q.nprobes, None);
}
