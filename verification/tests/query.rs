//! Queries: requests, failures, observations and the JSON form of results.
use helix_db::error::HelixDbError;
use helix_db::json::count_members;
use helix_db::migrations::acceptance::returned_ids;
use helix_db::migrations::definitions::VectorDistanceMetric;
use helix_db::mode::HelixDbMode;
use helix_db::names::{in_name_order, text_precedes};
use helix_db::query_service::{
    query_error_type, query_param_bindings, ready_query, take_request, BatchQuery, PlannerError,
    QueryErrorCode, QueryErrorType, QueryMode, QueryObservation, QueryOutcome, QueryPhase,
    QueryRequest, QueryServiceError, QueryType, ValidatedQuery,
};
use helix_db::response::{
    element_ref_to_json, execution_row_to_json, execution_scalar_to_json, execution_value_to_json,
    ElementRef, ExecutionRow, ExecutionScalar, ExecutionValue, QueryResponse, RowSack,
};

type Request = QueryRequest<&'static str, &'static str, bool>;

fn read_request() -> Request {
    QueryRequest { query: BatchQuery::Read("read"), parameters: vec![] }
}

fn write_request() -> Request {
    QueryRequest { query: BatchQuery::Write("write"), parameters: vec![] }
}

fn json(text: &str) -> serde_json::Value {
    serde_json::from_str(text).expect("valid json")
}

fn failed_json() -> String {
    serde_json::from_str::<serde_json::Value>("{").expect_err("invalid json").to_string()
}

fn row(current: ElementRef) -> ExecutionRow {
    let mut row = ExecutionRow::empty();
    row.current = Some(current);
    row
}

#[test]
fn query_param_bindings_reject_empty_names() {
    let err = query_param_bindings(vec![(String::new(), true)])
        .expect_err("empty parameter name should be rejected");
    assert!(matches!(err, QueryServiceError::InvalidRequest(_)));
    let bound = query_param_bindings(vec![("b".to_string(), 2), ("a".to_string(), 1)])
        .expect("named parameters bind");
    assert_eq!(bound, vec![("a".to_string(), 1), ("b".to_string(), 2)]);
}

#[test]
fn validated_query_preserves_closed_request_kind() {
    assert!(matches!(
        ValidatedQuery::from_request(read_request()),
        ValidatedQuery::Read { batch: "read", .. }
    ));
    assert!(matches!(
        ValidatedQuery::from_request(write_request()),
        ValidatedQuery::Write { batch: "write", .. }
    ));
}

#[test]
fn warm_mode_accepts_read_queries() {
    let query: ValidatedQuery<&str, &str, bool> =
        ValidatedQuery::Read { batch: "", parameters: vec![] };
    query.validate_mode(QueryMode::Warm).expect("warm mode accepts read queries");
}

#[test]
fn warm_mode_rejects_write_queries() {
    let query: ValidatedQuery<&str, &str, bool> =
        ValidatedQuery::Write { batch: "", parameters: vec![] };
    let err = query.validate_mode(QueryMode::Warm).expect_err("warm mode rejects write queries");
    assert!(matches!(err, QueryServiceError::InvalidRequest(_)));
    assert!(query.validate_mode(QueryMode::Execute).is_ok());
}

#[test]
fn requests_are_taken_in_within_their_deadline() {
    let late = take_request(
        Err(HelixDbError::QueryDeadlineExceeded),
        read_request(),
        QueryMode::Execute,
    )
    .expect_err("a late request is refused");
    assert!(late.is_deadline_exceeded());
    assert!(take_request(Ok(()), write_request(), QueryMode::Execute).is_ok());
    assert!(take_request(Ok(()), write_request(), QueryMode::Warm).is_err());
}

#[test]
fn query_service_rejects_writes_on_reader_handles() {
    let query = ValidatedQuery::from_request(write_request());
    let error = ready_query(Ok(()), query, HelixDbMode::ReadOnly)
        .expect_err("reader must reject write requests");
    assert!(matches!(
        error,
        QueryServiceError::Db(HelixDbError::WriterModeRequired { actual: "reader" })
    ));
    let (batch, bindings) = ready_query(
        Ok(()),
        ValidatedQuery::<&str, &str, bool>::Read {
            batch: "read",
            parameters: vec![("flag".to_string(), true)],
        },
        HelixDbMode::ReadOnly,
    )
    .expect("readers read");
    assert!(matches!(batch, BatchQuery::Read("read")));
    assert_eq!(bindings, vec![("flag".to_string(), true)]);
    let unnamed = ready_query(
        Ok(()),
        ValidatedQuery::<&str, &str, bool>::Read {
            batch: "read",
            parameters: vec![(String::new(), true)],
        },
        HelixDbMode::Writer,
    );
    assert!(matches!(unnamed, Err(QueryServiceError::InvalidRequest(_))));
}

#[test]
fn phases_follow_each_other_until_the_deadline() {
    let mut phase = QueryPhase::Prepare;
    let mut seen = vec![phase];
    while let Some(next) = phase.next(Ok(())).expect("within the deadline") {
        phase = next;
        seen.push(phase);
    }
    assert_eq!(
        seen,
        vec![QueryPhase::Prepare, QueryPhase::Plan, QueryPhase::Execute, QueryPhase::Respond]
    );
    assert!(QueryPhase::Plan
        .next(Err(HelixDbError::QueryDeadlineExceeded))
        .expect_err("late")
        .is_deadline_exceeded());
}

#[test]
fn query_response_serializes_as_top_level_returns_object() {
    let response = QueryResponse::from_execution_result(vec![
        ("count".to_string(), ExecutionValue::Count(2)),
        ("exists".to_string(), ExecutionValue::Bool(true)),
    ])
    .expect("values serialize");

    let bytes = response.to_json_bytes().expect("serialize response");
    let value: serde_json::Value = serde_json::from_slice(&bytes).expect("valid json");

    assert_eq!(value["count"], serde_json::Value::from(2));
    assert_eq!(value["exists"], serde_json::Value::Bool(true));
    assert!(value.get("returns").is_none());
    assert!(value.get("diagnostics").is_none());
    assert_eq!(bytes, b"{\"count\":2,\"exists\":true}".to_vec());
}

#[test]
fn diagnostics_stay_outside_the_response_body() {
    let response = QueryResponse::from_execution_result_with_diagnostics(
        vec![("count".to_string(), ExecutionValue::Count(0))],
        "missing index",
    )
    .expect("values serialize");
    assert_eq!(*response.diagnostics(), "missing index");
    assert_eq!(response.to_json_bytes().expect("bytes"), b"{\"count\":0}".to_vec());
    assert_eq!(response.into_returned(), json("{\"count\":0}"));
}

#[test]
fn execution_result_serializes_scalars_and_stream_rows() {
    let mut bound = row(ElementRef::Node(7));
    bound.bindings = vec![("friend".to_string(), ElementRef::Edge(9))];
    let response = QueryResponse::from_execution_result(vec![
        (
            "users".to_string(),
            ExecutionValue::Scalars(vec![ExecutionScalar::Object(vec![(
                "name".to_string(),
                Ok(serde_json::Value::from("alice")),
            )])]),
        ),
        ("rows".to_string(), ExecutionValue::Stream(vec![bound])),
    ])
    .expect("execution result serializes");

    let returned = response.returned();
    assert_eq!(returned["users"][0]["name"], serde_json::Value::from("alice"));
    assert_eq!(returned["rows"][0]["current"]["node"], serde_json::Value::from(7));
    assert_eq!(returned["rows"][0]["bindings"]["friend"]["edge"], serde_json::Value::from(9));
}

#[test]
fn execution_result_serializes_plain_and_ranked_rows_as_public_elements() {
    let mut ranked = row(ElementRef::Edge(9));
    ranked.distance = Some(Ok(serde_json::Value::from(0.25)));
    let mut scored = row(ElementRef::Node(11));
    scored.score = Some(Ok(serde_json::Value::from(1.5)));
    let response = QueryResponse::from_execution_result(vec![
        ("node".to_string(), ExecutionValue::Stream(vec![row(ElementRef::Node(7))])),
        ("ranked_edge".to_string(), ExecutionValue::Stream(vec![ranked])),
        ("scored_node".to_string(), ExecutionValue::Stream(vec![scored])),
    ])
    .expect("execution result serializes");

    let returned = response.returned();
    assert_eq!(returned["node"], json("[{ \"$id\": 7 }]"));
    assert_eq!(returned["ranked_edge"], json("[{ \"$id\": 9, \"$distance\": 0.25 }]"));
    assert_eq!(returned["scored_node"], json("[{ \"$id\": 11, \"$score\": 1.5 }]"));
}

#[test]
fn execution_result_serializes_folded_bool_string_and_property_values() {
    let response = QueryResponse::from_execution_result(vec![
        ("folded".to_string(), ExecutionValue::FoldedStream(vec![row(ElementRef::Edge(11))])),
        ("exists".to_string(), ExecutionValue::Bool(true)),
        (
            "scalars".to_string(),
            ExecutionValue::Scalars(vec![
                ExecutionScalar::Text("ready".to_string()),
                ExecutionScalar::Property(Ok(serde_json::Value::from(7))),
            ]),
        ),
    ])
    .expect("values serialize");

    let returned = response.returned();
    assert_eq!(returned["folded"], json("[{ \"$id\": 11 }]"));
    assert_eq!(returned["exists"], serde_json::Value::Bool(true));
    assert_eq!(returned["scalars"], json("[\"ready\", 7]"));
}

#[test]
fn members_come_in_the_order_of_their_names() {
    let mut bound = row(ElementRef::Node(7));
    bound.bindings = vec![
        ("b".to_string(), ElementRef::Edge(2)),
        ("a\u{e9}".to_string(), ElementRef::Node(3)),
        ("a".to_string(), ElementRef::Node(1)),
    ];
    let response = QueryResponse::from_execution_result(vec![
        ("users".to_string(), ExecutionValue::Stream(vec![bound])),
        (
            "rows".to_string(),
            ExecutionValue::Scalars(vec![ExecutionScalar::Object(vec![
                ("y".to_string(), Ok(serde_json::Value::from(1))),
                ("Z".to_string(), Ok(serde_json::Value::from(2))),
                ("x".to_string(), Ok(serde_json::Value::from(3))),
            ])]),
        ),
        ("".to_string(), ExecutionValue::Count(0)),
    ])
    .expect("values serialize");
    let returned = response.returned();
    let names: Vec<&String> =
        returned.as_object().expect("values come in an object").keys().collect();
    assert_eq!(names, vec!["", "rows", "users"]);
    assert_eq!(returned["rows"].to_string(), "[{\"Z\":2,\"x\":3,\"y\":1}]");
    assert_eq!(
        returned["users"][0]["bindings"].to_string(),
        "{\"a\":{\"node\":1},\"a\u{e9}\":{\"node\":3},\"b\":{\"edge\":2}}"
    );
    let bytes = response.to_json_bytes().expect("bytes");
    assert!(bytes.starts_with(b"{\"\":0,\"rows\":[{\"Z\":2,\"x\":3,\"y\":1}],\"users\":["));
    let failing = execution_scalar_to_json(ExecutionScalar::Object(vec![
        ("b".to_string(), Err("second".to_string())),
        ("a".to_string(), Err("first".to_string())),
    ]));
    assert!(matches!(
        failing,
        Err(QueryServiceError::JsonSerialize(text)) if text == "first"
    ));
    assert!(text_precedes("a", "a\u{e9}") && text_precedes("a\u{e9}", "b"));
    assert!(!text_precedes("a", "a") && !text_precedes("b", "a"));
    let ordered = in_name_order(vec![
        ("b".to_string(), 1),
        ("a".to_string(), 2),
        ("b".to_string(), 3),
    ]);
    assert_eq!(ordered, vec![("a".to_string(), 2), ("b".to_string(), 3)]);
}

#[test]
fn annotated_rows_show_what_is_visible() {
    let mut annotated = row(ElementRef::Node(1));
    annotated.path_visible = true;
    annotated.path = vec![ElementRef::Node(1), ElementRef::Edge(2)];
    annotated.sack = RowSack::Visible(None);
    assert_eq!(
        execution_row_to_json(annotated).expect("row serializes"),
        json(
            "{\"current\":{\"node\":1},\"bindings\":{},\
             \"path\":[{\"node\":1},{\"edge\":2}],\"sack\":null}"
        )
    );
    let mut hidden = row(ElementRef::Node(1));
    hidden.path = vec![ElementRef::Node(1)];
    assert_eq!(execution_row_to_json(hidden).expect("row serializes"), json("{\"$id\":1}"));
    assert_eq!(
        execution_row_to_json(ExecutionRow::empty()).expect("row serializes"),
        json("{\"current\":null,\"bindings\":{}}")
    );
    let mut carrying = row(ElementRef::Edge(3));
    carrying.has_binding_properties = true;
    assert_eq!(
        execution_row_to_json(carrying).expect("row serializes"),
        json("{\"current\":{\"edge\":3},\"bindings\":{}}")
    );
    assert_eq!(element_ref_to_json(ElementRef::Edge(4)), json("{\"edge\":4}"));
}

#[test]
fn values_that_fail_to_serialize_fail_the_response() {
    let scalar = execution_scalar_to_json(ExecutionScalar::Property(Err(failed_json())))
        .expect_err("the scalar fails");
    assert!(matches!(scalar, QueryServiceError::JsonSerialize(_)));
    let object = execution_scalar_to_json(ExecutionScalar::Object(vec![
        ("a".to_string(), Ok(serde_json::Value::Null)),
        ("b".to_string(), Err(failed_json())),
    ]));
    assert!(matches!(object, Err(QueryServiceError::JsonSerialize(_))));
    let mut ranked = row(ElementRef::Node(1));
    ranked.distance = Some(Err(failed_json()));
    let stream = execution_value_to_json(ExecutionValue::Stream(vec![ranked]));
    assert!(matches!(stream, Err(QueryServiceError::JsonSerialize(_))));
    let report = QueryResponse::from_execution_result(vec![(
        "index".to_string(),
        ExecutionValue::IndexReport(Err(failed_json())),
    )]);
    assert!(matches!(report, Err(QueryServiceError::JsonSerialize(_))));
    assert_eq!(
        execution_scalar_to_json(ExecutionScalar::NodeId(3)).expect("ids serialize"),
        json("3")
    );
    assert_eq!(
        execution_value_to_json(ExecutionValue::IndexReport(Ok(json("{\"status\":1}"))))
            .expect("reports serialize"),
        json("{\"status\":1}")
    );
}

#[test]
fn query_service_errors_classify_conflicts_and_preserve_db_errors() {
    let conflict =
        QueryServiceError::Db(HelixDbError::TransactionConflict("retry request".to_string()));
    assert!(conflict.is_transaction_conflict());
    assert!(matches!(conflict.into_db_error(), HelixDbError::TransactionConflict(_)));

    let invalid = QueryServiceError::InvalidRequest("bad request".to_string());
    assert!(!invalid.is_transaction_conflict());
    assert!(matches!(
        invalid.into_db_error(),
        HelixDbError::Query(message) if message.contains("invalid request")
    ));

    let planner = QueryServiceError::Planner(PlannerError {
        message: "edge-all targets are unsupported".to_string(),
        code: QueryErrorCode::Named("unsupported".to_string()),
        index_code: None,
    });
    assert!(matches!(planner.into_db_error(), HelixDbError::Query(_)));

    let json = execution_scalar_to_json(ExecutionScalar::Property(Err(failed_json())))
        .expect_err("invalid datetime should fail JSON conversion");
    assert!(matches!(json, QueryServiceError::JsonSerialize(_)));
    assert!(matches!(json.into_db_error(), HelixDbError::Query(_)));

    let sonic = sonic_rs::from_str::<u8>("not-json").expect_err("invalid JSON should fail");
    assert!(matches!(
        QueryServiceError::Serialize(sonic.to_string()).into_db_error(),
        HelixDbError::Query(_)
    ));
}

#[test]
fn missing_indexes_keep_their_code_and_text() {
    let missing = || {
        QueryServiceError::Planner(PlannerError {
            message: "no index on User.email".to_string(),
            code: QueryErrorCode::IndexNotFound,
            index_code: Some("INDEX_NOT_FOUND"),
        })
    };
    let db_code = QueryErrorCode::Named("storage".to_string());
    assert_eq!(missing().error_code(&db_code), QueryErrorCode::IndexNotFound);
    assert_eq!(missing().index_error_code(None), Some("INDEX_NOT_FOUND"));
    assert_eq!(
        missing().into_db_error(),
        HelixDbError::IndexNotFound("no index on User.email".to_string())
    );
    assert_eq!(
        QueryServiceError::Db(HelixDbError::DatabaseClosed).error_code(&db_code),
        QueryErrorCode::Named("storage".to_string())
    );
    assert_eq!(
        QueryServiceError::InvalidRequest("x".to_string()).error_code(&db_code),
        QueryErrorCode::InvalidRequest
    );
    assert_eq!(
        QueryServiceError::JsonSerialize(failed_json()).error_code(&db_code),
        QueryErrorCode::ResponseSerializationError
    );
    assert_eq!(
        QueryServiceError::Db(HelixDbError::DatabaseClosed).message("database is closed"),
        "db error: database is closed"
    );
    assert_eq!(
        QueryServiceError::InvalidRequest("bad".to_string()).message(""),
        "invalid request: bad"
    );
    assert_eq!(
        QueryServiceError::JsonSerialize(failed_json()).message(""),
        "json serialization error: EOF while parsing an object at line 1 column 1"
    );
    assert_eq!(
        QueryServiceError::Serialize("key must be a string".to_string()).message(""),
        "json serialization error: key must be a string"
    );
}

#[test]
fn query_observation_excludes_runtime_parameters_and_maps_failures() {
    let canonical = "{\"property\":\"email\"}".to_string();
    let observation =
        QueryObservation::capture(true, None, Some(canonical), QueryType::Read, None)
            .expect("canonical query");
    assert!(!observation.raw_query.contains("secret"));
    assert!(!observation.raw_query.contains("do-not-send"));
    assert!(observation.raw_query.contains("\"property\":\"email\""));
    assert_eq!(observation.query_type, QueryType::Read);

    assert_eq!(
        query_error_type(&QueryServiceError::InvalidRequest("invalid".to_owned())),
        QueryErrorType::InvalidRequest
    );
    assert_eq!(
        query_error_type(&QueryServiceError::Db(HelixDbError::TransactionConflict(
            "conflict".to_owned()
        ))),
        QueryErrorType::Conflict
    );
    let invalid_vector_inputs = [
        HelixDbError::InvalidDimension { expected: 3, got: 2 },
        HelixDbError::InvalidVectorComponent { index: 1 },
        HelixDbError::VectorComponentMagnitudeExceeded {
            metric: VectorDistanceMetric::Manhattan,
            dimension: 3,
            component_index: 1,
            observed_magnitude_bits: 4.0_f64.to_bits(),
            inclusive_maximum_bits: 3.0_f64.to_bits(),
        },
        HelixDbError::ZeroNormCosineVector,
    ];
    for error in invalid_vector_inputs {
        assert_eq!(
            query_error_type(&QueryServiceError::Db(error)),
            QueryErrorType::InvalidRequest
        );
    }
    assert_eq!(
        query_error_type(&QueryServiceError::Db(HelixDbError::InvalidVectorItem(
            "header mismatch".to_owned()
        ))),
        QueryErrorType::Execution
    );
    assert_eq!(
        query_error_type(&QueryServiceError::Db(HelixDbError::Query("execution".to_owned()))),
        QueryErrorType::Execution
    );

    let failure = QueryServiceError::Db(HelixDbError::UniqueConstraintViolation {
        label: "User".to_owned(),
        property: "email".to_owned(),
        value: "\"secret@example.com\"".to_owned(),
        existing_node_id: 1,
        attempted_node_id: 2,
    });
    let failed = observation.event(Some(&failure), 1, None);
    let encoded = format!("{failed:?}");
    assert!(!encoded.contains("secret@example.com"));
    assert!(encoded.contains("query execution failed"));
    assert_eq!(failed.latency_micros, 1);
}

#[test]
fn observations_are_taken_only_where_queries_are_recorded() {
    let canonical = || Some("{}".to_string());
    assert!(
        QueryObservation::capture(false, None, canonical(), QueryType::Read, None).is_none()
    );
    assert!(QueryObservation::capture(true, None, None, QueryType::Write, None).is_none());
    let event = QueryObservation::capture(
        true,
        Some("find_user".to_string()),
        canonical(),
        QueryType::Write,
        Some("tenant-1".to_string()),
    )
    .expect("recorded")
    .event(None, u128::MAX, Some(json("{\"insights\":[]}")));
    assert_eq!(event.outcome, QueryOutcome::Succeeded);
    assert_eq!(event.latency_micros, u64::MAX);
    assert_eq!(event.planner_diagnostics, Some(json("{\"insights\":[]}")));
    assert_eq!(event.tenant_id.as_deref(), Some("tenant-1"));
    assert_eq!(
        query_error_type(&QueryServiceError::JsonSerialize(failed_json())),
        QueryErrorType::Internal
    );
}

#[test]
fn returned_ids_come_in_ascending_order() {
    assert_eq!(
        returned_ids(json("{\"ids\":[9,2,77,2]}"), "ids"),
        Some(vec![2, 2, 9, 77])
    );
    assert_eq!(returned_ids(json("{\"ids\":[]}"), "ids"), Some(vec![]));
    assert_eq!(returned_ids(json("{\"ids\":[1,-1]}"), "ids"), None);
    assert_eq!(returned_ids(json("{\"ids\":[1.5]}"), "ids"), None);
    assert_eq!(returned_ids(json("{\"other\":[1]}"), "ids"), None);
    assert_eq!(returned_ids(json("[1]"), "ids"), None);
    assert_eq!(returned_ids(json("{\"ids\":true}"), "ids"), None);
}

#[test]
fn members_are_counted_outside_quoted_text() {
    assert_eq!(count_members(b"{\"a\":{\"b:c\":\"d\\\":e\"},\"a\":[]}"), 3);
    assert_eq!(count_members(b""), 0);
}
