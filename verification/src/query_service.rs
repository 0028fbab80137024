//! Request-level query service for transport wrappers.
//!
//! This module owns the query contract between transports and the planner and
//! interpreter: which requests are taken, in which order they are checked, and what a
//! failure is called.
use vstd::prelude::*;

use crate::error::HelixDbError;
use crate::mode::HelixDbMode;
use crate::names::in_name_order;
use crate::text::joined;

verus! {

/// Execution behavior for query requests.
#[derive(Debug, Clone, Copy, PartialEq, Eq, Structural)]
pub enum QueryMode {
    /// Execute the query and return its results.
    Execute,
    /// Execute a read query through the normal path so caches are populated.
    Warm,
}

/// Stable machine-readable code of a public failure.
#[derive(Debug, PartialEq, Eq)]
pub enum QueryErrorCode {
    InvalidRequest,
    IndexNotFound,
    ResponseSerializationError,
    /// A code that planning or execution has chosen.
    Named(String),
}

impl QueryErrorCode {
    /// Whether two codes are the same.
    pub open spec fn same_code(self, other: QueryErrorCode) -> bool {
        match (self, other) {
            (QueryErrorCode::InvalidRequest, QueryErrorCode::InvalidRequest) => true,
            (QueryErrorCode::IndexNotFound, QueryErrorCode::IndexNotFound) => true,
            (
                QueryErrorCode::ResponseSerializationError,
                QueryErrorCode::ResponseSerializationError,
            ) => true,
            (QueryErrorCode::Named(left), QueryErrorCode::Named(right)) => left@ == right@,
            _ => false,
        }
    }

    /// A copy of the code.
    pub fn duplicate(&self) -> (copy: Self)
        ensures
            copy.same_code(*self),
    {
        match self {
            QueryErrorCode::InvalidRequest => QueryErrorCode::InvalidRequest,
            QueryErrorCode::IndexNotFound => QueryErrorCode::IndexNotFound,
            QueryErrorCode::ResponseSerializationError =>
                QueryErrorCode::ResponseSerializationError,
            QueryErrorCode::Named(name) => QueryErrorCode::Named(name.clone()),
        }
    }
}

/// Failure of the planner.
#[derive(Debug)]
pub struct PlannerError {
    pub message: String,
    pub code: QueryErrorCode,
    /// Code of the index lifecycle surface, where the failure belongs to it.
    pub index_code: Option<&'static str>,
}

/// Query service failures mapped by transports into protocol-specific errors.
#[derive(Debug)]
pub enum QueryServiceError {
    /// Request body or route parameters are invalid.
    InvalidRequest(String),
    /// Planning failed.
    Planner(PlannerError),
    /// Execution failed.
    Db(HelixDbError),
    /// A value could not be turned into JSON, for the reason given.
    JsonSerialize(String),
    /// The response could not be written, for the reason given.
    Serialize(String),
}

/// Public class of a failed query.
#[derive(Debug, Clone, Copy, PartialEq, Eq, Structural)]
pub enum QueryErrorType {
    InvalidRequest,
    Planning,
    Execution,
    Conflict,
    Internal,
}

impl QueryServiceError {
    /// Whether this rejects a request with exactly this text.
    pub open spec fn is_invalid_request(self, text: Seq<char>) -> bool {
        self matches QueryServiceError::InvalidRequest(message) && message@ == text
    }

    /// The public class of the failure.
    pub open spec fn class(self) -> QueryErrorType {
        match self {
            QueryServiceError::InvalidRequest(_) => QueryErrorType::InvalidRequest,
            QueryServiceError::Planner(_) => QueryErrorType::Planning,
            QueryServiceError::Db(error) => if error is TransactionConflict {
                QueryErrorType::Conflict
            } else if error.blames_vector_input() {
                QueryErrorType::InvalidRequest
            } else {
                QueryErrorType::Execution
            },
            QueryServiceError::JsonSerialize(_) => QueryErrorType::Internal,
            QueryServiceError::Serialize(_) => QueryErrorType::Internal,
        }
    }

    /// Returns true when the request can be retried after a transaction conflict.
    pub fn is_transaction_conflict(&self) -> (conflict: bool)
        ensures
            conflict == (*self matches QueryServiceError::Db(error)
                && error is TransactionConflict),
    {
        match self {
            QueryServiceError::Db(error) => error.is_transaction_conflict(),
            _ => false,
        }
    }

    /// Returns true when cooperative execution observed its monotonic deadline.
    pub fn is_deadline_exceeded(&self) -> (exceeded: bool)
        ensures
            exceeded == (*self matches QueryServiceError::Db(error)
                && error is QueryDeadlineExceeded),
    {
        matches!(self, QueryServiceError::Db(HelixDbError::QueryDeadlineExceeded))
    }

    /// Stable machine-readable code for this public query failure. `db_code` is that of
    /// the database failure, where there is one.
    pub fn error_code(&self, db_code: &QueryErrorCode) -> (code: QueryErrorCode)
        ensures
            code.same_code(
                match *self {
                    QueryServiceError::InvalidRequest(_) => QueryErrorCode::InvalidRequest,
                    QueryServiceError::Planner(error) => error.code,
                    QueryServiceError::Db(_) => *db_code,
                    QueryServiceError::JsonSerialize(_) =>
                        QueryErrorCode::ResponseSerializationError,
                    QueryServiceError::Serialize(_) => QueryErrorCode::ResponseSerializationError,
                },
            ),
    {
        match self {
            QueryServiceError::InvalidRequest(_) => QueryErrorCode::InvalidRequest,
            QueryServiceError::Planner(error) => error.code.duplicate(),
            QueryServiceError::Db(_) => db_code.duplicate(),
            QueryServiceError::JsonSerialize(_) | QueryServiceError::Serialize(_) =>
                QueryErrorCode::ResponseSerializationError,
        }
    }

    /// Stable index lifecycle error code, when this failure belongs to that public
    /// compatibility surface. `db_code` is that of the database failure, where there is one.
    pub fn index_error_code(&self, db_code: Option<&'static str>) -> (code: Option<&'static str>)
        ensures
            code == match *self {
                QueryServiceError::Db(_) => db_code,
                QueryServiceError::Planner(error) => error.index_code,
                _ => None,
            },
    {
        match self {
            QueryServiceError::Db(_) => db_code,
            QueryServiceError::Planner(error) => error.index_code,
            QueryServiceError::InvalidRequest(_)
            | QueryServiceError::JsonSerialize(_)
            | QueryServiceError::Serialize(_) => None,
        }
    }

    /// What describes the failure. `db_text` describes the database failure, where there is
    /// one.
    pub open spec fn description(self, db_text: Seq<char>) -> Seq<char> {
        match self {
            QueryServiceError::InvalidRequest(message) => "invalid request: "@ + message@,
            QueryServiceError::Planner(error) => "planner error: "@ + error.message@,
            QueryServiceError::Db(_) => "db error: "@ + db_text,
            QueryServiceError::JsonSerialize(detail) => "json serialization error: "@ + detail@,
            QueryServiceError::Serialize(detail) => "json serialization error: "@ + detail@,
        }
    }

    /// Describes the failure. `db_text` describes the database failure, where there is one.
    pub fn message(&self, db_text: &str) -> (text: String)
        ensures
            text@ == self.description(db_text@),
    {
        match self {
            QueryServiceError::InvalidRequest(message) => joined(
                "invalid request: ",
                message.as_str(),
            ),
            QueryServiceError::Planner(error) => joined("planner error: ", error.message.as_str()),
            QueryServiceError::Db(_) => joined("db error: ", db_text),
            QueryServiceError::JsonSerialize(detail) | QueryServiceError::Serialize(detail) => joined(
                "json serialization error: ",
                detail.as_str(),
            ),
        }
    }

    /// The failure of a direct caller: a database failure as it is, a missing index as
    /// such, and any other failure by its description.
    pub fn into_db_error(self) -> (error: HelixDbError)
        ensures
            match self {
                QueryServiceError::Db(inner) => error == inner,
                QueryServiceError::Planner(planner) => if planner.code is IndexNotFound {
                    error matches HelixDbError::IndexNotFound(text) && text@ == planner.message@
                } else {
                    error matches HelixDbError::Query(text) && text@ == self.description(""@)
                },
                _ => error matches HelixDbError::Query(text) && text@ == self.description(""@),
            },
    {
        match self {
            QueryServiceError::Db(error) => error,
            QueryServiceError::Planner(planner) => {
                let missing = matches!(planner.code, QueryErrorCode::IndexNotFound);
                if missing {
                    HelixDbError::IndexNotFound(planner.message)
                } else {
                    HelixDbError::Query(QueryServiceError::Planner(planner).message(""))
                }
            },
            other => HelixDbError::Query(other.message("")),
        }
    }
}

/// Classifies a failure.
pub fn query_error_type(error: &QueryServiceError) -> (error_type: QueryErrorType)
    ensures
        error_type == error.class(),
{
    match error {
        QueryServiceError::InvalidRequest(_) => QueryErrorType::InvalidRequest,
        QueryServiceError::Planner(_) => QueryErrorType::Planning,
        QueryServiceError::Db(error) => {
            if error.is_transaction_conflict() {
                QueryErrorType::Conflict
            } else if error.is_invalid_vector_input() {
                QueryErrorType::InvalidRequest
            } else {
                QueryErrorType::Execution
            }
        },
        QueryServiceError::JsonSerialize(_) | QueryServiceError::Serialize(_) =>
            QueryErrorType::Internal,
    }
}

/// A batch of either kind.
#[derive(Debug)]
pub enum BatchQuery<R, W> {
    Read(R),
    Write(W),
}

/// A request: its batch, and its parameters in the order of their names.
#[derive(Debug)]
pub struct QueryRequest<R, W, V> {
    pub query: BatchQuery<R, W>,
    pub parameters: Vec<(String, V)>,
}

/// A request whose kind is settled.
#[allow(inconsistent_fields)]
#[derive(Debug)]
pub enum ValidatedQuery<R, W, V> {
    Read { batch: R, parameters: Vec<(String, V)> },
    Write { batch: W, parameters: Vec<(String, V)> },
}

impl<R, W, V> ValidatedQuery<R, W, V> {
    /// The query of a request.
    pub open spec fn of(request: QueryRequest<R, W, V>) -> ValidatedQuery<R, W, V> {
        match request.query {
            BatchQuery::Read(batch) => ValidatedQuery::Read {
                batch,
                parameters: request.parameters,
            },
            BatchQuery::Write(batch) => ValidatedQuery::Write {
                batch,
                parameters: request.parameters,
            },
        }
    }

    /// Settles the kind of a request.
    pub fn from_request(request: QueryRequest<R, W, V>) -> (query: Self)
        ensures
            query == ValidatedQuery::of(request),
    {
        match request.query {
            BatchQuery::Read(batch) => ValidatedQuery::Read {
                batch,
                parameters: request.parameters,
            },
            BatchQuery::Write(batch) => ValidatedQuery::Write {
                batch,
                parameters: request.parameters,
            },
        }
    }

    /// Whether the query may run in a mode.
    pub open spec fn suits(self, mode: QueryMode) -> bool {
        mode is Execute || self is Read
    }

    /// Refuses a query that may not run in a mode.
    pub fn validate_mode(&self, mode: QueryMode) -> (valid: Result<(), QueryServiceError>)
        ensures
            valid is Ok <==> self.suits(mode),
            valid matches Err(error) ==> error.is_invalid_request(
                "warm queries must be read requests"@,
            ),
    {
        match (mode, self) {
            (QueryMode::Execute, _) | (QueryMode::Warm, ValidatedQuery::Read { .. }) => Ok(()),
            (QueryMode::Warm, ValidatedQuery::Write { .. }) => Err(
                QueryServiceError::InvalidRequest("warm queries must be read requests".to_owned()),
            ),
        }
    }

    /// The parameters of the query.
    pub open spec fn bindings(self) -> Seq<(String, V)> {
        match self {
            ValidatedQuery::Read { parameters, .. } => parameters@,
            ValidatedQuery::Write { parameters, .. } => parameters@,
        }
    }

    /// The batch of the query.
    pub open spec fn batch_spec(self) -> BatchQuery<R, W> {
        match self {
            ValidatedQuery::Read { batch, .. } => BatchQuery::Read(batch),
            ValidatedQuery::Write { batch, .. } => BatchQuery::Write(batch),
        }
    }
}

/// Whether every parameter has a name.
pub open spec fn all_named<V>(parameters: Seq<(String, V)>) -> bool {
    forall|i: int| 0 <= i < parameters.len() ==> (#[trigger] parameters[i]).0@.len() > 0
}

/// Binds the parameters of a request in the order of their names; each needs a name.
pub fn query_param_bindings<V>(parameters: Vec<(String, V)>) -> (bindings: Result<
    Vec<(String, V)>,
    QueryServiceError,
>)
    ensures
        bindings is Ok <==> all_named(parameters@),
        bindings matches Ok(bindings) ==> bindings@ == crate::names::by_name(parameters@),
        bindings matches Err(error) ==> error.is_invalid_request(
            "parameter name must not be empty"@,
        ),
{
    let empty = "".to_owned();
    proof {
        reveal_strlit("");
        assert(empty@.len() == 0);
    }
    let mut position: usize = 0;
    while position < parameters.len()
        invariant
            position <= parameters.len(),
            empty@ =~= Seq::<char>::empty(),
            forall|i: int| 0 <= i < position ==> (#[trigger] parameters@[i]).0@.len() > 0,
        decreases parameters.len() - position,
    {
        if parameters[position].0 == empty {
            assert(parameters@[position as int].0@.len() == 0);
            return Err(
                QueryServiceError::InvalidRequest("parameter name must not be empty".to_owned()),
            );
        }
        assert(parameters@[position as int].0@.len() > 0) by {
            if parameters@[position as int].0@.len() == 0 {
                assert(parameters@[position as int].0@ =~= Seq::<char>::empty());
            }
        }
        position = position + 1;
    }
    Ok(in_name_order(parameters))
}

/// Takes a request in: its deadline must not have passed, and its kind must suit the mode.
///
/// `control` is what the check of the deadline came to.
pub fn take_request<R, W, V>(
    control: Result<(), HelixDbError>,
    request: QueryRequest<R, W, V>,
    mode: QueryMode,
) -> (query: Result<ValidatedQuery<R, W, V>, QueryServiceError>)
    ensures
        match control {
            Err(error) => query == Err::<ValidatedQuery<R, W, V>, QueryServiceError>(
                QueryServiceError::Db(error),
            ),
            Ok(_) => if ValidatedQuery::of(request).suits(mode) {
                query == Ok::<ValidatedQuery<R, W, V>, QueryServiceError>(
                    ValidatedQuery::of(request),
                )
            } else {
                query matches Err(error) && error.is_invalid_request(
                    "warm queries must be read requests"@,
                )
            },
        },
{
    if let Err(error) = control {
        return Err(QueryServiceError::Db(error));
    }
    let query = ValidatedQuery::from_request(request);
    match query.validate_mode(mode) {
        Ok(_) => Ok(query),
        Err(error) => Err(error),
    }
}

/// Readies a query for planning: its deadline must not have passed, a write needs a writer,
/// and every parameter needs a name.
pub fn ready_query<R, W, V>(
    control: Result<(), HelixDbError>,
    query: ValidatedQuery<R, W, V>,
    db_mode: HelixDbMode,
) -> (ready: Result<(BatchQuery<R, W>, Vec<(String, V)>), QueryServiceError>)
    ensures
        match control {
            Err(error) => ready == Err::<(BatchQuery<R, W>, Vec<(String, V)>), QueryServiceError>(
                QueryServiceError::Db(error),
            ),
            Ok(_) => if query is Write && db_mode is ReadOnly {
                ready matches Err(QueryServiceError::Db(error)) && db_mode.is_refusal(error)
            } else if !all_named(query.bindings()) {
                ready matches Err(error) && error.is_invalid_request(
                    "parameter name must not be empty"@,
                )
            } else {
                ready matches Ok((batch, bindings)) && batch == query.batch_spec() && bindings@
                    == crate::names::by_name(query.bindings())
            },
        },
{
    if let Err(error) = control {
        return Err(QueryServiceError::Db(error));
    }
    match query {
        ValidatedQuery::Read { batch, parameters } => match query_param_bindings(parameters) {
            Ok(bindings) => Ok((BatchQuery::Read(batch), bindings)),
            Err(error) => Err(error),
        },
        ValidatedQuery::Write { batch, parameters } => {
            match db_mode.require_writer() {
                Ok(_) => {},
                Err(error) => {
                    return Err(QueryServiceError::Db(error));
                },
            }
            match query_param_bindings(parameters) {
                Ok(bindings) => Ok((BatchQuery::Write(batch), bindings)),
                Err(error) => Err(error),
            }
        },
    }
}

/// What the execution of a readied query does, in the order of the variants.
#[derive(Debug, Clone, Copy, PartialEq, Eq, Structural)]
pub enum QueryPhase {
    /// Observe the catalog, within the deadline.
    Prepare,
    /// Plan against what was observed.
    Plan,
    /// Execute the plan against the same observation, within the deadline.
    Execute,
    /// Turn the result into a response.
    Respond,
}

impl QueryPhase {
    /// Place of the phase.
    pub open spec fn place(self) -> int {
        match self {
            QueryPhase::Prepare => 0,
            QueryPhase::Plan => 1,
            QueryPhase::Execute => 2,
            QueryPhase::Respond => 3,
        }
    }

    /// Moves on behind the phase.
    ///
    /// The deadline is checked again before planning and before executing; `control` is
    /// what that check came to, and nothing where none is due.
    pub fn next(self, control: Result<(), HelixDbError>) -> (next: Result<
        Option<QueryPhase>,
        QueryServiceError,
    >)
        ensures
            match self {
                QueryPhase::Prepare => match control {
                    Ok(_) => next == Ok::<Option<QueryPhase>, QueryServiceError>(
                        Some(QueryPhase::Plan),
                    ),
                    Err(error) => next == Err::<Option<QueryPhase>, QueryServiceError>(
                        QueryServiceError::Db(error),
                    ),
                },
                QueryPhase::Plan => match control {
                    Ok(_) => next == Ok::<Option<QueryPhase>, QueryServiceError>(
                        Some(QueryPhase::Execute),
                    ),
                    Err(error) => next == Err::<Option<QueryPhase>, QueryServiceError>(
                        QueryServiceError::Db(error),
                    ),
                },
                QueryPhase::Execute => next == Ok::<Option<QueryPhase>, QueryServiceError>(
                    Some(QueryPhase::Respond),
                ),
                QueryPhase::Respond => next == Ok::<Option<QueryPhase>, QueryServiceError>(None),
            },
    {
        match self {
            QueryPhase::Prepare => match control {
                Ok(_) => Ok(Some(QueryPhase::Plan)),
                Err(error) => Err(QueryServiceError::Db(error)),
            },
            QueryPhase::Plan => match control {
                Ok(_) => Ok(Some(QueryPhase::Execute)),
                Err(error) => Err(QueryServiceError::Db(error)),
            },
            QueryPhase::Execute => Ok(Some(QueryPhase::Respond)),
            QueryPhase::Respond => Ok(None),
        }
    }
}

/// Kind of an observed query.
#[derive(Debug, Clone, Copy, PartialEq, Eq, Structural)]
pub enum QueryType {
    Read,
    Write,
}

/// What is recorded of a query before it runs.
#[derive(Debug, PartialEq, Eq)]
pub struct QueryObservation {
    pub name: Option<String>,
    /// The query with every literal and parameter taken out.
    pub raw_query: String,
    pub query_type: QueryType,
    pub tenant_id: Option<String>,
}

/// How an observed query ended.
#[derive(Debug, PartialEq, Eq)]
pub enum QueryOutcome {
    Succeeded,
    Failed { error_type: QueryErrorType, message: &'static str },
}

/// One recorded query.
#[derive(Debug)]
pub struct QueryEvent {
    pub name: Option<String>,
    pub raw_query: String,
    pub query_type: QueryType,
    pub latency_micros: u64,
    pub tenant_id: Option<String>,
    pub outcome: QueryOutcome,
    pub planner_diagnostics: Option<serde_json::Value>,
}

/// The fixed words for a class of failures.
pub open spec fn class_message(class: QueryErrorType) -> Seq<char> {
    match class {
        QueryErrorType::InvalidRequest => "query request was invalid"@,
        QueryErrorType::Planning => "query planning failed"@,
        QueryErrorType::Execution => "query execution failed"@,
        QueryErrorType::Conflict => "query conflicted with another transaction"@,
        QueryErrorType::Internal => "query response serialization failed"@,
    }
}

/// Whether an outcome records a failure: by its class and the fixed words for it.
pub open spec fn records_failure(outcome: QueryOutcome, error: QueryServiceError) -> bool {
    outcome matches QueryOutcome::Failed { error_type, message } && error_type == error.class()
        && message@ == class_message(error.class())
}

/// The words for a failure, which give none of its details away.
pub fn failure_outcome(error: &QueryServiceError) -> (outcome: QueryOutcome)
    ensures
        records_failure(outcome, *error),
{
    let error_type = query_error_type(error);
    let message = match error_type {
        QueryErrorType::InvalidRequest => "query request was invalid",
        QueryErrorType::Planning => "query planning failed",
        QueryErrorType::Execution => "query execution failed",
        QueryErrorType::Conflict => "query conflicted with another transaction",
        QueryErrorType::Internal => "query response serialization failed",
    };
    QueryOutcome::Failed { error_type, message }
}

impl QueryObservation {
    /// Captures a query that is recorded: `name` where it has a valid one, and `canonical`
    /// where the query can be written without its literals.
    pub fn capture(
        records: bool,
        name: Option<String>,
        canonical: Option<String>,
        query_type: QueryType,
        tenant_id: Option<String>,
    ) -> (observation: Option<Self>)
        ensures
            observation is Some <==> records && canonical is Some,
            observation matches Some(observation) ==> observation == (QueryObservation {
                name,
                raw_query: canonical->0,
                query_type,
                tenant_id,
            }),
    {
        if !records {
            return None;
        }
        match canonical {
            Some(raw_query) => Some(QueryObservation { name, raw_query, query_type, tenant_id }),
            None => None,
        }
    }

    /// Completes the record of a query. `failure` is what it failed with, if it did, and
    /// `diagnostics` describes the plan of one that did not.
    pub fn event(
        self,
        failure: Option<&QueryServiceError>,
        latency_micros: u128,
        diagnostics: Option<serde_json::Value>,
    ) -> (event: QueryEvent)
        ensures
            event.name == self.name,
            event.raw_query == self.raw_query,
            event.query_type == self.query_type,
            event.tenant_id == self.tenant_id,
            event.latency_micros == if latency_micros > u64::MAX {
                u64::MAX as int
            } else {
                latency_micros as int
            },
            match failure {
                Some(error) => {
                    &&& records_failure(event.outcome, *error)
                    &&& event.planner_diagnostics is None
                },
                None => {
                    &&& event.outcome is Succeeded
                    &&& event.planner_diagnostics == diagnostics
                },
            },
    {
        let (outcome, planner_diagnostics) = match failure {
            Some(error) => (failure_outcome(error), None),
            None => (QueryOutcome::Succeeded, diagnostics),
        };
        let latency_micros: u64 = if latency_micros > u64::MAX as u128 {
            u64::MAX
        } else {
            latency_micros as u64
        };
        QueryEvent {
            name: self.name,
            raw_query: self.raw_query,
            query_type: self.query_type,
            latency_micros,
            tenant_id: self.tenant_id,
            outcome,
            planner_diagnostics,
        }
    }
}

/// The record of a failed query tells its class and nothing else of the failure: two
/// failures of one class leave the same record.
pub proof fn law_failure_record_reveals_only_the_class(
    left: QueryServiceError,
    left_outcome: QueryOutcome,
    right: QueryServiceError,
    right_outcome: QueryOutcome,
)
    requires
        left.class() == right.class(),
        records_failure(left_outcome, left),
        records_failure(right_outcome, right),
    ensures
        left_outcome->error_type == right_outcome->error_type,
        left_outcome->message@ == right_outcome->message@,
{
}

/// A failure that can be retried is classified as a conflict, and no other one is.
pub proof fn law_conflicts_are_retryable(error: QueryServiceError)
    ensures
        error.class() is Conflict <==> (error matches QueryServiceError::Db(inner)
            && inner is TransactionConflict),
{
}

/// A failure is classed by where it arose: requests and vectors of a caller are invalid,
/// plans fail in planning, conflicts are conflicts, what cannot be written is internal, and
/// every other database failure is one of execution.
pub proof fn law_failures_are_classed_by_origin(
    text: String,
    planner: PlannerError,
    error: HelixDbError,
)
    ensures
        QueryServiceError::InvalidRequest(text).class() == QueryErrorType::InvalidRequest,
        QueryServiceError::Planner(planner).class() == QueryErrorType::Planning,
        QueryServiceError::JsonSerialize(text).class() == QueryErrorType::Internal,
        QueryServiceError::Serialize(text).class() == QueryErrorType::Internal,
        QueryServiceError::Db(error).class() == match error {
            HelixDbError::TransactionConflict(_) => QueryErrorType::Conflict,
            HelixDbError::InvalidDimension { .. } => QueryErrorType::InvalidRequest,
            HelixDbError::InvalidVectorComponent { .. } => QueryErrorType::InvalidRequest,
            HelixDbError::VectorComponentMagnitudeExceeded { .. } => QueryErrorType::InvalidRequest,
            HelixDbError::ZeroNormCosineVector => QueryErrorType::InvalidRequest,
            _ => QueryErrorType::Execution,
        },
{
}

/// What is recorded of a class of failures is a fixed phrase that tells it from every other
/// class.
pub proof fn law_classes_have_their_own_words()
    ensures
        class_message(QueryErrorType::InvalidRequest) == "query request was invalid"@,
        class_message(QueryErrorType::Planning) == "query planning failed"@,
        class_message(QueryErrorType::Execution) == "query execution failed"@,
        class_message(QueryErrorType::Conflict) == "query conflicted with another transaction"@,
        class_message(QueryErrorType::Internal) == "query response serialization failed"@,
{
}

/// A failed query is recorded with its class and the words for it.
pub proof fn law_failures_are_recorded_by_class(outcome: QueryOutcome, error: QueryServiceError)
    requires
        records_failure(outcome, error),
    ensures
        outcome matches QueryOutcome::Failed { error_type, message } && error_type == error.class()
            && message@ == class_message(error.class()),
        !(outcome is Succeeded),
{
}

/// A description says which part failed and repeats what that part said.
pub proof fn law_descriptions_repeat_what_was_said(
    text: String,
    planner: PlannerError,
    error: HelixDbError,
    db_text: Seq<char>,
)
    ensures
        QueryServiceError::InvalidRequest(text).description(db_text) == "invalid request: "@
            + text@,
        QueryServiceError::Planner(planner).description(db_text) == "planner error: "@
            + planner.message@,
        QueryServiceError::Db(error).description(db_text) == "db error: "@ + db_text,
        QueryServiceError::JsonSerialize(text).description(db_text) == "json serialization error: "@
            + text@,
        QueryServiceError::Serialize(text).description(db_text) == "json serialization error: "@
            + text@,
{
}

/// Codes are the same exactly where they are of one kind and, where they are named, of one
/// name.
pub proof fn law_codes_are_told_apart(left: QueryErrorCode, right: QueryErrorCode)
    ensures
        left.same_code(right) <==> right.same_code(left),
        left.same_code(left),
        left.same_code(right) ==> (left is InvalidRequest <==> right is InvalidRequest) && (left
            is IndexNotFound <==> right is IndexNotFound) && (left is ResponseSerializationError
            <==> right is ResponseSerializationError) && (left matches QueryErrorCode::Named(name)
            ==> (right matches QueryErrorCode::Named(other) && name@ == other@)),
{
}

/// A request keeps its kind, its batch and its parameters, and only a read may warm.
pub proof fn law_requests_keep_their_kind<R, W, V>(request: QueryRequest<R, W, V>, mode: QueryMode)
    ensures
        ({
            let query = ValidatedQuery::of(request);
            &&& query is Read <==> request.query is Read
            &&& query is Write <==> request.query is Write
            &&& query.batch_spec() == request.query
            &&& query.bindings() == request.parameters@
            &&& query.suits(QueryMode::Execute)
            &&& query.suits(QueryMode::Warm) <==> request.query is Read
        }),
{
}

/// Parameters are bound only where none of them lacks a name.
pub proof fn law_every_parameter_has_a_name<V>(parameters: Seq<(String, V)>, position: int)
    requires
        0 <= position < parameters.len(),
    ensures
        parameters[position].0@.len() == 0 ==> !all_named(parameters),
        all_named(Seq::<(String, V)>::empty()),
        all_named(parameters) <==> all_named(parameters.take(position)) && parameters[position].0@.len()
            > 0 && all_named(parameters.skip(position + 1)),
{
    if all_named(parameters.take(position)) && parameters[position].0@.len() > 0 && all_named(
        parameters.skip(position + 1),
    ) {
        assert forall|i: int| 0 <= i < parameters.len() implies (#[trigger] parameters[i]).0@.len()
            > 0 by {
            if i < position {
                assert(parameters.take(position)[i] == parameters[i]);
            } else if i > position {
                assert(parameters.skip(position + 1)[i - position - 1] == parameters[i]);
            }
        }
    }
}

/// A query is prepared, planned, executed and answered, in that order.
pub proof fn law_phases_are_in_order()
    ensures
        QueryPhase::Prepare.place() < QueryPhase::Plan.place() < QueryPhase::Execute.place()
            < QueryPhase::Respond.place(),
{
}

/// A rejected request says exactly what is wrong with it.
pub proof fn law_rejections_have_one_text(
    error: QueryServiceError,
    text: Seq<char>,
    other: Seq<char>,
)
    ensures
        error.is_invalid_request(text) <==> (error matches QueryServiceError::InvalidRequest(shown)
            && shown@ == text),
        error.is_invalid_request(text) && error.is_invalid_request(other) ==> text == other,
{
}

} // verus!
