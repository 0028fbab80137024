//! JSON form of query results.
//!
//! Ordinary graph-element streams expose public identity objects such as `{"$id": 7}`
//! rather than interpreter row state. Ranked search streams add their public `$distance`
//! or `$score` field. Rows with explicitly visible bindings, paths, or sacks retain their
//! annotated row envelope.
use vstd::prelude::*;

use crate::json::{
    json_bool, json_list, json_null, json_record, json_text, json_unsigned, sonic_write, JsonTree,
};
use crate::names::in_name_order;
use crate::query_service::QueryServiceError;

verus! {

/// A node or an edge.
#[derive(Debug, Clone, Copy, PartialEq, Eq, Structural)]
pub enum ElementRef {
    Node(u64),
    Edge(u64),
}

/// The sack of a row.
#[derive(Debug)]
pub enum RowSack {
    Hidden,
    /// A visible sack, with its value where it has one.
    Visible(Option<Result<serde_json::Value, String>>),
}

/// One row of a stream. Property values come as what turning them into JSON came to.
#[derive(Debug)]
pub struct ExecutionRow {
    pub current: Option<ElementRef>,
    /// Bound elements with their names.
    pub bindings: Vec<(String, ElementRef)>,
    /// Whether a binding carries properties of its own.
    pub has_binding_properties: bool,
    pub path_visible: bool,
    pub path: Vec<ElementRef>,
    pub sack: RowSack,
    /// The virtual property `$distance`.
    pub distance: Option<Result<serde_json::Value, String>>,
    /// The virtual property `$score`.
    pub score: Option<Result<serde_json::Value, String>>,
}

impl ExecutionRow {
    /// A row without anything in it.
    pub fn empty() -> (row: Self)
        ensures
            row.current is None,
            row.bindings@.len() == 0,
            !row.has_binding_properties,
            !row.path_visible,
            row.path@.len() == 0,
            row.sack is Hidden,
            row.distance is None,
            row.score is None,
    {
        ExecutionRow {
            current: None,
            bindings: Vec::new(),
            has_binding_properties: false,
            path_visible: false,
            path: Vec::new(),
            sack: RowSack::Hidden,
            distance: None,
            score: None,
        }
    }
}

/// One scalar of a result.
#[derive(Debug)]
pub enum ExecutionScalar {
    NodeId(u64),
    EdgeId(u64),
    Text(String),
    Property(Result<serde_json::Value, String>),
    /// Properties with their names.
    Object(Vec<(String, Result<serde_json::Value, String>)>),
}

/// One returned value.
#[derive(Debug)]
pub enum ExecutionValue {
    Stream(Vec<ExecutionRow>),
    FoldedStream(Vec<ExecutionRow>),
    Count(u64),
    Bool(bool),
    Scalars(Vec<ExecutionScalar>),
    /// Receipt or status of an index operation.
    IndexReport(Result<serde_json::Value, String>),
}

/// The tree of a property, or the failure to turn it into JSON.
pub open spec fn property_tree(property: Result<serde_json::Value, String>) -> Result<
    JsonTree,
    String,
> {
    match property {
        Ok(value) => Ok(crate::json::json_tree(value)),
        Err(error) => Err(error),
    }
}

/// The tree of an element: its kind and its number.
pub open spec fn element_tree(element: ElementRef) -> JsonTree {
    match element {
        ElementRef::Node(id) => JsonTree::Members(seq![("node"@, JsonTree::Unsigned(id))]),
        ElementRef::Edge(id) => JsonTree::Members(seq![("edge"@, JsonTree::Unsigned(id))]),
    }
}

/// The number of an element.
pub open spec fn element_id(element: ElementRef) -> u64 {
    match element {
        ElementRef::Node(id) => id,
        ElementRef::Edge(id) => id,
    }
}

/// The trees of elements.
pub open spec fn element_trees(elements: Seq<ElementRef>) -> Seq<JsonTree> {
    Seq::new(elements.len(), |i: int| element_tree(elements[i]))
}

/// The trees of bound elements.
pub open spec fn binding_trees(bindings: Seq<(String, ElementRef)>) -> Seq<(Seq<char>, JsonTree)> {
    Seq::new(bindings.len(), |i: int| (bindings[i].0@, element_tree(bindings[i].1)))
}

/// Whether a row shows its element alone.
pub open spec fn is_public_element(row: ExecutionRow) -> bool {
    &&& row.current is Some
    &&& row.bindings@.len() == 0
    &&& !row.has_binding_properties
    &&& !row.path_visible
    &&& row.sack is Hidden
}

/// Members with an optional property behind them.
pub open spec fn with_property(
    members: Seq<(Seq<char>, JsonTree)>,
    name: Seq<char>,
    property: Option<Result<serde_json::Value, String>>,
) -> Result<Seq<(Seq<char>, JsonTree)>, String> {
    match property {
        None => Ok(members),
        Some(property) => match property_tree(property) {
            Ok(tree) => Ok(members.push((name, tree))),
            Err(error) => Err(error),
        },
    }
}

/// The tree of a row that shows its element alone: `$id`, then `$distance` and `$score`
/// where it has them.
pub open spec fn public_tree(row: ExecutionRow) -> Result<JsonTree, String> {
    let id = seq![("$id"@, JsonTree::Unsigned(element_id(row.current->0)))];
    match with_property(id, "$distance"@, row.distance) {
        Err(error) => Err(error),
        Ok(ranked) => match with_property(ranked, "$score"@, row.score) {
            Err(error) => Err(error),
            Ok(members) => Ok(JsonTree::Members(members)),
        },
    }
}

/// The tree of a visible sack.
pub open spec fn sack_tree(
    value: Option<Result<serde_json::Value, String>>,
) -> Result<JsonTree, String> {
    match value {
        Some(property) => property_tree(property),
        None => Ok(JsonTree::Null),
    }
}

/// The members of an annotated row before its sack, its bindings in the order of their
/// names.
pub open spec fn annotated_members(row: ExecutionRow) -> Seq<(Seq<char>, JsonTree)> {
    let current = match row.current {
        Some(element) => element_tree(element),
        None => JsonTree::Null,
    };
    let bindings = JsonTree::Members(binding_trees(crate::names::by_name(row.bindings@)));
    let members = seq![("current"@, current), ("bindings"@, bindings)];
    if row.path_visible {
        members.push(("path"@, JsonTree::List(element_trees(row.path@))))
    } else {
        members
    }
}

/// The tree of an annotated row.
pub open spec fn annotated_tree(row: ExecutionRow) -> Result<JsonTree, String> {
    match row.sack {
        RowSack::Hidden => Ok(JsonTree::Members(annotated_members(row))),
        RowSack::Visible(value) => match sack_tree(value) {
            Ok(tree) => Ok(JsonTree::Members(annotated_members(row).push(("sack"@, tree)))),
            Err(error) => Err(error),
        },
    }
}

/// The tree of a row.
pub open spec fn row_tree(row: ExecutionRow) -> Result<JsonTree, String> {
    if is_public_element(row) {
        public_tree(row)
    } else {
        annotated_tree(row)
    }
}

/// Whether a converted value is what a tree says.
pub open spec fn converts_to(
    json: Result<serde_json::Value, QueryServiceError>,
    expected: Result<JsonTree, String>,
) -> bool {
    match json {
        Ok(json) => expected == Ok::<JsonTree, String>(crate::json::json_tree(json)),
        Err(error) => error matches QueryServiceError::JsonSerialize(inner) && expected == Err::<
            JsonTree,
            String,
        >(inner),
    }
}

/// Turns an element into JSON.
pub fn element_ref_to_json(element: ElementRef) -> (json: serde_json::Value)
    ensures
        crate::json::json_tree(json) == element_tree(element),
{
    let (kind, id) = match element {
        ElementRef::Node(id) => ("node", id),
        ElementRef::Edge(id) => ("edge", id),
    };
    let mut members: Vec<(String, serde_json::Value)> = Vec::new();
    members.push((kind.to_owned(), json_unsigned(id)));
    assert(crate::json::member_trees(members@) =~= seq![(kind@, JsonTree::Unsigned(id))]);
    json_record(members)
}

fn property_json(property: Result<serde_json::Value, String>) -> (json: Result<
    serde_json::Value,
    QueryServiceError,
>)
    ensures
        converts_to(json, property_tree(property)),
{
    match property {
        Ok(value) => Ok(value),
        Err(error) => Err(QueryServiceError::JsonSerialize(error)),
    }
}

proof fn lemma_row_names_differ()
    ensures
        "$id"@ != "$distance"@,
        "$id"@ != "$score"@,
        "$distance"@ != "$score"@,
        "current"@ != "bindings"@,
        "current"@ != "path"@,
        "current"@ != "sack"@,
        "bindings"@ != "path"@,
        "bindings"@ != "sack"@,
        "path"@ != "sack"@,
{
    reveal_strlit("$id");
    reveal_strlit("$distance");
    reveal_strlit("$score");
    reveal_strlit("current");
    reveal_strlit("bindings");
    reveal_strlit("path");
    reveal_strlit("sack");
    assert("$id"@.len() == 3 && "$distance"@.len() == 9 && "$score"@.len() == 6);
    assert("current"@.len() == 7 && "bindings"@.len() == 8);
    assert("path"@.len() == 4 && "sack"@.len() == 4);
    assert("path"@[0] == 'p' && "sack"@[0] == 's');
}

fn push_property(
    members: &mut Vec<(String, serde_json::Value)>,
    name: &'static str,
    property: Option<Result<serde_json::Value, String>>,
) -> (pushed: Result<(), QueryServiceError>)
    ensures
        match pushed {
            Ok(_) => with_property(crate::json::member_trees(old(members)@), name@, property)
                == Ok::<Seq<(Seq<char>, JsonTree)>, String>(
                crate::json::member_trees(final(members)@),
            ),
            Err(error) => error matches QueryServiceError::JsonSerialize(inner) && with_property(
                crate::json::member_trees(old(members)@),
                name@,
                property,
            ) == Err::<Seq<(Seq<char>, JsonTree)>, String>(inner),
        },
{
    let property = match property {
        Some(property) => property,
        None => {
            return Ok(());
        },
    };
    match property_json(property) {
        Ok(json) => {
            let ghost before = members@;
            members.push((name.to_owned(), json));
            assert(crate::json::member_trees(members@) =~= crate::json::member_trees(before).push(
                (name@, crate::json::json_tree(json)),
            ));
            Ok(())
        },
        Err(error) => Err(error),
    }
}

fn public_row_to_json(row: ExecutionRow) -> (json: Result<serde_json::Value, QueryServiceError>)
    requires
        is_public_element(row),
    ensures
        converts_to(json, public_tree(row)),
{
    proof {
        lemma_row_names_differ();
    }
    let id: u64 = match row.current {
        Some(ElementRef::Node(id)) => id,
        Some(ElementRef::Edge(id)) => id,
        None => 0,
    };
    let mut members: Vec<(String, serde_json::Value)> = Vec::new();
    members.push(("$id".to_owned(), json_unsigned(id)));
    assert(crate::json::member_trees(members@) =~= seq![("$id"@, JsonTree::Unsigned(id))]);
    if let Err(error) = push_property(&mut members, "$distance", row.distance) {
        return Err(error);
    }
    if let Err(error) = push_property(&mut members, "$score", row.score) {
        return Err(error);
    }
    Ok(json_record(members))
}

fn elements_to_json(elements: &Vec<ElementRef>) -> (json: serde_json::Value)
    ensures
        crate::json::json_tree(json) == JsonTree::List(element_trees(elements@)),
{
    let mut values: Vec<serde_json::Value> = Vec::new();
    let mut position: usize = 0;
    while position < elements.len()
        invariant
            position <= elements.len(),
            values@.len() == position,
            forall|i: int|
                0 <= i < position ==> crate::json::json_tree(#[trigger] values@[i])
                    == element_tree(elements@[i]),
        decreases elements.len() - position,
    {
        values.push(element_ref_to_json(elements[position]));
        position = position + 1;
    }
    assert(crate::json::list_trees(values@) =~= element_trees(elements@));
    json_list(values)
}

proof fn lemma_ascending_names_differ<T>(
    items: Seq<(String, T)>,
    members: Seq<(Seq<char>, JsonTree)>,
)
    requires
        members.len() == items.len(),
        forall|i: int| 0 <= i < items.len() ==> (#[trigger] members[i]).0 == items[i].0@,
        crate::names::names_ascend(items),
    ensures
        crate::json::distinct_names(members),
{
    assert forall|i: int, j: int| 0 <= i < j < members.len() implies (#[trigger] members[i]).0 != (
    #[trigger] members[j]).0 by {
        assert(crate::names::name_precedes(items[i].0@, items[j].0@));
        crate::names::law_names_are_ordered(members[i].0, members[j].0, members[j].0);
    }
}

fn bindings_to_json(bindings: Vec<(String, ElementRef)>) -> (json: serde_json::Value)
    ensures
        crate::json::json_tree(json) == JsonTree::Members(
            binding_trees(crate::names::by_name(bindings@)),
        ),
{
    proof {
        crate::names::law_items_come_in_name_order(bindings@);
    }
    let bindings = in_name_order(bindings);
    let mut members: Vec<(String, serde_json::Value)> = Vec::new();
    let mut position: usize = 0;
    while position < bindings.len()
        invariant
            position <= bindings.len(),
            members@.len() == position,
            forall|i: int|
                0 <= i < position ==> (#[trigger] members@[i]).0@ == bindings@[i].0@
                    && crate::json::json_tree(members@[i].1) == element_tree(bindings@[i].1),
        decreases bindings.len() - position,
    {
        members.push((bindings[position].0.clone(), element_ref_to_json(bindings[position].1)));
        position = position + 1;
    }
    assert(crate::json::member_trees(members@) =~= binding_trees(bindings@));
    proof {
        lemma_ascending_names_differ(bindings@, crate::json::member_trees(members@));
    }
    json_record(members)
}

/// Turns a row into JSON.
pub fn execution_row_to_json(row: ExecutionRow) -> (json: Result<
    serde_json::Value,
    QueryServiceError,
>)
    ensures
        converts_to(json, row_tree(row)),
{
    let hidden = matches!(row.sack, RowSack::Hidden);
    if row.current.is_some() && row.bindings.len() == 0 && !row.has_binding_properties
        && !row.path_visible && hidden {
        return public_row_to_json(row);
    }
    proof {
        lemma_row_names_differ();
    }
    let current = match row.current {
        Some(element) => element_ref_to_json(element),
        None => json_null(),
    };
    let mut members: Vec<(String, serde_json::Value)> = Vec::new();
    members.push(("current".to_owned(), current));
    members.push(("bindings".to_owned(), bindings_to_json(row.bindings)));
    if row.path_visible {
        members.push(("path".to_owned(), elements_to_json(&row.path)));
    }
    assert(crate::json::member_trees(members@) =~= annotated_members(row));
    match row.sack {
        RowSack::Hidden => Ok(json_record(members)),
        RowSack::Visible(value) => {
            let sack = match value {
                Some(property) => match property_json(property) {
                    Ok(json) => json,
                    Err(error) => {
                        return Err(error);
                    },
                },
                None => json_null(),
            };
            let ghost before = members@;
            members.push(("sack".to_owned(), sack));
            assert(crate::json::member_trees(members@) =~= annotated_members(row).push(
                ("sack"@, crate::json::json_tree(sack)),
            ));
            Ok(json_record(members))
        },
    }
}

/// The members of an object of properties, up to the first that fails.
pub open spec fn object_members(
    properties: Seq<(String, Result<serde_json::Value, String>)>,
) -> Result<Seq<(Seq<char>, JsonTree)>, String>
    decreases properties.len(),
{
    if properties.len() == 0 {
        Ok(Seq::empty())
    } else {
        match object_members(properties.drop_last()) {
            Err(error) => Err(error),
            Ok(before) => match property_tree(properties.last().1) {
                Ok(tree) => Ok(before.push((properties.last().0@, tree))),
                Err(error) => Err(error),
            },
        }
    }
}

/// The tree of a scalar.
pub open spec fn scalar_tree(scalar: ExecutionScalar) -> Result<JsonTree, String> {
    match scalar {
        ExecutionScalar::NodeId(id) => Ok(JsonTree::Unsigned(id)),
        ExecutionScalar::EdgeId(id) => Ok(JsonTree::Unsigned(id)),
        ExecutionScalar::Text(text) => Ok(JsonTree::Text(text@)),
        ExecutionScalar::Property(property) => property_tree(property),
        ExecutionScalar::Object(properties) => match object_members(
            crate::names::by_name(properties@),
        ) {
            Ok(members) => Ok(JsonTree::Members(members)),
            Err(error) => Err(error),
        },
    }
}

proof fn lemma_failed_member_fails_object(
    properties: Seq<(String, Result<serde_json::Value, String>)>,
    count: int,
    error: String,
)
    requires
        0 <= count <= properties.len(),
        object_members(properties.take(count)) == Err::<
            Seq<(Seq<char>, JsonTree)>,
            String,
        >(error),
    ensures
        object_members(properties) == Err::<Seq<(Seq<char>, JsonTree)>, String>(error),
    decreases properties.len() - count,
{
    if count < properties.len() {
        assert(properties.take(count + 1).drop_last() =~= properties.take(count));
        lemma_failed_member_fails_object(properties, count + 1, error);
    } else {
        assert(properties.take(count) =~= properties);
    }
}

fn object_to_json(
    properties: Vec<(String, Result<serde_json::Value, String>)>,
) -> (json: Result<serde_json::Value, QueryServiceError>)
    ensures
        converts_to(
            json,
            match object_members(crate::names::by_name(properties@)) {
                Ok(members) => Ok(JsonTree::Members(members)),
                Err(error) => Err(error),
            },
        ),
{
    proof {
        crate::names::law_items_come_in_name_order(properties@);
    }
    let ordered = in_name_order(properties);
    let ghost all = ordered@;
    let mut members: Vec<(String, serde_json::Value)> = Vec::new();
    assert(all.take(0) =~= Seq::empty());
    assert(crate::json::member_trees(members@) =~= Seq::empty());
    for item in iter: ordered
        invariant
            iter.seq() == all,
            all == crate::names::by_name(properties@),
            members@.len() == iter.index(),
            forall|i: int| 0 <= i < members@.len() ==> (#[trigger] members@[i]).0@ == all[i].0@,
            object_members(all.take(iter.index() as int)) == Ok::<
                Seq<(Seq<char>, JsonTree)>,
                String,
            >(crate::json::member_trees(members@)),
    {
        let ghost at = iter.index() as int;
        let ghost before = members@;
        let (name, property) = item;
        proof {
            assert(all.take(at + 1).drop_last() =~= all.take(at));
            assert(all.take(at + 1).last() == all[at]);
        }
        match property_json(property) {
            Ok(json) => {
                members.push((name, json));
                assert(crate::json::member_trees(members@) =~= crate::json::member_trees(
                    before,
                ).push((name@, crate::json::json_tree(json))));
            },
            Err(error) => {
                proof {
                    lemma_failed_member_fails_object(all, at + 1, error->JsonSerialize_0);
                }
                return Err(error);
            },
        }
    }
    assert(all.take(all.len() as int) =~= all);
    proof {
        lemma_ascending_names_differ(all, crate::json::member_trees(members@));
    }
    Ok(json_record(members))
}

/// Turns a scalar into JSON.
pub fn execution_scalar_to_json(scalar: ExecutionScalar) -> (json: Result<
    serde_json::Value,
    QueryServiceError,
>)
    ensures
        converts_to(json, scalar_tree(scalar)),
        scalar matches ExecutionScalar::NodeId(id) ==> (json matches Ok(json)
            && crate::json::json_tree(json) == JsonTree::Unsigned(id)),
        scalar matches ExecutionScalar::EdgeId(id) ==> (json matches Ok(json)
            && crate::json::json_tree(json) == JsonTree::Unsigned(id)),
        scalar matches ExecutionScalar::Text(text) ==> (json matches Ok(json)
            && crate::json::json_tree(json) == JsonTree::Text(text@)),
{
    match scalar {
        ExecutionScalar::NodeId(id) => Ok(json_unsigned(id)),
        ExecutionScalar::EdgeId(id) => Ok(json_unsigned(id)),
        ExecutionScalar::Text(text) => Ok(json_text(text)),
        ExecutionScalar::Property(property) => property_json(property),
        ExecutionScalar::Object(properties) => object_to_json(properties),
    }
}

/// The trees of rows, up to the first that fails.
pub open spec fn row_trees(rows: Seq<ExecutionRow>) -> Result<Seq<JsonTree>, String>
    decreases rows.len(),
{
    if rows.len() == 0 {
        Ok(Seq::empty())
    } else {
        match row_trees(rows.drop_last()) {
            Err(error) => Err(error),
            Ok(before) => match row_tree(rows.last()) {
                Ok(tree) => Ok(before.push(tree)),
                Err(error) => Err(error),
            },
        }
    }
}

/// The trees of scalars, up to the first that fails.
pub open spec fn scalar_trees(scalars: Seq<ExecutionScalar>) -> Result<
    Seq<JsonTree>,
    String,
>
    decreases scalars.len(),
{
    if scalars.len() == 0 {
        Ok(Seq::empty())
    } else {
        match scalar_trees(scalars.drop_last()) {
            Err(error) => Err(error),
            Ok(before) => match scalar_tree(scalars.last()) {
                Ok(tree) => Ok(before.push(tree)),
                Err(error) => Err(error),
            },
        }
    }
}

/// A list of trees as a tree.
pub open spec fn list_tree(trees: Result<Seq<JsonTree>, String>) -> Result<
    JsonTree,
    String,
> {
    match trees {
        Ok(trees) => Ok(JsonTree::List(trees)),
        Err(error) => Err(error),
    }
}

/// The tree of a returned value.
pub open spec fn value_tree(value: ExecutionValue) -> Result<JsonTree, String> {
    match value {
        ExecutionValue::Stream(rows) => list_tree(row_trees(rows@)),
        ExecutionValue::FoldedStream(rows) => list_tree(row_trees(rows@)),
        ExecutionValue::Count(count) => Ok(JsonTree::Unsigned(count)),
        ExecutionValue::Bool(value) => Ok(JsonTree::Bool(value)),
        ExecutionValue::Scalars(scalars) => list_tree(scalar_trees(scalars@)),
        ExecutionValue::IndexReport(report) => property_tree(report),
    }
}

proof fn lemma_failed_row_fails_stream(
    rows: Seq<ExecutionRow>,
    count: int,
    error: String,
)
    requires
        0 <= count <= rows.len(),
        row_trees(rows.take(count)) == Err::<Seq<JsonTree>, String>(error),
    ensures
        row_trees(rows) == Err::<Seq<JsonTree>, String>(error),
    decreases rows.len() - count,
{
    if count < rows.len() {
        assert(rows.take(count + 1).drop_last() =~= rows.take(count));
        lemma_failed_row_fails_stream(rows, count + 1, error);
    } else {
        assert(rows.take(count) =~= rows);
    }
}

proof fn lemma_failed_scalar_fails_list(
    scalars: Seq<ExecutionScalar>,
    count: int,
    error: String,
)
    requires
        0 <= count <= scalars.len(),
        scalar_trees(scalars.take(count)) == Err::<Seq<JsonTree>, String>(error),
    ensures
        scalar_trees(scalars) == Err::<Seq<JsonTree>, String>(error),
    decreases scalars.len() - count,
{
    if count < scalars.len() {
        assert(scalars.take(count + 1).drop_last() =~= scalars.take(count));
        lemma_failed_scalar_fails_list(scalars, count + 1, error);
    } else {
        assert(scalars.take(count) =~= scalars);
    }
}

fn rows_to_json(rows: Vec<ExecutionRow>) -> (json: Result<serde_json::Value, QueryServiceError>)
    ensures
        converts_to(json, list_tree(row_trees(rows@))),
{
    let ghost all = rows@;
    let mut values: Vec<serde_json::Value> = Vec::new();
    assert(all.take(0) =~= Seq::empty());
    assert(crate::json::list_trees(values@) =~= Seq::empty());
    for row in iter: rows
        invariant
            iter.seq() == all,
            row_trees(all.take(iter.index() as int)) == Ok::<Seq<JsonTree>, String>(
                crate::json::list_trees(values@),
            ),
    {
        let ghost at = iter.index() as int;
        let ghost before = values@;
        proof {
            assert(all.take(at + 1).drop_last() =~= all.take(at));
            assert(all.take(at + 1).last() == all[at]);
        }
        match execution_row_to_json(row) {
            Ok(json) => {
                values.push(json);
                assert(crate::json::list_trees(values@) =~= crate::json::list_trees(before).push(
                    crate::json::json_tree(json),
                ));
            },
            Err(error) => {
                proof {
                    lemma_failed_row_fails_stream(all, at + 1, error->JsonSerialize_0);
                }
                return Err(error);
            },
        }
    }
    assert(all.take(all.len() as int) =~= all);
    Ok(json_list(values))
}

fn scalars_to_json(scalars: Vec<ExecutionScalar>) -> (json: Result<
    serde_json::Value,
    QueryServiceError,
>)
    ensures
        converts_to(json, list_tree(scalar_trees(scalars@))),
{
    let ghost all = scalars@;
    let mut values: Vec<serde_json::Value> = Vec::new();
    assert(all.take(0) =~= Seq::empty());
    assert(crate::json::list_trees(values@) =~= Seq::empty());
    for scalar in iter: scalars
        invariant
            iter.seq() == all,
            scalar_trees(all.take(iter.index() as int)) == Ok::<Seq<JsonTree>, String>(
                crate::json::list_trees(values@),
            ),
    {
        let ghost at = iter.index() as int;
        let ghost before = values@;
        proof {
            assert(all.take(at + 1).drop_last() =~= all.take(at));
            assert(all.take(at + 1).last() == all[at]);
        }
        match execution_scalar_to_json(scalar) {
            Ok(json) => {
                values.push(json);
                assert(crate::json::list_trees(values@) =~= crate::json::list_trees(before).push(
                    crate::json::json_tree(json),
                ));
            },
            Err(error) => {
                proof {
                    lemma_failed_scalar_fails_list(all, at + 1, error->JsonSerialize_0);
                }
                return Err(error);
            },
        }
    }
    assert(all.take(all.len() as int) =~= all);
    Ok(json_list(values))
}

/// Turns a returned value into JSON.
pub fn execution_value_to_json(value: ExecutionValue) -> (json: Result<
    serde_json::Value,
    QueryServiceError,
>)
    ensures
        converts_to(json, value_tree(value)),
{
    match value {
        ExecutionValue::Stream(rows) => rows_to_json(rows),
        ExecutionValue::FoldedStream(rows) => rows_to_json(rows),
        ExecutionValue::Count(count) => Ok(json_unsigned(count)),
        ExecutionValue::Bool(value) => Ok(json_bool(value)),
        ExecutionValue::Scalars(scalars) => scalars_to_json(scalars),
        ExecutionValue::IndexReport(report) => property_json(report),
    }
}

/// The members of a response, up to the first value that fails.
pub open spec fn return_members(returned: Seq<(String, ExecutionValue)>) -> Result<
    Seq<(Seq<char>, JsonTree)>,
    String,
>
    decreases returned.len(),
{
    if returned.len() == 0 {
        Ok(Seq::empty())
    } else {
        match return_members(returned.drop_last()) {
            Err(error) => Err(error),
            Ok(before) => match value_tree(returned.last().1) {
                Ok(tree) => Ok(before.push((returned.last().0@, tree))),
                Err(error) => Err(error),
            },
        }
    }
}

proof fn lemma_failed_value_fails_response(
    returned: Seq<(String, ExecutionValue)>,
    count: int,
    error: String,
)
    requires
        0 <= count <= returned.len(),
        return_members(returned.take(count)) == Err::<
            Seq<(Seq<char>, JsonTree)>,
            String,
        >(error),
    ensures
        return_members(returned) == Err::<Seq<(Seq<char>, JsonTree)>, String>(error),
    decreases returned.len() - count,
{
    if count < returned.len() {
        assert(returned.take(count + 1).drop_last() =~= returned.take(count));
        lemma_failed_value_fails_response(returned, count + 1, error);
    } else {
        assert(returned.take(count) =~= returned);
    }
}

/// JSON response for returned values, with the diagnostics of the plan beside it.
#[derive(Debug)]
pub struct QueryResponse<D> {
    returned: serde_json::Value,
    diagnostics: D,
}

impl<D> QueryResponse<D> {
    /// The tree of the returned values.
    pub closed spec fn tree(self) -> JsonTree {
        crate::json::json_tree(self.returned)
    }

    /// The diagnostics of the plan.
    pub closed spec fn plan_diagnostics(self) -> D {
        self.diagnostics
    }

    /// Turns returned values into a response, in the order of their names. Diagnostics stay
    /// out of the public JSON.
    pub fn from_execution_result_with_diagnostics(
        returned: Vec<(String, ExecutionValue)>,
        diagnostics: D,
    ) -> (response: Result<Self, QueryServiceError>)
        ensures
            match return_members(crate::names::by_name(returned@)) {
                Ok(members) => response matches Ok(response) && response.tree()
                    == JsonTree::Members(members)
                    && response.plan_diagnostics() == diagnostics,
                Err(error) => response == Err::<Self, QueryServiceError>(
                    QueryServiceError::JsonSerialize(error),
                ),
            },
    {
        proof {
            crate::names::law_items_come_in_name_order(returned@);
        }
        let ordered = in_name_order(returned);
        let ghost all = ordered@;
        let mut members: Vec<(String, serde_json::Value)> = Vec::new();
        assert(all.take(0) =~= Seq::empty());
        assert(crate::json::member_trees(members@) =~= Seq::empty());
        for item in iter: ordered
            invariant
                iter.seq() == all,
                all == crate::names::by_name(returned@),
                members@.len() == iter.index(),
                forall|i: int|
                    0 <= i < members@.len() ==> (#[trigger] members@[i]).0@ == all[i].0@,
                return_members(all.take(iter.index() as int)) == Ok::<
                    Seq<(Seq<char>, JsonTree)>,
                    String,
                >(crate::json::member_trees(members@)),
        {
            let ghost at = iter.index() as int;
            let ghost before = members@;
            let (name, value) = item;
            proof {
                assert(all.take(at + 1).drop_last() =~= all.take(at));
                assert(all.take(at + 1).last() == all[at]);
            }
            match execution_value_to_json(value) {
                Ok(json) => {
                    members.push((name, json));
                    assert(crate::json::member_trees(members@) =~= crate::json::member_trees(
                        before,
                    ).push((name@, crate::json::json_tree(json))));
                },
                Err(error) => {
                    proof {
                        lemma_failed_value_fails_response(all, at + 1, error->JsonSerialize_0);
                    }
                    return Err(error);
                },
            }
        }
        assert(all.take(all.len() as int) =~= all);
        proof {
            lemma_ascending_names_differ(all, crate::json::member_trees(members@));
        }
        Ok(QueryResponse { returned: json_record(members), diagnostics })
    }

    /// Serialize the response as JSON bytes.
    pub fn to_json_bytes(&self) -> (bytes: Result<Vec<u8>, QueryServiceError>)
        ensures
            bytes matches Ok(bytes) && {
                &&& bytes@ == crate::json::sonic_json(self.tree())
                &&& self.tree().is_plain(100) ==> crate::json::parsed_json(bytes@) == Ok::<
                    JsonTree,
                    Seq<char>,
                >(self.tree())
            },
    {
        match sonic_write(&self.returned) {
            Ok(bytes) => Ok(bytes),
            Err(error) => Err(QueryServiceError::Serialize(error)),
        }
    }

    /// Borrow the returned values: an object with one member for each.
    pub fn returned(&self) -> (returned: &serde_json::Value)
        ensures
            crate::json::json_tree(*returned) == self.tree(),
    {
        &self.returned
    }

    /// Gives the returned values away.
    pub fn into_returned(self) -> (returned: serde_json::Value)
        ensures
            crate::json::json_tree(returned) == self.tree(),
    {
        self.returned
    }

    /// Borrow the diagnostics for the exact executed plan.
    pub fn diagnostics(&self) -> (diagnostics: &D)
        ensures
            *diagnostics == self.plan_diagnostics(),
    {
        &self.diagnostics
    }
}

impl QueryResponse<()> {
    /// Turns returned values into a response without diagnostics, in the order of their
    /// names.
    pub fn from_execution_result(returned: Vec<(String, ExecutionValue)>) -> (response: Result<
        Self,
        QueryServiceError,
    >)
        ensures
            match return_members(crate::names::by_name(returned@)) {
                Ok(members) => response matches Ok(response) && response.tree()
                    == JsonTree::Members(members),
                Err(error) => response == Err::<Self, QueryServiceError>(
                    QueryServiceError::JsonSerialize(error),
                ),
            },
    {
        QueryResponse::from_execution_result_with_diagnostics(returned, ())
    }
}

proof fn lemma_members_keep_names(
    returned: Seq<(String, ExecutionValue)>,
    members: Seq<(Seq<char>, JsonTree)>,
)
    requires
        return_members(returned) == Ok::<Seq<(Seq<char>, JsonTree)>, String>(members),
    ensures
        members.len() == returned.len(),
        forall|i: int| 0 <= i < members.len() ==> (#[trigger] members[i]).0 == returned[i].0@,
    decreases returned.len(),
{
    if returned.len() > 0 {
        let before = return_members(returned.drop_last())->Ok_0;
        assert(members.drop_last() =~= before);
        lemma_members_keep_names(returned.drop_last(), members.drop_last());
        assert forall|i: int| 0 <= i < members.len() implies (#[trigger] members[i]).0
            == returned[i].0@ by {
            if i < members.len() - 1 {
                assert(members.drop_last()[i].0 == returned.drop_last()[i].0@);
            }
        }
    }
}

/// A response lists its values by name: each name comes before all names behind it.
pub proof fn law_returned_names_ascend(
    returned: Seq<(String, ExecutionValue)>,
    members: Seq<(Seq<char>, JsonTree)>,
)
    requires
        return_members(crate::names::by_name(returned)) == Ok::<
            Seq<(Seq<char>, JsonTree)>,
            String,
        >(members),
    ensures
        forall|i: int, j: int|
            0 <= i < j < members.len() ==> crate::names::name_precedes(
                (#[trigger] members[i]).0,
                (#[trigger] members[j]).0,
            ),
{
    let ordered = crate::names::by_name(returned);
    crate::names::law_items_come_in_name_order(returned);
    lemma_members_keep_names(ordered, members);
    assert forall|i: int, j: int| 0 <= i < j < members.len() implies crate::names::name_precedes(
        (#[trigger] members[i]).0,
        (#[trigger] members[j]).0,
    ) by {
        assert(crate::names::name_precedes(ordered[i].0@, ordered[j].0@));
    }
}

/// A row that shows its element alone gives none of its interpreter state away: what it
/// looks like depends on the number of the element and on its ranking only.
pub proof fn law_public_rows_hide_row_state(left: ExecutionRow, right: ExecutionRow)
    requires
        is_public_element(left),
        is_public_element(right),
        element_id(left.current->0) == element_id(right.current->0),
        left.distance == right.distance,
        left.score == right.score,
    ensures
        row_tree(left) == row_tree(right),
{
}

/// A row whose path is not visible never shows it.
pub proof fn law_hidden_paths_stay_hidden(row: ExecutionRow, path: Vec<ElementRef>)
    requires
        !row.path_visible,
    ensures
        row_tree((ExecutionRow { path, ..row })) == row_tree(row),
{
    let other = ExecutionRow { path, ..row };
    assert(annotated_members(other) == annotated_members(row));
}

/// Ids convert to the numbers that they are, whatever the element, and text to itself.
pub proof fn law_scalars_convert_to_what_they_are(id: u64, text: String)
    ensures
        scalar_tree(ExecutionScalar::NodeId(id)) == Ok::<JsonTree, String>(JsonTree::Unsigned(id)),
        scalar_tree(ExecutionScalar::EdgeId(id)) == Ok::<JsonTree, String>(JsonTree::Unsigned(id)),
        scalar_tree(ExecutionScalar::Text(text)) == Ok::<JsonTree, String>(JsonTree::Text(text@)),
{
}

/// Different ids never convert to the same JSON.
pub proof fn law_ids_are_told_apart(left: u64, right: u64)
    requires
        left != right,
    ensures
        scalar_tree(ExecutionScalar::NodeId(left)) != scalar_tree(ExecutionScalar::NodeId(right)),
        scalar_tree(ExecutionScalar::EdgeId(left)) != scalar_tree(ExecutionScalar::EdgeId(right)),
        element_tree(ElementRef::Node(left)) != element_tree(ElementRef::Node(right)),
        element_tree(ElementRef::Edge(left)) != element_tree(ElementRef::Edge(right)),
        value_tree(ExecutionValue::Count(left)) != value_tree(ExecutionValue::Count(right)),
{
    let trees = |id: u64, name: Seq<char>| seq![(name, JsonTree::Unsigned(id))];
    assert(trees(left, "node"@)[0] != trees(right, "node"@)[0]);
    assert(trees(left, "edge"@)[0] != trees(right, "edge"@)[0]);
}

/// A property converts to its JSON value, or fails with the text of its failure, wherever
/// it stands: alone, as the report of an index, or as the sack of a row.
pub proof fn law_properties_convert_as_they_are(value: serde_json::Value, error: String)
    ensures
        scalar_tree(ExecutionScalar::Property(Ok(value))) == Ok::<JsonTree, String>(
            crate::json::json_tree(value),
        ),
        scalar_tree(ExecutionScalar::Property(Err(error))) == Err::<JsonTree, String>(error),
        value_tree(ExecutionValue::IndexReport(Ok(value))) == Ok::<JsonTree, String>(
            crate::json::json_tree(value),
        ),
        value_tree(ExecutionValue::IndexReport(Err(error))) == Err::<JsonTree, String>(error),
        sack_tree(Some(Ok(value))) == Ok::<JsonTree, String>(crate::json::json_tree(value)),
        sack_tree(Some(Err(error))) == Err::<JsonTree, String>(error),
        sack_tree(None) == Ok::<JsonTree, String>(JsonTree::Null),
{
}

/// A count converts to its number and a truth value to itself.
pub proof fn law_counts_and_truth_values_convert(count: u64, value: bool)
    ensures
        value_tree(ExecutionValue::Count(count)) == Ok::<JsonTree, String>(
            JsonTree::Unsigned(count),
        ),
        value_tree(ExecutionValue::Bool(value)) == Ok::<JsonTree, String>(JsonTree::Bool(value)),
{
}

/// An element converts to an object that has its number under its kind.
pub proof fn law_elements_show_their_kind(id: u64)
    ensures
        element_tree(ElementRef::Node(id)) == JsonTree::Members(
            seq![("node"@, JsonTree::Unsigned(id))],
        ),
        element_tree(ElementRef::Edge(id)) == JsonTree::Members(
            seq![("edge"@, JsonTree::Unsigned(id))],
        ),
        element_tree(ElementRef::Node(id)) != element_tree(ElementRef::Edge(id)),
{
    reveal_strlit("node");
    reveal_strlit("edge");
    assert("node"@[0] == 'n' && "edge"@[0] == 'e');
    let node = seq![("node"@, JsonTree::Unsigned(id))];
    let edge = seq![("edge"@, JsonTree::Unsigned(id))];
    assert(node[0] != edge[0]);
}

/// A row of which nothing but its element is visible shows the number of the element, with
/// its distance and its score where it has them, in that order.
pub proof fn law_plain_rows_show_their_element(row: ExecutionRow, id: u64)
    requires
        row.current == Some(ElementRef::Node(id)) || row.current == Some(ElementRef::Edge(id)),
        row.bindings@.len() == 0,
        !row.has_binding_properties,
        !row.path_visible,
        row.sack is Hidden,
    ensures
        ({
            let number = ("$id"@, JsonTree::Unsigned(id));
            match (row.distance, row.score) {
                (None, None) => row_tree(row) == Ok::<JsonTree, String>(
                    JsonTree::Members(seq![number]),
                ),
                (Some(Ok(distance)), None) => row_tree(row) == Ok::<JsonTree, String>(
                    JsonTree::Members(
                        seq![number, ("$distance"@, crate::json::json_tree(distance))],
                    ),
                ),
                (None, Some(Ok(score))) => row_tree(row) == Ok::<JsonTree, String>(
                    JsonTree::Members(seq![number, ("$score"@, crate::json::json_tree(score))]),
                ),
                (Some(Ok(distance)), Some(Ok(score))) => row_tree(row) == Ok::<JsonTree, String>(
                    JsonTree::Members(
                        seq![
                            number,
                            ("$distance"@, crate::json::json_tree(distance)),
                            ("$score"@, crate::json::json_tree(score)),
                        ],
                    ),
                ),
                (Some(Err(error)), _) => row_tree(row) == Err::<JsonTree, String>(error),
                (_, Some(Err(error))) => row_tree(row) == Err::<JsonTree, String>(error),
            }
        }),
{
    let number = ("$id"@, JsonTree::Unsigned(id));
    let first = seq![number];
    match (row.distance, row.score) {
        (Some(Ok(distance)), None) => {
            let ranked = ("$distance"@, crate::json::json_tree(distance));
            assert(first.push(ranked) =~= seq![number, ranked]);
        },
        (None, Some(Ok(score))) => {
            let ranked = ("$score"@, crate::json::json_tree(score));
            assert(first.push(ranked) =~= seq![number, ranked]);
        },
        (Some(Ok(distance)), Some(Ok(score))) => {
            let near = ("$distance"@, crate::json::json_tree(distance));
            let ranked = ("$score"@, crate::json::json_tree(score));
            assert(first.push(near).push(ranked) =~= seq![number, near, ranked]);
        },
        _ => {},
    }
}

/// A row of which more is visible shows its element, its bindings, and its path and its sack
/// where they are visible, in that order.
pub proof fn law_annotated_rows_show_what_is_visible(row: ExecutionRow)
    requires
        row.current is None || row.bindings@.len() > 0 || row.has_binding_properties
            || row.path_visible || row.sack is Visible,
    ensures
        ({
            let current = (
                "current"@,
                match row.current {
                    Some(element) => element_tree(element),
                    None => JsonTree::Null,
                },
            );
            let bindings = (
                "bindings"@,
                JsonTree::Members(binding_trees(crate::names::by_name(row.bindings@))),
            );
            let path = ("path"@, JsonTree::List(element_trees(row.path@)));
            match row.sack {
                RowSack::Hidden => row_tree(row) == Ok::<JsonTree, String>(
                    JsonTree::Members(
                        if row.path_visible {
                            seq![current, bindings, path]
                        } else {
                            seq![current, bindings]
                        },
                    ),
                ),
                RowSack::Visible(None) => row_tree(row) == Ok::<JsonTree, String>(
                    JsonTree::Members(
                        if row.path_visible {
                            seq![current, bindings, path, ("sack"@, JsonTree::Null)]
                        } else {
                            seq![current, bindings, ("sack"@, JsonTree::Null)]
                        },
                    ),
                ),
                RowSack::Visible(Some(Ok(value))) => row_tree(row) == Ok::<JsonTree, String>(
                    JsonTree::Members(
                        if row.path_visible {
                            seq![
                                current,
                                bindings,
                                path,
                                ("sack"@, crate::json::json_tree(value)),
                            ]
                        } else {
                            seq![current, bindings, ("sack"@, crate::json::json_tree(value))]
                        },
                    ),
                ),
                RowSack::Visible(Some(Err(error))) => row_tree(row) == Err::<JsonTree, String>(
                    error,
                ),
            }
        }),
{
    let current = (
        "current"@,
        match row.current {
            Some(element) => element_tree(element),
            None => JsonTree::Null,
        },
    );
    let bindings = (
        "bindings"@,
        JsonTree::Members(binding_trees(crate::names::by_name(row.bindings@))),
    );
    let path = ("path"@, JsonTree::List(element_trees(row.path@)));
    let members = annotated_members(row);
    if row.path_visible {
        assert(members =~= seq![current, bindings, path]);
    } else {
        assert(members =~= seq![current, bindings]);
    }
    if let RowSack::Visible(value) = row.sack {
        if let Ok(tree) = sack_tree(value) {
            let sack = ("sack"@, tree);
            if row.path_visible {
                assert(members.push(sack) =~= seq![current, bindings, path, sack]);
            } else {
                assert(members.push(sack) =~= seq![current, bindings, sack]);
            }
        }
    }
}

/// Bound elements and the elements of a path convert one by one, each where it stands.
pub proof fn law_elements_convert_one_by_one(
    elements: Seq<ElementRef>,
    bindings: Seq<(String, ElementRef)>,
)
    ensures
        element_trees(elements).len() == elements.len(),
        forall|i: int|
            0 <= i < elements.len() ==> (#[trigger] element_trees(elements)[i]) == element_tree(
                elements[i],
            ),
        binding_trees(bindings).len() == bindings.len(),
        forall|i: int|
            0 <= i < bindings.len() ==> (#[trigger] binding_trees(bindings)[i]) == (
                bindings[i].0@,
                element_tree(bindings[i].1),
            ),
{
}

/// A stream converts row by row to a list in its order, folded or not; it fails exactly
/// where a row fails, and then as the first one does.
pub proof fn law_streams_convert_row_by_row(rows: Vec<ExecutionRow>)
    ensures
        value_tree(ExecutionValue::Stream(rows)) == value_tree(ExecutionValue::FoldedStream(rows)),
        match value_tree(ExecutionValue::Stream(rows)) {
            Ok(tree) => tree matches JsonTree::List(trees) && trees.len() == rows@.len()
                && forall|i: int|
                0 <= i < rows@.len() ==> row_tree(rows@[i]) == Ok::<JsonTree, String>(
                    #[trigger] trees[i],
                ),
            Err(error) => exists|i: int|
                0 <= i < rows@.len() && row_tree(#[trigger] rows@[i]) == Err::<JsonTree, String>(
                    error,
                ) && forall|j: int| 0 <= j < i ==> row_tree(#[trigger] rows@[j]) is Ok,
        },
{
    lemma_rows_convert(rows@);
}

proof fn lemma_rows_convert(rows: Seq<ExecutionRow>)
    ensures
        match row_trees(rows) {
            Ok(trees) => trees.len() == rows.len() && forall|i: int|
                0 <= i < rows.len() ==> row_tree(rows[i]) == Ok::<JsonTree, String>(
                    #[trigger] trees[i],
                ),
            Err(error) => exists|i: int|
                0 <= i < rows.len() && row_tree(#[trigger] rows[i]) == Err::<JsonTree, String>(
                    error,
                ) && forall|j: int| 0 <= j < i ==> row_tree(#[trigger] rows[j]) is Ok,
        },
    decreases rows.len(),
{
    if rows.len() > 0 {
        let before = rows.drop_last();
        lemma_rows_convert(before);
        match row_trees(before) {
            Err(error) => {
                let i = choose|i: int|
                    0 <= i < before.len() && row_tree(#[trigger] before[i]) == Err::<
                        JsonTree,
                        String,
                    >(error) && forall|j: int| 0 <= j < i ==> row_tree(#[trigger] before[j]) is Ok;
                assert(rows[i] == before[i]);
                assert forall|j: int| 0 <= j < i implies row_tree(#[trigger] rows[j]) is Ok by {
                    assert(rows[j] == before[j]);
                }
            },
            Ok(trees) => {
                assert forall|j: int| 0 <= j < before.len() implies row_tree(#[trigger] rows[j])
                    is Ok by {
                    assert(row_tree(before[j]) == Ok::<JsonTree, String>(trees[j]));
                }
                match row_tree(rows.last()) {
                    Err(error) => {
                        assert(rows[rows.len() - 1] == rows.last());
                    },
                    Ok(tree) => {
                        let all = trees.push(tree);
                        assert forall|i: int| 0 <= i < rows.len() implies row_tree(rows[i]) == Ok::<
                            JsonTree,
                            String,
                        >(#[trigger] all[i]) by {
                            if i < before.len() {
                                assert(row_tree(before[i]) == Ok::<JsonTree, String>(trees[i]));
                            }
                        }
                    },
                }
            },
        }
    }
}

/// A list of scalars converts one by one in its order; it fails exactly where one of them
/// fails, and then as the first one does.
pub proof fn law_scalars_convert_one_by_one(scalars: Vec<ExecutionScalar>)
    ensures
        match value_tree(ExecutionValue::Scalars(scalars)) {
            Ok(tree) => tree matches JsonTree::List(trees) && trees.len() == scalars@.len()
                && forall|i: int|
                0 <= i < scalars@.len() ==> scalar_tree(scalars@[i]) == Ok::<JsonTree, String>(
                    #[trigger] trees[i],
                ),
            Err(error) => exists|i: int|
                0 <= i < scalars@.len() && scalar_tree(#[trigger] scalars@[i]) == Err::<
                    JsonTree,
                    String,
                >(error) && forall|j: int| 0 <= j < i ==> scalar_tree(#[trigger] scalars@[j]) is Ok,
        },
{
    lemma_scalars_convert(scalars@);
}

proof fn lemma_scalars_convert(scalars: Seq<ExecutionScalar>)
    ensures
        match scalar_trees(scalars) {
            Ok(trees) => trees.len() == scalars.len() && forall|i: int|
                0 <= i < scalars.len() ==> scalar_tree(scalars[i]) == Ok::<JsonTree, String>(
                    #[trigger] trees[i],
                ),
            Err(error) => exists|i: int|
                0 <= i < scalars.len() && scalar_tree(#[trigger] scalars[i]) == Err::<
                    JsonTree,
                    String,
                >(error) && forall|j: int| 0 <= j < i ==> scalar_tree(#[trigger] scalars[j]) is Ok,
        },
    decreases scalars.len(),
{
    if scalars.len() > 0 {
        let before = scalars.drop_last();
        lemma_scalars_convert(before);
        match scalar_trees(before) {
            Err(error) => {
                let i = choose|i: int|
                    0 <= i < before.len() && scalar_tree(#[trigger] before[i]) == Err::<
                        JsonTree,
                        String,
                    >(error) && forall|j: int|
                        0 <= j < i ==> scalar_tree(#[trigger] before[j]) is Ok;
                assert(scalars[i] == before[i]);
                assert forall|j: int| 0 <= j < i implies scalar_tree(#[trigger] scalars[j])
                    is Ok by {
                    assert(scalars[j] == before[j]);
                }
            },
            Ok(trees) => {
                assert forall|j: int| 0 <= j < before.len() implies scalar_tree(
                    #[trigger] scalars[j],
                ) is Ok by {
                    assert(scalar_tree(before[j]) == Ok::<JsonTree, String>(trees[j]));
                }
                match scalar_tree(scalars.last()) {
                    Err(error) => {
                        assert(scalars[scalars.len() - 1] == scalars.last());
                    },
                    Ok(tree) => {
                        let all = trees.push(tree);
                        assert forall|i: int| 0 <= i < scalars.len() implies scalar_tree(scalars[i])
                            == Ok::<JsonTree, String>(#[trigger] all[i]) by {
                            if i < before.len() {
                                assert(scalar_tree(before[i]) == Ok::<JsonTree, String>(trees[i]));
                            }
                        }
                    },
                }
            },
        }
    }
}

/// An object of properties converts to an object with one member for each, in the order of
/// their names; it fails exactly where a property does, and then as the first by name does.
pub proof fn law_objects_convert_member_by_member(
    properties: Vec<(String, Result<serde_json::Value, String>)>,
)
    ensures
        ({
            let ordered = crate::names::by_name(properties@);
            match scalar_tree(ExecutionScalar::Object(properties)) {
                Ok(tree) => tree matches JsonTree::Members(members) && members.len()
                    == ordered.len() && forall|i: int|
                    0 <= i < ordered.len() ==> (#[trigger] members[i]).0 == ordered[i].0@ && (
                    ordered[i].1 matches Ok(value) && members[i].1 == crate::json::json_tree(
                        value,
                    )),
                Err(error) => exists|i: int|
                    0 <= i < ordered.len() && (#[trigger] ordered[i]).1 == Err::<
                        serde_json::Value,
                        String,
                    >(error) && forall|j: int| 0 <= j < i ==> (#[trigger] ordered[j]).1 is Ok,
            }
        }),
{
    lemma_object_members(crate::names::by_name(properties@));
}

proof fn lemma_object_members(properties: Seq<(String, Result<serde_json::Value, String>)>)
    ensures
        match object_members(properties) {
            Ok(members) => members.len() == properties.len() && forall|i: int|
                0 <= i < properties.len() ==> (#[trigger] members[i]).0 == properties[i].0@ && (
                properties[i].1 matches Ok(value) && members[i].1 == crate::json::json_tree(value)),
            Err(error) => exists|i: int|
                0 <= i < properties.len() && (#[trigger] properties[i]).1 == Err::<
                    serde_json::Value,
                    String,
                >(error) && forall|j: int| 0 <= j < i ==> (#[trigger] properties[j]).1 is Ok,
        },
    decreases properties.len(),
{
    if properties.len() > 0 {
        let before = properties.drop_last();
        lemma_object_members(before);
        match object_members(before) {
            Err(error) => {
                let i = choose|i: int|
                    0 <= i < before.len() && (#[trigger] before[i]).1 == Err::<
                        serde_json::Value,
                        String,
                    >(error) && forall|j: int| 0 <= j < i ==> (#[trigger] before[j]).1 is Ok;
                assert(properties[i] == before[i]);
                assert forall|j: int| 0 <= j < i implies (#[trigger] properties[j]).1 is Ok by {
                    assert(properties[j] == before[j]);
                }
            },
            Ok(trees) => {
                assert forall|j: int| 0 <= j < before.len() implies (#[trigger] properties[j]).1
                    is Ok by {
                    assert(trees[j].0 == before[j].0@);
                }
                match property_tree(properties.last().1) {
                    Err(error) => {
                        assert(properties[properties.len() - 1] == properties.last());
                    },
                    Ok(tree) => {
                        let all = trees.push((properties.last().0@, tree));
                        assert forall|i: int| 0 <= i < properties.len() implies (
                        #[trigger] all[i]).0 == properties[i].0@ && (properties[i].1 matches Ok(
                            value,
                        ) && all[i].1 == crate::json::json_tree(value)) by {
                            if i < before.len() {
                                assert(trees[i].0 == before[i].0@);
                            }
                        }
                    },
                }
            },
        }
    }
}

/// A response has one member for each returned value, under its name; it fails exactly where
/// a value does, and then as the first by name does.
pub proof fn law_responses_hold_every_value(returned: Seq<(String, ExecutionValue)>)
    ensures
        ({
            let ordered = crate::names::by_name(returned);
            match return_members(ordered) {
                Ok(members) => members.len() == ordered.len() && forall|i: int|
                    0 <= i < ordered.len() ==> (#[trigger] members[i]).0 == ordered[i].0@
                        && value_tree(ordered[i].1) == Ok::<JsonTree, String>(members[i].1),
                Err(error) => exists|i: int|
                    0 <= i < ordered.len() && value_tree((#[trigger] ordered[i]).1) == Err::<
                        JsonTree,
                        String,
                    >(error) && forall|j: int|
                        0 <= j < i ==> value_tree((#[trigger] ordered[j]).1) is Ok,
            }
        }),
{
    lemma_return_members(crate::names::by_name(returned));
}

proof fn lemma_return_members(returned: Seq<(String, ExecutionValue)>)
    ensures
        match return_members(returned) {
            Ok(members) => members.len() == returned.len() && forall|i: int|
                0 <= i < returned.len() ==> (#[trigger] members[i]).0 == returned[i].0@
                    && value_tree(returned[i].1) == Ok::<JsonTree, String>(members[i].1),
            Err(error) => exists|i: int|
                0 <= i < returned.len() && value_tree((#[trigger] returned[i]).1) == Err::<
                    JsonTree,
                    String,
                >(error) && forall|j: int|
                    0 <= j < i ==> value_tree((#[trigger] returned[j]).1) is Ok,
        },
    decreases returned.len(),
{
    if returned.len() > 0 {
        let before = returned.drop_last();
        lemma_return_members(before);
        match return_members(before) {
            Err(error) => {
                let i = choose|i: int|
                    0 <= i < before.len() && value_tree((#[trigger] before[i]).1) == Err::<
                        JsonTree,
                        String,
                    >(error) && forall|j: int|
                        0 <= j < i ==> value_tree((#[trigger] before[j]).1) is Ok;
                assert(returned[i] == before[i]);
                assert forall|j: int| 0 <= j < i implies value_tree((#[trigger] returned[j]).1)
                    is Ok by {
                    assert(returned[j] == before[j]);
                }
            },
            Ok(trees) => {
                assert forall|j: int| 0 <= j < before.len() implies value_tree(
                    (#[trigger] returned[j]).1,
                ) is Ok by {
                    assert(trees[j].0 == before[j].0@);
                }
                match value_tree(returned.last().1) {
                    Err(error) => {
                        assert(returned[returned.len() - 1] == returned.last());
                    },
                    Ok(tree) => {
                        let all = trees.push((returned.last().0@, tree));
                        assert forall|i: int| 0 <= i < returned.len() implies (#[trigger] all[i]).0
                            == returned[i].0@ && value_tree(returned[i].1) == Ok::<
                            JsonTree,
                            String,
                        >(all[i].1) by {
                            if i < before.len() {
                                assert(trees[i].0 == before[i].0@);
                            }
                        }
                    },
                }
            },
        }
    }
}

/// A conversion succeeds exactly where a tree is owed, with that tree, and otherwise fails
/// as a serialization does, with the text that is owed.
pub proof fn law_conversions_give_what_is_owed(
    json: Result<serde_json::Value, QueryServiceError>,
    expected: Result<JsonTree, String>,
)
    requires
        converts_to(json, expected),
    ensures
        expected matches Ok(tree) ==> (json matches Ok(value) && crate::json::json_tree(value)
            == tree),
        expected matches Err(text) ==> json == Err::<serde_json::Value, QueryServiceError>(
            QueryServiceError::JsonSerialize(text),
        ),
{
}

} // verus!
