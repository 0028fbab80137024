//! Durable JSON form of migration jobs.
use vstd::prelude::*;

use super::job::{
    JobState, MigrationId, MigrationJob, MigrationJobState, MigrationMode, MigrationResumeKey,
    MigrationStage,
};
use crate::error::HelixDbError;
use crate::json::{
    count_members, json_list, json_null, json_parse, json_record, json_split, json_text,
    json_unsigned, json_write, JsonNode, JsonTree,
};
use crate::text::joined;

verus! {

/// A job as a mathematical value.
#[verifier::ext_equal]
pub struct JobShape {
    pub id: MigrationId,
    pub mode: MigrationMode,
    pub state: JobState,
}

impl View for MigrationJob {
    type V = JobShape;

    open spec fn view(&self) -> JobShape {
        JobShape { id: self.id, mode: self.mode, state: self.state@ }
    }
}

impl MigrationStage {
    /// Name of the stage in a stored job.
    pub open spec fn stored_name(self) -> Seq<char> {
        match self {
            MigrationStage::LegacyVectorLayer0Rows => "legacy_vector_layer0_rows"@,
            _ => self.name(),
        }
    }

    fn stored_text(self) -> (name: &'static str)
        ensures
            name@ == self.stored_name(),
    {
        match self {
            MigrationStage::LegacyVectorLayer0Rows => "legacy_vector_layer0_rows",
            _ => self.log_name(),
        }
    }
}

/// A member of an object.
pub open spec fn entry(name: Seq<char>, tree: JsonTree) -> (Seq<char>, JsonTree) {
    (name, tree)
}

/// The tree of a resume key.
pub open spec fn resume_tree(key: Option<Seq<u8>>) -> JsonTree {
    match key {
        Some(bytes) => JsonTree::List(
            Seq::new(bytes.len(), |i: int| JsonTree::Unsigned(bytes[i] as u64)),
        ),
        None => JsonTree::Null,
    }
}

/// The tree of a job state: an object whose only member bears the name of the state.
pub open spec fn state_tree(state: JobState) -> JsonTree {
    match state {
        JobState::Running { stage, resume_after_key, processed_rows } => JsonTree::Members(
            seq![
                entry(
                    "running"@,
                    JsonTree::Members(
                        seq![
                            entry("stage"@, JsonTree::Text(stage.stored_name())),
                            entry("resume_after_key"@, resume_tree(resume_after_key)),
                            entry("processed_rows"@, JsonTree::Unsigned(processed_rows)),
                        ],
                    ),
                ),
            ],
        ),
        JobState::Completed { processed_rows } => JsonTree::Members(
            seq![
                entry(
                    "completed"@,
                    JsonTree::Members(
                        seq![entry("processed_rows"@, JsonTree::Unsigned(processed_rows))],
                    ),
                ),
            ],
        ),
        JobState::Failed { stage, resume_after_key, processed_rows, error } => JsonTree::Members(
            seq![
                entry(
                    "failed"@,
                    JsonTree::Members(
                        seq![
                            entry("stage"@, JsonTree::Text(stage.stored_name())),
                            entry("resume_after_key"@, resume_tree(resume_after_key)),
                            entry("processed_rows"@, JsonTree::Unsigned(processed_rows)),
                            entry("error"@, JsonTree::Text(error)),
                        ],
                    ),
                ),
            ],
        ),
    }
}

/// The tree of a job.
pub open spec fn job_tree(job: JobShape) -> JsonTree {
    JsonTree::Members(
        seq![
            entry("id"@, JsonTree::Text(job.id.name())),
            entry("mode"@, JsonTree::Text(job.mode.name())),
            entry("state"@, state_tree(job.state)),
        ],
    )
}

proof fn lemma_field_names_differ()
    ensures
        "id"@ != "mode"@,
        "id"@ != "state"@,
        "mode"@ != "state"@,
        "stage"@ != "resume_after_key"@,
        "stage"@ != "processed_rows"@,
        "stage"@ != "error"@,
        "resume_after_key"@ != "processed_rows"@,
        "resume_after_key"@ != "error"@,
        "processed_rows"@ != "error"@,
        "running"@ != "completed"@,
        "running"@ != "failed"@,
        "completed"@ != "failed"@,
{
    reveal_strlit("id");
    reveal_strlit("mode");
    reveal_strlit("state");
    reveal_strlit("stage");
    reveal_strlit("resume_after_key");
    reveal_strlit("processed_rows");
    reveal_strlit("error");
    reveal_strlit("running");
    reveal_strlit("completed");
    reveal_strlit("failed");
    assert("id"@.len() == 2 && "mode"@.len() == 4 && "state"@.len() == 5);
    assert("stage"@.len() == 5 && "resume_after_key"@.len() == 16);
    assert("processed_rows"@.len() == 14 && "error"@.len() == 5);
    assert("stage"@[0] == 's' && "error"@[0] == 'e');
    assert("running"@.len() == 7 && "completed"@.len() == 9 && "failed"@.len() == 6);
}

fn resume_json(key: &Option<MigrationResumeKey>) -> (json: serde_json::Value)
    ensures
        crate::json::json_tree(json) == resume_tree(super::job::resume_view(*key)),
        super::job::resume_view(*key) matches Some(key) ==> key.len() > 0,
{
    let key = match key {
        Some(key) => key,
        None => {
            return json_null();
        },
    };
    let bytes = key.as_bytes();
    let mut values: Vec<serde_json::Value> = Vec::new();
    let mut position: usize = 0;
    while position < bytes.len()
        invariant
            position <= bytes.len(),
            values@.len() == position,
            forall|i: int|
                0 <= i < values@.len() ==> crate::json::json_tree(#[trigger] values@[i])
                    == JsonTree::Unsigned(bytes@[i] as u64),
        decreases bytes.len() - position,
    {
        values.push(json_unsigned(bytes[position] as u64));
        position = position + 1;
    }
    assert(crate::json::list_trees(values@) =~= Seq::new(
        bytes@.len(),
        |i: int| JsonTree::Unsigned(bytes@[i] as u64),
    ));
    json_list(values)
}

fn state_json(state: &MigrationJobState) -> (json: serde_json::Value)
    ensures
        crate::json::json_tree(json) == state_tree(state@),
        is_storable_state(state@),
{
    proof {
        lemma_field_names_differ();
    }
    let (name, members) = match state {
        MigrationJobState::Running { stage, resume_after_key, processed_rows } => {
            let mut members: Vec<(String, serde_json::Value)> = Vec::new();
            members.push(("stage".to_owned(), json_text(stage.stored_text().to_owned())));
            members.push(("resume_after_key".to_owned(), resume_json(resume_after_key)));
            members.push(("processed_rows".to_owned(), json_unsigned(*processed_rows)));
            ("running", members)
        },
        MigrationJobState::Completed { processed_rows } => {
            let mut members: Vec<(String, serde_json::Value)> = Vec::new();
            members.push(("processed_rows".to_owned(), json_unsigned(*processed_rows)));
            ("completed", members)
        },
        MigrationJobState::Failed { stage, resume_after_key, processed_rows, error } => {
            let mut members: Vec<(String, serde_json::Value)> = Vec::new();
            members.push(("stage".to_owned(), json_text(stage.stored_text().to_owned())));
            members.push(("resume_after_key".to_owned(), resume_json(resume_after_key)));
            members.push(("processed_rows".to_owned(), json_unsigned(*processed_rows)));
            members.push(("error".to_owned(), json_text(error.clone())));
            ("failed", members)
        },
    };
    let ghost fields = crate::json::member_trees(members@);
    let fields_json = json_record(members);
    let mut outer: Vec<(String, serde_json::Value)> = Vec::new();
    outer.push((name.to_owned(), fields_json));
    let ghost wrapped = crate::json::member_trees(outer@);
    assert(wrapped =~= seq![entry(name@, JsonTree::Members(fields))]);
    proof {
        match state@ {
            JobState::Running { stage, resume_after_key, processed_rows } => {
                assert(fields =~= seq![
                    entry("stage"@, JsonTree::Text(stage.stored_name())),
                    entry("resume_after_key"@, resume_tree(resume_after_key)),
                    entry("processed_rows"@, JsonTree::Unsigned(processed_rows)),
                ]);
            },
            JobState::Completed { processed_rows } => {
                assert(fields =~= seq![
                    entry("processed_rows"@, JsonTree::Unsigned(processed_rows)),
                ]);
            },
            JobState::Failed { stage, resume_after_key, processed_rows, error } => {
                assert(fields =~= seq![
                    entry("stage"@, JsonTree::Text(stage.stored_name())),
                    entry("resume_after_key"@, resume_tree(resume_after_key)),
                    entry("processed_rows"@, JsonTree::Unsigned(processed_rows)),
                    entry("error"@, JsonTree::Text(error)),
                ]);
            },
        }
    }
    json_record(outer)
}

fn job_json(job: &MigrationJob) -> (json: serde_json::Value)
    ensures
        crate::json::json_tree(json) == job_tree(job@),
        is_storable(job@),
{
    proof {
        lemma_field_names_differ();
    }
    let mut members: Vec<(String, serde_json::Value)> = Vec::new();
    members.push(("id".to_owned(), json_text(job.id.log_name().to_owned())));
    members.push(("mode".to_owned(), json_text(job.mode.log_name().to_owned())));
    members.push(("state".to_owned(), state_json(&job.state)));
    assert(crate::json::member_trees(members@) =~= seq![
        entry("id"@, JsonTree::Text(job.id.name())),
        entry("mode"@, JsonTree::Text(job.mode.name())),
        entry("state"@, state_tree(job.state@)),
    ]);
    json_record(members)
}

/// Names of the parts of a job.
pub open spec fn job_fields() -> Seq<Seq<char>> {
    seq!["id"@, "mode"@, "state"@]
}

/// Names of the parts of a running state.
pub open spec fn running_fields() -> Seq<Seq<char>> {
    seq!["stage"@, "resume_after_key"@, "processed_rows"@]
}

/// Names of the parts of a completed state.
pub open spec fn completed_fields() -> Seq<Seq<char>> {
    seq!["processed_rows"@]
}

/// Names of the parts of a failed state.
pub open spec fn failed_fields() -> Seq<Seq<char>> {
    seq!["stage"@, "resume_after_key"@, "processed_rows"@, "error"@]
}

/// Whether the name of every member is one of the names.
pub open spec fn are_known(members: Seq<(Seq<char>, JsonTree)>, names: Seq<Seq<char>>) -> bool {
    forall|i: int| 0 <= i < members.len() ==> names.contains((#[trigger] members[i]).0)
}

/// The first member from a position on that bears a name.
pub open spec fn member_from(
    members: Seq<(Seq<char>, JsonTree)>,
    name: Seq<char>,
    from: int,
) -> Option<JsonTree>
    decreases members.len() - from,
{
    if from >= members.len() {
        None
    } else if members[from].0 == name {
        Some(members[from].1)
    } else {
        member_from(members, name, from + 1)
    }
}

/// The parts of a value: the members of an object by their names, or the items of a list
/// by their order. An object with another member, and a list of another length, has none.
pub open spec fn fields_of(tree: JsonTree, names: Seq<Seq<char>>) -> Option<
    Seq<Option<JsonTree>>,
> {
    match tree {
        JsonTree::Members(members) => if are_known(members, names) {
            Some(Seq::new(names.len(), |k: int| member_from(members, names[k], 0)))
        } else {
            None
        },
        JsonTree::List(items) => if items.len() == names.len() {
            Some(Seq::new(items.len(), |k: int| Some(items[k])))
        } else {
            None
        },
        _ => None,
    }
}

/// Number of members of a value that is an object.
pub open spec fn own_members(tree: JsonTree) -> nat {
    match tree {
        JsonTree::Members(members) => members.len(),
        _ => 0,
    }
}

/// Names as mathematical values.
pub open spec fn name_views(names: Seq<&'static str>) -> Seq<Seq<char>> {
    Seq::new(names.len(), |i: int| names[i]@)
}

/// The trees of values that may be absent.
pub open spec fn slot_trees(slots: Seq<Option<serde_json::Value>>) -> Seq<Option<JsonTree>> {
    Seq::new(
        slots.len(),
        |i: int|
            match slots[i] {
                Some(value) => Some(crate::json::json_tree(value)),
                None => None,
            },
    )
}

fn same_text(text: &String, wanted: &str) -> (same: bool)
    ensures
        same == (text@ == wanted@),
{
    *text == wanted.to_owned()
}

fn name_position(name: &String, names: &Vec<&'static str>) -> (position: Option<usize>)
    ensures
        match position {
            Some(position) => position < names@.len() && names@[position as int]@ == name@,
            None => !name_views(names@).contains(name@),
        },
{
    let mut position: usize = 0;
    while position < names.len()
        invariant
            position <= names.len(),
            forall|i: int| 0 <= i < position ==> (#[trigger] names@[i])@ != name@,
        decreases names.len() - position,
    {
        if same_text(name, names[position]) {
            return Some(position);
        }
        position = position + 1;
    }
    proof {
        let views = name_views(names@);
        if views.contains(name@) {
            let at = views.index_of(name@);
            assert(names@[at]@ == name@);
        }
    }
    None
}

fn object_slots(members: Vec<(String, serde_json::Value)>, names: &Vec<&'static str>) -> (slots:
    Vec<Option<serde_json::Value>>)
    requires
        forall|i: int, j: int| 0 <= i < j < names@.len() ==> names@[i]@ != names@[j]@,
    ensures
        slot_trees(slots@) == Seq::new(
            names@.len(),
            |k: int| member_from(crate::json::member_trees(members@), names@[k]@, 0),
        ),
{
    let ghost trees = crate::json::member_trees(members@);
    let ghost all = members@;
    let mut members = members;
    let mut slots: Vec<Option<serde_json::Value>> = Vec::new();
    while slots.len() < names.len()
        invariant
            slots@.len() <= names@.len(),
            forall|k: int| 0 <= k < slots@.len() ==> (#[trigger] slots@[k]) is None,
        decreases names.len() - slots.len(),
    {
        slots.push(None);
    }
    assert(slot_trees(slots@) =~= Seq::new(
        names@.len(),
        |k: int| member_from(trees, names@[k]@, trees.len() as int),
    ));
    while members.len() > 0
        invariant
            members@.len() <= all.len(),
            members@ == all.take(members@.len() as int),
            trees == crate::json::member_trees(all),
            slots@.len() == names@.len(),
            forall|i: int, j: int| 0 <= i < j < names@.len() ==> names@[i]@ != names@[j]@,
            slot_trees(slots@) == Seq::new(
                names@.len(),
                |k: int| member_from(trees, names@[k]@, members@.len() as int),
            ),
        decreases members.len(),
    {
        let ghost before = slot_trees(slots@);
        let ghost count = members@.len() as int;
        if let Some((name, value)) = members.pop() {
            assert(all.take(count)[count - 1] == all[count - 1]);
            assert(members@ =~= all.take(count - 1));
            assert(trees[count - 1] == (name@, crate::json::json_tree(value)));
            let ghost wanted = Seq::new(
                names@.len(),
                |k: int| member_from(trees, names@[k]@, count - 1),
            );
            match name_position(&name, names) {
                Some(position) => {
                    slots.set(position, Some(value));
                    assert forall|k: int| 0 <= k < names@.len() implies slot_trees(slots@)[k]
                        == wanted[k] by {
                        assert(before[k] == member_from(trees, names@[k]@, count));
                        if k != position {
                            assert(names@[k]@ != name@);
                        }
                    }
                },
                None => {
                    assert forall|k: int| 0 <= k < names@.len() implies slot_trees(slots@)[k]
                        == wanted[k] by {
                        assert(before[k] == member_from(trees, names@[k]@, count));
                        assert(name_views(names@)[k] == names@[k]@);
                    }
                },
            }
            assert(slot_trees(slots@) =~= wanted);
        }
    }
    slots
}

fn list_slots(items: Vec<serde_json::Value>) -> (slots: Vec<Option<serde_json::Value>>)
    ensures
        slot_trees(slots@) == Seq::new(
            items@.len(),
            |k: int| Some(crate::json::list_trees(items@)[k]),
        ),
{
    let ghost all = items@;
    let mut slots: Vec<Option<serde_json::Value>> = Vec::new();
    for item in iter: items
        invariant
            iter.seq() == all,
            slots@.len() == iter.index(),
            forall|k: int|
                0 <= k < slots@.len() ==> (#[trigger] slots@[k]) == Some(all[k]),
    {
        slots.push(Some(item));
    }
    assert(slot_trees(slots@) =~= Seq::new(
        all.len(),
        |k: int| Some(crate::json::list_trees(all)[k]),
    ));
    slots
}

fn all_known(members: &Vec<(String, serde_json::Value)>, names: &Vec<&'static str>) -> (known:
    bool)
    ensures
        known == are_known(crate::json::member_trees(members@), name_views(names@)),
{
    let ghost trees = crate::json::member_trees(members@);
    let mut position: usize = 0;
    while position < members.len()
        invariant
            position <= members.len(),
            trees == crate::json::member_trees(members@),
            forall|i: int|
                0 <= i < position ==> name_views(names@).contains((#[trigger] trees[i]).0),
        decreases members.len() - position,
    {
        assert(trees[position as int].0 == members@[position as int].0@);
        match name_position(&members[position].0, names) {
            Some(found) => {
                assert(name_views(names@)[found as int] == trees[position as int].0);
            },
            None => {
                return false;
            },
        }
        position = position + 1;
    }
    true
}

fn take_fields(json: serde_json::Value, names: &Vec<&'static str>) -> (fields: Option<
    (Vec<Option<serde_json::Value>>, usize),
>)
    requires
        forall|i: int, j: int| 0 <= i < j < names@.len() ==> names@[i]@ != names@[j]@,
    ensures
        match fields {
            Some((slots, count)) => {
                &&& fields_of(crate::json::json_tree(json), name_views(names@)) == Some(
                    slot_trees(slots@),
                )
                &&& slots@.len() == names@.len()
                &&& count == own_members(crate::json::json_tree(json))
            },
            None => fields_of(crate::json::json_tree(json), name_views(names@)) is None,
        },
{
    match json_split(json) {
        JsonNode::Members(members) => {
            if !all_known(&members, names) {
                return None;
            }
            let count: usize = members.len();
            let ghost trees = crate::json::member_trees(members@);
            let slots = object_slots(members, names);
            assert(slot_trees(slots@) =~= Seq::new(
                name_views(names@).len(),
                |k: int| member_from(trees, name_views(names@)[k], 0),
            ));
            assert(slot_trees(slots@).len() == slots@.len());
            Some((slots, count))
        },
        JsonNode::List(items) => {
            if items.len() != names.len() {
                return None;
            }
            let slots = list_slots(items);
            assert(slot_trees(slots@).len() == slots@.len());
            Some((slots, 0))
        },
        _ => None,
    }
}

/// The variant that a value names, and what stands beside the name: a text names a variant
/// alone, an object with one member a variant with its content.
pub open spec fn variant_of(tree: JsonTree) -> Option<(Seq<char>, Option<JsonTree>)> {
    match tree {
        JsonTree::Text(name) => Some((name, None)),
        JsonTree::Members(members) => if members.len() == 1 {
            Some((members[0].0, Some(members[0].1)))
        } else {
            None
        },
        _ => None,
    }
}

/// The variant without content that a value names.
pub open spec fn unit_of(tree: JsonTree) -> Option<Seq<char>> {
    match variant_of(tree) {
        Some((name, content)) => match content {
            None => Some(name),
            Some(content) => if content is Null {
                Some(name)
            } else {
                None
            },
        },
        None => None,
    }
}

fn take_variant(json: serde_json::Value) -> (variant: Option<
    (String, Option<serde_json::Value>, usize),
>)
    ensures
        match variant {
            Some((name, content, count)) => {
                &&& variant_of(crate::json::json_tree(json)) == Some(
                    (
                        name@,
                        match content {
                            Some(content) => Some(crate::json::json_tree(content)),
                            None => None,
                        },
                    ),
                )
                &&& count == own_members(crate::json::json_tree(json))
                &&& count <= 1
            },
            None => variant_of(crate::json::json_tree(json)) is None,
        },
{
    match json_split(json) {
        JsonNode::Text(name) => Some((name, None, 0)),
        JsonNode::Members(members) => {
            let mut members = members;
            let ghost trees = crate::json::member_trees(members@);
            if members.len() != 1 {
                return None;
            }
            match members.pop() {
                Some((name, content)) => {
                    assert(trees[0] == (name@, crate::json::json_tree(content)));
                    Some((name, Some(content), 1))
                },
                None => None,
            }
        },
        _ => None,
    }
}

fn take_unit(json: serde_json::Value) -> (unit: Option<(String, usize)>)
    ensures
        match unit {
            Some((name, count)) => {
                &&& unit_of(crate::json::json_tree(json)) == Some(name@)
                &&& count == own_members(crate::json::json_tree(json))
                &&& count <= 1
            },
            None => unit_of(crate::json::json_tree(json)) is None,
        },
{
    match take_variant(json) {
        Some((name, content, count)) => match content {
            None => Some((name, count)),
            Some(content) => match json_split(content) {
                JsonNode::Null => Some((name, count)),
                _ => None,
            },
        },
        None => None,
    }
}

/// The migration of a stored name.
pub open spec fn id_named(name: Seq<char>) -> Option<MigrationId> {
    if name == MigrationId::GraphFormatV1Rewrite.name() {
        Some(MigrationId::GraphFormatV1Rewrite)
    } else if name == MigrationId::LegacyVectorPropertyMaterialization.name() {
        Some(MigrationId::LegacyVectorPropertyMaterialization)
    } else if name == MigrationId::LegacyVectorPhysicalCleanup.name() {
        Some(MigrationId::LegacyVectorPhysicalCleanup)
    } else if name == MigrationId::GraphFormatV1Cleanup.name() {
        Some(MigrationId::GraphFormatV1Cleanup)
    } else {
        None
    }
}

/// The mode of a stored name.
pub open spec fn mode_named(name: Seq<char>) -> Option<MigrationMode> {
    if name == MigrationMode::BlockingStartup.name() {
        Some(MigrationMode::BlockingStartup)
    } else if name == MigrationMode::Background.name() {
        Some(MigrationMode::Background)
    } else {
        None
    }
}

/// The stage of a stored name.
pub open spec fn stage_named(name: Seq<char>) -> Option<MigrationStage> {
    if name == MigrationStage::PropertyIndexes.stored_name() {
        Some(MigrationStage::PropertyIndexes)
    } else if name == MigrationStage::NodeProperties.stored_name() {
        Some(MigrationStage::NodeProperties)
    } else if name == MigrationStage::LegacyEdgePairs.stored_name() {
        Some(MigrationStage::LegacyEdgePairs)
    } else if name == MigrationStage::EdgeEndpoints.stored_name() {
        Some(MigrationStage::EdgeEndpoints)
    } else if name == MigrationStage::FenceLegacyVectorSources.stored_name() {
        Some(MigrationStage::FenceLegacyVectorSources)
    } else if name == MigrationStage::LegacyVectorHotRows.stored_name() {
        Some(MigrationStage::LegacyVectorHotRows)
    } else if name == MigrationStage::LegacyVectorLayer0Rows.stored_name() {
        Some(MigrationStage::LegacyVectorLayer0Rows)
    } else if name == MigrationStage::LegacyVectorCoreRows.stored_name() {
        Some(MigrationStage::LegacyVectorCoreRows)
    } else if name == MigrationStage::LegacyVectorDefinitions.stored_name() {
        Some(MigrationStage::LegacyVectorDefinitions)
    } else if name == MigrationStage::ReleaseLegacyVectorReservations.stored_name() {
        Some(MigrationStage::ReleaseLegacyVectorReservations)
    } else {
        None
    }
}

/// The migration that a value names.
pub open spec fn id_of(tree: JsonTree) -> Option<MigrationId> {
    match unit_of(tree) {
        Some(name) => id_named(name),
        None => None,
    }
}

/// The mode that a value names.
pub open spec fn mode_of(tree: JsonTree) -> Option<MigrationMode> {
    match unit_of(tree) {
        Some(name) => mode_named(name),
        None => None,
    }
}

/// The stage that a value names.
pub open spec fn stage_of(tree: JsonTree) -> Option<MigrationStage> {
    match unit_of(tree) {
        Some(name) => stage_named(name),
        None => None,
    }
}

/// Whether a value is one byte.
pub open spec fn is_byte(tree: JsonTree) -> bool {
    tree matches JsonTree::Unsigned(value) && value <= 255
}

/// The resume key that a value holds; an absent one and a null are no key, and an empty
/// list is refused.
pub open spec fn resume_of(tree: Option<JsonTree>) -> Option<Option<Seq<u8>>> {
    match tree {
        None => Some(None),
        Some(JsonTree::Null) => Some(None),
        Some(JsonTree::List(items)) => if items.len() > 0 && forall|i: int|
            0 <= i < items.len() ==> is_byte(#[trigger] items[i]) {
            Some(Some(Seq::new(items.len(), |i: int| items[i]->Unsigned_0 as u8)))
        } else {
            None
        },
        Some(_) => None,
    }
}

/// The row count that a value holds.
pub open spec fn rows_of(tree: JsonTree) -> Option<u64> {
    match tree {
        JsonTree::Unsigned(rows) => Some(rows),
        _ => None,
    }
}

/// The error text that a value holds.
pub open spec fn error_of(tree: JsonTree) -> Option<Seq<char>> {
    match tree {
        JsonTree::Text(text) => Some(text),
        _ => None,
    }
}

/// The content of a running state, and the number of members in it.
pub open spec fn running_of(content: JsonTree) -> Option<(JobState, nat)> {
    match fields_of(content, running_fields()) {
        None => None,
        Some(fields) => match (fields[0], fields[2]) {
            (Some(stage), Some(rows)) => match (
                stage_of(stage),
                resume_of(fields[1]),
                rows_of(rows),
            ) {
                (Some(found), Some(resume_after_key), Some(processed_rows)) => Some(
                    (
                        JobState::Running { stage: found, resume_after_key, processed_rows },
                        own_members(content) + own_members(stage),
                    ),
                ),
                _ => None,
            },
            _ => None,
        },
    }
}

/// The content of a completed state, and the number of members in it.
pub open spec fn completed_of(content: JsonTree) -> Option<(JobState, nat)> {
    match fields_of(content, completed_fields()) {
        None => None,
        Some(fields) => match fields[0] {
            None => None,
            Some(rows) => match rows_of(rows) {
                None => None,
                Some(processed_rows) => Some(
                    (JobState::Completed { processed_rows }, own_members(content)),
                ),
            },
        },
    }
}

/// The content of a failed state, and the number of members in it.
pub open spec fn failed_of(content: JsonTree) -> Option<(JobState, nat)> {
    match fields_of(content, failed_fields()) {
        None => None,
        Some(fields) => match (fields[0], fields[2], fields[3]) {
            (Some(stage), Some(rows), Some(error)) => match (
                stage_of(stage),
                resume_of(fields[1]),
                rows_of(rows),
                error_of(error),
            ) {
                (Some(found), Some(resume_after_key), Some(processed_rows), Some(text)) => Some(
                    (
                        JobState::Failed {
                            stage: found,
                            resume_after_key,
                            processed_rows,
                            error: text,
                        },
                        own_members(content) + own_members(stage),
                    ),
                ),
                _ => None,
            },
            _ => None,
        },
    }
}

/// The state that a value holds, and the number of members in it.
pub open spec fn state_of(tree: JsonTree) -> Option<(JobState, nat)> {
    match variant_of(tree) {
        Some((name, Some(content))) => {
            let inner = if name == "running"@ {
                running_of(content)
            } else if name == "completed"@ {
                completed_of(content)
            } else if name == "failed"@ {
                failed_of(content)
            } else {
                None
            };
            match inner {
                None => None,
                Some((state, count)) => Some((state, own_members(tree) + count)),
            }
        },
        _ => None,
    }
}

/// The job that a value holds, and the number of members in it.
pub open spec fn job_of(tree: JsonTree) -> Option<(JobShape, nat)> {
    match fields_of(tree, job_fields()) {
        None => None,
        Some(fields) => match (fields[0], fields[1], fields[2]) {
            (Some(id_tree), Some(mode_tree), Some(inner)) => match (
                id_of(id_tree),
                mode_of(mode_tree),
                state_of(inner),
            ) {
                (Some(id), Some(mode), Some((state, count))) => Some(
                    (
                        JobShape { id, mode, state },
                        own_members(tree) + own_members(id_tree) + own_members(mode_tree) + count,
                    ),
                ),
                _ => None,
            },
            _ => None,
        },
    }
}

fn take_id(json: serde_json::Value) -> (id: Option<(MigrationId, usize)>)
    ensures
        match id {
            Some((id, count)) => {
                &&& id_of(crate::json::json_tree(json)) == Some(id)
                &&& count == own_members(crate::json::json_tree(json))
                &&& count <= 1
            },
            None => id_of(crate::json::json_tree(json)) is None,
        },
{
    let (name, count) = take_unit(json)?;
    let id = if same_text(&name, MigrationId::GraphFormatV1Rewrite.log_name()) {
        MigrationId::GraphFormatV1Rewrite
    } else if same_text(&name, MigrationId::LegacyVectorPropertyMaterialization.log_name()) {
        MigrationId::LegacyVectorPropertyMaterialization
    } else if same_text(&name, MigrationId::LegacyVectorPhysicalCleanup.log_name()) {
        MigrationId::LegacyVectorPhysicalCleanup
    } else if same_text(&name, MigrationId::GraphFormatV1Cleanup.log_name()) {
        MigrationId::GraphFormatV1Cleanup
    } else {
        return None;
    };
    Some((id, count))
}

fn take_mode(json: serde_json::Value) -> (mode: Option<(MigrationMode, usize)>)
    ensures
        match mode {
            Some((mode, count)) => {
                &&& mode_of(crate::json::json_tree(json)) == Some(mode)
                &&& count == own_members(crate::json::json_tree(json))
                &&& count <= 1
            },
            None => mode_of(crate::json::json_tree(json)) is None,
        },
{
    let (name, count) = take_unit(json)?;
    let mode = if same_text(&name, MigrationMode::BlockingStartup.log_name()) {
        MigrationMode::BlockingStartup
    } else if same_text(&name, MigrationMode::Background.log_name()) {
        MigrationMode::Background
    } else {
        return None;
    };
    Some((mode, count))
}

fn take_stage(json: serde_json::Value) -> (stage: Option<(MigrationStage, usize)>)
    ensures
        match stage {
            Some((stage, count)) => {
                &&& stage_of(crate::json::json_tree(json)) == Some(stage)
                &&& count == own_members(crate::json::json_tree(json))
                &&& count <= 1
            },
            None => stage_of(crate::json::json_tree(json)) is None,
        },
{
    let (name, count) = take_unit(json)?;
    let stage = if same_text(&name, MigrationStage::PropertyIndexes.stored_text()) {
        MigrationStage::PropertyIndexes
    } else if same_text(&name, MigrationStage::NodeProperties.stored_text()) {
        MigrationStage::NodeProperties
    } else if same_text(&name, MigrationStage::LegacyEdgePairs.stored_text()) {
        MigrationStage::LegacyEdgePairs
    } else if same_text(&name, MigrationStage::EdgeEndpoints.stored_text()) {
        MigrationStage::EdgeEndpoints
    } else if same_text(&name, MigrationStage::FenceLegacyVectorSources.stored_text()) {
        MigrationStage::FenceLegacyVectorSources
    } else if same_text(&name, MigrationStage::LegacyVectorHotRows.stored_text()) {
        MigrationStage::LegacyVectorHotRows
    } else if same_text(&name, MigrationStage::LegacyVectorLayer0Rows.stored_text()) {
        MigrationStage::LegacyVectorLayer0Rows
    } else if same_text(&name, MigrationStage::LegacyVectorCoreRows.stored_text()) {
        MigrationStage::LegacyVectorCoreRows
    } else if same_text(&name, MigrationStage::LegacyVectorDefinitions.stored_text()) {
        MigrationStage::LegacyVectorDefinitions
    } else if same_text(&name, MigrationStage::ReleaseLegacyVectorReservations.stored_text()) {
        MigrationStage::ReleaseLegacyVectorReservations
    } else {
        return None;
    };
    Some((stage, count))
}

fn take_bytes(items: Vec<serde_json::Value>) -> (bytes: Option<Vec<u8>>)
    ensures
        ({
            let trees = crate::json::list_trees(items@);
            match bytes {
                Some(bytes) => {
                    &&& forall|i: int| 0 <= i < trees.len() ==> is_byte(#[trigger] trees[i])
                    &&& bytes@ == Seq::new(trees.len(), |i: int| trees[i]->Unsigned_0 as u8)
                },
                None => !(forall|i: int|
                    0 <= i < trees.len() ==> is_byte(#[trigger] trees[i])),
            }
        }),
{
    let ghost all = items@;
    let ghost trees = crate::json::list_trees(items@);
    let mut bytes: Vec<u8> = Vec::new();
    for item in iter: items
        invariant
            iter.seq() == all,
            trees == crate::json::list_trees(all),
            bytes@.len() == iter.index(),
            forall|i: int| 0 <= i < bytes@.len() ==> is_byte(#[trigger] trees[i]),
            forall|i: int|
                0 <= i < bytes@.len() ==> (#[trigger] bytes@[i]) == trees[i]->Unsigned_0 as u8,
    {
        let ghost at = bytes@.len() as int;
        assert(trees[at] == crate::json::json_tree(item));
        match json_split(item) {
            JsonNode::Unsigned(value) => {
                if value > 255 {
                    assert(!is_byte(trees[at]));
                    return None;
                }
                bytes.push(value as u8);
            },
            _ => {
                assert(!is_byte(trees[at]));
                return None;
            },
        }
    }
    assert(bytes@ =~= Seq::new(trees.len(), |i: int| trees[i]->Unsigned_0 as u8));
    Some(bytes)
}

fn take_resume(field: Option<serde_json::Value>) -> (key: Option<Option<MigrationResumeKey>>)
    ensures
        ({
            let tree = match field {
                Some(value) => Some(crate::json::json_tree(value)),
                None => None,
            };
            match key {
                Some(key) => resume_of(tree) == Some(super::job::resume_view(key)),
                None => resume_of(tree) is None,
            }
        }),
{
    let value = match field {
        Some(value) => value,
        None => {
            return Some(None);
        },
    };
    match json_split(value) {
        JsonNode::Null => Some(None),
        JsonNode::List(items) => {
            let ghost trees = crate::json::list_trees(items@);
            match take_bytes(items) {
                Some(bytes) => match MigrationResumeKey::new(bytes) {
                    Some(key) => Some(Some(key)),
                    None => {
                        assert(trees.len() == 0);
                        None
                    },
                },
                None => None,
            }
        },
        _ => None,
    }
}

fn take_rows(json: serde_json::Value) -> (rows: Option<u64>)
    ensures
        match rows {
            Some(rows) => rows_of(crate::json::json_tree(json)) == Some(rows),
            None => rows_of(crate::json::json_tree(json)) is None,
        },
{
    match json_split(json) {
        JsonNode::Unsigned(rows) => Some(rows),
        _ => None,
    }
}

fn take_error(json: serde_json::Value) -> (text: Option<String>)
    ensures
        match text {
            Some(text) => error_of(crate::json::json_tree(json)) == Some(text@),
            None => error_of(crate::json::json_tree(json)) is None,
        },
{
    match json_split(json) {
        JsonNode::Text(text) => Some(text),
        _ => None,
    }
}

/// Takes the last slot out of a list of slots.
fn pop_slot(slots: &mut Vec<Option<serde_json::Value>>) -> (slot: Option<serde_json::Value>)
    requires
        old(slots)@.len() > 0,
    ensures
        slot == old(slots)@.last(),
        final(slots)@ == old(slots)@.drop_last(),
{
    match slots.pop() {
        Some(slot) => slot,
        None => None,
    }
}

/// Whether decoded content is what the tree of a state holds.
pub open spec fn is_decoded_state(
    decoded: Option<(MigrationJobState, u128)>,
    expected: Option<(JobState, nat)>,
) -> bool {
    match decoded {
        Some((state, count)) => expected == Some((state@, count as nat)),
        None => expected is None,
    }
}

fn take_running(json: serde_json::Value) -> (state: Option<(MigrationJobState, u128)>)
    ensures
        is_decoded_state(state, running_of(crate::json::json_tree(json))),
        state matches Some((_, count)) ==> count <= usize::MAX + 1,
{
    proof {
        lemma_field_names_differ();
    }
    let mut names: Vec<&'static str> = Vec::new();
    names.push("stage");
    names.push("resume_after_key");
    names.push("processed_rows");
    assert(name_views(names@) =~= running_fields());
    let (mut slots, count) = take_fields(json, &names)?;
    let rows = pop_slot(&mut slots);
    let resume = pop_slot(&mut slots);
    let stage = pop_slot(&mut slots);
    let stage = stage?;
    let rows = rows?;
    let (stage, inner) = take_stage(stage)?;
    let resume_after_key = take_resume(resume)?;
    let processed_rows: u64 = take_rows(rows)?;
    Some(
        (
            MigrationJobState::Running { stage, resume_after_key, processed_rows },
            count as u128 + inner as u128,
        ),
    )
}

fn take_completed(json: serde_json::Value) -> (state: Option<(MigrationJobState, u128)>)
    ensures
        is_decoded_state(state, completed_of(crate::json::json_tree(json))),
        state matches Some((_, count)) ==> count <= usize::MAX + 1,
{
    let mut names: Vec<&'static str> = Vec::new();
    names.push("processed_rows");
    assert(name_views(names@) =~= completed_fields());
    let (mut slots, count) = take_fields(json, &names)?;
    let rows = pop_slot(&mut slots)?;
    let processed_rows: u64 = take_rows(rows)?;
    Some((MigrationJobState::Completed { processed_rows }, count as u128))
}

fn take_failed(json: serde_json::Value) -> (state: Option<(MigrationJobState, u128)>)
    ensures
        is_decoded_state(state, failed_of(crate::json::json_tree(json))),
        state matches Some((_, count)) ==> count <= usize::MAX + 1,
{
    proof {
        lemma_field_names_differ();
    }
    let mut names: Vec<&'static str> = Vec::new();
    names.push("stage");
    names.push("resume_after_key");
    names.push("processed_rows");
    names.push("error");
    assert(name_views(names@) =~= failed_fields());
    let (mut slots, count) = take_fields(json, &names)?;
    let error = pop_slot(&mut slots);
    let rows = pop_slot(&mut slots);
    let resume = pop_slot(&mut slots);
    let stage = pop_slot(&mut slots);
    let stage = stage?;
    let rows = rows?;
    let error = error?;
    let (stage, inner) = take_stage(stage)?;
    let resume_after_key = take_resume(resume)?;
    let processed_rows: u64 = take_rows(rows)?;
    let error = take_error(error)?;
    Some(
        (
            MigrationJobState::Failed { stage, resume_after_key, processed_rows, error },
            count as u128 + inner as u128,
        ),
    )
}

fn take_state(json: serde_json::Value) -> (state: Option<(MigrationJobState, u128)>)
    ensures
        is_decoded_state(state, state_of(crate::json::json_tree(json))),
        state matches Some((_, count)) ==> count <= usize::MAX + 2,
{
    proof {
        lemma_field_names_differ();
    }
    let (name, content, count) = take_variant(json)?;
    let content = content?;
    let inner = if same_text(&name, "running") {
        take_running(content)
    } else if same_text(&name, "completed") {
        take_completed(content)
    } else if same_text(&name, "failed") {
        take_failed(content)
    } else {
        None
    };
    match inner {
        Some((state, inner_count)) => Some((state, count as u128 + inner_count)),
        None => None,
    }
}

/// Decodes a job from a JSON value, together with the number of members in it.
pub fn take_job(json: serde_json::Value) -> (job: Option<(MigrationJob, u128)>)
    ensures
        match job {
            Some((job, count)) => job_of(crate::json::json_tree(json)) == Some(
                (job@, count as nat),
            ),
            None => job_of(crate::json::json_tree(json)) is None,
        },
{
    proof {
        lemma_field_names_differ();
    }
    let mut names: Vec<&'static str> = Vec::new();
    names.push("id");
    names.push("mode");
    names.push("state");
    assert(name_views(names@) =~= job_fields());
    let (mut slots, count) = take_fields(json, &names)?;
    let state = pop_slot(&mut slots);
    let mode = pop_slot(&mut slots);
    let id = pop_slot(&mut slots);
    let id = id?;
    let mode = mode?;
    let state = state?;
    let (id, id_count) = take_id(id)?;
    let (mode, mode_count) = take_mode(mode)?;
    let (state, state_count) = take_state(state)?;
    Some(
        (
            MigrationJob { id, mode, state },
            count as u128 + id_count as u128 + mode_count as u128 + state_count,
        ),
    )
}

/// What stands in front of every decoding failure.
pub open spec fn decode_prefix() -> Seq<char> {
    "failed to decode migration job: "@
}

/// Whether these bytes decode to exactly this job.
pub open spec fn decodes_to(bytes: Seq<u8>, job: JobShape) -> bool {
    crate::json::parsed_json(bytes) matches Ok(tree) && job_of(tree) == Some(
        (job, crate::json::colons_from(bytes, 0, false, false)),
    )
}

/// Whether these bytes decode to a job.
pub open spec fn is_stored_job(bytes: Seq<u8>) -> bool {
    exists|job: JobShape| #[trigger] decodes_to(bytes, job)
}

/// Decodes a stored job.
///
/// A member that the text gives twice is refused like one that no job has. `refusal` is
/// what the reader of stored jobs says against bytes that are none: a refused job is
/// reported in its words.
pub fn decode_json(bytes: &[u8], refusal: &str) -> (job: Result<MigrationJob, HelixDbError>)
    ensures
        match job {
            Ok(job) => decodes_to(bytes@, job@),
            Err(error) => !is_stored_job(bytes@) && error.is_config(decode_prefix() + refusal@),
        },
{
    if let Ok(json) = json_parse(bytes) {
        if let Some((job, count)) = take_job(json) {
            if count_members(bytes) as u128 == count {
                return Ok(job);
            }
        }
    }
    Err(HelixDbError::Config(joined("failed to decode migration job: ", refusal)))
}

/// Encodes a job for storage; decoding gives it back.
pub fn encode_json(job: &MigrationJob) -> (bytes: Result<Vec<u8>, HelixDbError>)
    ensures
        bytes matches Ok(bytes) && {
            &&& bytes@ == crate::json::written_json(job_tree(job@))
            &&& crate::json::parsed_json(bytes@) == Ok::<JsonTree, Seq<char>>(job_tree(job@))
            &&& crate::json::colons_from(bytes@, 0, false, false) == job_tree(
                job@,
            ).member_total()
            &&& decodes_to(bytes@, job@)
        },
{
    let json = job_json(job);
    proof {
        lemma_job_tree_is_plain(job@);
        law_stored_job_decodes_to_itself(job@);
    }
    match json_write(&json) {
        Ok(bytes) => Ok(bytes),
        Err(detail) => Err(
            HelixDbError::Config(joined("failed to encode migration job: ", detail.as_str())),
        ),
    }
}

proof fn lemma_job_tree_is_plain(job: JobShape)
    ensures
        job_tree(job).is_plain(100),
{
    reveal_with_fuel(JsonTree::is_plain, 6);
    match job.state {
        JobState::Running { resume_after_key, .. } => {
            assert(resume_tree(resume_after_key).is_plain(97));
        },
        JobState::Completed { .. } => {},
        JobState::Failed { resume_after_key, .. } => {
            assert(resume_tree(resume_after_key).is_plain(97));
        },
    }
    assert(state_tree(job.state).is_plain(99));
}

/// Whether a job can exist: its resume key, if any, is not empty.
pub open spec fn is_storable(job: JobShape) -> bool {
    is_storable_state(job.state)
}

/// Whether the resume key of a state, if any, is not empty.
pub open spec fn is_storable_state(state: JobState) -> bool {
    match state {
        JobState::Running { resume_after_key, .. } => resume_after_key matches Some(key)
            ==> key.len() > 0,
        JobState::Completed { .. } => true,
        JobState::Failed { resume_after_key, .. } => resume_after_key matches Some(key)
            ==> key.len() > 0,
    }
}

proof fn lemma_names_are_decoded(id: MigrationId, mode: MigrationMode, stage: MigrationStage)
    ensures
        id_named(id.name()) == Some(id),
        mode_named(mode.name()) == Some(mode),
        stage_named(stage.stored_name()) == Some(stage),
{
    reveal_strlit("graph_format_v1_rewrite");
    reveal_strlit("legacy_vector_property_materialization");
    reveal_strlit("legacy_vector_physical_cleanup");
    reveal_strlit("graph_format_v1_cleanup");
    assert("graph_format_v1_rewrite"@[16] == 'r' && "graph_format_v1_cleanup"@[16] == 'c');
    assert("graph_format_v1_rewrite"@.len() == 23 && "graph_format_v1_cleanup"@.len() == 23);
    assert("legacy_vector_property_materialization"@.len() == 38);
    assert("legacy_vector_physical_cleanup"@.len() == 30);
    reveal_strlit("blocking_startup");
    reveal_strlit("background");
    assert("blocking_startup"@.len() == 16 && "background"@.len() == 10);
    reveal_strlit("property_indexes");
    reveal_strlit("node_properties");
    reveal_strlit("legacy_edge_pairs");
    reveal_strlit("edge_endpoints");
    reveal_strlit("fence_legacy_vector_sources");
    reveal_strlit("legacy_vector_hot_rows");
    reveal_strlit("legacy_vector_layer0_rows");
    reveal_strlit("legacy_vector_core_rows");
    reveal_strlit("legacy_vector_definitions");
    reveal_strlit("release_legacy_vector_reservations");
    assert("property_indexes"@.len() == 16 && "node_properties"@.len() == 15);
    assert("legacy_edge_pairs"@.len() == 17 && "edge_endpoints"@.len() == 14);
    assert("fence_legacy_vector_sources"@.len() == 27);
    assert("legacy_vector_hot_rows"@.len() == 22 && "legacy_vector_core_rows"@.len() == 23);
    assert("legacy_vector_layer0_rows"@.len() == 25);
    assert("legacy_vector_definitions"@.len() == 25);
    assert("legacy_vector_layer0_rows"@[14] == 'l' && "legacy_vector_definitions"@[14] == 'd');
    assert("release_legacy_vector_reservations"@.len() == 34);
}

proof fn lemma_resume_round_trip(key: Option<Seq<u8>>)
    requires
        key matches Some(key) ==> key.len() > 0,
    ensures
        resume_of(Some(resume_tree(key))) == Some(key),
        resume_tree(key).member_total() == 0,
{
    if key is Some {
        let bytes = key->0;
        let items = Seq::new(bytes.len(), |i: int| JsonTree::Unsigned(bytes[i] as u64));
        assert(resume_tree(key) == JsonTree::List(items));
        assert forall|i: int| 0 <= i < items.len() implies is_byte(#[trigger] items[i]) by {}
        let back = Seq::new(items.len(), |i: int| items[i]->Unsigned_0 as u8);
        assert(back =~= bytes);
        lemma_plain_items_have_no_members(items);
    }
}

proof fn lemma_plain_items_have_no_members(items: Seq<JsonTree>)
    requires
        forall|i: int| 0 <= i < items.len() ==> is_byte(#[trigger] items[i]),
    ensures
        crate::json::list_member_total(items) == 0,
    decreases items.len(),
{
    if items.len() > 0 {
        assert(is_byte(items[items.len() - 1]));
        assert(items.last().member_total() == 0);
        lemma_plain_items_have_no_members(items.drop_last());
    }
}

proof fn lemma_known_members(members: Seq<(Seq<char>, JsonTree)>, names: Seq<Seq<char>>)
    requires
        members.len() == names.len(),
        forall|i: int| 0 <= i < names.len() ==> (#[trigger] members[i]).0 == names[i],
    ensures
        are_known(members, names),
{
    assert forall|i: int| 0 <= i < members.len() implies names.contains(
        (#[trigger] members[i]).0,
    ) by {
        assert(names[i] == members[i].0);
    }
}

proof fn lemma_object_total_grows(
    members: Seq<(Seq<char>, JsonTree)>,
    name: Seq<char>,
    tree: JsonTree,
)
    ensures
        crate::json::object_member_total(members.push((name, tree)))
            == crate::json::object_member_total(members) + tree.member_total(),
{
    assert(members.push((name, tree)).drop_last() =~= members);
}

proof fn lemma_leaves_have_no_members(text: Seq<char>, number: u64)
    ensures
        JsonTree::Text(text).member_total() == 0,
        JsonTree::Unsigned(number).member_total() == 0,
        crate::json::object_member_total(Seq::<(Seq<char>, JsonTree)>::empty()) == 0,
{
}

proof fn lemma_state_round_trip(state: JobState)
    requires
        match state {
            JobState::Running { resume_after_key, .. } => resume_after_key matches Some(key)
                ==> key.len() > 0,
            JobState::Completed { .. } => true,
            JobState::Failed { resume_after_key, .. } => resume_after_key matches Some(key)
                ==> key.len() > 0,
        },
    ensures
        state_of(state_tree(state)) == Some(
            (state, state_tree(state).member_total()),
        ),
{
    lemma_field_names_differ();
    let outer = state_tree(state)->Members_0;
    let content = outer[0].1;
    let members = content->Members_0;
    let none = Seq::<(Seq<char>, JsonTree)>::empty();
    assert(outer =~= none.push(outer[0]));
    lemma_object_total_grows(none, outer[0].0, content);
    match state {
        JobState::Running { stage, resume_after_key, processed_rows } => {
            lemma_names_are_decoded(
                MigrationId::GraphFormatV1Cleanup,
                MigrationMode::Background,
                stage,
            );
            lemma_resume_round_trip(resume_after_key);
            lemma_known_members(members, running_fields());
            reveal_with_fuel(member_from, 4);
            lemma_leaves_have_no_members(stage.stored_name(), processed_rows);
            assert(members =~= none.push(members[0]).push(members[1]).push(members[2]));
            lemma_object_total_grows(none, members[0].0, members[0].1);
            lemma_object_total_grows(none.push(members[0]), members[1].0, members[1].1);
            lemma_object_total_grows(
                none.push(members[0]).push(members[1]),
                members[2].0,
                members[2].1,
            );
            let fields = fields_of(content, running_fields())->0;
            assert(fields[0] == Some(JsonTree::Text(stage.stored_name())));
            assert(fields[1] == Some(resume_tree(resume_after_key)));
            assert(fields[2] == Some(JsonTree::Unsigned(processed_rows)));
            assert(content.member_total() == 3);
        },
        JobState::Completed { processed_rows } => {
            lemma_known_members(members, completed_fields());
            lemma_leaves_have_no_members(outer[0].0, processed_rows);
            assert(members =~= none.push(members[0]));
            lemma_object_total_grows(none, members[0].0, members[0].1);
            let fields = fields_of(content, completed_fields())->0;
            assert(fields[0] == Some(JsonTree::Unsigned(processed_rows)));
            assert(content.member_total() == 1);
        },
        JobState::Failed { stage, resume_after_key, processed_rows, error } => {
            lemma_names_are_decoded(
                MigrationId::GraphFormatV1Cleanup,
                MigrationMode::Background,
                stage,
            );
            lemma_resume_round_trip(resume_after_key);
            lemma_known_members(members, failed_fields());
            reveal_with_fuel(member_from, 5);
            lemma_leaves_have_no_members(stage.stored_name(), processed_rows);
            lemma_leaves_have_no_members(error, processed_rows);
            let three = none.push(members[0]).push(members[1]).push(members[2]);
            assert(members =~= three.push(members[3]));
            lemma_object_total_grows(none, members[0].0, members[0].1);
            lemma_object_total_grows(none.push(members[0]), members[1].0, members[1].1);
            lemma_object_total_grows(
                none.push(members[0]).push(members[1]),
                members[2].0,
                members[2].1,
            );
            lemma_object_total_grows(three, members[3].0, members[3].1);
            let fields = fields_of(content, failed_fields())->0;
            assert(fields[0] == Some(JsonTree::Text(stage.stored_name())));
            assert(fields[1] == Some(resume_tree(resume_after_key)));
            assert(fields[2] == Some(JsonTree::Unsigned(processed_rows)));
            assert(fields[3] == Some(JsonTree::Text(error)));
            assert(content.member_total() == 4);
        },
    }
    assert(state_tree(state).member_total() == 1 + content.member_total());
}

/// Decoding what encoding has written gives the job back: the tree of a job decodes to
/// that job, and its members are all there is to count.
pub proof fn law_stored_job_decodes_to_itself(job: JobShape)
    requires
        is_storable(job),
    ensures
        job_of(job_tree(job)) == Some(
            (job, job_tree(job).member_total()),
        ),
{
    lemma_field_names_differ();
    lemma_state_round_trip(job.state);
    lemma_names_are_decoded(job.id, job.mode, MigrationStage::PropertyIndexes);
    let members = job_tree(job)->Members_0;
    lemma_known_members(members, job_fields());
    reveal_with_fuel(member_from, 4);
    let fields = fields_of(job_tree(job), job_fields())->0;
    assert(fields[0] == Some(JsonTree::Text(job.id.name())));
    assert(fields[1] == Some(JsonTree::Text(job.mode.name())));
    assert(fields[2] == Some(state_tree(job.state)));
    let none = Seq::<(Seq<char>, JsonTree)>::empty();
    lemma_leaves_have_no_members(job.id.name(), 0);
    lemma_leaves_have_no_members(job.mode.name(), 0);
    assert(members =~= none.push(members[0]).push(members[1]).push(members[2]));
    lemma_object_total_grows(none, members[0].0, members[0].1);
    lemma_object_total_grows(none.push(members[0]), members[1].0, members[1].1);
    lemma_object_total_grows(none.push(members[0]).push(members[1]), members[2].0, members[2].1);
    assert(job_tree(job).member_total() == 3 + state_tree(job.state).member_total());
}

/// A job is stored as an object of its id, its mode and its state, in this order.
pub proof fn law_jobs_are_stored_with_three_members(job: JobShape)
    ensures
        job_tree(job) == JsonTree::Members(
            seq![
                ("id"@, JsonTree::Text(job.id.name())),
                ("mode"@, JsonTree::Text(job.mode.name())),
                ("state"@, state_tree(job.state)),
            ],
        ),
{
    assert(job_tree(job)->Members_0 =~= seq![
        ("id"@, JsonTree::Text(job.id.name())),
        ("mode"@, JsonTree::Text(job.mode.name())),
        ("state"@, state_tree(job.state)),
    ]);
}

/// A state is stored under its name, with its stage, its resume key, its rows and its error,
/// as far as it has them, in this order.
pub proof fn law_states_are_stored_under_their_name(
    stage: MigrationStage,
    key: Option<Seq<u8>>,
    rows: u64,
    error: Seq<char>,
)
    ensures
        state_tree(
            JobState::Running { stage, resume_after_key: key, processed_rows: rows },
        ) == JsonTree::Members(
            seq![
                (
                    "running"@,
                    JsonTree::Members(
                        seq![
                            ("stage"@, JsonTree::Text(stage.stored_name())),
                            ("resume_after_key"@, resume_tree(key)),
                            ("processed_rows"@, JsonTree::Unsigned(rows)),
                        ],
                    ),
                ),
            ],
        ),
        state_tree(JobState::Completed { processed_rows: rows }) == JsonTree::Members(
            seq![
                (
                    "completed"@,
                    JsonTree::Members(seq![("processed_rows"@, JsonTree::Unsigned(rows))]),
                ),
            ],
        ),
        state_tree(
            JobState::Failed { stage, resume_after_key: key, processed_rows: rows, error },
        ) == JsonTree::Members(
            seq![
                (
                    "failed"@,
                    JsonTree::Members(
                        seq![
                            ("stage"@, JsonTree::Text(stage.stored_name())),
                            ("resume_after_key"@, resume_tree(key)),
                            ("processed_rows"@, JsonTree::Unsigned(rows)),
                            ("error"@, JsonTree::Text(error)),
                        ],
                    ),
                ),
            ],
        ),
{
}

/// A resume key is stored byte by byte as numbers, and the lack of one as null.
pub proof fn law_resume_keys_are_stored_byte_by_byte(bytes: Seq<u8>, position: int)
    requires
        0 <= position < bytes.len(),
    ensures
        resume_tree(None) is Null,
        resume_tree(Some(bytes)) matches JsonTree::List(items) && items.len() == bytes.len()
            && items[position] == JsonTree::Unsigned(bytes[position] as u64),
{
}

/// Stages are stored under frozen names, which are those of the log but for one stage.
pub proof fn law_stored_stage_names_are_frozen()
    ensures
        MigrationStage::PropertyIndexes.stored_name() == "property_indexes"@,
        MigrationStage::NodeProperties.stored_name() == "node_properties"@,
        MigrationStage::LegacyEdgePairs.stored_name() == "legacy_edge_pairs"@,
        MigrationStage::EdgeEndpoints.stored_name() == "edge_endpoints"@,
        MigrationStage::FenceLegacyVectorSources.stored_name() == "fence_legacy_vector_sources"@,
        MigrationStage::LegacyVectorHotRows.stored_name() == "legacy_vector_hot_rows"@,
        MigrationStage::LegacyVectorLayer0Rows.stored_name() == "legacy_vector_layer0_rows"@,
        MigrationStage::LegacyVectorCoreRows.stored_name() == "legacy_vector_core_rows"@,
        MigrationStage::LegacyVectorDefinitions.stored_name() == "legacy_vector_definitions"@,
        MigrationStage::ReleaseLegacyVectorReservations.stored_name()
            == "release_legacy_vector_reservations"@,
        decode_prefix() == "failed to decode migration job: "@,
{
}

/// Names are read as what is stored under them, and no other name is read at all.
pub proof fn law_names_are_read_as_stored(
    name: Seq<char>,
    id: MigrationId,
    mode: MigrationMode,
    stage: MigrationStage,
)
    ensures
        id_named(name) == Some(id) <==> name == id.name(),
        mode_named(name) == Some(mode) <==> name == mode.name(),
        stage_named(name) == Some(stage) <==> name == stage.stored_name(),
{
    lemma_names_are_decoded(id, mode, stage);
}

/// A value names a variant as text, or as the only member of an object; a variant without
/// content may have null there, and nothing else.
pub proof fn law_variants_are_named_alone(name: Seq<char>, content: JsonTree)
    ensures
        variant_of(JsonTree::Text(name)) == Some((name, None::<JsonTree>)),
        variant_of(JsonTree::Members(seq![(name, content)])) == Some((name, Some(content))),
        unit_of(JsonTree::Text(name)) == Some(name),
        unit_of(JsonTree::Members(seq![(name, content)])) == if content is Null {
            Some(name)
        } else {
            None
        },
{
}

/// Values of another form, and objects without a member or with more than one, name nothing.
pub proof fn law_other_values_name_no_variant(tree: JsonTree)
    ensures
        !(tree is Text) && !(tree is Members) ==> variant_of(tree) is None && unit_of(tree)
            is None,
        tree matches JsonTree::Members(members) ==> members.len() != 1 ==> variant_of(tree) is None
            && unit_of(tree) is None,
        variant_of(tree) is None ==> id_of(tree) is None && mode_of(tree) is None && stage_of(tree)
            is None && state_of(tree) is None,
{
}

/// A resume key is read from a list of bytes with at least one; an absent one and null are no
/// key; everything else is refused.
pub proof fn law_resume_keys_are_read_byte_by_byte(tree: JsonTree)
    ensures
        resume_of(None) == Some(None::<Seq<u8>>),
        resume_of(Some(JsonTree::Null)) == Some(None::<Seq<u8>>),
        !(tree is Null) && !(tree is List) ==> resume_of(Some(tree)) is None,
        tree matches JsonTree::List(items) ==> (resume_of(Some(tree)) is Some <==> items.len() > 0
            && forall|i: int|
            0 <= i < items.len() ==> (#[trigger] items[i] matches JsonTree::Unsigned(value)
                && value <= 255)),
        tree matches JsonTree::List(items) ==> (resume_of(Some(tree)) matches Some(found)
            ==> found matches Some(bytes) && bytes.len() == items.len() && forall|i: int|
            0 <= i < items.len() ==> #[trigger] items[i] == JsonTree::Unsigned(bytes[i] as u64)),
{
    if let JsonTree::List(items) = tree {
        if resume_of(Some(tree)) is Some {
            let bytes = resume_of(Some(tree))->0->0;
            assert forall|i: int| 0 <= i < items.len() implies #[trigger] items[i]
                == JsonTree::Unsigned(bytes[i] as u64) by {
                assert(is_byte(items[i]));
            }
        } else if items.len() > 0 && forall|i: int|
            0 <= i < items.len() ==> (#[trigger] items[i] matches JsonTree::Unsigned(value)
                && value <= 255) {
            assert forall|i: int| 0 <= i < items.len() implies is_byte(#[trigger] items[i]) by {}
        }
    }
}

/// Rows are read from an unsigned integer and errors from text, and from nothing else.
pub proof fn law_rows_and_errors_are_read_as_they_are(tree: JsonTree, rows: u64, error: Seq<char>)
    ensures
        rows_of(tree) == Some(rows) <==> tree == JsonTree::Unsigned(rows),
        error_of(tree) == Some(error) <==> tree == JsonTree::Text(error),
        rows_of(tree) is None <==> !(tree is Unsigned),
        error_of(tree) is None <==> !(tree is Text),
{
}

proof fn lemma_first_member_is_found(
    members: Seq<(Seq<char>, JsonTree)>,
    from: int,
    position: int,
)
    requires
        0 <= from <= position < members.len(),
        forall|i: int| 0 <= i < position ==> (#[trigger] members[i]).0 != members[position].0,
    ensures
        member_from(members, members[position].0, from) == Some(members[position].1),
    decreases position - from,
{
    if from < position {
        lemma_first_member_is_found(members, from + 1, position);
    }
}

proof fn lemma_member_is_missed(members: Seq<(Seq<char>, JsonTree)>, name: Seq<char>, from: int)
    requires
        0 <= from,
        forall|i: int| 0 <= i < members.len() ==> (#[trigger] members[i]).0 != name,
    ensures
        member_from(members, name, from) is None,
    decreases members.len() - from,
{
    if from < members.len() {
        lemma_member_is_missed(members, name, from + 1);
    }
}

/// The parts of an object are its members by name, wherever they stand; a part that no member
/// names is absent, and a member that is no part refuses the whole object.
pub proof fn law_parts_are_found_by_name(
    members: Seq<(Seq<char>, JsonTree)>,
    names: Seq<Seq<char>>,
    position: int,
    part: int,
)
    requires
        crate::json::distinct_names(members),
        0 <= position < members.len(),
        0 <= part < names.len(),
    ensures
        !names.contains(members[position].0) ==> fields_of(JsonTree::Members(members), names)
            is None,
        fields_of(JsonTree::Members(members), names) matches Some(fields) ==> {
            &&& fields.len() == names.len()
            &&& members[position].0 == names[part] ==> fields[part] == Some(members[position].1)
            &&& (forall|i: int| 0 <= i < members.len() ==> (#[trigger] members[i]).0 != names[part])
                ==> fields[part] is None
        },
        (forall|i: int| 0 <= i < members.len() ==> names.contains((#[trigger] members[i]).0))
            ==> fields_of(JsonTree::Members(members), names) is Some,
{
    if members[position].0 == names[part] {
        assert forall|i: int| 0 <= i < position implies (#[trigger] members[i]).0
            != members[position].0 by {
            assert(members[i].0 != members[position].0);
        }
        lemma_first_member_is_found(members, 0, position);
    }
    if forall|i: int| 0 <= i < members.len() ==> (#[trigger] members[i]).0 != names[part] {
        lemma_member_is_missed(members, names[part], 0);
    }
}

/// The parts of a list are its items in their order, one for each part; lists of another
/// length and other values have no parts.
pub proof fn law_parts_are_found_by_place(tree: JsonTree, names: Seq<Seq<char>>, part: int)
    requires
        0 <= part < names.len(),
    ensures
        tree matches JsonTree::List(items) ==> (fields_of(tree, names) is Some <==> items.len()
            == names.len()),
        tree matches JsonTree::List(items) ==> (fields_of(tree, names) matches Some(fields)
            ==> fields.len() == names.len() && fields[part] == Some(items[part])),
        !(tree is List) && !(tree is Members) ==> fields_of(tree, names) is None,
{
}

/// Jobs have three parts; running states have a stage, a resume key and rows; completed
/// states have rows; failed states have an error too.
pub proof fn law_parts_have_their_names()
    ensures
        job_fields() == seq!["id"@, "mode"@, "state"@],
        running_fields() == seq!["stage"@, "resume_after_key"@, "processed_rows"@],
        completed_fields() == seq!["processed_rows"@],
        failed_fields() == seq!["stage"@, "resume_after_key"@, "processed_rows"@, "error"@],
{
}

/// A job is read exactly where its id, its mode and its state are, and it is made of them.
pub proof fn law_jobs_are_read_part_by_part(tree: JsonTree)
    ensures
        match fields_of(tree, seq!["id"@, "mode"@, "state"@]) {
            None => job_of(tree) is None,
            Some(fields) => {
                let whole = fields[0] is Some && fields[1] is Some && fields[2] is Some && id_of(
                    fields[0]->0,
                ) is Some && mode_of(fields[1]->0) is Some && state_of(fields[2]->0) is Some;
                &&& job_of(tree) is Some <==> whole
                &&& job_of(tree) matches Some((job, _)) ==> id_of(fields[0]->0) == Some(job.id)
                    && mode_of(fields[1]->0) == Some(job.mode) && (state_of(
                    fields[2]->0,
                ) matches Some((state, _)) && state == job.state)
            },
        },
{
}

/// A running or failed state is read exactly where its parts are, its resume key being the
/// one that may be absent, and it is made of them.
pub proof fn law_states_are_read_part_by_part(content: JsonTree)
    ensures
        match fields_of(content, seq!["stage"@, "resume_after_key"@, "processed_rows"@]) {
            None => running_of(content) is None,
            Some(fields) => {
                &&& running_of(content) is Some <==> fields[0] is Some && fields[2] is Some
                    && stage_of(fields[0]->0) is Some && resume_of(fields[1]) is Some && rows_of(
                    fields[2]->0,
                ) is Some
                &&& running_of(content) matches Some((state, _)) ==> state == (JobState::Running {
                    stage: stage_of(fields[0]->0)->0,
                    resume_after_key: resume_of(fields[1])->0,
                    processed_rows: rows_of(fields[2]->0)->0,
                })
            },
        },
        match fields_of(content, seq!["processed_rows"@]) {
            None => completed_of(content) is None,
            Some(fields) => {
                &&& completed_of(content) is Some <==> fields[0] is Some && rows_of(fields[0]->0)
                    is Some
                &&& completed_of(content) matches Some((state, _)) ==> state == (
                JobState::Completed { processed_rows: rows_of(fields[0]->0)->0 })
            },
        },
        match fields_of(content, seq!["stage"@, "resume_after_key"@, "processed_rows"@, "error"@]) {
            None => failed_of(content) is None,
            Some(fields) => {
                &&& failed_of(content) is Some <==> fields[0] is Some && fields[2] is Some
                    && fields[3] is Some && stage_of(fields[0]->0) is Some && resume_of(fields[1])
                    is Some && rows_of(fields[2]->0) is Some && error_of(fields[3]->0) is Some
                &&& failed_of(content) matches Some((state, _)) ==> state == (JobState::Failed {
                    stage: stage_of(fields[0]->0)->0,
                    resume_after_key: resume_of(fields[1])->0,
                    processed_rows: rows_of(fields[2]->0)->0,
                    error: error_of(fields[3]->0)->0,
                })
            },
        },
{
}

/// The name of a state says how its content is read, and no other name is one.
pub proof fn law_states_are_read_by_their_name(name: Seq<char>, content: JsonTree)
    ensures
        ({
            let found = state_of(JsonTree::Members(seq![(name, content)]));
            &&& name == "running"@ ==> (found is Some <==> running_of(content) is Some) && (
            found matches Some((state, _)) ==> running_of(content) matches Some((expected, _)) && state
                == expected)
            &&& name == "completed"@ ==> (found is Some <==> completed_of(content) is Some) && (
            found matches Some((state, _)) ==> completed_of(content) matches Some((expected, _)) && state
                == expected)
            &&& name == "failed"@ ==> (found is Some <==> failed_of(content) is Some) && (
            found matches Some((state, _)) ==> failed_of(content) matches Some((expected, _)) && state
                == expected)
            &&& name != "running"@ && name != "completed"@ && name != "failed"@ ==> found is None
            &&& state_of(JsonTree::Text(name)) is None
        }),
{
    lemma_field_names_differ();
}

/// Bytes decode to one job at most, and to it only where every member that they spell out
/// belongs to it: one that is spelled out twice refuses them.
pub proof fn law_bytes_decode_to_one_job(bytes: Seq<u8>, left: JobShape, right: JobShape)
    ensures
        decodes_to(bytes, left) && decodes_to(bytes, right) ==> left == right,
        decodes_to(bytes, left) ==> is_stored_job(bytes),
        decodes_to(bytes, left) ==> (crate::json::parsed_json(bytes) matches Ok(tree) && (job_of(
            tree,
        ) matches Some((job, members)) && job == left && members == crate::json::colons_from(
            bytes,
            0,
            false,
            false,
        ))),
{
}

/// A job can be stored exactly where its resume key, if it has one, is not empty.
pub proof fn law_storable_jobs_have_no_empty_key(
    stage: MigrationStage,
    key: Seq<u8>,
    rows: u64,
    error: Seq<char>,
)
    ensures
        is_storable_state(
            JobState::Running { stage, resume_after_key: Some(key), processed_rows: rows },
        ) <==> key.len() > 0,
        is_storable_state(
            JobState::Failed { stage, resume_after_key: Some(key), processed_rows: rows, error },
        ) <==> key.len() > 0,
        is_storable_state(
            JobState::Running { stage, resume_after_key: None, processed_rows: rows },
        ),
        is_storable_state(
            JobState::Failed { stage, resume_after_key: None, processed_rows: rows, error },
        ),
        is_storable_state(JobState::Completed { processed_rows: rows }),
{
}

/// A job is seen with its id, its mode and its state.
pub proof fn law_jobs_are_seen_as_they_are(job: MigrationJob)
    ensures
        job@.id == job.id && job@.mode == job.mode && job@.state == job.state@,
{
}

} // verus!
