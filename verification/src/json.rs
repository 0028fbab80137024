//! JSON values, kept in `serde_json`'s own representation.
//!
//! A `serde_json::Value` is opaque to the proofs. `json_tree` names what one holds, as a
//! mathematical tree, and every function below that touches the representation says what
//! it does to that tree.
use vstd::prelude::*;

verus! {

/// What a JSON value holds. The members of an object keep their order.
pub enum JsonTree {
    Null,
    Bool(bool),
    Unsigned(u64),
    /// An integer below zero.
    Negative(i64),
    /// The shortest decimal text of a number with a fraction or an exponent.
    Fraction(Seq<char>),
    Text(Seq<char>),
    List(Seq<JsonTree>),
    Members(Seq<(Seq<char>, JsonTree)>),
}

/// One JSON value taken apart by one level.
#[derive(Debug)]
pub enum JsonNode {
    Null,
    Bool(bool),
    Unsigned(u64),
    Negative(i64),
    Fraction(String),
    Text(String),
    List(Vec<serde_json::Value>),
    Members(Vec<(String, serde_json::Value)>),
}

/// The JSON value type of `serde_json`.
#[verifier::external_type_specification]
#[verifier::external_body]
pub struct ExJsonValue(serde_json::Value);

/// The tree that a JSON value holds.
pub uninterp spec fn json_tree(value: serde_json::Value) -> JsonTree;

/// The tree that JSON text stands for, or what is wrong with the text.
pub uninterp spec fn parsed_json(bytes: Seq<u8>) -> Result<JsonTree, Seq<char>>;

/// The compact JSON text of a tree.
pub uninterp spec fn written_json(tree: JsonTree) -> Seq<u8>;

/// The trees of a list of values.
pub open spec fn list_trees(values: Seq<serde_json::Value>) -> Seq<JsonTree> {
    Seq::new(values.len(), |i: int| json_tree(values[i]))
}

/// The trees of a list of members.
pub open spec fn member_trees(members: Seq<(String, serde_json::Value)>) -> Seq<
    (Seq<char>, JsonTree),
> {
    Seq::new(members.len(), |i: int| (members[i].0@, json_tree(members[i].1)))
}

/// Whether no name occurs twice.
pub open spec fn distinct_names(members: Seq<(Seq<char>, JsonTree)>) -> bool {
    forall|i: int, j: int|
        0 <= i < j < members.len() ==> (#[trigger] members[i]).0 != (#[trigger] members[j]).0
}

impl JsonNode {
    /// The tree of a value that was taken apart.
    pub open spec fn tree(self) -> JsonTree {
        match self {
            JsonNode::Null => JsonTree::Null,
            JsonNode::Bool(value) => JsonTree::Bool(value),
            JsonNode::Unsigned(value) => JsonTree::Unsigned(value),
            JsonNode::Negative(value) => JsonTree::Negative(value),
            JsonNode::Fraction(text) => JsonTree::Fraction(text@),
            JsonNode::Text(text) => JsonTree::Text(text@),
            JsonNode::List(values) => JsonTree::List(list_trees(values@)),
            JsonNode::Members(members) => JsonTree::Members(member_trees(members@)),
        }
    }
}

impl JsonTree {
    /// Whether the tree holds integers only and nests at most `depth` lists and objects.
    pub open spec fn is_plain(self, depth: nat) -> bool
        decreases self,
    {
        match self {
            JsonTree::Fraction(_) => false,
            JsonTree::List(items) => depth > 0 && forall|i: int|
                0 <= i < items.len() ==> (#[trigger] items[i]).is_plain((depth - 1) as nat),
            JsonTree::Members(members) => depth > 0 && forall|i: int|
                0 <= i < members.len() ==> (#[trigger] members[i]).1.is_plain((depth - 1) as nat),
            _ => true,
        }
    }

    /// Number of members of all objects in the tree.
    pub open spec fn member_total(self) -> nat
        decreases self,
    {
        match self {
            JsonTree::List(items) => list_member_total(items),
            JsonTree::Members(members) => members.len() + object_member_total(members),
            _ => 0,
        }
    }
}

/// Number of members of all objects in a list.
pub open spec fn list_member_total(items: Seq<JsonTree>) -> nat
    decreases items,
{
    if items.len() == 0 {
        0
    } else {
        items.last().member_total() + list_member_total(items.drop_last())
    }
}

/// Number of members of all objects below an object.
pub open spec fn object_member_total(members: Seq<(Seq<char>, JsonTree)>) -> nat
    decreases members,
{
    if members.len() == 0 {
        0
    } else {
        members.last().1.member_total() + object_member_total(members.drop_last())
    }
}

/// Number of colons outside quoted text from a position on, which is where JSON text
/// separates the name of a member from its value.
pub open spec fn colons_from(bytes: Seq<u8>, from: int, quoted: bool, escaped: bool) -> nat
    decreases bytes.len() - from,
{
    if from >= bytes.len() {
        0
    } else if quoted {
        if escaped {
            colons_from(bytes, from + 1, true, false)
        } else {
            colons_from(bytes, from + 1, bytes[from] != 0x22, bytes[from] == 0x5c)
        }
    } else {
        (if bytes[from] == 0x3a {
            1nat
        } else {
            0nat
        }) + colons_from(bytes, from + 1, bytes[from] == 0x22, false)
    }
}

/// Counts the members that JSON text spells out, repeated ones included.
pub fn count_members(bytes: &[u8]) -> (count: usize)
    ensures
        count == colons_from(bytes@, 0, false, false),
{
    let mut count: usize = 0;
    let mut position: usize = 0;
    let mut quoted = false;
    let mut escaped = false;
    while position < bytes.len()
        invariant
            position <= bytes.len(),
            count <= position,
            count + colons_from(bytes@, position as int, quoted, escaped) == colons_from(
                bytes@,
                0,
                false,
                false,
            ),
            escaped ==> quoted,
        decreases bytes.len() - position,
    {
        let byte: u8 = bytes[position];
        if quoted {
            if escaped {
                escaped = false;
            } else {
                quoted = byte != 0x22;
                escaped = byte == 0x5c;
            }
        } else {
            if byte == 0x3a {
                count = count + 1;
            }
            quoted = byte == 0x22;
        }
        position = position + 1;
    }
    count
}

/// `serde_json::Value::Null`.
#[verifier::external_body]
pub(crate) fn json_null() -> (json: serde_json::Value)
    ensures
        json_tree(json) == JsonTree::Null,
{
    serde_json::Value::Null
}

/// `serde_json::Value::Bool` of a truth value.
#[verifier::external_body]
pub(crate) fn json_bool(value: bool) -> (json: serde_json::Value)
    ensures
        json_tree(json) == JsonTree::Bool(value),
{
    serde_json::Value::Bool(value)
}

/// `serde_json::Value::from` of an unsigned integer.
#[verifier::external_body]
pub(crate) fn json_unsigned(value: u64) -> (json: serde_json::Value)
    ensures
        json_tree(json) == JsonTree::Unsigned(value),
{
    serde_json::Value::from(value)
}

/// `serde_json::Value::String` of a text.
#[verifier::external_body]
pub(crate) fn json_text(value: String) -> (json: serde_json::Value)
    ensures
        json_tree(json) == JsonTree::Text(value@),
{
    serde_json::Value::String(value)
}

/// `serde_json::Value::Array` of a list of values.
#[verifier::external_body]
pub(crate) fn json_list(values: Vec<serde_json::Value>) -> (json: serde_json::Value)
    ensures
        json_tree(json) == JsonTree::List(list_trees(values@)),
{
    serde_json::Value::Array(values)
}

/// The members after one more was put in: a name that is there keeps its place and takes
/// the new value.
pub open spec fn put_member(
    members: Seq<(Seq<char>, JsonTree)>,
    member: (Seq<char>, JsonTree),
) -> Seq<(Seq<char>, JsonTree)> {
    if exists|i: int| 0 <= i < members.len() && (#[trigger] members[i]).0 == member.0 {
        let place = choose|i: int|
            0 <= i < members.len() && (#[trigger] members[i]).0 == member.0;
        members.update(place, member)
    } else {
        members.push(member)
    }
}

/// The members of an object that was filled one by one.
pub open spec fn collected(members: Seq<(Seq<char>, JsonTree)>) -> Seq<(Seq<char>, JsonTree)>
    decreases members.len(),
{
    if members.len() == 0 {
        Seq::empty()
    } else {
        put_member(collected(members.drop_last()), members.last())
    }
}

/// Members whose names all differ are collected as they are.
pub proof fn lemma_distinct_members_are_collected(members: Seq<(Seq<char>, JsonTree)>)
    requires
        distinct_names(members),
    ensures
        collected(members) == members,
    decreases members.len(),
{
    if members.len() > 0 {
        let before = members.drop_last();
        assert(distinct_names(before)) by {
            assert forall|i: int, j: int| 0 <= i < j < before.len() implies (
            #[trigger] before[i]).0 != (#[trigger] before[j]).0 by {
                assert(members[i].0 != members[j].0);
            }
        }
        lemma_distinct_members_are_collected(before);
        assert forall|i: int| 0 <= i < before.len() implies (#[trigger] before[i]).0
            != members.last().0 by {
            assert(members[i].0 != members[members.len() - 1].0);
        }
        assert(before.push(members.last()) =~= members);
    } else {
        assert(members =~= Seq::empty());
    }
}

/// `serde_json::Map::from_iter` and `serde_json::Value::Object`: the members are put in one
/// by one, in their order.
#[verifier::external_body]
pub(crate) fn json_object(members: Vec<(String, serde_json::Value)>) -> (json: serde_json::Value)
    ensures
        json_tree(json) == JsonTree::Members(collected(member_trees(members@))),
{
    serde_json::Value::Object(serde_json::Map::from_iter(members))
}

/// An object of members whose names all differ.
pub(crate) fn json_record(members: Vec<(String, serde_json::Value)>) -> (json: serde_json::Value)
    requires
        distinct_names(member_trees(members@)),
    ensures
        json_tree(json) == JsonTree::Members(member_trees(members@)),
{
    proof {
        lemma_distinct_members_are_collected(member_trees(members@));
    }
    json_object(members)
}

/// Tells the variants of `serde_json::Value` apart. `Number::as_u64` and
/// `Number::as_i64` tell integers from other numbers, whose text is their `Display` form.
/// The members of an object come in their order, none of them twice.
#[verifier::external_body]
pub(crate) fn json_split(json: serde_json::Value) -> (node: JsonNode)
    ensures
        node.tree() == json_tree(json),
        node matches JsonNode::Negative(value) ==> value < 0,
        node matches JsonNode::Members(members) ==> distinct_names(member_trees(members@)),
{
    match json {
        serde_json::Value::Null => JsonNode::Null,
        serde_json::Value::Bool(value) => JsonNode::Bool(value),
        serde_json::Value::Number(number) => match (number.as_u64(), number.as_i64()) {
            (Some(value), _) => JsonNode::Unsigned(value),
            (None, Some(value)) => JsonNode::Negative(value),
            (None, None) => JsonNode::Fraction(number.to_string()),
        },
        serde_json::Value::String(text) => JsonNode::Text(text),
        serde_json::Value::Array(values) => JsonNode::List(values),
        serde_json::Value::Object(members) => JsonNode::Members(members.into_iter().collect()),
    }
}

/// `serde_json::from_slice` into a `serde_json::Value`. What comes of it depends on the
/// bytes alone, and so does the `Display` form of its failure.
#[verifier::external_body]
pub(crate) fn json_parse(bytes: &[u8]) -> (json: Result<serde_json::Value, String>)
    ensures
        match json {
            Ok(json) => parsed_json(bytes@) == Ok::<JsonTree, Seq<char>>(json_tree(json)),
            Err(text) => parsed_json(bytes@) == Err::<JsonTree, Seq<char>>(text@),
        },
{
    match serde_json::from_slice(bytes) {
        Ok(json) => Ok(json),
        Err(error) => Err(error.to_string()),
    }
}

/// Whether text is made of lower-case ASCII letters and underscores.
pub open spec fn is_word(text: Seq<char>) -> bool {
    forall|i: int| 0 <= i < text.len() ==> 'a' <= #[trigger] text[i] <= 'z' || text[i] == '_'
}

/// Text between double quotes.
pub open spec fn in_quotes(text: Seq<char>) -> Seq<char> {
    seq!['"'] + text + seq!['"']
}

/// `serde_json::to_vec` of a `serde_json::Value`. It fails only where a `Serialize` impl
/// fails or an object has a key that is no string, and neither occurs in such a value. The
/// text depends on the tree alone, has one colon outside quoted text for each member, and
/// reading it gives the tree back unless it holds fractions or nests too deep for the
/// reader. Letters and underscores are written as they are, between double quotes.
#[verifier::external_body]
pub(crate) fn json_write(json: &serde_json::Value) -> (bytes: Result<Vec<u8>, String>)
    ensures
        bytes matches Ok(bytes) && {
            &&& bytes@ == written_json(json_tree(*json))
            &&& colons_from(bytes@, 0, false, false) == json_tree(*json).member_total()
            &&& json_tree(*json).is_plain(100) ==> parsed_json(bytes@) == Ok::<
                JsonTree,
                Seq<char>,
            >(json_tree(*json))
            &&& json_tree(*json) matches JsonTree::Text(text) ==> is_word(text) ==> bytes@
                == vstd::utf8::encode_utf8(in_quotes(text))
        },
{
    match serde_json::to_vec(json) {
        Ok(bytes) => Ok(bytes),
        Err(error) => Err(error.to_string()),
    }
}

/// The compact JSON text that `sonic_rs` writes of a tree.
pub uninterp spec fn sonic_json(tree: JsonTree) -> Seq<u8>;

/// `sonic_rs::to_vec` of a `serde_json::Value`. It fails only where a `Serialize` impl
/// fails or an object has a key that is no string, and neither occurs in such a value. The
/// text depends on the tree alone, and reading it gives the tree back unless it holds
/// fractions or nests too deep for the reader.
#[verifier::external_body]
pub(crate) fn sonic_write(json: &serde_json::Value) -> (bytes: Result<Vec<u8>, String>)
    ensures
        bytes matches Ok(bytes) && {
            &&& bytes@ == sonic_json(json_tree(*json))
            &&& json_tree(*json).is_plain(100) ==> parsed_json(bytes@) == Ok::<
                JsonTree,
                Seq<char>,
            >(json_tree(*json))
        },
{
    match sonic_rs::to_vec(json) {
        Ok(bytes) => Ok(bytes),
        Err(error) => Err(error.to_string()),
    }
}

/// A word between quotes keeps all of its letters.
pub proof fn law_quotes_surround_the_text(text: Seq<char>)
    ensures
        in_quotes(text).len() == text.len() + 2,
        in_quotes(text)[0] == '"' && in_quotes(text).last() == '"',
        in_quotes(text).subrange(1, text.len() as int + 1) == text,
{
    assert(in_quotes(text).subrange(1, text.len() as int + 1) =~= text);
}

} // verus!
