//! JSON text: one value to a line, read and written by the JSON crate.

use serde_json::Value;
use vstd::prelude::*;

use crate::json;
use crate::json::{Json, Member, NumberTree, Tree};
use crate::text;

verus! {

/// The JSON crate's numbers: integers from `i64::MIN` to `u64::MAX`, and decimals.
#[verifier::external_type_specification]
#[verifier::external_body]
pub struct ExNumber(serde_json::Number);

/// The JSON crate's values.
#[verifier::external_type_specification]
#[verifier::external_body]
pub struct ExValue(Value);

/// The JSON crate's objects.
#[verifier::external_type_specification]
#[verifier::external_body]
#[verifier::reject_recursive_types(K)]
#[verifier::reject_recursive_types(V)]
pub struct ExMap<K, V>(serde_json::Map<K, V>);

/// What a number of the JSON crate holds: an integer, or the text that a decimal prints as.
pub uninterp spec fn number_tree(number: serde_json::Number) -> NumberTree;

/// What a value of the JSON crate holds.
pub uninterp spec fn document(value: Value) -> Tree;

/// What an object of the JSON crate holds.
pub uninterp spec fn entries(map: serde_json::Map<String, Value>) -> Map<Seq<char>, Tree>;

/// What each value in a list holds.
pub open spec fn documents(values: Seq<Value>) -> Seq<Tree> {
    Seq::new(values.len(), |i: int| document(values[i]))
}

/// `serde_json::Number::as_u64` gives an integer from 0 to `u64::MAX`, and `None` for any
/// other number.
pub assume_specification[ serde_json::Number::as_u64 ](number: &serde_json::Number) -> (r: Option<u64>)
    ensures
        match r {
            Some(n) => number_tree(*number) == NumberTree::Integer(n as int),
            None => match number_tree(*number) {
                NumberTree::Integer(n) => n < 0 || n > u64::MAX,
                NumberTree::Decimal(_) => true,
            },
        },
;

/// `serde_json::Number::as_i64` gives an integer from `i64::MIN` to `i64::MAX`, and `None`
/// for any other number.
pub assume_specification[ serde_json::Number::as_i64 ](number: &serde_json::Number) -> (r: Option<i64>)
    ensures
        match r {
            Some(n) => number_tree(*number) == NumberTree::Integer(n as int),
            None => match number_tree(*number) {
                NumberTree::Integer(n) => n < i64::MIN || n > i64::MAX,
                NumberTree::Decimal(_) => true,
            },
        },
;

/// The clone of a number is that number.
pub assume_specification[ <serde_json::Number as Clone>::clone ](number: &serde_json::Number) -> (r: serde_json::Number)
    ensures
        r == *number,
;

/// `Value::as_bool` gives the boolean in a value that is one.
pub assume_specification[ Value::as_bool ](value: &Value) -> (r: Option<bool>)
    ensures
        r == document(*value).as_bool(),
;

/// `Value::as_number` gives the number in a value that is one.
pub assume_specification[ Value::as_number ](value: &Value) -> (r: Option<&serde_json::Number>)
    ensures
        match r {
            Some(number) => document(*value) == Tree::Number(number_tree(*number)),
            None => !(document(*value) is Number),
        },
;

/// `Value::as_str` gives the text in a value that is one.
pub assume_specification[ Value::as_str ](value: &Value) -> (r: Option<&str>)
    ensures
        r.deep_view() == document(*value).as_text(),
;

/// `Value::as_array` gives the items of a value that is an array.
pub assume_specification[ Value::as_array ](value: &Value) -> (r: Option<&Vec<Value>>)
    ensures
        match r {
            Some(items) => document(*value) == Tree::Array(documents(items@)),
            None => !(document(*value) is Array),
        },
;

/// `Value::as_object` gives the members of a value that is an object.
pub assume_specification[ Value::as_object ](value: &Value) -> (r: Option<
    &serde_json::Map<String, Value>,
>)
    ensures
        match r {
            Some(map) => document(*value) == Tree::Object(entries(*map)),
            None => !(document(*value) is Object),
        },
;

/// `serde_json::Map::iter` walks each member of an object once; the order is left open here.
#[verifier::external_body]
fn map_members(map: &serde_json::Map<String, Value>) -> (r: Vec<(&String, &Value)>)
    ensures
        forall|i: int|
            #![trigger r@[i]]
            0 <= i < r@.len() ==> entries(*map).contains_key(r@[i].0@) && entries(*map)[r@[i].0@]
                == document(*r@[i].1),
        forall|name: Seq<char>| #[trigger]
            entries(*map).contains_key(name) ==> exists|i: int|
                0 <= i < r@.len() && #[trigger] r@[i].0@ == name,
{
    map.iter().collect()
}

proof fn lemma_members_inside(list: Seq<(Seq<char>, Tree)>, map: Map<Seq<char>, Tree>)
    requires
        forall|i: int|
            #![trigger list[i]]
            0 <= i < list.len() ==> map.contains_key(list[i].0) && map[list[i].0] == list[i].1,
    ensures
        forall|name: Seq<char>| #[trigger]
            json::members(list).contains_key(name) ==> map.contains_key(name) && map[name]
                == json::members(list)[name],
    decreases list.len(),
{
    if list.len() > 0 {
        assert forall|i: int| #![trigger list.drop_last()[i]] 0 <= i < list.drop_last().len() implies map.contains_key(
            list.drop_last()[i].0,
        ) && map[list.drop_last()[i].0] == list.drop_last()[i].1 by {
            assert(list[i] == list.drop_last()[i]);
        }
        lemma_members_inside(list.drop_last(), map);
        let last = list[list.len() - 1];
        assert(map.contains_key(last.0) && map[last.0] == last.1);
        assert forall|name: Seq<char>| #[trigger]
            json::members(list).contains_key(name) implies map.contains_key(name) && map[name]
            == json::members(list)[name] by {
            if name != last.0 {
                assert(json::members(list.drop_last()).contains_key(name));
            }
        }
    }
}

/// A list of members holds what a map holds, where each is in the other.
proof fn lemma_members(list: Seq<(Seq<char>, Tree)>, map: Map<Seq<char>, Tree>)
    requires
        forall|i: int|
            #![trigger list[i]]
            0 <= i < list.len() ==> map.contains_key(list[i].0) && map[list[i].0] == list[i].1,
        forall|name: Seq<char>| #[trigger]
            map.contains_key(name) ==> exists|i: int|
                0 <= i < list.len() && (#[trigger] list[i]).0 == name,
    ensures
        json::members(list) == map,
{
    lemma_members_inside(list, map);
    assert forall|name: Seq<char>| #[trigger] map.contains_key(name) implies json::members(
        list,
    ).contains_key(name) by {
        let i = choose|i: int| 0 <= i < list.len() && (#[trigger] list[i]).0 == name;
        json::lemma_member_named(list, i);
    }
    assert(json::members(list) =~= map);
}

/// A map is finite where each of its names is in a list.
proof fn lemma_members_finite(names: Seq<Seq<char>>, map: Map<Seq<char>, Tree>)
    requires
        forall|name: Seq<char>| #[trigger] map.contains_key(name) ==> names.contains(name),
    ensures
        map.dom().finite(),
{
    vstd::seq_lib::seq_to_set_is_finite(names);
    assert(map.dom().subset_of(names.to_set()));
    vstd::set_lib::lemma_len_subset(map.dom(), names.to_set());
}

/// What `value` holds, as plain data.
pub fn json_of(value: &Value) -> (r: Json)
    ensures
        r@ == document(*value),
    decreases document(*value), 1int,
{
    if let Some(b) = value.as_bool() {
        return Json::Bool(b);
    }
    if let Some(text) = value.as_str() {
        return Json::Text(text.to_owned());
    }
    if let Some(number) = value.as_number() {
        return if let Some(n) = number.as_u64() {
            Json::Unsigned(n)
        } else if let Some(n) = number.as_i64() {
            Json::Signed(n)
        } else {
            Json::Number(number.clone())
        };
    }
    if let Some(items) = value.as_array() {
        let mut list: Vec<Json> = Vec::new();
        let mut i: usize = 0;
        while i < items.len()
            invariant
                0 <= i <= items@.len(),
                list@.len() == i,
                document(*value) == Tree::Array(documents(items@)),
                forall|k: int| 0 <= k < i ==> (#[trigger] list@[k])@ == document(items@[k]),
            decreases items@.len() - i,
        {
            proof {
                let all = documents(items@);
                assert(all[i as int] == document(items@[i as int]));
                let whole = document(*value);
                assert(decreases_to!(whole => whole->Array_0));
                assert(decreases_to!(all => all[i as int]));
            }
            list.push(json_of(&items[i]));
            i += 1;
        }
        proof {
            json::lemma_array(list);
            assert(list.deep_view() =~= documents(items@));
        }
        return Json::Array(list);
    }
    if let Some(map) = value.as_object() {
        return object_of(map);
    }
    Json::Null
}

/// What `map` holds, as plain data.
pub fn object_of(map: &serde_json::Map<String, Value>) -> (r: Json)
    ensures
        r@ == Tree::Object(entries(*map)),
    decreases Tree::Object(entries(*map)), 0int,
{
    let found = map_members(map);
    proof {
        let names = Seq::new(found@.len(), |i: int| found@[i].0@);
        assert forall|name: Seq<char>| #[trigger] entries(*map).contains_key(name) implies names.contains(
            name,
        ) by {
            let i = choose|i: int| 0 <= i < found@.len() && #[trigger] found@[i].0@ == name;
            assert(names[i] == name);
        }
        lemma_members_finite(names, entries(*map));
    }
    let mut list: Vec<Member> = Vec::new();
    let mut i: usize = 0;
    while i < found.len()
        invariant
            0 <= i <= found@.len(),
            list@.len() == i,
            entries(*map).dom().finite(),
            forall|k: int|
                #![trigger found@[k]]
                0 <= k < found@.len() ==> entries(*map).contains_key(found@[k].0@)
                    && entries(*map)[found@[k].0@] == document(*found@[k].1),
            forall|k: int|
                0 <= k < i ==> (#[trigger] list@[k]).name@ == found@[k].0@ && list@[k].value@
                    == document(*found@[k].1),
        decreases found@.len() - i,
    {
        let (name, value) = found[i];
        proof {
            let all = entries(*map);
            assert(all.contains_key(found@[i as int].0@));
            let whole = Tree::Object(all);
            assert(decreases_to!(whole => whole->Object_0));
            assert(decreases_to!(all => all[found@[i as int].0@]));
        }
        list.push(Member { name: name.clone(), value: json_of(value) });
        i += 1;
    }
    proof {
        json::lemma_object(list);
        let all = json::list_view(list@);
        assert forall|name: Seq<char>| #[trigger] entries(*map).contains_key(name) implies exists|
            k: int,
        | 0 <= k < all.len() && (#[trigger] all[k]).0 == name by {
            let k = choose|k: int| 0 <= k < found@.len() && #[trigger] found@[k].0@ == name;
            assert(all[k].0 == name);
        }
        lemma_members(all, entries(*map));
    }
    Json::Object(list)
}

/// The `null` of the JSON crate.
#[verifier::external_body]
fn null_value() -> (r: Value)
    ensures
        document(r) == Tree::Null,
{
    Value::Null
}

/// `Value::Bool` holds the boolean that it is made of.
#[verifier::external_body]
fn bool_value(b: bool) -> (r: Value)
    ensures
        document(r) == Tree::Bool(b),
{
    Value::Bool(b)
}

/// `Value::Number` holds the number that it is made of.
#[verifier::external_body]
fn number_value(number: serde_json::Number) -> (r: Value)
    ensures
        document(r) == Tree::Number(number_tree(number)),
{
    Value::Number(number)
}

/// A `u64` becomes the number that is that integer.
#[verifier::external_body]
fn unsigned_number(n: u64) -> (r: serde_json::Number)
    ensures
        number_tree(r) == NumberTree::Integer(n as int),
{
    serde_json::Number::from(n)
}

/// An `i64` becomes the number that is that integer.
#[verifier::external_body]
fn signed_number(n: i64) -> (r: serde_json::Number)
    ensures
        number_tree(r) == NumberTree::Integer(n as int),
{
    serde_json::Number::from(n)
}

/// `Value::String` holds the text that it is made of.
#[verifier::external_body]
fn text_value(text: String) -> (r: Value)
    ensures
        document(r) == Tree::Text(text@),
{
    Value::String(text)
}

/// `Value::Array` holds the values that it is made of, in their order.
#[verifier::external_body]
fn array_value(items: Vec<Value>) -> (r: Value)
    ensures
        document(r) == Tree::Array(documents(items@)),
{
    Value::Array(items)
}

/// `Value::Object` holds the members that it is made of.
#[verifier::external_body]
fn object_value(map: serde_json::Map<String, Value>) -> (r: Value)
    ensures
        document(r) == Tree::Object(entries(map)),
{
    Value::Object(map)
}

/// `serde_json::Map::new` makes an object without members.
#[verifier::external_body]
fn new_map() -> (r: serde_json::Map<String, Value>)
    ensures
        entries(r) == json::members(Seq::empty()),
{
    serde_json::Map::new()
}

/// `serde_json::Map::insert` puts a member in, in place of one of the same name.
#[verifier::external_body]
fn map_insert(map: &mut serde_json::Map<String, Value>, name: String, value: Value)
    ensures
        entries(*final(map)) == entries(*old(map)).insert(name@, document(value)),
{
    map.insert(name, value);
}

/// The JSON crate's value for `json`.
pub fn value_of(json: &Json) -> (r: Value)
    ensures
        document(r) == json@,
    decreases json,
{
    match json {
        Json::Null => null_value(),
        Json::Bool(b) => bool_value(*b),
        Json::Unsigned(n) => number_value(unsigned_number(*n)),
        Json::Signed(n) => number_value(signed_number(*n)),
        Json::Number(number) => number_value(number.clone()),
        Json::Text(text) => text_value(text.clone()),
        Json::Array(items) => {
            let mut values: Vec<Value> = Vec::new();
            let mut i: usize = 0;
            while i < items.len()
                invariant
                    json == Json::Array(*items),
                    0 <= i <= items@.len(),
                    values@.len() == i,
                    forall|k: int|
                        0 <= k < i ==> document(#[trigger] values@[k]) == items@[k]@,
                decreases items@.len() - i,
            {
                proof {
                    assert(decreases_to!(json => json->Array_0));
                    assert(decreases_to!(items => items@));
                    assert(decreases_to!(items@ => items@[i as int]));
                }
                values.push(value_of(&items[i]));
                i += 1;
            }
            proof {
                json::lemma_array(*items);
                assert(documents(values@) =~= items.deep_view());
            }
            array_value(values)
        },
        Json::Object(list) => {
            proof {
                assert(decreases_to!(json => json->Object_0));
            }
            object_value(map_of(list))
        },
    }
}

/// The JSON crate's object for a list of members.
pub fn map_of(list: &Vec<Member>) -> (r: serde_json::Map<String, Value>)
    ensures
        entries(r) == Json::map(list@),
    decreases list,
{
    let mut map = new_map();
    let mut i: usize = 0;
    proof {
        assert(list@.take(0) =~= Seq::empty());
    }
    while i < list.len()
        invariant
            0 <= i <= list@.len(),
            entries(map) == Json::map(list@.take(i as int)),
        decreases list@.len() - i,
    {
        let member = &list[i];
        proof {
            assert(decreases_to!(list => list@));
            assert(decreases_to!(list@ => list@[i as int]));
            assert(decreases_to!(member => member.value));
        }
        map_insert(&mut map, member.name.clone(), value_of(&member.value));
        proof {
            assert(list@.take(i + 1).drop_last() =~= list@.take(i as int));
        }
        i += 1;
    }
    proof {
        assert(list@.take(i as int) =~= list@);
    }
    map
}

/// What the JSON crate reads in a text; `None` where the text is no JSON value.
pub uninterp spec fn parsed(text: Seq<char>) -> Option<Tree>;

/// `serde_json::from_str` reads a text as one JSON value, or refuses it.
#[verifier::external_body]
fn parse_value(text: &str) -> (r: Option<Value>)
    ensures
        match r {
            Some(value) => parsed(text@) == Some(document(value)),
            None => parsed(text@) is None,
        },
{
    serde_json::from_str(text).ok()
}

/// The compact text that the JSON crate writes for a value, in bytes.
pub uninterp spec fn compact(tree: Tree) -> Seq<u8>;

/// The byte that ends a line.
pub const NEWLINE: u8 = 10;

/// `serde_json::to_vec` writes any value of the JSON crate. What it writes has no line
/// break: nothing is put between two tokens, and a line break in a text is escaped.
#[verifier::external_body]
fn value_bytes(value: &Value) -> (r: Option<Vec<u8>>)
    ensures
        match r {
            Some(bytes) => bytes@ == compact(document(*value)) && !bytes@.contains(NEWLINE),
            None => false,
        },
{
    serde_json::to_vec(value).ok()
}

/// The message in a line: none where the line is blank or holds no JSON value.
pub open spec fn message(line: Seq<char>) -> Option<Tree> {
    if text::trimmed(line).len() == 0 {
        None
    } else {
        parsed(line)
    }
}

/// Whether a line holds nothing but white space.
pub fn is_blank(line: &str) -> (r: bool)
    ensures
        r == (text::trimmed(line@).len() == 0),
{
    line.trim().is_empty()
}

/// Reads a line as a message; `None` where the line is to be passed over.
pub fn decode_line(line: &str) -> (r: Option<Json>)
    ensures
        r.deep_view() == message(line@),
{
    if is_blank(line) {
        return None;
    }
    match parse_value(line) {
        Some(value) => Some(json_of(&value)),
        None => None,
    }
}

/// `bytes` as a line of its own.
pub fn end_line(bytes: Vec<u8>) -> (r: Vec<u8>)
    ensures
        r@ == bytes@.push(NEWLINE),
{
    let mut line = bytes;
    line.push(NEWLINE);
    line
}

/// Writes a message as a line of its own.
pub fn encode_line(json: &Json) -> (r: Vec<u8>)
    ensures
        r@ == compact(json@).push(NEWLINE),
        !compact(json@).contains(NEWLINE),
{
    let value = value_of(json);
    match value_bytes(&value) {
        Some(bytes) => end_line(bytes),
        None => Vec::new(),
    }
}

/// A line is passed over exactly where it is all white space or the JSON crate refuses it, and
/// is otherwise the message that the JSON crate reads in the whole of it. A line ends with the
/// line feed.
pub proof fn law_lines_are_messages(line: Seq<char>)
    ensures
        text::all_white(line) ==> message(line) is None,
        !text::all_white(line) ==> message(line) == parsed(line),
        NEWLINE == 10,
{
    text::law_trimming_takes_white_space_alone(line);
}

} // verus!
