//! JSON values: what a value means, and how it is read and built.

use vstd::prelude::*;

use crate::codec;
use crate::text::same_text;

verus! {

/// A number in a JSON value: an integer, or else the text that it is written as.
pub enum NumberTree {
    Integer(int),
    Decimal(Seq<char>),
}

/// What a JSON value means. An object is a map from names to values: the order of its
/// members has no meaning.
pub enum Tree {
    Null,
    Bool(bool),
    Number(NumberTree),
    Text(Seq<char>),
    Array(Seq<Tree>),
    Object(Map<Seq<char>, Tree>),
}

/// The map that holds each member of a list, where a later member replaces an earlier one
/// of the same name.
pub open spec fn members(list: Seq<(Seq<char>, Tree)>) -> Map<Seq<char>, Tree>
    decreases list.len(),
{
    if list.len() == 0 {
        Map::empty()
    } else {
        members(list.drop_last()).insert(list.last().0, list.last().1)
    }
}

/// The object with the given members.
pub open spec fn object(list: Seq<(Seq<char>, Tree)>) -> Tree {
    Tree::Object(members(list))
}

impl Tree {
    /// The object without members.
    pub open spec fn empty() -> Tree {
        Tree::Object(Map::empty())
    }

    /// The object with one member more, in place of one of the same name. A value that is
    /// no object stays as it is.
    pub open spec fn with(self, name: Seq<char>, value: Tree) -> Tree {
        match self {
            Tree::Object(map) => Tree::Object(map.insert(name, value)),
            other => other,
        }
    }

    /// The member `name`, where the value is an object that has it.
    pub open spec fn get(self, name: Seq<char>) -> Option<Tree> {
        match self {
            Tree::Object(map) => if map.contains_key(name) {
                Some(map[name])
            } else {
                None
            },
            _ => None,
        }
    }

    /// The text, where the value is one.
    pub open spec fn as_text(self) -> Option<Seq<char>> {
        match self {
            Tree::Text(text) => Some(text),
            _ => None,
        }
    }

    /// The boolean, where the value is one.
    pub open spec fn as_bool(self) -> Option<bool> {
        match self {
            Tree::Bool(b) => Some(b),
            _ => None,
        }
    }

    /// The items, where the value is an array.
    pub open spec fn as_array(self) -> Option<Seq<Tree>> {
        match self {
            Tree::Array(items) => Some(items),
            _ => None,
        }
    }

    /// The integer, where the value is one from 0 to `u64::MAX`.
    pub open spec fn as_u64(self) -> Option<u64> {
        match self {
            Tree::Number(NumberTree::Integer(n)) => if 0 <= n <= u64::MAX {
                Some(n as u64)
            } else {
                None
            },
            _ => None,
        }
    }

    /// The integer, where the value is one from `i64::MIN` to `i64::MAX`.
    pub open spec fn as_i64(self) -> Option<i64> {
        match self {
            Tree::Number(NumberTree::Integer(n)) => if i64::MIN <= n <= i64::MAX {
                Some(n as i64)
            } else {
                None
            },
            _ => None,
        }
    }
}

/// The integer `n`.
pub open spec fn integer(n: int) -> Tree {
    Tree::Number(NumberTree::Integer(n))
}

/// The member `name` of what was found, if anything was.
pub open spec fn at(found: Option<Tree>, name: Seq<char>) -> Option<Tree> {
    match found {
        Some(tree) => tree.get(name),
        None => None,
    }
}

/// The text that was found, if one was.
pub open spec fn text_of(found: Option<Tree>) -> Option<Seq<char>> {
    match found {
        Some(tree) => tree.as_text(),
        None => None,
    }
}

/// The text that was found, or else `other`.
pub open spec fn text_or(found: Option<Tree>, other: Seq<char>) -> Seq<char> {
    match text_of(found) {
        Some(text) => text,
        None => other,
    }
}

/// Whether the boolean `true` was found.
pub open spec fn is_true(found: Option<Tree>) -> bool {
    match found {
        Some(tree) => tree.as_bool() == Some(true),
        None => false,
    }
}

/// The items of the array that was found: none where no array was.
pub open spec fn items_of(found: Option<Tree>) -> Seq<Tree> {
    match found {
        Some(Tree::Array(items)) => items,
        _ => Seq::empty(),
    }
}

/// The array of the given texts.
pub open spec fn texts(list: Seq<Seq<char>>) -> Tree {
    Tree::Array(Seq::new(list.len(), |i: int| Tree::Text(list[i])))
}

/// The text, or `null` where there is none.
pub open spec fn text_or_null(text: Option<Seq<char>>) -> Tree {
    match text {
        Some(text) => Tree::Text(text),
        None => Tree::Null,
    }
}

/// A JSON value.
pub enum Json {
    Null,
    Bool(bool),
    Unsigned(u64),
    Signed(i64),
    /// A number as the JSON crate holds it, which keeps decimals exactly.
    Number(serde_json::Number),
    Text(String),
    Array(Vec<Json>),
    /// The members of an object. Of two with the same name the later one counts.
    Object(Vec<Member>),
}

/// A member of an object.
pub struct Member {
    pub name: String,
    pub value: Json,
}

impl Json {
    /// What the value means.
    pub open spec fn tree(self) -> Tree
        decreases self,
    {
        match self {
            Json::Null => Tree::Null,
            Json::Bool(b) => Tree::Bool(b),
            Json::Unsigned(n) => Tree::Number(NumberTree::Integer(n as int)),
            Json::Signed(n) => Tree::Number(NumberTree::Integer(n as int)),
            Json::Number(number) => Tree::Number(codec::number_tree(number)),
            Json::Text(text) => Tree::Text(text@),
            Json::Array(items) => Tree::Array(
                Seq::new(
                    items@.len(),
                    |i: int|
                        if 0 <= i < items@.len() {
                            items@[i].tree()
                        } else {
                            Tree::Null
                        },
                ),
            ),
            Json::Object(list) => Tree::Object(Json::map(list@)),
        }
    }

    /// The map that a list of members makes.
    pub open spec fn map(list: Seq<Member>) -> Map<Seq<char>, Tree>
        decreases list,
    {
        if list.len() == 0 {
            Map::empty()
        } else {
            Json::map(list.drop_last()).insert(list.last().name@, list.last().value.tree())
        }
    }
}

/// What each member of a list means.
pub open spec fn list_view(list: Seq<Member>) -> Seq<(Seq<char>, Tree)> {
    Seq::new(list.len(), |i: int| (list[i].name@, list[i].value@))
}

/// An array means the sequence of what its items mean.
pub broadcast proof fn lemma_array(items: Vec<Json>)
    ensures
        #[trigger] Json::Array(items).tree() == Tree::Array(items.deep_view()),
{
    assert(Json::Array(items).tree()->Array_0 =~= items.deep_view());
}

/// An object means what its members mean.
pub broadcast proof fn lemma_object(list: Vec<Member>)
    ensures
        #[trigger] Json::Object(list).tree() == object(list_view(list@)),
{
    lemma_map(list@);
}

proof fn lemma_map(list: Seq<Member>)
    ensures
        Json::map(list) == members(list_view(list)),
    decreases list.len(),
{
    if list.len() > 0 {
        lemma_map(list.drop_last());
        assert(list_view(list).drop_last() =~= list_view(list.drop_last()));
    }
}

/// A list of members has a member of each name in it.
pub proof fn lemma_member_named(list: Seq<(Seq<char>, Tree)>, i: int)
    requires
        0 <= i < list.len(),
    ensures
        members(list).contains_key(list[i].0),
    decreases list.len(),
{
    if i < list.len() - 1 {
        assert(list.drop_last()[i] == list[i]);
        lemma_member_named(list.drop_last(), i);
    }
}

impl View for Json {
    type V = Tree;

    open spec fn view(&self) -> Tree {
        self.tree()
    }
}

impl DeepView for Json {
    type V = Tree;

    open spec fn deep_view(&self) -> Tree {
        self.tree()
    }
}

/// `list`, looked up for `name`: the last member of that name.
proof fn lemma_lookup(list: Seq<(Seq<char>, Tree)>, i: int)
    requires
        0 <= i < list.len(),
        forall|k: int| i < k < list.len() ==> (#[trigger] list[k]).0 != list[i].0,
    ensures
        members(list).contains_key(list[i].0),
        members(list)[list[i].0] == list[i].1,
    decreases list.len(),
{
    if i < list.len() - 1 {
        let front = list.drop_last();
        assert(list[list.len() - 1].0 != list[i].0);
        assert forall|k: int| i < k < front.len() implies (#[trigger] front[k]).0 != front[i].0 by {
            assert(list[k].0 != list[i].0);
        }
        lemma_lookup(front, i);
    }
}

proof fn lemma_no_lookup(list: Seq<(Seq<char>, Tree)>, name: Seq<char>)
    requires
        forall|k: int| 0 <= k < list.len() ==> (#[trigger] list[k]).0 != name,
    ensures
        !members(list).contains_key(name),
    decreases list.len(),
{
    if list.len() > 0 {
        let front = list.drop_last();
        assert(list[list.len() - 1].0 != name);
        assert forall|k: int| 0 <= k < front.len() implies (#[trigger] front[k]).0 != name by {
            assert(list[k].0 != name);
        }
        lemma_no_lookup(front, name);
    }
}

impl Json {
    /// The member `name`, where the value is an object that has it.
    pub fn get(&self, name: &str) -> (r: Option<&Json>)
        ensures
            r.deep_view() == self@.get(name@),
    {
        match self {
            Json::Object(list) => {
                proof {
                    lemma_object(*list);
                }
                let ghost all = list_view(list@);
                let mut i: usize = list.len();
                while i > 0
                    invariant
                        0 <= i <= list@.len(),
                        all == list_view(list@),
                        self@ == object(all),
                        forall|k: int| i <= k < list@.len() ==> (#[trigger] all[k]).0 != name@,
                    decreases i,
                {
                    i -= 1;
                    assert(all[i as int].0 == list@[i as int].name@);
                    if same_text(list[i].name.as_str(), name) {
                        proof {
                            lemma_lookup(all, i as int);
                        }
                        return Some(&list[i].value);
                    }
                }
                proof {
                    lemma_no_lookup(all, name@);
                }
                None
            },
            _ => None,
        }
    }

    /// The text, where the value is one.
    pub fn as_str(&self) -> (r: Option<&str>)
        ensures
            r.deep_view() == self@.as_text(),
    {
        match self {
            Json::Text(text) => Some(text.as_str()),
            _ => None,
        }
    }

    /// The boolean, where the value is one.
    pub fn as_bool(&self) -> (r: Option<bool>)
        ensures
            r == self@.as_bool(),
    {
        match self {
            Json::Bool(b) => Some(*b),
            _ => None,
        }
    }

    /// The integer, where the value is one from 0 to `u64::MAX`.
    pub fn as_u64(&self) -> (r: Option<u64>)
        ensures
            r == self@.as_u64(),
    {
        match self {
            Json::Unsigned(n) => Some(*n),
            Json::Signed(n) => if *n >= 0 {
                Some(*n as u64)
            } else {
                None
            },
            Json::Number(number) => number.as_u64(),
            _ => None,
        }
    }

    /// The integer, where the value is one from `i64::MIN` to `i64::MAX`.
    pub fn as_i64(&self) -> (r: Option<i64>)
        ensures
            r == self@.as_i64(),
    {
        match self {
            Json::Unsigned(n) => if *n <= i64::MAX as u64 {
                Some(*n as i64)
            } else {
                None
            },
            Json::Signed(n) => Some(*n),
            Json::Number(number) => number.as_i64(),
            _ => None,
        }
    }

    /// The items, where the value is an array.
    pub fn as_array(&self) -> (r: Option<&Vec<Json>>)
        ensures
            r.deep_view() == self@.as_array(),
    {
        match self {
            Json::Array(items) => {
                proof {
                    lemma_array(*items);
                }
                Some(items)
            },
            _ => None,
        }
    }

    /// Whether the value is `null`.
    pub fn is_null(&self) -> (r: bool)
        ensures
            r == (self@ == Tree::Null),
    {
        match self {
            Json::Null => true,
            _ => false,
        }
    }

    /// A value of its own with the same meaning.
    pub fn copy(&self) -> (r: Json)
        ensures
            r@ == self@,
        decreases self,
    {
        match self {
            Json::Null => Json::Null,
            Json::Bool(b) => Json::Bool(*b),
            Json::Unsigned(n) => Json::Unsigned(*n),
            Json::Signed(n) => Json::Signed(*n),
            Json::Number(number) => Json::Number(number.clone()),
            Json::Text(text) => Json::Text(text.clone()),
            Json::Array(items) => {
                let mut copies: Vec<Json> = Vec::new();
                let mut i: usize = 0;
                while i < items.len()
                    invariant
                        self == Json::Array(*items),
                        0 <= i <= items@.len(),
                        copies@.len() == i,
                        forall|k: int| 0 <= k < i ==> (#[trigger] copies@[k])@ == items@[k]@,
                    decreases items@.len() - i,
                {
                    proof {
                        assert(decreases_to!(self => self->Array_0));
                        assert(decreases_to!(items => items@));
                        assert(decreases_to!(items@ => items@[i as int]));
                    }
                    copies.push(items[i].copy());
                    i += 1;
                }
                proof {
                    lemma_array(*items);
                    lemma_array(copies);
                    assert(copies.deep_view() =~= items.deep_view());
                }
                Json::Array(copies)
            },
            Json::Object(list) => {
                let mut copies: Vec<Member> = Vec::new();
                let mut i: usize = 0;
                while i < list.len()
                    invariant
                        self == Json::Object(*list),
                        0 <= i <= list@.len(),
                        copies@.len() == i,
                        forall|k: int|
                            0 <= k < i ==> (#[trigger] copies@[k]).name@ == list@[k].name@
                                && copies@[k].value@ == list@[k].value@,
                    decreases list@.len() - i,
                {
                    let member = &list[i];
                    proof {
                        assert(decreases_to!(self => self->Object_0));
                        assert(decreases_to!(list => list@));
                        assert(decreases_to!(list@ => list@[i as int]));
                        assert(decreases_to!(member => member.value));
                    }
                    copies.push(Member { name: member.name.clone(), value: member.value.copy() });
                    i += 1;
                }
                proof {
                    lemma_object(*list);
                    lemma_object(copies);
                    assert(list_view(copies@) =~= list_view(list@));
                }
                Json::Object(copies)
            },
        }
    }

    /// The text `text`.
    pub fn text(text: &str) -> (r: Json)
        ensures
            r@ == Tree::Text(text@),
    {
        Json::Text(text.to_owned())
    }

    /// The text, or `null` where there is none.
    pub fn text_or_null(text: Option<&str>) -> (r: Json)
        ensures
            r@ == text_or_null(text.deep_view()),
    {
        match text {
            Some(text) => Json::text(text),
            None => Json::Null,
        }
    }

    /// The array of the given texts.
    pub fn texts(list: &Vec<String>) -> (r: Json)
        ensures
            r@ == texts(list.deep_view()),
    {
        let mut items: Vec<Json> = Vec::new();
        let mut i: usize = 0;
        while i < list.len()
            invariant
                0 <= i <= list@.len(),
                items@.len() == i,
                forall|k: int|
                    0 <= k < i ==> (#[trigger] items@[k])@ == Tree::Text(list@[k]@),
            decreases list@.len() - i,
        {
            items.push(Json::text(list[i].as_str()));
            i += 1;
        }
        proof {
            lemma_array(items);
            assert(items.deep_view() =~= texts(list.deep_view())->Array_0);
        }
        Json::Array(items)
    }

    /// The object without members.
    pub fn object() -> (r: Json)
        ensures
            r@ == Tree::empty(),
    {
        let list: Vec<Member> = Vec::new();
        assert(Json::map(list@) == Map::<Seq<char>, Tree>::empty());
        Json::Object(list)
    }

    /// The object with one member more, in place of one of the same name. A value that is no
    /// object stays as it is.
    pub fn with(self, name: &str, value: Json) -> (r: Json)
        ensures
            r@ == self@.with(name@, value@),
    {
        match self {
            Json::Object(members) => {
                let mut list = members;
                list.push(Member { name: name.to_owned(), value });
                proof {
                    assert(list@.drop_last() =~= members@);
                    assert(Json::map(list@) == Json::map(members@).insert(name@, value@));
                }
                Json::Object(list)
            },
            other => other,
        }
    }

    /// The object with one member more, whose value is a text.
    pub fn with_text(self, name: &str, text: &str) -> (r: Json)
        ensures
            r@ == self@.with(name@, Tree::Text(text@)),
    {
        self.with(name, Json::text(text))
    }
}

/// The member `name` of what was found, if anything was.
pub fn get_in<'a>(found: Option<&'a Json>, name: &str) -> (r: Option<&'a Json>)
    ensures
        r.deep_view() == at(found.deep_view(), name@),
{
    match found {
        Some(json) => json.get(name),
        None => None,
    }
}

/// The text that was found, if one was.
pub fn str_in<'a>(found: Option<&'a Json>) -> (r: Option<&'a str>)
    ensures
        r.deep_view() == text_of(found.deep_view()),
{
    match found {
        Some(json) => json.as_str(),
        None => None,
    }
}

/// The text that was found, or else `other`.
pub fn str_in_or<'a>(found: Option<&'a Json>, other: &'a str) -> (r: &'a str)
    ensures
        r@ == text_or(found.deep_view(), other@),
{
    match str_in(found) {
        Some(text) => text,
        None => other,
    }
}

/// Whether the boolean `true` was found.
pub fn true_in(found: Option<&Json>) -> (r: bool)
    ensures
        r == is_true(found.deep_view()),
{
    match found {
        Some(json) => match json.as_bool() {
            Some(b) => b,
            None => false,
        },
        None => false,
    }
}

/// The items of the array that was found, if one was.
pub fn array_in<'a>(found: Option<&'a Json>) -> (r: Option<&'a Vec<Json>>)
    ensures
        match r {
            Some(items) => items.deep_view() == items_of(found.deep_view()),
            None => items_of(found.deep_view()) == Seq::<Tree>::empty(),
        },
{
    match found {
        Some(json) => json.as_array(),
        None => None,
    }
}

/// A member that is put in is found under its name, and no other member is touched; nothing is
/// found in what is no object, or in an object that nothing was put in.
pub proof fn law_members_are_found_by_name(
    tree: Tree,
    name: Seq<char>,
    value: Tree,
    other: Seq<char>,
)
    ensures
        tree is Object ==> tree.with(name, value).get(name) == Some(value),
        other != name ==> tree.with(name, value).get(other) == tree.get(other),
        tree is Object <==> tree.with(name, value) is Object,
        !(tree is Object) ==> tree.with(name, value) == tree && tree.get(name) is None,
        Tree::empty() is Object,
        Tree::empty().get(name) is None,
        tree matches Tree::Object(map) ==> (tree.get(name) is Some <==> map.contains_key(name)),
        tree matches Tree::Object(map) ==> (tree.get(name) matches Some(found) ==> found
            == map[name]),
        at(Some(tree), name) == tree.get(name),
        at(None, name) is None,
{
}

/// A value is read as what it is and as nothing else: texts, booleans and arrays as they are,
/// integers where they fit.
pub proof fn law_values_are_read_as_what_they_are(tree: Tree, n: int)
    ensures
        match tree {
            Tree::Text(text) => tree.as_text() == Some(text),
            _ => tree.as_text() is None,
        },
        match tree {
            Tree::Bool(b) => tree.as_bool() == Some(b),
            _ => tree.as_bool() is None,
        },
        match tree {
            Tree::Array(items) => tree.as_array() == Some(items),
            _ => tree.as_array() is None,
        },
        !(tree is Number) ==> tree.as_u64() is None && tree.as_i64() is None,
        tree matches Tree::Number(NumberTree::Decimal(_)) ==> tree.as_u64() is None
            && tree.as_i64() is None,
        tree matches Tree::Number(NumberTree::Integer(m)) ==> tree == integer(m),
        0 <= n <= u64::MAX ==> integer(n).as_u64() == Some(n as u64),
        !(0 <= n <= u64::MAX) ==> integer(n).as_u64() is None,
        i64::MIN <= n <= i64::MAX ==> integer(n).as_i64() == Some(n as i64),
        !(i64::MIN <= n <= i64::MAX) ==> integer(n).as_i64() is None,
        integer(n) == Tree::Number(NumberTree::Integer(n)),
{
}

/// What was found is read as it is, and nothing is made up where nothing was found: a text
/// counts as one, `true` counts as true, an array counts as its items, and all else as
/// nothing.
pub proof fn law_findings_are_read_as_what_they_are(
    found: Option<Tree>,
    other: Seq<char>,
    list: Seq<Seq<char>>,
)
    ensures
        match found {
            Some(Tree::Text(text)) => text_of(found) == Some(text) && text_or(found, other) == text,
            _ => text_of(found) is None && text_or(found, other) == other,
        },
        is_true(found) <==> found == Some(Tree::Bool(true)),
        match found {
            Some(Tree::Array(items)) => items_of(found) == items,
            _ => items_of(found).len() == 0,
        },
        texts(list) matches Tree::Array(items) && items.len() == list.len() && forall|i: int|
            0 <= i < list.len() ==> #[trigger] items[i] == Tree::Text(list[i]),
        text_or_null(Some(other)) == Tree::Text(other),
        text_or_null(None) == Tree::Null,
{
}

/// A value in memory means what it holds: each of its parts as it is, an array its items in
/// order, and an object the last value under each name.
pub proof fn law_values_mean_what_they_hold(
    b: bool,
    n: u64,
    m: i64,
    text: String,
    items: Vec<Json>,
    list: Vec<Member>,
    i: int,
    name: Seq<char>,
)
    ensures
        Json::Null@ == Tree::Null,
        Json::Bool(b)@ == Tree::Bool(b),
        Json::Unsigned(n)@ == integer(n as int),
        Json::Signed(m)@ == integer(m as int),
        Json::Text(text)@ == Tree::Text(text@),
        Json::Array(items)@ matches Tree::Array(trees) && trees.len() == items@.len() && (0 <= i
            < trees.len() ==> trees[i] == items@[i]@),
        Json::Object(list)@ is Object,
        0 <= i < list@.len() && (forall|k: int|
            i < k < list@.len() ==> (#[trigger] list@[k]).name@ != list@[i].name@)
            ==> Json::Object(list)@.get(list@[i].name@) == Some(list@[i].value@),
        (forall|k: int| 0 <= k < list@.len() ==> (#[trigger] list@[k]).name@ != name)
            ==> Json::Object(list)@.get(name) is None,
{
    lemma_object(list);
    let all = list_view(list@);
    if forall|k: int| 0 <= k < list@.len() ==> (#[trigger] list@[k]).name@ != name {
        assert forall|k: int| 0 <= k < all.len() implies (#[trigger] all[k]).0 != name by {
            assert(list@[k].name@ != name);
        }
        lemma_no_lookup(all, name);
    }
    if 0 <= i < list@.len() && (forall|k: int|
        i < k < list@.len() ==> (#[trigger] list@[k]).name@ != list@[i].name@) {
        assert forall|k: int| i < k < all.len() implies (#[trigger] all[k]).0 != all[i].0 by {
            assert(list@[k].name@ != list@[i].name@);
        }
        lemma_lookup(all, i);
    }
}

} // verus!
