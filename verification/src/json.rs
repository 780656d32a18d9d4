//! JSON values as the library sees them.
//!
//! Parsing and printing are `serde_json`'s work. The library holds a parsed
//! value as a tree of its own, so that what it reads from a reply and what it
//! puts into a request can be stated.

use vstd::prelude::*;

verus! {

/// A JSON value.
#[derive(Debug, PartialEq, Eq)]
pub enum Json {
    Null,
    Bool(bool),
    /// A number, held as the text that `serde_json` prints for it.
    Number(String),
    Text(String),
    List(Vec<Json>),
    /// The members of an object, in the order in which they are walked.
    Object(Vec<Member>),
}

/// One member of a JSON object.
#[derive(Debug, PartialEq, Eq)]
pub struct Member {
    pub key: String,
    pub value: Json,
}

/// The mathematical value of a [`Json`].
pub enum JsonTree {
    Null,
    Bool(bool),
    Number(Seq<char>),
    Text(Seq<char>),
    List(Seq<JsonTree>),
    Object(Seq<MemberTree>),
}

/// The mathematical value of a [`Member`].
pub struct MemberTree {
    pub key: Seq<char>,
    pub value: JsonTree,
}

impl View for Member {
    type V = MemberTree;

    open spec fn view(&self) -> MemberTree {
        MemberTree { key: self.key@, value: self.value@ }
    }
}

/// The value of the first of `members` whose key is `key`.
pub open spec fn find_member(members: Seq<MemberTree>, key: Seq<char>) -> Option<JsonTree>
    decreases members.len(),
{
    if members.len() == 0 {
        None
    } else if members.first().key == key {
        Some(members.first().value)
    } else {
        find_member(members.drop_first(), key)
    }
}

impl JsonTree {
    /// The text of a string value.
    pub open spec fn text(self) -> Option<Seq<char>> {
        match self {
            JsonTree::Text(s) => Some(s),
            _ => None,
        }
    }

    /// The items of a list.
    pub open spec fn list(self) -> Option<Seq<JsonTree>> {
        match self {
            JsonTree::List(items) => Some(items),
            _ => None,
        }
    }

    /// The digits of a number.
    pub open spec fn number(self) -> Option<Seq<char>> {
        match self {
            JsonTree::Number(n) => Some(n),
            _ => None,
        }
    }

    /// The value that an object holds under `key`.
    pub open spec fn member(self, key: Seq<char>) -> Option<JsonTree> {
        match self {
            JsonTree::Object(members) => find_member(members, key),
            _ => None,
        }
    }

    /// Whether a number occurs anywhere in the value.
    pub open spec fn has_number(self) -> bool
        decreases self,
    {
        match self {
            JsonTree::Number(_) => true,
            JsonTree::List(items) => exists|i: int|
                0 <= i < items.len() && (#[trigger] items[i]).has_number(),
            JsonTree::Object(members) => exists|i: int|
                0 <= i < members.len() && (#[trigger] members[i]).value.has_number(),
            _ => false,
        }
    }
}

impl View for Json {
    type V = JsonTree;

    open spec fn view(&self) -> JsonTree
        decreases self,
    {
        match self {
            Json::Null => JsonTree::Null,
            Json::Bool(b) => JsonTree::Bool(*b),
            Json::Number(n) => JsonTree::Number(n@),
            Json::Text(s) => JsonTree::Text(s@),
            Json::List(items) => JsonTree::List(
                Seq::new(
                    items@.len(),
                    |i: int|
                        if 0 <= i < items@.len() {
                            items@[i]@
                        } else {
                            JsonTree::Null
                        },
                ),
            ),
            Json::Object(members) => JsonTree::Object(
                Seq::new(
                    members@.len(),
                    |i: int|
                        if 0 <= i < members@.len() {
                            MemberTree { key: members@[i].key@, value: members@[i].value@ }
                        } else {
                            MemberTree { key: Seq::empty(), value: JsonTree::Null }
                        },
                ),
            ),
        }
    }
}

/// The value of a list is the list of the values of its items.
pub proof fn lemma_view_of_list(j: Json)
    requires
        j is List,
    ensures
        j@ is List,
        j@->List_0.len() == j->List_0@.len(),
        forall|i: int| 0 <= i < j->List_0@.len() ==> j@->List_0[i] == (#[trigger] j->List_0@[i])@,
{
}

/// The value of an object holds, member by member, the key and the value of
/// what the object holds.
pub proof fn lemma_view_of_object(j: Json)
    requires
        j is Object,
    ensures
        j@ is Object,
        j@->Object_0.len() == j->Object_0@.len(),
        forall|i: int|
            0 <= i < j->Object_0@.len() ==> j@->Object_0[i] == (MemberTree {
                key: (#[trigger] j->Object_0@[i]).key@,
                value: j->Object_0@[i].value@,
            }),
{
}

/// What `serde_json` makes of `bytes`: the value that they spell, or nothing
/// where they are not one JSON text.
pub uninterp spec fn json_parse(bytes: Seq<u8>) -> Option<JsonTree>;

/// What `serde_json` prints for `tree`, in its compact form. A tree with a
/// number whose digits are no JSON number has no text.
pub uninterp spec fn json_text(tree: JsonTree) -> Option<Seq<char>>;

/// `serde_json::Value`, carried between the parser, the printer and the
/// library's own tree; nothing is known of what it holds.
#[verifier::external_type_specification]
#[verifier::external_body]
pub struct ExValue(serde_json::Value);

/// Copies a `serde_json::Value` into a [`Json`], variant by variant. A number
/// is taken as the text that `serde_json::Number` displays.
#[verifier::external_body]
fn from_value(value: &serde_json::Value) -> Json {
    match value {
        serde_json::Value::Null => Json::Null,
        serde_json::Value::Bool(b) => Json::Bool(*b),
        serde_json::Value::Number(n) => Json::Number(n.to_string()),
        serde_json::Value::String(s) => Json::Text(s.clone()),
        serde_json::Value::Array(a) => Json::List(a.iter().map(from_value).collect()),
        serde_json::Value::Object(o) => Json::Object(
            o.iter().map(|(k, v)| Member { key: k.clone(), value: from_value(v) }).collect(),
        ),
    }
}

/// Copies a [`Json`] into a `serde_json::Value`, variant by variant. A number
/// goes through `serde_json::Number`'s `FromStr`; where that refuses the
/// digits there is no value.
#[verifier::external_body]
fn to_value(json: &Json) -> Option<serde_json::Value> {
    Some(match json {
        Json::Null => serde_json::Value::Null,
        Json::Bool(b) => serde_json::Value::Bool(*b),
        Json::Number(n) => serde_json::Value::Number(n.parse().ok()?),
        Json::Text(s) => serde_json::Value::String(s.clone()),
        Json::List(a) => serde_json::Value::Array(a.iter().map(to_value).collect::<Option<_>>()?),
        Json::Object(o) => serde_json::Value::Object(
            o.iter().map(|m| Some((m.key.clone(), to_value(&m.value)?))).collect::<Option<_>>()?,
        ),
    })
}

/// `serde_json::from_slice` at type `serde_json::Value`: the value that
/// `bytes` spell. The result depends on the bytes alone.
#[verifier::external_body]
pub(crate) fn parse_json(bytes: &[u8]) -> (parsed: Option<Json>)
    ensures
        parsed is Some <==> json_parse(bytes@) is Some,
        parsed is Some ==> parsed->0@ == json_parse(bytes@)->0,
{
    serde_json::from_slice::<serde_json::Value>(bytes).ok().map(|v| from_value(&v))
}

/// `serde_json::Value`'s `to_string`: the compact JSON text of `json`. The
/// result depends on the value alone, and a value without numbers always has
/// a text: only the digits of a number can be refused.
#[verifier::external_body]
pub(crate) fn render_json(json: &Json) -> (text: Option<String>)
    ensures
        text is Some <==> json_text(json@) is Some,
        text is Some ==> text->0@ == json_text(json@)->0,
        !json@.has_number() ==> text is Some,
{
    to_value(json).map(|v| v.to_string())
}

/// The values of a list of members.
pub open spec fn member_trees(members: Seq<Member>) -> Seq<MemberTree> {
    Seq::new(members.len(), |i: int| members[i]@)
}

/// The values of a list of JSON values.
pub open spec fn trees_of(items: Seq<Json>) -> Seq<JsonTree> {
    Seq::new(items.len(), |i: int| items[i]@)
}

/// An object holds a number only where one of its members does.
pub proof fn lemma_object_without_numbers(members: Seq<MemberTree>)
    requires
        forall|i: int| 0 <= i < members.len() ==> !(#[trigger] members[i]).value.has_number(),
    ensures
        !JsonTree::Object(members).has_number(),
{
}

/// A list holds a number only where one of its items does.
pub proof fn lemma_list_without_numbers(items: Seq<JsonTree>)
    requires
        forall|i: int| 0 <= i < items.len() ==> !(#[trigger] items[i]).has_number(),
    ensures
        !JsonTree::List(items).has_number(),
{
}

impl Member {
    /// A member from its key and its value.
    pub fn new(key: &str, value: Json) -> (member: Member)
        ensures
            member@ == (MemberTree { key: key@, value: value@ }),
    {
        Member { key: key.to_owned(), value }
    }

    /// A member whose value is a string.
    pub fn text(key: &str, value: &str) -> (member: Member)
        ensures
            member@ == (MemberTree { key: key@, value: JsonTree::Text(value@) }),
    {
        Member { key: key.to_owned(), value: Json::Text(value.to_owned()) }
    }
}

impl Json {
    /// The object with these members.
    pub fn object(members: Vec<Member>) -> (json: Json)
        ensures
            json@ == JsonTree::Object(member_trees(members@)),
    {
        let ghost trees = member_trees(members@);
        let json = Json::Object(members);
        proof {
            lemma_view_of_object(json);
            assert(json@->Object_0 =~= trees);
        }
        json
    }

    /// The list with these items.
    pub fn list(items: Vec<Json>) -> (json: Json)
        ensures
            json@ == JsonTree::List(trees_of(items@)),
    {
        let ghost trees = trees_of(items@);
        let json = Json::List(items);
        proof {
            lemma_view_of_list(json);
            assert(json@->List_0 =~= trees);
        }
        json
    }

    /// Parses `bytes` as one JSON text.
    pub fn parse(bytes: &[u8]) -> (parsed: Option<Json>)
        ensures
            parsed is Some <==> json_parse(bytes@) is Some,
            parsed is Some ==> parsed->0@ == json_parse(bytes@)->0,
    {
        parse_json(bytes)
    }

    /// The compact JSON text of the value.
    pub fn render(&self) -> (text: Option<String>)
        ensures
            text is Some <==> json_text(self@) is Some,
            text is Some ==> text->0@ == json_text(self@)->0,
            !self@.has_number() ==> text is Some,
    {
        render_json(self)
    }

    /// The text of a string value.
    pub fn as_text(&self) -> (text: Option<&String>)
        ensures
            text is Some <==> self@.text() is Some,
            text is Some ==> text->0@ == self@.text()->0,
    {
        match self {
            Json::Text(s) => Some(s),
            _ => None,
        }
    }

    /// The digits of a number.
    pub fn as_number(&self) -> (digits: Option<&String>)
        ensures
            digits is Some <==> self@.number() is Some,
            digits is Some ==> digits->0@ == self@.number()->0,
    {
        match self {
            Json::Number(n) => Some(n),
            _ => None,
        }
    }

    /// The items of a list.
    pub fn as_list(&self) -> (items: Option<&Vec<Json>>)
        ensures
            items is Some <==> self@.list() is Some,
            items is Some ==> items->0@.len() == self@.list()->0.len(),
            items is Some ==> forall|i: int|
                0 <= i < items->0@.len() ==> (#[trigger] items->0@[i])@ == self@.list()->0[i],
    {
        match self {
            Json::List(items) => {
                proof {
                    lemma_view_of_list(*self);
                }
                Some(items)
            },
            _ => None,
        }
    }

    /// The value that an object holds under `key`: that of the first member
    /// with this key.
    pub fn get(&self, key: &str) -> (value: Option<&Json>)
        ensures
            value is Some <==> self@.member(key@) is Some,
            value is Some ==> value->0@ == self@.member(key@)->0,
    {
        match self {
            Json::Object(members) => {
                proof {
                    lemma_view_of_object(*self);
                }
                let wanted = key.to_owned();
                let ghost all = self@->Object_0;
                let mut i: usize = 0;
                assert(all.skip(0) == all);
                while i < members.len()
                    invariant
                        i <= members@.len(),
                        all.len() == members@.len(),
                        wanted@ == key@,
                        self@.member(key@) == find_member(all, key@),
                        forall|j: int|
                            0 <= j < members@.len() ==> all[j] == (#[trigger] members@[j])@,
                        find_member(all, key@) == find_member(all.skip(i as int), key@),
                    decreases members@.len() - i,
                {
                    let ghost rest = all.skip(i as int);
                    assert(rest.first() == all[i as int]);
                    assert(rest.drop_first() == all.skip(i + 1));
                    assert(rest.first() == members@[i as int]@);
                    if members[i].key == wanted {
                        return Some(&members[i].value);
                    }
                    i = i + 1;
                }
                None
            },
            _ => None,
        }
    }
}

impl Default for Json {
    /// The null value.
    fn default() -> (json: Json)
        ensures
            json@ == JsonTree::Null,
    {
        Json::Null
    }
}

impl Clone for Json {
    /// A copy with the same value.
    #[verifier::loop_isolation(false)]
    fn clone(&self) -> (copy: Json)
        ensures
            copy@ == self@,
        decreases self,
    {
        match self {
            Json::Null => Json::Null,
            Json::Bool(b) => Json::Bool(*b),
            Json::Number(n) => Json::Number(n.clone()),
            Json::Text(s) => Json::Text(s.clone()),
            Json::List(items) => {
                let mut copies: Vec<Json> = Vec::new();
                let mut i: usize = 0;
                while i < items.len()
                    invariant
                        i <= items@.len(),
                        copies@.len() == i,
                        forall|j: int| 0 <= j < i ==> copies@[j]@ == items@[j]@,
                    decreases items@.len() - i,
                {
                    copies.push(items[i].clone());
                    i = i + 1;
                }
                let copy = Json::List(copies);
                proof {
                    lemma_view_of_list(copy);
                    lemma_view_of_list(*self);
                    assert(copy@->List_0 =~= self@->List_0);
                }
                copy
            },
            Json::Object(members) => {
                let mut copies: Vec<Member> = Vec::new();
                let mut i: usize = 0;
                while i < members.len()
                    invariant
                        i <= members@.len(),
                        copies@.len() == i,
                        forall|j: int|
                            0 <= j < i ==> copies@[j].key@ == members@[j].key@
                                && copies@[j].value@ == members@[j].value@,
                    decreases members@.len() - i,
                {
                    copies.push(Member { key: members[i].key.clone(), value: members[i].value.clone() });
                    i = i + 1;
                }
                let copy = Json::Object(copies);
                proof {
                    lemma_view_of_object(copy);
                    lemma_view_of_object(*self);
                    assert(copy@->Object_0 =~= self@->Object_0);
                }
                copy
            },
        }
    }
}

} // verus!
