//! A schema-less JSON value, its mathematical model, and field accessors.

use vstd::prelude::*;

verus! {

broadcast use vstd::std_specs::vec::axiom_vec_index_decreases;

/// A JSON value. A number is kept as its literal text, since nothing here
/// computes with numbers; object members keep their order.
#[derive(Debug)]
pub enum Json {
    Null,
    Bool(bool),
    Number(String),
    Str(String),
    Array(Vec<Json>),
    Object(Vec<Member>),
}

/// A member of a JSON object: a name and its value.
#[derive(Debug)]
pub struct Member {
    pub key: String,
    pub value: Json,
}

/// The mathematical model of a JSON value: strings become character
/// sequences, and an object becomes its member names and, position by
/// position, their values.
pub enum JsonV {
    Null,
    Bool(bool),
    Number(Seq<char>),
    Str(Seq<char>),
    Array(Seq<JsonV>),
    Object(Seq<Seq<char>>, Seq<JsonV>),
}

impl View for Json {
    type V = JsonV;

    open spec fn view(&self) -> JsonV
        decreases self,
    {
        match self {
            Json::Null => JsonV::Null,
            Json::Bool(b) => JsonV::Bool(*b),
            Json::Number(n) => JsonV::Number(n@),
            Json::Str(s) => JsonV::Str(s@),
            Json::Array(items) => JsonV::Array(
                Seq::new(
                    items.len() as nat,
                    |i: int|
                        if 0 <= i < items.len() {
                            items[i].view()
                        } else {
                            JsonV::Null
                        },
                ),
            ),
            Json::Object(members) => JsonV::Object(
                Seq::new(members.len() as nat, |i: int| members[i].key@),
                Seq::new(
                    members.len() as nat,
                    |i: int|
                        if 0 <= i < members.len() {
                            members[i].value.view()
                        } else {
                            JsonV::Null
                        },
                ),
            ),
        }
    }
}

/// Holds when `i` is the position of the first name equal to `key`.
pub open spec fn first_key_at(keys: Seq<Seq<char>>, key: Seq<char>, i: int) -> bool {
    &&& 0 <= i < keys.len()
    &&& keys[i] == key
    &&& forall|j: int| 0 <= j < i ==> keys[j] != key
}

impl JsonV {
    /// The value of the first member named `key`, where this is an object that has one.
    pub open spec fn member(self, key: Seq<char>) -> Option<JsonV> {
        match self {
            JsonV::Object(keys, values) => if exists|i: int|
                first_key_at(keys, key, i) && i < values.len() {
                Some(values[choose|i: int| first_key_at(keys, key, i)])
            } else {
                None
            },
            _ => None,
        }
    }

    /// The member named `key`, where it is there and is a string.
    pub open spec fn str_member(self, key: Seq<char>) -> Option<Seq<char>> {
        match self.member(key) {
            Some(JsonV::Str(s)) => Some(s),
            _ => None,
        }
    }
}

/// The model of an optional value.
pub open spec fn opt_view(o: Option<Json>) -> Option<JsonV> {
    match o {
        Some(v) => Some(v@),
        None => None,
    }
}

/// The position of the first member named `key`.
fn position(members: &Vec<Member>, key: &str) -> (r: Option<usize>)
    ensures
        match r {
            Some(i) => i < members.len() && members@[i as int].key@ == key@ && forall|j: int|
                0 <= j < i ==> members@[j].key@ != key@,
            None => forall|j: int| 0 <= j < members.len() ==> members@[j].key@ != key@,
        },
{
    let k = key.to_string();
    let mut i: usize = 0;
    while i < members.len()
        invariant
            i <= members.len(),
            k@ == key@,
            forall|j: int| 0 <= j < i ==> members@[j].key@ != key@,
        decreases members.len() - i,
    {
        if members[i].key == k {
            return Some(i);
        }
        i += 1;
    }
    None
}

/// What the model of an object says of its members, position by position.
pub(crate) proof fn lemma_object_view(members: Vec<Member>)
    ensures
        Json::Object(members)@ matches JsonV::Object(keys, values) && keys.len() == members.len()
            && values.len() == members.len() && forall|j: int|
            0 <= j < members.len() ==> keys[j] == #[trigger] members@[j].key@ && values[j]
                == members@[j].value@,
{
}

impl Json {
    /// The value of the member named `key`, where this is an object that has
    /// one; the first such member where several share the name.
    pub fn get(&self, key: &str) -> (r: Option<&Json>)
        ensures
            match r {
                Some(v) => self@.member(key@) == Some(v@),
                None => self@.member(key@) is None,
            },
    {
        match self {
            Json::Object(members) => {
                proof {
                    lemma_object_view(*members);
                }
                match position(members, key) {
                    Some(i) => {
                        assert(first_key_at(self@->Object_0, key@, i as int));
                        Some(&members[i].value)
                    },
                    None => None,
                }
            },
            _ => None,
        }
    }

    /// Like `get`, but hands over the member's value.
    pub fn into_member(self, key: &str) -> (r: Option<Json>)
        ensures
            opt_view(r) == self@.member(key@),
    {
        match self {
            Json::Object(mut members) => {
                proof {
                    lemma_object_view(members);
                }
                match position(&members, key) {
                    Some(i) => {
                        assert(first_key_at(Json::Object(members)@->Object_0, key@, i as int));
                        let m = members.swap_remove(i);
                        Some(m.value)
                    },
                    None => None,
                }
            },
            _ => None,
        }
    }

    /// The object with no members.
    pub fn empty_object() -> (r: Json)
        ensures
            r@ == JsonV::Object(Seq::empty(), Seq::empty()),
    {
        let members: Vec<Member> = Vec::new();
        let r = Json::Object(members);
        proof {
            lemma_object_view(members);
            assert(r@->Object_0 =~= Seq::empty());
            assert(r@->Object_1 =~= Seq::empty());
        }
        r
    }

    /// The object with the one member `key`, of value `value`.
    pub fn object_with(key: &str, value: Json) -> (r: Json)
        ensures
            r@ == JsonV::Object(seq![key@], seq![value@]),
    {
        let ghost v = value@;
        let mut members: Vec<Member> = Vec::new();
        members.push(Member { key: key.to_string(), value });
        let r = Json::Object(members);
        proof {
            lemma_object_view(members);
            assert(r@->Object_0 =~= seq![key@]);
            assert(r@->Object_1 =~= seq![v]);
        }
        r
    }

    /// The text of a string value.
    pub fn as_str(&self) -> (r: Option<&str>)
        ensures
            match r {
                Some(s) => self@ == JsonV::Str(s@),
                None => !(self@ is Str),
            },
    {
        match self {
            Json::Str(s) => Some(s.as_str()),
            _ => None,
        }
    }
}

} // verus!
