//! JSON documents as plain data, with their mathematical view.

use vstd::prelude::*;
use vstd::string::*;

verus! {

/// A JSON document.
///
/// A number that fits a signed 64-bit integer is an `Int`; any other number
/// is kept as the literal that writes it. An object keeps its members in the
/// order they were given in; where a name occurs twice, the later member is
/// the one that counts.
#[derive(Debug, PartialEq, Eq)]
pub enum Json {
    Null,
    Bool(bool),
    Int(i64),
    Decimal(String),
    Text(String),
    Array(Vec<Json>),
    Object(Vec<Member>),
}

/// One `name: value` entry of a JSON object.
#[derive(Debug, PartialEq, Eq)]
pub struct Member {
    pub name: String,
    pub value: Json,
}

/// The mathematical content of a [`Json`] document.
pub enum JsonView {
    Null,
    Bool(bool),
    Int(int),
    Decimal(Seq<char>),
    Text(Seq<char>),
    Array(Seq<JsonView>),
    Object(Seq<(Seq<char>, JsonView)>),
}

/// What a document holds, read off its representation.
pub open spec fn document_view(doc: Json) -> JsonView
    decreases doc,
{
    match doc {
        Json::Null => JsonView::Null,
        Json::Bool(b) => JsonView::Bool(b),
        Json::Int(i) => JsonView::Int(i as int),
        Json::Decimal(t) => JsonView::Decimal(t@),
        Json::Text(t) => JsonView::Text(t@),
        Json::Array(items) => JsonView::Array(
            Seq::new(
                items.len() as nat,
                |i: int|
                    if 0 <= i < items.len() {
                        document_view(items[i])
                    } else {
                        JsonView::Null
                    },
            ),
        ),
        Json::Object(members) => JsonView::Object(
            Seq::new(
                members.len() as nat,
                |i: int|
                    if 0 <= i < members.len() {
                        (members[i].name@, document_view(members[i].value))
                    } else {
                        (Seq::empty(), JsonView::Null)
                    },
            ),
        ),
    }
}

impl View for Json {
    type V = JsonView;

    open spec fn view(&self) -> JsonView {
        document_view(*self)
    }
}

impl View for Member {
    type V = (Seq<char>, JsonView);

    open spec fn view(&self) -> (Seq<char>, JsonView) {
        (self.name@, self.value@)
    }
}

/// The views of a list of documents, in order.
pub open spec fn items_view(items: Seq<Json>) -> Seq<JsonView> {
    Seq::new(items.len(), |i: int| items[i]@)
}

/// The views of a list of members, in order.
pub open spec fn members_view(members: Seq<Member>) -> Seq<(Seq<char>, JsonView)> {
    Seq::new(members.len(), |i: int| members[i]@)
}

/// The value of the last member called `name`, if there is one.
pub open spec fn find_member(members: Seq<(Seq<char>, JsonView)>, name: Seq<char>) -> Option<
    JsonView,
>
    decreases members.len(),
{
    if members.len() == 0 {
        None
    } else if members.last().0 == name {
        Some(members.last().1)
    } else {
        find_member(members.drop_last(), name)
    }
}

/// The view of an optional document.
pub open spec fn optional_view(doc: Option<Json>) -> Option<JsonView> {
    match doc {
        Some(d) => Some(d@),
        None => None,
    }
}

impl JsonView {
    /// The value that an object holds under `name`; `None` for anything that
    /// is not an object, and for an object without that name.
    pub open spec fn member(self, name: Seq<char>) -> Option<JsonView> {
        match self {
            JsonView::Object(members) => find_member(members, name),
            _ => None,
        }
    }

    /// The characters of a string; `None` for anything else.
    pub open spec fn text(self) -> Option<Seq<char>> {
        match self {
            JsonView::Text(t) => Some(t),
            _ => None,
        }
    }

    /// The truth value of a boolean; `None` for anything else.
    pub open spec fn boolean(self) -> Option<bool> {
        match self {
            JsonView::Bool(b) => Some(b),
            _ => None,
        }
    }

    /// The value of an integer; `None` for anything else.
    pub open spec fn integer(self) -> Option<int> {
        match self {
            JsonView::Int(i) => Some(i),
            _ => None,
        }
    }

    /// The members of an object, in order; `None` for anything else.
    pub open spec fn members(self) -> Option<Seq<(Seq<char>, JsonView)>> {
        match self {
            JsonView::Object(members) => Some(members),
            _ => None,
        }
    }

    /// The text that an object holds under `name`, where it holds a string
    /// there.
    pub open spec fn text_member(self, name: Seq<char>) -> Option<Seq<char>> {
        match self.member(name) {
            Some(value) => value.text(),
            None => None,
        }
    }

    /// The truth value that an object holds under `name`, where it holds a
    /// boolean there.
    pub open spec fn boolean_member(self, name: Seq<char>) -> Option<bool> {
        match self.member(name) {
            Some(value) => value.boolean(),
            None => None,
        }
    }

    /// The integer that an object holds under `name`, where it holds one
    /// there.
    pub open spec fn integer_member(self, name: Seq<char>) -> Option<int> {
        match self.member(name) {
            Some(value) => value.integer(),
            None => None,
        }
    }
}

/// An array's view is the list of its items' views.
pub proof fn lemma_array_view(items: Vec<Json>)
    ensures
        Json::Array(items)@ == JsonView::Array(items_view(items@)),
{
    assert(Json::Array(items)@->Array_0 =~= items_view(items@));
}

/// An object's view is the list of its members' views.
pub proof fn lemma_object_view(members: Vec<Member>)
    ensures
        Json::Object(members)@ == JsonView::Object(members_view(members@)),
{
    assert(Json::Object(members)@->Object_0 =~= members_view(members@));
}

/// True when no member after place `k` has the name of the member at `k`.
pub open spec fn last_of_its_name(members: Seq<(Seq<char>, JsonView)>, k: int) -> bool {
    forall|j: int| k < j < members.len() ==> (#[trigger] members[j]).0 != members[k].0
}

/// A member that is the last of its name is the one that a lookup of the
/// name finds.
pub proof fn lemma_member_at(members: Seq<(Seq<char>, JsonView)>, k: int)
    requires
        0 <= k < members.len(),
        last_of_its_name(members, k),
    ensures
        find_member(members, members[k].0) == Some(members[k].1),
    decreases members.len(),
{
    if k < members.len() - 1 {
        let rest = members.drop_last();
        assert(members.last().0 != members[k].0);
        assert forall|j: int| k < j < rest.len() implies (#[trigger] rest[j]).0 != rest[k].0 by {
            assert(rest[j] == members[j]);
        }
        lemma_member_at(rest, k);
    }
}

/// A lookup of a name that no member has finds nothing.
pub proof fn lemma_absent_name(members: Seq<(Seq<char>, JsonView)>, name: Seq<char>)
    requires
        forall|j: int| 0 <= j < members.len() ==> (#[trigger] members[j]).0 != name,
    ensures
        find_member(members, name) is None,
    decreases members.len(),
{
    if members.len() > 0 {
        let rest = members.drop_last();
        assert(members.last() == members[members.len() - 1]);
        assert forall|j: int| 0 <= j < rest.len() implies (#[trigger] rest[j]).0 != name by {
            assert(rest[j] == members[j]);
        }
        lemma_absent_name(rest, name);
    }
}

impl Member {
    pub fn new(name: &str, value: Json) -> (m: Member)
        ensures
            m@ == (name@, value@),
    {
        Member { name: name.to_owned(), value }
    }
}

impl Json {
    /// A JSON string holding `text`.
    pub fn text(text: &str) -> (doc: Json)
        ensures
            doc@ == JsonView::Text(text@),
    {
        Json::Text(text.to_owned())
    }

    /// A JSON object with the given members.
    pub fn object(members: Vec<Member>) -> (doc: Json)
        ensures
            doc@ == JsonView::Object(members_view(members@)),
    {
        proof {
            lemma_object_view(members);
        }
        Json::Object(members)
    }

    /// A JSON array with the given items.
    pub fn array(items: Vec<Json>) -> (doc: Json)
        ensures
            doc@ == JsonView::Array(items_view(items@)),
    {
        proof {
            lemma_array_view(items);
        }
        Json::Array(items)
    }

    /// The value that an object holds under `name`.
    pub fn get(&self, name: &str) -> (found: Option<&Json>)
        ensures
            match found {
                Some(value) => self@.member(name@) == Some(value@),
                None => self@.member(name@) is None,
            },
    {
        match self {
            Json::Object(members) => {
                proof {
                    lemma_object_view(*members);
                }
                let wanted = name.to_owned();
                let ghost all = members_view(members@);
                let mut i: usize = members.len();
                proof {
                    assert(all.take(i as int) =~= all);
                }
                while i > 0
                    invariant
                        i <= members.len(),
                        wanted@ == name@,
                        all == members_view(members@),
                        self@ == JsonView::Object(all),
                        find_member(all, name@) == find_member(all.take(i as int), name@),
                    decreases i,
                {
                    i = i - 1;
                    let ghost upto = all.take(i + 1);
                    proof {
                        assert(upto.len() == i + 1);
                        assert(upto.last() == members[i as int]@);
                        assert(upto.drop_last() =~= all.take(i as int));
                    }
                    if members[i].name == wanted {
                        proof {
                            assert(upto.last().0 == name@);
                            assert(find_member(upto, name@) == Some(upto.last().1));
                        }
                        return Some(&members[i].value);
                    }
                    proof {
                        assert(upto.last().0 != name@);
                        assert(find_member(upto, name@) == find_member(upto.drop_last(), name@));
                    }
                }
                proof {
                    assert(all.take(0).len() == 0);
                }
                None
            },
            _ => None,
        }
    }

    /// The characters of a string.
    pub fn as_text(&self) -> (found: Option<&String>)
        ensures
            match found {
                Some(text) => self@.text() == Some(text@),
                None => self@.text() is None,
            },
    {
        match self {
            Json::Text(text) => Some(text),
            _ => None,
        }
    }

    /// The truth value of a boolean.
    pub fn as_bool(&self) -> (found: Option<bool>)
        ensures
            found == self@.boolean(),
    {
        match self {
            Json::Bool(b) => Some(*b),
            _ => None,
        }
    }

    /// The value of an integer.
    pub fn as_int(&self) -> (found: Option<i64>)
        ensures
            match found {
                Some(i) => self@.integer() == Some(i as int),
                None => self@.integer() is None,
            },
    {
        match self {
            Json::Int(i) => Some(*i),
            _ => None,
        }
    }

    /// The members of an object, in order.
    pub fn as_members(&self) -> (found: Option<&Vec<Member>>)
        ensures
            match found {
                Some(members) => self@.members() == Some(members_view(members@)),
                None => self@.members() is None,
            },
    {
        match self {
            Json::Object(members) => {
                proof {
                    lemma_object_view(*members);
                }
                Some(members)
            },
            _ => None,
        }
    }

    /// The text that an object holds under `name`, copied out.
    pub fn text_of(&self, name: &str) -> (found: Option<String>)
        ensures
            match found {
                Some(text) => self@.text_member(name@) == Some(text@),
                None => self@.text_member(name@) is None,
            },
    {
        match self.get(name) {
            Some(value) => match value.as_text() {
                Some(text) => Some(text.clone()),
                None => None,
            },
            None => None,
        }
    }

    /// The truth value that an object holds under `name`.
    pub fn bool_of(&self, name: &str) -> (found: Option<bool>)
        ensures
            found == self@.boolean_member(name@),
    {
        match self.get(name) {
            Some(value) => value.as_bool(),
            None => None,
        }
    }

    /// The integer that an object holds under `name`.
    pub fn int_of(&self, name: &str) -> (found: Option<i64>)
        ensures
            match found {
                Some(i) => self@.integer_member(name@) == Some(i as int),
                None => self@.integer_member(name@) is None,
            },
    {
        match self.get(name) {
            Some(value) => value.as_int(),
            None => None,
        }
    }

    /// A copy of the document.
    pub fn duplicate(&self) -> (copy: Json)
        ensures
            copy@ == self@,
        decreases self,
    {
        match self {
            Json::Null => Json::Null,
            Json::Bool(b) => Json::Bool(*b),
            Json::Int(i) => Json::Int(*i),
            Json::Decimal(t) => Json::Decimal(t.clone()),
            Json::Text(t) => Json::Text(t.clone()),
            Json::Array(items) => {
                let mut copies: Vec<Json> = Vec::new();
                let mut i: usize = 0;
                while i < items.len()
                    invariant
                        i <= items.len(),
                        copies.len() == i,
                        *self == Json::Array(*items),
                        forall|j: int| 0 <= j < i ==> copies[j]@ == items[j]@,
                    decreases items.len() - i,
                {
                    proof {
                        assert(self->Array_0 == *items);
                        assert(decreases_to!(*self => self->Array_0));
                        assert(decreases_to!(self->Array_0 => (self->Array_0)[i as int]));
                    }
                    let copy = items[i].duplicate();
                    copies.push(copy);
                    i = i + 1;
                }
                proof {
                    lemma_array_view(*items);
                    lemma_array_view(copies);
                    assert(items_view(copies@) =~= items_view(items@));
                }
                Json::Array(copies)
            },
            Json::Object(members) => {
                let mut copies: Vec<Member> = Vec::new();
                let mut i: usize = 0;
                while i < members.len()
                    invariant
                        i <= members.len(),
                        copies.len() == i,
                        *self == Json::Object(*members),
                        forall|j: int| 0 <= j < i ==> copies[j]@ == members[j]@,
                    decreases members.len() - i,
                {
                    proof {
                        assert(self->Object_0 == *members);
                        assert(decreases_to!(*self => self->Object_0));
                        assert(decreases_to!(self->Object_0 => (self->Object_0)[i as int]));
                        assert(decreases_to!((self->Object_0)[i as int] => (self->Object_0)[i as int].value));
                    }
                    let value = members[i].value.duplicate();
                    copies.push(Member { name: members[i].name.clone(), value });
                    i = i + 1;
                }
                proof {
                    lemma_object_view(*members);
                    lemma_object_view(copies);
                    assert(members_view(copies@) =~= members_view(members@));
                }
                Json::Object(copies)
            },
        }
    }
}

} // verus!
