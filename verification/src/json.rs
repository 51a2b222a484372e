use vstd::prelude::*;

verus! {

/// A JSON value as the signaling protocol carries it.
///
/// Numbers keep their textual form, so the library never computes with them;
/// object members keep their order, and a lookup finds the first member with
/// a given key.
#[derive(Debug, PartialEq)]
pub enum JsonValue {
    Null,
    Bool(bool),
    Number(String),
    Str(String),
    Array(Vec<JsonValue>),
    Object(Vec<(String, JsonValue)>),
}

/// The mathematical model of a JSON value.
pub enum JsonView {
    Null,
    Bool(bool),
    Number(Seq<char>),
    Str(Seq<char>),
    Array(Seq<JsonView>),
    Object(Seq<(Seq<char>, JsonView)>),
}

/// The model of a value.
pub open spec fn json_view(v: JsonValue) -> JsonView
    decreases v,
{
    match v {
        JsonValue::Null => JsonView::Null,
        JsonValue::Bool(b) => JsonView::Bool(b),
        JsonValue::Number(n) => JsonView::Number(n@),
        JsonValue::Str(s) => JsonView::Str(s@),
        JsonValue::Array(items) => JsonView::Array(items_view(items@)),
        JsonValue::Object(members) => JsonView::Object(members_view(members@)),
    }
}

/// The model of a sequence of array items.
pub open spec fn items_view(items: Seq<JsonValue>) -> Seq<JsonView>
    decreases items,
{
    if items.len() == 0 {
        Seq::empty()
    } else {
        items_view(items.subrange(0, items.len() - 1)).push(json_view(items[items.len() - 1]))
    }
}

/// The model of a sequence of object members.
pub open spec fn members_view(members: Seq<(String, JsonValue)>) -> Seq<(Seq<char>, JsonView)>
    decreases members,
{
    if members.len() == 0 {
        Seq::empty()
    } else {
        let last = members[members.len() - 1];
        members_view(members.subrange(0, members.len() - 1)).push((last.0@, json_view(last.1)))
    }
}

impl View for JsonValue {
    type V = JsonView;

    open spec fn view(&self) -> JsonView {
        json_view(*self)
    }
}

/// The item model is taken element by element.
pub proof fn lemma_items_view(items: Seq<JsonValue>)
    ensures
        items_view(items).len() == items.len(),
        forall|i: int| 0 <= i < items.len() ==> #[trigger] items_view(items)[i] == json_view(items[i]),
    decreases items.len(),
{
    if items.len() > 0 {
        let prefix = items.subrange(0, items.len() - 1);
        lemma_items_view(prefix);
        assert forall|i: int| 0 <= i < items.len() implies #[trigger] items_view(items)[i] == json_view(
            items[i],
        ) by {
            if i < items.len() - 1 {
                assert(prefix[i] == items[i]);
            }
        }
    }
}

/// The member model is taken member by member.
pub proof fn lemma_members_view(members: Seq<(String, JsonValue)>)
    ensures
        members_view(members).len() == members.len(),
        forall|i: int|
            0 <= i < members.len() ==> #[trigger] members_view(members)[i] == (
                members[i].0@,
                json_view(members[i].1),
            ),
    decreases members.len(),
{
    if members.len() > 0 {
        let prefix = members.subrange(0, members.len() - 1);
        lemma_members_view(prefix);
        assert forall|i: int| 0 <= i < members.len() implies #[trigger] members_view(members)[i] == (
            members[i].0@,
            json_view(members[i].1),
        ) by {
            if i < members.len() - 1 {
                assert(prefix[i] == members[i]);
            }
        }
    }
}

/// The model of joined member lists is the join of their models.
pub proof fn lemma_members_view_concat(a: Seq<(String, JsonValue)>, b: Seq<(String, JsonValue)>)
    ensures
        members_view(a + b) == members_view(a) + members_view(b),
{
    lemma_members_view(a);
    lemma_members_view(b);
    lemma_members_view(a + b);
    assert(members_view(a + b) =~= members_view(a) + members_view(b));
}

/// Two sequences of items with equal elements have the same model.
pub proof fn lemma_items_view_pointwise(a: Seq<JsonValue>, b: Seq<JsonValue>)
    requires
        a.len() == b.len(),
        forall|i: int| 0 <= i < a.len() ==> json_view(#[trigger] a[i]) == json_view(b[i]),
    ensures
        items_view(a) == items_view(b),
{
    lemma_items_view(a);
    lemma_items_view(b);
    assert(items_view(a) =~= items_view(b));
}

/// Two sequences of members with equal keys and values have the same model.
pub proof fn lemma_members_view_pointwise(a: Seq<(String, JsonValue)>, b: Seq<(String, JsonValue)>)
    requires
        a.len() == b.len(),
        forall|i: int|
            0 <= i < a.len() ==> (#[trigger] a[i]).0@ == b[i].0@ && json_view(a[i].1) == json_view(
                b[i].1,
            ),
    ensures
        members_view(a) == members_view(b),
{
    lemma_members_view(a);
    lemma_members_view(b);
    assert(members_view(a) =~= members_view(b));
}

/// The value of the first member whose key is `key`, if any.
pub open spec fn view_lookup(members: Seq<(Seq<char>, JsonView)>, key: Seq<char>) -> Option<JsonView>
    decreases members.len(),
{
    if members.len() == 0 {
        None
    } else if members[0].0 == key {
        Some(members[0].1)
    } else {
        view_lookup(members.drop_first(), key)
    }
}

/// Looking up a key in members that start with a given member.
pub proof fn lemma_lookup_after_member(
    first: (Seq<char>, JsonView),
    rest: Seq<(Seq<char>, JsonView)>,
    key: Seq<char>,
)
    ensures
        view_lookup(seq![first] + rest, key) == if first.0 == key {
            Some(first.1)
        } else {
            view_lookup(rest, key)
        },
{
    assert((seq![first] + rest)[0] == first);
    assert((seq![first] + rest).drop_first() =~= rest);
}

/// A lookup finds the first member with the key, and nothing when no
/// member has it.
pub proof fn lemma_lookup_first(members: Seq<(Seq<char>, JsonView)>, key: Seq<char>, i: int)
    requires
        0 <= i <= members.len(),
        forall|j: int| 0 <= j < i ==> (#[trigger] members[j]).0 != key,
        i < members.len() ==> members[i].0 == key,
    ensures
        i < members.len() ==> view_lookup(members, key) == Some(members[i].1),
        i == members.len() ==> view_lookup(members, key) is None,
    decreases members.len(),
{
    if members.len() > 0 && i > 0 {
        let rest = members.drop_first();
        assert forall|j: int| 0 <= j < i - 1 implies (#[trigger] rest[j]).0 != key by {
            assert(rest[j] == members[j + 1]);
        }
        if i < members.len() {
            assert(rest[i - 1] == members[i]);
        }
        lemma_lookup_first(rest, key, i - 1);
    }
}

/// No member of an empty object matches.
pub proof fn lemma_lookup_empty(key: Seq<char>)
    ensures
        view_lookup(Seq::<(Seq<char>, JsonView)>::empty(), key) is None,
{
}

/// The text of the first member named `key`, when that member is a JSON string.
pub open spec fn view_str_field(members: Seq<(Seq<char>, JsonView)>, key: Seq<char>) -> Option<Seq<char>> {
    match view_lookup(members, key) {
        Some(JsonView::Str(s)) => Some(s),
        _ => None,
    }
}

/// Whether two strings hold the same text.
pub fn same_text(a: &String, b: &str) -> (same: bool)
    ensures
        same == (a@ == b@),
{
    let owned = b.to_string();
    *a == owned
}

/// Finds the first member of an object named `key`.
pub fn find_member<'a>(members: &'a Vec<(String, JsonValue)>, key: &str) -> (found: Option<&'a JsonValue>)
    ensures
        match found {
            Some(v) => view_lookup(members_view(members@), key@) == Some(v@),
            None => view_lookup(members_view(members@), key@) is None,
        },
{
    let ghost mv = members_view(members@);
    proof {
        lemma_members_view(members@);
        assert(mv.skip(0) =~= mv);
    }
    let mut i: usize = 0;
    while i < members.len()
        invariant
            0 <= i <= members@.len(),
            mv == members_view(members@),
            mv.len() == members@.len(),
            forall|j: int| 0 <= j < members@.len() ==> #[trigger] mv[j] == (members@[j].0@, json_view(members@[j].1)),
            view_lookup(mv, key@) == view_lookup(mv.skip(i as int), key@),
        decreases members@.len() - i,
    {
        proof {
            assert(mv.skip(i as int)[0] == mv[i as int]);
            assert(mv.skip(i as int).drop_first() =~= mv.skip(i + 1));
        }
        if same_text(&members[i].0, key) {
            return Some(&members[i].1);
        }
        i = i + 1;
    }
    None
}

/// The text of the first member named `key`, when that member is a JSON string.
pub fn str_field(members: &Vec<(String, JsonValue)>, key: &str) -> (text: Option<String>)
    ensures
        match text {
            Some(t) => view_str_field(members_view(members@), key@) == Some(t@),
            None => view_str_field(members_view(members@), key@) is None,
        },
{
    match find_member(members, key) {
        Some(JsonValue::Str(s)) => Some(s.clone()),
        _ => None,
    }
}

impl JsonValue {
    /// A copy of this value with the same model.
    pub fn duplicate(&self) -> (copy: JsonValue)
        ensures
            copy@ == self@,
        decreases self,
    {
        match self {
            JsonValue::Null => JsonValue::Null,
            JsonValue::Bool(b) => JsonValue::Bool(*b),
            JsonValue::Number(n) => JsonValue::Number(n.clone()),
            JsonValue::Str(s) => JsonValue::Str(s.clone()),
            JsonValue::Array(items) => {
                let copied = copy_items(items);
                JsonValue::Array(copied)
            },
            JsonValue::Object(members) => {
                let copied = copy_members(members);
                JsonValue::Object(copied)
            },
        }
    }
}

/// A copy of an item list with the same model.
pub fn copy_items(items: &Vec<JsonValue>) -> (copy: Vec<JsonValue>)
    ensures
        items_view(copy@) == items_view(items@),
    decreases items@,
{
    let mut out: Vec<JsonValue> = Vec::new();
    let mut i: usize = 0;
    while i < items.len()
        invariant
            0 <= i <= items@.len(),
            out@.len() == i,
            forall|j: int| 0 <= j < i ==> json_view(#[trigger] out@[j]) == json_view(items@[j]),
        decreases items@.len() - i,
    {
        proof {
            assert(decreases_to!(items@ => items@[i as int]));
        }
        let item = items[i].duplicate();
        out.push(item);
        i = i + 1;
    }
    proof {
        lemma_items_view_pointwise(out@, items@);
    }
    out
}

/// A copy of a member list with the same model.
pub fn copy_members(members: &Vec<(String, JsonValue)>) -> (copy: Vec<(String, JsonValue)>)
    ensures
        members_view(copy@) == members_view(members@),
    decreases members@,
{
    let mut out: Vec<(String, JsonValue)> = Vec::new();
    let mut i: usize = 0;
    while i < members.len()
        invariant
            0 <= i <= members@.len(),
            out@.len() == i,
            forall|j: int|
                0 <= j < i ==> (#[trigger] out@[j]).0@ == members@[j].0@ && json_view(out@[j].1)
                    == json_view(members@[j].1),
        decreases members@.len() - i,
    {
        let key = members[i].0.clone();
        proof {
            assert(decreases_to!(members@ => members@[i as int].1));
        }
        let value = members[i].1.duplicate();
        out.push((key, value));
        i = i + 1;
    }
    proof {
        lemma_members_view_pointwise(out@, members@);
    }
    out
}

} // verus!
