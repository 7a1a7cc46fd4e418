//! A structured value as carried in token payloads and experiment payloads.

use crate::text::same_text;
use vstd::prelude::*;

verus! {

/// An arbitrary structured value.
///
/// Numbers are kept as their decimal text, and the members of an object in
/// the order in which they were given.
#[derive(Debug, PartialEq)]
pub enum Json {
    Null,
    Bool(bool),
    Number(String),
    Text(String),
    Array(Vec<Json>),
    Object(Vec<Member>),
}

/// One named member of an object.
#[derive(Debug, PartialEq)]
pub struct Member {
    pub name: String,
    pub value: Json,
}

/// The mathematical value of a [`Member`].
pub struct MemberView {
    pub name: Seq<char>,
    pub value: JsonView,
}

/// The mathematical value of a [`Json`].
pub enum JsonView {
    Null,
    Bool(bool),
    Number(Seq<char>),
    Text(Seq<char>),
    Array(Seq<JsonView>),
    Object(Seq<MemberView>),
}

impl View for Json {
    type V = JsonView;

    open spec fn view(&self) -> JsonView
        decreases self,
    {
        match self {
            Json::Null => JsonView::Null,
            Json::Bool(b) => JsonView::Bool(*b),
            Json::Number(s) => JsonView::Number(s@),
            Json::Text(s) => JsonView::Text(s@),
            Json::Array(items) => JsonView::Array(
                Seq::new(
                    items@.len(),
                    |i: int|
                        if 0 <= i < items@.len() {
                            items@[i].view()
                        } else {
                            JsonView::Null
                        },
                ),
            ),
            Json::Object(members) => JsonView::Object(
                Seq::new(
                    members@.len(),
                    |i: int|
                        if 0 <= i < members@.len() {
                            MemberView { name: members@[i].name@, value: members@[i].value.view() }
                        } else {
                            MemberView { name: Seq::empty(), value: JsonView::Null }
                        },
                ),
            ),
        }
    }
}

impl Clone for Member {
    fn clone(&self) -> (r: Self)
        ensures
            r@ == self@,
    {
        Member { name: self.name.clone(), value: self.value.clone() }
    }
}

impl Clone for Json {
    fn clone(&self) -> (r: Self)
        ensures
            r@ == self@,
        decreases self,
    {
        match self {
            Json::Null => Json::Null,
            Json::Bool(b) => Json::Bool(*b),
            Json::Number(s) => Json::Number(s.clone()),
            Json::Text(s) => Json::Text(s.clone()),
            Json::Array(items) => {
                let mut out: Vec<Json> = Vec::new();
                let mut i: usize = 0;
                while i < items.len()
                    invariant
                        i <= items.len(),
                        out@.len() == i,
                        forall|k: int| 0 <= k < i ==> (#[trigger] out@[k])@ == items@[k]@,
                        forall|k: int|
                            0 <= k < items@.len() ==> decreases_to!(self => #[trigger] items@[k]),
                    decreases items.len() - i,
                {
                    out.push(items[i].clone());
                    i += 1;
                }
                let r = Json::Array(out);
                assert(r@->Array_0 =~= self@->Array_0);
                r
            }
            Json::Object(members) => {
                let mut out: Vec<Member> = Vec::new();
                let mut i: usize = 0;
                while i < members.len()
                    invariant
                        i <= members.len(),
                        out@.len() == i,
                        forall|k: int| 0 <= k < i ==> (#[trigger] out@[k])@ == members@[k]@,
                        forall|k: int|
                            0 <= k < members@.len() ==> decreases_to!(
                                self => (#[trigger] members@[k]).value
                            ),
                    decreases members.len() - i,
                {
                    out.push(
                        Member { name: members[i].name.clone(), value: members[i].value.clone() },
                    );
                    i += 1;
                }
                let r = Json::Object(out);
                assert(r@->Object_0 =~= self@->Object_0);
                r
            }
        }
    }
}

impl DeepView for Json {
    type V = JsonView;

    open spec fn deep_view(&self) -> JsonView {
        self@
    }
}

/// The value of the first of `members` that is named `name`.
pub open spec fn first_named(members: Seq<MemberView>, name: Seq<char>) -> Option<JsonView>
    decreases members.len(),
{
    if members.len() == 0 {
        None
    } else if members[0].name == name {
        Some(members[0].value)
    } else {
        first_named(members.drop_first(), name)
    }
}

impl JsonView {
    /// The characters of a text; nothing for any other value.
    pub open spec fn text(self) -> Option<Seq<char>> {
        match self {
            JsonView::Text(s) => Some(s),
            _ => None,
        }
    }

    /// The member of an object that is named `name`; nothing where there is
    /// no such member, or the value is no object.
    pub open spec fn member(self, name: Seq<char>) -> Option<JsonView> {
        match self {
            JsonView::Object(members) => first_named(members, name),
            _ => None,
        }
    }
}

impl View for Member {
    type V = MemberView;

    open spec fn view(&self) -> MemberView {
        MemberView { name: self.name@, value: self.value@ }
    }
}

impl Json {
    /// What the view of an object is, member by member.
    pub proof fn lemma_object_view(members: Vec<Member>)
        ensures
            Json::Object(members)@ is Object,
            Json::Object(members)@->Object_0.len() == members@.len(),
            forall|i: int|
                0 <= i < members@.len() ==> (#[trigger] Json::Object(members)@->Object_0[i])
                    == members@[i]@,
    {
    }

    /// The text that this value holds, if it is a text.
    pub fn as_text(&self) -> (r: Option<&str>)
        ensures
            match r {
                Some(s) => self@.text() == Some(s@),
                None => self@.text() is None,
            },
    {
        match self {
            Json::Text(s) => Some(s.as_str()),
            _ => None,
        }
    }

    /// The member named `name`, if this value is an object that has one.
    pub fn get(&self, name: &str) -> (r: Option<&Json>)
        ensures
            match r {
                Some(j) => self@.member(name@) == Some(j@),
                None => self@.member(name@) is None,
            },
    {
        match self {
            Json::Object(members) => {
                proof {
                    Json::lemma_object_view(*members);
                }
                let ghost all = self@->Object_0;
                let mut i: usize = 0;
                assert(all.subrange(0, all.len() as int) =~= all);
                while i < members.len()
                    invariant
                        i <= members.len(),
                        self@ == JsonView::Object(all),
                        all.len() == members@.len(),
                        forall|k: int|
                            0 <= k < members@.len() ==> #[trigger] all[k] == members@[k]@,
                        first_named(all, name@) == first_named(
                            all.subrange(i as int, all.len() as int),
                            name@,
                        ),
                    decreases members.len() - i,
                {
                    let ghost rest = all.subrange(i as int, all.len() as int);
                    assert(rest[0] == all[i as int]);
                    assert(rest.drop_first() =~= all.subrange(i + 1, all.len() as int));
                    if same_text(members[i].name.as_str(), name) {
                        return Some(&members[i].value);
                    }
                    i += 1;
                }
                assert(all.subrange(i as int, all.len() as int).len() == 0);
                None
            },
            _ => None,
        }
    }
}

/// A `serde_json::Value`. What it holds is known by [`value_json`] alone.
#[verifier::external_type_specification]
#[verifier::external_body]
pub struct ExValue(serde_json::Value);

/// The structured value that a `serde_json::Value` holds: its kind; of a
/// number the text in which `serde_json` writes it; of an array its items
/// in their order; of an object its members in the order in which
/// `serde_json` hands them out.
pub uninterp spec fn value_json(value: serde_json::Value) -> JsonView;

/// What each of `items` holds, in their order.
pub open spec fn items_json(items: Seq<serde_json::Value>) -> Seq<JsonView> {
    Seq::new(items.len(), |i: int| value_json(items[i]))
}

/// What each of `members` holds under its name, in their order.
pub open spec fn members_json(members: Seq<(String, serde_json::Value)>) -> Seq<MemberView> {
    Seq::new(
        members.len(),
        |i: int| MemberView { name: members[i].0@, value: value_json(members[i].1) },
    )
}

/// Whether no value in `json` is nested more than `depth` arrays and
/// objects deep. A value that is neither array nor object is nested in
/// none; an array or an object is one deeper than the deepest of what it
/// holds.
pub open spec fn fits(json: JsonView, depth: nat) -> bool
    decreases depth,
{
    match json {
        JsonView::Array(items) => if depth == 0 {
            false
        } else {
            forall|i: int| 0 <= i < items.len() ==> fits(#[trigger] items[i], (depth - 1) as nat)
        },
        JsonView::Object(members) => if depth == 0 {
            false
        } else {
            forall|i: int|
                0 <= i < members.len() ==> fits((#[trigger] members[i]).value, (depth - 1) as nat)
        },
        _ => true,
    }
}

/// The outermost layer of a `serde_json::Value`: what kind of value it is,
/// with what it holds.
pub(crate) enum Layer {
    Null,
    Bool(bool),
    Number(String),
    Text(String),
    Array(Vec<serde_json::Value>),
    Object(Vec<(String, serde_json::Value)>),
}

/// Tells the variants of a `serde_json::Value` apart and hands out what the
/// value holds: a number as `serde_json` writes it, the items of an array
/// in their order, and the members of an object in the order in which
/// `serde_json` hands them out. The contract says no more than that this
/// is what [`value_json`] names, layer by layer.
#[verifier::external_body]
pub(crate) fn layer_of(value: serde_json::Value) -> (r: Layer)
    ensures
        value_json(value) == match r {
            Layer::Null => JsonView::Null,
            Layer::Bool(b) => JsonView::Bool(b),
            Layer::Number(n) => JsonView::Number(n@),
            Layer::Text(s) => JsonView::Text(s@),
            Layer::Array(items) => JsonView::Array(items_json(items@)),
            Layer::Object(members) => JsonView::Object(members_json(members@)),
        },
{
    match value {
        serde_json::Value::Null => Layer::Null,
        serde_json::Value::Bool(b) => Layer::Bool(b),
        serde_json::Value::Number(n) => Layer::Number(n.to_string()),
        serde_json::Value::String(s) => Layer::Text(s),
        serde_json::Value::Array(items) => Layer::Array(items),
        serde_json::Value::Object(members) => Layer::Object(members.into_iter().collect()),
    }
}

/// How deep a value may be nested to be read.
pub const MAX_DEPTH: usize = 128;

/// The structured value that `value` holds, if no value in it is nested
/// more than `depth` arrays and objects deep; else nothing.
pub fn json_from_value(value: serde_json::Value, depth: usize) -> (r: Option<Json>)
    ensures
        r is Some <==> fits(value_json(value), depth as nat),
        r matches Some(json) ==> json@ == value_json(value),
    decreases depth,
{
    let ghost target = value_json(value);
    match layer_of(value) {
        Layer::Null => Some(Json::Null),
        Layer::Bool(b) => Some(Json::Bool(b)),
        Layer::Number(n) => Some(Json::Number(n)),
        Layer::Text(s) => Some(Json::Text(s)),
        Layer::Array(items) => {
            if depth == 0 {
                return None;
            }
            let ghost all = items@;
            let mut out: Vec<Json> = Vec::new();
            for item in it: items
                invariant
                    depth > 0,
                    it.seq() == all,
                    target == value_json(value),
                    target == JsonView::Array(items_json(all)),
                    out@.len() == it.index(),
                    forall|k: int|
                        0 <= k < out@.len() ==> (#[trigger] out@[k])@ == value_json(all[k]) && fits(
                            value_json(all[k]),
                            (depth - 1) as nat,
                        ),
            {
                let ghost at = it.index() as int;
                assert(item == all[at]);
                match json_from_value(item, depth - 1) {
                    Some(json) => out.push(json),
                    None => {
                        assert(target->Array_0[at] == value_json(all[at]));
                        return None;
                    },
                }
            }
            let r = Json::Array(out);
            assert(r@->Array_0 =~= items_json(all));
            assert forall|i: int| 0 <= i < items_json(all).len() implies fits(
                #[trigger] items_json(all)[i],
                (depth - 1) as nat,
            ) by {
                assert(out@[i]@ == value_json(all[i]));
            }
            Some(r)
        },
        Layer::Object(members) => {
            if depth == 0 {
                return None;
            }
            let ghost all = members@;
            let mut out: Vec<Member> = Vec::new();
            for member in it: members
                invariant
                    depth > 0,
                    it.seq() == all,
                    target == value_json(value),
                    target == JsonView::Object(members_json(all)),
                    out@.len() == it.index(),
                    forall|k: int|
                        0 <= k < out@.len() ==> (#[trigger] out@[k])@ == members_json(all)[k]
                            && fits(value_json(all[k].1), (depth - 1) as nat),
            {
                let ghost at = it.index() as int;
                assert(member == all[at]);
                assert(members_json(all)[at] == (MemberView {
                    name: member.0@,
                    value: value_json(member.1),
                }));
                match json_from_value(member.1, depth - 1) {
                    Some(json) => out.push(Member { name: member.0, value: json }),
                    None => {
                        assert(target->Object_0[at].value == value_json(all[at].1));
                        return None;
                    },
                }
            }
            proof {
                Json::lemma_object_view(out);
            }
            let r = Json::Object(out);
            assert(r@->Object_0 =~= members_json(all));
            assert forall|i: int| 0 <= i < members_json(all).len() implies fits(
                (#[trigger] members_json(all)[i]).value,
                (depth - 1) as nat,
            ) by {
                assert(out@[i]@ == members_json(all)[i]);
            }
            Some(r)
        },
    }
}

} // verus!
