//! JSON documents as trees of plain values, with their mathematical model.

use vstd::prelude::*;

verus! {

/// The model of a JSON number.
pub enum NumberView {
    /// An integer from zero up.
    Unsigned(u64),
    /// An integer below zero.
    Signed(i64),
    /// Any other number, by its decimal text.
    Real(Seq<char>),
}

/// The model of a JSON document: what a [`JsonValue`] stands for.
pub enum JsonView {
    Null,
    Bool(bool),
    Number(NumberView),
    Text(Seq<char>),
    Array(Seq<JsonView>),
    /// The members of an object, in the order in which they are held.
    Object(Seq<(Seq<char>, JsonView)>),
}

/// A JSON number.
#[derive(Debug, PartialEq)]
pub enum JsonNumber {
    /// An integer from zero up.
    Unsigned(u64),
    /// An integer below zero.
    Signed(i64),
    /// Any other number (a fraction, an exponent, an integer beyond 64 bits),
    /// by its decimal text.
    Real(String),
}

/// A JSON document held as a tree.
#[derive(Debug, PartialEq)]
pub enum JsonValue {
    Null,
    Bool(bool),
    Number(JsonNumber),
    Text(String),
    Array(Vec<JsonValue>),
    /// The members of an object: key and value, in the order held.
    Object(Vec<(String, JsonValue)>),
}

impl View for JsonNumber {
    type V = NumberView;

    open spec fn view(&self) -> NumberView {
        match self {
            JsonNumber::Unsigned(n) => NumberView::Unsigned(*n),
            JsonNumber::Signed(n) => NumberView::Signed(*n),
            JsonNumber::Real(text) => NumberView::Real(text@),
        }
    }
}

/// The views of the first `n` items of an array, in order.
pub open spec fn items_view_upto(items: Vec<JsonValue>, n: nat) -> Seq<JsonView>
    decreases items, n,
{
    if n == 0 || n > items.len() {
        Seq::empty()
    } else {
        items_view_upto(items, (n - 1) as nat).push(items[n - 1]@)
    }
}

/// The views of the first `n` members of an object, in order.
pub open spec fn members_view_upto(members: Vec<(String, JsonValue)>, n: nat) -> Seq<
    (Seq<char>, JsonView),
>
    decreases members, n,
{
    if n == 0 || n > members.len() {
        Seq::empty()
    } else {
        members_view_upto(members, (n - 1) as nat).push((members[n - 1].0@, members[n - 1].1@))
    }
}

/// The views of the items of an array, in order.
pub open spec fn items_view(items: Vec<JsonValue>) -> Seq<JsonView> {
    items_view_upto(items, items.len() as nat)
}

/// The members of an object as pairs of key and view, in order.
pub open spec fn members_view(members: Vec<(String, JsonValue)>) -> Seq<(Seq<char>, JsonView)> {
    members_view_upto(members, members.len() as nat)
}

impl View for JsonValue {
    type V = JsonView;

    open spec fn view(&self) -> JsonView
        decreases self,
    {
        match self {
            JsonValue::Null => JsonView::Null,
            JsonValue::Bool(b) => JsonView::Bool(*b),
            JsonValue::Number(n) => JsonView::Number(n@),
            JsonValue::Text(text) => JsonView::Text(text@),
            JsonValue::Array(items) => JsonView::Array(items_view_upto(*items, items.len() as nat)),
            JsonValue::Object(members) => JsonView::Object(
                members_view_upto(*members, members.len() as nat),
            ),
        }
    }
}

proof fn lemma_items_view_upto(items: Vec<JsonValue>, n: nat)
    requires
        n <= items.len(),
    ensures
        items_view_upto(items, n).len() == n,
        forall|i: int| 0 <= i < n ==> (#[trigger] items_view_upto(items, n)[i]) == items[i]@,
    decreases n,
{
    if n > 0 {
        lemma_items_view_upto(items, (n - 1) as nat);
        assert(items_view_upto(items, n) == items_view_upto(items, (n - 1) as nat).push(
            items[n - 1]@,
        ));
    } else {
        assert(items_view_upto(items, n) == Seq::<JsonView>::empty());
    }
}

proof fn lemma_members_view_upto(members: Vec<(String, JsonValue)>, n: nat)
    requires
        n <= members.len(),
    ensures
        members_view_upto(members, n).len() == n,
        forall|i: int|
            0 <= i < n ==> (#[trigger] members_view_upto(members, n)[i]) == (
                members[i].0@,
                members[i].1@,
            ),
    decreases n,
{
    if n > 0 {
        lemma_members_view_upto(members, (n - 1) as nat);
        assert(members_view_upto(members, n) == members_view_upto(members, (n - 1) as nat).push(
            (members[n - 1].0@, members[n - 1].1@),
        ));
    } else {
        assert(members_view_upto(members, n) == Seq::<(Seq<char>, JsonView)>::empty());
    }
}

/// The view of an array holds the views of its items, one for one.
pub proof fn lemma_items_view(items: Vec<JsonValue>)
    ensures
        JsonValue::Array(items)@ == JsonView::Array(items_view(items)),
        items_view(items).len() == items.len(),
        forall|i: int| 0 <= i < items.len() ==> (#[trigger] items_view(items)[i]) == items[i]@,
{
    lemma_items_view_upto(items, items.len() as nat);
}

/// The view of an object holds key and view of each member, one for one.
pub proof fn lemma_members_view(members: Vec<(String, JsonValue)>)
    ensures
        JsonValue::Object(members)@ == JsonView::Object(members_view(members)),
        members_view(members).len() == members.len(),
        forall|i: int|
            0 <= i < members.len() ==> (#[trigger] members_view(members)[i]) == (
                members[i].0@,
                members[i].1@,
            ),
{
    lemma_members_view_upto(members, members.len() as nat);
}

impl Clone for JsonNumber {
    fn clone(&self) -> (copy: JsonNumber)
        ensures
            copy@ == self@,
    {
        match self {
            JsonNumber::Unsigned(n) => JsonNumber::Unsigned(*n),
            JsonNumber::Signed(n) => JsonNumber::Signed(*n),
            JsonNumber::Real(text) => JsonNumber::Real(text.clone()),
        }
    }
}

impl Clone for JsonValue {
    #[verifier::loop_isolation(false)]
    fn clone(&self) -> (copy: JsonValue)
        ensures
            copy@ == self@,
        decreases self,
    {
        match self {
            JsonValue::Null => JsonValue::Null,
            JsonValue::Bool(b) => JsonValue::Bool(*b),
            JsonValue::Number(n) => JsonValue::Number(n.clone()),
            JsonValue::Text(text) => JsonValue::Text(text.clone()),
            JsonValue::Array(items) => {
                let mut copies: Vec<JsonValue> = Vec::new();
                let mut i: usize = 0;
                while i < items.len()
                    invariant
                        i <= items.len(),
                        copies.len() == i,
                        forall|k: int| 0 <= k < i ==> copies[k]@ == items[k]@,
                    decreases items.len() - i,
                {
                    let item = items[i].clone();
                    copies.push(item);
                    i += 1;
                }
                proof {
                    lemma_items_view(copies);
                    lemma_items_view(*items);
                    assert(items_view(copies) =~= items_view(*items));
                }
                JsonValue::Array(copies)
            },
            JsonValue::Object(members) => {
                let mut copies: Vec<(String, JsonValue)> = Vec::new();
                let mut i: usize = 0;
                while i < members.len()
                    invariant
                        i <= members.len(),
                        copies.len() == i,
                        forall|k: int|
                            0 <= k < i ==> copies[k].0@ == members[k].0@ && copies[k].1@
                                == members[k].1@,
                    decreases members.len() - i,
                {
                    let key = members[i].0.clone();
                    let value = members[i].1.clone();
                    copies.push((key, value));
                    i += 1;
                }
                proof {
                    lemma_members_view(copies);
                    lemma_members_view(*members);
                    assert(members_view(copies) =~= members_view(*members));
                }
                JsonValue::Object(copies)
            },
        }
    }
}

} // verus!
