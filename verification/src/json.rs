//! The structural model of a JSON document body.
//!
//! The validator is purely structural: it inspects the kind of each value,
//! the elements of arrays and the members of objects, but never a scalar's
//! payload.  Scalar numbers and strings therefore carry no payload here;
//! object member names are kept, since the validator matches them against
//! declared property names.

use vstd::prelude::*;

verus! {

/// A parsed JSON value, reduced to its structure.
#[derive(Debug)]
pub enum Json {
    Null,
    Bool(bool),
    Num,
    Str,
    Arr(Vec<Json>),
    Obj(Vec<(String, Json)>),
}

/// The mathematical shape of a [`Json`] value.
pub enum JsonV {
    Null,
    Bool(bool),
    Num,
    Str,
    Arr(Seq<JsonV>),
    Obj(Seq<(Seq<char>, JsonV)>),
}

/// The shape of a member pair: the member name as a character sequence, and
/// the shape of its value.
pub open spec fn member_view(p: (String, Json)) -> (Seq<char>, JsonV)
    decreases p,
{
    (p.0@, json_view(p.1))
}

/// The shape of a JSON value.
pub open spec fn json_view(j: Json) -> JsonV
    decreases j,
{
    match j {
        Json::Null => JsonV::Null,
        Json::Bool(b) => JsonV::Bool(b),
        Json::Num => JsonV::Num,
        Json::Str => JsonV::Str,
        Json::Arr(items) => JsonV::Arr(arr_view(items, 0)),
        Json::Obj(members) => JsonV::Obj(obj_view(members, 0)),
    }
}

/// The shapes of the elements of `items` from position `i` on.
pub open spec fn arr_view(items: Vec<Json>, i: int) -> Seq<JsonV>
    decreases items, items@.len() - i,
{
    if 0 <= i < items@.len() {
        proof {
            broadcast use vstd::std_specs::vec::group_vec_axioms;
            broadcast use vstd::seq::axiom_seq_index_decreases;

            assert(decreases_to!(items => items@[i]));
        }
        seq![json_view(items@[i])] + arr_view(items, i + 1)
    } else {
        Seq::empty()
    }
}

/// The shapes of the members of `members` from position `i` on.
pub open spec fn obj_view(members: Vec<(String, Json)>, i: int) -> Seq<(Seq<char>, JsonV)>
    decreases members, members@.len() - i,
{
    if 0 <= i < members@.len() {
        proof {
            broadcast use vstd::std_specs::vec::group_vec_axioms;
            broadcast use vstd::seq::axiom_seq_index_decreases;

            assert(decreases_to!(members => members@[i]));
        }
        seq![member_view(members@[i])] + obj_view(members, i + 1)
    } else {
        Seq::empty()
    }
}

impl View for Json {
    type V = JsonV;

    open spec fn view(&self) -> JsonV {
        json_view(*self)
    }
}

/// `arr_view` is the element-wise shape of the vector's tail.
pub proof fn lemma_arr_view(items: Vec<Json>, i: int)
    requires
        0 <= i <= items@.len(),
    ensures
        arr_view(items, i) =~= items@.subrange(i, items@.len() as int).map_values(
            |x: Json| json_view(x),
        ),
    decreases items@.len() - i,
{
    if i < items@.len() {
        lemma_arr_view(items, i + 1);
    }
}

/// `obj_view` is the member-wise shape of the vector's tail.
pub proof fn lemma_obj_view(members: Vec<(String, Json)>, i: int)
    requires
        0 <= i <= members@.len(),
    ensures
        obj_view(members, i) =~= members@.subrange(i, members@.len() as int).map_values(
            |p: (String, Json)| member_view(p),
        ),
    decreases members@.len() - i,
{
    if i < members@.len() {
        lemma_obj_view(members, i + 1);
    }
}

} // verus!
