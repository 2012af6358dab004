//! The structural schema validator: compares a parsed JSON value against a
//! resolved schema node and yields the failures, each at a slash-delimited
//! pointer into the value.
//!
//! Dispatch is on the kind of the value.  Known, deliberate gaps of the
//! validator, kept as they are: an array value against a non-array schema
//! yields no failure; properties declared but absent are not checked; an
//! `allOf` merge neither merges nor enforces `required` lists.

use vstd::prelude::*;
use vstd::string::StringExecFns;

use crate::json::{arr_view, json_view, lemma_arr_view, lemma_obj_view, member_view, obj_view,
    Json, JsonV};
use crate::record::{fails_view, no_failures, single_failure, Failure, FailureKind,
    FailureV, Perspective};
use crate::schema::{resolve_schema, spec_lookup, spec_resolve_schema, Document, Schema,
    SchemaKind, SchemaRef};
use crate::schema::lookup;
use crate::text::spec_decimal;
use crate::text::decimal_string;

verus! {

/// Last entry of `entries` whose key reads `key`, scanning right to left.
/// This is the entry a name-keyed map built by repeated insertion holds.
pub open spec fn spec_lookup_last<T>(entries: Seq<(String, T)>, key: Seq<char>) -> Option<T>
    decreases entries.len(),
{
    if entries.len() == 0 {
        None
    } else if entries.last().0@ == key {
        Some(entries.last().1)
    } else {
        spec_lookup_last(entries.drop_last(), key)
    }
}

/// The property schema that the `allOf` synthesis would declare for `key`:
/// members are taken in order, each resolved member of object kind
/// contributes its properties, and the last writer wins.  Members that do
/// not resolve, or resolve to a non-object kind, contribute nothing.
pub open spec fn merged_lookup(parts: Seq<SchemaRef>, doc: Document, key: Seq<char>) -> Option<
    SchemaRef,
>
    decreases parts.len(),
{
    if parts.len() == 0 {
        None
    } else {
        let found = match spec_resolve_schema(parts.last(), doc) {
            Some(s) => match s.kind {
                SchemaKind::Object { properties } => spec_lookup_last(properties@, key),
                _ => None,
            },
            None => None,
        };
        match found {
            Some(x) => Some(x),
            None => merged_lookup(parts.drop_last(), doc, key),
        }
    }
}

/// The failures of validating `v` against `schema`, at `pointer`.
pub open spec fn spec_validate(
    v: JsonV,
    schema: Schema,
    doc: Document,
    pointer: Seq<char>,
    p: Perspective,
) -> Seq<FailureV>
    decreases v, 0int,
{
    match v {
        JsonV::Null => if schema.nullable {
            Seq::empty()
        } else {
            seq![
                (FailureV {
                    kind: FailureKind::UnexpectedNull,
                    perspective: p,
                    text: "Received null value when null is not allowed at "@ + pointer,
                }),
            ]
        },
        JsonV::Bool(_) => match schema.kind {
            SchemaKind::Bool => Seq::empty(),
            _ => seq![
                (FailureV {
                    kind: FailureKind::UnexpectedBoolean,
                    perspective: p,
                    text: "Received unexpected boolean at "@ + pointer,
                }),
            ],
        },
        JsonV::Num => match schema.kind {
            SchemaKind::Num => Seq::empty(),
            SchemaKind::Int => Seq::empty(),
            _ => seq![
                (FailureV {
                    kind: FailureKind::UnexpectedNumber,
                    perspective: p,
                    text: "Received unexpected number at "@ + pointer,
                }),
            ],
        },
        JsonV::Str => match schema.kind {
            SchemaKind::Str => Seq::empty(),
            _ => seq![
                (FailureV {
                    kind: FailureKind::UnexpectedString,
                    perspective: p,
                    text: "Received unexpected string at "@ + pointer,
                }),
            ],
        },
        JsonV::Arr(elems) => match schema.kind {
            SchemaKind::Array { items } => match items {
                None => seq![
                    (FailureV {
                        kind: FailureKind::MissingSchemaDefinition,
                        perspective: p,
                        text: "Array schema does not contain items schema"@,
                    }),
                ],
                Some(ir) => match spec_resolve_schema(ir, doc) {
                    None => seq![
                        (FailureV {
                            kind: FailureKind::MissingSchemaDefinition,
                            perspective: p,
                            text:
                                "Could not find schema defined inline or as a #/components/schemas/ reference for array items"@,
                        }),
                    ],
                    Some(ischema) => validate_elements(elems, ischema, doc, pointer, p, 0),
                },
            },
            _ => Seq::empty(),
        },
        JsonV::Obj(members) => match schema.kind {
            SchemaKind::Object { properties } => validate_object(
                members,
                properties@,
                doc,
                pointer,
                p,
                0,
            ),
            SchemaKind::AllOf { members: parts } => validate_merged(
                members,
                parts@,
                doc,
                pointer,
                p,
                0,
            ),
            _ => seq![
                (FailureV {
                    kind: FailureKind::UnsupportedSchemaKind,
                    perspective: p,
                    text: "Received unsupported schema kind at "@ + pointer,
                }),
            ],
        },
    }
}

/// The failures of the array elements from position `i` on, each validated
/// against the items schema at the pointer extended by its index.
pub open spec fn validate_elements(
    elems: Seq<JsonV>,
    ischema: Schema,
    doc: Document,
    pointer: Seq<char>,
    p: Perspective,
    i: int,
) -> Seq<FailureV>
    decreases elems, elems.len() - i,
{
    if 0 <= i < elems.len() {
        proof {
            broadcast use vstd::seq::axiom_seq_index_decreases;

            assert(decreases_to!(elems => elems[i]));
        }
        spec_validate(elems[i], ischema, doc, pointer + spec_decimal(i as nat) + "/"@, p)
            + validate_elements(elems, ischema, doc, pointer, p, i + 1)
    } else {
        Seq::empty()
    }
}

/// The failures of one object member against a declared property schema
/// lookup result.
pub open spec fn member_failures(
    key: Seq<char>,
    val: JsonV,
    declared: Option<SchemaRef>,
    doc: Document,
    pointer: Seq<char>,
    p: Perspective,
) -> Seq<FailureV>
    decreases val,
{
    match declared {
        None => seq![
            (FailureV {
                kind: FailureKind::UnexpectedProperty,
                perspective: p,
                text: "Unexpected property at "@ + pointer + key,
            }),
        ],
        Some(pref) => match spec_resolve_schema(pref, doc) {
            None => seq![
                (FailureV {
                    kind: FailureKind::MissingSchemaDefinition,
                    perspective: p,
                    text:
                        "Could not find schema defined inline or as a #/components/schemas/ reference for property at "@
                        + pointer + key,
                }),
            ],
            Some(pschema) => spec_validate(val, pschema, doc, pointer + key + "/"@, p),
        },
    }
}

/// The failures of the object members from position `i` on, against the
/// declared properties of an object schema.
pub open spec fn validate_object(
    members: Seq<(Seq<char>, JsonV)>,
    properties: Seq<(String, SchemaRef)>,
    doc: Document,
    pointer: Seq<char>,
    p: Perspective,
    i: int,
) -> Seq<FailureV>
    decreases members, members.len() - i,
{
    if 0 <= i < members.len() {
        proof {
            broadcast use vstd::seq::axiom_seq_index_decreases;

            assert(decreases_to!(members => members[i]));
        }
        member_failures(
            members[i].0,
            members[i].1,
            spec_lookup(properties, members[i].0),
            doc,
            pointer,
            p,
        ) + validate_object(members, properties, doc, pointer, p, i + 1)
    } else {
        Seq::empty()
    }
}

/// The failures of the object members from position `i` on, against the
/// property map that the `allOf` synthesis yields.
pub open spec fn validate_merged(
    members: Seq<(Seq<char>, JsonV)>,
    parts: Seq<SchemaRef>,
    doc: Document,
    pointer: Seq<char>,
    p: Perspective,
    i: int,
) -> Seq<FailureV>
    decreases members, members.len() - i,
{
    if 0 <= i < members.len() {
        proof {
            broadcast use vstd::seq::axiom_seq_index_decreases;

            assert(decreases_to!(members => members[i]));
        }
        member_failures(
            members[i].0,
            members[i].1,
            merged_lookup(parts, doc, members[i].0),
            doc,
            pointer,
            p,
        ) + validate_merged(members, parts, doc, pointer, p, i + 1)
    } else {
        Seq::empty()
    }
}

/// Looks `key` up among `entries`, returning the last match.
fn lookup_last<'a, T>(entries: &'a Vec<(String, T)>, key: &str) -> (r: Option<&'a T>)
    ensures
        match r {
            Some(t) => spec_lookup_last(entries@, key@) == Some(*t),
            None => spec_lookup_last(entries@, key@) is None,
        },
{
    let mut i: usize = entries.len();
    proof {
        assert(entries@.take(i as int) =~= entries@);
    }
    while i > 0
        invariant
            i <= entries@.len(),
            spec_lookup_last(entries@, key@) == spec_lookup_last(entries@.take(i as int), key@),
        decreases i,
    {
        i = i - 1;
        let p = &entries[i];
        proof {
            assert(entries@.take(i as int + 1).last() == entries@[i as int]);
            assert(entries@.take(i as int + 1).drop_last() =~= entries@.take(i as int));
        }
        if crate::text::str_eq(p.0.as_str(), key) {
            return Some(&p.1);
        }
    }
    None
}

/// Looks `key` up in the property map that the `allOf` synthesis of `parts`
/// yields.
fn merged_lookup_x<'a>(parts: &'a Vec<SchemaRef>, doc: &'a Document, key: &str) -> (r: Option<
    &'a SchemaRef,
>)
    ensures
        match r {
            Some(x) => merged_lookup(parts@, *doc, key@) == Some(*x),
            None => merged_lookup(parts@, *doc, key@) is None,
        },
{
    let mut i: usize = parts.len();
    proof {
        assert(parts@.take(i as int) =~= parts@);
    }
    while i > 0
        invariant
            i <= parts@.len(),
            merged_lookup(parts@, *doc, key@) == merged_lookup(parts@.take(i as int), *doc, key@),
        decreases i,
    {
        i = i - 1;
        proof {
            assert(parts@.take(i as int + 1).last() == parts@[i as int]);
            assert(parts@.take(i as int + 1).drop_last() =~= parts@.take(i as int));
        }
        let part = &parts[i];
        let mut found: Option<&SchemaRef> = None;
        match resolve_schema(part, doc) {
            Some(s) => match &s.kind {
                SchemaKind::Object { properties } => {
                    found = lookup_last(properties, key);
                },
                _ => {},
            },
            None => {},
        }
        if let Some(x) = found {
            return Some(x);
        }
    }
    None
}

/// Validates `v` against `schema`, reporting each failure at `pointer`
/// extended into the value.  Returns exactly what [`spec_validate`] says.
#[verifier::loop_isolation(false)]
#[verifier::rlimit(100)]
pub fn validate_schema(
    v: &Json,
    schema: &Schema,
    doc: &Document,
    pointer: &str,
    p: Perspective,
) -> (r: Vec<Failure>)
    ensures
        fails_view(r@) == spec_validate(v@, *schema, *doc, pointer@, p),
    decreases *v,
{
    match v {
        Json::Null => {
            if schema.nullable {
                no_failures()
            } else {
                single_failure(
                    FailureKind::UnexpectedNull,
                    p,
                    String::from_str("Received null value when null is not allowed at ").concat(
                        pointer,
                    ),
                )
            }
        },
        Json::Bool(_) => match &schema.kind {
            SchemaKind::Bool => no_failures(),
            _ => single_failure(
                FailureKind::UnexpectedBoolean,
                p,
                String::from_str("Received unexpected boolean at ").concat(pointer),
            ),
        },
        Json::Num => match &schema.kind {
            SchemaKind::Num => no_failures(),
            SchemaKind::Int => no_failures(),
            _ => single_failure(
                FailureKind::UnexpectedNumber,
                p,
                String::from_str("Received unexpected number at ").concat(pointer),
            ),
        },
        Json::Str => match &schema.kind {
            SchemaKind::Str => no_failures(),
            _ => single_failure(
                FailureKind::UnexpectedString,
                p,
                String::from_str("Received unexpected string at ").concat(pointer),
            ),
        },
        Json::Arr(items) => match &schema.kind {
            SchemaKind::Array { items: decl } => match decl {
                None => single_failure(
                    FailureKind::MissingSchemaDefinition,
                    p,
                    String::from_str("Array schema does not contain items schema"),
                ),
                Some(ir) => match resolve_schema(ir, doc) {
                    None => single_failure(
                        FailureKind::MissingSchemaDefinition,
                        p,
                        String::from_str(
                            "Could not find schema defined inline or as a #/components/schemas/ reference for array items",
                        ),
                    ),
                    Some(ischema) => {
                        let ghost ga = arr_view(*items, 0);
                        proof {
                            lemma_arr_view(*items, 0);
                            assert(items@.subrange(0, items@.len() as int) =~= items@);
                        }
                        let mut fails: Vec<Failure> = Vec::new();
                        let mut j: usize = 0;
                        while j < items.len()
                            invariant
                                j <= items@.len(),
                                ga == arr_view(*items, 0),
                                ga =~= items@.map_values(|x: Json| json_view(x)),
                                fails_view(fails@) + validate_elements(
                                    ga,
                                    *ischema,
                                    *doc,
                                    pointer@,
                                    p,
                                    j as int,
                                ) == validate_elements(ga, *ischema, *doc, pointer@, p, 0),
                                spec_resolve_schema(*ir, *doc) == Some(*ischema),
                            decreases items@.len() - j,
                        {
                            let d = decimal_string(j as u64);
                            let child_ptr = String::from_str(pointer).concat(d.as_str()).concat(
                                "/",
                            );
                            proof {
                                broadcast use vstd::std_specs::vec::group_vec_axioms;
                                broadcast use vstd::seq::axiom_seq_index_decreases;

                                assert(decreases_to!(*v => *items));
                                assert(decreases_to!(*items => items@[j as int]));
                            }
                            let mut cf = validate_schema(
                                &items[j],
                                ischema,
                                doc,
                                child_ptr.as_str(),
                                p,
                            );
                            proof {
                                assert(ga[j as int] == json_view(items@[j as int]));
                                assert(validate_elements(ga, *ischema, *doc, pointer@, p, j as int)
                                    == spec_validate(
                                    ga[j as int],
                                    *ischema,
                                    *doc,
                                    pointer@ + spec_decimal(j as nat) + "/"@,
                                    p,
                                ) + validate_elements(ga, *ischema, *doc, pointer@, p, j + 1));
                            }
                            let ghost pre_fails = fails@;
                            let ghost pre_cf = cf@;
                            fails.append(&mut cf);
                            proof {
                                assert(fails_view(fails@) =~= fails_view(pre_fails) + fails_view(
                                    pre_cf,
                                ));
                            }
                            j = j + 1;
                        }
                        proof {
                            assert(validate_elements(ga, *ischema, *doc, pointer@, p, j as int)
                                == Seq::<FailureV>::empty());
                            assert(fails_view(fails@) + Seq::<FailureV>::empty() =~= fails_view(
                                fails@,
                            ));
                        }
                        fails
                    },
                },
            },
            _ => no_failures(),
        },
        Json::Obj(members) => match &schema.kind {
            SchemaKind::Object { properties } => {
                let ghost gm = obj_view(*members, 0);
                proof {
                    lemma_obj_view(*members, 0);
                    assert(members@.subrange(0, members@.len() as int) =~= members@);
                }
                let mut fails: Vec<Failure> = Vec::new();
                let mut j: usize = 0;
                while j < members.len()
                    invariant
                        j <= members@.len(),
                        gm == obj_view(*members, 0),
                        gm =~= members@.map_values(|q: (String, Json)| member_view(q)),
                        fails_view(fails@) + validate_object(
                            gm,
                            properties@,
                            *doc,
                            pointer@,
                            p,
                            j as int,
                        ) == validate_object(gm, properties@, *doc, pointer@, p, 0),
                    decreases members@.len() - j,
                {
                    let key = &members[j].0;
                    let val = &members[j].1;
                    proof {
                        broadcast use vstd::std_specs::vec::group_vec_axioms;
                        broadcast use vstd::seq::axiom_seq_index_decreases;

                        assert(decreases_to!(*v => *members));
                        assert(decreases_to!(*members => members@[j as int]));
                        assert(gm[j as int] == member_view(members@[j as int]));
                    }
                    let mut cf = match lookup(properties, key.as_str()) {
                        None => single_failure(
                            FailureKind::UnexpectedProperty,
                            p,
                            String::from_str("Unexpected property at ").concat(pointer).concat(
                                key.as_str(),
                            ),
                        ),
                        Some(pref) => match resolve_schema(pref, doc) {
                            None => single_failure(
                                FailureKind::MissingSchemaDefinition,
                                p,
                                String::from_str(
                                    "Could not find schema defined inline or as a #/components/schemas/ reference for property at ",
                                ).concat(pointer).concat(key.as_str()),
                            ),
                            Some(pschema) => {
                                let child_ptr = String::from_str(pointer).concat(
                                    key.as_str(),
                                ).concat("/");
                                validate_schema(val, pschema, doc, child_ptr.as_str(), p)
                            },
                        },
                    };
                    proof {
                        assert(validate_object(gm, properties@, *doc, pointer@, p, j as int)
                            == member_failures(
                            gm[j as int].0,
                            gm[j as int].1,
                            spec_lookup(properties@, gm[j as int].0),
                            *doc,
                            pointer@,
                            p,
                        ) + validate_object(gm, properties@, *doc, pointer@, p, j + 1));
                    }
                    let ghost pre_fails = fails@;
                    let ghost pre_cf = cf@;
                    fails.append(&mut cf);
                    proof {
                        assert(fails_view(fails@) =~= fails_view(pre_fails) + fails_view(pre_cf));
                    }
                    j = j + 1;
                }
                proof {
                    assert(validate_object(gm, properties@, *doc, pointer@, p, j as int)
                        == Seq::<FailureV>::empty());
                    assert(fails_view(fails@) + Seq::<FailureV>::empty() =~= fails_view(fails@));
                }
                fails
            },
            SchemaKind::AllOf { members: parts } => {
                let ghost gm = obj_view(*members, 0);
                proof {
                    lemma_obj_view(*members, 0);
                    assert(members@.subrange(0, members@.len() as int) =~= members@);
                }
                let mut fails: Vec<Failure> = Vec::new();
                let mut j: usize = 0;
                while j < members.len()
                    invariant
                        j <= members@.len(),
                        gm == obj_view(*members, 0),
                        gm =~= members@.map_values(|q: (String, Json)| member_view(q)),
                        fails_view(fails@) + validate_merged(
                            gm,
                            parts@,
                            *doc,
                            pointer@,
                            p,
                            j as int,
                        ) == validate_merged(gm, parts@, *doc, pointer@, p, 0),
                    decreases members@.len() - j,
                {
                    let key = &members[j].0;
                    let val = &members[j].1;
                    proof {
                        broadcast use vstd::std_specs::vec::group_vec_axioms;
                        broadcast use vstd::seq::axiom_seq_index_decreases;

                        assert(decreases_to!(*v => *members));
                        assert(decreases_to!(*members => members@[j as int]));
                        assert(gm[j as int] == member_view(members@[j as int]));
                    }
                    let mut cf = match merged_lookup_x(parts, doc, key.as_str()) {
                        None => single_failure(
                            FailureKind::UnexpectedProperty,
                            p,
                            String::from_str("Unexpected property at ").concat(pointer).concat(
                                key.as_str(),
                            ),
                        ),
                        Some(pref) => match resolve_schema(pref, doc) {
                            None => single_failure(
                                FailureKind::MissingSchemaDefinition,
                                p,
                                String::from_str(
                                    "Could not find schema defined inline or as a #/components/schemas/ reference for property at ",
                                ).concat(pointer).concat(key.as_str()),
                            ),
                            Some(pschema) => {
                                let child_ptr = String::from_str(pointer).concat(
                                    key.as_str(),
                                ).concat("/");
                                validate_schema(val, pschema, doc, child_ptr.as_str(), p)
                            },
                        },
                    };
                    proof {
                        assert(validate_merged(gm, parts@, *doc, pointer@, p, j as int)
                            == member_failures(
                            gm[j as int].0,
                            gm[j as int].1,
                            merged_lookup(parts@, *doc, gm[j as int].0),
                            *doc,
                            pointer@,
                            p,
                        ) + validate_merged(gm, parts@, *doc, pointer@, p, j + 1));
                    }
                    let ghost pre_fails = fails@;
                    let ghost pre_cf = cf@;
                    fails.append(&mut cf);
                    proof {
                        assert(fails_view(fails@) =~= fails_view(pre_fails) + fails_view(pre_cf));
                    }
                    j = j + 1;
                }
                proof {
                    assert(validate_merged(gm, parts@, *doc, pointer@, p, j as int)
                        == Seq::<FailureV>::empty());
                    assert(fails_view(fails@) + Seq::<FailureV>::empty() =~= fails_view(fails@));
                }
                fails
            },
            _ => single_failure(
                FailureKind::UnsupportedSchemaKind,
                p,
                String::from_str("Received unsupported schema kind at ").concat(pointer),
            ),
        },
    }
}

} // verus!
