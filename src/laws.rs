//! Properties of the service over the collection model, proved from the
//! contracts of the handler, service and repository decisions.
use vstd::prelude::*;
use crate::errors::{ErrorKind, ErrorView, kind_status};
use crate::handlers::found_status;
use crate::models::{
    ExperienceView,
    ResponsibilityView,
    experience_violations,
    is_date_text,
    responsibility_violations,
};
use crate::object_id::{ObjectId, hex_char, hex_text, hex_value, is_hex_digit, is_object_id_text, object_id_bytes, parse_id};
use crate::store::{
    add_responsibility_flow,
    create_flow,
    delete_flow,
    get_flow,
    list_flow,
    lists,
    stored_as,
    update_flow,
};

verus! {

proof fn lemma_hex_char(n: int)
    requires
        0 <= n < 16,
    ensures
        is_hex_digit(hex_char(n)),
        hex_value(hex_char(n)) == n,
{
}

/// The hexadecimal text of an identifier parses back to that identifier.
pub proof fn lemma_hex_round_trip(id: ObjectId)
    ensures
        is_object_id_text(hex_text(id.bytes@)),
        parse_id(hex_text(id.bytes@)) == Some(id),
{
    let b = id.bytes@;
    let t = hex_text(b);
    assert forall|i: int| 0 <= i < t.len() implies is_hex_digit(#[trigger] t[i]) by {
        lemma_hex_char(b[i / 2] as int / 16);
        lemma_hex_char(b[i / 2] as int % 16);
    }
    assert forall|i: int| 0 <= i < 12 implies #[trigger] object_id_bytes(t)[i] == b[i] by {
        assert((2 * i) / 2 == i);
        assert((2 * i + 1) / 2 == i);
        assert((2 * i) % 2 == 0);
        assert((2 * i + 1) % 2 == 1);
        lemma_hex_char(b[i] as int / 16);
        lemma_hex_char(b[i] as int % 16);
        assert((b[i] as int / 16) * 16 + b[i] as int % 16 == b[i] as int);
    }
    assert(object_id_bytes(t) =~= b);
    let a = choose|a: [u8; 12]| a@ == object_id_bytes(t);
    assert(a@ == id.bytes@);
    assert(a == id.bytes);
}

/// A valid record is created, and getting it by the identifier the store
/// assigned yields the record, carrying that identifier.
pub proof fn lemma_create_then_get(
    s: Map<ObjectId, ExperienceView>,
    e: ExperienceView,
    fresh: ObjectId,
)
    requires
        e.is_valid(),
    ensures
        create_flow(s, e, fresh).1 == Ok::<(), ErrorView>(()),
        get_flow(create_flow(s, e, fresh).0, hex_text(fresh.bytes@)) == Ok::<
            Option<ExperienceView>,
            ErrorView,
        >(Some(stored_as(e, fresh))),
{
    assert(experience_violations(e) =~= seq![]);
    lemma_hex_round_trip(fresh);
}

/// A body with a malformed date is rejected as a validation error, and the
/// collection is left as it was.
pub proof fn lemma_malformed_date_rejected(
    s: Map<ObjectId, ExperienceView>,
    e: ExperienceView,
    fresh: ObjectId,
)
    requires
        !is_date_text(e.start_date) || !is_date_text(e.end_date),
    ensures
        create_flow(s, e, fresh).0 == s,
        create_flow(s, e, fresh).1 is Err,
        create_flow(s, e, fresh).1->Err_0.kind == ErrorKind::ValidationError,
        kind_status(create_flow(s, e, fresh).1->Err_0.kind) == 400,
{
    assert(experience_violations(e).len() > 0);
}

/// A malformed identifier fails as an invalid identifier whatever the
/// collection holds: no lookup decides the answer.
pub proof fn lemma_invalid_id_rejected(
    s: Map<ObjectId, ExperienceView>,
    other: Map<ObjectId, ExperienceView>,
    id: Seq<char>,
)
    requires
        !is_object_id_text(id),
    ensures
        get_flow(s, id) is Err,
        get_flow(s, id)->Err_0.kind == ErrorKind::InvalidObjectId,
        get_flow(s, id) == get_flow(other, id),
        found_status(get_flow(s, id)) == 400,
{
}

/// A well-formed identifier that names no record gets an empty answer,
/// replied as 404, not a database error.
pub proof fn lemma_absent_id_not_found(s: Map<ObjectId, ExperienceView>, id: Seq<char>)
    requires
        is_object_id_text(id),
        !s.contains_key(parse_id(id)->Some_0),
    ensures
        get_flow(s, id) == Ok::<Option<ExperienceView>, ErrorView>(None),
        found_status(get_flow(s, id)) == 404,
{
}

/// Listing an empty collection fails as not found; listing a non-empty one
/// returns the listing as the store gave it, every record once, in the
/// store's order.
pub proof fn lemma_list(s: Map<ObjectId, ExperienceView>, docs: Seq<ExperienceView>)
    requires
        lists(s, docs),
    ensures
        s.is_empty() ==> list_flow(docs) is Err && list_flow(docs)->Err_0.kind
            == ErrorKind::NotFound,
        !s.is_empty() ==> list_flow(docs) == Ok::<Seq<ExperienceView>, ErrorView>(docs),
{
    if s.is_empty() {
        if docs.len() > 0 {
            assert(docs.to_set().contains(docs[0]));
            let k = choose|k: ObjectId| #[trigger] s.contains_key(k) && s[k] == docs[0];
            assert(s.dom().contains(k));
        }
    } else {
        let k = choose|k: ObjectId| s.dom().contains(k);
        assert(s.values().contains(s[k]));
        if docs.len() == 0 {
            assert(docs.to_set() =~= Set::empty());
        }
    }
}

/// Appending a responsibility to an existing record adds exactly that entry at
/// the end of its list, and a second sequential append keeps the first.
pub proof fn lemma_append_responsibility_twice(
    s: Map<ObjectId, ExperienceView>,
    id: Seq<char>,
    r1: ResponsibilityView,
    r2: ResponsibilityView,
)
    requires
        is_object_id_text(id),
        s.contains_key(parse_id(id)->Some_0),
        r1.is_valid(),
        r2.is_valid(),
    ensures
        ({
            let o = parse_id(id)->Some_0;
            let (s1, out1) = add_responsibility_flow(s, id, r1);
            let (s2, out2) = add_responsibility_flow(s1, id, r2);
            &&& out1 is Ok
            &&& out2 is Ok
            &&& s1.contains_key(o)
            &&& s1[o].responsibilities == s[o].responsibilities.push(r1)
            &&& s2[o].responsibilities == s[o].responsibilities.push(r1).push(r2)
            &&& s1.dom() == s.dom()
            &&& s2.dom() == s.dom()
        }),
{
    assert(responsibility_violations(r1) =~= seq![]);
    assert(responsibility_violations(r2) =~= seq![]);
    let o = parse_id(id)->Some_0;
    let s1 = add_responsibility_flow(s, id, r1).0;
    assert(s1.dom() =~= s.dom());
    let s2 = add_responsibility_flow(s1, id, r2).0;
    assert(s2.dom() =~= s.dom());
}

/// After a delete, getting the same identifier finds nothing (404).
pub proof fn lemma_delete_then_get(s: Map<ObjectId, ExperienceView>, id: Seq<char>)
    requires
        is_object_id_text(id),
    ensures
        delete_flow(s, id).1 == Ok::<(), ErrorView>(()),
        get_flow(delete_flow(s, id).0, id) == Ok::<Option<ExperienceView>, ErrorView>(None),
        found_status(get_flow(delete_flow(s, id).0, id)) == 404,
{
}

/// Create, get, update with other fields, get again: the second get returns
/// exactly the new fields, under the identifier the store assigned.
pub proof fn lemma_round_trip(
    s: Map<ObjectId, ExperienceView>,
    e: ExperienceView,
    changed: ExperienceView,
    fresh: ObjectId,
)
    requires
        e.is_valid(),
        changed.is_valid(),
    ensures
        ({
            let t = hex_text(fresh.bytes@);
            let (s1, created) = create_flow(s, e, fresh);
            let (s2, updated) = update_flow(s1, t, changed);
            &&& created is Ok
            &&& get_flow(s1, t) == Ok::<Option<ExperienceView>, ErrorView>(Some(stored_as(e, fresh)))
            &&& updated is Ok
            &&& get_flow(s2, t) == Ok::<Option<ExperienceView>, ErrorView>(
                Some(stored_as(changed, fresh)),
            )
        }),
{
    assert(experience_violations(e) =~= seq![]);
    assert(experience_violations(changed) =~= seq![]);
    lemma_hex_round_trip(fresh);
}

} // verus!
