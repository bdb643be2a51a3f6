//! A model of the document collection and of each request served against it.
//!
//! The collection maps identifiers to records. Each flow composes the
//! decisions of the handler, service and repository layers, whose contracts
//! are stated over the same spec functions, with the store's effect, for a
//! store that answers every call without a transport failure.
use vstd::prelude::*;
use crate::errors::ErrorView;
use crate::handlers::checked;
use crate::models::{
    ExperienceView,
    ResponsibilityView,
    SkillView,
    experience_violations,
    responsibility_violations,
    skill_violations,
    validation,
};
use crate::object_id::ObjectId;
use crate::repository::{create_outcome, delete_outcome, get_outcome, list_outcome, update_outcome};
use crate::service::{append_responsibility_outcome, append_skill_outcome, resolve_outcome};

verus! {

/// A record as kept under `id`: the store assigns the identifier.
pub open spec fn stored_as(e: ExperienceView, id: ObjectId) -> ExperienceView {
    ExperienceView { id: Some(id), ..e }
}

/// Insert under a fresh identifier.
pub open spec fn store_insert(
    s: Map<ObjectId, ExperienceView>,
    id: ObjectId,
    e: ExperienceView,
) -> Map<ObjectId, ExperienceView> {
    s.insert(id, stored_as(e, id))
}

/// Look a record up by identifier.
pub open spec fn store_find(s: Map<ObjectId, ExperienceView>, id: ObjectId) -> Option<
    ExperienceView,
> {
    if s.contains_key(id) {
        Some(s[id])
    } else {
        None
    }
}

/// Replace the whole record `id`; no effect when nothing has that identifier.
pub open spec fn store_replace(
    s: Map<ObjectId, ExperienceView>,
    id: ObjectId,
    e: ExperienceView,
) -> Map<ObjectId, ExperienceView> {
    if s.contains_key(id) {
        s.insert(id, stored_as(e, id))
    } else {
        s
    }
}

/// Remove the record `id`, if any.
pub open spec fn store_delete(s: Map<ObjectId, ExperienceView>, id: ObjectId) -> Map<
    ObjectId,
    ExperienceView,
> {
    s.remove(id)
}

/// `docs` is a listing of the whole collection. Its order is the store's and
/// is not fixed.
pub open spec fn lists(s: Map<ObjectId, ExperienceView>, docs: Seq<ExperienceView>) -> bool {
    docs.to_set() == s.values()
}

/// Create: check the body, then insert it under `fresh`.
pub open spec fn create_flow(s: Map<ObjectId, ExperienceView>, e: ExperienceView, fresh: ObjectId) -> (
    Map<ObjectId, ExperienceView>,
    Result<(), ErrorView>,
) {
    match checked(validation(experience_violations(e))) {
        Ok(()) => (store_insert(s, fresh, e), create_outcome(Ok(()))),
        Err(err) => (s, Err(err)),
    }
}

/// List: what the repository makes of a listing of the collection.
pub open spec fn list_flow(docs: Seq<ExperienceView>) -> Result<Seq<ExperienceView>, ErrorView> {
    list_outcome(Ok(docs))
}

/// Get by the identifier's text.
pub open spec fn get_flow(s: Map<ObjectId, ExperienceView>, id: Seq<char>) -> Result<
    Option<ExperienceView>,
    ErrorView,
> {
    match resolve_outcome(id) {
        Ok(o) => get_outcome(o, Ok(store_find(s, o))),
        Err(err) => Err(err),
    }
}

/// Update: check the body, resolve the identifier, replace the record.
pub open spec fn update_flow(s: Map<ObjectId, ExperienceView>, id: Seq<char>, e: ExperienceView) -> (
    Map<ObjectId, ExperienceView>,
    Result<(), ErrorView>,
) {
    match checked(validation(experience_violations(e))) {
        Ok(()) => match resolve_outcome(id) {
            Ok(o) => (store_replace(s, o, e), update_outcome(o, Ok(()))),
            Err(err) => (s, Err(err)),
        },
        Err(err) => (s, Err(err)),
    }
}

/// Delete by the identifier's text.
pub open spec fn delete_flow(s: Map<ObjectId, ExperienceView>, id: Seq<char>) -> (
    Map<ObjectId, ExperienceView>,
    Result<(), ErrorView>,
) {
    match resolve_outcome(id) {
        Ok(o) => (store_delete(s, o), delete_outcome(o, Ok(()))),
        Err(err) => (s, Err(err)),
    }
}

/// Add a responsibility: check it, resolve the identifier, read the record,
/// append in memory, write the whole record back.
pub open spec fn add_responsibility_flow(
    s: Map<ObjectId, ExperienceView>,
    id: Seq<char>,
    r: ResponsibilityView,
) -> (Map<ObjectId, ExperienceView>, Result<(), ErrorView>) {
    match checked(validation(responsibility_violations(r))) {
        Ok(()) => match resolve_outcome(id) {
            Ok(o) => match get_outcome(o, Ok(store_find(s, o))) {
                Ok(found) => match append_responsibility_outcome(id, found, r) {
                    Ok(updated) => (store_replace(s, o, updated), update_outcome(o, Ok(()))),
                    Err(err) => (s, Err(err)),
                },
                Err(err) => (s, Err(err)),
            },
            Err(err) => (s, Err(err)),
        },
        Err(err) => (s, Err(err)),
    }
}

/// Add a skill to the environment, in the same way.
pub open spec fn add_environment_flow(
    s: Map<ObjectId, ExperienceView>,
    id: Seq<char>,
    k: SkillView,
) -> (Map<ObjectId, ExperienceView>, Result<(), ErrorView>) {
    match checked(validation(skill_violations(k))) {
        Ok(()) => match resolve_outcome(id) {
            Ok(o) => match get_outcome(o, Ok(store_find(s, o))) {
                Ok(found) => match append_skill_outcome(id, found, k) {
                    Ok(updated) => (store_replace(s, o, updated), update_outcome(o, Ok(()))),
                    Err(err) => (s, Err(err)),
                },
                Err(err) => (s, Err(err)),
            },
            Err(err) => (s, Err(err)),
        },
        Err(err) => (s, Err(err)),
    }
}

} // verus!
